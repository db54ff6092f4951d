use neomacs_display::view::{NeomacsEventProxy, TermEvent, TerminalManager, TerminalView};
use neomacs_display::TerminalMode;

#[test]
fn test_take_wakeup_true_then_false() {
    let mut proxy = NeomacsEventProxy::new(9);
    assert!(!proxy.take_wakeup());
    proxy.send_event(&TermEvent::Wakeup);
    assert!(proxy.take_wakeup());
    assert!(!proxy.take_wakeup());
}

#[test]
fn test_wakeup_coalesces() {
    let mut proxy = NeomacsEventProxy::new(9);
    proxy.send_event(&TermEvent::Wakeup);
    proxy.send_event(&TermEvent::Wakeup);
    proxy.send_event(&TermEvent::Wakeup);
    assert!(proxy.take_wakeup());
    assert!(!proxy.take_wakeup());
}

#[test]
fn test_side_channel_events_do_not_wake() {
    let mut proxy = NeomacsEventProxy::new(9);
    proxy.send_event(&TermEvent::Title(String::from("shell")));
    proxy.send_event(&TermEvent::Bell);
    proxy.send_event(&TermEvent::Exit);
    assert!(!proxy.take_wakeup());
}

#[test]
fn test_resize_changes_exactly_once() {
    let mut view = TerminalView::new(1, 80, 24, TerminalMode::Window);
    // Drain the initial dirty flag.
    assert!(view.update_content());
    assert!(!view.update_content());
    // A resize with no new output still reports one change, exactly once.
    view.resize(100, 30);
    assert!(view.update_content());
    assert!(!view.update_content());
    let content = view.content().expect("snapshot after update");
    assert_eq!(content.cols, 100);
    assert_eq!(content.rows, 30);
}

#[test]
fn test_output_wakes_update() {
    let mut view = TerminalView::new(1, 80, 24, TerminalMode::Inline);
    assert!(view.update_content());
    assert!(!view.update_content());
    view.process_output(b"x");
    assert!(view.update_content());
    assert!(!view.update_content());
}

#[test]
fn test_unchanged_update_keeps_snapshot() {
    let mut view = TerminalView::new(1, 80, 24, TerminalMode::Window);
    view.process_output(b"keep");
    assert!(view.update_content());
    let before = view.content().expect("snapshot").cells.len();
    assert!(!view.update_content());
    let after = view.content().expect("snapshot").cells.len();
    assert_eq!(before, after);
}

#[test]
fn test_manager_ids_monotonic_never_reused() {
    let mut mgr = TerminalManager::new();
    let a = mgr.create(80, 24, TerminalMode::Window);
    let b = mgr.create(80, 24, TerminalMode::Window);
    assert!(b > a);
    assert!(mgr.destroy(a));
    let mut seen = vec![a, b];
    for _ in 0..8 {
        let id = mgr.create(40, 12, TerminalMode::Floating);
        assert!(seen.iter().all(|&old| id > old));
        assert_ne!(id, a);
        seen.push(id);
    }
    // The destroyed id stays dead.
    assert!(mgr.get(a).is_none());
    assert!(!mgr.destroy(a));
}

#[test]
fn test_manager_get_and_len() {
    let mut mgr = TerminalManager::new();
    assert!(mgr.is_empty());
    let a = mgr.create(80, 24, TerminalMode::Window);
    let b = mgr.create(60, 20, TerminalMode::Inline);
    assert_eq!(mgr.len(), 2);
    assert!(!mgr.is_empty());
    assert_eq!(mgr.get(a).expect("a registered").id, a);
    assert_eq!(mgr.get(b).expect("b registered").cols, 60);
    assert_eq!(mgr.ids(), vec![a, b]);
    assert!(mgr.destroy(a));
    assert_eq!(mgr.len(), 1);
    assert_eq!(mgr.ids(), vec![b]);
}

#[test]
fn test_manager_update_all_reports_changed() {
    let mut mgr = TerminalManager::new();
    let a = mgr.create(80, 24, TerminalMode::Window);
    let b = mgr.create(80, 24, TerminalMode::Window);
    // Both start dirty.
    assert_eq!(mgr.update_all(), vec![a, b]);
    // Nothing changed since.
    assert_eq!(mgr.update_all(), Vec::<u32>::new());
    // Output to one session marks only that one.
    assert!(mgr.process_output(a, b"ping"));
    assert_eq!(mgr.update_all(), vec![a]);
    // A resize marks the resized one.
    assert!(mgr.resize(b, 90, 30));
    assert_eq!(mgr.update_all(), vec![b]);
    assert_eq!(mgr.get(b).expect("b registered").cols, 90);
}

#[test]
fn test_manager_targets_missing_session() {
    let mut mgr = TerminalManager::new();
    let a = mgr.create(80, 24, TerminalMode::Window);
    assert!(!mgr.process_output(a + 1, b"lost"));
    assert!(!mgr.resize(a + 1, 10, 10));
    assert!(mgr.get(a + 1).is_none());
}

#[test]
fn test_manager_default_is_empty() {
    let mgr = TerminalManager::default();
    assert!(mgr.is_empty());
    assert_eq!(mgr.ids(), Vec::<u32>::new());
}

#[test]
fn test_session_text_via_manager() {
    let mut mgr = TerminalManager::new();
    let a = mgr.create(80, 24, TerminalMode::Window);
    assert!(mgr.process_output(a, b"routed"));
    let text = mgr.get(a).expect("a registered").get_text(0, 0, 0, 5);
    assert_eq!(text, "routed");
}

#[test]
fn test_update_all_after_destroy_keeps_order() {
    let mut mgr = TerminalManager::new();
    let a = mgr.create(80, 24, TerminalMode::Window);
    let b = mgr.create(80, 24, TerminalMode::Window);
    let c = mgr.create(80, 24, TerminalMode::Window);
    assert!(mgr.destroy(b));
    // The remaining sessions report in registry order, without the dead id.
    assert_eq!(mgr.update_all(), vec![a, c]);
    assert_eq!(mgr.update_all(), Vec::<u32>::new());
    assert!(!mgr.process_output(b, b"gone"));
    assert_eq!(mgr.update_all(), Vec::<u32>::new());
}
