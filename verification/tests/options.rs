use neomacs_display::animation::{
    ascii_lowercase, bool_str, parse_bool, BufferTransitionConfig, BufferTransitionEffect,
    CursorAnimationMode, ScrollAnimationConfig, TransitionDirection, TransitionEasing,
};
use neomacs_display::backend::{WgpuRenderer, WinitBackend};
use neomacs_display::engine::TermGridSize;

#[test]
fn test_effect_from_str() {
    assert_eq!(BufferTransitionEffect::from_str("none"), BufferTransitionEffect::Disabled);
    assert_eq!(BufferTransitionEffect::from_str("crossfade"), BufferTransitionEffect::Crossfade);
    assert_eq!(BufferTransitionEffect::from_str("fade"), BufferTransitionEffect::Crossfade);
    assert_eq!(BufferTransitionEffect::from_str("slide"), BufferTransitionEffect::SlideLeft);
    assert_eq!(BufferTransitionEffect::from_str("slide-right"), BufferTransitionEffect::SlideRight);
    assert_eq!(BufferTransitionEffect::from_str("scale-fade"), BufferTransitionEffect::ScaleFade);
    assert_eq!(BufferTransitionEffect::from_str("stack"), BufferTransitionEffect::Push);
    assert_eq!(BufferTransitionEffect::from_str("blur"), BufferTransitionEffect::Blur);
    assert_eq!(BufferTransitionEffect::from_str("page-curl"), BufferTransitionEffect::PageCurl);
    assert_eq!(BufferTransitionEffect::from_str("BOOK"), BufferTransitionEffect::PageCurl);
    // Unknown names fall back to the crossfade default.
    assert_eq!(BufferTransitionEffect::from_str("wobble"), BufferTransitionEffect::Crossfade);
    assert_eq!(BufferTransitionEffect::default(), BufferTransitionEffect::Crossfade);
}

#[test]
fn test_mode_from_str() {
    assert_eq!(CursorAnimationMode::from_str("none"), CursorAnimationMode::Disabled);
    assert_eq!(CursorAnimationMode::from_str("smooth"), CursorAnimationMode::Smooth);
    assert_eq!(CursorAnimationMode::from_str("railgun"), CursorAnimationMode::Railgun);
    assert_eq!(CursorAnimationMode::from_str("Torpedo"), CursorAnimationMode::Torpedo);
    assert_eq!(CursorAnimationMode::from_str("PIXIEDUST"), CursorAnimationMode::Pixiedust);
    assert_eq!(CursorAnimationMode::from_str("sonicboom"), CursorAnimationMode::Sonicboom);
    assert_eq!(CursorAnimationMode::from_str("ripple"), CursorAnimationMode::Ripple);
    assert_eq!(CursorAnimationMode::from_str("wireframe"), CursorAnimationMode::Wireframe);
    assert_eq!(CursorAnimationMode::from_str("spin"), CursorAnimationMode::Smooth);
    assert_eq!(CursorAnimationMode::default(), CursorAnimationMode::Smooth);
}

#[test]
fn test_parse_bool_values() {
    assert!(parse_bool("t"));
    assert!(parse_bool("true"));
    assert!(parse_bool("TRUE"));
    assert!(parse_bool("1"));
    assert!(parse_bool("yes"));
    assert!(parse_bool("On"));
    assert!(!parse_bool("nil"));
    assert!(!parse_bool("false"));
    assert!(!parse_bool("0"));
    assert!(!parse_bool(""));
}

#[test]
fn test_bool_str_values() {
    assert_eq!(bool_str(true), "t");
    assert_eq!(bool_str(false), "nil");
}

#[test]
fn test_ascii_lowercase() {
    assert_eq!(ascii_lowercase("Page-Curl"), "page-curl");
    assert_eq!(ascii_lowercase("already"), "already");
    assert_eq!(ascii_lowercase("MIXED 123 ok"), "mixed 123 ok");
}

#[test]
fn test_transition_config_defaults() {
    let c = BufferTransitionConfig::default();
    assert!(c.enabled);
    assert_eq!(c.effect, BufferTransitionEffect::Crossfade);
    assert_eq!(c.duration_ms, 200);
    assert!(c.auto_detect);
    assert_eq!(c.duration(), 200u64);
    assert_eq!(std::time::Duration::from_millis(c.duration()).as_millis(), 200);
}

#[test]
fn test_scroll_config_defaults() {
    let c = ScrollAnimationConfig::default();
    assert!(c.enabled);
    assert_eq!(c.duration_ms, 150);
    assert_eq!(c.threshold_lines, 1);
}

#[test]
fn test_easing_and_direction_defaults() {
    assert_eq!(TransitionEasing::default(), TransitionEasing::EaseOut);
    assert_eq!(TransitionDirection::default(), TransitionDirection::Left);
}

#[test]
fn test_term_grid_size() {
    let s = TermGridSize::new(132, 43);
    assert_eq!(s.columns(), 132);
    assert_eq!(s.screen_lines(), 43);
    assert_eq!(s.total_lines(), 43);
}

#[test]
fn test_backend_handles() {
    let mut b = WinitBackend::new();
    assert!(!b.initialized);
    assert_eq!((b.width, b.height), (800, 600));
    b.resize(1024, 768);
    assert_eq!((b.width, b.height), (1024, 768));
    let r = WgpuRenderer::new();
    assert_eq!(r, WgpuRenderer::new());
}
