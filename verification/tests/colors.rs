use neomacs_display::colors::{ansi_to_color, named_from_code, palette256, AnsiColor, Color, NamedColor};

fn white() -> Color {
    Color { r: 255, g: 255, b: 255 }
}

fn black() -> Color {
    Color { r: 0, g: 0, b: 0 }
}

fn chan(v: u8) -> f32 {
    v as f32 / 255.0
}

#[test]
fn test_named_colors() {
    let fg = white();
    let bg = black();
    let red = ansi_to_color(&AnsiColor::Named(NamedColor::Red), &fg, &bg);
    assert!(chan(red.r) > 0.5);
    assert!(chan(red.g) < 0.1);
}

#[test]
fn test_spec_color() {
    let fg = white();
    let bg = black();
    let c = ansi_to_color(&AnsiColor::Spec(Color { r: 128, g: 64, b: 32 }), &fg, &bg);
    assert!((chan(c.r) - 128.0 / 255.0).abs() < 0.01);
    assert!((chan(c.g) - 64.0 / 255.0).abs() < 0.01);
}

#[test]
fn test_indexed_color() {
    let fg = white();
    let bg = black();
    // Index 0 = black
    let black = ansi_to_color(&AnsiColor::Indexed(0), &fg, &bg);
    assert!(chan(black.r) < 0.01);
    // Index 15 = bright white
    let white = ansi_to_color(&AnsiColor::Indexed(15), &fg, &bg);
    assert!(chan(white.r) > 0.99);
}

#[test]
fn test_256_palette_initialized() {
    // Check that the 6x6x6 cube is populated
    assert!(chan(palette256(16).r) < 0.01); // 0,0,0 in cube
    assert!(chan(palette256(231).r) > 0.9); // 5,5,5 in cube
    // Check grayscale
    assert!(chan(palette256(232).r) > 0.01); // darkest gray
    assert!(chan(palette256(255).r) > 0.9); // near white
}

#[test]
fn test_palette_exact_values() {
    // Cube corners: channel = 0 for index 0, else (55 + 40 * index).
    assert_eq!(palette256(16), Color { r: 0, g: 0, b: 0 });
    assert_eq!(palette256(231), Color { r: 255, g: 255, b: 255 });
    // 17 = cube (0, 0, 1).
    assert_eq!(palette256(17), Color { r: 0, g: 0, b: 95 });
    // 196 = cube (5, 0, 0).
    assert_eq!(palette256(196), Color { r: 255, g: 0, b: 0 });
    // Grayscale ramp: 8 + 10 * step.
    assert_eq!(palette256(232), Color { r: 8, g: 8, b: 8 });
    assert_eq!(palette256(255), Color { r: 238, g: 238, b: 238 });
    // The named range matches the 16-colour table.
    assert_eq!(palette256(1), Color { r: 205, g: 0, b: 0 });
    assert_eq!(palette256(12), Color { r: 92, g: 92, b: 255 });
}

#[test]
fn test_default_colors_resolve_to_caller_values() {
    let fg = Color { r: 10, g: 20, b: 30 };
    let bg = Color { r: 40, g: 50, b: 60 };
    assert_eq!(ansi_to_color(&AnsiColor::Named(NamedColor::Foreground), &fg, &bg), fg);
    assert_eq!(ansi_to_color(&AnsiColor::Named(NamedColor::Background), &fg, &bg), bg);
    assert_eq!(ansi_to_color(&AnsiColor::Named(NamedColor::Cursor), &fg, &bg), fg);
    assert_eq!(ansi_to_color(&AnsiColor::Named(NamedColor::Other), &fg, &bg), fg);
}

#[test]
fn test_named_from_code() {
    assert_eq!(named_from_code(0), NamedColor::Black);
    assert_eq!(named_from_code(9), NamedColor::BrightRed);
    assert_eq!(named_from_code(15), NamedColor::BrightWhite);
    assert_eq!(named_from_code(256), NamedColor::Foreground);
    assert_eq!(named_from_code(257), NamedColor::Background);
    assert_eq!(named_from_code(258), NamedColor::Cursor);
    assert_eq!(named_from_code(259), NamedColor::Other);
    assert_eq!(named_from_code(99), NamedColor::Other);
}
