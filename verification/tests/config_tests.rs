use email_image::color::{Color, ColorFormatError};
use email_image::config::{resolve_color, RenderConfig, DEFAULT_ALPHA, DEFAULT_FONT_SIZE};

#[test]
fn absent_settings_take_their_defaults() {
    let config =
        RenderConfig::from_options(String::from("a@b.com"), None, None, None, None, None).unwrap();
    assert_eq!(config.email, "a@b.com");
    assert_eq!(config.font, "inconsolata");
    assert_eq!(config.output_file, "email.png");
    assert_eq!(config.font_size, 16);
    assert_eq!(config.font_color, Color::new(0, 0, 0, 255));
    assert_eq!(config.background_color, Color::new(0, 0, 0, 0));
}

#[test]
fn given_settings_are_kept() {
    let config = RenderConfig::from_options(
        String::from("someone@example.org"),
        Some(String::from("Open Sans")),
        Some(40),
        Some(String::from("out/address.jpg")),
        Some("#102030"),
        Some("#FFFFFF80"),
    )
    .unwrap();
    assert_eq!(config.email, "someone@example.org");
    assert_eq!(config.font, "Open Sans");
    assert_eq!(config.output_file, "out/address.jpg");
    assert_eq!(config.font_size, 40);
    assert_eq!(config.font_color, Color::new(0x10, 0x20, 0x30, 255));
    assert_eq!(config.background_color, Color::new(255, 255, 255, 128));
}

#[test]
fn background_without_alpha_is_opaque() {
    let config = RenderConfig::from_options(
        String::new(),
        None,
        None,
        None,
        None,
        Some("#00ff00"),
    )
    .unwrap();
    assert_eq!(config.background_color, Color::new(0, 255, 0, 255));
    assert_eq!(config.email, "");
}

#[test]
fn bad_text_colour_fails_the_configuration() {
    let result = RenderConfig::from_options(
        String::from("a@b.com"),
        None,
        None,
        None,
        Some("red"),
        Some("#000000"),
    );
    assert!(matches!(result, Err(ColorFormatError)));
}

#[test]
fn bad_background_colour_fails_the_configuration() {
    let result = RenderConfig::from_options(
        String::from("a@b.com"),
        None,
        None,
        None,
        Some("#000000"),
        Some("#12345"),
    );
    assert!(matches!(result, Err(ColorFormatError)));
}

#[test]
fn colour_setting_is_parsed_or_defaulted() {
    let fallback = Color::new(9, 8, 7, 6);
    assert_eq!(resolve_color(None, fallback), Ok(fallback));
    assert_eq!(resolve_color(Some("#010203"), fallback), Ok(Color::new(1, 2, 3, 255)));
    assert_eq!(resolve_color(Some("#01020304"), fallback), Ok(Color::new(1, 2, 3, 4)));
    assert_eq!(resolve_color(Some("nonsense"), fallback), Err(ColorFormatError));
}

#[test]
fn defaults_have_their_values() {
    assert_eq!(DEFAULT_FONT_SIZE, 16);
    assert_eq!(DEFAULT_ALPHA, 255);
}
