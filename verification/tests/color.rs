use ratatui_base16::Color;

#[test]
fn hex_with_and_without_hash() {
    let bare = Color::from_token("ffffff");
    let hashed = Color::from_token("#ffffff");
    assert_eq!(bare, Some(Color::Rgb(255, 255, 255)));
    assert_eq!(bare, hashed);

    let bare = Color::from_token("1a2B3c");
    let hashed = Color::from_token("#1a2B3c");
    assert_eq!(bare, Some(Color::Rgb(0x1a, 0x2b, 0x3c)));
    assert_eq!(bare, hashed);

    assert_eq!(Color::from_token("282936"), Some(Color::Rgb(0x28, 0x29, 0x36)));
    assert_eq!(Color::from_token("#000000"), Some(Color::Rgb(0, 0, 0)));
}

#[test]
fn named_colors() {
    assert_eq!(Color::parse("red"), Some(Color::Red));
    assert_eq!(Color::parse("Black"), Some(Color::Black));
    assert_eq!(Color::parse("Light Blue"), Some(Color::LightBlue));
    assert_eq!(Color::parse("bright-cyan"), Some(Color::LightCyan));
    assert_eq!(Color::parse("LIGHT_RED"), Some(Color::LightRed));
    assert_eq!(Color::parse("grey"), Some(Color::Gray));
    assert_eq!(Color::parse("silver"), Some(Color::Gray));
    assert_eq!(Color::parse("bright black"), Some(Color::DarkGray));
    assert_eq!(Color::parse("lightgray"), Some(Color::White));
    assert_eq!(Color::parse("reset"), Some(Color::Reset));
    assert_eq!(Color::parse("white"), Some(Color::White));
    assert_eq!(Color::parse("magenta"), Some(Color::Magenta));
}

#[test]
fn indexed_colors() {
    assert_eq!(Color::parse("0"), Some(Color::Indexed(0)));
    assert_eq!(Color::parse("10"), Some(Color::Indexed(10)));
    assert_eq!(Color::parse("255"), Some(Color::Indexed(255)));
    assert_eq!(Color::parse("+42"), Some(Color::Indexed(42)));
    assert_eq!(Color::parse("007"), Some(Color::Indexed(7)));
    assert_eq!(Color::parse("256"), None);
    assert_eq!(Color::parse("99999999"), None);
    assert_eq!(Color::parse("-1"), None);
}

#[test]
fn named_tokens_are_rejected_by_the_normalizer() {
    // A document token that does not start with `#` is parsed with `#`
    // prepended, so color names are not valid document tokens.
    assert_eq!(Color::from_token("red"), None);
    assert_eq!(Color::from_token("#red"), None);
}

#[test]
fn invalid_tokens() {
    assert_eq!(Color::parse(""), None);
    assert_eq!(Color::from_token(""), None);
    assert_eq!(Color::parse("#12345"), None);
    assert_eq!(Color::parse("#1234567"), None);
    assert_eq!(Color::parse("#12345g"), None);
    assert_eq!(Color::from_token("not-a-color"), None);
    assert_eq!(Color::from_token("#ffff"), None);
}

#[test]
fn token_rendering() {
    assert_eq!(Color::Rgb(0x18, 0x18, 0x18).token(), "#181818");
    assert_eq!(Color::Rgb(0xff, 0x00, 0xa5).token(), "#ff00a5");
    assert_eq!(Color::Reset.token(), "reset");
    assert_eq!(Color::LightMagenta.token(), "lightmagenta");
    assert_eq!(Color::Indexed(7).token(), "7");
    assert_eq!(Color::Indexed(42).token(), "42");
    assert_eq!(Color::Indexed(255).token(), "255");
}

#[test]
fn rgb_token_round_trip() {
    let colors = [
        Color::Rgb(0, 0, 0),
        Color::Rgb(1, 2, 3),
        Color::Rgb(255, 255, 255),
        Color::Rgb(0x7c, 0xaf, 0xc2),
    ];
    for c in colors {
        let token = c.token();
        assert_eq!(Color::from_token(&token), Some(c));
        assert_eq!(Color::parse(&token), Some(c));
    }
}

#[test]
fn from_u32() {
    assert_eq!(Color::from_u32(0x000000), Color::Rgb(0, 0, 0));
    assert_eq!(Color::from_u32(0xFF0000), Color::Rgb(255, 0, 0));
    assert_eq!(Color::from_u32(0x00FF00), Color::Rgb(0, 255, 0));
    assert_eq!(Color::from_u32(0x0000FF), Color::Rgb(0, 0, 255));
    assert_eq!(Color::from_u32(0xFFFFFF), Color::Rgb(255, 255, 255));
}

#[test]
fn default_color_is_reset() {
    assert_eq!(Color::default(), Color::Reset);
}
