use ratatui_base16::Base16Palette;
use ratatui_base16::Base16PaletteError;
use ratatui_base16::Color;
use ratatui_base16::presets;

const DRACULA_YAML: &str = "scheme: 'Dracula'
author: 'Mike Barkmin (http://github.com/mikebarkmin) based on Dracula Theme (http://github.com/dracula)'
base00: '282936'
base01: '3a3c4e'
base02: '4d4f68'
base03: '626483'
base04: '62d6e8'
base05: 'e9e9f4'
base06: 'f1f2f8'
base07: 'f7f7fb'
base08: 'ea51b2'
base09: 'b45bcf'
base0a: '00f769'
base0b: 'ebff87'
base0c: 'a1efe4'
base0d: '62d6e8'
base0e: 'b45bcf'
base0f: '00f769'
";

#[test]
fn load_yaml_full_document() {
    let p = Base16Palette::from_yaml_str(DRACULA_YAML).unwrap();
    let d = presets::dracula();
    for i in 0..16usize {
        assert_eq!(p.slot(i), d.slot(i));
    }
    // Metadata is not captured from documents.
    assert_eq!(p.name, "");
    assert_eq!(p.author, "");
    assert_eq!(p.slug, "");
}

#[test]
fn load_yaml_with_hash_prefixed_values() {
    let text = "base00: '#181818'
base01: '#282828'
base02: '#383838'
base03: '#585858'
base04: '#b8b8b8'
base05: '#d8d8d8'
base06: '#e8e8e8'
base07: '#f8f8f8'
base08: '#ab4642'
base09: '#dc9656'
base0a: '#f7ca88'
base0b: '#a1b56c'
base0c: '#86c1b9'
base0d: '#7cafc2'
base0e: '#ba8baf'
base0f: '#a16946'
";
    let p = Base16Palette::from_yaml_str(text).unwrap();
    let d = presets::default_dark();
    for i in 0..16usize {
        assert_eq!(p.slot(i), d.slot(i));
    }
}

#[test]
fn load_yaml_missing_slot_fails() {
    // The same document as the full one, with `base0a` left out.
    let text = "base00: '282936'
base01: '3a3c4e'
base02: '4d4f68'
base03: '626483'
base04: '62d6e8'
base05: 'e9e9f4'
base06: 'f1f2f8'
base07: 'f7f7fb'
base08: 'ea51b2'
base09: 'b45bcf'
base0b: 'ebff87'
base0c: 'a1efe4'
base0d: '62d6e8'
base0e: 'b45bcf'
base0f: '00f769'
";
    let r = Base16Palette::from_yaml_str(text);
    assert!(matches!(r, Err(Base16PaletteError::ExtractionFailed(_))));
    if let Err(e) = r {
        assert!(e.message().contains("base0a"));
    }
}

#[test]
fn load_yaml_invalid_token_fails() {
    let text = "base00: 'not-a-color'
base01: '3a3c4e'
base02: '4d4f68'
base03: '626483'
base04: '62d6e8'
base05: 'e9e9f4'
base06: 'f1f2f8'
base07: 'f7f7fb'
base08: 'ea51b2'
base09: 'b45bcf'
base0a: '00f769'
base0b: 'ebff87'
base0c: 'a1efe4'
base0d: '62d6e8'
base0e: 'b45bcf'
base0f: '00f769'
";
    let r = Base16Palette::from_yaml_str(text);
    assert!(matches!(r, Err(Base16PaletteError::ExtractionFailed(_))));
}

#[test]
fn load_yaml_syntax_error_fails() {
    assert!(Base16Palette::from_yaml_str("{{{{").is_err());
    assert!(Base16Palette::from_yaml_str("").is_err());
    assert!(Base16Palette::from_yaml_str("just a scalar").is_err());
}

#[test]
fn load_toml_full_document() {
    let text = "base00 = '#282936'
base01 = '#3a3c4e'
base02 = '#4d4f68'
base03 = '#626483'
base04 = '#62d6e8'
base05 = '#e9e9f4'
base06 = '#f1f2f8'
base07 = '#f7f7fb'
base08 = '#ea51b2'
base09 = '#b45bcf'
base0a = '#00f769'
base0b = '#ebff87'
base0c = '#a1efe4'
base0d = '#62d6e8'
base0e = '#b45bcf'
base0f = '#00f769'
";
    let p = Base16Palette::from_toml_str(text).unwrap();
    let d = presets::dracula();
    for i in 0..16usize {
        assert_eq!(p.slot(i), d.slot(i));
    }
}

#[test]
fn load_toml_non_string_value_fails() {
    let text = "base00 = 181818
base01 = '#282828'
base02 = '#383838'
base03 = '#585858'
base04 = '#b8b8b8'
base05 = '#d8d8d8'
base06 = '#e8e8e8'
base07 = '#f8f8f8'
base08 = '#ab4642'
base09 = '#dc9656'
base0a = '#f7ca88'
base0b = '#a1b56c'
base0c = '#86c1b9'
base0d = '#7cafc2'
base0e = '#ba8baf'
base0f = '#a16946'
";
    let r = Base16Palette::from_toml_str(text);
    assert!(matches!(r, Err(Base16PaletteError::ExtractionFailed(_))));
}

#[test]
fn load_toml_syntax_error_fails() {
    assert!(Base16Palette::from_toml_str("= = =").is_err());
}

#[test]
fn yaml_round_trip() {
    let p = presets::dracula();
    let text = p.to_yaml_string();
    let reloaded = Base16Palette::from_yaml_str(&text).unwrap();
    for i in 0..16usize {
        assert_eq!(reloaded.slot(i), p.slot(i));
    }
}

#[test]
fn entries_round_trip() {
    let p = presets::ocean();
    let entries = p.to_entries();
    let reloaded = Base16Palette::from_entries(&entries).unwrap();
    for i in 0..16usize {
        assert_eq!(reloaded.slot(i), p.slot(i));
    }
}

#[test]
fn default_dark_preset_values() {
    let p = presets::default_dark();
    assert_eq!(p.name, "Default Dark");
    assert_eq!(p.author, "Chris Kempson (http://chriskempson.com)");
    assert_eq!(p.base00, Color::Rgb(0x18, 0x18, 0x18));
    assert_eq!(p.base01, Color::Rgb(0x28, 0x28, 0x28));
    assert_eq!(p.base02, Color::Rgb(0x38, 0x38, 0x38));
    assert_eq!(p.base03, Color::Rgb(0x58, 0x58, 0x58));
    assert_eq!(p.base04, Color::Rgb(0xb8, 0xb8, 0xb8));
    assert_eq!(p.base05, Color::Rgb(0xd8, 0xd8, 0xd8));
    assert_eq!(p.base06, Color::Rgb(0xe8, 0xe8, 0xe8));
    assert_eq!(p.base07, Color::Rgb(0xf8, 0xf8, 0xf8));
    assert_eq!(p.base08, Color::Rgb(0xab, 0x46, 0x42));
    assert_eq!(p.base09, Color::Rgb(0xdc, 0x96, 0x56));
    assert_eq!(p.base0a, Color::Rgb(0xf7, 0xca, 0x88));
    assert_eq!(p.base0b, Color::Rgb(0xa1, 0xb5, 0x6c));
    assert_eq!(p.base0c, Color::Rgb(0x86, 0xc1, 0xb9));
    assert_eq!(p.base0d, Color::Rgb(0x7c, 0xaf, 0xc2));
    assert_eq!(p.base0e, Color::Rgb(0xba, 0x8b, 0xaf));
    assert_eq!(p.base0f, Color::Rgb(0xa1, 0x69, 0x46));
}

#[test]
fn preset_catalog_is_populated() {
    let presets_list = [
        (presets::cupcake(), "Cupcake", Color::Rgb(0xfb, 0xf1, 0xf2)),
        (presets::default_dark(), "Default Dark", Color::Rgb(0x18, 0x18, 0x18)),
        (presets::default_light(), "Default Light", Color::Rgb(0xf8, 0xf8, 0xf8)),
        (presets::eighties(), "Eighties", Color::Rgb(0x2d, 0x2d, 0x2d)),
        (presets::mocha(), "Mocha", Color::Rgb(0x3b, 0x32, 0x28)),
        (presets::ocean(), "Ocean", Color::Rgb(0x2b, 0x30, 0x3b)),
        (presets::dracula(), "Dracula", Color::Rgb(0x28, 0x29, 0x36)),
        (presets::github_light(), "Github", Color::Rgb(0xff, 0xff, 0xff)),
        (presets::rose_pine_dawn(), "Rosé Pine Dawn", Color::Rgb(0xfa, 0xf4, 0xed)),
        (presets::rose_pine_moon(), "Rosé Pine Moon", Color::Rgb(0x23, 0x21, 0x36)),
        (presets::rose_pine(), "Rosé Pine", Color::Rgb(0x19, 0x17, 0x24)),
    ];
    for (p, name, base00) in presets_list {
        assert_eq!(p.name, name);
        assert_eq!(p.base00, base00);
        assert!(!p.author.is_empty());
        assert!(!p.slug.is_empty());
        // Every slot of every preset is a populated RGB triple that survives
        // a serialize-and-reload round trip.
        for i in 0..16usize {
            assert!(matches!(p.slot(i), Color::Rgb(_, _, _)));
        }
        let reloaded = Base16Palette::from_yaml_str(&p.to_yaml_string()).unwrap();
        for i in 0..16usize {
            assert_eq!(reloaded.slot(i), p.slot(i));
        }
    }
}

#[test]
fn default_palette() {
    let p = Base16Palette::default();
    assert_eq!(p.name, "");
    assert_eq!(p.author, "");
    assert_eq!(p.slug, "");
    for i in 0..16usize {
        assert_eq!(p.slot(i), Color::Reset);
    }
}

#[test]
fn extra_keys_are_ignored() {
    let mut text = String::from(DRACULA_YAML);
    text.push_str("extra: [1, 2, 3]\nnested:\n  inner: 'x'\n");
    let p = Base16Palette::from_yaml_str(&text).unwrap();
    assert_eq!(p.base0f, Color::Rgb(0x00, 0xf7, 0x69));
}
