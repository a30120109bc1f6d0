//! The preset catalog: ready-to-use palettes built from fixed RGB values,
//! with no file I/O. Each function returns its palette with every slot
//! stated exactly in its contract.

use vstd::prelude::*;
use crate::color::Color;
use crate::palette::Base16Palette;

verus! {

/// The "Cupcake" scheme by Chris Kempson.
pub fn cupcake() -> (r: Base16Palette)
    ensures
        r.name@ == "Cupcake"@,
        r.author@ == "Chris Kempson (http://chriskempson.com)"@,
        r.slug@ == "https://github.com/chriskempson/base16-default-schemes/blob/master/cupcake.yaml"@,
        r.base00 == Color::Rgb(0xfb, 0xf1, 0xf2),
        r.base01 == Color::Rgb(0xf2, 0xf1, 0xf4),
        r.base02 == Color::Rgb(0xd8, 0xd5, 0xdd),
        r.base03 == Color::Rgb(0xbf, 0xb9, 0xc6),
        r.base04 == Color::Rgb(0xa5, 0x9d, 0xaf),
        r.base05 == Color::Rgb(0x8b, 0x81, 0x98),
        r.base06 == Color::Rgb(0x72, 0x67, 0x7e),
        r.base07 == Color::Rgb(0x58, 0x50, 0x62),
        r.base08 == Color::Rgb(0xd5, 0x7e, 0x85),
        r.base09 == Color::Rgb(0xeb, 0xb7, 0x90),
        r.base0a == Color::Rgb(0xdc, 0xb1, 0x6c),
        r.base0b == Color::Rgb(0xa3, 0xb3, 0x67),
        r.base0c == Color::Rgb(0x69, 0xa9, 0xa7),
        r.base0d == Color::Rgb(0x72, 0x97, 0xb9),
        r.base0e == Color::Rgb(0xbb, 0x99, 0xb4),
        r.base0f == Color::Rgb(0xba, 0xa5, 0x8c),
{
    Base16Palette {
        name: "Cupcake",
        author: "Chris Kempson (http://chriskempson.com)",
        slug: "https://github.com/chriskempson/base16-default-schemes/blob/master/cupcake.yaml",
        base00: Color::Rgb(0xfb, 0xf1, 0xf2),
        base01: Color::Rgb(0xf2, 0xf1, 0xf4),
        base02: Color::Rgb(0xd8, 0xd5, 0xdd),
        base03: Color::Rgb(0xbf, 0xb9, 0xc6),
        base04: Color::Rgb(0xa5, 0x9d, 0xaf),
        base05: Color::Rgb(0x8b, 0x81, 0x98),
        base06: Color::Rgb(0x72, 0x67, 0x7e),
        base07: Color::Rgb(0x58, 0x50, 0x62),
        base08: Color::Rgb(0xd5, 0x7e, 0x85),
        base09: Color::Rgb(0xeb, 0xb7, 0x90),
        base0a: Color::Rgb(0xdc, 0xb1, 0x6c),
        base0b: Color::Rgb(0xa3, 0xb3, 0x67),
        base0c: Color::Rgb(0x69, 0xa9, 0xa7),
        base0d: Color::Rgb(0x72, 0x97, 0xb9),
        base0e: Color::Rgb(0xbb, 0x99, 0xb4),
        base0f: Color::Rgb(0xba, 0xa5, 0x8c),
    }
}

/// The "Default Dark" scheme by Chris Kempson.
pub fn default_dark() -> (r: Base16Palette)
    ensures
        r.name@ == "Default Dark"@,
        r.author@ == "Chris Kempson (http://chriskempson.com)"@,
        r.slug@ == "https://github.com/chriskempson/base16-default-schemes/blob/master/default-dark.yaml"@,
        r.base00 == Color::Rgb(0x18, 0x18, 0x18),
        r.base01 == Color::Rgb(0x28, 0x28, 0x28),
        r.base02 == Color::Rgb(0x38, 0x38, 0x38),
        r.base03 == Color::Rgb(0x58, 0x58, 0x58),
        r.base04 == Color::Rgb(0xb8, 0xb8, 0xb8),
        r.base05 == Color::Rgb(0xd8, 0xd8, 0xd8),
        r.base06 == Color::Rgb(0xe8, 0xe8, 0xe8),
        r.base07 == Color::Rgb(0xf8, 0xf8, 0xf8),
        r.base08 == Color::Rgb(0xab, 0x46, 0x42),
        r.base09 == Color::Rgb(0xdc, 0x96, 0x56),
        r.base0a == Color::Rgb(0xf7, 0xca, 0x88),
        r.base0b == Color::Rgb(0xa1, 0xb5, 0x6c),
        r.base0c == Color::Rgb(0x86, 0xc1, 0xb9),
        r.base0d == Color::Rgb(0x7c, 0xaf, 0xc2),
        r.base0e == Color::Rgb(0xba, 0x8b, 0xaf),
        r.base0f == Color::Rgb(0xa1, 0x69, 0x46),
{
    Base16Palette {
        name: "Default Dark",
        author: "Chris Kempson (http://chriskempson.com)",
        slug: "https://github.com/chriskempson/base16-default-schemes/blob/master/default-dark.yaml",
        base00: Color::Rgb(0x18, 0x18, 0x18),
        base01: Color::Rgb(0x28, 0x28, 0x28),
        base02: Color::Rgb(0x38, 0x38, 0x38),
        base03: Color::Rgb(0x58, 0x58, 0x58),
        base04: Color::Rgb(0xb8, 0xb8, 0xb8),
        base05: Color::Rgb(0xd8, 0xd8, 0xd8),
        base06: Color::Rgb(0xe8, 0xe8, 0xe8),
        base07: Color::Rgb(0xf8, 0xf8, 0xf8),
        base08: Color::Rgb(0xab, 0x46, 0x42),
        base09: Color::Rgb(0xdc, 0x96, 0x56),
        base0a: Color::Rgb(0xf7, 0xca, 0x88),
        base0b: Color::Rgb(0xa1, 0xb5, 0x6c),
        base0c: Color::Rgb(0x86, 0xc1, 0xb9),
        base0d: Color::Rgb(0x7c, 0xaf, 0xc2),
        base0e: Color::Rgb(0xba, 0x8b, 0xaf),
        base0f: Color::Rgb(0xa1, 0x69, 0x46),
    }
}

/// The "Default Light" scheme by Chris Kempson.
pub fn default_light() -> (r: Base16Palette)
    ensures
        r.name@ == "Default Light"@,
        r.author@ == "Chris Kempson (http://chriskempson.com)"@,
        r.slug@ == "https://github.com/chriskempson/base16-default-schemes/blob/master/default-light.yaml"@,
        r.base00 == Color::Rgb(0xf8, 0xf8, 0xf8),
        r.base01 == Color::Rgb(0xe8, 0xe8, 0xe8),
        r.base02 == Color::Rgb(0xd8, 0xd8, 0xd8),
        r.base03 == Color::Rgb(0xb8, 0xb8, 0xb8),
        r.base04 == Color::Rgb(0x58, 0x58, 0x58),
        r.base05 == Color::Rgb(0x38, 0x38, 0x38),
        r.base06 == Color::Rgb(0x28, 0x28, 0x28),
        r.base07 == Color::Rgb(0x18, 0x18, 0x18),
        r.base08 == Color::Rgb(0xab, 0x46, 0x42),
        r.base09 == Color::Rgb(0xdc, 0x96, 0x56),
        r.base0a == Color::Rgb(0xf7, 0xca, 0x88),
        r.base0b == Color::Rgb(0xa1, 0xb5, 0x6c),
        r.base0c == Color::Rgb(0x86, 0xc1, 0xb9),
        r.base0d == Color::Rgb(0x7c, 0xaf, 0xc2),
        r.base0e == Color::Rgb(0xba, 0x8b, 0xaf),
        r.base0f == Color::Rgb(0xa1, 0x69, 0x46),
{
    Base16Palette {
        name: "Default Light",
        author: "Chris Kempson (http://chriskempson.com)",
        slug: "https://github.com/chriskempson/base16-default-schemes/blob/master/default-light.yaml",
        base00: Color::Rgb(0xf8, 0xf8, 0xf8),
        base01: Color::Rgb(0xe8, 0xe8, 0xe8),
        base02: Color::Rgb(0xd8, 0xd8, 0xd8),
        base03: Color::Rgb(0xb8, 0xb8, 0xb8),
        base04: Color::Rgb(0x58, 0x58, 0x58),
        base05: Color::Rgb(0x38, 0x38, 0x38),
        base06: Color::Rgb(0x28, 0x28, 0x28),
        base07: Color::Rgb(0x18, 0x18, 0x18),
        base08: Color::Rgb(0xab, 0x46, 0x42),
        base09: Color::Rgb(0xdc, 0x96, 0x56),
        base0a: Color::Rgb(0xf7, 0xca, 0x88),
        base0b: Color::Rgb(0xa1, 0xb5, 0x6c),
        base0c: Color::Rgb(0x86, 0xc1, 0xb9),
        base0d: Color::Rgb(0x7c, 0xaf, 0xc2),
        base0e: Color::Rgb(0xba, 0x8b, 0xaf),
        base0f: Color::Rgb(0xa1, 0x69, 0x46),
    }
}

/// The "Eighties" scheme by Chris Kempson.
pub fn eighties() -> (r: Base16Palette)
    ensures
        r.name@ == "Eighties"@,
        r.author@ == "Chris Kempson (http://chriskempson.com)"@,
        r.slug@ == "https://github.com/chriskempson/base16-default-schemes/blob/master/eighties.yaml"@,
        r.base00 == Color::Rgb(0x2d, 0x2d, 0x2d),
        r.base01 == Color::Rgb(0x39, 0x39, 0x39),
        r.base02 == Color::Rgb(0x51, 0x51, 0x51),
        r.base03 == Color::Rgb(0x74, 0x73, 0x69),
        r.base04 == Color::Rgb(0xa0, 0x9f, 0x93),
        r.base05 == Color::Rgb(0xd3, 0xd0, 0xc8),
        r.base06 == Color::Rgb(0xe8, 0xe6, 0xdf),
        r.base07 == Color::Rgb(0xf2, 0xf0, 0xec),
        r.base08 == Color::Rgb(0xf2, 0x77, 0x7a),
        r.base09 == Color::Rgb(0xf9, 0x91, 0x57),
        r.base0a == Color::Rgb(0xff, 0xcc, 0x66),
        r.base0b == Color::Rgb(0x99, 0xcc, 0x99),
        r.base0c == Color::Rgb(0x66, 0xcc, 0xcc),
        r.base0d == Color::Rgb(0x66, 0x99, 0xcc),
        r.base0e == Color::Rgb(0xcc, 0x99, 0xcc),
        r.base0f == Color::Rgb(0xd2, 0x7b, 0x53),
{
    Base16Palette {
        name: "Eighties",
        author: "Chris Kempson (http://chriskempson.com)",
        slug: "https://github.com/chriskempson/base16-default-schemes/blob/master/eighties.yaml",
        base00: Color::Rgb(0x2d, 0x2d, 0x2d),
        base01: Color::Rgb(0x39, 0x39, 0x39),
        base02: Color::Rgb(0x51, 0x51, 0x51),
        base03: Color::Rgb(0x74, 0x73, 0x69),
        base04: Color::Rgb(0xa0, 0x9f, 0x93),
        base05: Color::Rgb(0xd3, 0xd0, 0xc8),
        base06: Color::Rgb(0xe8, 0xe6, 0xdf),
        base07: Color::Rgb(0xf2, 0xf0, 0xec),
        base08: Color::Rgb(0xf2, 0x77, 0x7a),
        base09: Color::Rgb(0xf9, 0x91, 0x57),
        base0a: Color::Rgb(0xff, 0xcc, 0x66),
        base0b: Color::Rgb(0x99, 0xcc, 0x99),
        base0c: Color::Rgb(0x66, 0xcc, 0xcc),
        base0d: Color::Rgb(0x66, 0x99, 0xcc),
        base0e: Color::Rgb(0xcc, 0x99, 0xcc),
        base0f: Color::Rgb(0xd2, 0x7b, 0x53),
    }
}

/// The "Mocha" scheme by Chris Kempson.
pub fn mocha() -> (r: Base16Palette)
    ensures
        r.name@ == "Mocha"@,
        r.author@ == "Chris Kempson (http://chriskempson.com)"@,
        r.slug@ == "https://github.com/chriskempson/base16-default-schemes/blob/master/mocha.yaml"@,
        r.base00 == Color::Rgb(0x3b, 0x32, 0x28),
        r.base01 == Color::Rgb(0x53, 0x46, 0x36),
        r.base02 == Color::Rgb(0x64, 0x52, 0x40),
        r.base03 == Color::Rgb(0x7e, 0x70, 0x5a),
        r.base04 == Color::Rgb(0xb8, 0xaf, 0xad),
        r.base05 == Color::Rgb(0xd0, 0xc8, 0xc6),
        r.base06 == Color::Rgb(0xe9, 0xe1, 0xdd),
        r.base07 == Color::Rgb(0xf5, 0xee, 0xeb),
        r.base08 == Color::Rgb(0xcb, 0x60, 0x77),
        r.base09 == Color::Rgb(0xd2, 0x8b, 0x71),
        r.base0a == Color::Rgb(0xf4, 0xbc, 0x87),
        r.base0b == Color::Rgb(0xbe, 0xb5, 0x5b),
        r.base0c == Color::Rgb(0x7b, 0xbd, 0xa4),
        r.base0d == Color::Rgb(0x8a, 0xb3, 0xb5),
        r.base0e == Color::Rgb(0xa8, 0x9b, 0xb9),
        r.base0f == Color::Rgb(0xbb, 0x95, 0x84),
{
    Base16Palette {
        name: "Mocha",
        author: "Chris Kempson (http://chriskempson.com)",
        slug: "https://github.com/chriskempson/base16-default-schemes/blob/master/mocha.yaml",
        base00: Color::Rgb(0x3b, 0x32, 0x28),
        base01: Color::Rgb(0x53, 0x46, 0x36),
        base02: Color::Rgb(0x64, 0x52, 0x40),
        base03: Color::Rgb(0x7e, 0x70, 0x5a),
        base04: Color::Rgb(0xb8, 0xaf, 0xad),
        base05: Color::Rgb(0xd0, 0xc8, 0xc6),
        base06: Color::Rgb(0xe9, 0xe1, 0xdd),
        base07: Color::Rgb(0xf5, 0xee, 0xeb),
        base08: Color::Rgb(0xcb, 0x60, 0x77),
        base09: Color::Rgb(0xd2, 0x8b, 0x71),
        base0a: Color::Rgb(0xf4, 0xbc, 0x87),
        base0b: Color::Rgb(0xbe, 0xb5, 0x5b),
        base0c: Color::Rgb(0x7b, 0xbd, 0xa4),
        base0d: Color::Rgb(0x8a, 0xb3, 0xb5),
        base0e: Color::Rgb(0xa8, 0x9b, 0xb9),
        base0f: Color::Rgb(0xbb, 0x95, 0x84),
    }
}

/// The "Ocean" scheme by Chris Kempson.
pub fn ocean() -> (r: Base16Palette)
    ensures
        r.name@ == "Ocean"@,
        r.author@ == "Chris Kempson (http://chriskempson.com)"@,
        r.slug@ == "https://github.com/chriskempson/base16-default-schemes/blob/master/ocean.yaml"@,
        r.base00 == Color::Rgb(0x2b, 0x30, 0x3b),
        r.base01 == Color::Rgb(0x34, 0x3d, 0x46),
        r.base02 == Color::Rgb(0x4f, 0x5b, 0x66),
        r.base03 == Color::Rgb(0x65, 0x73, 0x7e),
        r.base04 == Color::Rgb(0xa7, 0xad, 0xba),
        r.base05 == Color::Rgb(0xc0, 0xc5, 0xce),
        r.base06 == Color::Rgb(0xdf, 0xe1, 0xe8),
        r.base07 == Color::Rgb(0xef, 0xf1, 0xf5),
        r.base08 == Color::Rgb(0xbf, 0x61, 0x6a),
        r.base09 == Color::Rgb(0xd0, 0x87, 0x70),
        r.base0a == Color::Rgb(0xeb, 0xcb, 0x8b),
        r.base0b == Color::Rgb(0xa3, 0xbe, 0x8c),
        r.base0c == Color::Rgb(0x96, 0xb5, 0xb4),
        r.base0d == Color::Rgb(0x8f, 0xa1, 0xb3),
        r.base0e == Color::Rgb(0xb4, 0x8e, 0xad),
        r.base0f == Color::Rgb(0xab, 0x79, 0x67),
{
    Base16Palette {
        name: "Ocean",
        author: "Chris Kempson (http://chriskempson.com)",
        slug: "https://github.com/chriskempson/base16-default-schemes/blob/master/ocean.yaml",
        base00: Color::Rgb(0x2b, 0x30, 0x3b),
        base01: Color::Rgb(0x34, 0x3d, 0x46),
        base02: Color::Rgb(0x4f, 0x5b, 0x66),
        base03: Color::Rgb(0x65, 0x73, 0x7e),
        base04: Color::Rgb(0xa7, 0xad, 0xba),
        base05: Color::Rgb(0xc0, 0xc5, 0xce),
        base06: Color::Rgb(0xdf, 0xe1, 0xe8),
        base07: Color::Rgb(0xef, 0xf1, 0xf5),
        base08: Color::Rgb(0xbf, 0x61, 0x6a),
        base09: Color::Rgb(0xd0, 0x87, 0x70),
        base0a: Color::Rgb(0xeb, 0xcb, 0x8b),
        base0b: Color::Rgb(0xa3, 0xbe, 0x8c),
        base0c: Color::Rgb(0x96, 0xb5, 0xb4),
        base0d: Color::Rgb(0x8f, 0xa1, 0xb3),
        base0e: Color::Rgb(0xb4, 0x8e, 0xad),
        base0f: Color::Rgb(0xab, 0x79, 0x67),
    }
}

/// The "Dracula" scheme by Mike Barkmin, based on the Dracula theme.
pub fn dracula() -> (r: Base16Palette)
    ensures
        r.name@ == "Dracula"@,
        r.author@
            == "Mike Barkmin (http://github.com/mikebarkmin) based on Dracula Theme (http://github.com/dracula)"@,
        r.slug@ == "https://github.com/dracula/base16-dracula-scheme/blob/master/dracula.yaml"@,
        r.base00 == Color::Rgb(0x28, 0x29, 0x36),
        r.base01 == Color::Rgb(0x3a, 0x3c, 0x4e),
        r.base02 == Color::Rgb(0x4d, 0x4f, 0x68),
        r.base03 == Color::Rgb(0x62, 0x64, 0x83),
        r.base04 == Color::Rgb(0x62, 0xd6, 0xe8),
        r.base05 == Color::Rgb(0xe9, 0xe9, 0xf4),
        r.base06 == Color::Rgb(0xf1, 0xf2, 0xf8),
        r.base07 == Color::Rgb(0xf7, 0xf7, 0xfb),
        r.base08 == Color::Rgb(0xea, 0x51, 0xb2),
        r.base09 == Color::Rgb(0xb4, 0x5b, 0xcf),
        r.base0a == Color::Rgb(0x00, 0xf7, 0x69),
        r.base0b == Color::Rgb(0xeb, 0xff, 0x87),
        r.base0c == Color::Rgb(0xa1, 0xef, 0xe4),
        r.base0d == Color::Rgb(0x62, 0xd6, 0xe8),
        r.base0e == Color::Rgb(0xb4, 0x5b, 0xcf),
        r.base0f == Color::Rgb(0x00, 0xf7, 0x69),
{
    Base16Palette {
        name: "Dracula",
        author: "Mike Barkmin (http://github.com/mikebarkmin) based on Dracula Theme (http://github.com/dracula)",
        slug: "https://github.com/dracula/base16-dracula-scheme/blob/master/dracula.yaml",
        base00: Color::Rgb(0x28, 0x29, 0x36),
        base01: Color::Rgb(0x3a, 0x3c, 0x4e),
        base02: Color::Rgb(0x4d, 0x4f, 0x68),
        base03: Color::Rgb(0x62, 0x64, 0x83),
        base04: Color::Rgb(0x62, 0xd6, 0xe8),
        base05: Color::Rgb(0xe9, 0xe9, 0xf4),
        base06: Color::Rgb(0xf1, 0xf2, 0xf8),
        base07: Color::Rgb(0xf7, 0xf7, 0xfb),
        base08: Color::Rgb(0xea, 0x51, 0xb2),
        base09: Color::Rgb(0xb4, 0x5b, 0xcf),
        base0a: Color::Rgb(0x00, 0xf7, 0x69),
        base0b: Color::Rgb(0xeb, 0xff, 0x87),
        base0c: Color::Rgb(0xa1, 0xef, 0xe4),
        base0d: Color::Rgb(0x62, 0xd6, 0xe8),
        base0e: Color::Rgb(0xb4, 0x5b, 0xcf),
        base0f: Color::Rgb(0x00, 0xf7, 0x69),
    }
}

/// The "Github" light scheme by Defman21.
pub fn github_light() -> (r: Base16Palette)
    ensures
        r.name@ == "Github"@,
        r.author@ == "Defman21"@,
        r.slug@ == "https://github.com/Defman21/base16-github-scheme/blob/master/github.yaml"@,
        r.base00 == Color::Rgb(0xff, 0xff, 0xff),
        r.base01 == Color::Rgb(0xf5, 0xf5, 0xf5),
        r.base02 == Color::Rgb(0xc8, 0xc8, 0xfa),
        r.base03 == Color::Rgb(0x96, 0x98, 0x96),
        r.base04 == Color::Rgb(0xe8, 0xe8, 0xe8),
        r.base05 == Color::Rgb(0x33, 0x33, 0x33),
        r.base06 == Color::Rgb(0xff, 0xff, 0xff),
        r.base07 == Color::Rgb(0xff, 0xff, 0xff),
        r.base08 == Color::Rgb(0xed, 0x6a, 0x43),
        r.base09 == Color::Rgb(0x00, 0x86, 0xb3),
        r.base0a == Color::Rgb(0x79, 0x5d, 0xa3),
        r.base0b == Color::Rgb(0x18, 0x36, 0x91),
        r.base0c == Color::Rgb(0x18, 0x36, 0x91),
        r.base0d == Color::Rgb(0x79, 0x5d, 0xa3),
        r.base0e == Color::Rgb(0xa7, 0x1d, 0x5d),
        r.base0f == Color::Rgb(0x33, 0x33, 0x33),
{
    Base16Palette {
        name: "Github",
        author: "Defman21",
        slug: "https://github.com/Defman21/base16-github-scheme/blob/master/github.yaml",
        base00: Color::Rgb(0xff, 0xff, 0xff),
        base01: Color::Rgb(0xf5, 0xf5, 0xf5),
        base02: Color::Rgb(0xc8, 0xc8, 0xfa),
        base03: Color::Rgb(0x96, 0x98, 0x96),
        base04: Color::Rgb(0xe8, 0xe8, 0xe8),
        base05: Color::Rgb(0x33, 0x33, 0x33),
        base06: Color::Rgb(0xff, 0xff, 0xff),
        base07: Color::Rgb(0xff, 0xff, 0xff),
        base08: Color::Rgb(0xed, 0x6a, 0x43),
        base09: Color::Rgb(0x00, 0x86, 0xb3),
        base0a: Color::Rgb(0x79, 0x5d, 0xa3),
        base0b: Color::Rgb(0x18, 0x36, 0x91),
        base0c: Color::Rgb(0x18, 0x36, 0x91),
        base0d: Color::Rgb(0x79, 0x5d, 0xa3),
        base0e: Color::Rgb(0xa7, 0x1d, 0x5d),
        base0f: Color::Rgb(0x33, 0x33, 0x33),
    }
}

/// The "Rosé Pine Dawn" scheme by Emilia Dunfelt.
pub fn rose_pine_dawn() -> (r: Base16Palette)
    ensures
        r.name@ == "Rosé Pine Dawn"@,
        r.author@ == "Emilia Dunfelt <edun@dunfelt.se>"@,
        r.slug@
            == "https://github.com/edunfelt/base16-rose-pine-scheme/blob/main/rose-pine-dawn.yaml"@,
        r.base00 == Color::Rgb(0xfa, 0xf4, 0xed),
        r.base01 == Color::Rgb(0xff, 0xfa, 0xf3),
        r.base02 == Color::Rgb(0xf2, 0xe9, 0xde),
        r.base03 == Color::Rgb(0x98, 0x93, 0xa5),
        r.base04 == Color::Rgb(0x79, 0x75, 0x93),
        r.base05 == Color::Rgb(0x57, 0x52, 0x79),
        r.base06 == Color::Rgb(0x57, 0x52, 0x79),
        r.base07 == Color::Rgb(0xce, 0xca, 0xcd),
        r.base08 == Color::Rgb(0xb4, 0x63, 0x7a),
        r.base09 == Color::Rgb(0xea, 0x9d, 0x34),
        r.base0a == Color::Rgb(0xd7, 0x82, 0x7e),
        r.base0b == Color::Rgb(0x28, 0x69, 0x83),
        r.base0c == Color::Rgb(0x56, 0x94, 0x9f),
        r.base0d == Color::Rgb(0x90, 0x7a, 0xa9),
        r.base0e == Color::Rgb(0xea, 0x9d, 0x34),
        r.base0f == Color::Rgb(0xce, 0xca, 0xcd),
{
    Base16Palette {
        name: "Rosé Pine Dawn",
        author: "Emilia Dunfelt <edun@dunfelt.se>",
        slug: "https://github.com/edunfelt/base16-rose-pine-scheme/blob/main/rose-pine-dawn.yaml",
        base00: Color::Rgb(0xfa, 0xf4, 0xed),
        base01: Color::Rgb(0xff, 0xfa, 0xf3),
        base02: Color::Rgb(0xf2, 0xe9, 0xde),
        base03: Color::Rgb(0x98, 0x93, 0xa5),
        base04: Color::Rgb(0x79, 0x75, 0x93),
        base05: Color::Rgb(0x57, 0x52, 0x79),
        base06: Color::Rgb(0x57, 0x52, 0x79),
        base07: Color::Rgb(0xce, 0xca, 0xcd),
        base08: Color::Rgb(0xb4, 0x63, 0x7a),
        base09: Color::Rgb(0xea, 0x9d, 0x34),
        base0a: Color::Rgb(0xd7, 0x82, 0x7e),
        base0b: Color::Rgb(0x28, 0x69, 0x83),
        base0c: Color::Rgb(0x56, 0x94, 0x9f),
        base0d: Color::Rgb(0x90, 0x7a, 0xa9),
        base0e: Color::Rgb(0xea, 0x9d, 0x34),
        base0f: Color::Rgb(0xce, 0xca, 0xcd),
    }
}

/// The "Rosé Pine Moon" scheme by Emilia Dunfelt.
pub fn rose_pine_moon() -> (r: Base16Palette)
    ensures
        r.name@ == "Rosé Pine Moon"@,
        r.author@ == "Emilia Dunfelt <edun@dunfelt.se>"@,
        r.slug@
            == "https://github.com/edunfelt/base16-rose-pine-scheme/blob/main/rose-pine-moon.yaml"@,
        r.base00 == Color::Rgb(0x23, 0x21, 0x36),
        r.base01 == Color::Rgb(0x2a, 0x27, 0x3f),
        r.base02 == Color::Rgb(0x39, 0x35, 0x52),
        r.base03 == Color::Rgb(0x6e, 0x6a, 0x86),
        r.base04 == Color::Rgb(0x90, 0x8c, 0xaa),
        r.base05 == Color::Rgb(0xe0, 0xde, 0xf4),
        r.base06 == Color::Rgb(0xe0, 0xde, 0xf4),
        r.base07 == Color::Rgb(0x56, 0x52, 0x6e),
        r.base08 == Color::Rgb(0xeb, 0x6f, 0x92),
        r.base09 == Color::Rgb(0xf6, 0xc1, 0x77),
        r.base0a == Color::Rgb(0xea, 0x9a, 0x97),
        r.base0b == Color::Rgb(0x3e, 0x8f, 0xb0),
        r.base0c == Color::Rgb(0x9c, 0xcf, 0xd8),
        r.base0d == Color::Rgb(0xc4, 0xa7, 0xe7),
        r.base0e == Color::Rgb(0xf6, 0xc1, 0x77),
        r.base0f == Color::Rgb(0x56, 0x52, 0x6e),
{
    Base16Palette {
        name: "Rosé Pine Moon",
        author: "Emilia Dunfelt <edun@dunfelt.se>",
        slug: "https://github.com/edunfelt/base16-rose-pine-scheme/blob/main/rose-pine-moon.yaml",
        base00: Color::Rgb(0x23, 0x21, 0x36),
        base01: Color::Rgb(0x2a, 0x27, 0x3f),
        base02: Color::Rgb(0x39, 0x35, 0x52),
        base03: Color::Rgb(0x6e, 0x6a, 0x86),
        base04: Color::Rgb(0x90, 0x8c, 0xaa),
        base05: Color::Rgb(0xe0, 0xde, 0xf4),
        base06: Color::Rgb(0xe0, 0xde, 0xf4),
        base07: Color::Rgb(0x56, 0x52, 0x6e),
        base08: Color::Rgb(0xeb, 0x6f, 0x92),
        base09: Color::Rgb(0xf6, 0xc1, 0x77),
        base0a: Color::Rgb(0xea, 0x9a, 0x97),
        base0b: Color::Rgb(0x3e, 0x8f, 0xb0),
        base0c: Color::Rgb(0x9c, 0xcf, 0xd8),
        base0d: Color::Rgb(0xc4, 0xa7, 0xe7),
        base0e: Color::Rgb(0xf6, 0xc1, 0x77),
        base0f: Color::Rgb(0x56, 0x52, 0x6e),
    }
}

/// The "Rosé Pine" scheme by Emilia Dunfelt.
pub fn rose_pine() -> (r: Base16Palette)
    ensures
        r.name@ == "Rosé Pine"@,
        r.author@ == "Emilia Dunfelt <edun@dunfelt.se>"@,
        r.slug@ == "https://github.com/edunfelt/base16-rose-pine-scheme/blob/main/rose-pine.yaml"@,
        r.base00 == Color::Rgb(0x19, 0x17, 0x24),
        r.base01 == Color::Rgb(0x1f, 0x1d, 0x2e),
        r.base02 == Color::Rgb(0x26, 0x23, 0x3a),
        r.base03 == Color::Rgb(0x6e, 0x6a, 0x86),
        r.base04 == Color::Rgb(0x90, 0x8c, 0xaa),
        r.base05 == Color::Rgb(0xe0, 0xde, 0xf4),
        r.base06 == Color::Rgb(0xe0, 0xde, 0xf4),
        r.base07 == Color::Rgb(0x52, 0x4f, 0x67),
        r.base08 == Color::Rgb(0xeb, 0x6f, 0x92),
        r.base09 == Color::Rgb(0xf6, 0xc1, 0x77),
        r.base0a == Color::Rgb(0xeb, 0xbc, 0xba),
        r.base0b == Color::Rgb(0x31, 0x74, 0x8f),
        r.base0c == Color::Rgb(0x9c, 0xcf, 0xd8),
        r.base0d == Color::Rgb(0xc4, 0xa7, 0xe7),
        r.base0e == Color::Rgb(0xf6, 0xc1, 0x77),
        r.base0f == Color::Rgb(0x52, 0x4f, 0x67),
{
    Base16Palette {
        name: "Rosé Pine",
        author: "Emilia Dunfelt <edun@dunfelt.se>",
        slug: "https://github.com/edunfelt/base16-rose-pine-scheme/blob/main/rose-pine.yaml",
        base00: Color::Rgb(0x19, 0x17, 0x24),
        base01: Color::Rgb(0x1f, 0x1d, 0x2e),
        base02: Color::Rgb(0x26, 0x23, 0x3a),
        base03: Color::Rgb(0x6e, 0x6a, 0x86),
        base04: Color::Rgb(0x90, 0x8c, 0xaa),
        base05: Color::Rgb(0xe0, 0xde, 0xf4),
        base06: Color::Rgb(0xe0, 0xde, 0xf4),
        base07: Color::Rgb(0x52, 0x4f, 0x67),
        base08: Color::Rgb(0xeb, 0x6f, 0x92),
        base09: Color::Rgb(0xf6, 0xc1, 0x77),
        base0a: Color::Rgb(0xeb, 0xbc, 0xba),
        base0b: Color::Rgb(0x31, 0x74, 0x8f),
        base0c: Color::Rgb(0x9c, 0xcf, 0xd8),
        base0d: Color::Rgb(0xc4, 0xa7, 0xe7),
        base0e: Color::Rgb(0xf6, 0xc1, 0x77),
        base0f: Color::Rgb(0x52, 0x4f, 0x67),
    }
}

} // verus!
