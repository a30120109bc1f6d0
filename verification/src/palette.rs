//! The palette record and its error type.

use vstd::prelude::*;
use crate::color::Color;

verus! {

/// A `Base16Palette` defines a color palette following the Base16 styling
/// guidelines: sixteen color slots, `base00` through `base0f`, plus
/// descriptive metadata. Slots `base00` to `base07` are shades running from
/// background to foreground; slots `base08` to `base0f` are the accent
/// colors used for types, operators, names and variables.
#[derive(Clone, Debug, PartialEq)]
pub struct Base16Palette {
    /// Display name of the scheme.
    pub name: &'static str,
    /// Author attribution.
    pub author: &'static str,
    /// Where the scheme comes from.
    pub slug: &'static str,
    /// Default background.
    pub base00: Color,
    /// Lighter background (status bars, line numbers, folding marks).
    pub base01: Color,
    /// Selection background.
    pub base02: Color,
    /// Comments, invisibles, line highlighting.
    pub base03: Color,
    /// Dark foreground (status bars).
    pub base04: Color,
    /// Default foreground, caret, delimiters, operators.
    pub base05: Color,
    /// Light foreground.
    pub base06: Color,
    /// Light background.
    pub base07: Color,
    /// Variables, XML tags, markup link text, diff deleted.
    pub base08: Color,
    /// Integers, booleans, constants, XML attributes.
    pub base09: Color,
    /// Classes, markup bold, search text background.
    pub base0a: Color,
    /// Strings, inherited class, markup code, diff inserted.
    pub base0b: Color,
    /// Support, regular expressions, escape characters.
    pub base0c: Color,
    /// Functions, methods, attribute IDs, headings.
    pub base0d: Color,
    /// Keywords, storage, selector, diff changed.
    pub base0e: Color,
    /// Deprecated constructs, embedded language tags.
    pub base0f: Color,
}

impl Base16Palette {
    /// The sixteen slots in order, `base00` first.
    pub open spec fn slots(&self) -> Seq<Color> {
        seq![
            self.base00,
            self.base01,
            self.base02,
            self.base03,
            self.base04,
            self.base05,
            self.base06,
            self.base07,
            self.base08,
            self.base09,
            self.base0a,
            self.base0b,
            self.base0c,
            self.base0d,
            self.base0e,
            self.base0f,
        ]
    }

    /// True when every slot holds an RGB triple, as all slots loaded from a
    /// document do.
    pub open spec fn all_rgb(&self) -> bool {
        forall|i: int| 0 <= i < 16 ==> self.slots()[i] is Rgb
    }

    /// The slot at position `i`, `base00` first.
    pub fn slot(&self, i: usize) -> (r: Color)
        requires
            i < 16,
        ensures
            r == self.slots()[i as int],
    {
        if i == 0 {
            self.base00
        } else if i == 1 {
            self.base01
        } else if i == 2 {
            self.base02
        } else if i == 3 {
            self.base03
        } else if i == 4 {
            self.base04
        } else if i == 5 {
            self.base05
        } else if i == 6 {
            self.base06
        } else if i == 7 {
            self.base07
        } else if i == 8 {
            self.base08
        } else if i == 9 {
            self.base09
        } else if i == 10 {
            self.base0a
        } else if i == 11 {
            self.base0b
        } else if i == 12 {
            self.base0c
        } else if i == 13 {
            self.base0d
        } else if i == 14 {
            self.base0e
        } else {
            self.base0f
        }
    }
}

impl Default for Base16Palette {
    /// An all-`Reset` palette with empty metadata.
    fn default() -> (r: Self)
        ensures
            r.slots() =~= Seq::new(16, |i: int| Color::Reset),
            r.name@ == Seq::<char>::empty(),
            r.author@ == Seq::<char>::empty(),
            r.slug@ == Seq::<char>::empty(),
    {
        proof {
            reveal_strlit("");
        }
        Base16Palette {
            name: "",
            author: "",
            slug: "",
            base00: Color::Reset,
            base01: Color::Reset,
            base02: Color::Reset,
            base03: Color::Reset,
            base04: Color::Reset,
            base05: Color::Reset,
            base06: Color::Reset,
            base07: Color::Reset,
            base08: Color::Reset,
            base09: Color::Reset,
            base0a: Color::Reset,
            base0b: Color::Reset,
            base0c: Color::Reset,
            base0d: Color::Reset,
            base0e: Color::Reset,
            base0f: Color::Reset,
        }
    }
}

/// The error of the loader. Any failure to produce a palette from a
/// document — an unreadable file, a syntax error, a missing slot, a
/// malformed color token — is reported as one kind, wrapping the underlying
/// cause as a message.
#[derive(Debug, PartialEq)]
#[non_exhaustive]
pub enum Base16PaletteError {
    /// Extraction of the palette from a file or document failed; the string
    /// describes the cause.
    ExtractionFailed(String),
}

impl Base16PaletteError {
    /// The wrapped cause, for display or logging.
    pub fn message(&self) -> (r: &str)
        ensures
            self matches Base16PaletteError::ExtractionFailed(m) ==> r@ == m@,
    {
        match self {
            Base16PaletteError::ExtractionFailed(m) => m.as_str(),
        }
    }
}

/// The fixed key of slot `i` in a configuration document, `"base00"` for
/// slot 0 through `"base0f"` for slot 15.
pub open spec fn slot_name_spec(i: int) -> Seq<char> {
    if i == 0 {
        "base00"@
    } else if i == 1 {
        "base01"@
    } else if i == 2 {
        "base02"@
    } else if i == 3 {
        "base03"@
    } else if i == 4 {
        "base04"@
    } else if i == 5 {
        "base05"@
    } else if i == 6 {
        "base06"@
    } else if i == 7 {
        "base07"@
    } else if i == 8 {
        "base08"@
    } else if i == 9 {
        "base09"@
    } else if i == 10 {
        "base0a"@
    } else if i == 11 {
        "base0b"@
    } else if i == 12 {
        "base0c"@
    } else if i == 13 {
        "base0d"@
    } else if i == 14 {
        "base0e"@
    } else {
        "base0f"@
    }
}

/// The key of slot `i`, as executable data.
pub fn slot_name(i: usize) -> (r: &'static str)
    requires
        i < 16,
    ensures
        r@ == slot_name_spec(i as int),
{
    if i == 0 {
        "base00"
    } else if i == 1 {
        "base01"
    } else if i == 2 {
        "base02"
    } else if i == 3 {
        "base03"
    } else if i == 4 {
        "base04"
    } else if i == 5 {
        "base05"
    } else if i == 6 {
        "base06"
    } else if i == 7 {
        "base07"
    } else if i == 8 {
        "base08"
    } else if i == 9 {
        "base09"
    } else if i == 10 {
        "base0a"
    } else if i == 11 {
        "base0b"
    } else if i == 12 {
        "base0c"
    } else if i == 13 {
        "base0d"
    } else if i == 14 {
        "base0e"
    } else {
        "base0f"
    }
}

} // verus!
