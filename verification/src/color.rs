//! The color model and the color-token grammar.
//!
//! A color token is either a color name (`"red"`, `"Light Blue"`,
//! `"bright-cyan"`), a decimal index into the 256-color table (`"42"`), or a
//! hex triple (`"#a1b2c3"`). Names are matched after dropping spaces, dashes
//! and underscores and lowercasing ASCII letters, so common spellings and
//! aliases (`grey`, `silver`, `bright red`) are accepted.

use vstd::prelude::*;
use vstd::string::StrSliceExecFns;
use vstd::string::StringExecFns;

verus! {

/// A terminal color: `Reset`, one of the sixteen ANSI names, a 24-bit RGB
/// triple, or an 8-bit indexed color.
#[derive(Clone, Copy, Debug, PartialEq, Eq, Structural)]
pub enum Color {
    Reset,
    Black,
    Red,
    Green,
    Yellow,
    Blue,
    Magenta,
    Cyan,
    Gray,
    DarkGray,
    LightRed,
    LightGreen,
    LightYellow,
    LightBlue,
    LightMagenta,
    LightCyan,
    White,
    Rgb(u8, u8, u8),
    Indexed(u8),
}

impl Default for Color {
    /// The default color is `Reset`.
    fn default() -> (r: Self)
        ensures
            r == Color::Reset,
    {
        Color::Reset
    }
}

/// Separator characters that the named-color grammar ignores.
pub open spec fn is_sep(c: char) -> bool {
    c == ' ' || c == '-' || c == '_'
}

/// ASCII lowercasing of a single character.
pub open spec fn lower_char(c: char) -> char {
    if 'A' <= c && c <= 'Z' {
        ((c as int) + 32) as char
    } else {
        c
    }
}

/// The canonical form of a color name: separators dropped and ASCII letters
/// lowercased.
pub open spec fn canon(s: Seq<char>) -> Seq<char>
    decreases s.len(),
{
    if s.len() == 0 {
        Seq::empty()
    } else if is_sep(s[0]) {
        canon(s.drop_first())
    } else {
        seq![lower_char(s[0])] + canon(s.drop_first())
    }
}

/// The color named by a canonical name, if any.
pub open spec fn named_color(c: Seq<char>) -> Option<Color> {
    if c == "reset"@ {
        Some(Color::Reset)
    } else if c == "black"@ {
        Some(Color::Black)
    } else if c == "red"@ {
        Some(Color::Red)
    } else if c == "green"@ {
        Some(Color::Green)
    } else if c == "yellow"@ {
        Some(Color::Yellow)
    } else if c == "blue"@ {
        Some(Color::Blue)
    } else if c == "magenta"@ {
        Some(Color::Magenta)
    } else if c == "cyan"@ {
        Some(Color::Cyan)
    } else if c == "gray"@ || c == "grey"@ || c == "silver"@ {
        Some(Color::Gray)
    } else if c == "darkgray"@ || c == "darkgrey"@ || c == "brightblack"@ || c == "lightblack"@ {
        Some(Color::DarkGray)
    } else if c == "lightred"@ || c == "brightred"@ {
        Some(Color::LightRed)
    } else if c == "lightgreen"@ || c == "brightgreen"@ {
        Some(Color::LightGreen)
    } else if c == "lightyellow"@ || c == "brightyellow"@ {
        Some(Color::LightYellow)
    } else if c == "lightblue"@ || c == "brightblue"@ {
        Some(Color::LightBlue)
    } else if c == "lightmagenta"@ || c == "brightmagenta"@ {
        Some(Color::LightMagenta)
    } else if c == "lightcyan"@ || c == "brightcyan"@ {
        Some(Color::LightCyan)
    } else if c == "white"@ || c == "lightwhite"@ || c == "brightwhite"@ || c == "lightgray"@
        || c == "lightgrey"@ {
        Some(Color::White)
    } else {
        None
    }
}

pub open spec fn is_dec_digit(c: char) -> bool {
    '0' <= c && c <= '9'
}

pub open spec fn is_hex_digit(c: char) -> bool {
    is_dec_digit(c) || ('a' <= c && c <= 'f') || ('A' <= c && c <= 'F')
}

/// Numeric value of a hex digit (decimal digits included).
pub open spec fn hex_digit_val(c: char) -> int {
    if is_dec_digit(c) {
        c as int - 48
    } else if 'a' <= c && c <= 'f' {
        c as int - 87
    } else {
        c as int - 55
    }
}

pub open spec fn all_dec_digits(s: Seq<char>) -> bool {
    forall|i: int| 0 <= i < s.len() ==> is_dec_digit(#[trigger] s[i])
}

pub open spec fn all_hex_digits(s: Seq<char>) -> bool {
    forall|i: int| 0 <= i < s.len() ==> is_hex_digit(#[trigger] s[i])
}

/// Value of a string of decimal digits, most significant first.
pub open spec fn dec_val(s: Seq<char>) -> int
    decreases s.len(),
{
    if s.len() == 0 {
        0
    } else {
        dec_val(s.drop_last()) * 10 + (s.last() as int - 48)
    }
}

/// An indexed-color token: an optional `+`, then decimal digits whose value
/// is at most 255.
pub open spec fn index_of_token(s: Seq<char>) -> Option<u8> {
    let digits = if s.len() > 0 && s[0] == '+' {
        s.drop_first()
    } else {
        s
    };
    if digits.len() > 0 && all_dec_digits(digits) && dec_val(digits) <= 255 {
        Some(dec_val(digits) as u8)
    } else {
        None
    }
}

/// A `#RRGGBB` token.
pub open spec fn rgb_of_token(s: Seq<char>) -> Option<Color> {
    if s.len() == 7 && s[0] == '#' && all_hex_digits(s.drop_first()) {
        Some(Color::Rgb(
            (hex_digit_val(s[1]) * 16 + hex_digit_val(s[2])) as u8,
            (hex_digit_val(s[3]) * 16 + hex_digit_val(s[4])) as u8,
            (hex_digit_val(s[5]) * 16 + hex_digit_val(s[6])) as u8,
        ))
    } else {
        None
    }
}

/// The whole color grammar: a color name, else an indexed color, else a hex
/// triple.
pub open spec fn color_of_str(s: Seq<char>) -> Option<Color> {
    if named_color(canon(s)) is Some {
        named_color(canon(s))
    } else if index_of_token(s) is Some {
        Some(Color::Indexed(index_of_token(s).unwrap()))
    } else {
        rgb_of_token(s)
    }
}

/// A token from a configuration document: parsed as-is when it starts with
/// `#`, otherwise parsed as if `#` were prepended. Bare `RRGGBB` hex strings
/// are thereby accepted alongside `#RRGGBB` ones.
pub open spec fn color_of_token(s: Seq<char>) -> Option<Color> {
    if s.len() > 0 && s[0] == '#' {
        color_of_str(s)
    } else {
        color_of_str(seq!['#'] + s)
    }
}

proof fn lemma_canon_append(a: Seq<char>, b: Seq<char>)
    ensures
        canon(a + b) == canon(a) + canon(b),
    decreases a.len(),
{
    if a.len() == 0 {
        assert(a + b =~= b);
        assert(canon(a) + canon(b) =~= canon(b));
    } else {
        assert((a + b).drop_first() =~= a.drop_first() + b);
        assert((a + b)[0] == a[0]);
        lemma_canon_append(a.drop_first(), b);
        if is_sep(a[0]) {
            assert(canon(a + b) == canon(a.drop_first() + b));
        } else {
            assert(seq![lower_char(a[0])] + (canon(a.drop_first()) + canon(b)) =~= (seq![
                lower_char(a[0]),
            ] + canon(a.drop_first())) + canon(b));
        }
    }
}

fn canonical_chars(s: &str) -> (r: Vec<char>)
    ensures
        r@ == canon(s@),
{
    let n = s.unicode_len();
    let mut out: Vec<char> = Vec::new();
    let mut i: usize = 0;
    while i < n
        invariant
            n == s@.len(),
            i <= n,
            out@ == canon(s@.take(i as int)),
        decreases n - i,
    {
        let c = s.get_char(i);
        proof {
            assert(s@.take(i + 1) =~= s@.take(i as int) + seq![s@[i as int]]);
            lemma_canon_append(s@.take(i as int), seq![s@[i as int]]);
            assert(seq![s@[i as int]].drop_first() =~= Seq::<char>::empty());
            assert(canon(Seq::<char>::empty()) == Seq::<char>::empty());
            if !is_sep(s@[i as int]) {
                assert(canon(seq![s@[i as int]]) =~= seq![lower_char(s@[i as int])]);
            } else {
                assert(canon(seq![s@[i as int]]) =~= Seq::<char>::empty());
            }
        }
        if c == ' ' || c == '-' || c == '_' {
        } else if 'A' <= c && c <= 'Z' {
            let u = c as u32;
            out.push(((u + 32) as u8) as char);
        } else {
            out.push(c);
        }
        i += 1;
    }
    proof {
        assert(s@.take(n as int) =~= s@);
    }
    out
}

fn chars_eq_str(v: &Vec<char>, t: &str) -> (r: bool)
    ensures
        r == (v@ == t@),
{
    let n = t.unicode_len();
    if v.len() != n {
        return false;
    }
    let mut i: usize = 0;
    while i < n
        invariant
            i <= n,
            n == t@.len(),
            v@.len() == n,
            forall|j: int| 0 <= j < i ==> v@[j] == t@[j],
        decreases n - i,
    {
        if v[i] != t.get_char(i) {
            return false;
        }
        i += 1;
    }
    proof {
        assert(v@ =~= t@);
    }
    true
}

fn named_of(v: &Vec<char>) -> (r: Option<Color>)
    ensures
        r == named_color(v@),
{
    if chars_eq_str(v, "reset") {
        Some(Color::Reset)
    } else if chars_eq_str(v, "black") {
        Some(Color::Black)
    } else if chars_eq_str(v, "red") {
        Some(Color::Red)
    } else if chars_eq_str(v, "green") {
        Some(Color::Green)
    } else if chars_eq_str(v, "yellow") {
        Some(Color::Yellow)
    } else if chars_eq_str(v, "blue") {
        Some(Color::Blue)
    } else if chars_eq_str(v, "magenta") {
        Some(Color::Magenta)
    } else if chars_eq_str(v, "cyan") {
        Some(Color::Cyan)
    } else if chars_eq_str(v, "gray") || chars_eq_str(v, "grey") || chars_eq_str(v, "silver") {
        Some(Color::Gray)
    } else if chars_eq_str(v, "darkgray") || chars_eq_str(v, "darkgrey") || chars_eq_str(
        v,
        "brightblack",
    ) || chars_eq_str(v, "lightblack") {
        Some(Color::DarkGray)
    } else if chars_eq_str(v, "lightred") || chars_eq_str(v, "brightred") {
        Some(Color::LightRed)
    } else if chars_eq_str(v, "lightgreen") || chars_eq_str(v, "brightgreen") {
        Some(Color::LightGreen)
    } else if chars_eq_str(v, "lightyellow") || chars_eq_str(v, "brightyellow") {
        Some(Color::LightYellow)
    } else if chars_eq_str(v, "lightblue") || chars_eq_str(v, "brightblue") {
        Some(Color::LightBlue)
    } else if chars_eq_str(v, "lightmagenta") || chars_eq_str(v, "brightmagenta") {
        Some(Color::LightMagenta)
    } else if chars_eq_str(v, "lightcyan") || chars_eq_str(v, "brightcyan") {
        Some(Color::LightCyan)
    } else if chars_eq_str(v, "white") || chars_eq_str(v, "lightwhite") || chars_eq_str(
        v,
        "brightwhite",
    ) || chars_eq_str(v, "lightgray") || chars_eq_str(v, "lightgrey") {
        Some(Color::White)
    } else {
        None
    }
}

proof fn lemma_dec_val_nonneg(s: Seq<char>)
    requires
        all_dec_digits(s),
    ensures
        dec_val(s) >= 0,
    decreases s.len(),
{
    if s.len() > 0 {
        assert forall|j: int| 0 <= j < s.drop_last().len() implies is_dec_digit(
            #[trigger] s.drop_last()[j],
        ) by {
            assert(s.drop_last()[j] == s[j]);
        }
        lemma_dec_val_nonneg(s.drop_last());
    }
}

proof fn lemma_dec_val_prefix(s: Seq<char>, k: int)
    requires
        0 <= k <= s.len(),
        all_dec_digits(s),
    ensures
        dec_val(s.take(k)) <= dec_val(s),
    decreases s.len() - k,
{
    if k == s.len() {
        assert(s.take(k) =~= s);
    } else {
        lemma_dec_val_prefix(s, k + 1);
        assert(s.take(k + 1).drop_last() =~= s.take(k));
        assert(s.take(k + 1).last() == s[k]);
        assert forall|j: int| 0 <= j < s.take(k).len() implies is_dec_digit(
            #[trigger] s.take(k)[j],
        ) by {
            assert(s.take(k)[j] == s[j]);
        }
        lemma_dec_val_nonneg(s.take(k));
    }
}

fn index_of(s: &str) -> (r: Option<u8>)
    ensures
        r == index_of_token(s@),
{
    let n = s.unicode_len();
    let start: usize = if n > 0 && s.get_char(0) == '+' {
        1
    } else {
        0
    };
    let ghost digits: Seq<char> = if start == 1 {
        s@.drop_first()
    } else {
        s@
    };
    if n == start {
        return None;
    }
    let mut acc: u32 = 0;
    let mut i: usize = start;
    while i < n
        invariant
            start <= i <= n,
            n == s@.len(),
            start == 0 || start == 1,
            start == 1 ==> n > 0 && s@[0] == '+' && digits == s@.drop_first(),
            start == 0 ==> digits == s@ && (n == 0 || s@[0] != '+'),
            digits.len() == n - start,
            forall|j: int| 0 <= j < i - start ==> is_dec_digit(#[trigger] digits[j]),
            acc <= 255,
            acc as int == dec_val(digits.take(i - start)),
        decreases n - i,
    {
        let c = s.get_char(i);
        proof {
            assert(digits[i - start] == s@[i as int]);
        }
        let u = c as u32;
        if u < 48 || u > 57 {
            proof {
                assert(!is_dec_digit(digits[i - start]));
            }
            return None;
        }
        let d = u - 48;
        proof {
            assert(digits.take(i - start + 1).drop_last() =~= digits.take(i - start));
            assert(digits.take(i - start + 1).last() == digits[i - start]);
        }
        let next = acc * 10 + d;
        if next > 255 {
            proof {
                if all_dec_digits(digits) {
                    lemma_dec_val_prefix(digits, i - start + 1);
                }
            }
            return None;
        }
        acc = next;
        i += 1;
    }
    proof {
        assert(digits.take(n - start) =~= digits);
        assert(all_dec_digits(digits));
    }
    Some(acc as u8)
}

fn hex_digit_value(c: char) -> (r: Option<u8>)
    ensures
        r is Some <==> is_hex_digit(c),
        r matches Some(v) ==> v as int == hex_digit_val(c) && v < 16,
{
    let u = c as u32;
    if 48 <= u && u <= 57 {
        Some((u - 48) as u8)
    } else if 97 <= u && u <= 102 {
        Some((u - 87) as u8)
    } else if 65 <= u && u <= 70 {
        Some((u - 55) as u8)
    } else {
        None
    }
}

fn rgb_of(s: &str) -> (r: Option<Color>)
    ensures
        r == rgb_of_token(s@),
{
    let n = s.unicode_len();
    if n != 7 {
        return None;
    }
    if s.get_char(0) != '#' {
        return None;
    }
    let mut vals: Vec<u8> = Vec::new();
    let mut i: usize = 1;
    while i < 7
        invariant
            1 <= i <= 7,
            s@.len() == 7,
            vals@.len() == i - 1,
            forall|j: int| 1 <= j < i ==> is_hex_digit(#[trigger] s@[j]) && vals@[j - 1] as int
                == hex_digit_val(s@[j]) && vals@[j - 1] < 16,
        decreases 7 - i,
    {
        let hv = hex_digit_value(s.get_char(i));
        if hv.is_none() {
            proof {
                assert(!is_hex_digit(s@.drop_first()[i - 1]));
            }
            return None;
        }
        let v = hv.unwrap();
        vals.push(v);
        i += 1;
        proof {
            assert forall|j: int| 1 <= j < i implies is_hex_digit(#[trigger] s@[j]) && vals@[j
                - 1] as int == hex_digit_val(s@[j]) && vals@[j - 1] < 16 by {
                if j == i - 1 {
                    assert(vals@[j - 1] == v);
                    assert(is_hex_digit(s@[j]));
                } else {
                    assert(is_hex_digit(s@[j]));
                    assert(vals@[j - 1] == vals@.drop_last()[j - 1]);
                    assert(vals@[j - 1] as int == hex_digit_val(s@[j]));
                    assert(vals@[j - 1] < 16);
                }
            }
        }
    }
    proof {
        assert forall|j: int| 0 <= j < s@.drop_first().len() implies is_hex_digit(
            #[trigger] s@.drop_first()[j],
        ) by {
            assert(s@.drop_first()[j] == s@[j + 1]);
        }
        assert(vals@[0] as int == hex_digit_val(s@[1]) && vals@[0] < 16);
        assert(vals@[1] as int == hex_digit_val(s@[2]) && vals@[1] < 16);
        assert(vals@[2] as int == hex_digit_val(s@[3]) && vals@[2] < 16);
        assert(vals@[3] as int == hex_digit_val(s@[4]) && vals@[3] < 16);
        assert(vals@[4] as int == hex_digit_val(s@[5]) && vals@[4] < 16);
        assert(vals@[5] as int == hex_digit_val(s@[6]) && vals@[5] < 16);
    }
    Some(
        Color::Rgb(
            vals[0] * 16 + vals[1],
            vals[2] * 16 + vals[3],
            vals[4] * 16 + vals[5],
        ),
    )
}

impl Color {
    /// Parses a string per the library's color grammar: a color name, a
    /// decimal index, or a `#RRGGBB` hex triple.
    pub fn parse(s: &str) -> (r: Option<Color>)
        ensures
            r == color_of_str(s@),
    {
        let canon_v = canonical_chars(s);
        let named = named_of(&canon_v);
        if named.is_some() {
            return named;
        }
        match index_of(s) {
            Some(v) => Some(Color::Indexed(v)),
            None => rgb_of(s),
        }
    }

    /// Parses a configuration token. A token that starts with `#` is parsed
    /// as-is; any other token is parsed with `#` prepended, which accepts
    /// bare `RRGGBB` hex strings.
    pub fn from_token(s: &str) -> (r: Option<Color>)
        ensures
            r == color_of_token(s@),
    {
        if s.unicode_len() > 0 && s.get_char(0) == '#' {
            Self::parse(s)
        } else {
            let mut t = String::from_str("#");
            t.append(s);
            proof {
                reveal_strlit("#");
                assert(t@ =~= seq!['#'] + s@);
            }
            Self::parse(t.as_str())
        }
    }

    /// Builds the RGB color packed into the low three bytes of `v`, as
    /// `0x00RRGGBB`.
    pub fn from_u32(v: u32) -> (r: Color)
        ensures
            r == Color::Rgb((v >> 16) as u8, (v >> 8) as u8, v as u8),
    {
        Color::Rgb((v >> 16) as u8, (v >> 8) as u8, v as u8)
    }

    /// Renders the color as a token of the color grammar: `#rrggbb` for an
    /// RGB triple, the canonical name for a named color, the decimal index
    /// for an indexed color.
    pub fn token(&self) -> (r: String)
        ensures
            r@ == token_of(*self),
    {
        match *self {
            Color::Reset => String::from_str("reset"),
            Color::Black => String::from_str("black"),
            Color::Red => String::from_str("red"),
            Color::Green => String::from_str("green"),
            Color::Yellow => String::from_str("yellow"),
            Color::Blue => String::from_str("blue"),
            Color::Magenta => String::from_str("magenta"),
            Color::Cyan => String::from_str("cyan"),
            Color::Gray => String::from_str("gray"),
            Color::DarkGray => String::from_str("darkgray"),
            Color::LightRed => String::from_str("lightred"),
            Color::LightGreen => String::from_str("lightgreen"),
            Color::LightYellow => String::from_str("lightyellow"),
            Color::LightBlue => String::from_str("lightblue"),
            Color::LightMagenta => String::from_str("lightmagenta"),
            Color::LightCyan => String::from_str("lightcyan"),
            Color::White => String::from_str("white"),
            Color::Rgb(r, g, b) => {
                let mut t = String::from_str("#");
                t.append(hex_char_str(r / 16));
                t.append(hex_char_str(r % 16));
                t.append(hex_char_str(g / 16));
                t.append(hex_char_str(g % 16));
                t.append(hex_char_str(b / 16));
                t.append(hex_char_str(b % 16));
                proof {
                    reveal_strlit("#");
                    assert(t@ =~= token_of(Color::Rgb(r, g, b)));
                }
                t
            },
            Color::Indexed(i) => {
                if i < 10 {
                    let t = String::from_str(hex_char_str(i));
                    proof {
                        assert(t@ =~= token_of(Color::Indexed(i)));
                    }
                    t
                } else if i < 100 {
                    let mut t = String::from_str(hex_char_str(i / 10));
                    t.append(hex_char_str(i % 10));
                    proof {
                        assert(t@ =~= token_of(Color::Indexed(i)));
                    }
                    t
                } else {
                    let mut t = String::from_str(hex_char_str(i / 100));
                    t.append(hex_char_str((i / 10) % 10));
                    t.append(hex_char_str(i % 10));
                    proof {
                        assert(t@ =~= token_of(Color::Indexed(i)));
                    }
                    t
                }
            },
        }
    }
}

/// The character for a hex digit value, lowercase.
pub open spec fn hex_digit_char(v: int) -> char {
    if v < 10 {
        (48 + v) as char
    } else {
        (87 + v) as char
    }
}

/// The decimal rendering of an index in `0..=255`, without leading zeros.
pub open spec fn dec_token_of(v: int) -> Seq<char> {
    if v < 10 {
        seq![hex_digit_char(v)]
    } else if v < 100 {
        seq![hex_digit_char(v / 10), hex_digit_char(v % 10)]
    } else {
        seq![hex_digit_char(v / 100), hex_digit_char((v / 10) % 10), hex_digit_char(v % 10)]
    }
}

/// The canonical token for a color: what [`Color::token`] returns.
pub open spec fn token_of(c: Color) -> Seq<char> {
    match c {
        Color::Reset => "reset"@,
        Color::Black => "black"@,
        Color::Red => "red"@,
        Color::Green => "green"@,
        Color::Yellow => "yellow"@,
        Color::Blue => "blue"@,
        Color::Magenta => "magenta"@,
        Color::Cyan => "cyan"@,
        Color::Gray => "gray"@,
        Color::DarkGray => "darkgray"@,
        Color::LightRed => "lightred"@,
        Color::LightGreen => "lightgreen"@,
        Color::LightYellow => "lightyellow"@,
        Color::LightBlue => "lightblue"@,
        Color::LightMagenta => "lightmagenta"@,
        Color::LightCyan => "lightcyan"@,
        Color::White => "white"@,
        Color::Rgb(r, g, b) => seq![
            '#',
            hex_digit_char(r as int / 16),
            hex_digit_char(r as int % 16),
            hex_digit_char(g as int / 16),
            hex_digit_char(g as int % 16),
            hex_digit_char(b as int / 16),
            hex_digit_char(b as int % 16),
        ],
        Color::Indexed(i) => dec_token_of(i as int),
    }
}

fn hex_char_str(v: u8) -> (r: &'static str)
    requires
        v < 16,
    ensures
        r@ == seq![hex_digit_char(v as int)],
{
    proof {
        reveal_strlit("0");
        reveal_strlit("1");
        reveal_strlit("2");
        reveal_strlit("3");
        reveal_strlit("4");
        reveal_strlit("5");
        reveal_strlit("6");
        reveal_strlit("7");
        reveal_strlit("8");
        reveal_strlit("9");
        reveal_strlit("a");
        reveal_strlit("b");
        reveal_strlit("c");
        reveal_strlit("d");
        reveal_strlit("e");
        reveal_strlit("f");
    }
    if v == 0 {
        "0"
    } else if v == 1 {
        "1"
    } else if v == 2 {
        "2"
    } else if v == 3 {
        "3"
    } else if v == 4 {
        "4"
    } else if v == 5 {
        "5"
    } else if v == 6 {
        "6"
    } else if v == 7 {
        "7"
    } else if v == 8 {
        "8"
    } else if v == 9 {
        "9"
    } else if v == 10 {
        "a"
    } else if v == 11 {
        "b"
    } else if v == 12 {
        "c"
    } else if v == 13 {
        "d"
    } else if v == 14 {
        "e"
    } else {
        "f"
    }
}

proof fn lemma_hash_token_no_name(t: Seq<char>)
    requires
        t.len() > 0,
        t[0] == '#',
    ensures
        named_color(canon(t)) is None,
        index_of_token(t) is None,
{
    assert(!is_sep('#'));
    assert(lower_char('#') == '#');
    assert(canon(t) == seq!['#'] + canon(t.drop_first()));
    assert(canon(t)[0] == '#');
    reveal_strlit("reset");
    reveal_strlit("black");
    reveal_strlit("red");
    reveal_strlit("green");
    reveal_strlit("yellow");
    reveal_strlit("blue");
    reveal_strlit("magenta");
    reveal_strlit("cyan");
    reveal_strlit("gray");
    reveal_strlit("grey");
    reveal_strlit("silver");
    reveal_strlit("darkgray");
    reveal_strlit("darkgrey");
    reveal_strlit("brightblack");
    reveal_strlit("lightblack");
    reveal_strlit("lightred");
    reveal_strlit("brightred");
    reveal_strlit("lightgreen");
    reveal_strlit("brightgreen");
    reveal_strlit("lightyellow");
    reveal_strlit("brightyellow");
    reveal_strlit("lightblue");
    reveal_strlit("brightblue");
    reveal_strlit("lightmagenta");
    reveal_strlit("brightmagenta");
    reveal_strlit("lightcyan");
    reveal_strlit("brightcyan");
    reveal_strlit("white");
    reveal_strlit("lightwhite");
    reveal_strlit("brightwhite");
    reveal_strlit("lightgray");
    reveal_strlit("lightgrey");
    assert(!is_dec_digit(t[0]));
}

/// Law: a valid six-digit hex string names the same color with or without
/// the leading `#`, namely the RGB triple that its three digit pairs spell.
pub proof fn lemma_hex_token_hash_agnostic(s: Seq<char>)
    requires
        s.len() == 6,
        all_hex_digits(s),
    ensures
        color_of_token(s) == color_of_token(seq!['#'] + s),
        color_of_token(s) == Some(
            Color::Rgb(
                (hex_digit_val(s[0]) * 16 + hex_digit_val(s[1])) as u8,
                (hex_digit_val(s[2]) * 16 + hex_digit_val(s[3])) as u8,
                (hex_digit_val(s[4]) * 16 + hex_digit_val(s[5])) as u8,
            ),
        ),
{
    let t = seq!['#'] + s;
    assert(is_hex_digit(s[0]));
    assert(s[0] != '#');
    assert(t.len() == 7 && t[0] == '#');
    lemma_hash_token_no_name(t);
    assert(t.drop_first() =~= s);
    assert(color_of_token(s) == color_of_str(t));
    assert(color_of_token(t) == color_of_str(t));
    assert(t[1] == s[0] && t[2] == s[1] && t[3] == s[2] && t[4] == s[3] && t[5] == s[4] && t[6]
        == s[5]);
    assert(rgb_of_token(t) is Some);
}

pub(crate) proof fn lemma_hex_digit_char_val(v: int)
    requires
        0 <= v < 16,
    ensures
        is_hex_digit(hex_digit_char(v)),
        hex_digit_val(hex_digit_char(v)) == v,
{
    if v < 10 {
        assert(hex_digit_char(v) as int == 48 + v);
        assert('0' <= hex_digit_char(v) && hex_digit_char(v) <= '9');
    } else {
        assert(hex_digit_char(v) as int == 87 + v);
        assert('a' <= hex_digit_char(v) && hex_digit_char(v) <= 'f');
    }
}

/// Law: rendering an RGB color as a token and parsing that token yields the
/// color again.
pub proof fn lemma_rgb_token_round_trip(r: u8, g: u8, b: u8)
    ensures
        color_of_token(token_of(Color::Rgb(r, g, b))) == Some(Color::Rgb(r, g, b)),
{
    let t = token_of(Color::Rgb(r, g, b));
    lemma_hex_digit_char_val(r as int / 16);
    lemma_hex_digit_char_val(r as int % 16);
    lemma_hex_digit_char_val(g as int / 16);
    lemma_hex_digit_char_val(g as int % 16);
    lemma_hex_digit_char_val(b as int / 16);
    lemma_hex_digit_char_val(b as int % 16);
    assert(t.len() == 7 && t[0] == '#');
    lemma_hash_token_no_name(t);
    assert forall|j: int| 0 <= j < t.drop_first().len() implies is_hex_digit(
        #[trigger] t.drop_first()[j],
    ) by {
        assert(t.drop_first()[j] == t[j + 1]);
    }
    assert(rgb_of_token(t) is Some);
    assert((hex_digit_val(t[1]) * 16 + hex_digit_val(t[2])) as u8 == r) by {
        assert(hex_digit_val(t[1]) == r as int / 16);
        assert(hex_digit_val(t[2]) == r as int % 16);
        assert(r as int == (r as int / 16) * 16 + (r as int % 16));
    }
    assert((hex_digit_val(t[3]) * 16 + hex_digit_val(t[4])) as u8 == g) by {
        assert(hex_digit_val(t[3]) == g as int / 16);
        assert(hex_digit_val(t[4]) == g as int % 16);
        assert(g as int == (g as int / 16) * 16 + (g as int % 16));
    }
    assert((hex_digit_val(t[5]) * 16 + hex_digit_val(t[6])) as u8 == b) by {
        assert(hex_digit_val(t[5]) == b as int / 16);
        assert(hex_digit_val(t[6]) == b as int % 16);
        assert(b as int == (b as int / 16) * 16 + (b as int % 16));
    }
}

} // verus!
