//! Loading palettes from YAML or TOML documents, and rendering them back.
//!
//! A document is reduced to its top-level entries — each key with its value
//! when that value is a string — by the figment configuration library. All
//! mapping from entries to a palette is verified: every slot key must be
//! present and its value must be a valid color token, or the whole load
//! fails with a single [`Base16PaletteError`].

use vstd::prelude::*;
use vstd::string::StringExecFns;
use crate::color::Color;
use crate::color::color_of_token;
use crate::color::hex_digit_char;
use crate::color::lemma_hex_digit_char_val;
use crate::color::lemma_rgb_token_round_trip;
use crate::color::token_of;
use crate::palette::Base16Palette;
use crate::palette::Base16PaletteError;
use crate::palette::slot_name;
use crate::palette::slot_name_spec;
use figment::providers::Format;

verus! {

/// The view of one parsed entry: the key and, when the value is a string,
/// that string.
pub open spec fn opt_view(o: Option<String>) -> Option<Seq<char>> {
    match o {
        Some(s) => Some(s@),
        None => None,
    }
}

/// The view of a parsed document: its entries in order.
pub open spec fn entries_view(es: Seq<(String, Option<String>)>) -> Seq<
    (Seq<char>, Option<Seq<char>>),
> {
    Seq::new(es.len(), |i: int| (es[i].0@, opt_view(es[i].1)))
}

/// The top-level entries of the YAML document written in `s`, in key order,
/// or nothing when `s` is not a YAML document with a top-level mapping.
pub uninterp spec fn yaml_doc(s: Seq<char>) -> Option<Seq<(Seq<char>, Option<Seq<char>>)>>;

/// The top-level entries of the TOML document written in `s`, in key order,
/// or nothing when `s` is not a well-formed TOML table.
pub uninterp spec fn toml_doc(s: Seq<char>) -> Option<Seq<(Seq<char>, Option<Seq<char>>)>>;

/// Relies on figment's `Figment::extract` over the `Yaml` string provider:
/// it parses `text` as YAML and yields the top-level table as a map from
/// keys to values, string values kept, others discarded.
#[verifier::external_body]
fn parse_yaml_entries(text: &str) -> (r: Result<Vec<(String, Option<String>)>, String>)
    ensures
        r is Ok <==> yaml_doc(text@) is Some,
        r matches Ok(es) ==> entries_view(es@) == yaml_doc(text@).unwrap(),
{
    match figment::Figment::from(figment::providers::Yaml::string(text)).extract::<
        figment::value::Dict,
    >() {
        Ok(dict) => Ok(
            dict.into_iter().map(
                |(k, v)| match v {
                    figment::value::Value::String(_, s) => (k, Some(s)),
                    _ => (k, None),
                },
            ).collect(),
        ),
        Err(e) => Err(e.to_string()),
    }
}

/// Relies on figment's `Figment::extract` over the `Toml` string provider:
/// it parses `text` as TOML and yields the top-level table as a map from
/// keys to values, string values kept, others discarded.
#[verifier::external_body]
fn parse_toml_entries(text: &str) -> (r: Result<Vec<(String, Option<String>)>, String>)
    ensures
        r is Ok <==> toml_doc(text@) is Some,
        r matches Ok(es) ==> entries_view(es@) == toml_doc(text@).unwrap(),
{
    match figment::Figment::from(figment::providers::Toml::string(text)).extract::<
        figment::value::Dict,
    >() {
        Ok(dict) => Ok(
            dict.into_iter().map(
                |(k, v)| match v {
                    figment::value::Value::String(_, s) => (k, Some(s)),
                    _ => (k, None),
                },
            ).collect(),
        ),
        Err(e) => Err(e.to_string()),
    }
}

/// The value of the first entry whose key is `key`, if any.
pub open spec fn spec_lookup(doc: Seq<(Seq<char>, Option<Seq<char>>)>, key: Seq<char>) -> Option<
    Option<Seq<char>>,
>
    decreases doc.len(),
{
    if doc.len() == 0 {
        None
    } else if doc[0].0 == key {
        Some(doc[0].1)
    } else {
        spec_lookup(doc.drop_first(), key)
    }
}

/// The color of slot `i` in a document: the entry under the slot's key must
/// exist, hold a string, and that string must be a valid color token.
pub open spec fn spec_slot_color(doc: Seq<(Seq<char>, Option<Seq<char>>)>, i: int) -> Option<
    Color,
> {
    match spec_lookup(doc, slot_name_spec(i)) {
        None => None,
        Some(None) => None,
        Some(Some(tok)) => color_of_token(tok),
    }
}

/// True when the document yields a palette: all sixteen slots resolve.
pub open spec fn spec_load_ok(doc: Seq<(Seq<char>, Option<Seq<char>>)>) -> bool {
    forall|i: int| 0 <= i < 16 ==> (#[trigger] spec_slot_color(doc, i)) is Some
}

/// The sixteen slot colors a loadable document yields.
pub open spec fn spec_slots(doc: Seq<(Seq<char>, Option<Seq<char>>)>) -> Seq<Color> {
    Seq::new(16, |i: int| spec_slot_color(doc, i).unwrap())
}

proof fn lemma_lookup_skip(doc: Seq<(Seq<char>, Option<Seq<char>>)>, key: Seq<char>, j: int)
    requires
        0 <= j <= doc.len(),
        forall|k: int| 0 <= k < j ==> (#[trigger] doc[k]).0 != key,
    ensures
        spec_lookup(doc, key) == spec_lookup(doc.skip(j), key),
    decreases j,
{
    if j == 0 {
        assert(doc.skip(0) =~= doc);
    } else {
        lemma_lookup_skip(doc, key, j - 1);
        assert(doc.skip(j - 1).len() > 0);
        assert(doc.skip(j - 1)[0] == doc[j - 1]);
        assert(doc[j - 1].0 != key);
        assert(doc.skip(j - 1).drop_first() =~= doc.skip(j));
        assert(spec_lookup(doc.skip(j - 1), key) == spec_lookup(doc.skip(j - 1).drop_first(), key));
    }
}

fn lookup_entry<'a>(entries: &'a Vec<(String, Option<String>)>, key: &String) -> (r: Option<
    &'a Option<String>,
>)
    ensures
        match spec_lookup(entries_view(entries@), key@) {
            None => r is None,
            Some(v) => r matches Some(x) && opt_view(*x) == v,
        },
{
    let ghost doc = entries_view(entries@);
    let n = entries.len();
    let mut j: usize = 0;
    while j < n
        invariant
            j <= n,
            n == entries@.len(),
            doc == entries_view(entries@),
            forall|k: int| 0 <= k < j ==> (#[trigger] doc[k]).0 != key@,
        decreases n - j,
    {
        let e = &entries[j];
        if e.0.eq(key) {
            proof {
                lemma_lookup_skip(doc, key@, j as int);
                assert(doc.skip(j as int)[0] == doc[j as int]);
                assert(doc[j as int].0 == key@);
            }
            return Some(&e.1);
        }
        proof {
            assert(doc[j as int].0 == entries@[j as int].0@);
        }
        j += 1;
    }
    proof {
        lemma_lookup_skip(doc, key@, n as int);
        assert(doc.skip(n as int) =~= Seq::<(Seq<char>, Option<Seq<char>>)>::empty());
    }
    None
}

fn slot_error(kind: &str, name: &str) -> (r: Base16PaletteError)
{
    let mut m = String::from_str(kind);
    m.append(" `");
    m.append(name);
    m.append("`");
    Base16PaletteError::ExtractionFailed(m)
}

impl Base16Palette {
    /// Builds a palette from a document's top-level entries. Succeeds if and
    /// only if every one of the sixteen slot keys is present with a string
    /// value that is a valid color token; the palette's slots then hold
    /// exactly the parsed colors and its metadata is empty.
    pub fn from_entries(entries: &Vec<(String, Option<String>)>) -> (r: Result<
        Base16Palette,
        Base16PaletteError,
    >)
        ensures
            r is Ok <==> spec_load_ok(entries_view(entries@)),
            r matches Ok(p) ==> p.slots() == spec_slots(entries_view(entries@)) && p.name@
                == Seq::<char>::empty() && p.author@ == Seq::<char>::empty() && p.slug@
                == Seq::<char>::empty(),
    {
        let ghost doc = entries_view(entries@);
        let mut colors: Vec<Color> = Vec::new();
        let mut i: usize = 0;
        while i < 16
            invariant
                i <= 16,
                colors@.len() == i,
                doc == entries_view(entries@),
                forall|j: int| 0 <= j < i ==> (#[trigger] spec_slot_color(doc, j)) is Some
                    && colors@[j] == spec_slot_color(doc, j).unwrap(),
            decreases 16 - i,
        {
            let name = slot_name(i);
            let key = String::from_str(name);
            match lookup_entry(entries, &key) {
                None => {
                    proof {
                        assert(spec_slot_color(doc, i as int) is None);
                    }
                    return Err(slot_error("missing color slot", name));
                },
                Some(val) => match val {
                    None => {
                        proof {
                            assert(spec_slot_color(doc, i as int) is None);
                        }
                        return Err(slot_error("non-string value for color slot", name));
                    },
                    Some(tok) => match Color::from_token(tok.as_str()) {
                        Some(c) => {
                            colors.push(c);
                            proof {
                                assert(spec_slot_color(doc, i as int) == Some(c));
                            }
                        },
                        None => {
                            proof {
                                assert(spec_slot_color(doc, i as int) is None);
                            }
                            return Err(slot_error("invalid color token for slot", name));
                        },
                    },
                },
            }
            i += 1;
        }
        let p = Base16Palette {
            name: "",
            author: "",
            slug: "",
            base00: colors[0],
            base01: colors[1],
            base02: colors[2],
            base03: colors[3],
            base04: colors[4],
            base05: colors[5],
            base06: colors[6],
            base07: colors[7],
            base08: colors[8],
            base09: colors[9],
            base0a: colors[10],
            base0b: colors[11],
            base0c: colors[12],
            base0d: colors[13],
            base0e: colors[14],
            base0f: colors[15],
        };
        proof {
            reveal_strlit("");
            assert(p.slots() =~= spec_slots(doc));
        }
        Ok(p)
    }

    /// Loads a palette from the text of a YAML document. The text must be a
    /// YAML mapping whose sixteen `base00`..`base0f` keys each hold a valid
    /// color token; anything else — a syntax error, a missing slot, a
    /// malformed token — is an extraction failure.
    pub fn from_yaml_str(text: &str) -> (r: Result<Base16Palette, Base16PaletteError>)
        ensures
            yaml_doc(text@) is None ==> r is Err,
            yaml_doc(text@) matches Some(doc) ==> {
                &&& (r is Ok <==> spec_load_ok(doc))
                &&& (r matches Ok(p) ==> p.slots() == spec_slots(doc) && p.name@
                    == Seq::<char>::empty() && p.author@ == Seq::<char>::empty() && p.slug@
                    == Seq::<char>::empty())
            },
    {
        match parse_yaml_entries(text) {
            Ok(entries) => Self::from_entries(&entries),
            Err(msg) => Err(Base16PaletteError::ExtractionFailed(msg)),
        }
    }

    /// Loads a palette from the text of a TOML document, under the same
    /// contract as [`Base16Palette::from_yaml_str`].
    pub fn from_toml_str(text: &str) -> (r: Result<Base16Palette, Base16PaletteError>)
        ensures
            toml_doc(text@) is None ==> r is Err,
            toml_doc(text@) matches Some(doc) ==> {
                &&& (r is Ok <==> spec_load_ok(doc))
                &&& (r matches Ok(p) ==> p.slots() == spec_slots(doc) && p.name@
                    == Seq::<char>::empty() && p.author@ == Seq::<char>::empty() && p.slug@
                    == Seq::<char>::empty())
            },
    {
        match parse_toml_entries(text) {
            Ok(entries) => Self::from_entries(&entries),
            Err(msg) => Err(Base16PaletteError::ExtractionFailed(msg)),
        }
    }

    /// Renders the sixteen slots as document entries: each slot key paired
    /// with its color's token, in slot order.
    pub fn to_entries(&self) -> (r: Vec<(String, Option<String>)>)
        ensures
            entries_view(r@) == doc_of(*self),
    {
        let mut out: Vec<(String, Option<String>)> = Vec::new();
        let mut i: usize = 0;
        while i < 16
            invariant
                i <= 16,
                out@.len() == i,
                forall|j: int| 0 <= j < i ==> (#[trigger] out@[j]).0@ == slot_name_spec(j)
                    && opt_view(out@[j].1) == Some(token_of(self.slots()[j])),
            decreases 16 - i,
        {
            let name = String::from_str(slot_name(i));
            let tok = self.slot(i).token();
            out.push((name, Some(tok)));
            i += 1;
        }
        proof {
            assert(entries_view(out@) =~= doc_of(*self));
        }
        out
    }

    /// Renders the palette as the text of a YAML document: one line per
    /// slot, in slot order, each value quoted — e.g. `base00: "#181818"`.
    pub fn to_yaml_string(&self) -> (r: String)
        ensures
            r@ == yaml_text_upto(*self, 16),
    {
        let mut out = String::new();
        let mut i: usize = 0;
        while i < 16
            invariant
                i <= 16,
                out@ == yaml_text_upto(*self, i as int),
            decreases 16 - i,
        {
            out.append(slot_name(i));
            out.append(": \"");
            let tok = self.slot(i).token();
            out.append(tok.as_str());
            out.append("\"\n");
            i += 1;
        }
        out
    }
}

/// The canonical document of a palette: each slot key with the rendered
/// token of the slot's color, in slot order.
pub open spec fn doc_of(p: Base16Palette) -> Seq<(Seq<char>, Option<Seq<char>>)> {
    Seq::new(16, |i: int| (slot_name_spec(i), Some(token_of(p.slots()[i]))))
}

/// The YAML rendering of the first `n` slots of a palette, one quoted
/// `key: "token"` line each.
pub open spec fn yaml_text_upto(p: Base16Palette, n: int) -> Seq<char>
    decreases n,
{
    if n <= 0 {
        Seq::empty()
    } else {
        yaml_text_upto(p, n - 1) + slot_name_spec(n - 1) + ": \""@ + token_of(p.slots()[n - 1])
            + "\"\n"@
    }
}

proof fn lemma_slot_name_shape(i: int)
    requires
        0 <= i < 16,
    ensures
        slot_name_spec(i).len() == 6,
        slot_name_spec(i)[5] == hex_digit_char(i),
{
    reveal_strlit("base00");
    reveal_strlit("base01");
    reveal_strlit("base02");
    reveal_strlit("base03");
    reveal_strlit("base04");
    reveal_strlit("base05");
    reveal_strlit("base06");
    reveal_strlit("base07");
    reveal_strlit("base08");
    reveal_strlit("base09");
    reveal_strlit("base0a");
    reveal_strlit("base0b");
    reveal_strlit("base0c");
    reveal_strlit("base0d");
    reveal_strlit("base0e");
    reveal_strlit("base0f");
}

/// Law: the sixteen slot keys are pairwise distinct.
pub proof fn lemma_slot_names_distinct(i: int, j: int)
    requires
        0 <= i < 16,
        0 <= j < 16,
        i != j,
    ensures
        slot_name_spec(i) != slot_name_spec(j),
{
    lemma_slot_name_shape(i);
    lemma_slot_name_shape(j);
    lemma_hex_digit_char_val(i);
    lemma_hex_digit_char_val(j);
    if slot_name_spec(i) == slot_name_spec(j) {
        assert(slot_name_spec(i)[5] == slot_name_spec(j)[5]);
        assert(crate::color::hex_digit_val(hex_digit_char(i)) == crate::color::hex_digit_val(
            hex_digit_char(j),
        ));
    }
}

/// Law: a document that lacks the key of one of the sixteen slots does not
/// load.
pub proof fn lemma_missing_slot_fails(doc: Seq<(Seq<char>, Option<Seq<char>>)>, i: int)
    requires
        0 <= i < 16,
        spec_lookup(doc, slot_name_spec(i)) is None,
    ensures
        !spec_load_ok(doc),
{
    assert(spec_slot_color(doc, i) is None);
}

/// Law: a document whose entry for one of the sixteen slots is not a valid
/// color token — or not a string at all — does not load.
pub proof fn lemma_invalid_slot_fails(doc: Seq<(Seq<char>, Option<Seq<char>>)>, i: int)
    requires
        0 <= i < 16,
        (match spec_lookup(doc, slot_name_spec(i)) {
            Some(Some(tok)) => color_of_token(tok) is None,
            Some(None) => true,
            None => false,
        }),
    ensures
        !spec_load_ok(doc),
{
    assert(spec_slot_color(doc, i) is None);
}

/// Law: rendering a palette whose slots are all RGB triples as a document
/// and loading that document back succeeds and yields exactly the same
/// slots.
pub proof fn lemma_entries_round_trip(p: Base16Palette)
    requires
        p.all_rgb(),
    ensures
        spec_load_ok(doc_of(p)),
        spec_slots(doc_of(p)) == p.slots(),
{
    let doc = doc_of(p);
    assert forall|i: int| 0 <= i < 16 implies (#[trigger] spec_slot_color(doc, i)) == Some(
        p.slots()[i],
    ) by {
        assert forall|k: int| 0 <= k < i implies (#[trigger] doc[k]).0 != slot_name_spec(i) by {
            lemma_slot_names_distinct(k, i);
        }
        lemma_lookup_skip(doc, slot_name_spec(i), i);
        assert(doc.skip(i)[0] == doc[i]);
        assert(doc[i].0 == slot_name_spec(i));
        assert(spec_lookup(doc, slot_name_spec(i)) == Some(Some(token_of(p.slots()[i]))));
        assert(p.slots()[i] is Rgb);
        match p.slots()[i] {
            Color::Rgb(rr, gg, bb) => {
                lemma_rgb_token_round_trip(rr, gg, bb);
            },
            _ => {},
        }
    }
    assert(spec_slots(doc) =~= p.slots());
}

} // verus!

