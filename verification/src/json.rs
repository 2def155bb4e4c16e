//! JSON text: string literals, the compact form of a value, and values that are
//! held in that form.

use crate::identity::hex_char;
use crate::text::opt_text;
use vstd::prelude::*;
use vstd::string::StringExecFns;

verus! {

/// How a character is written inside a JSON string literal.
pub open spec fn escaped_char(c: char) -> Seq<char> {
    if c == '"' {
        seq!['\\', '"']
    } else if c == '\\' {
        seq!['\\', '\\']
    } else if c == '\x08' {
        seq!['\\', 'b']
    } else if c == '\t' {
        seq!['\\', 't']
    } else if c == '\n' {
        seq!['\\', 'n']
    } else if c == '\x0C' {
        seq!['\\', 'f']
    } else if c == '\r' {
        seq!['\\', 'r']
    } else if (c as int) < 0x20 {
        seq!['\\', 'u', '0', '0', hex_char(c as int / 16), hex_char(c as int % 16)]
    } else {
        seq![c]
    }
}

/// How a text is written inside a JSON string literal.
pub open spec fn escaped(s: Seq<char>) -> Seq<char>
    decreases s.len(),
{
    if s.len() == 0 {
        Seq::empty()
    } else {
        escaped(s.drop_last()) + escaped_char(s.last())
    }
}

/// The JSON string literal of a text.
pub open spec fn quoted(s: Seq<char>) -> Seq<char> {
    seq!['"'] + escaped(s) + seq!['"']
}

/// Writes a text as a JSON string literal, as `serde_json::Value` displays a
/// string. The contract claims the whole result: quotation marks around the
/// text, with `"` and `\` escaped by `\`, the short escapes for backspace, tab,
/// line feed, form feed and carriage return, `\u00` and two lower-case
/// hexadecimal digits for the other characters below U+0020, and every other
/// character as it is.
#[verifier::external_body]
pub(crate) fn quote(text: &str) -> (r: String)
    ensures
        r@ == quoted(text@),
{
    serde_json::Value::from(text).to_string()
}

/// The compact form of the JSON value that a text holds, as `serde_json`
/// reads it by `from_str` and displays the value; `None` where the text is no
/// JSON.
pub uninterp spec fn json_compact(text: Seq<char>) -> Option<Seq<char>>;

/// Reads a text by `serde_json::from_str` and displays the value that it
/// holds. The contract names that result and claims nothing else of it.
#[verifier::external_body]
fn compact(text: &str) -> (r: Option<String>)
    ensures
        opt_text(r) == json_compact(text@),
{
    serde_json::from_str::<serde_json::Value>(text).ok().map(|v| v.to_string())
}

/// Whether a text is the compact form of a JSON value: of the object without
/// members, or of what some text holds.
pub open spec fn is_compact_form(text: Seq<char>) -> bool {
    text == "{}"@ || exists|source: Seq<char>| #[trigger] json_compact(source) == Some(text)
}

/// A JSON value, held as its compact text.
#[derive(Debug, Eq)]
pub struct JsonText {
    text: String,
}

impl View for JsonText {
    type V = Seq<char>;

    closed spec fn view(&self) -> Seq<char> {
        self.text@
    }
}

impl PartialEq for JsonText {
    fn eq(&self, other: &Self) -> (r: bool) {
        self.text == other.text
    }
}

impl vstd::std_specs::cmp::PartialEqSpecImpl for JsonText {
    open spec fn obeys_eq_spec() -> bool {
        true
    }

    open spec fn eq_spec(&self, other: &Self) -> bool {
        self@ == other@
    }
}

impl Clone for JsonText {
    fn clone(&self) -> (r: Self)
        ensures
            r == *self,
    {
        proof {
            use_type_invariant(self);
        }
        JsonText { text: self.text.clone() }
    }
}

impl JsonText {
    #[verifier::type_invariant]
    spec fn is_compact(&self) -> bool {
        is_compact_form(self.text@)
    }

    /// The value that a text holds; `None` where the text is no JSON.
    pub fn parse(text: &str) -> (r: Option<Self>)
        ensures
            opt_json(r) == json_compact(text@),
    {
        match compact(text) {
            Some(form) => {
                assert(json_compact(text@) == Some(form@));
                Some(JsonText { text: form })
            },
            None => None,
        }
    }

    /// The object without members.
    pub fn empty_object() -> (r: Self)
        ensures
            r@ == "{}"@,
    {
        JsonText { text: String::from_str("{}") }
    }

    /// The compact text.
    pub fn as_str(&self) -> (r: &str)
        ensures
            r@ == self@,
            is_compact_form(self@),
    {
        proof {
            use_type_invariant(self);
        }
        self.text.as_str()
    }

    /// The compact text.
    pub fn to_text(&self) -> (r: String)
        ensures
            r@ == self@,
    {
        self.text.clone()
    }
}

/// The text of an optional value.
pub open spec fn opt_json(v: Option<JsonText>) -> Option<Seq<char>> {
    match v {
        Some(j) => Some(j@),
        None => None,
    }
}

/// The text of each optional value of a list.
pub open spec fn opt_jsons(v: Seq<Option<JsonText>>) -> Seq<Option<Seq<char>>> {
    Seq::new(v.len(), |i: int| opt_json(v[i]))
}

/// A copy of an optional value.
pub fn clone_opt_json(v: &Option<JsonText>) -> (r: Option<JsonText>)
    ensures
        r == *v,
{
    match v {
        Some(j) => Some(j.clone()),
        None => None,
    }
}

/// A quoted text is the text between quotation marks, character by character.
pub proof fn quoting_goes_by_character(a: Seq<char>, b: Seq<char>, c: char)
    ensures
        quoted(a)[0] == '"',
        quoted(a).last() == '"',
        escaped(a + b) == escaped(a) + escaped(b),
        c != '"' && c != '\\' && (c as int) >= 0x20 ==> escaped(seq![c]) == seq![c],
    decreases b.len(),
{
    let single = seq![c];
    assert(single.drop_last() =~= Seq::<char>::empty());
    assert(escaped(single.drop_last()) =~= Seq::<char>::empty());
    assert(Seq::<char>::empty() + escaped_char(c) =~= escaped_char(c));
    if b.len() == 0 {
        assert(a + b =~= a);
        assert(escaped(a) + escaped(b) =~= escaped(a));
    } else {
        quoting_goes_by_character(a, b.drop_last(), c);
        assert((a + b).drop_last() =~= a + b.drop_last());
        assert((a + b).last() == b.last());
        assert(escaped(a + b) =~= escaped(a) + escaped(b));
    }
}

} // verus!
