//! JSON text of the requests the adapters send.
//!
//! Strings are quoted by `serde_json`; the objects around them are written
//! here, compactly (no spaces), member by member in the order given.

use vstd::prelude::*;

use crate::text::{decimal, push_decimal, push_signed_decimal, signed_decimal};

verus! {

/// The lowercase hexadecimal digit of `d` (0 to 15).
pub open spec fn hex_digit(d: int) -> char {
    if d < 10 {
        ((48 + d) as u32) as char
    } else {
        ((87 + d) as u32) as char
    }
}

/// How `serde_json` writes one character inside a string literal: quotes and
/// backslashes are escaped, control characters take a short escape or a
/// `\u00XX` one, and every other character stands for itself.
pub open spec fn json_escape_char(c: char) -> Seq<char> {
    if c == '"' {
        seq!['\\', '"']
    } else if c == '\\' {
        seq!['\\', '\\']
    } else if c == '\u{8}' {
        seq!['\\', 'b']
    } else if c == '\t' {
        seq!['\\', 't']
    } else if c == '\n' {
        seq!['\\', 'n']
    } else if c == '\u{c}' {
        seq!['\\', 'f']
    } else if c == '\r' {
        seq!['\\', 'r']
    } else if (c as u32) < 0x20 {
        seq!['\\', 'u', '0', '0', hex_digit((c as u32) as int / 16), hex_digit((c as u32) as int % 16)]
    } else {
        seq![c]
    }
}

/// The escaped characters of a string.
pub open spec fn json_escape(s: Seq<char>) -> Seq<char>
    decreases s.len(),
{
    if s.len() == 0 {
        Seq::empty()
    } else {
        json_escape_char(s[0]) + json_escape(s.drop_first())
    }
}

/// The JSON string literal of a string.
pub open spec fn json_string(s: Seq<char>) -> Seq<char> {
    seq!['"'] + json_escape(s) + seq!['"']
}

/// Quotes a string as a JSON string literal.
///
/// Calls `serde_json::to_string` on the string. The contract states the
/// escaping that `serde_json` applies to a string (its `ESCAPE` table and
/// `write_char_escape`): quote, backslash and control characters escaped,
/// every other character written as it is, all between double quotes.
/// Serializing a string into memory does not fail.
#[verifier::external_body]
pub(crate) fn quote_json(s: &str) -> (q: String)
    ensures
        q@ == json_string(s@),
{
    match serde_json::to_string(s) {
        Ok(q) => q,
        Err(_) => String::new(),
    }
}

/// One member of a JSON object: the quoted key, a colon and the value's text.
pub open spec fn json_member(key: Seq<char>, value: Seq<char>) -> Seq<char> {
    json_string(key) + seq![':'] + value
}

/// Members joined by commas.
pub open spec fn join_members(ms: Seq<Seq<char>>) -> Seq<char>
    decreases ms.len(),
{
    if ms.len() == 0 {
        Seq::empty()
    } else if ms.len() == 1 {
        ms[0]
    } else {
        join_members(ms.drop_last()) + seq![','] + ms.last()
    }
}

/// The compact text of a JSON object with the given members, in order.
pub open spec fn json_object(ms: Seq<Seq<char>>) -> Seq<char> {
    seq!['{'] + join_members(ms) + seq!['}']
}

/// A JSON object being written, member by member.
pub struct JsonObjectWriter {
    text: String,
    empty: bool,
    members: Ghost<Seq<Seq<char>>>,
}

impl JsonObjectWriter {
    /// The members written so far.
    pub closed spec fn members(self) -> Seq<Seq<char>> {
        self.members@
    }

    /// The text holds the opening brace and the members written so far.
    pub closed spec fn wf(self) -> bool {
        &&& self.text@ == seq!['{'] + join_members(self.members@)
        &&& self.empty == (self.members@.len() == 0)
    }

    /// A writer with no member yet.
    pub fn new() -> (w: JsonObjectWriter)
        ensures
            w.wf(),
            w.members() == Seq::<Seq<char>>::empty(),
    {
        let w = JsonObjectWriter {
            text: String::from_str("{"),
            empty: true,
            members: Ghost(Seq::empty()),
        };
        proof { reveal_strlit("{"); }
        assert(w.text@ =~= seq!['{'] + join_members(Seq::<Seq<char>>::empty()));
        w
    }

    fn push_member(&mut self, key: &str, value: &str)
        requires
            old(self).wf(),
        ensures
            final(self).wf(),
            final(self).members() == old(self).members().push(json_member(key@, value@)),
    {
        let ghost ms = self.members@;
        let ghost m = json_member(key@, value@);
        if !self.empty {
            self.text.append(",");
        }
        self.empty = false;
        let k = quote_json(key);
        self.text.append(k.as_str());
        self.text.append(":");
        self.text.append(value);
        self.members = Ghost(ms.push(m));
        proof {
            reveal_strlit(",");
            reveal_strlit(":");
            assert(ms.push(m).drop_last() =~= ms);
            assert(self.text@ =~= seq!['{'] + join_members(ms.push(m)));
        }
    }

    /// Writes a member whose value is a string.
    pub fn push_str(&mut self, key: &str, value: &str)
        requires
            old(self).wf(),
        ensures
            final(self).wf(),
            final(self).members() == old(self).members().push(json_member(key@, json_string(value@))),
    {
        let v = quote_json(value);
        self.push_member(key, v.as_str());
    }

    /// Writes a member whose value is an unsigned integer.
    pub fn push_u64(&mut self, key: &str, value: u64)
        requires
            old(self).wf(),
        ensures
            final(self).wf(),
            final(self).members() == old(self).members().push(json_member(key@, decimal(value as nat))),
    {
        let mut v = String::new();
        push_decimal(&mut v, value);
        assert(v@ =~= decimal(value as nat));
        self.push_member(key, v.as_str());
    }

    /// Writes a member whose value is a signed integer.
    pub fn push_i64(&mut self, key: &str, value: i64)
        requires
            old(self).wf(),
        ensures
            final(self).wf(),
            final(self).members() == old(self).members().push(
                json_member(key@, signed_decimal(value as int)),
            ),
    {
        let mut v = String::new();
        push_signed_decimal(&mut v, value);
        assert(v@ =~= signed_decimal(value as int));
        self.push_member(key, v.as_str());
    }

    /// The text of the object.
    pub fn finish(self) -> (s: String)
        requires
            self.wf(),
        ensures
            s@ == json_object(self.members()),
    {
        let mut t = self.text;
        t.append("}");
        proof { reveal_strlit("}"); }
        assert(t@ =~= json_object(self.members@));
        t
    }
}

} // verus!
