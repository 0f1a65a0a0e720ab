//! JSON documents, as far as the agents read them.
use vstd::prelude::*;

use crate::text::{same_text, signed_decimal};

verus! {

/// A JSON document.
#[derive(Debug)]
pub enum JsonValue {
    Null,
    Bool(bool),
    /// A number, as it is written.
    Number(String),
    String(String),
    Array(Vec<JsonValue>),
    /// The members of an object. A parsed document has no key twice.
    Object(Vec<(String, JsonValue)>),
}

/// The value of the first entry with the key `key`.
pub open spec fn first_entry(entries: Seq<(String, JsonValue)>, key: Seq<char>) -> Option<JsonValue>
    decreases entries.len(),
{
    if entries.len() == 0 {
        None
    } else if entries[0].0@ == key {
        Some(entries[0].1)
    } else {
        first_entry(entries.drop_first(), key)
    }
}

impl JsonValue {
    /// The member `key` of an object; nothing for any other document.
    pub open spec fn member(&self, key: Seq<char>) -> Option<JsonValue> {
        match *self {
            JsonValue::Object(entries) => first_entry(entries@, key),
            _ => None,
        }
    }

    /// The text of a string; nothing for any other document.
    pub open spec fn string(&self) -> Option<Seq<char>> {
        match *self {
            JsonValue::String(text) => Some(text@),
            _ => None,
        }
    }

    /// The member `key` of an object; nothing for any other document.
    pub fn get(&self, key: &str) -> (found: Option<&JsonValue>)
        ensures
            match found {
                Some(value) => self.member(key@) == Some(*value),
                None => self.member(key@) is None,
            },
    {
        match self {
            JsonValue::Object(entries) => {
                let mut i: usize = 0;
                assert(entries@.skip(0) =~= entries@);
                while i < entries.len()
                    invariant
                        i <= entries@.len(),
                        self.member(key@) == first_entry(entries@.skip(i as int), key@),
                    decreases entries@.len() - i,
                {
                    assert(entries@.skip(i as int).drop_first() =~= entries@.skip(i + 1));
                    if same_text(entries[i].0.as_str(), key) {
                        return Some(&entries[i].1);
                    }
                    i = i + 1;
                }
                None
            },
            _ => None,
        }
    }

    /// The text of a string; nothing for any other document.
    pub fn as_str(&self) -> (found: Option<&str>)
        ensures
            match found {
                Some(text) => self.string() == Some(text@),
                None => self.string() is None,
            },
    {
        match self {
            JsonValue::String(text) => Some(text.as_str()),
            _ => None,
        }
    }
}

/// `text` is `null`, `true`, `false` or a whole number of 64 bits.
pub open spec fn plain_json(text: Seq<char>) -> bool {
    ||| text == "null"@
    ||| text == "true"@
    ||| text == "false"@
    ||| exists|number: i64| text == #[trigger] signed_decimal(number as int)
}

/// The JSON document `text` as `serde_json` writes it over several lines, with
/// an indentation of two spaces; nothing where `text` is no JSON document.
pub uninterp spec fn pretty_json_text(text: Seq<char>) -> Option<Seq<char>>;

/// Reads a document with `serde_json::from_str`, into a `serde_json::Value`,
/// and writes it with `serde_json::to_string_pretty`.
///
/// Trusted: which text comes out depends on `text` alone, and a document that
/// is `null`, `true`, `false` or a whole number of 64 bits comes out as it is.
/// What other documents come out as stays unsaid.
#[verifier::external_body]
pub(crate) fn pretty_json(text: &str) -> (pretty: Option<String>)
    ensures
        pretty.deep_view() == pretty_json_text(text@),
        plain_json(text@) ==> pretty.deep_view() == Some(text@),
{
    let value: serde_json::Value = serde_json::from_str(text).ok()?;
    serde_json::to_string_pretty(&value).ok()
}

/// The member of an object at a key is the value of an entry with that key
/// before which none has it. There is none exactly where no entry has the key, or
/// the document is no object.
pub proof fn law_member_is_the_first_of_its_key(document: JsonValue, key: Seq<char>) -> (at: int)
    ensures
        document is Object || document.member(key) is None,
        document matches JsonValue::Object(entries) ==> (match document.member(key) {
            Some(value) => {
                &&& 0 <= at < entries@.len()
                &&& entries@[at].0@ == key
                &&& entries@[at].1 == value
                &&& forall|i: int| 0 <= i < at ==> (#[trigger] entries@[i]).0@ != key
            },
            None => forall|i: int| 0 <= i < entries@.len() ==> (#[trigger] entries@[i]).0@ != key,
        }),
{
    match document {
        JsonValue::Object(entries) => lemma_first_entry(entries@, key),
        _ => 0,
    }
}

proof fn lemma_first_entry(entries: Seq<(String, JsonValue)>, key: Seq<char>) -> (at: int)
    ensures
        match first_entry(entries, key) {
            Some(value) => {
                &&& 0 <= at < entries.len()
                &&& entries[at].0@ == key
                &&& entries[at].1 == value
                &&& forall|i: int| 0 <= i < at ==> (#[trigger] entries[i]).0@ != key
            },
            None => forall|i: int| 0 <= i < entries.len() ==> (#[trigger] entries[i]).0@ != key,
        },
    decreases entries.len(),
{
    if entries.len() == 0 || entries[0].0@ == key {
        0
    } else {
        let rest = entries.drop_first();
        let later = lemma_first_entry(rest, key);
        assert forall|i: int|
            0 <= i < entries.len() && (first_entry(rest, key) is None || i < later
                + 1) implies (#[trigger] entries[i]).0@ != key by {
            if i > 0 {
                assert(rest[i - 1] == entries[i]);
            }
        }
        later + 1
    }
}

/// A string says its text, and no other document says one.
pub proof fn law_only_strings_say_text(document: JsonValue)
    ensures
        document is String <==> document.string() is Some,
        document matches JsonValue::String(text) ==> document.string() == Some(text@),
{
}

} // verus!
