//! Assertions on JSON subjects. The library models a JSON document with its
//! own value type carrying, as plain values, everything the matchers read: the
//! node kind, the object entries in document order, and each number as its
//! literal text. The surrounding harness converts a parsed document into this
//! model and back.

use vstd::prelude::*;
use vstd::string::StringExecFns;

use crate::describe::{angled, comma_separated, push_list, quoted};
use crate::failure::{two_part_format, AssertionFailure};
use crate::subject::Subject;
use crate::text::{dec_rep, push_len, str_eq};

verus! {

/// A JSON number, kept as its literal text: the matchers only ever pass it
/// through, so nothing here depends on its numeric value.
#[derive(Debug)]
pub struct JsonNumber {
    /// The number exactly as it appeared in the document.
    pub literal: String,
}

/// One key / value entry of a JSON object.
#[derive(Debug)]
pub struct JsonEntry {
    /// The entry's key.
    pub key: String,
    /// The entry's value.
    pub value: JsonValue,
}

/// A JSON object: its entries in document order.
#[derive(Debug)]
pub struct JsonObject {
    /// The entries, in document order.
    pub entries: Vec<JsonEntry>,
}

/// A JSON document node.
#[derive(Debug)]
pub enum JsonValue {
    /// The null literal.
    Null,
    /// A boolean.
    Bool(bool),
    /// A number, as its literal text.
    Number(JsonNumber),
    /// A string.
    Text(String),
    /// An array of nodes.
    Array(Vec<JsonValue>),
    /// An object.
    Object(JsonObject),
}

/// The kind of a node, as diagnostics name it.
pub open spec fn kind_text(v: JsonValue) -> Seq<char> {
    match v {
        JsonValue::Null => "json[null]"@,
        JsonValue::Bool(_) => "json[boolean]"@,
        JsonValue::Number(_) => "json[number]"@,
        JsonValue::Text(_) => "json[string]"@,
        JsonValue::Array(_) => "json[array]"@,
        JsonValue::Object(_) => "json[object]"@,
    }
}

/// Names the kind of a node, exactly as [`kind_text`] states it.
fn build_detail_message(value: &JsonValue) -> (r: String)
    ensures
        r@ == kind_text(*value),
{
    proof {
        reveal_strlit("json[null]");
        reveal_strlit("json[boolean]");
        reveal_strlit("json[number]");
        reveal_strlit("json[string]");
        reveal_strlit("json[array]");
        reveal_strlit("json[object]");
    }
    match value {
        JsonValue::Null => String::from_str("json[null]"),
        JsonValue::Bool(_) => String::from_str("json[boolean]"),
        JsonValue::Number(_) => String::from_str("json[number]"),
        JsonValue::Text(_) => String::from_str("json[string]"),
        JsonValue::Array(_) => String::from_str("json[array]"),
        JsonValue::Object(_) => String::from_str("json[object]"),
    }
}

fn kind_failure(expected_kind: String, value: &JsonValue) -> (f: AssertionFailure)
    ensures
        f.rendered() == two_part_format(expected_kind@, kind_text(*value)),
{
    let a = build_detail_message(value);
    AssertionFailure::new().with_expected(expected_kind).with_actual(a)
}

/// Kind assertions on a JSON node; each passing call narrows the subject to
/// the inner value of the matched kind.
pub trait JsonAssertions<'s> {
    /// The node under test.
    spec fn subject_json(&self) -> JsonValue;

    /// The diagnostic metadata of the subject, carried into the narrowed
    /// handle.
    spec fn subject_description(&self) -> Option<String>;

    /// Passes exactly when the node is the null literal.
    fn is_null(&self) -> (r: Result<(), AssertionFailure>)
        ensures
            r.is_ok() <==> self.subject_json() is Null,
            r matches Err(f) ==> f.rendered() == two_part_format(
                "json[null]"@,
                kind_text(self.subject_json()),
            ),
    ;

    /// Passes exactly when the node is a boolean, handing back its value.
    fn is_boolean(&self) -> (r: Result<Subject<'s, bool>, AssertionFailure>)
        ensures
            r.is_ok() <==> self.subject_json() is Bool,
            r matches Ok(sub) ==> self.subject_json() matches JsonValue::Bool(b) && *sub.value == b
                && sub.description == self.subject_description(),
            r matches Err(f) ==> f.rendered() == two_part_format(
                "json[boolean]"@,
                kind_text(self.subject_json()),
            ),
    ;

    /// Passes exactly when the node is a number, handing back its literal.
    fn is_number(&self) -> (r: Result<Subject<'s, JsonNumber>, AssertionFailure>)
        ensures
            r.is_ok() <==> self.subject_json() is Number,
            r matches Ok(sub) ==> self.subject_json() matches JsonValue::Number(n) && *sub.value
                == n && sub.description == self.subject_description(),
            r matches Err(f) ==> f.rendered() == two_part_format(
                "json[number]"@,
                kind_text(self.subject_json()),
            ),
    ;

    /// Passes exactly when the node is a string, handing back its text.
    fn is_string(&self) -> (r: Result<Subject<'s, String>, AssertionFailure>)
        ensures
            r.is_ok() <==> self.subject_json() is Text,
            r matches Ok(sub) ==> self.subject_json() matches JsonValue::Text(t) && *sub.value == t
                && sub.description == self.subject_description(),
            r matches Err(f) ==> f.rendered() == two_part_format(
                "json[string]"@,
                kind_text(self.subject_json()),
            ),
    ;

    /// Passes exactly when the node is an array, handing back its elements.
    fn is_array(&self) -> (r: Result<Subject<'s, Vec<JsonValue>>, AssertionFailure>)
        ensures
            r.is_ok() <==> self.subject_json() is Array,
            r matches Ok(sub) ==> self.subject_json() matches JsonValue::Array(a) && *sub.value
                == a && sub.description == self.subject_description(),
            r matches Err(f) ==> f.rendered() == two_part_format(
                "json[array]"@,
                kind_text(self.subject_json()),
            ),
    ;

    /// Passes exactly when the node is an object, handing back its entries.
    fn is_object(&self) -> (r: Result<Subject<'s, JsonObject>, AssertionFailure>)
        ensures
            r.is_ok() <==> self.subject_json() is Object,
            r matches Ok(sub) ==> self.subject_json() matches JsonValue::Object(o) && *sub.value
                == o && sub.description == self.subject_description(),
            r matches Err(f) ==> f.rendered() == two_part_format(
                "json[object]"@,
                kind_text(self.subject_json()),
            ),
    ;
}

impl<'s> JsonAssertions<'s> for Subject<'s, JsonValue> {
    open spec fn subject_json(&self) -> JsonValue {
        *self.value
    }

    open spec fn subject_description(&self) -> Option<String> {
        self.description
    }

    fn is_null(&self) -> (r: Result<(), AssertionFailure>) {
        proof {
            reveal_strlit("json[null]");
        }
        match self.value {
            JsonValue::Null => Ok(()),
            other => Err(kind_failure(String::from_str("json[null]"), other)),
        }
    }

    fn is_boolean(&self) -> (r: Result<Subject<'s, bool>, AssertionFailure>) {
        proof {
            reveal_strlit("json[boolean]");
        }
        match self.value {
            JsonValue::Bool(val) => Ok(self.narrowed(val)),
            other => Err(kind_failure(String::from_str("json[boolean]"), other)),
        }
    }

    fn is_number(&self) -> (r: Result<Subject<'s, JsonNumber>, AssertionFailure>) {
        proof {
            reveal_strlit("json[number]");
        }
        match self.value {
            JsonValue::Number(val) => Ok(self.narrowed(val)),
            other => Err(kind_failure(String::from_str("json[number]"), other)),
        }
    }

    fn is_string(&self) -> (r: Result<Subject<'s, String>, AssertionFailure>) {
        proof {
            reveal_strlit("json[string]");
        }
        match self.value {
            JsonValue::Text(val) => Ok(self.narrowed(val)),
            other => Err(kind_failure(String::from_str("json[string]"), other)),
        }
    }

    fn is_array(&self) -> (r: Result<Subject<'s, Vec<JsonValue>>, AssertionFailure>) {
        proof {
            reveal_strlit("json[array]");
        }
        match self.value {
            JsonValue::Array(val) => Ok(self.narrowed(val)),
            other => Err(kind_failure(String::from_str("json[array]"), other)),
        }
    }

    fn is_object(&self) -> (r: Result<Subject<'s, JsonObject>, AssertionFailure>) {
        proof {
            reveal_strlit("json[object]");
        }
        match self.value {
            JsonValue::Object(val) => Ok(self.narrowed(val)),
            other => Err(kind_failure(String::from_str("json[object]"), other)),
        }
    }
}

/// The position of the first entry with the given key, scanning from `i`.
pub open spec fn key_index_from(entries: Seq<JsonEntry>, key: Seq<char>, i: int) -> Option<int>
    decreases entries.len() - i,
{
    if i < 0 || i >= entries.len() {
        None
    } else if entries[i].key@ == key {
        Some(i)
    } else {
        key_index_from(entries, key, i + 1)
    }
}

/// The expected-side text of a missing-key failure.
pub open spec fn contains_key_text(key: Seq<char>) -> Seq<char> {
    "json[object] to contain key <"@ + quoted(key) + ">"@
}

/// The expected-side text of a present-key failure.
pub open spec fn not_contains_key_text(key: Seq<char>) -> Seq<char> {
    "json[object] to not contain key <"@ + key + ">"@
}

/// Assertions available on a JSON object subject.
pub trait JsonObjectAssertions<'s> {
    /// The entries of the object under test, in document order.
    spec fn subject_entries(&self) -> Seq<JsonEntry>;

    /// The diagnostic metadata of the subject, carried into the narrowed
    /// handle.
    spec fn subject_description(&self) -> Option<String>;

    /// Passes exactly when the object has the expected number of entries.
    fn has_length(&self, expected: usize) -> (r: Result<(), AssertionFailure>)
        ensures
            r.is_ok() <==> self.subject_entries().len() == expected,
            r matches Err(f) ==> f.rendered() == two_part_format(
                "json[object] to have length <"@ + dec_rep(expected as nat) + ">"@,
                "<"@ + dec_rep(self.subject_entries().len()) + ">"@,
            ),
    ;

    /// Passes exactly when the object has no entries.
    fn is_empty(&self) -> (r: Result<(), AssertionFailure>)
        ensures
            r.is_ok() <==> self.subject_entries().len() == 0,
            r matches Err(f) ==> f.rendered() == two_part_format(
                "an empty json[object]"@,
                "a json[object] with length <"@ + dec_rep(self.subject_entries().len()) + ">"@,
            ),
    ;

    /// Passes exactly when the object has at least one entry.
    fn is_not_empty(&self) -> (r: Result<(), AssertionFailure>)
        ensures
            r.is_ok() <==> self.subject_entries().len() != 0,
            r matches Err(f) ==> f.rendered() == two_part_format(
                "a non empty json[object]"@,
                "an empty json[object]"@,
            ),
    ;

    /// Passes exactly when the object holds the expected key, handing back the
    /// value of its first entry with that key; a failure lists every key.
    fn contains_key(&self, expected_key: &str) -> (r: Result<
        Subject<'s, JsonValue>,
        AssertionFailure,
    >)
        ensures
            r.is_ok() <==> key_index_from(self.subject_entries(), expected_key@, 0) is Some,
            r matches Ok(sub) ==> (key_index_from(self.subject_entries(), expected_key@, 0)
                matches Some(i) && *sub.value == self.subject_entries()[i].value
                && sub.description == self.subject_description()),
            r matches Err(f) ==> f.rendered() == two_part_format(
                contains_key_text(expected_key@),
                angled(
                    seq!['['] + comma_separated(
                        self.subject_entries().map_values(|e: JsonEntry| e.key),
                        self.subject_entries().len() as int,
                    ) + seq![']'],
                ),
            ),
    ;

    /// The exact negation of `contains_key`.
    fn does_not_contain_key(&self, expected_key: &str) -> (r: Result<(), AssertionFailure>)
        ensures
            r.is_ok() <==> key_index_from(self.subject_entries(), expected_key@, 0) is None,
            r matches Err(f) ==> f.rendered() == two_part_format(
                not_contains_key_text(expected_key@),
                "present in json[object]"@,
            ),
    ;
}

impl<'s> JsonObjectAssertions<'s> for Subject<'s, JsonObject> {
    open spec fn subject_entries(&self) -> Seq<JsonEntry> {
        self.value.entries@
    }

    open spec fn subject_description(&self) -> Option<String> {
        self.description
    }

    fn has_length(&self, expected: usize) -> (r: Result<(), AssertionFailure>) {
        let length = self.value.entries.len();
        if length == expected {
            Ok(())
        } else {
            proof {
                reveal_strlit("json[object] to have length <");
                reveal_strlit("<");
                reveal_strlit(">");
            }
            let mut e = String::from_str("json[object] to have length <");
            push_len(&mut e, expected);
            e.append(">");
            assert(e@ =~= "json[object] to have length <"@ + dec_rep(expected as nat) + ">"@);
            let mut a = String::from_str("<");
            push_len(&mut a, length);
            a.append(">");
            assert(a@ =~= "<"@ + dec_rep(self.subject_entries().len()) + ">"@);
            Err(AssertionFailure::new().with_expected(e).with_actual(a))
        }
    }

    fn is_empty(&self) -> (r: Result<(), AssertionFailure>) {
        let length = self.value.entries.len();
        if length == 0 {
            Ok(())
        } else {
            proof {
                reveal_strlit("an empty json[object]");
                reveal_strlit("a json[object] with length <");
                reveal_strlit(">");
            }
            let mut a = String::from_str("a json[object] with length <");
            push_len(&mut a, length);
            a.append(">");
            assert(a@ =~= "a json[object] with length <"@ + dec_rep(self.subject_entries().len())
                + ">"@);
            Err(
                AssertionFailure::new().with_expected(
                    String::from_str("an empty json[object]"),
                ).with_actual(a),
            )
        }
    }

    fn is_not_empty(&self) -> (r: Result<(), AssertionFailure>) {
        if self.value.entries.len() != 0 {
            Ok(())
        } else {
            proof {
                reveal_strlit("a non empty json[object]");
                reveal_strlit("an empty json[object]");
            }
            Err(
                AssertionFailure::new().with_expected(
                    String::from_str("a non empty json[object]"),
                ).with_actual(String::from_str("an empty json[object]")),
            )
        }
    }

    fn contains_key(&self, expected_key: &str) -> (r: Result<
        Subject<'s, JsonValue>,
        AssertionFailure,
    >) {
        let entries = &self.value.entries;
        let mut i: usize = 0;
        while i < entries.len()
            invariant
                0 <= i <= entries@.len(),
                entries@ == self.value.entries@,
                key_index_from(entries@, expected_key@, 0) == key_index_from(
                    entries@,
                    expected_key@,
                    i as int,
                ),
            decreases entries@.len() - i,
        {
            if str_eq(entries[i].key.as_str(), expected_key) {
                proof {
                    assert(entries@[i as int].key@ == expected_key@);
                    assert(key_index_from(entries@, expected_key@, i as int) == Some(i as int));
                }
                return Ok(self.narrowed(&entries[i].value));
            }
            i += 1;
        }
        proof {
            reveal_strlit("json[object] to contain key <");
            reveal_strlit(">");
        }
        let mut e = String::from_str("json[object] to contain key <");
        crate::describe::push_quoted(&mut e, expected_key);
        e.append(">");
        assert(e@ =~= contains_key_text(expected_key@));
        let mut keys: Vec<String> = Vec::new();
        let mut j: usize = 0;
        while j < entries.len()
            invariant
                0 <= j <= entries@.len(),
                keys@.len() == j,
                forall|t: int| 0 <= t < j ==> keys@[t] == entries@[t].key,
            decreases entries@.len() - j,
        {
            keys.push(entries[j].key.clone());
            j += 1;
        }
        proof {
            assert(keys@ =~= self.subject_entries().map_values(|entry: JsonEntry| entry.key));
        }
        let mut a = String::new();
        a.push('<');
        push_list(&mut a, &keys);
        a.push('>');
        proof {
            assert(a@ =~= angled(
                seq!['['] + comma_separated(
                    self.subject_entries().map_values(|entry: JsonEntry| entry.key),
                    self.subject_entries().len() as int,
                ) + seq![']'],
            ));
        }
        Err(AssertionFailure::new().with_expected(e).with_actual(a))
    }

    fn does_not_contain_key(&self, expected_key: &str) -> (r: Result<(), AssertionFailure>) {
        let entries = &self.value.entries;
        let mut i: usize = 0;
        while i < entries.len()
            invariant
                0 <= i <= entries@.len(),
                entries@ == self.value.entries@,
                key_index_from(entries@, expected_key@, 0) == key_index_from(
                    entries@,
                    expected_key@,
                    i as int,
                ),
            decreases entries@.len() - i,
        {
            if str_eq(entries[i].key.as_str(), expected_key) {
                proof {
                    assert(entries@[i as int].key@ == expected_key@);
                    assert(key_index_from(entries@, expected_key@, i as int) == Some(i as int));
                    reveal_strlit("json[object] to not contain key <");
                    reveal_strlit(">");
                    reveal_strlit("present in json[object]");
                }
                let mut e = String::from_str("json[object] to not contain key <");
                e.append(expected_key);
                e.append(">");
                assert(e@ =~= not_contains_key_text(expected_key@));
                return Err(
                    AssertionFailure::new().with_expected(e).with_actual(
                        String::from_str("present in json[object]"),
                    ),
                );
            }
            i += 1;
        }
        Ok(())
    }
}

} // verus!
