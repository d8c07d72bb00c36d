//! A structural model of one JSON document.
//!
//! The envelope codec works on this tree; the wire module turns it into and
//! out of text. A number that fits a signed 64-bit integer is held exactly;
//! any other number — a fraction, or an unsigned value above the signed
//! range — is carried through as its literal text, so an opaque payload
//! keeps every value the document gave it.

use vstd::prelude::*;

verus! {

/// One JSON value. A tree built here keeps an object's entries in the
/// order they were pushed; a tree read from text carries the entries in
/// the order the text layer delivers them (serde_json's maps come back
/// sorted by key). Either way, when a key occurs twice the later entry
/// wins on lookup. `Num` carries a number with no i64 representation as
/// its literal text, unread; one whose text is not a JSON number renders
/// as null.
#[derive(Debug, PartialEq, Eq)]
pub enum Json {
    Null,
    Bool(bool),
    Int(i64),
    Num(String),
    Str(String),
    Arr(Vec<Json>),
    Obj(Vec<(String, Json)>),
}

/// Relies on str's PartialEq: two slices are equal exactly when their
/// character sequences are.
#[verifier::external_body]
pub(crate) fn str_eq(a: &str, b: &str) -> (r: bool)
    ensures
        r == (a@ == b@),
{
    a == b
}

/// The characters of a string value; the empty sequence elsewhere.
pub open spec fn str_of(j: Json) -> Seq<char> {
    match j {
        Json::Str(s) => s@,
        _ => Seq::empty(),
    }
}

/// The elements of an array value; the empty sequence elsewhere.
pub open spec fn arr_of(j: Json) -> Seq<Json> {
    match j {
        Json::Arr(items) => items@,
        _ => Seq::empty(),
    }
}

/// The entries of an object value; the empty sequence elsewhere.
pub open spec fn entries_of(j: Json) -> Seq<(String, Json)> {
    match j {
        Json::Obj(entries) => entries@,
        _ => Seq::empty(),
    }
}

/// The value under `key` among `entries`, the last occurrence winning,
/// as a JSON object lookup behaves.
pub open spec fn obj_lookup(entries: Seq<(String, Json)>, key: Seq<char>) -> Option<Json>
    decreases entries.len(),
{
    if entries.len() == 0 {
        None
    } else if entries.last().0@ == key {
        Some(entries.last().1)
    } else {
        obj_lookup(entries.drop_last(), key)
    }
}

/// Prepending an entry leaves every lookup that the rest of the entries
/// already answer unchanged; the new entry answers only what they do not.
pub proof fn lemma_obj_lookup_push_front(e: (String, Json), s: Seq<(String, Json)>, key: Seq<char>)
    ensures
        obj_lookup(seq![e] + s, key) == (match obj_lookup(s, key) {
            Some(v) => Some(v),
            None => if e.0@ == key {
                Some(e.1)
            } else {
                None
            },
        }),
    decreases s.len(),
{
    let t = seq![e] + s;
    assert(t.len() == 1 + s.len());
    if s.len() == 0 {
        assert(t.last() == e);
        assert(t.drop_last() =~= Seq::<(String, Json)>::empty());
        assert(obj_lookup(t.drop_last(), key) is None);
        if e.0@ == key {
            assert(obj_lookup(t, key) == Some(e.1));
        } else {
            assert(obj_lookup(t, key) is None);
        }
    } else {
        assert(t.last() == s.last());
        assert(t.drop_last() =~= seq![e] + s.drop_last());
        lemma_obj_lookup_push_front(e, s.drop_last(), key);
        if s.last().0@ == key {
            assert(obj_lookup(s, key) == Some(s.last().1));
            assert(obj_lookup(t, key) == Some(t.last().1));
        } else {
            assert(obj_lookup(s, key) == obj_lookup(s.drop_last(), key));
            assert(obj_lookup(t, key) == obj_lookup(t.drop_last(), key));
        }
    }
}

} // verus!
