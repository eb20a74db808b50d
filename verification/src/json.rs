//! The library's own model of the structured documents the node returns.
//! The façade reads named fields out of these envelopes; modelling the data
//! as a plain enum lets every extraction step be verified.

use vstd::prelude::*;
use crate::strutil::str_eq;

verus! {

/// A structured JSON-like document. Objects keep their entries in the order
/// received; a lookup resolves duplicate keys to the first occurrence. Every
/// field this library reads is integral, so numbers are held as `i64`.
#[derive(Debug)]
pub enum JsonValue {
    Null,
    Bool(bool),
    Number(i64),
    String(String),
    Array(Vec<JsonValue>),
    Object(Vec<(String, JsonValue)>),
}

/// The value under `key`: the first entry whose key matches.
pub open spec fn obj_get_spec(entries: Seq<(String, JsonValue)>, key: Seq<char>) -> Option<
    JsonValue,
>
    decreases entries.len(),
{
    if entries.len() == 0 {
        None
    } else if entries[0].0@ == key {
        Some(entries[0].1)
    } else {
        obj_get_spec(entries.skip(1), key)
    }
}

/// Skipping a prefix free of `key` does not change the lookup result.
proof fn lemma_obj_get_prefix(entries: Seq<(String, JsonValue)>, key: Seq<char>, i: int)
    requires
        0 <= i <= entries.len(),
        forall|j: int| 0 <= j < i ==> (#[trigger] entries[j].0)@ != key,
    ensures
        obj_get_spec(entries, key) == obj_get_spec(entries.skip(i), key),
    decreases i,
{
    if i > 0 {
        assert(entries[0].0@ != key);
        assert forall|j: int| 0 <= j < i - 1 implies (#[trigger] entries.skip(1)[j].0)@ != key by {
            assert(entries.skip(1)[j] == entries[j + 1]);
        }
        lemma_obj_get_prefix(entries.skip(1), key, i - 1);
        assert(entries.skip(1).skip(i - 1) =~= entries.skip(i));
    } else {
        assert(entries.skip(0) =~= entries);
    }
}

/// Borrow the value under `key`, if the object has one.
pub fn obj_get<'a>(entries: &'a Vec<(String, JsonValue)>, key: &str) -> (r: Option<&'a JsonValue>)
    ensures
        match r {
            Some(v) => obj_get_spec(entries@, key@) == Some(*v),
            None => obj_get_spec(entries@, key@) is None,
        },
{
    let mut i: usize = 0;
    while i < entries.len()
        invariant
            i <= entries@.len(),
            forall|j: int| 0 <= j < i ==> (#[trigger] entries@[j].0)@ != key@,
        decreases entries@.len() - i,
    {
        if str_eq(entries[i].0.as_str(), key) {
            proof {
                lemma_obj_get_prefix(entries@, key@, i as int);
            }
            return Some(&entries[i].1);
        }
        i = i + 1;
    }
    proof {
        lemma_obj_get_prefix(entries@, key@, entries@.len() as int);
        assert(entries@.skip(entries@.len() as int) =~= Seq::empty());
    }
    None
}

/// Take the value under `key` out of the object, if it has one.
pub fn obj_take(es: &mut Vec<(String, JsonValue)>, key: &str) -> (r: Option<JsonValue>)
    ensures
        r == obj_get_spec(old(es)@, key@),
{
    let ghost orig = old(es)@;
    let mut i: usize = 0;
    while i < es.len()
        invariant
            orig == old(es)@,
            es@ == orig,
            i <= orig.len(),
            forall|j: int| 0 <= j < i ==> (#[trigger] orig[j].0)@ != key@,
        decreases orig.len() - i,
    {
        if str_eq(es[i].0.as_str(), key) {
            proof {
                lemma_obj_get_prefix(orig, key@, i as int);
                assert(orig.skip(i as int).len() > 0);
                assert(orig.skip(i as int)[0] == orig[i as int]);
                assert(orig[i as int].0@ == key@);
                assert(obj_get_spec(orig.skip(i as int), key@) == Some(
                    orig.skip(i as int)[0].1,
                ));
                assert(obj_get_spec(orig, key@) == Some(orig[i as int].1));
            }
            let pair = es.remove(i);
            assert(pair == orig[i as int]);
            return Some(pair.1);
        }
        i = i + 1;
    }
    proof {
        lemma_obj_get_prefix(orig, key@, orig.len() as int);
        assert(orig.skip(orig.len() as int) =~= Seq::empty());
    }
    None
}

} // verus!
