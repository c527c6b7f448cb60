//! A plain JSON value, and the lookups that the response shaping needs.
use vstd::prelude::*;

verus! {

/// A JSON document. Numbers keep the text they were written with, so that
/// they pass through unchanged; object members keep their order.
pub enum Json {
    Null,
    Bool(bool),
    Number(String),
    Str(String),
    Array(Vec<Json>),
    Object(Vec<(String, Json)>),
}

/// The value of the first member of `es` named `key`.
pub open spec fn entry_lookup(es: Seq<(String, Json)>, key: Seq<char>) -> Option<Json>
    decreases es.len(),
{
    if es.len() == 0 {
        None
    } else if es[0].0@ == key {
        Some(es[0].1)
    } else {
        entry_lookup(es.drop_first(), key)
    }
}

/// The member `key` of `v`, or `Null` where `v` is no object or has no such member.
pub open spec fn member_or_null(v: Json, key: Seq<char>) -> Json {
    match v {
        Json::Object(es) => match entry_lookup(es@, key) {
            Some(x) => x,
            None => Json::Null,
        },
        _ => Json::Null,
    }
}

/// Element `i` of `v`, or `Null` where `v` is no array or is too short.
pub open spec fn element_or_null(v: Json, i: int) -> Json {
    match v {
        Json::Array(items) => if 0 <= i < items@.len() {
            items@[i]
        } else {
            Json::Null
        },
        _ => Json::Null,
    }
}

/// The characters of `v` where it is a string.
pub open spec fn text_of(v: Json) -> Option<Seq<char>> {
    match v {
        Json::Str(s) => Some(s@),
        _ => None,
    }
}

/// The elements of `v` where it is an array, else none.
pub open spec fn elements_of(v: Json) -> Seq<Json> {
    match v {
        Json::Array(items) => items@,
        _ => Seq::empty(),
    }
}

proof fn lemma_lookup_suffix(es: Seq<(String, Json)>, key: Seq<char>, i: int)
    requires
        0 <= i < es.len(),
        es[i].0@ != key,
    ensures
        entry_lookup(es.subrange(i, es.len() as int), key) == entry_lookup(
            es.subrange(i + 1, es.len() as int),
            key,
        ),
{
    let s = es.subrange(i, es.len() as int);
    assert(s.drop_first() =~= es.subrange(i + 1, es.len() as int));
}

/// Removing a member named other than `key` leaves the lookup of `key` as it was.
proof fn lemma_lookup_remove(es: Seq<(String, Json)>, i: int, key: Seq<char>)
    requires
        0 <= i < es.len(),
        es[i].0@ != key,
    ensures
        entry_lookup(es.remove(i), key) == entry_lookup(es, key),
    decreases i,
{
    if i == 0 {
        assert(es.remove(0) =~= es.drop_first());
    } else {
        assert(es.remove(i).drop_first() =~= es.drop_first().remove(i - 1));
        lemma_lookup_remove(es.drop_first(), i - 1, key);
    }
}

/// The index of the first member of `es` named `key`.
fn find_entry(es: &Vec<(String, Json)>, key: &str) -> (r: Option<usize>)
    ensures
        match r {
            Some(i) => i < es@.len() && es@[i as int].0@ == key@ && entry_lookup(es@, key@)
                == Some(es@[i as int].1),
            None => entry_lookup(es@, key@) is None,
        },
{
    let mut i: usize = 0;
    assert(es@.subrange(0, es@.len() as int) =~= es@);
    while i < es.len()
        invariant
            i <= es@.len(),
            entry_lookup(es@, key@) == entry_lookup(es@.subrange(i as int, es@.len() as int), key@),
        decreases es@.len() - i,
    {
        if crate::text::same_text(es[i].0.as_str(), key) {
            assert(es@.subrange(i as int, es@.len() as int)[0] == es@[i as int]);
            return Some(i);
        }
        proof {
            lemma_lookup_suffix(es@, key@, i as int);
        }
        i = i + 1;
    }
    None
}

/// Removes the first member of `es` named `key` and hands back its value,
/// or `Null` where there is none; the other members keep their values.
pub fn take_member(es: &mut Vec<(String, Json)>, key: &str) -> (r: Json)
    ensures
        r == (match entry_lookup(old(es)@, key@) {
            Some(x) => x,
            None => Json::Null,
        }),
        forall|k: Seq<char>| k != key@ ==> entry_lookup(final(es)@, k) == entry_lookup(old(es)@, k),
{
    match find_entry(es, key) {
        Some(i) => {
            let ghost before = es@;
            let (_, v) = es.remove(i);
            proof {
                assert forall|k: Seq<char>| k != key@ implies entry_lookup(es@, k) == entry_lookup(
                    before,
                    k,
                ) by {
                    lemma_lookup_remove(before, i as int, k);
                }
            }
            v
        },
        None => Json::Null,
    }
}

impl Json {
    /// The member `key` of this value, where it is an object that has one.
    pub fn member(&self, key: &str) -> (r: Option<&Json>)
        ensures
            match r {
                Some(x) => *x == member_or_null(*self, key@) && (*self matches Json::Object(es)
                    && entry_lookup(es@, key@) is Some),
                None => member_or_null(*self, key@) == Json::Null,
            },
    {
        match self {
            Json::Object(es) => match find_entry(es, key) {
                Some(i) => Some(&es[i].1),
                None => None,
            },
            _ => None,
        }
    }

    /// Element `i` of this value, where it is an array that long.
    pub fn element(&self, i: usize) -> (r: Option<&Json>)
        ensures
            match r {
                Some(x) => *x == element_or_null(*self, i as int),
                None => element_or_null(*self, i as int) == Json::Null,
            },
    {
        match self {
            Json::Array(items) => if i < items.len() {
                Some(&items[i])
            } else {
                None
            },
            _ => None,
        }
    }

    /// The text of this value, where it is a string.
    pub fn text(&self) -> (r: Option<&String>)
        ensures
            match r {
                Some(s) => text_of(*self) == Some(s@),
                None => text_of(*self) is None,
            },
    {
        match self {
            Json::Str(s) => Some(s),
            _ => None,
        }
    }
}

} // verus!
