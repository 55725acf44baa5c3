//! An insertion-ordered map from template name to template source.
//!
//! The map is an `indexmap::IndexMap<String, String>`. Its contents are named
//! [`template_entries`]: the `(name, source)` pairs in insertion order. Every
//! operation the library uses goes through one of the wrappers below, whose
//! contracts state what `indexmap` documents for that operation.

use indexmap::IndexMap;
use vstd::prelude::*;

verus! {

/// Declares `indexmap::IndexMap` to Verus; its values are opaque.
#[verifier::external_type_specification]
#[verifier::external_body]
#[verifier::reject_recursive_types(K)]
#[verifier::reject_recursive_types(V)]
#[verifier::reject_recursive_types(S)]
pub struct ExIndexMap<K, V, S>(IndexMap<K, V, S>);

/// The `(name, source)` pairs of a template map, in insertion order.
pub uninterp spec fn template_entries(m: IndexMap<String, String>) -> Seq<(Seq<char>, Seq<char>)>;

/// The position of the first entry with key `k`, or `-1` when there is none.
pub open spec fn key_index(e: Seq<(Seq<char>, Seq<char>)>, k: Seq<char>) -> int
    decreases e.len(),
{
    if e.len() == 0 {
        -1
    } else {
        let i = key_index(e.drop_last(), k);
        if i >= 0 {
            i
        } else if e.last().0 == k {
            e.len() - 1
        } else {
            -1
        }
    }
}

/// The entries after inserting `(k, v)`: an entry with key `k` keeps its
/// place and takes the value `v`; otherwise the pair is added last.
pub open spec fn entries_insert(
    e: Seq<(Seq<char>, Seq<char>)>,
    k: Seq<char>,
    v: Seq<char>,
) -> Seq<(Seq<char>, Seq<char>)> {
    let i = key_index(e, k);
    if i >= 0 {
        e.update(i, (k, v))
    } else {
        e.push((k, v))
    }
}

/// The value stored under `k`, if any.
pub open spec fn entries_get(e: Seq<(Seq<char>, Seq<char>)>, k: Seq<char>) -> Option<Seq<char>> {
    let i = key_index(e, k);
    if i >= 0 {
        Some(e[i].1)
    } else {
        None
    }
}

/// `key_index` finds a position holding the key, and no earlier one does.
pub proof fn lemma_key_index(e: Seq<(Seq<char>, Seq<char>)>, k: Seq<char>)
    ensures
        -1 <= key_index(e, k) < e.len(),
        key_index(e, k) >= 0 ==> e[key_index(e, k)].0 == k,
        key_index(e, k) >= 0 ==> forall|j: int| 0 <= j < key_index(e, k) ==> e[j].0 != k,
        key_index(e, k) < 0 ==> forall|j: int| 0 <= j < e.len() ==> e[j].0 != k,
    decreases e.len(),
{
    if e.len() > 0 {
        let d = e.drop_last();
        lemma_key_index(d, k);
        assert forall|j: int| 0 <= j < d.len() implies #[trigger] e[j] == d[j] by {}
        assert(e.last() == e[e.len() - 1]);
    }
}

/// Adding a pair at the end leaves the positions of earlier keys alone.
pub proof fn lemma_key_index_push(
    e: Seq<(Seq<char>, Seq<char>)>,
    p: (Seq<char>, Seq<char>),
    k: Seq<char>,
)
    ensures
        key_index(e.push(p), k) == (if key_index(e, k) >= 0 {
            key_index(e, k)
        } else if p.0 == k {
            e.len() as int
        } else {
            -1
        }),
{
    assert(e.push(p).drop_last() =~= e);
}

/// An empty map.
///
/// Calls `IndexMap::new`, documented as creating an empty map.
#[verifier::external_body]
pub fn map_new() -> (m: IndexMap<String, String>)
    ensures
        template_entries(m) == Seq::<(Seq<char>, Seq<char>)>::empty(),
{
    IndexMap::new()
}

/// Inserts `(k, v)`.
///
/// Calls `IndexMap::insert`, documented as: if an equivalent key exists, it
/// keeps its place in the order and its value is updated; otherwise the pair
/// is inserted last.
#[verifier::external_body]
pub fn map_insert(m: &mut IndexMap<String, String>, k: String, v: String)
    ensures
        template_entries(*final(m)) == entries_insert(template_entries(*old(m)), k@, v@),
{
    m.insert(k, v);
}

/// The number of entries.
///
/// Calls `IndexMap::len`, documented as the number of key-value pairs.
#[verifier::external_body]
pub fn map_len(m: &IndexMap<String, String>) -> (n: usize)
    ensures
        n == template_entries(*m).len(),
{
    m.len()
}

/// The entry at position `i` in insertion order.
///
/// Calls `IndexMap::get_index`, documented as the key-value pair at that
/// position, which exists for every position below the length.
#[verifier::external_body]
pub fn map_get_index(m: &IndexMap<String, String>, i: usize) -> (r: (String, String))
    requires
        i < template_entries(*m).len(),
    ensures
        (r.0@, r.1@) == template_entries(*m)[i as int],
{
    let (k, v) = m.get_index(i).unwrap();
    (k.clone(), v.clone())
}

/// Whether an entry has key `k`.
pub fn map_contains_key(m: &IndexMap<String, String>, k: &str) -> (b: bool)
    ensures
        b == (key_index(template_entries(*m), k@) >= 0),
{
    map_position(m, k).is_some()
}

/// The position of the entry with key `k`, found by a scan in order.
pub fn map_position(m: &IndexMap<String, String>, k: &str) -> (r: Option<usize>)
    ensures
        match r {
            Some(i) => i as int == key_index(template_entries(*m), k@),
            None => key_index(template_entries(*m), k@) < 0,
        },
{
    let ghost e = template_entries(*m);
    proof {
        lemma_key_index(e, k@);
    }
    let n = map_len(m);
    let key = crate::text::to_owned_string(k);
    let mut i: usize = 0;
    while i < n
        invariant
            n == e.len(),
            e == template_entries(*m),
            key@ == k@,
            i <= n,
            forall|j: int| 0 <= j < i ==> e[j].0 != k@,
            -1 <= key_index(e, k@) < e.len(),
            key_index(e, k@) >= 0 ==> e[key_index(e, k@)].0 == k@ && forall|j: int|
                0 <= j < key_index(e, k@) ==> e[j].0 != k@,
            key_index(e, k@) < 0 ==> forall|j: int| 0 <= j < e.len() ==> e[j].0 != k@,
        decreases n - i,
    {
        let (name, _) = map_get_index(m, i);
        if name == key {
            return Some(i);
        }
        i = i + 1;
    }
    None
}

/// The value stored under `k`, if any.
pub fn map_get(m: &IndexMap<String, String>, k: &str) -> (r: Option<String>)
    ensures
        match r {
            Some(v) => entries_get(template_entries(*m), k@) == Some(v@),
            None => entries_get(template_entries(*m), k@) is None,
        },
{
    proof {
        lemma_key_index(template_entries(*m), k@);
    }
    match map_position(m, k) {
        Some(i) => {
            let (_, v) = map_get_index(m, i);
            Some(v)
        },
        None => None,
    }
}

} // verus!

verus! {

/// Reading a key back after inserting it gives the value inserted, and
/// inserting leaves the values of other keys as they were.
pub proof fn lemma_get_after_insert(
    e: Seq<(Seq<char>, Seq<char>)>,
    k: Seq<char>,
    v: Seq<char>,
    other: Seq<char>,
)
    ensures
        entries_get(entries_insert(e, k, v), k) == Some(v),
        other != k ==> entries_get(entries_insert(e, k, v), other) == entries_get(e, other),
{
    let e2 = entries_insert(e, k, v);
    lemma_key_index(e, k);
    lemma_key_index(e2, k);
    lemma_key_index(e, other);
    lemma_key_index(e2, other);
    if key_index(e, k) >= 0 {
        let i = key_index(e, k);
        assert forall|j: int| 0 <= j < e.len() && j != i implies #[trigger] e2[j] == e[j] by {}
        assert(e2[i] == (k, v));
        if key_index(e2, k) < i {
            assert(e2[key_index(e2, k)] == e[key_index(e2, k)]);
        }
        assert(key_index(e2, k) == i);
        if other != k {
            if key_index(e, other) >= 0 {
                assert(e2[key_index(e, other)] == e[key_index(e, other)]);
            }
            if key_index(e2, other) >= 0 {
                assert(e[key_index(e2, other)] == e2[key_index(e2, other)]);
            }
        }
    } else {
        assert forall|j: int| 0 <= j < e.len() implies #[trigger] e2[j] == e[j] by {}
        assert(e2[e.len() as int] == (k, v));
        if other != k {
            if key_index(e, other) >= 0 {
                assert(e2[key_index(e, other)] == e[key_index(e, other)]);
            }
            if key_index(e2, other) >= 0 {
                assert(key_index(e2, other) < e.len());
                assert(e[key_index(e2, other)] == e2[key_index(e2, other)]);
            }
        }
    }
}

/// Inserting a key that is already present keeps the number of entries;
/// inserting a new one adds one entry at the end.
pub proof fn lemma_insert_len(e: Seq<(Seq<char>, Seq<char>)>, k: Seq<char>, v: Seq<char>)
    ensures
        key_index(e, k) >= 0 ==> entries_insert(e, k, v).len() == e.len(),
        key_index(e, k) < 0 ==> entries_insert(e, k, v).len() == e.len() + 1 && entries_insert(
            e,
            k,
            v,
        ).last() == (k, v),
{
    lemma_key_index(e, k);
}

} // verus!
