use crate::model::LetterState;
use indexmap::IndexMap;
use vstd::prelude::*;

verus! {

/// `indexmap::IndexMap`, an insertion-ordered hash map, held opaque.
#[verifier::external_type_specification]
#[verifier::external_body]
#[verifier::reject_recursive_types(K)]
#[verifier::reject_recursive_types(V)]
#[verifier::reject_recursive_types(S)]
pub struct ExIndexMap<K, V, S>(IndexMap<K, V, S>);

/// The entries of an `IndexMap` from letters to states, in insertion order.
pub uninterp spec fn entries_of(m: IndexMap<char, LetterState>) -> Seq<(char, LetterState)>;

/// No key occurs twice.
pub open spec fn keys_unique(s: Seq<(char, LetterState)>) -> bool {
    forall|i: int, j: int| 0 <= i < s.len() && 0 <= j < s.len() && i != j ==> s[i].0 != s[j].0
}

/// `c` is the key of some entry.
pub open spec fn has_key(s: Seq<(char, LetterState)>, c: char) -> bool {
    exists|i: int| 0 <= i < s.len() && s[i].0 == c
}

/// The state recorded for `c`, if any (the first entry with that key).
pub open spec fn state_of(s: Seq<(char, LetterState)>, c: char) -> Option<LetterState>
    decreases s.len(),
{
    if s.len() == 0 {
        None
    } else if s[0].0 == c {
        Some(s[0].1)
    } else {
        state_of(s.drop_first(), c)
    }
}

/// With unique keys, the state of an entry's key is that entry's state.
pub proof fn lemma_state_of_entry(s: Seq<(char, LetterState)>, i: int)
    requires
        keys_unique(s),
        0 <= i < s.len(),
    ensures
        state_of(s, s[i].0) == Some(s[i].1),
    decreases s.len(),
{
    if i > 0 {
        assert(s[0].0 != s[i].0);
        let t = s.drop_first();
        assert(t[i - 1] == s[i]);
        lemma_state_of_entry(t, i - 1);
    }
}

/// A key that no entry has has no state.
pub proof fn lemma_state_of_absent(s: Seq<(char, LetterState)>, c: char)
    requires
        !has_key(s, c),
    ensures
        state_of(s, c) is None,
    decreases s.len(),
{
    if s.len() > 0 {
        let t = s.drop_first();
        assert(s[0].0 != c);
        assert forall|i: int| 0 <= i < t.len() implies t[i].0 != c by {
            assert(t[i] == s[i + 1]);
        }
        lemma_state_of_absent(t, c);
    }
}

/// The state of every key, after an entry's state is replaced.
pub proof fn lemma_state_of_update(s: Seq<(char, LetterState)>, j: int, v: LetterState, d: char)
    requires
        keys_unique(s),
        0 <= j < s.len(),
    ensures
        keys_unique(s.update(j, (s[j].0, v))),
        state_of(s.update(j, (s[j].0, v)), d) == if d == s[j].0 {
            Some(v)
        } else {
            state_of(s, d)
        },
{
    let t = s.update(j, (s[j].0, v));
    assert(keys_unique(t));
    if d == s[j].0 {
        lemma_state_of_entry(t, j);
    } else if has_key(s, d) {
        let i = choose|i: int| 0 <= i < s.len() && s[i].0 == d;
        lemma_state_of_entry(s, i);
        lemma_state_of_entry(t, i);
    } else {
        lemma_state_of_absent(s, d);
        assert(!has_key(t, d));
        lemma_state_of_absent(t, d);
    }
}

/// The state of every key, after a new key is appended.
pub proof fn lemma_state_of_push(s: Seq<(char, LetterState)>, c: char, v: LetterState, d: char)
    requires
        keys_unique(s),
        !has_key(s, c),
    ensures
        keys_unique(s.push((c, v))),
        state_of(s.push((c, v)), d) == if d == c {
            Some(v)
        } else {
            state_of(s, d)
        },
{
    let t = s.push((c, v));
    assert(keys_unique(t));
    if d == c {
        lemma_state_of_entry(t, s.len() as int);
    } else if has_key(s, d) {
        let i = choose|i: int| 0 <= i < s.len() && s[i].0 == d;
        lemma_state_of_entry(s, i);
        lemma_state_of_entry(t, i);
    } else {
        lemma_state_of_absent(s, d);
        assert(!has_key(t, d));
        lemma_state_of_absent(t, d);
    }
}

/// Relies on `IndexMap::new`: the map starts empty.
#[verifier::external_body]
pub(crate) fn map_new() -> (r: IndexMap<char, LetterState>)
    ensures
        entries_of(r) == Seq::<(char, LetterState)>::empty(),
{
    IndexMap::new()
}

/// Relies on `IndexMap::len`: the number of entries.
#[verifier::external_body]
pub(crate) fn map_len(m: &IndexMap<char, LetterState>) -> (r: usize)
    ensures
        r == entries_of(*m).len(),
{
    m.len()
}

/// Relies on `IndexMap::insert`: an existing key keeps its place and takes the new
/// state, returning the old one; a new key is appended last.
#[verifier::external_body]
pub(crate) fn map_insert(m: &mut IndexMap<char, LetterState>, key: char, value: LetterState) -> (r:
    Option<LetterState>)
    ensures
        forall|i: int|
            0 <= i < entries_of(*old(m)).len() && entries_of(*old(m))[i].0 == key ==> {
                &&& entries_of(*final(m)) == entries_of(*old(m)).update(i, (key, value))
                &&& r == Some(entries_of(*old(m))[i].1)
            },
        !has_key(entries_of(*old(m)), key) ==> {
            &&& entries_of(*final(m)) == entries_of(*old(m)).push((key, value))
            &&& r is None
        },
{
    m.insert(key, value)
}

/// Relies on `IndexMap::get`: the state stored under `key`.
#[verifier::external_body]
pub(crate) fn map_get(m: &IndexMap<char, LetterState>, key: char) -> (r: Option<LetterState>)
    ensures
        keys_unique(entries_of(*m)) ==> r == state_of(entries_of(*m), key),
{
    m.get(&key).copied()
}

/// Relies on `IndexMap::get_index`: the entry at position `i` in insertion order.
#[verifier::external_body]
pub(crate) fn map_get_index(m: &IndexMap<char, LetterState>, i: usize) -> (r: Option<
    (char, LetterState),
>)
    ensures
        i < entries_of(*m).len() ==> r == Some(entries_of(*m)[i as int]),
        i >= entries_of(*m).len() ==> r is None,
{
    m.get_index(i).map(|(k, v)| (*k, *v))
}

} // verus!
