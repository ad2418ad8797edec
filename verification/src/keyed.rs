//! Lists of entries kept in the order of their text keys, each key once:
//! the shape of the sorted maps that config files are read into.

use vstd::prelude::*;

use crate::strings::{str_eq, str_lt, text_lt};

verus! {

/// The keys of the entries, in order
pub open spec fn keys_of<V>(m: Seq<(Seq<char>, V)>) -> Seq<Seq<char>> {
    m.map_values(|e: (Seq<char>, V)| e.0)
}

/// The keys of entries keyed by `String`, as text
pub open spec fn string_keys<V>(m: Seq<(String, V)>) -> Seq<Seq<char>> {
    m.map_values(|e: (String, V)| e.0@)
}

/// Where key `k` goes among keys in order: after every key that comes
/// before it
pub open spec fn key_pos(keys: Seq<Seq<char>>, k: Seq<char>) -> int
    decreases keys.len(),
{
    if keys.len() == 0 {
        0
    } else if text_lt(keys[0], k) {
        1 + key_pos(keys.skip(1), k)
    } else {
        0
    }
}

/// The entries with `k` set to `v`: an entry with key `k` takes the new
/// value, else a new entry goes where its key belongs
pub open spec fn keyed_insert<V>(m: Seq<(Seq<char>, V)>, k: Seq<char>, v: V) -> Seq<(Seq<char>, V)> {
    let p = key_pos(keys_of(m), k);
    if p < m.len() && m[p].0 == k {
        m.update(p, (k, v))
    } else {
        m.insert(p, (k, v))
    }
}

/// The entries set one after the other into an empty map: keys in order,
/// each once, with the value of the last entry for it
pub open spec fn keyed_from<V>(entries: Seq<(Seq<char>, V)>) -> Seq<(Seq<char>, V)>
    decreases entries.len(),
{
    if entries.len() == 0 {
        Seq::empty()
    } else {
        keyed_insert(keyed_from(entries.drop_last()), entries.last().0, entries.last().1)
    }
}

/// The keys are in order, each once
pub open spec fn keys_ascending<V>(m: Seq<(Seq<char>, V)>) -> bool {
    forall|i: int, j: int| 0 <= i < j < m.len() ==> text_lt(#[trigger] m[i].0, #[trigger] m[j].0)
}

/// The texts are in order, each once
pub open spec fn texts_ascending(s: Seq<Seq<char>>) -> bool {
    forall|i: int, j: int| 0 <= i < j < s.len() ==> text_lt(#[trigger] s[i], #[trigger] s[j])
}

/// The position of a key is the first key that does not come before it
pub proof fn lemma_key_pos_first(keys: Seq<Seq<char>>, k: Seq<char>, j: int)
    requires
        0 <= j <= keys.len(),
        forall|i: int| 0 <= i < j ==> text_lt(#[trigger] keys[i], k),
        j == keys.len() || !text_lt(keys[j], k),
    ensures
        key_pos(keys, k) == j,
    decreases keys.len(),
{
    if keys.len() > 0 && j > 0 {
        assert(text_lt(keys[0], k));
        let rest = keys.skip(1);
        assert forall|i: int| 0 <= i < j - 1 implies text_lt(#[trigger] rest[i], k) by {
            assert(rest[i] == keys[i + 1]);
        }
        if j < keys.len() {
            assert(rest[j - 1] == keys[j]);
        }
        lemma_key_pos_first(rest, k, j - 1);
    }
}

/// Where key `k` goes among the keys of `m`, and whether an entry with that
/// key is there
pub fn key_slot<V>(m: &Vec<(String, V)>, k: &str) -> (r: (usize, bool))
    ensures
        r.0 == key_pos(string_keys(m@), k@),
        r.0 <= m@.len(),
        r.1 == (r.0 < m@.len() && m@[r.0 as int].0@ == k@),
{
    let ghost keys = string_keys(m@);
    let mut j: usize = 0;
    while j < m.len()
        invariant_except_break
            forall|i: int| 0 <= i < j ==> text_lt(#[trigger] keys[i], k@),
        invariant
            j <= m@.len(),
            keys == string_keys(m@),
            keys.len() == m@.len(),
        ensures
            j <= m@.len(),
            forall|i: int| 0 <= i < j ==> text_lt(#[trigger] keys[i], k@),
            j == m@.len() || !text_lt(keys[j as int], k@),
        decreases m.len() - j,
    {
        assert(keys[j as int] == m@[j as int].0@);
        if !str_lt(m[j].0.as_str(), k) {
            break ;
        }
        j = j + 1;
    }
    proof {
        lemma_key_pos_first(keys, k@, j as int);
    }
    let found = j < m.len() && str_eq(m[j].0.as_str(), k);
    (j, found)
}

} // verus!
