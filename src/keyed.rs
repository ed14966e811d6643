use vstd::prelude::*;

verus! {

/// Whether `k` is a key of `entries`.
pub open spec fn has_key<V>(entries: Seq<(String, V)>, k: Seq<char>) -> bool {
    exists|i: int| 0 <= i < entries.len() && #[trigger] entries[i].0@ == k
}

/// Whether no key occurs twice in `entries`: the list is a map.
pub open spec fn unique_keys<V>(entries: Seq<(String, V)>) -> bool {
    forall|i: int, j: int|
        0 <= i < entries.len() && 0 <= j < entries.len() && i != j ==> entries[i].0@ != entries[j].0@
}

/// The value stored under `k`, if any (the first entry with that key).
pub open spec fn value_of<V>(entries: Seq<(String, V)>, k: Seq<char>) -> Option<V>
    decreases entries.len(),
{
    if entries.len() == 0 {
        None
    } else if entries[0].0@ == k {
        Some(entries[0].1)
    } else {
        value_of(entries.drop_first(), k)
    }
}

/// `value_of` agrees with the position of a key.
pub proof fn lemma_value_of_at<V>(entries: Seq<(String, V)>, i: int)
    requires
        0 <= i < entries.len(),
        forall|j: int| 0 <= j < i ==> entries[j].0@ != entries[i].0@,
    ensures
        value_of(entries, entries[i].0@) == Some(entries[i].1),
    decreases i,
{
    if i > 0 {
        lemma_value_of_at(entries.drop_first(), i - 1);
    }
}

/// Where no entry has key `k`, `value_of` finds nothing.
pub proof fn lemma_value_of_absent<V>(entries: Seq<(String, V)>, k: Seq<char>)
    requires
        !has_key(entries, k),
    ensures
        value_of(entries, k) is None,
    decreases entries.len(),
{
    if entries.len() > 0 {
        assert(entries[0].0@ != k);
        assert forall|j: int| 0 <= j < entries.drop_first().len()
            implies #[trigger] entries.drop_first()[j].0@ != k by {
            assert(entries.drop_first()[j] == entries[j + 1]);
        }
        lemma_value_of_absent(entries.drop_first(), k);
    }
}

/// In a map, the value stored under an entry's key is that entry's value.
pub proof fn lemma_value_of_unique<V>(entries: Seq<(String, V)>, i: int)
    requires
        unique_keys(entries),
        0 <= i < entries.len(),
    ensures
        value_of(entries, entries[i].0@) == Some(entries[i].1),
{
    lemma_value_of_at(entries, i);
}

/// A value found under `k` is the value of an entry with key `k`.
pub proof fn lemma_value_of_some<V>(entries: Seq<(String, V)>, k: Seq<char>)
    requires
        value_of(entries, k) is Some,
    ensures
        exists|i: int| 0 <= i < entries.len() && #[trigger] entries[i].0@ == k && value_of(entries, k) == Some(entries[i].1),
    decreases entries.len(),
{
    if entries[0].0@ != k {
        lemma_value_of_some(entries.drop_first(), k);
        let i = choose|i: int| 0 <= i < entries.drop_first().len() && #[trigger] entries.drop_first()[i].0@ == k
            && value_of(entries.drop_first(), k) == Some(entries.drop_first()[i].1);
        assert(entries[i + 1] == entries.drop_first()[i]);
    }
}

/// The position of the first entry with key `k`.
pub fn find_key<V>(entries: &Vec<(String, V)>, k: &String) -> (r: Option<usize>)
    ensures
        match r {
            Some(i) => i < entries@.len() && entries@[i as int].0@ == k@
                && value_of(entries@, k@) == Some(entries@[i as int].1),
            None => !has_key(entries@, k@) && value_of(entries@, k@) is None,
        },
{
    let mut i: usize = 0;
    while i < entries.len()
        invariant
            i <= entries@.len(),
            forall|j: int| 0 <= j < i ==> entries@[j].0@ != k@,
        decreases entries@.len() - i,
    {
        if entries[i].0.eq(k) {
            proof {
                lemma_value_of_at(entries@, i as int);
            }
            return Some(i);
        }
        i += 1;
    }
    proof {
        lemma_value_of_absent(entries@, k@);
    }
    None
}

} // verus!
