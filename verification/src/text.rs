//! Small operations on text that the other modules share.

use vstd::prelude::*;

verus! {

/// The characters of each string of a list.
pub open spec fn texts(items: Seq<String>) -> Seq<Seq<char>> {
    Seq::new(items.len(), |i: int| items[i]@)
}

/// The characters of an optional string.
pub open spec fn opt_text(s: Option<String>) -> Option<Seq<char>> {
    match s {
        Some(t) => Some(t@),
        None => None,
    }
}

/// What `key` names among `entries`: the last entry of that name.
pub open spec fn last_named<T>(entries: Seq<(Seq<char>, T)>, key: Seq<char>) -> Option<T>
    decreases entries.len(),
{
    if entries.len() == 0 {
        None
    } else if entries.last().0 == key {
        Some(entries.last().1)
    } else {
        last_named(entries.drop_last(), key)
    }
}

/// `entries` without every entry named `key`, the others in their order.
pub open spec fn without_named<T>(entries: Seq<(Seq<char>, T)>, key: Seq<char>) -> Seq<
    (Seq<char>, T),
>
    decreases entries.len(),
{
    if entries.len() == 0 {
        entries
    } else if entries.last().0 == key {
        without_named(entries.drop_last(), key)
    } else {
        without_named(entries.drop_last(), key).push(entries.last())
    }
}

/// Whether no name occurs twice among `entries`.
pub open spec fn names_distinct<T>(entries: Seq<(Seq<char>, T)>) -> bool {
    forall|i: int, j: int| 0 <= i < j < entries.len() ==> entries[i].0 != entries[j].0
}

/// The entries of a list with each name as its characters.
pub open spec fn named<T>(entries: Seq<(String, T)>) -> Seq<(Seq<char>, T)> {
    Seq::new(entries.len(), |i: int| (entries[i].0@, entries[i].1))
}

/// The entries of a list with each value mapped.
pub open spec fn map_named<T, M>(entries: Seq<(Seq<char>, T)>, f: spec_fn(T) -> M) -> Seq<
    (Seq<char>, M),
> {
    Seq::new(entries.len(), |i: int| (entries[i].0, f(entries[i].1)))
}

/// What is left without a name is taken from the list, and none of it has the name.
pub proof fn lemma_without_named_members<T>(entries: Seq<(Seq<char>, T)>, key: Seq<char>)
    ensures
        forall|i: int|
            0 <= i < without_named(entries, key).len() ==> (#[trigger] without_named(
                entries,
                key,
            )[i]).0 != key && exists|j: int|
                0 <= j < entries.len() && entries[j] == without_named(entries, key)[i],
    decreases entries.len(),
{
    if entries.len() > 0 {
        let rest = entries.drop_last();
        lemma_without_named_members(rest, key);
        let w = without_named(entries, key);
        assert forall|i: int| 0 <= i < w.len() implies (#[trigger] w[i]).0 != key && exists|j: int|
            0 <= j < entries.len() && entries[j] == w[i] by {
            if i < without_named(rest, key).len() {
                assert(w[i] == without_named(rest, key)[i]);
                let j = choose|j: int| 0 <= j < rest.len() && rest[j] == without_named(rest, key)[i];
                assert(entries[j] == w[i]);
            } else {
                assert(w[i] == entries.last());
                assert(entries[entries.len() - 1] == w[i]);
            }
        }
    }
}

/// Taking a name out of a list without repeats leaves a list without repeats.
pub proof fn lemma_without_named_distinct<T>(entries: Seq<(Seq<char>, T)>, key: Seq<char>)
    requires
        names_distinct(entries),
    ensures
        names_distinct(without_named(entries, key)),
    decreases entries.len(),
{
    if entries.len() > 0 {
        let rest = entries.drop_last();
        assert(names_distinct(rest)) by {
            assert forall|i: int, j: int| 0 <= i < j < rest.len() implies rest[i].0 != rest[j].0 by {
                assert(entries[i].0 != entries[j].0);
            }
        }
        lemma_without_named_distinct(rest, key);
        lemma_without_named_members(rest, key);
        let w = without_named(entries, key);
        let wr = without_named(rest, key);
        if entries.last().0 != key {
            assert forall|i: int, j: int| 0 <= i < j < w.len() implies w[i].0 != w[j].0 by {
                if j < wr.len() {
                    assert(w[i] == wr[i] && w[j] == wr[j]);
                } else {
                    assert(w[i] == wr[i]);
                    let k = choose|k: int| 0 <= k < rest.len() && rest[k] == wr[i];
                    assert(entries[k].0 != entries[entries.len() - 1].0);
                }
            }
        }
    }
}

/// Replacing what a name holds keeps a list without repeats so.
pub proof fn lemma_replaced_distinct<T>(entries: Seq<(Seq<char>, T)>, key: Seq<char>, value: T)
    requires
        names_distinct(entries),
    ensures
        names_distinct(without_named(entries, key).push((key, value))),
{
    lemma_without_named_distinct(entries, key);
    lemma_without_named_members(entries, key);
    let w = without_named(entries, key);
    let r = w.push((key, value));
    assert forall|i: int, j: int| 0 <= i < j < r.len() implies r[i].0 != r[j].0 by {
        if j < w.len() {
            assert(r[i] == w[i] && r[j] == w[j]);
        } else {
            assert(r[i] == w[i]);
        }
    }
}

/// What a name holds after it was replaced is the new value; every other name holds what
/// it held.
pub proof fn lemma_replaced_named<T>(
    entries: Seq<(Seq<char>, T)>,
    key: Seq<char>,
    value: T,
    other: Seq<char>,
)
    ensures
        last_named(without_named(entries, key).push((key, value)), key) == Some(value),
        other != key ==> last_named(without_named(entries, key).push((key, value)), other)
            == last_named(entries, other),
{
    let r = without_named(entries, key).push((key, value));
    assert(r.drop_last() =~= without_named(entries, key));
    if other != key {
        lemma_without_named_other(entries, key, other);
    }
}

/// Taking a name out leaves every other name as it was.
pub proof fn lemma_without_named_other<T>(
    entries: Seq<(Seq<char>, T)>,
    key: Seq<char>,
    other: Seq<char>,
)
    requires
        other != key,
    ensures
        last_named(without_named(entries, key), other) == last_named(entries, other),
    decreases entries.len(),
{
    if entries.len() > 0 {
        lemma_without_named_other(entries.drop_last(), key, other);
        if entries.last().0 != key {
            let w = without_named(entries.drop_last(), key).push(entries.last());
            assert(w.drop_last() =~= without_named(entries.drop_last(), key));
        }
    }
}

/// Taking a name out and mapping the values can be done in either order.
pub proof fn lemma_map_without<T, M>(entries: Seq<(Seq<char>, T)>, f: spec_fn(T) -> M, key: Seq<char>)
    ensures
        map_named(without_named(entries, key), f) == without_named(map_named(entries, f), key),
    decreases entries.len(),
{
    if entries.len() == 0 {
        assert(map_named(without_named(entries, key), f) =~= without_named(
            map_named(entries, f),
            key,
        ));
    } else {
        let rest = entries.drop_last();
        lemma_map_without(rest, f, key);
        assert(map_named(entries, f).drop_last() =~= map_named(rest, f));
        assert(map_named(entries, f).last() == (entries.last().0, f(entries.last().1)));
        if entries.last().0 != key {
            assert(map_named(without_named(rest, key).push(entries.last()), f) =~= map_named(
                without_named(rest, key),
                f,
            ).push((entries.last().0, f(entries.last().1))));
        }
    }
}

/// The parts in order, with `sep` between each two neighbours.
pub open spec fn joined(parts: Seq<Seq<char>>, sep: Seq<char>) -> Seq<char>
    decreases parts.len(),
{
    if parts.len() == 0 {
        Seq::empty()
    } else if parts.len() == 1 {
        parts[0]
    } else {
        joined(parts.drop_last(), sep) + sep + parts.last()
    }
}

/// Whether two pieces of text hold the same characters.
pub fn same_text(a: &str, b: &str) -> (r: bool)
    ensures
        r == (a@ == b@),
{
    a.to_owned() == b.to_owned()
}

/// Takes every entry named `key` out of a list, leaving the others in their order.
pub fn remove_named<T>(list: &mut Vec<(String, T)>, key: &str)
    ensures
        named(final(list)@) == without_named(named(old(list)@), key@),
{
    let ghost given = list@;
    let ghost mut k: int = 0;
    let mut i: usize = 0;
    assert(named(list@).take(0) =~= without_named(named(given).take(0), key@));
    while i < list.len()
        invariant
            i <= list.len(),
            0 <= k <= given.len(),
            list@.len() - i == given.len() - k,
            named(list@).take(i as int) == without_named(named(given).take(k), key@),
            list@.skip(i as int) == given.skip(k),
        decreases list.len() - i,
    {
        let ghost before = list@;
        proof {
            assert(before[i as int] == before.skip(i as int)[0]);
            assert(given[k] == given.skip(k)[0]);
            assert(named(given).take(k + 1).drop_last() =~= named(given).take(k));
            assert(named(given).take(k + 1).last() == (given[k].0@, given[k].1));
        }
        if same_text(list[i].0.as_str(), key) {
            list.remove(i);
            proof {
                assert(named(list@).take(i as int) =~= named(before).take(i as int));
                assert(list@.skip(i as int) =~= before.skip(i as int).skip(1));
                assert(given.skip(k + 1) =~= given.skip(k).skip(1));
                k = k + 1;
            }
        } else {
            proof {
                assert(named(before).take(i + 1) =~= named(before).take(i as int).push(
                    (before[i as int].0@, before[i as int].1),
                ));
                assert(before.skip(i + 1) =~= before.skip(i as int).skip(1));
                assert(given.skip(k + 1) =~= given.skip(k).skip(1));
                k = k + 1;
            }
            i += 1;
        }
    }
    proof {
        assert(given.skip(k).len() == 0);
        assert(named(given).take(k) =~= named(given));
        assert(named(list@).take(i as int) =~= named(list@));
    }
}

/// Joins two pieces of text.
pub fn concat2(a: &str, b: &str) -> (r: String)
    ensures
        r@ == a@ + b@,
{
    let mut out = String::from_str(a);
    out.append(b);
    out
}

/// Joins three pieces of text.
pub fn concat3(a: &str, b: &str, c: &str) -> (r: String)
    ensures
        r@ == a@ + b@ + c@,
{
    let mut out = String::from_str(a);
    out.append(b);
    out.append(c);
    out
}

/// Joins the parts with `sep` between them.
pub fn join(parts: &Vec<String>, sep: &str) -> (r: String)
    ensures
        r@ == joined(texts(parts@), sep@),
{
    let mut out = String::new();
    let mut i: usize = 0;
    while i < parts.len()
        invariant
            i <= parts.len(),
            out@ == joined(texts(parts@).take(i as int), sep@),
        decreases parts.len() - i,
    {
        let ghost next = texts(parts@).take(i + 1);
        assert(next.drop_last() =~= texts(parts@).take(i as int));
        assert(next.last() == parts@[i as int]@);
        if i > 0 {
            out.append(sep);
        } else {
            assert(out@ + parts@[i as int]@ =~= parts@[i as int]@);
        }
        out.append(parts[i].as_str());
        i += 1;
    }
    assert(texts(parts@).take(parts@.len() as int) =~= texts(parts@));
    out
}

/// The characters of a text, one by one.
pub fn chars_of(s: &str) -> (r: Vec<char>)
    ensures
        r@ == s@,
{
    let mut out: Vec<char> = Vec::new();
    for c in it: s.chars()
        invariant
            it.seq() == s@,
            out@ == s@.take(it.index() as int),
    {
        assert(s@.take(it.index() + 1) =~= s@.take(it.index() as int).push(c));
        out.push(c);
    }
    assert(s@.take(s@.len() as int) =~= s@);
    out
}

} // verus!
