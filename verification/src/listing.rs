//! Listing entity files: names, extensions, and the order of ids.

use vstd::prelude::*;
use vstd::relations::{sorted_by, total_ordering};
use crate::text::{chars_of, texts};

verus! {

/// Whether `a` comes before `b`, or is `b`, from position `i` on: the first character
/// that differs decides by its code, and a text comes before each of its extensions.
pub open spec fn le_from(a: Seq<char>, b: Seq<char>, i: int) -> bool
    decreases a.len() - i,
{
    if i < 0 || i >= a.len() {
        true
    } else if i >= b.len() {
        false
    } else if a[i] != b[i] {
        (a[i] as int) < (b[i] as int)
    } else {
        le_from(a, b, i + 1)
    }
}

/// The lexical order of texts.
pub open spec fn text_le(a: Seq<char>, b: Seq<char>) -> bool {
    le_from(a, b, 0)
}

/// The lexical order as a relation.
pub open spec fn lexical() -> spec_fn(Seq<char>, Seq<char>) -> bool {
    |a: Seq<char>, b: Seq<char>| text_le(a, b)
}

/// Whether two texts agree below position `i`.
pub open spec fn agree_below(a: Seq<char>, b: Seq<char>, i: int) -> bool {
    i <= a.len() && i <= b.len() && forall|j: int| 0 <= j < i ==> a[j] == b[j]
}

proof fn lemma_le_reflexive(a: Seq<char>, i: int)
    requires
        0 <= i,
    ensures
        le_from(a, a, i),
    decreases a.len() - i,
{
    if i < a.len() {
        lemma_le_reflexive(a, i + 1);
    }
}

proof fn lemma_le_total(a: Seq<char>, b: Seq<char>, i: int)
    requires
        0 <= i,
    ensures
        le_from(a, b, i) || le_from(b, a, i),
    decreases a.len() - i,
{
    if i < a.len() && i < b.len() {
        if a[i] == b[i] {
            lemma_le_total(a, b, i + 1);
        }
    }
}

proof fn lemma_le_antisymmetric(a: Seq<char>, b: Seq<char>, i: int)
    requires
        0 <= i,
        agree_below(a, b, i),
        le_from(a, b, i),
        le_from(b, a, i),
    ensures
        a == b,
    decreases a.len() - i,
{
    if i < a.len() {
        lemma_le_antisymmetric(a, b, i + 1);
    } else {
        assert(a =~= b);
    }
}

proof fn lemma_le_transitive(a: Seq<char>, b: Seq<char>, c: Seq<char>, i: int)
    requires
        0 <= i,
        agree_below(a, b, i),
        agree_below(b, c, i),
        le_from(a, b, i),
        le_from(b, c, i),
    ensures
        le_from(a, c, i),
    decreases a.len() - i,
{
    if i < a.len() {
        if a[i] == b[i] && b[i] == c[i] {
            lemma_le_transitive(a, b, c, i + 1);
        }
    }
}

/// The lexical order is a total order.
pub proof fn lemma_lexical_total_order()
    ensures
        total_ordering(lexical()),
{
    let r = lexical();
    assert forall|x: Seq<char>| #[trigger] r(x, x) by {
        lemma_le_reflexive(x, 0);
    }
    assert forall|x: Seq<char>, y: Seq<char>| #[trigger] r(x, y) && #[trigger] r(y, x) implies x
        == y by {
        lemma_le_antisymmetric(x, y, 0);
    }
    assert forall|x: Seq<char>, y: Seq<char>, z: Seq<char>| #[trigger]
        r(x, y) && #[trigger] r(y, z) implies r(x, z) by {
        lemma_le_transitive(x, y, z, 0);
    }
    assert forall|x: Seq<char>, y: Seq<char>| #[trigger] r(x, y) || #[trigger] r(y, x) by {
        lemma_le_total(x, y, 0);
    }
}

/// Whether a list of texts is in lexical order.
pub open spec fn is_sorted(items: Seq<Seq<char>>) -> bool {
    sorted_by(items, lexical())
}

/// Sorted listing: two lists in lexical order that hold the same ids, each as often as
/// the other, are the same list. So a listing does not depend on the order in which
/// the ids were written or the directory was read, and repeating it without a write
/// between gives the same list.
pub proof fn lemma_sorted_listing_unique(a: Seq<Seq<char>>, b: Seq<Seq<char>>)
    requires
        is_sorted(a),
        is_sorted(b),
        a.to_multiset() == b.to_multiset(),
    ensures
        a == b,
{
    lemma_lexical_total_order();
    vstd::seq_lib::lemma_sorted_unique(a, b, lexical());
}

/// Compares two texts lexically.
pub fn text_at_most(a: &str, b: &str) -> (r: bool)
    ensures
        r == text_le(a@, b@),
{
    let x = chars_of(a);
    let y = chars_of(b);
    let mut i: usize = 0;
    while i < x.len()
        invariant
            i <= x.len(),
            x@ == a@,
            y@ == b@,
            text_le(a@, b@) == le_from(a@, b@, i as int),
        decreases x.len() - i,
    {
        if i >= y.len() {
            return false;
        }
        if x[i] != y[i] {
            return x[i] < y[i];
        }
        i += 1;
    }
    true
}

/// Sorts texts into lexical order.
pub fn sort_texts(items: &Vec<String>) -> (r: Vec<String>)
    ensures
        is_sorted(texts(r@)),
        texts(r@).to_multiset() == texts(items@).to_multiset(),
{
    let mut out: Vec<String> = Vec::new();
    let mut i: usize = 0;
    proof {
        lemma_lexical_total_order();
        assert(texts(out@) =~= Seq::empty());
        assert(texts(items@).take(0) =~= Seq::empty());
    }
    while i < items.len()
        invariant
            i <= items.len(),
            total_ordering(lexical()),
            is_sorted(texts(out@)),
            texts(out@).to_multiset() == texts(items@).take(i as int).to_multiset(),
        decreases items.len() - i,
    {
        let x = items[i].clone();
        let mut pos: usize = 0;
        while pos < out.len() && text_at_most(out[pos].as_str(), x.as_str())
            invariant
                pos <= out.len(),
                forall|k: int| 0 <= k < pos ==> text_le(#[trigger] texts(out@)[k], x@),
            decreases out.len() - pos,
        {
            assert(texts(out@)[pos as int] == out@[pos as int]@);
            pos += 1;
        }
        let ghost before = texts(out@);
        proof {
            if pos < out.len() {
                assert(before[pos as int] == out@[pos as int]@);
                assert(!text_le(before[pos as int], x@));
                assert(lexical()(before[pos as int], x@) || lexical()(x@, before[pos as int]));
                assert forall|k: int| pos <= k < before.len() implies text_le(
                    x@,
                    #[trigger] before[k],
                ) by {
                    if k > pos {
                        assert(lexical()(before[pos as int], before[k]));
                    }
                    assert(lexical()(x@, before[pos as int]) && lexical()(
                        before[pos as int],
                        before[k],
                    ) ==> lexical()(x@, before[k]));
                }
            }
        }
        out.insert(pos, x);
        proof {
            let after = texts(out@);
            assert(after =~= before.insert(pos as int, x@));
            vstd::seq_lib::to_multiset_insert(before, pos as int, x@);
            let prefix = texts(items@).take(i as int);
            assert(texts(items@).take(i + 1) =~= prefix.push(x@));
            vstd::seq_lib::to_multiset_build(prefix, x@);
            assert forall|p: int, q: int| 0 <= p < q < after.len() implies lexical()(
                #[trigger] after[p],
                #[trigger] after[q],
            ) by {
                if q < pos {
                    assert(lexical()(before[p], before[q]));
                } else if q == pos {
                    assert(text_le(before[p], x@));
                } else if p < pos {
                    assert(lexical()(before[p], before[q - 1]));
                } else if p == pos {
                    assert(text_le(x@, before[q - 1]));
                } else {
                    assert(lexical()(before[p - 1], before[q - 1]));
                }
            }
        }
        i += 1;
    }
    assert(texts(items@).take(items@.len() as int) =~= texts(items@));
    out
}

/// The position of the last `.` of a name below position `n`.
pub open spec fn last_dot_below(name: Seq<char>, n: int) -> Option<int>
    decreases n,
{
    if n <= 0 || n > name.len() {
        None
    } else if name[n - 1] == '.' {
        Some(n - 1)
    } else {
        last_dot_below(name, n - 1)
    }
}

/// The position at which a file name splits into stem and extension: that of its last
/// `.`, unless the name has none or only begins with one.
pub open spec fn split_point(name: Seq<char>) -> Option<int> {
    match last_dot_below(name, name.len() as int) {
        Some(i) => if i > 0 {
            Some(i)
        } else {
            None
        },
        None => None,
    }
}

/// The extension of a file name: what follows its last `.`.
pub open spec fn extension_of(name: Seq<char>) -> Option<Seq<char>> {
    match split_point(name) {
        Some(i) => Some(name.subrange(i + 1, name.len() as int)),
        None => None,
    }
}

/// The stem of a file name: what precedes its last `.`, or the whole name.
pub open spec fn stem_of(name: Seq<char>) -> Seq<char> {
    match split_point(name) {
        Some(i) => name.subrange(0, i),
        None => name,
    }
}

/// Splits a file name into its stem and its extension.
pub fn split_file_name(name: &str) -> (r: (String, Option<String>))
    ensures
        r.0@ == stem_of(name@),
        crate::text::opt_text(r.1) == extension_of(name@),
{
    let chars = chars_of(name);
    let mut n: usize = chars.len();
    while n > 0
        invariant
            n <= chars.len(),
            chars@ == name@,
            last_dot_below(name@, name@.len() as int) == last_dot_below(name@, n as int),
        decreases n,
    {
        if chars[n - 1] == '.' {
            if n - 1 > 0 {
                let stem = name.substring_char(0, n - 1);
                let ext = name.substring_char(n, chars.len());
                return (String::from_str(stem), Some(String::from_str(ext)));
            } else {
                return (String::from_str(name), None);
            }
        }
        n -= 1;
    }
    (String::from_str(name), None)
}

} // verus!
