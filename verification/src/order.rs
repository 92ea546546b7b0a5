//! Ordering entries: directories before files, each by name, with what is
//! equal left in the order in which it came.

use vstd::prelude::*;

verus! {

/// Whether `a` comes before `b` in the dictionary, character by character
/// and by code point; a text comes after each of its proper prefixes.
pub open spec fn lex_lt(a: Seq<char>, b: Seq<char>) -> bool
    decreases a.len(),
{
    if b.len() == 0 {
        false
    } else if a.len() == 0 {
        true
    } else if a[0] != b[0] {
        (a[0] as u32) < (b[0] as u32)
    } else {
        lex_lt(a.drop_first(), b.drop_first())
    }
}

/// No text comes before itself.
pub proof fn lemma_lex_irreflexive(a: Seq<char>)
    ensures
        !lex_lt(a, a),
    decreases a.len(),
{
    if a.len() > 0 {
        lemma_lex_irreflexive(a.drop_first());
    }
}

/// Of two different texts one comes before the other, and only one.
pub proof fn lemma_lex_total(a: Seq<char>, b: Seq<char>)
    ensures
        a == b || lex_lt(a, b) || lex_lt(b, a),
        !(lex_lt(a, b) && lex_lt(b, a)),
    decreases a.len(),
{
    if a.len() == 0 || b.len() == 0 {
        if a.len() == 0 && b.len() == 0 {
            assert(a =~= b);
        }
    } else if a[0] == b[0] {
        lemma_lex_total(a.drop_first(), b.drop_first());
        if a.drop_first() == b.drop_first() {
            assert(a.drop_first().len() == b.drop_first().len());
            assert forall|i: int| 0 <= i < a.len() implies a[i] == b[i] by {
                if i > 0 {
                    assert(a.drop_first()[i - 1] == b.drop_first()[i - 1]);
                }
            }
            assert(a =~= b);
        }
    } else {
        vstd::utf8::char_u32_cast(a[0], a[0] as u32);
        vstd::utf8::char_u32_cast(b[0], b[0] as u32);
    }
}

/// What comes before something that comes before a third comes before the third.
pub proof fn lemma_lex_transitive(a: Seq<char>, b: Seq<char>, c: Seq<char>)
    requires
        lex_lt(a, b),
        lex_lt(b, c),
    ensures
        lex_lt(a, c),
    decreases a.len(),
{
    if a.len() > 0 && b.len() > 0 && c.len() > 0 {
        if a[0] == b[0] && b[0] == c[0] {
            lemma_lex_transitive(a.drop_first(), b.drop_first(), c.drop_first());
        }
    }
}

/// What an entry is ordered by: whether it is a directory, and its name in lower case.
pub struct SortKey {
    pub is_dir: bool,
    pub name: Vec<char>,
}

impl View for SortKey {
    type V = (bool, Seq<char>);

    open spec fn view(&self) -> (bool, Seq<char>) {
        (self.is_dir, self.name@)
    }
}

/// Whether an entry with the key `a` comes before one with the key `b`:
/// a directory before a file, and otherwise by name.
pub open spec fn key_lt(a: (bool, Seq<char>), b: (bool, Seq<char>)) -> bool {
    (a.0 && !b.0) || (a.0 == b.0 && lex_lt(a.1, b.1))
}

/// The keys of a list.
pub open spec fn key_views(keys: Seq<SortKey>) -> Seq<(bool, Seq<char>)> {
    Seq::new(keys.len(), |i: int| keys[i]@)
}

/// Whether the entry at `a` stands before the entry at `b` once the list is
/// ordered: its key comes first, or the keys are equal and it came first.
pub open spec fn precedes(keys: Seq<(bool, Seq<char>)>, a: int, b: int) -> bool {
    key_lt(keys[a], keys[b]) || (keys[a] == keys[b] && a < b)
}

/// Whether `order` lists each position of `keys` once, in the order in
/// which the entries stand once the list is ordered. There is one such
/// order for each list.
pub open spec fn is_stable_order(keys: Seq<(bool, Seq<char>)>, order: Seq<int>) -> bool {
    &&& order.len() == keys.len()
    &&& forall|i: int| 0 <= i < order.len() ==> 0 <= #[trigger] order[i] < keys.len()
    &&& forall|i: int, j: int|
        0 <= i < j < order.len() ==> precedes(keys, #[trigger] order[i], #[trigger] order[j])
}

/// An order lists no position twice.
pub proof fn lemma_order_has_no_duplicates(keys: Seq<(bool, Seq<char>)>, order: Seq<int>)
    requires
        is_stable_order(keys, order),
    ensures
        order.no_duplicates(),
{
    assert forall|i: int, j: int| 0 <= i < order.len() && 0 <= j < order.len() && i != j implies
        order[i] != order[j] by {
        if order[i] == order[j] {
            lemma_lex_irreflexive(keys[order[i]].1);
            if i < j {
                assert(precedes(keys, order[i], order[j]));
            } else {
                assert(precedes(keys, order[j], order[i]));
            }
        }
    }
}

/// Decides `lex_lt`.
pub fn text_less(a: &Vec<char>, b: &Vec<char>) -> (less: bool)
    ensures
        less == lex_lt(a@, b@),
{
    let mut i: usize = 0;
    assert(a@.skip(0) =~= a@);
    assert(b@.skip(0) =~= b@);
    while i < a.len() && i < b.len()
        invariant
            i <= a@.len(),
            i <= b@.len(),
            lex_lt(a@, b@) == lex_lt(a@.skip(i as int), b@.skip(i as int)),
        decreases a@.len() - i,
    {
        if a[i] != b[i] {
            return (a[i] as u32) < (b[i] as u32);
        }
        assert(a@.skip(i as int).drop_first() =~= a@.skip(i + 1));
        assert(b@.skip(i as int).drop_first() =~= b@.skip(i + 1));
        i += 1;
    }
    i < b.len()
}

/// Decides `key_lt`.
pub fn key_less(a: &SortKey, b: &SortKey) -> (less: bool)
    ensures
        less == key_lt(a@, b@),
{
    if a.is_dir != b.is_dir {
        a.is_dir
    } else {
        text_less(&a.name, &b.name)
    }
}

/// The positions of `order` as mathematical integers.
pub open spec fn positions(order: Seq<usize>) -> Seq<int> {
    Seq::new(order.len(), |i: int| order[i] as int)
}

/// What stands before an entry also stands before every entry that the
/// entry does not come after.
proof fn lemma_precedes_chain(keys: Seq<(bool, Seq<char>)>, x: int, y: int, k: int)
    requires
        0 <= x < keys.len(),
        0 <= y < keys.len(),
        0 <= k < keys.len(),
        x == y || precedes(keys, x, y),
        !key_lt(keys[k], keys[y]),
        x < k,
        y < k,
    ensures
        precedes(keys, x, k),
        !key_lt(keys[k], keys[x]),
{
    let kx = keys[x];
    let ky = keys[y];
    let kk = keys[k];
    lemma_lex_total(kk.1, ky.1);
    lemma_lex_total(kx.1, ky.1);
    lemma_lex_total(kx.1, kk.1);
    if lex_lt(kx.1, ky.1) && lex_lt(ky.1, kk.1) {
        lemma_lex_transitive(kx.1, ky.1, kk.1);
    }
    if lex_lt(kk.1, kx.1) && lex_lt(kx.1, ky.1) {
        lemma_lex_transitive(kk.1, kx.1, ky.1);
    }
}

/// The order in which the entries with the keys `keys` stand once the list
/// is ordered.
pub fn stable_order(keys: &Vec<SortKey>) -> (order: Vec<usize>)
    ensures
        is_stable_order(key_views(keys@), positions(order@)),
{
    let ghost ks = key_views(keys@);
    let mut order: Vec<usize> = Vec::new();
    let mut k: usize = 0;
    while k < keys.len()
        invariant
            k <= keys.len(),
            ks == key_views(keys@),
            order@.len() == k,
            forall|i: int| 0 <= i < order@.len() ==> 0 <= #[trigger] order@[i] < k,
            forall|i: int, j: int|
                0 <= i < j < order@.len() ==> precedes(
                    ks,
                    #[trigger] order@[i] as int,
                    #[trigger] order@[j] as int,
                ),
        decreases keys.len() - k,
    {
        let mut p: usize = order.len();
        while p > 0 && key_less(&keys[k], &keys[order[p - 1]])
            invariant
                p <= order@.len(),
                k < keys.len(),
                ks == key_views(keys@),
                order@.len() == k,
                forall|i: int| 0 <= i < order@.len() ==> 0 <= #[trigger] order@[i] < k,
                forall|i: int|
                    p <= i < order@.len() ==> key_lt(ks[k as int], ks[#[trigger] order@[i] as int]),
            decreases p,
        {
            p -= 1;
        }
        let ghost before = order@;
        proof {
            assert forall|i: int| 0 <= i < p implies precedes(ks, #[trigger] before[i] as int, k as int)
                && !key_lt(ks[k as int], ks[before[i] as int]) by {
                let last = before[p - 1] as int;
                if i < p - 1 {
                    assert(precedes(ks, before[i] as int, before[p - 1] as int));
                }
                lemma_precedes_chain(ks, before[i] as int, last, k as int);
            }
        }
        order.insert(p, k);
        proof {
            assert forall|i: int, j: int| 0 <= i < j < order@.len() implies precedes(
                ks,
                #[trigger] order@[i] as int,
                #[trigger] order@[j] as int,
            ) by {
                if j < p {
                    assert(order@[i] == before[i] && order@[j] == before[j]);
                } else if j == p {
                    assert(order@[i] == before[i]);
                } else if i < p {
                    assert(order@[i] == before[i] && order@[j] == before[j - 1]);
                } else if i == p {
                    assert(order@[j] == before[j - 1]);
                } else {
                    assert(order@[i] == before[i - 1] && order@[j] == before[j - 1]);
                }
            }
            assert forall|i: int| 0 <= i < order@.len() implies 0 <= #[trigger] order@[i] < k
                + 1 by {
                if i < p {
                    assert(order@[i] == before[i]);
                } else if i > p {
                    assert(order@[i] == before[i - 1]);
                }
            }
        }
        k += 1;
    }
    order
}

} // verus!
