//! Lexicographic order on byte strings and the stable sort of detailed
//! balances by transaction hash.

use vstd::prelude::*;
use crate::types::UTxOView;

verus! {

/// `a` sorts before or equal to `b`, comparing bytes from the first and a
/// proper prefix before its extensions.
pub open spec fn lex_le(a: Seq<u8>, b: Seq<u8>) -> bool
    decreases a.len(),
{
    if a.len() == 0 {
        true
    } else if b.len() == 0 {
        false
    } else if a[0] < b[0] {
        true
    } else if a[0] > b[0] {
        false
    } else {
        lex_le(a.drop_first(), b.drop_first())
    }
}

pub proof fn lemma_lex_total(a: Seq<u8>, b: Seq<u8>)
    ensures
        lex_le(a, b) || lex_le(b, a),
    decreases a.len(),
{
    if a.len() > 0 && b.len() > 0 && a[0] == b[0] {
        lemma_lex_total(a.drop_first(), b.drop_first());
    }
}

pub proof fn lemma_lex_trans(a: Seq<u8>, b: Seq<u8>, c: Seq<u8>)
    requires
        lex_le(a, b),
        lex_le(b, c),
    ensures
        lex_le(a, c),
    decreases a.len(),
{
    if a.len() > 0 && b.len() > 0 && c.len() > 0 && a[0] == b[0] && b[0] == c[0] {
        lemma_lex_trans(a.drop_first(), b.drop_first(), c.drop_first());
    }
}

pub proof fn lemma_lex_antisym(a: Seq<u8>, b: Seq<u8>)
    requires
        lex_le(a, b),
        lex_le(b, a),
    ensures
        a == b,
    decreases a.len(),
{
    if a.len() > 0 && b.len() > 0 {
        lemma_lex_antisym(a.drop_first(), b.drop_first());
        assert(a =~= seq![a[0]] + a.drop_first());
        assert(b =~= seq![b[0]] + b.drop_first());
    } else {
        assert(a =~= b);
    }
}

/// Whether `a` sorts before or equal to `b`.
pub fn bytes_le(a: &[u8], b: &[u8]) -> (r: bool)
    ensures
        r == lex_le(a@, b@),
{
    let mut i: usize = 0;
    assert(a@.skip(0) =~= a@);
    assert(b@.skip(0) =~= b@);
    while i < a.len() && i < b.len()
        invariant
            i <= a.len(),
            i <= b.len(),
            a@.subrange(0, i as int) == b@.subrange(0, i as int),
            lex_le(a@, b@) == lex_le(a@.skip(i as int), b@.skip(i as int)),
        decreases a.len() - i,
    {
        if a[i] < b[i] {
            return true;
        }
        if a[i] > b[i] {
            return false;
        }
        assert(a@.skip(i as int).drop_first() =~= a@.skip(i + 1));
        assert(b@.skip(i as int).drop_first() =~= b@.skip(i + 1));
        assert(a@.subrange(0, i + 1) =~= a@.subrange(0, i as int).push(a[i as int]));
        assert(b@.subrange(0, i + 1) =~= b@.subrange(0, i as int).push(b[i as int]));
        i += 1;
    }
    i == a.len()
}

/// Places `x` after every element whose hash sorts before or equal to its
/// own, counting from the end: one step of a stable insertion sort.
pub open spec fn insert_by_tx(s: Seq<UTxOView>, x: UTxOView) -> Seq<UTxOView>
    decreases s.len(),
{
    if s.len() == 0 {
        seq![x]
    } else if lex_le(s.last().tx, x.tx) {
        s.push(x)
    } else {
        insert_by_tx(s.drop_last(), x).push(s.last())
    }
}

/// The outputs ordered by transaction hash, outputs with equal hashes kept
/// in their original order.
pub open spec fn sort_by_tx(s: Seq<UTxOView>) -> Seq<UTxOView>
    decreases s.len(),
{
    if s.len() == 0 {
        Seq::empty()
    } else {
        insert_by_tx(sort_by_tx(s.drop_last()), s.last())
    }
}

pub open spec fn sorted_by_tx(s: Seq<UTxOView>) -> bool {
    forall|i: int, j: int| 0 <= i < j < s.len() ==> lex_le(#[trigger] s[i].tx, #[trigger] s[j].tx)
}

/// Inserting at the position found by scanning from the end.
pub proof fn lemma_insert_at(s: Seq<UTxOView>, x: UTxOView, p: int)
    requires
        0 <= p <= s.len(),
        p == 0 || lex_le(s[p - 1].tx, x.tx),
        forall|j: int| p <= j < s.len() ==> !lex_le(#[trigger] s[j].tx, x.tx),
    ensures
        insert_by_tx(s, x) == s.take(p).push(x) + s.skip(p),
    decreases s.len(),
{
    if s.len() == 0 {
        assert(s.take(p).push(x) + s.skip(p) =~= seq![x]);
    } else if p == s.len() {
        assert(s.take(p).push(x) + s.skip(p) =~= s.push(x));
    } else {
        let t = s.drop_last();
        assert(!lex_le(s.last().tx, x.tx));
        assert forall|j: int| p <= j < t.len() implies !lex_le(#[trigger] t[j].tx, x.tx) by {
            assert(t[j] == s[j]);
        }
        lemma_insert_at(t, x, p);
        assert(t.take(p).push(x) + t.skip(p) + seq![s.last()] =~= s.take(p).push(x) + s.skip(p));
    }
}

/// Inserting keeps a sorted sequence sorted.
pub proof fn lemma_insert_sorted(s: Seq<UTxOView>, x: UTxOView)
    requires
        sorted_by_tx(s),
    ensures
        sorted_by_tx(insert_by_tx(s, x)),
        insert_by_tx(s, x).len() == s.len() + 1,
    decreases s.len(),
{
    if s.len() == 0 {
    } else if lex_le(s.last().tx, x.tx) {
        let r = s.push(x);
        assert forall|i: int, j: int| 0 <= i < j < r.len() implies lex_le(#[trigger] r[i].tx, #[trigger] r[j].tx) by {
            if j == s.len() {
                if i < s.len() - 1 {
                    lemma_lex_trans(s[i].tx, s.last().tx, x.tx);
                }
            }
        }
    } else {
        let t = s.drop_last();
        assert(sorted_by_tx(t)) by {
            assert forall|i: int, j: int| 0 <= i < j < t.len() implies lex_le(#[trigger] t[i].tx, #[trigger] t[j].tx) by {
                assert(t[i] == s[i] && t[j] == s[j]);
            }
        }
        lemma_insert_sorted(t, x);
        let u = insert_by_tx(t, x);
        lemma_insert_members(t, x);
        lemma_lex_total(s.last().tx, x.tx);
        let r = u.push(s.last());
        assert forall|i: int, j: int| 0 <= i < j < r.len() implies lex_le(#[trigger] r[i].tx, #[trigger] r[j].tx) by {
            if j == u.len() {
                let e = u[i];
                if e == x {
                } else {
                    let k = choose|k: int| 0 <= k < t.len() && t[k] == e;
                    assert(s[k] == t[k]);
                    assert(lex_le(s[k].tx, s[s.len() - 1].tx));
                }
            } else {
                assert(r[i] == u[i] && r[j] == u[j]);
            }
        }
    }
}

/// Every element of an insertion is `x` or an element of `s`.
pub proof fn lemma_insert_members(s: Seq<UTxOView>, x: UTxOView)
    ensures
        forall|i: int| 0 <= i < insert_by_tx(s, x).len() ==>
            (#[trigger] insert_by_tx(s, x)[i] == x || exists|k: int| 0 <= k < s.len() && s[k] == insert_by_tx(s, x)[i]),
    decreases s.len(),
{
    if s.len() > 0 && !lex_le(s.last().tx, x.tx) {
        let t = s.drop_last();
        lemma_insert_members(t, x);
        let u = insert_by_tx(t, x);
        assert forall|i: int| 0 <= i < insert_by_tx(s, x).len() implies
            (#[trigger] insert_by_tx(s, x)[i] == x || exists|k: int| 0 <= k < s.len() && s[k] == insert_by_tx(s, x)[i]) by {
            if i < u.len() {
                if u[i] != x {
                    let k = choose|k: int| 0 <= k < t.len() && t[k] == u[i];
                    assert(s[k] == t[k]);
                }
            } else {
                assert(s[s.len() - 1] == insert_by_tx(s, x)[i]);
            }
        }
    } else if s.len() > 0 {
        assert forall|i: int| 0 <= i < insert_by_tx(s, x).len() implies
            (#[trigger] insert_by_tx(s, x)[i] == x || exists|k: int| 0 <= k < s.len() && s[k] == insert_by_tx(s, x)[i]) by {
            if i < s.len() {
                assert(s[i] == insert_by_tx(s, x)[i]);
            }
        }
    }
}

/// An insertion holds the elements of `s` and `x`.
pub proof fn lemma_insert_multiset(s: Seq<UTxOView>, x: UTxOView)
    ensures
        insert_by_tx(s, x).to_multiset() == s.to_multiset().insert(x),
    decreases s.len(),
{
    broadcast use vstd::seq_lib::group_to_multiset_ensures;
    if s.len() == 0 {
        assert(seq![x] =~= Seq::<UTxOView>::empty().push(x));
    } else if lex_le(s.last().tx, x.tx) {
    } else {
        let t = s.drop_last();
        lemma_insert_multiset(t, x);
        assert(s =~= t.push(s.last()));
        assert(insert_by_tx(s, x).to_multiset() =~= s.to_multiset().insert(x));
    }
}

/// The sort orders the outputs by hash and keeps every one of them.
pub proof fn lemma_sort_by_tx(s: Seq<UTxOView>)
    ensures
        sorted_by_tx(sort_by_tx(s)),
        sort_by_tx(s).to_multiset() == s.to_multiset(),
        sort_by_tx(s).len() == s.len(),
    decreases s.len(),
{
    broadcast use vstd::seq_lib::group_to_multiset_ensures;
    if s.len() > 0 {
        lemma_sort_by_tx(s.drop_last());
        lemma_insert_sorted(sort_by_tx(s.drop_last()), s.last());
        lemma_insert_multiset(sort_by_tx(s.drop_last()), s.last());
        assert(s =~= s.drop_last().push(s.last()));
    }
}

} // verus!
