//! Canonical form of linear combinations: same-variable terms merged under
//! field addition, zero-coefficient terms dropped, remaining terms sorted
//! by the total order on variable ids. Two combinations that are equal as
//! linear forms canonicalize to one representation.

use vstd::prelude::*;
use crate::field::{FieldElem, FIELD_MODULUS};
use crate::ir::{LinComb, LinCombV, Variable};

verus! {

/// The reduced element with the value of `c`.
pub open spec fn reduce_spec(c: FieldElem) -> FieldElem {
    FieldElem { raw: c.value() as u64 }
}

/// The reduced sum of two elements.
pub open spec fn fe_add_spec(a: FieldElem, b: FieldElem) -> FieldElem {
    FieldElem { raw: ((a.value() + b.value()) % (FIELD_MODULUS as int)) as u64 }
}

/// Insert a term into a run of terms sorted by variable id, merging the
/// coefficient into an existing term of the same variable.
pub open spec fn insert_term(acc: LinCombV, t: (Variable, FieldElem)) -> LinCombV
    decreases acc.len(),
{
    if acc.len() == 0 {
        seq![t]
    } else if acc[0].0.id < t.0.id {
        seq![acc[0]] + insert_term(acc.drop_first(), t)
    } else if acc[0].0.id == t.0.id {
        seq![(acc[0].0, fe_add_spec(acc[0].1, t.1))] + acc.drop_first()
    } else {
        seq![t] + acc
    }
}

/// Merge all terms of a combination into a sorted run, reducing every
/// coefficient, keeping merged zeros.
pub open spec fn merge_terms(l: LinCombV) -> LinCombV
    decreases l.len(),
{
    if l.len() == 0 {
        Seq::<(Variable, FieldElem)>::empty()
    } else {
        insert_term(merge_terms(l.drop_last()), (l.last().0, reduce_spec(l.last().1)))
    }
}

/// Drop the terms whose coefficient is zero.
pub open spec fn drop_zeros(l: LinCombV) -> LinCombV
    decreases l.len(),
{
    if l.len() == 0 {
        Seq::<(Variable, FieldElem)>::empty()
    } else if l.last().1.raw != 0 {
        drop_zeros(l.drop_last()) + seq![l.last()]
    } else {
        drop_zeros(l.drop_last())
    }
}

/// The canonical form of a linear combination.
pub open spec fn canon_lc(l: LinCombV) -> LinCombV {
    drop_zeros(merge_terms(l))
}

/// What canonicalization guarantees of its output: strictly increasing
/// variable ids, reduced coefficients, no zeros.
pub open spec fn lc_canonical(l: LinCombV) -> bool {
    &&& forall|i: int, j: int| 0 <= i < j < l.len() ==> #[trigger] l[i].0.id < #[trigger] l[j].0.id
    &&& forall|i: int| 0 <= i < l.len() ==> (#[trigger] l[i].1).is_reduced() && l[i].1.raw != 0
}

/// Splitting an insertion at a scan position whose prefix is entirely
/// below the inserted variable.
proof fn lemma_insert_term_split(acc: LinCombV, t: (Variable, FieldElem), j: int)
    requires
        0 <= j <= acc.len(),
        forall|k: int| 0 <= k < j ==> (#[trigger] acc[k]).0.id < t.0.id,
    ensures
        insert_term(acc, t) == acc.subrange(0, j) + insert_term(acc.subrange(j, acc.len() as int), t),
    decreases j,
{
    if j == 0 {
        assert(acc.subrange(0, 0) + insert_term(acc.subrange(0, acc.len() as int), t)
            =~= insert_term(acc, t)) by {
            assert(acc.subrange(0, acc.len() as int) =~= acc);
        }
    } else {
        lemma_insert_term_split(acc.drop_first(), t, j - 1);
        assert(acc.drop_first().subrange(0, j - 1) =~= acc.subrange(1, j));
        assert(acc.drop_first().subrange(j - 1, acc.drop_first().len() as int)
            =~= acc.subrange(j, acc.len() as int));
        assert(insert_term(acc, t) == seq![acc[0]] + insert_term(acc.drop_first(), t));
        assert(insert_term(acc, t)
            =~= acc.subrange(0, j) + insert_term(acc.subrange(j, acc.len() as int), t));
    }
}

/// Insert a term with a reduced coefficient into the sorted accumulator.
fn insert_exec(acc: &mut Vec<(Variable, FieldElem)>, t: (Variable, FieldElem))
    requires
        t.1.is_reduced(),
    ensures
        final(acc)@ == insert_term(old(acc)@, t),
{
    let ghost acc0 = acc@;
    let n = acc.len();
    let mut j: usize = 0;
    while j < n && acc[j].0.id < t.0.id
        invariant
            0 <= j <= n,
            n == acc.len(),
            acc@ == acc0,
            forall|k: int| 0 <= k < j ==> (#[trigger] acc@[k]).0.id < t.0.id,
        decreases n - j,
    {
        j += 1;
    }
    proof {
        lemma_insert_term_split(acc0, t, j as int);
    }
    if j < n && acc[j].0.id == t.0.id {
        let merged = acc[j].1.add_mod(t.1);
        let v = acc[j].0;
        acc.set(j, (v, merged));
        proof {
            let tail = acc0.subrange(j as int, acc0.len() as int);
            assert(tail[0] == acc0[j as int]);
            assert(merged == fe_add_spec(acc0[j as int].1, t.1));
            assert(insert_term(tail, t)
                == seq![(tail[0].0, fe_add_spec(tail[0].1, t.1))] + tail.drop_first());
            assert(acc@ =~= acc0.subrange(0, j as int) + insert_term(tail, t));
        }
    } else {
        acc.insert(j, t);
        proof {
            let tail = acc0.subrange(j as int, acc0.len() as int);
            if tail.len() == 0 {
                assert(insert_term(tail, t) == seq![t]);
            } else {
                assert(tail[0] == acc0[j as int]);
                assert(tail[0].0.id > t.0.id);
                assert(insert_term(tail, t) == seq![t] + tail);
            }
            assert(acc@ =~= acc0.subrange(0, j as int) + insert_term(tail, t));
        }
    }
}

/// Build the canonical form of a linear combination.
pub fn canonicalize(l: &LinComb) -> (r: LinComb)
    ensures
        r@ == canon_lc(l@),
{
    let n = l.0.len();
    let mut acc: Vec<(Variable, FieldElem)> = Vec::new();
    let mut i: usize = 0;
    while i < n
        invariant
            0 <= i <= n,
            n == l.0.len(),
            acc@ == merge_terms(l@.subrange(0, i as int)),
        decreases n - i,
    {
        let t = l.0[i];
        let tr = (t.0, t.1.reduce());
        insert_exec(&mut acc, tr);
        proof {
            let pre = l@.subrange(0, i as int);
            let cur = l@.subrange(0, i + 1 as int);
            assert(cur.drop_last() =~= pre);
            assert(cur.last() == l@[i as int]);
            assert(tr.1 == reduce_spec(l@[i as int].1));
        }
        i += 1;
    }
    proof {
        assert(l@.subrange(0, n as int) =~= l@);
    }
    let m = acc.len();
    let mut out: Vec<(Variable, FieldElem)> = Vec::new();
    let mut k: usize = 0;
    while k < m
        invariant
            0 <= k <= m,
            m == acc.len(),
            acc@ == merge_terms(l@),
            out@ == drop_zeros(acc@.subrange(0, k as int)),
        decreases m - k,
    {
        let t = acc[k];
        proof {
            let pre = acc@.subrange(0, k as int);
            let cur = acc@.subrange(0, k + 1 as int);
            assert(cur.drop_last() =~= pre);
            assert(cur.last() == acc@[k as int]);
        }
        if t.1.raw != 0 {
            out.push(t);
            proof {
                assert(out@ =~= drop_zeros(acc@.subrange(0, k + 1 as int)));
            }
        }
        k += 1;
    }
    proof {
        assert(acc@.subrange(0, m as int) =~= acc@);
    }
    LinComb(out)
}

/// Structural equality of linear combinations.
pub fn lc_eq(a: &LinComb, b: &LinComb) -> (r: bool)
    ensures
        r == (a@ == b@),
{
    if a.0.len() != b.0.len() {
        proof {
            assert(a@ != b@) by {
                assert(a@.len() != b@.len());
            }
        }
        return false;
    }
    let n = a.0.len();
    let mut i: usize = 0;
    while i < n
        invariant
            0 <= i <= n,
            n == a.0.len(),
            n == b.0.len(),
            forall|k: int| 0 <= k < i ==> a@[k] == b@[k],
        decreases n - i,
    {
        if a.0[i].0.id != b.0[i].0.id || a.0[i].1.raw != b.0[i].1.raw {
            return false;
        }
        i += 1;
    }
    proof {
        assert(a@ =~= b@);
    }
    true
}

/// Structural equality of the views of two quadratic combinations.
pub fn qc_eq(a: &crate::ir::QuadComb, b: &crate::ir::QuadComb) -> (r: bool)
    ensures
        r == (a@ == b@),
{
    let r = lc_eq(&a.left, &b.left) && lc_eq(&a.right, &b.right);
    proof {
        if a.left@ == b.left@ && a.right@ == b.right@ {
            assert(a@ =~= b@);
        }
    }
    r
}

} // verus!
