//! Laws of canonical form: canonicalization preserves the value of a
//! linear combination under every assignment; two combinations equal as
//! linear forms canonicalize to one representation; canonicalization is
//! idempotent; and canonical output is sorted, reduced and free of zero
//! coefficients.

use vstd::prelude::*;
use vstd::arithmetic::div_mod::{
    lemma_add_mod_noop_right, lemma_mod_bound, lemma_small_mod,
};
use crate::canonical::{
    canon_lc, drop_zeros, fe_add_spec, insert_term, lc_canonical, merge_terms, reduce_spec,
};
use crate::field::{FieldElem, FIELD_MODULUS};
use crate::ir::{lc_eval, LinCombV, Variable};

verus! {

/// The residue contributed to one wire by all terms of a combination.
pub open spec fn coeff_of(l: LinCombV, v: Variable) -> int
    decreases l.len(),
{
    if l.len() == 0 {
        0
    } else {
        ((if l[0].0 == v {
            l[0].1.value()
        } else {
            0
        }) + coeff_of(l.drop_first(), v)) % (FIELD_MODULUS as int)
    }
}

pub proof fn lemma_coeff_bounds(l: LinCombV, v: Variable)
    ensures
        0 <= coeff_of(l, v) < FIELD_MODULUS as int,
    decreases l.len(),
{
    if l.len() == 0 {
    } else {
        lemma_coeff_bounds(l.drop_first(), v);
        lemma_mod_bound(
            (if l[0].0 == v {
                l[0].1.value()
            } else {
                0
            }) + coeff_of(l.drop_first(), v),
            FIELD_MODULUS as int,
        );
    }
}

/// Adding a term at the end adds its contribution.
proof fn lemma_eval_snoc(l: LinCombV, t: (Variable, FieldElem), a: spec_fn(Variable) -> int)
    ensures
        lc_eval(l.push(t), a) == (lc_eval(l, a) + t.1.value() * a(t.0)) % (FIELD_MODULUS as int),
    decreases l.len(),
{
    let m = FIELD_MODULUS as int;
    if l.len() == 0 {
        assert(l.push(t)[0] == t);
        assert(l.push(t).drop_first() =~= Seq::<(Variable, FieldElem)>::empty());
        assert(lc_eval(l.push(t).drop_first(), a) == 0);
        assert(l.push(t).len() == 1);
        assert(lc_eval(l.push(t), a) == (t.1.value() * a(t.0) + 0) % m);
        assert(lc_eval(l, a) == 0);
    } else {
        assert(l.push(t).drop_first() =~= l.drop_first().push(t));
        assert(l.push(t)[0] == l[0]);
        lemma_eval_snoc(l.drop_first(), t, a);
        let h = l[0].1.value() * a(l[0].0);
        let x = lc_eval(l.drop_first(), a);
        let tv = t.1.value() * a(t.0);
        lemma_add_mod_noop_right(h, x + tv, m);
        lemma_add_mod_noop_right(tv, h + x, m);
        assert((h + (x + tv) % m) % m == (h + x + tv) % m);
        assert(((h + x) % m + tv) % m == (tv + (h + x) % m) % m);
        assert((tv + (h + x) % m) % m == (tv + (h + x)) % m);
        assert(lc_eval(l.push(t), a) == (h + (x + tv) % m) % m);
        assert((lc_eval(l, a) + tv) % m == ((h + x) % m + tv) % m);
    }
}

proof fn lemma_coeff_snoc(l: LinCombV, t: (Variable, FieldElem), v: Variable)
    ensures
        coeff_of(l.push(t), v) == (coeff_of(l, v) + (if t.0 == v {
            t.1.value()
        } else {
            0
        })) % (FIELD_MODULUS as int),
    decreases l.len(),
{
    let m = FIELD_MODULUS as int;
    if l.len() == 0 {
        assert(l.push(t)[0] == t);
        assert(l.push(t).drop_first() =~= Seq::<(Variable, FieldElem)>::empty());
        assert(coeff_of(l.push(t).drop_first(), v) == 0);
        assert(l.push(t).len() == 1);
        assert(coeff_of(l.push(t), v) == ((if t.0 == v {
            t.1.value()
        } else {
            0
        }) + 0) % m);
        assert(coeff_of(l, v) == 0);
    } else {
        assert(l.push(t).drop_first() =~= l.drop_first().push(t));
        assert(l.push(t)[0] == l[0]);
        lemma_coeff_snoc(l.drop_first(), t, v);
        let h: int = if l[0].0 == v {
            l[0].1.value()
        } else {
            0
        };
        let x = coeff_of(l.drop_first(), v);
        let tv: int = if t.0 == v {
            t.1.value()
        } else {
            0
        };
        lemma_add_mod_noop_right(h, x + tv, m);
        lemma_add_mod_noop_right(tv, h + x, m);
        assert((h + (x + tv) % m) % m == (h + x + tv) % m);
        assert(((h + x) % m + tv) % m == (tv + (h + x)) % m);
    }
}

/// Inserting a reduced term into the accumulator adds its contribution
/// to the value.
proof fn lemma_insert_eval(acc: LinCombV, t: (Variable, FieldElem), a: spec_fn(Variable) -> int)
    requires
        t.1.is_reduced(),
    ensures
        lc_eval(insert_term(acc, t), a) == (lc_eval(acc, a) + t.1.value() * a(t.0)) % (
        FIELD_MODULUS as int),
    decreases acc.len(),
{
    let m = FIELD_MODULUS as int;
    let tv = t.1.value() * a(t.0);
    if acc.len() == 0 {
        assert(insert_term(acc, t) == seq![t]);
        assert(seq![t][0] == t);
        assert(seq![t].drop_first() =~= Seq::<(Variable, FieldElem)>::empty());
        assert(lc_eval(seq![t].drop_first(), a) == 0);
        assert(lc_eval(seq![t], a) == (tv + 0) % m);
        assert(lc_eval(acc, a) == 0);
    } else if acc[0].0.id < t.0.id {
        let r = insert_term(acc.drop_first(), t);
        assert(insert_term(acc, t) == seq![acc[0]] + r);
        lemma_insert_eval(acc.drop_first(), t, a);
        let h = acc[0].1.value() * a(acc[0].0);
        let x = lc_eval(acc.drop_first(), a);
        assert((seq![acc[0]] + r)[0] == acc[0]);
        assert((seq![acc[0]] + r).drop_first() =~= r);
        lemma_add_mod_noop_right(h, x + tv, m);
        lemma_add_mod_noop_right(tv, h + x, m);
        assert((h + (x + tv) % m) % m == (h + x + tv) % m);
        assert(((h + x) % m + tv) % m == (tv + (h + x)) % m);
    } else if acc[0].0.id == t.0.id {
        let merged = (acc[0].0, fe_add_spec(acc[0].1, t.1));
        assert(insert_term(acc, t) == seq![merged] + acc.drop_first());
        assert((seq![merged] + acc.drop_first())[0] == merged);
        assert((seq![merged] + acc.drop_first()).drop_first() =~= acc.drop_first());
        assert(acc[0].0 == t.0) by {
            assert(acc[0].0.id == t.0.id);
        }
        let x = lc_eval(acc.drop_first(), a);
        let hv = acc[0].1.value();
        let tvv = t.1.value();
        let av = a(t.0);
        assert(merged.1.value() == (hv + tvv) % m) by {
            lemma_mod_bound(hv + tvv, m);
            lemma_small_mod((((hv + tvv) % m) as nat), FIELD_MODULUS as nat);
        }
        // ((hv + tvv) % m * av + x) % m == (hv * av + (tvv * av + x) % m) % m
        vstd::arithmetic::div_mod::lemma_mul_mod_noop_left(hv + tvv, av, m);
        assert(((hv + tvv) % m * av) % m == ((hv + tvv) * av) % m);
        lemma_add_mod_noop_right(x, (hv + tvv) % m * av, m);
        assert((x + (hv + tvv) % m * av) % m == (x + ((hv + tvv) % m * av) % m) % m) by {
            lemma_add_mod_noop_right(x, ((hv + tvv) % m * av) % m, m);
            vstd::arithmetic::div_mod::lemma_mod_twice((hv + tvv) % m * av, m);
        }
        assert((x + ((hv + tvv) % m * av) % m) % m == (x + ((hv + tvv) * av) % m) % m);
        lemma_add_mod_noop_right(x, (hv + tvv) * av, m);
        assert((x + ((hv + tvv) * av) % m) % m == (x + (hv + tvv) * av) % m);
        assert((hv + tvv) * av == hv * av + tvv * av) by (nonlinear_arith);
        lemma_add_mod_noop_right(hv * av, tvv * av + x, m);
        assert((hv * av + (tvv * av + x) % m) % m == (hv * av + tvv * av + x) % m);
        assert(lc_eval(insert_term(acc, t), a) == (merged.1.value() * av + x) % m);
        assert((merged.1.value() * av + x) % m == (x + (hv + tvv) % m * av) % m);
        assert((lc_eval(acc, a) + tv) % m == ((hv * av + x) % m + tv) % m);
        lemma_add_mod_noop_right(tv, hv * av + x, m);
        assert(((hv * av + x) % m + tv) % m == (tv + (hv * av + x)) % m);
    } else {
        assert(insert_term(acc, t) == seq![t] + acc);
        assert((seq![t] + acc)[0] == t);
        assert((seq![t] + acc).drop_first() =~= acc);
    }
}

#[verifier::rlimit(100)]
proof fn lemma_insert_coeff(acc: LinCombV, t: (Variable, FieldElem), v: Variable)
    requires
        t.1.is_reduced(),
    ensures
        coeff_of(insert_term(acc, t), v) == (coeff_of(acc, v) + (if t.0 == v {
            t.1.value()
        } else {
            0
        })) % (FIELD_MODULUS as int),
    decreases acc.len(),
{
    let m = FIELD_MODULUS as int;
    let tv: int = if t.0 == v {
        t.1.value()
    } else {
        0
    };
    if acc.len() == 0 {
        assert(insert_term(acc, t) == seq![t]);
        assert(seq![t][0] == t);
        assert(seq![t].drop_first() =~= Seq::<(Variable, FieldElem)>::empty());
        assert(coeff_of(seq![t].drop_first(), v) == 0);
        assert(coeff_of(seq![t], v) == (tv + 0) % m);
        assert(coeff_of(acc, v) == 0);
    } else if acc[0].0.id < t.0.id {
        let r = insert_term(acc.drop_first(), t);
        assert(insert_term(acc, t) == seq![acc[0]] + r);
        lemma_insert_coeff(acc.drop_first(), t, v);
        let h: int = if acc[0].0 == v {
            acc[0].1.value()
        } else {
            0
        };
        let x = coeff_of(acc.drop_first(), v);
        assert((seq![acc[0]] + r)[0] == acc[0]);
        assert((seq![acc[0]] + r).drop_first() =~= r);
        lemma_add_mod_noop_right(h, x + tv, m);
        lemma_add_mod_noop_right(tv, h + x, m);
        assert((h + (x + tv) % m) % m == (h + x + tv) % m);
        assert(((h + x) % m + tv) % m == (tv + (h + x)) % m);
    } else if acc[0].0.id == t.0.id {
        let merged = (acc[0].0, fe_add_spec(acc[0].1, t.1));
        assert(insert_term(acc, t) == seq![merged] + acc.drop_first());
        assert((seq![merged] + acc.drop_first())[0] == merged);
        assert((seq![merged] + acc.drop_first()).drop_first() =~= acc.drop_first());
        assert(acc[0].0 == t.0) by {
            assert(acc[0].0.id == t.0.id);
        }
        let x = coeff_of(acc.drop_first(), v);
        let hv = acc[0].1.value();
        let tvv = t.1.value();
        assert(merged.1.value() == (hv + tvv) % m) by {
            lemma_mod_bound(hv + tvv, m);
            lemma_small_mod((((hv + tvv) % m) as nat), FIELD_MODULUS as nat);
        }
        if t.0 == v {
            lemma_add_mod_noop_right(x, hv + tvv, m);
            lemma_add_mod_noop_right(tvv, hv + x, m);
            assert(coeff_of(insert_term(acc, t), v) == ((hv + tvv) % m + x) % m);
            assert(((hv + tvv) % m + x) % m == (x + (hv + tvv) % m) % m);
            assert((x + (hv + tvv) % m) % m == (x + hv + tvv) % m);
            assert(coeff_of(acc, v) == (hv + x) % m);
            assert(((hv + x) % m + tvv) % m == (tvv + (hv + x) % m) % m);
            assert((tvv + (hv + x) % m) % m == (tvv + hv + x) % m);
        } else {
            assert(merged.0 != v && acc[0].0 != v);
            assert(coeff_of(insert_term(acc, t), v) == (0 + x) % m);
            assert(coeff_of(acc, v) == (0 + x) % m);
            lemma_coeff_bounds(acc.drop_first(), v);
            lemma_small_mod((x as nat), FIELD_MODULUS as nat);
            assert((coeff_of(acc, v) + 0) % m == x % m) by {
                lemma_small_mod(((x % m) as nat), FIELD_MODULUS as nat);
            }
        }
    } else {
        assert(insert_term(acc, t) == seq![t] + acc);
        assert((seq![t] + acc)[0] == t);
        assert((seq![t] + acc).drop_first() =~= acc);
    }
}

proof fn lemma_merge_eval(l: LinCombV, a: spec_fn(Variable) -> int)
    ensures
        lc_eval(merge_terms(l), a) == lc_eval(l, a),
    decreases l.len(),
{
    let m = FIELD_MODULUS as int;
    if l.len() == 0 {
    } else {
        lemma_merge_eval(l.drop_last(), a);
        let t = l.last();
        let tr = (t.0, reduce_spec(t.1));
        assert(tr.1.is_reduced() && tr.1.value() == t.1.value()) by {
            lemma_mod_bound(t.1.raw as int, m);
            lemma_small_mod(((t.1.raw as int % m) as nat), FIELD_MODULUS as nat);
        }
        lemma_insert_eval(merge_terms(l.drop_last()), tr, a);
        assert(l =~= l.drop_last().push(t));
        lemma_eval_snoc(l.drop_last(), t, a);
    }
}

proof fn lemma_merge_coeff(l: LinCombV, v: Variable)
    ensures
        coeff_of(merge_terms(l), v) == coeff_of(l, v),
    decreases l.len(),
{
    let m = FIELD_MODULUS as int;
    if l.len() == 0 {
    } else {
        lemma_merge_coeff(l.drop_last(), v);
        let t = l.last();
        let tr = (t.0, reduce_spec(t.1));
        assert(tr.1.is_reduced() && tr.1.value() == t.1.value()) by {
            lemma_mod_bound(t.1.raw as int, m);
            lemma_small_mod(((t.1.raw as int % m) as nat), FIELD_MODULUS as nat);
        }
        lemma_insert_coeff(merge_terms(l.drop_last()), tr, v);
        assert(l =~= l.drop_last().push(t));
        lemma_coeff_snoc(l.drop_last(), t, v);
    }
}

proof fn lemma_drop_zeros_eval(l: LinCombV, a: spec_fn(Variable) -> int)
    ensures
        lc_eval(drop_zeros(l), a) == lc_eval(l, a),
    decreases l.len(),
{
    let m = FIELD_MODULUS as int;
    if l.len() == 0 {
    } else {
        lemma_drop_zeros_eval(l.drop_last(), a);
        let t = l.last();
        assert(l =~= l.drop_last().push(t));
        lemma_eval_snoc(l.drop_last(), t, a);
        if t.1.raw != 0 {
            assert(drop_zeros(l) =~= drop_zeros(l.drop_last()).push(t));
            lemma_eval_snoc(drop_zeros(l.drop_last()), t, a);
        } else {
            assert(t.1.value() == 0);
            crate::ir::lemma_lc_eval_bounds(l.drop_last(), a);
            lemma_small_mod((lc_eval(l.drop_last(), a) as nat), FIELD_MODULUS as nat);
            assert((lc_eval(l.drop_last(), a) + t.1.value() * a(t.0)) % m == lc_eval(
                l.drop_last(),
                a,
            ));
        }
    }
}

proof fn lemma_drop_zeros_coeff(l: LinCombV, v: Variable)
    ensures
        coeff_of(drop_zeros(l), v) == coeff_of(l, v),
    decreases l.len(),
{
    let m = FIELD_MODULUS as int;
    if l.len() == 0 {
    } else {
        lemma_drop_zeros_coeff(l.drop_last(), v);
        let t = l.last();
        assert(l =~= l.drop_last().push(t));
        lemma_coeff_snoc(l.drop_last(), t, v);
        if t.1.raw != 0 {
            assert(drop_zeros(l) =~= drop_zeros(l.drop_last()).push(t));
            lemma_coeff_snoc(drop_zeros(l.drop_last()), t, v);
        } else {
            assert(t.1.value() == 0);
            lemma_coeff_bounds(l.drop_last(), v);
            lemma_small_mod((coeff_of(l.drop_last(), v) as nat), FIELD_MODULUS as nat);
        }
    }
}

/// Canonicalization preserves the value of a combination under every
/// assignment.
pub proof fn law_canon_eval(l: LinCombV, a: spec_fn(Variable) -> int)
    ensures
        lc_eval(canon_lc(l), a) == lc_eval(l, a),
{
    lemma_merge_eval(l, a);
    lemma_drop_zeros_eval(merge_terms(l), a);
}

/// Canonicalization preserves the coefficient of every wire.
pub proof fn law_canon_coeff(l: LinCombV, v: Variable)
    ensures
        coeff_of(canon_lc(l), v) == coeff_of(l, v),
{
    lemma_merge_coeff(l, v);
    lemma_drop_zeros_coeff(merge_terms(l), v);
}

/// Sorted by variable id with reduced coefficients: the shape between
/// merging and zero-dropping.
pub open spec fn merged_wf(l: LinCombV) -> bool {
    &&& forall|i: int, j: int| 0 <= i < j < l.len() ==> #[trigger] l[i].0.id < #[trigger] l[j].0.id
    &&& forall|i: int| 0 <= i < l.len() ==> (#[trigger] l[i].1).is_reduced()
}

proof fn lemma_insert_wf(acc: LinCombV, t: (Variable, FieldElem), b: int)
    requires
        merged_wf(acc),
        t.1.is_reduced(),
        forall|i: int| 0 <= i < acc.len() ==> (#[trigger] acc[i]).0.id > b,
        t.0.id > b,
    ensures
        merged_wf(insert_term(acc, t)),
        forall|k: int| 0 <= k < insert_term(acc, t).len() ==> (#[trigger] insert_term(acc, t)[k]).0.id > b,
    decreases acc.len(),
{
    let r = insert_term(acc, t);
    if acc.len() == 0 {
        assert(r == seq![t]);
        assert(r[0] == t);
    } else if acc[0].0.id < t.0.id {
        let rest = acc.drop_first();
        assert(forall|i: int| 0 <= i < rest.len() ==> #[trigger] rest[i] == acc[i + 1]);
        lemma_insert_wf(rest, t, acc[0].0.id as int);
        let ri = insert_term(rest, t);
        assert(r == seq![acc[0]] + ri);
        assert(r[0] == acc[0]);
        assert(forall|k: int| 1 <= k < r.len() ==> #[trigger] r[k] == ri[k - 1]);
        assert(merged_wf(r));
    } else if acc[0].0.id == t.0.id {
        let merged = (acc[0].0, fe_add_spec(acc[0].1, t.1));
        assert(r == seq![merged] + acc.drop_first());
        assert(r[0] == merged);
        assert(forall|k: int| 1 <= k < r.len() ==> #[trigger] r[k] == acc[k]);
        assert(merged.1.is_reduced()) by {
            lemma_mod_bound(acc[0].1.value() + t.1.value(), FIELD_MODULUS as int);
        }
        assert(merged_wf(r));
    } else {
        assert(r == seq![t] + acc);
        assert(r[0] == t);
        assert(forall|k: int| 1 <= k < r.len() ==> #[trigger] r[k] == acc[k - 1]);
        assert(merged_wf(r));
    }
}

proof fn lemma_merge_wf(l: LinCombV)
    ensures
        merged_wf(merge_terms(l)),
    decreases l.len(),
{
    if l.len() == 0 {
    } else {
        lemma_merge_wf(l.drop_last());
        let t = l.last();
        let tr = (t.0, reduce_spec(t.1));
        assert(tr.1.is_reduced()) by {
            lemma_mod_bound(t.1.raw as int, FIELD_MODULUS as int);
        }
        lemma_insert_wf(merge_terms(l.drop_last()), tr, -1);
    }
}

proof fn lemma_drop_zeros_wf(l: LinCombV)
    requires
        merged_wf(l),
    ensures
        lc_canonical(drop_zeros(l)),
        drop_zeros(l).len() > 0 ==> l.len() > 0 && drop_zeros(l).last().0.id <= l.last().0.id,
    decreases l.len(),
{
    if l.len() == 0 {
    } else {
        let dl = l.drop_last();
        assert(forall|i: int| 0 <= i < dl.len() ==> #[trigger] dl[i] == l[i]);
        lemma_drop_zeros_wf(dl);
        let t = l.last();
        let dz = drop_zeros(l);
        if t.1.raw != 0 {
            assert(dz == drop_zeros(dl) + seq![t]);
            assert(dz.last() == t);
            assert(forall|k: int| 0 <= k < dz.len() - 1 ==> #[trigger] dz[k] == drop_zeros(dl)[k]);
            if drop_zeros(dl).len() > 0 {
                assert(dl.last().0.id < t.0.id);
            }
            assert(lc_canonical(dz));
        } else {
            assert(dz == drop_zeros(dl));
            if dz.len() > 0 {
                assert(dl.last().0.id < l.last().0.id);
            }
        }
    }
}

/// Canonical output: sorted, reduced, no zero coefficients.
pub proof fn law_canon_wf(l: LinCombV)
    ensures
        lc_canonical(canon_lc(l)),
{
    lemma_merge_wf(l);
    lemma_drop_zeros_wf(merge_terms(l));
}

/// The coefficient a combination's single entry for a wire carries.
pub open spec fn entry_coeff(l: LinCombV, v: Variable) -> int
    decreases l.len(),
{
    if l.len() == 0 {
        0
    } else if l[0].0 == v {
        l[0].1.value()
    } else {
        entry_coeff(l.drop_first(), v)
    }
}

proof fn lemma_coeff_absent(l: LinCombV, v: Variable)
    requires
        forall|i: int| 0 <= i < l.len() ==> (#[trigger] l[i]).0 != v,
    ensures
        coeff_of(l, v) == 0,
    decreases l.len(),
{
    if l.len() == 0 {
    } else {
        assert(forall|i: int| 0 <= i < l.drop_first().len() ==> #[trigger] l.drop_first()[i]
            == l[i + 1]);
        lemma_coeff_absent(l.drop_first(), v);
        assert(l[0].0 != v);
    }
}

proof fn lemma_canonical_coeff(s: LinCombV, v: Variable)
    requires
        lc_canonical(s),
    ensures
        coeff_of(s, v) == entry_coeff(s, v),
        0 <= entry_coeff(s, v) < FIELD_MODULUS as int,
    decreases s.len(),
{
    let m = FIELD_MODULUS as int;
    if s.len() == 0 {
    } else {
        let rest = s.drop_first();
        assert(forall|i: int| 0 <= i < rest.len() ==> #[trigger] rest[i] == s[i + 1]);
        if s[0].0 == v {
            assert(forall|i: int| 0 <= i < rest.len() ==> (#[trigger] rest[i]).0 != v) by {
                assert(forall|i: int| 0 <= i < rest.len() ==> (#[trigger] rest[i]).0.id
                    > s[0].0.id);
            }
            lemma_coeff_absent(rest, v);
            lemma_small_mod((s[0].1.value() as nat), FIELD_MODULUS as nat);
            assert(s[0].1.value() == s[0].1.raw as int) by {
                lemma_small_mod((s[0].1.raw as nat), FIELD_MODULUS as nat);
            }
        } else {
            lemma_canonical_coeff(rest, v);
            lemma_small_mod((coeff_of(rest, v) as nat), FIELD_MODULUS as nat);
        }
    }
}

/// A canonical entry's coefficient is never the residue zero.
proof fn lemma_canonical_head_nonzero(s: LinCombV)
    requires
        lc_canonical(s),
        s.len() > 0,
    ensures
        coeff_of(s, s[0].0) == s[0].1.value(),
        s[0].1.value() != 0,
{
    lemma_canonical_coeff(s, s[0].0);
    assert(s[0].1.value() == s[0].1.raw as int) by {
        lemma_small_mod((s[0].1.raw as nat), FIELD_MODULUS as nat);
    }
}

proof fn lemma_canonical_unique(s1: LinCombV, s2: LinCombV)
    requires
        lc_canonical(s1),
        lc_canonical(s2),
        forall|v: Variable| #[trigger] coeff_of(s1, v) == coeff_of(s2, v),
    ensures
        s1 == s2,
    decreases s1.len(),
{
    let m = FIELD_MODULUS as int;
    if s1.len() == 0 && s2.len() == 0 {
        assert(s1 =~= s2);
    } else if s1.len() == 0 {
        lemma_canonical_head_nonzero(s2);
        assert(coeff_of(s1, s2[0].0) == 0);
        assert(false);
    } else if s2.len() == 0 {
        lemma_canonical_head_nonzero(s1);
        assert(coeff_of(s2, s1[0].0) == 0);
        assert(false);
    } else {
        let h1 = s1[0];
        let h2 = s2[0];
        lemma_canonical_head_nonzero(s1);
        lemma_canonical_head_nonzero(s2);
        if h1.0.id < h2.0.id {
            assert(forall|i: int| 0 <= i < s2.len() ==> (#[trigger] s2[i]).0 != h1.0) by {
                assert(forall|i: int| 0 < i < s2.len() ==> (#[trigger] s2[i]).0.id > h2.0.id);
            }
            lemma_coeff_absent(s2, h1.0);
            assert(false);
        }
        if h2.0.id < h1.0.id {
            assert(forall|i: int| 0 <= i < s1.len() ==> (#[trigger] s1[i]).0 != h2.0) by {
                assert(forall|i: int| 0 < i < s1.len() ==> (#[trigger] s1[i]).0.id > h1.0.id);
            }
            lemma_coeff_absent(s1, h2.0);
            assert(false);
        }
        assert(h1.0 == h2.0);
        assert(h1.1.value() == h2.1.value());
        assert(h1.1 == h2.1) by {
            crate::field::lemma_reduced_value_injective(h1.1, h2.1);
        }
        let r1 = s1.drop_first();
        let r2 = s2.drop_first();
        assert(forall|i: int| 0 <= i < r1.len() ==> #[trigger] r1[i] == s1[i + 1]);
        assert(forall|i: int| 0 <= i < r2.len() ==> #[trigger] r2[i] == s2[i + 1]);
        assert forall|v: Variable| #[trigger] coeff_of(r1, v) == coeff_of(r2, v) by {
            if v == h1.0 {
                assert(forall|i: int| 0 <= i < r1.len() ==> (#[trigger] r1[i]).0 != v) by {
                    assert(forall|i: int| 0 <= i < r1.len() ==> (#[trigger] r1[i]).0.id
                        > h1.0.id);
                }
                assert(forall|i: int| 0 <= i < r2.len() ==> (#[trigger] r2[i]).0 != v) by {
                    assert(forall|i: int| 0 <= i < r2.len() ==> (#[trigger] r2[i]).0.id
                        > h2.0.id);
                }
                lemma_coeff_absent(r1, v);
                lemma_coeff_absent(r2, v);
            } else {
                lemma_coeff_bounds(r1, v);
                lemma_coeff_bounds(r2, v);
                lemma_small_mod((coeff_of(r1, v) as nat), FIELD_MODULUS as nat);
                lemma_small_mod((coeff_of(r2, v) as nat), FIELD_MODULUS as nat);
                assert(coeff_of(s1, v) == (0 + coeff_of(r1, v)) % m);
                assert(coeff_of(s2, v) == (0 + coeff_of(r2, v)) % m);
            }
        }
        lemma_canonical_unique(r1, r2);
        assert(s1.len() == s2.len());
        assert forall|k: int| 0 <= k < s1.len() implies s1[k] == s2[k] by {
            if k > 0 {
                assert(r1[k - 1] == s1[k]);
                assert(r2[k - 1] == s2[k]);
            }
        }
        assert(s1 =~= s2);
    }
}

/// Canonical-form determinism: two combinations equal as linear forms,
/// whatever their insertion order and however duplicate-variable terms
/// are split, canonicalize to one identical representation.
pub proof fn law_canon_deterministic(l1: LinCombV, l2: LinCombV)
    requires
        forall|v: Variable| #[trigger] coeff_of(l1, v) == coeff_of(l2, v),
    ensures
        canon_lc(l1) == canon_lc(l2),
{
    law_canon_wf(l1);
    law_canon_wf(l2);
    assert forall|v: Variable| #[trigger] coeff_of(canon_lc(l1), v) == coeff_of(
        canon_lc(l2),
        v,
    ) by {
        law_canon_coeff(l1, v);
        law_canon_coeff(l2, v);
    }
    lemma_canonical_unique(canon_lc(l1), canon_lc(l2));
}

/// Canonicalizing a canonical combination changes nothing.
pub proof fn law_canon_idempotent(l: LinCombV)
    ensures
        canon_lc(canon_lc(l)) == canon_lc(l),
{
    law_canon_wf(l);
    law_canon_wf(canon_lc(l));
    assert forall|v: Variable| #[trigger] coeff_of(canon_lc(canon_lc(l)), v) == coeff_of(
        canon_lc(l),
        v,
    ) by {
        law_canon_coeff(canon_lc(l), v);
    }
    lemma_canonical_unique(canon_lc(canon_lc(l)), canon_lc(l));
}

} // verus!
