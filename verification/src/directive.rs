//! The directive-pruning pass: a directive none of whose output wires is
//! needed by any surviving statement after it, nor by the program's
//! return wires, supplies witness values nobody reads and is removed.
//! Liveness flows backward: constraints always survive and need the
//! wires they mention; a surviving directive needs the wires of its
//! inputs.

use vstd::prelude::*;
use crate::ir::{
    stmts_view, LinComb, LinCombV, QuadComb, QuadCombV, Statement, StatementV, Variable,
};

verus! {

broadcast use crate::ir::lemma_stmts_view, crate::ir::lemma_qcs_view;

/// The wires a linear combination mentions.
pub open spec fn lc_vars(l: LinCombV) -> Set<Variable>
    decreases l.len(),
{
    if l.len() == 0 {
        Set::<Variable>::empty()
    } else {
        lc_vars(l.drop_last()).insert(l.last().0)
    }
}

/// The wires a quadratic combination mentions.
pub open spec fn qc_vars(q: QuadCombV) -> Set<Variable> {
    lc_vars(q.left).union(lc_vars(q.right))
}

/// The wires a run of quadratic combinations mentions.
pub open spec fn qcs_vars(qs: Seq<QuadCombV>) -> Set<Variable>
    decreases qs.len(),
{
    if qs.len() == 0 {
        Set::<Variable>::empty()
    } else {
        qcs_vars(qs.drop_last()).union(qc_vars(qs.last()))
    }
}

/// Whether any of the wires is needed.
pub open spec fn outs_live(outs: Seq<Variable>, needed: Set<Variable>) -> bool
    decreases outs.len(),
{
    if outs.len() == 0 {
        false
    } else {
        needed.contains(outs.last()) || outs_live(outs.drop_last(), needed)
    }
}

pub proof fn lemma_outs_live_iff(outs: Seq<Variable>, needed: Set<Variable>)
    ensures
        outs_live(outs, needed) <==> exists|i: int|
            0 <= i < outs.len() && needed.contains(#[trigger] outs[i]),
    decreases outs.len(),
{
    if outs.len() == 0 {
    } else {
        lemma_outs_live_iff(outs.drop_last(), needed);
        if needed.contains(outs.last()) {
            assert(needed.contains(outs[outs.len() - 1]));
        } else if outs_live(outs.drop_last(), needed) {
            let i = choose|i: int|
                0 <= i < outs.drop_last().len() && needed.contains(
                    #[trigger] outs.drop_last()[i],
                );
            assert(needed.contains(outs[i]));
        } else {
            assert forall|i: int| 0 <= i < outs.len() implies !needed.contains(
                #[trigger] outs[i],
            ) by {
                if i < outs.len() - 1 {
                    assert(outs.drop_last()[i] == outs[i]);
                }
            }
        }
    }
}

/// Whether a statement survives, given the wires needed after it: a
/// constraint always does; a directive only when one of its outputs is
/// needed.
pub open spec fn stmt_live(s: StatementV, needed: Set<Variable>) -> bool {
    match s {
        StatementV::Constraint(_, _, _) => true,
        StatementV::Directive(d) => outs_live(d.outputs, needed),
    }
}

/// The wires a surviving statement reads.
pub open spec fn stmt_reads(s: StatementV) -> Set<Variable> {
    match s {
        StatementV::Constraint(q, l, _) => qc_vars(q).union(lc_vars(l)),
        StatementV::Directive(d) => qcs_vars(d.inputs),
    }
}

/// Prune a statement run backward: given the wires needed after the run,
/// yield the surviving statements and the wires needed before it.
pub open spec fn prune_stmts(ss: Seq<StatementV>, needed: Set<Variable>) -> (
    Seq<StatementV>,
    Set<Variable>,
)
    decreases ss.len(),
{
    if ss.len() == 0 {
        (ss, needed)
    } else {
        let s = ss.last();
        if stmt_live(s, needed) {
            let r = prune_stmts(ss.drop_last(), needed.union(stmt_reads(s)));
            (r.0 + seq![s], r.1)
        } else {
            prune_stmts(ss.drop_last(), needed)
        }
    }
}

/// Whether a wire is in the needed set.
fn needed_contains(needed: &Vec<Variable>, v: Variable) -> (r: bool)
    ensures
        r == needed@.to_set().contains(v),
{
    let n = needed.len();
    let mut i: usize = 0;
    while i < n
        invariant
            0 <= i <= n,
            n == needed.len(),
            forall|k: int| 0 <= k < i ==> needed@[k] != v,
        decreases n - i,
    {
        if needed[i].id == v.id {
            proof {
                assert(needed@[i as int] == v);
                assert(needed@.contains(v));
            }
            return true;
        }
        i += 1;
    }
    proof {
        assert(!needed@.contains(v)) by {
            if needed@.contains(v) {
                let k = choose|k: int| 0 <= k < needed@.len() && needed@[k] == v;
                assert(false);
            }
        }
    }
    false
}

/// Whether any output of a directive is needed.
fn any_needed(needed: &Vec<Variable>, outs: &Vec<Variable>) -> (r: bool)
    ensures
        r == exists|i: int|
            0 <= i < outs@.len() && needed@.to_set().contains(#[trigger] outs@[i]),
{
    let n = outs.len();
    let mut i: usize = 0;
    while i < n
        invariant
            0 <= i <= n,
            n == outs.len(),
            forall|k: int| 0 <= k < i ==> !needed@.to_set().contains(#[trigger] outs@[k]),
        decreases n - i,
    {
        if needed_contains(needed, outs[i]) {
            return true;
        }
        i += 1;
    }
    false
}

/// Record the wires of a linear combination as needed.
fn add_lc_vars(needed: &mut Vec<Variable>, l: &LinComb)
    ensures
        final(needed)@.to_set() == old(needed)@.to_set().union(lc_vars(l@)),
{
    let ghost nd0 = needed@.to_set();
    let n = l.0.len();
    proof {
        assert(l@.subrange(0, 0) =~= Seq::<(Variable, crate::field::FieldElem)>::empty());
        assert(nd0.union(lc_vars(l@.subrange(0, 0))) =~= nd0);
    }
    let mut i: usize = 0;
    while i < n
        invariant
            0 <= i <= n,
            n == l.0.len(),
            needed@.to_set() == nd0.union(lc_vars(l@.subrange(0, i as int))),
        decreases n - i,
    {
        let ghost cur = needed@;
        needed.push(l.0[i].0);
        proof {
            cur.lemma_push_to_set_commute(l@[i as int].0);
            assert(l@.subrange(0, i + 1 as int).drop_last() =~= l@.subrange(0, i as int));
            assert(l@.subrange(0, i + 1 as int).last() == l@[i as int]);
            assert(needed@.to_set() =~= nd0.union(lc_vars(l@.subrange(0, i + 1 as int))));
        }
        i += 1;
    }
    proof {
        assert(l@.subrange(0, n as int) =~= l@);
    }
}

/// Record the wires of a quadratic combination as needed.
fn add_qc_vars(needed: &mut Vec<Variable>, q: &QuadComb)
    ensures
        final(needed)@.to_set() == old(needed)@.to_set().union(qc_vars(q@)),
{
    let ghost nd0 = needed@.to_set();
    add_lc_vars(needed, &q.left);
    add_lc_vars(needed, &q.right);
    proof {
        assert(needed@.to_set() =~= nd0.union(qc_vars(q@)));
    }
}

/// Record the wires of a directive's inputs as needed.
fn add_qcs_vars(needed: &mut Vec<Variable>, qs: &Vec<QuadComb>)
    ensures
        final(needed)@.to_set() == old(needed)@.to_set().union(
            qcs_vars(crate::ir::qcs_view(qs@)),
        ),
{
    let ghost nd0 = needed@.to_set();
    let ghost qv = crate::ir::qcs_view(qs@);
    let n = qs.len();
    proof {
        assert(qv.subrange(0, 0) =~= Seq::<QuadCombV>::empty());
        assert(nd0.union(qcs_vars(qv.subrange(0, 0))) =~= nd0);
    }
    let mut i: usize = 0;
    while i < n
        invariant
            0 <= i <= n,
            n == qs.len(),
            qv == crate::ir::qcs_view(qs@),
            qv.len() == n,
            needed@.to_set() == nd0.union(qcs_vars(qv.subrange(0, i as int))),
        decreases n - i,
    {
        add_qc_vars(needed, &qs[i]);
        proof {
            assert(qv.subrange(0, i + 1 as int).drop_last() =~= qv.subrange(0, i as int));
            assert(qv.subrange(0, i + 1 as int).last() == qv[i as int]);
            assert(qv[i as int] == qs@[i as int]@);
            assert(needed@.to_set() =~= nd0.union(qcs_vars(qv.subrange(0, i + 1 as int))));
        }
        i += 1;
    }
    proof {
        assert(qv.subrange(0, n as int) =~= qv);
    }
}

/// Remove every directive none of whose outputs is needed by a surviving
/// statement after it or by the program's return wires.
pub fn prune_directives(stmts: Vec<Statement>, rets: &Vec<Variable>) -> (out: Vec<Statement>)
    ensures
        stmts_view(out@) == prune_stmts(stmts_view(stmts@), rets@.to_set()).0,
{
    let ghost full = stmts_view(stmts@);
    let ghost nd0 = rets@.to_set();

    let mut needed: Vec<Variable> = Vec::new();
    let nr = rets.len();
    let mut k: usize = 0;
    while k < nr
        invariant
            0 <= k <= nr,
            nr == rets.len(),
            needed@ == rets@.subrange(0, k as int),
        decreases nr - k,
    {
        needed.push(rets[k]);
        proof {
            assert(needed@ =~= rets@.subrange(0, k + 1 as int));
        }
        k += 1;
    }
    proof {
        assert(rets@.subrange(0, nr as int) =~= rets@);
    }

    let mut rest = stmts;
    let mut kept: Vec<Statement> = Vec::new();
    proof {
        assert(stmts_view(kept@) =~= Seq::<StatementV>::empty());
        assert(prune_stmts(full, nd0).0 =~= prune_stmts(stmts_view(rest@), needed@.to_set()).0
            + stmts_view(kept@));
    }
    while rest.len() > 0
        invariant
            prune_stmts(full, nd0).0 == prune_stmts(stmts_view(rest@), needed@.to_set()).0
                + stmts_view(kept@),
        decreases rest.len(),
    {
        let ghost rest0 = rest@;
        let ghost nd_here = needed@.to_set();
        let s = rest.pop().unwrap();
        proof {
            assert(rest@ =~= rest0.drop_last());
            assert(stmts_view(rest0).last() == rest0.last()@);
            assert(stmts_view(rest@) =~= stmts_view(rest0).drop_last());
        }
        match s {
            Statement::Constraint(q, l, m) => {
                add_qc_vars(&mut needed, &q);
                add_lc_vars(&mut needed, &l);
                let ghost kept0 = kept@;
                kept.insert(0, Statement::Constraint(q, l, m));
                proof {
                    let s_v = rest0.last()@;
                    assert(stmt_live(s_v, nd_here));
                    assert(needed@.to_set() =~= nd_here.union(stmt_reads(s_v)));
                    assert(stmts_view(kept@) =~= seq![s_v] + stmts_view(kept0));
                    assert(prune_stmts(stmts_view(rest0), nd_here).0 == prune_stmts(
                        stmts_view(rest@),
                        needed@.to_set(),
                    ).0 + seq![s_v]);
                    assert(prune_stmts(full, nd0).0 =~= prune_stmts(
                        stmts_view(rest@),
                        needed@.to_set(),
                    ).0 + stmts_view(kept@));
                }
            },
            Statement::Directive(d) => {
                let live = any_needed(&needed, &d.outputs);
                proof {
                    let s_v = rest0.last()@;
                    assert(s_v == StatementV::Directive(d@));
                    assert(d@.outputs == d.outputs@);
                    lemma_outs_live_iff(d@.outputs, nd_here);
                    assert(live == stmt_live(s_v, nd_here));
                }
                if live {
                    add_qcs_vars(&mut needed, &d.inputs);
                    let ghost kept0 = kept@;
                    kept.insert(0, Statement::Directive(d));
                    proof {
                        let s_v = rest0.last()@;
                        assert(needed@.to_set() =~= nd_here.union(stmt_reads(s_v)));
                        assert(stmts_view(kept@) =~= seq![s_v] + stmts_view(kept0));
                        assert(prune_stmts(stmts_view(rest0), nd_here).0 == prune_stmts(
                            stmts_view(rest@),
                            needed@.to_set(),
                        ).0 + seq![s_v]);
                        assert(prune_stmts(full, nd0).0 =~= prune_stmts(
                            stmts_view(rest@),
                            needed@.to_set(),
                        ).0 + stmts_view(kept@));
                    }
                } else {
                    proof {
                        let s_v = rest0.last()@;
                        assert(prune_stmts(stmts_view(rest0), nd_here) == prune_stmts(
                            stmts_view(rest@),
                            needed@.to_set(),
                        ));
                    }
                }
            },
        }
    }
    proof {
        assert(stmts_view(rest@) =~= Seq::<StatementV>::empty());
        assert(prune_stmts(stmts_view(rest@), needed@.to_set()).0
            == Seq::<StatementV>::empty());
        assert(stmts_view(kept@) =~= prune_stmts(full, nd0).0);
    }
    kept
}

} // verus!
