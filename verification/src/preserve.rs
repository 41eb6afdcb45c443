//! Semantic preservation: no optimization pass gains or loses a
//! satisfying assignment. Removing a tautology, canonicalizing, pruning
//! directives and dropping duplicates keep the solution set exactly;
//! redefinition elimination keeps every satisfying assignment of the
//! input program satisfying for the output.

use vstd::prelude::*;
use vstd::arithmetic::div_mod::lemma_small_mod;
use crate::canonical::canon_lc;
use crate::canonicalizer::{qc_canon, stmt_canon, Canonicalizer};
use crate::directive::{prune_stmts, stmt_live};
use crate::duplicate::{stmt_dup, sv_dup, DuplicateOptimizer};
use crate::field::{FieldElem, FIELD_MODULUS};
use crate::folder::{run_stmts_out, run_stmts_sv, Folder};
use crate::ir::{
    asg_ok, lc_eval, lemma_lc_eval_bounds, one_lc_v, prog_sat, qc_eval, stmt_sat, stmts_sat,
    LinCombV, ProgV, QuadCombV, StatementV, Variable,
};
use crate::optimizer::optimize_spec;
use crate::redefinition::{
    init_sv, lc_subst, qc_subst, stmt_redef, subst_var, sv_redef, target_of, RedefSV,
    RedefinitionOptimizer,
};
use crate::semantics::law_canon_eval;
use crate::tautology::{is_tautology, stmt_tautology, TautologyOptimizer};

verus! {

proof fn lemma_stmts_sat_concat(x: Seq<StatementV>, y: Seq<StatementV>, a: spec_fn(Variable) -> int)
    ensures
        stmts_sat(x + y, a) <==> (stmts_sat(x, a) && stmts_sat(y, a)),
{
    if stmts_sat(x + y, a) {
        assert forall|i: int| 0 <= i < x.len() implies stmt_sat(#[trigger] x[i], a) by {
            assert((x + y)[i] == x[i]);
        }
        assert forall|i: int| 0 <= i < y.len() implies stmt_sat(#[trigger] y[i], a) by {
            assert((x + y)[x.len() + i] == y[i]);
        }
    }
    if stmts_sat(x, a) && stmts_sat(y, a) {
        assert forall|i: int| 0 <= i < (x + y).len() implies stmt_sat(#[trigger] (x + y)[i], a) by {
            if i < x.len() {
                assert((x + y)[i] == x[i]);
            } else {
                assert((x + y)[i] == y[i - x.len()]);
            }
        }
    }
}

proof fn lemma_stmts_sat_single(s: StatementV, a: spec_fn(Variable) -> int)
    ensures
        stmts_sat(seq![s], a) <==> stmt_sat(s, a),
{
    assert(seq![s][0] == s);
}

proof fn lemma_stmts_sat_head(ss: Seq<StatementV>, a: spec_fn(Variable) -> int)
    requires
        ss.len() > 0,
    ensures
        stmts_sat(ss, a) <==> (stmt_sat(ss[0], a) && stmts_sat(ss.drop_first(), a)),
{
    if stmts_sat(ss, a) {
        assert forall|i: int| 0 <= i < ss.drop_first().len() implies stmt_sat(
            #[trigger] ss.drop_first()[i],
            a,
        ) by {
            assert(ss.drop_first()[i] == ss[i + 1]);
        }
    }
    if stmt_sat(ss[0], a) && stmts_sat(ss.drop_first(), a) {
        assert forall|i: int| 0 <= i < ss.len() implies stmt_sat(#[trigger] ss[i], a) by {
            if i > 0 {
                assert(ss.drop_first()[i - 1] == ss[i]);
            }
        }
    }
}

proof fn lemma_stmts_sat_snoc(ss: Seq<StatementV>, a: spec_fn(Variable) -> int)
    requires
        ss.len() > 0,
    ensures
        stmts_sat(ss, a) <==> (stmts_sat(ss.drop_last(), a) && stmt_sat(ss.last(), a)),
{
    if stmts_sat(ss, a) {
        assert forall|i: int| 0 <= i < ss.drop_last().len() implies stmt_sat(
            #[trigger] ss.drop_last()[i],
            a,
        ) by {
            assert(ss.drop_last()[i] == ss[i]);
        }
    }
    if stmts_sat(ss.drop_last(), a) && stmt_sat(ss.last(), a) {
        assert forall|i: int| 0 <= i < ss.len() implies stmt_sat(#[trigger] ss[i], a) by {
            if i < ss.len() - 1 {
                assert(ss.drop_last()[i] == ss[i]);
            }
        }
    }
}

/// Under an admissible assignment the combination `1` has the value one.
proof fn lemma_one_lc_eval(a: spec_fn(Variable) -> int)
    requires
        asg_ok(a),
    ensures
        lc_eval(one_lc_v(), a) == 1,
{
    let m = FIELD_MODULUS as int;
    let one = one_lc_v();
    assert(one[0] == (Variable { id: crate::ir::ONE_WIRE_ID }, FieldElem { raw: 1 }));
    assert(one.drop_first() =~= Seq::<(Variable, FieldElem)>::empty());
    assert(lc_eval(one.drop_first(), a) == 0);
    assert(a(Variable { id: crate::ir::ONE_WIRE_ID }) == 1);
    assert((FieldElem { raw: 1 }).value() == 1) by {
        lemma_small_mod(1nat, FIELD_MODULUS as nat);
    }
    assert(lc_eval(one, a) == (1int * 1 + 0) % m);
    lemma_small_mod(1nat, FIELD_MODULUS as nat);
}

/// The value of a combination that is canonically a single variable with
/// coefficient one is the variable's value.
proof fn lemma_single_var_eval(l: LinCombV, x: Variable, a: spec_fn(Variable) -> int)
    requires
        asg_ok(a),
        canon_lc(l).len() == 1,
        canon_lc(l)[0].1.value() == 1,
        canon_lc(l)[0].0 == x,
    ensures
        lc_eval(l, a) == a(x),
{
    let m = FIELD_MODULUS as int;
    law_canon_eval(l, a);
    let c = canon_lc(l);
    assert(c.drop_first() =~= Seq::<(Variable, FieldElem)>::empty());
    assert(lc_eval(c.drop_first(), a) == 0);
    assert(lc_eval(c, a) == (c[0].1.value() * a(c[0].0) + 0) % m);
    assert(lc_eval(c, a) == a(x) % m);
    lemma_small_mod((a(x) as nat), FIELD_MODULUS as nat);
}

/// A tautology as written holds under every admissible assignment:
/// removing it changes no solution.
pub proof fn law_tautology_sound(q: QuadCombV, l: LinCombV, a: spec_fn(Variable) -> int)
    requires
        asg_ok(a),
        is_tautology(q, l),
    ensures
        qc_eval(q, a) == lc_eval(l, a),
{
    let m = FIELD_MODULUS as int;
    law_canon_eval(q.left, a);
    law_canon_eval(q.right, a);
    law_canon_eval(l, a);
    lemma_one_lc_eval(a);
    if canon_lc(q.left) == one_lc_v() && canon_lc(q.right) == canon_lc(l) {
        assert(lc_eval(q.left, a) == 1);
        assert(lc_eval(q.right, a) == lc_eval(l, a));
        lemma_lc_eval_bounds(l, a);
        lemma_small_mod((lc_eval(l, a) as nat), FIELD_MODULUS as nat);
        assert(qc_eval(q, a) == (1 * lc_eval(l, a)) % m);
    } else {
        assert(lc_eval(q.right, a) == 1);
        assert(lc_eval(q.left, a) == lc_eval(l, a));
        lemma_lc_eval_bounds(l, a);
        lemma_small_mod((lc_eval(l, a) as nat), FIELD_MODULUS as nat);
        assert(qc_eval(q, a) == (lc_eval(l, a) * 1) % m);
    }
}

/// Tautology elimination changes no solution, in either direction.
proof fn lemma_taut_stage(ss: Seq<StatementV>, a: spec_fn(Variable) -> int)
    requires
        asg_ok(a),
    ensures
        stmts_sat(run_stmts_out::<TautologyOptimizer>((), ss), a) <==> stmts_sat(ss, a),
    decreases ss.len(),
{
    if ss.len() == 0 {
    } else {
        let s0 = ss[0];
        let rest = ss.drop_first();
        lemma_taut_stage(rest, a);
        let out0 = stmt_tautology(s0);
        assert(run_stmts_out::<TautologyOptimizer>((), ss) == out0 + run_stmts_out::<
            TautologyOptimizer,
        >((), rest));
        lemma_stmts_sat_concat(out0, run_stmts_out::<TautologyOptimizer>((), rest), a);
        lemma_stmts_sat_head(ss, a);
        match s0 {
            StatementV::Constraint(q, l, msg) => {
                if is_tautology(q, l) {
                    law_tautology_sound(q, l, a);
                    assert(stmt_sat(s0, a));
                    assert(out0 =~= Seq::<StatementV>::empty());
                } else {
                    lemma_stmts_sat_single(s0, a);
                }
            },
            StatementV::Directive(_) => {
                lemma_stmts_sat_single(s0, a);
            },
        }
    }
}

/// A canonicalized statement is satisfied exactly when the original is.
proof fn lemma_canon_stmt_sat(s: StatementV, a: spec_fn(Variable) -> int)
    ensures
        stmts_sat(stmt_canon(s), a) <==> stmt_sat(s, a),
{
    match s {
        StatementV::Constraint(q, l, msg) => {
            law_canon_eval(q.left, a);
            law_canon_eval(q.right, a);
            law_canon_eval(l, a);
            let s2 = StatementV::Constraint(qc_canon(q), canon_lc(l), msg);
            assert(qc_eval(qc_canon(q), a) == qc_eval(q, a));
            assert(stmt_sat(s2, a) <==> stmt_sat(s, a));
            lemma_stmts_sat_single(s2, a);
        },
        StatementV::Directive(d) => {
            lemma_stmts_sat_single(stmt_canon(s)[0], a);
            assert(stmt_canon(s) =~= seq![stmt_canon(s)[0]]);
        },
    }
}

/// Canonicalization changes no solution, in either direction.
proof fn lemma_canon_stage(ss: Seq<StatementV>, a: spec_fn(Variable) -> int)
    ensures
        stmts_sat(run_stmts_out::<Canonicalizer>((), ss), a) <==> stmts_sat(ss, a),
    decreases ss.len(),
{
    if ss.len() == 0 {
    } else {
        let s0 = ss[0];
        let rest = ss.drop_first();
        lemma_canon_stage(rest, a);
        assert(run_stmts_out::<Canonicalizer>((), ss) == stmt_canon(s0) + run_stmts_out::<
            Canonicalizer,
        >((), rest));
        lemma_stmts_sat_concat(stmt_canon(s0), run_stmts_out::<Canonicalizer>((), rest), a);
        lemma_stmts_sat_head(ss, a);
        lemma_canon_stmt_sat(s0, a);
    }
}

/// Every recorded signature names a constraint the assignment satisfies.
pub open spec fn seen_ok(seen: Set<(QuadCombV, LinCombV)>, a: spec_fn(Variable) -> int) -> bool {
    forall|g: (QuadCombV, LinCombV)| seen.contains(g) ==> qc_eval(#[trigger] g.0, a) == lc_eval(
        g.1,
        a,
    )
}

/// Duplicate elimination changes no solution, in either direction: a
/// dropped constraint repeats a recorded, satisfied signature.
proof fn lemma_dup_stage(
    seen: Set<(QuadCombV, LinCombV)>,
    ss: Seq<StatementV>,
    a: spec_fn(Variable) -> int,
)
    requires
        seen_ok(seen, a),
    ensures
        stmts_sat(run_stmts_out::<DuplicateOptimizer>(seen, ss), a) <==> stmts_sat(ss, a),
    decreases ss.len(),
{
    if ss.len() == 0 {
    } else {
        let s0 = ss[0];
        let rest = ss.drop_first();
        let seen2 = sv_dup(seen, s0);
        let out0 = stmt_dup(seen, s0);
        assert(run_stmts_out::<DuplicateOptimizer>(seen, ss) == out0 + run_stmts_out::<
            DuplicateOptimizer,
        >(seen2, rest));
        lemma_stmts_sat_head(ss, a);
        lemma_stmts_sat_concat(out0, run_stmts_out::<DuplicateOptimizer>(seen2, rest), a);
        match s0 {
            StatementV::Constraint(q, l, msg) => {
                if stmt_sat(s0, a) {
                    assert(seen_ok(seen2, a)) by {
                        assert(forall|g: (QuadCombV, LinCombV)| seen2.contains(g) ==> g == (
                        q,
                        l,
                        ) || seen.contains(g));
                    }
                    lemma_dup_stage(seen2, rest, a);
                    if seen.contains((q, l)) {
                        assert(out0 =~= Seq::<StatementV>::empty());
                    } else {
                        lemma_stmts_sat_single(s0, a);
                    }
                } else {
                    // the constraint fails, and it cannot have been seen
                    assert(!seen.contains((q, l))) by {
                        if seen.contains((q, l)) {
                            let g = (q, l);
                            assert(qc_eval(g.0, a) == lc_eval(g.1, a));
                        }
                    }
                    assert(out0 == seq![s0]);
                    lemma_stmts_sat_single(s0, a);
                    assert(!stmts_sat(out0, a));
                }
            },
            StatementV::Directive(_) => {
                assert(seen2 == seen);
                lemma_dup_stage(seen2, rest, a);
                lemma_stmts_sat_single(s0, a);
            },
        }
    }
}

/// Directive pruning changes no solution, in either direction: every
/// constraint survives, and a directive constrains nothing.
proof fn lemma_prune_stage(
    ss: Seq<StatementV>,
    needed: Set<Variable>,
    a: spec_fn(Variable) -> int,
)
    ensures
        stmts_sat(prune_stmts(ss, needed).0, a) <==> stmts_sat(ss, a),
    decreases ss.len(),
{
    if ss.len() == 0 {
    } else {
        let s = ss.last();
        lemma_stmts_sat_snoc(ss, a);
        if stmt_live(s, needed) {
            let needed2 = needed.union(crate::directive::stmt_reads(s));
            lemma_prune_stage(ss.drop_last(), needed2, a);
            lemma_stmts_sat_concat(prune_stmts(ss.drop_last(), needed2).0, seq![s], a);
            lemma_stmts_sat_single(s, a);
        } else {
            lemma_prune_stage(ss.drop_last(), needed, a);
            assert(stmt_sat(s, a));
        }
    }
}

/// The invariant redefinition elimination maintains: recorded
/// substitutions only equate wires the assignment already equates.
pub open spec fn redef_inv(sv: RedefSV, a: spec_fn(Variable) -> int) -> bool {
    forall|y: Variable| sv.subst.contains_key(y) ==> a(y) == a(#[trigger] sv.subst[y])
}

/// Substitution does not change the value of a combination, for any
/// assignment respecting the recorded substitutions.
proof fn lemma_subst_lc_eval(sv: RedefSV, l: LinCombV, a: spec_fn(Variable) -> int)
    requires
        redef_inv(sv, a),
    ensures
        lc_eval(lc_subst(sv, l), a) == lc_eval(l, a),
    decreases l.len(),
{
    if l.len() == 0 {
        assert(lc_subst(sv, l) =~= Seq::<(Variable, FieldElem)>::empty());
    } else {
        lemma_subst_lc_eval(sv, l.drop_first(), a);
        let ls = lc_subst(sv, l);
        assert(ls[0] == (subst_var(sv, l[0].0), l[0].1));
        assert(ls.drop_first() =~= lc_subst(sv, l.drop_first()));
        assert(a(subst_var(sv, l[0].0)) == a(l[0].0));
    }
}

/// One step of redefinition elimination: the emitted statements hold,
/// and the substitution invariant is maintained.
proof fn lemma_redef_stmt_forward(sv: RedefSV, s: StatementV, a: spec_fn(Variable) -> int)
    requires
        asg_ok(a),
        redef_inv(sv, a),
        stmt_sat(s, a),
    ensures
        stmts_sat(stmt_redef(sv, s), a),
        redef_inv(sv_redef(sv, s), a),
{
    let m = FIELD_MODULUS as int;
    match s {
        StatementV::Constraint(q, l, msg) => {
            let q2 = qc_subst(sv, q);
            let l2 = lc_subst(sv, l);
            lemma_subst_lc_eval(sv, q.left, a);
            lemma_subst_lc_eval(sv, q.right, a);
            lemma_subst_lc_eval(sv, l, a);
            assert(qc_eval(q2, a) == qc_eval(q, a));
            assert(lc_eval(l2, a) == lc_eval(l, a));
            match target_of(sv, q2, l2) {
                Option::Some(yx) => {
                    let y = yx.0;
                    let x = yx.1;
                    assert(stmts_sat(Seq::<StatementV>::empty(), a));
                    // the eliminated constraint says exactly a(y) == a(x)
                    lemma_single_var_eval(l2, y, a);
                    law_canon_eval(q2.left, a);
                    law_canon_eval(q2.right, a);
                    lemma_one_lc_eval(a);
                    if canon_lc(q2.left) == one_lc_v() {
                        lemma_single_var_eval(q2.right, x, a);
                        lemma_small_mod((a(x) as nat), FIELD_MODULUS as nat);
                        assert(qc_eval(q2, a) == (1 * a(x)) % m);
                        assert(qc_eval(q2, a) == a(x));
                    } else {
                        lemma_single_var_eval(q2.left, x, a);
                        lemma_small_mod((a(x) as nat), FIELD_MODULUS as nat);
                        assert(qc_eval(q2, a) == (a(x) * 1) % m);
                        assert(qc_eval(q2, a) == a(x));
                    }
                    assert(a(y) == a(x));
                    assert(redef_inv(sv_redef(sv, s), a)) by {
                        assert(sv_redef(sv, s).subst == sv.subst.insert(y, x));
                    }
                },
                Option::None => {
                    let s2 = StatementV::Constraint(q2, l2, msg);
                    assert(stmt_sat(s2, a));
                    lemma_stmts_sat_single(s2, a);
                },
            }
        },
        StatementV::Directive(d) => {
            lemma_stmts_sat_single(stmt_redef(sv, s)[0], a);
            assert(stmt_redef(sv, s) =~= seq![stmt_redef(sv, s)[0]]);
        },
    }
}

/// Redefinition elimination loses no solution: a satisfying assignment
/// of the input satisfies everything the pass emits.
proof fn lemma_redef_stage(sv: RedefSV, ss: Seq<StatementV>, a: spec_fn(Variable) -> int)
    requires
        asg_ok(a),
        redef_inv(sv, a),
        stmts_sat(ss, a),
    ensures
        stmts_sat(run_stmts_out::<RedefinitionOptimizer>(sv, ss), a),
        redef_inv(run_stmts_sv::<RedefinitionOptimizer>(sv, ss), a),
    decreases ss.len(),
{
    if ss.len() == 0 {
    } else {
        let s0 = ss[0];
        let rest = ss.drop_first();
        lemma_stmts_sat_head(ss, a);
        lemma_redef_stmt_forward(sv, s0, a);
        lemma_redef_stage(sv_redef(sv, s0), rest, a);
        lemma_stmts_sat_concat(
            stmt_redef(sv, s0),
            run_stmts_out::<RedefinitionOptimizer>(sv_redef(sv, s0), rest),
            a,
        );
    }
}

/// Semantic preservation, forward: every admissible assignment that
/// satisfies the input program satisfies the optimized program.
pub proof fn law_optimize_sound(p: ProgV, a: spec_fn(Variable) -> int)
    requires
        asg_ok(a),
        prog_sat(p, a),
    ensures
        prog_sat(optimize_spec(p), a),
{
    let sv0 = init_sv(p);
    let s1 = run_stmts_out::<RedefinitionOptimizer>(sv0, p.statements);
    let s2 = run_stmts_out::<TautologyOptimizer>((), s1);
    let s3 = run_stmts_out::<Canonicalizer>((), s2);
    let rets = p.returns.map_values(
        |v: Variable| subst_var(run_stmts_sv::<RedefinitionOptimizer>(sv0, p.statements), v),
    );
    let s4 = prune_stmts(s3, rets.to_set()).0;
    assert(redef_inv(sv0, a));
    lemma_redef_stage(sv0, p.statements, a);
    lemma_taut_stage(s1, a);
    lemma_canon_stage(s2, a);
    lemma_prune_stage(s3, rets.to_set(), a);
    lemma_dup_stage(Set::<(QuadCombV, LinCombV)>::empty(), s4, a);
}

/// Semantic preservation, both ways, after redefinition elimination: the
/// last four passes neither gain nor lose a satisfying assignment.
pub proof fn law_later_passes_exact(p: ProgV, a: spec_fn(Variable) -> int)
    requires
        asg_ok(a),
    ensures
        stmts_sat(optimize_spec(p).statements, a) <==> stmts_sat(
            run_stmts_out::<RedefinitionOptimizer>(init_sv(p), p.statements),
            a,
        ),
{
    let sv0 = init_sv(p);
    let s1 = run_stmts_out::<RedefinitionOptimizer>(sv0, p.statements);
    let s2 = run_stmts_out::<TautologyOptimizer>((), s1);
    let s3 = run_stmts_out::<Canonicalizer>((), s2);
    let rets = p.returns.map_values(
        |v: Variable| subst_var(run_stmts_sv::<RedefinitionOptimizer>(sv0, p.statements), v),
    );
    let s4 = prune_stmts(s3, rets.to_set()).0;
    lemma_taut_stage(s1, a);
    lemma_canon_stage(s2, a);
    lemma_prune_stage(s3, rets.to_set(), a);
    lemma_dup_stage(Set::<(QuadCombV, LinCombV)>::empty(), s4, a);
}

/// Argument and directive-output protection: a constraint whose result
/// side is a protected wire is never eliminated, whatever its shape.
pub proof fn law_protection(sv: RedefSV, q: QuadCombV, l: LinCombV, msg: Option<Seq<char>>)
    requires
        (match crate::redefinition::lc_single_var(lc_subst(sv, l)) {
            Option::Some(y) => sv.protected.contains(y),
            Option::None => true,
        }),
    ensures
        stmt_redef(sv, StatementV::Constraint(q, l, msg)) == seq![
            StatementV::Constraint(qc_subst(sv, q), lc_subst(sv, l), msg),
        ],
{
}

/// Every program argument is protected from the start.
pub proof fn law_arguments_protected(p: ProgV, i: int)
    requires
        0 <= i < p.arguments.len(),
    ensures
        init_sv(p).protected.contains(p.arguments[i].id),
{
    let ids = p.arguments.map_values(|a: crate::ir::Parameter| a.id);
    assert(ids[i] == p.arguments[i].id);
    assert(ids.contains(ids[i]));
}

/// A directive protects its output wires for all later statements.
pub proof fn law_directive_outputs_protected(sv: RedefSV, d: crate::ir::DirectiveV, i: int)
    requires
        0 <= i < d.outputs.len(),
    ensures
        sv_redef(sv, StatementV::Directive(d)).protected.contains(
            crate::redefinition::dir_subst(sv, d).outputs[i],
        ),
{
    let outs = crate::redefinition::dir_subst(sv, d).outputs;
    assert(outs.contains(outs[i]));
}

/// Dead-directive elimination, exactly: a trailing directive is removed
/// when no output of it is needed afterwards, and kept when one is.
pub proof fn law_directive_pruning(ss: Seq<StatementV>, needed: Set<Variable>, d: crate::ir::DirectiveV)
    ensures
        prune_stmts(ss.push(StatementV::Directive(d)), needed).0 == (if stmt_live(
            StatementV::Directive(d),
            needed,
        ) {
            prune_stmts(ss, needed.union(crate::directive::stmt_reads(StatementV::Directive(d)))).0
                + seq![StatementV::Directive(d)]
        } else {
            prune_stmts(ss, needed).0
        }),
{
    let t = ss.push(StatementV::Directive(d));
    assert(t.last() == StatementV::Directive(d));
    assert(t.drop_last() =~= ss);
}

/// Directive pruning is idempotent: liveness is computed from the
/// surviving statements alone, so pruning the pruned run removes
/// nothing further.
pub proof fn law_prune_idempotent(ss: Seq<StatementV>, needed: Set<Variable>)
    ensures
        prune_stmts(prune_stmts(ss, needed).0, needed).0 == prune_stmts(ss, needed).0,
    decreases ss.len(),
{
    if ss.len() == 0 {
    } else {
        let s = ss.last();
        let dl = ss.drop_last();
        if stmt_live(s, needed) {
            let n2 = needed.union(crate::directive::stmt_reads(s));
            let pre = prune_stmts(dl, n2).0;
            law_prune_idempotent(dl, n2);
            let out = pre + seq![s];
            assert(out.len() > 0);
            assert(out.last() == s);
            assert(out.drop_last() =~= pre);
            assert(prune_stmts(out, needed).0 == prune_stmts(pre, n2).0 + seq![s]);
        } else {
            law_prune_idempotent(dl, needed);
        }
    }
}

/// Tautology elimination is idempotent: what it emits, it emits
/// unchanged, and it never emits a tautology.
pub proof fn law_tautology_idempotent(ss: Seq<StatementV>)
    ensures
        run_stmts_out::<TautologyOptimizer>(
            (),
            run_stmts_out::<TautologyOptimizer>((), ss),
        ) == run_stmts_out::<TautologyOptimizer>((), ss),
    decreases ss.len(),
{
    if ss.len() == 0 {
        assert(run_stmts_out::<TautologyOptimizer>((), ss) =~= Seq::<StatementV>::empty());
    } else {
        let s0 = ss[0];
        let rest = ss.drop_first();
        law_tautology_idempotent(rest);
        let out0 = stmt_tautology(s0);
        let out_rest = run_stmts_out::<TautologyOptimizer>((), rest);
        assert(run_stmts_out::<TautologyOptimizer>((), ss) == out0 + out_rest);
        crate::folder::lemma_run_stmts_concat::<TautologyOptimizer>((), out0, out_rest);
        match s0 {
            StatementV::Constraint(q, l, msg) => {
                if is_tautology(q, l) {
                    assert(out0 =~= Seq::<StatementV>::empty());
                    assert(out0 + out_rest =~= out_rest);
                } else {
                    assert(out0 == seq![s0]);
                    assert(out0[0] == s0);
                    assert(out0.drop_first() =~= Seq::<StatementV>::empty());
                    assert(run_stmts_out::<TautologyOptimizer>((), out0)
                        == stmt_tautology(s0) + run_stmts_out::<TautologyOptimizer>(
                        (),
                        Seq::<StatementV>::empty(),
                    ));
                    assert(run_stmts_out::<TautologyOptimizer>((), out0) =~= out0);
                }
            },
            StatementV::Directive(_) => {
                assert(out0 == seq![s0]);
                assert(out0[0] == s0);
                assert(out0.drop_first() =~= Seq::<StatementV>::empty());
                assert(run_stmts_out::<TautologyOptimizer>((), out0)
                    == stmt_tautology(s0) + run_stmts_out::<TautologyOptimizer>(
                    (),
                    Seq::<StatementV>::empty(),
                ));
                assert(run_stmts_out::<TautologyOptimizer>((), out0) =~= out0);
            },
        }
    }
}

/// A canonicalized statement canonicalizes to itself.
proof fn lemma_stmt_canon_idempotent(s: StatementV)
    ensures
        run_stmts_out::<Canonicalizer>((), stmt_canon(s)) == stmt_canon(s),
{
    let out = stmt_canon(s);
    match s {
        StatementV::Constraint(q, l, msg) => {
            crate::semantics::law_canon_idempotent(q.left);
            crate::semantics::law_canon_idempotent(q.right);
            crate::semantics::law_canon_idempotent(l);
            let s2 = out[0];
            assert(out.drop_first() =~= Seq::<StatementV>::empty());
            assert(run_stmts_out::<Canonicalizer>((), out) == stmt_canon(s2)
                + run_stmts_out::<Canonicalizer>((), Seq::<StatementV>::empty()));
            assert(qc_canon(qc_canon(q)) =~= qc_canon(q));
            assert(stmt_canon(s2) =~= out);
            assert(run_stmts_out::<Canonicalizer>((), out) =~= out);
        },
        StatementV::Directive(d) => {
            let d2 = crate::canonicalizer::dir_canon(d);
            let s2 = out[0];
            assert(s2 == StatementV::Directive(d2));
            assert(out.drop_first() =~= Seq::<StatementV>::empty());
            assert(run_stmts_out::<Canonicalizer>((), out) == stmt_canon(s2)
                + run_stmts_out::<Canonicalizer>((), Seq::<StatementV>::empty()));
            let mapped = d2.inputs.map_values(|q: crate::ir::QuadCombV| qc_canon(q));
            assert(crate::canonicalizer::dir_canon(d2) =~= d2) by {
                assert forall|i: int| 0 <= i < d2.inputs.len() implies #[trigger] mapped[i]
                    == d2.inputs[i] by {
                    let q0 = d.inputs[i];
                    assert(d2.inputs[i] == qc_canon(q0));
                    crate::semantics::law_canon_idempotent(q0.left);
                    crate::semantics::law_canon_idempotent(q0.right);
                    assert(qc_canon(qc_canon(q0)) =~= qc_canon(q0));
                }
                assert(mapped =~= d2.inputs);
            }
            assert(stmt_canon(s2) =~= out);
            assert(run_stmts_out::<Canonicalizer>((), out) =~= out);
        },
    }
}

/// Canonicalization is idempotent over a whole statement run.
pub proof fn law_canonicalization_idempotent(ss: Seq<StatementV>)
    ensures
        run_stmts_out::<Canonicalizer>((), run_stmts_out::<Canonicalizer>((), ss))
            == run_stmts_out::<Canonicalizer>((), ss),
    decreases ss.len(),
{
    if ss.len() == 0 {
        assert(run_stmts_out::<Canonicalizer>((), ss) =~= Seq::<StatementV>::empty());
    } else {
        let s0 = ss[0];
        let rest = ss.drop_first();
        law_canonicalization_idempotent(rest);
        let out0 = stmt_canon(s0);
        let out_rest = run_stmts_out::<Canonicalizer>((), rest);
        assert(run_stmts_out::<Canonicalizer>((), ss) == out0 + out_rest);
        crate::folder::lemma_run_stmts_concat::<Canonicalizer>((), out0, out_rest);
        lemma_stmt_canon_idempotent(s0);
    }
}

/// The signature duplicate elimination records for a statement.
pub open spec fn stmt_sig(s: StatementV) -> Option<(QuadCombV, LinCombV)> {
    match s {
        StatementV::Constraint(q, l, _) => Option::Some((q, l)),
        StatementV::Directive(_) => Option::None,
    }
}

/// No constraint of the run repeats a recorded signature.
pub open spec fn sigs_fresh(ss: Seq<StatementV>, seen: Set<(QuadCombV, LinCombV)>) -> bool {
    forall|i: int| 0 <= i < ss.len() ==> ((#[trigger] stmt_sig(ss[i])) is Some
        ==> !seen.contains(stmt_sig(ss[i])->Some_0))
}

/// No two constraints of the run share a signature.
pub open spec fn sigs_distinct(ss: Seq<StatementV>) -> bool {
    forall|i: int, j: int| 0 <= i < j < ss.len() ==> (((#[trigger] stmt_sig(ss[i])) is Some
        && (#[trigger] stmt_sig(ss[j])) is Some) ==> stmt_sig(ss[i]) != stmt_sig(ss[j]))
}

/// What duplicate elimination emits repeats no recorded signature and
/// holds no signature twice.
proof fn lemma_dup_output_fresh(seen: Set<(QuadCombV, LinCombV)>, ss: Seq<StatementV>)
    ensures
        sigs_fresh(run_stmts_out::<DuplicateOptimizer>(seen, ss), seen),
        sigs_distinct(run_stmts_out::<DuplicateOptimizer>(seen, ss)),
    decreases ss.len(),
{
    let out = run_stmts_out::<DuplicateOptimizer>(seen, ss);
    if ss.len() == 0 {
        assert(out =~= Seq::<StatementV>::empty());
    } else {
        let s0 = ss[0];
        let rest = ss.drop_first();
        let seen2 = sv_dup(seen, s0);
        let out0 = stmt_dup(seen, s0);
        let outr = run_stmts_out::<DuplicateOptimizer>(seen2, rest);
        lemma_dup_output_fresh(seen2, rest);
        assert(out == out0 + outr);
        assert(forall|g: (QuadCombV, LinCombV)| seen.contains(g) ==> seen2.contains(g));
        assert forall|i: int| 0 <= i < out.len() implies ((#[trigger] stmt_sig(out[i])) is Some
            ==> !seen.contains(stmt_sig(out[i])->Some_0)) by {
            if i < out0.len() {
                assert(out[i] == out0[i]);
            } else {
                assert(out[i] == outr[i - out0.len()]);
                assert(stmt_sig(outr[i - out0.len()]) is Some ==> !seen2.contains(
                    stmt_sig(outr[i - out0.len()])->Some_0,
                ));
            }
        }
        assert forall|i: int, j: int| 0 <= i < j < out.len() implies (((
        #[trigger] stmt_sig(out[i])) is Some && (#[trigger] stmt_sig(out[j])) is Some)
            ==> stmt_sig(out[i]) != stmt_sig(out[j])) by {
            if i < out0.len() {
                assert(out[i] == out0[i]);
                assert(out[j] == outr[j - out0.len()]);
                match s0 {
                    StatementV::Constraint(q, l, _) => {
                        assert(seen2.contains((q, l)));
                    },
                    StatementV::Directive(_) => {
                    },
                }
            } else {
                assert(out[i] == outr[i - out0.len()]);
                assert(out[j] == outr[j - out0.len()]);
            }
        }
    }
}

/// Duplicate elimination passes a run without repeated or recorded
/// signatures through unchanged.
proof fn lemma_dup_identity(seen: Set<(QuadCombV, LinCombV)>, ss: Seq<StatementV>)
    requires
        sigs_fresh(ss, seen),
        sigs_distinct(ss),
    ensures
        run_stmts_out::<DuplicateOptimizer>(seen, ss) == ss,
    decreases ss.len(),
{
    if ss.len() == 0 {
        assert(run_stmts_out::<DuplicateOptimizer>(seen, ss) =~= ss);
    } else {
        let s0 = ss[0];
        let rest = ss.drop_first();
        let seen2 = sv_dup(seen, s0);
        assert(forall|i: int| 0 <= i < rest.len() ==> #[trigger] rest[i] == ss[i + 1]);
        assert(sigs_distinct(rest));
        match s0 {
            StatementV::Constraint(q, l, _) => {
                assert(stmt_sig(ss[0]) is Some);
                assert(!seen.contains((q, l)));
                assert(stmt_dup(seen, s0) == seq![s0]);
                assert(sigs_fresh(rest, seen2)) by {
                    assert forall|i: int| 0 <= i < rest.len() implies ((
                    #[trigger] stmt_sig(rest[i])) is Some ==> !seen2.contains(
                        stmt_sig(rest[i])->Some_0,
                    )) by {
                        if stmt_sig(rest[i]) is Some {
                            assert(stmt_sig(ss[i + 1]) is Some);
                            assert(stmt_sig(ss[i + 1]) != stmt_sig(ss[0]));
                        }
                    }
                }
                lemma_dup_identity(seen2, rest);
                assert(run_stmts_out::<DuplicateOptimizer>(seen, ss) =~= ss);
            },
            StatementV::Directive(_) => {
                assert(seen2 == seen);
                assert(sigs_fresh(rest, seen));
                lemma_dup_identity(seen, rest);
                assert(stmt_dup(seen, s0) == seq![s0]);
                assert(run_stmts_out::<DuplicateOptimizer>(seen, ss) =~= ss);
            },
        }
    }
}

/// Duplicate elimination is idempotent.
pub proof fn law_duplicate_idempotent(ss: Seq<StatementV>)
    ensures
        run_stmts_out::<DuplicateOptimizer>(
            Set::<(QuadCombV, LinCombV)>::empty(),
            run_stmts_out::<DuplicateOptimizer>(Set::<(QuadCombV, LinCombV)>::empty(), ss),
        ) == run_stmts_out::<DuplicateOptimizer>(Set::<(QuadCombV, LinCombV)>::empty(), ss),
{
    let seen0 = Set::<(QuadCombV, LinCombV)>::empty();
    lemma_dup_output_fresh(seen0, ss);
    lemma_dup_identity(seen0, run_stmts_out::<DuplicateOptimizer>(seen0, ss));
}

/// Pruning a concatenation: the suffix is pruned first, and the prefix
/// is pruned under the wires the surviving suffix needs.
proof fn lemma_prune_append(a: Seq<StatementV>, b: Seq<StatementV>, needed: Set<Variable>)
    ensures
        prune_stmts(a + b, needed).0 == prune_stmts(a, prune_stmts(b, needed).1).0
            + prune_stmts(b, needed).0,
        prune_stmts(a + b, needed).1 == prune_stmts(a, prune_stmts(b, needed).1).1,
    decreases b.len(),
{
    if b.len() == 0 {
        assert(a + b =~= a);
        assert(prune_stmts(b, needed) == (b, needed));
        assert(prune_stmts(a, needed).0 + b =~= prune_stmts(a, needed).0);
    } else {
        let s = b.last();
        assert((a + b).len() > 0);
        assert((a + b).last() == s);
        assert((a + b).drop_last() =~= a + b.drop_last());
        if stmt_live(s, needed) {
            let n2 = needed.union(crate::directive::stmt_reads(s));
            lemma_prune_append(a, b.drop_last(), n2);
            assert(prune_stmts(a + b, needed).0 == prune_stmts(a + b.drop_last(), n2).0
                + seq![s]);
            assert(prune_stmts(a, prune_stmts(b.drop_last(), n2).1).0 + (prune_stmts(
                b.drop_last(),
                n2,
            ).0 + seq![s]) =~= (prune_stmts(a, prune_stmts(b.drop_last(), n2).1).0
                + prune_stmts(b.drop_last(), n2).0) + seq![s]);
        } else {
            lemma_prune_append(a, b.drop_last(), needed);
        }
    }
}

/// Dead-directive elimination at any position: a directive standing
/// anywhere in the run is removed exactly when none of its outputs is
/// needed by the surviving statements after it or the seed wires, and
/// kept, in place, when one is.
pub proof fn law_directive_pruning_at(
    xs: Seq<StatementV>,
    d: crate::ir::DirectiveV,
    ys: Seq<StatementV>,
    needed: Set<Variable>,
)
    ensures
        ({
            let after = prune_stmts(ys, needed).1;
            prune_stmts(xs + seq![StatementV::Directive(d)] + ys, needed).0 == (if stmt_live(
                StatementV::Directive(d),
                after,
            ) {
                prune_stmts(
                    xs,
                    after.union(crate::directive::stmt_reads(StatementV::Directive(d))),
                ).0 + seq![StatementV::Directive(d)] + prune_stmts(ys, needed).0
            } else {
                prune_stmts(xs, after).0 + prune_stmts(ys, needed).0
            })
        }),
{
    let sd = seq![StatementV::Directive(d)];
    let after = prune_stmts(ys, needed).1;
    lemma_prune_append(xs + sd, ys, needed);
    lemma_prune_append(xs, sd, after);
    assert(sd.len() == 1);
    assert(sd.last() == StatementV::Directive(d));
    assert(sd.drop_last() =~= Seq::<StatementV>::empty());
    if stmt_live(StatementV::Directive(d), after) {
        let n2 = after.union(crate::directive::stmt_reads(StatementV::Directive(d)));
        assert(prune_stmts(Seq::<StatementV>::empty(), n2) == (
            Seq::<StatementV>::empty(),
            n2,
        ));
        assert(prune_stmts(sd, after).0 =~= sd);
        assert(prune_stmts(sd, after).1 == n2);
        assert(prune_stmts(xs + sd, after).0 =~= prune_stmts(xs, n2).0 + sd);
        assert((prune_stmts(xs, n2).0 + sd) + prune_stmts(ys, needed).0 =~= prune_stmts(
            xs,
            n2,
        ).0 + sd + prune_stmts(ys, needed).0);
    } else {
        assert(prune_stmts(Seq::<StatementV>::empty(), after) == (
            Seq::<StatementV>::empty(),
            after,
        ));
        assert(prune_stmts(sd, after).0 =~= Seq::<StatementV>::empty());
        assert(prune_stmts(sd, after).1 == after);
        assert(prune_stmts(xs + sd, after).0 =~= prune_stmts(xs, after).0);
    }
}

} // verus!
