//! Generic walk through the IR, not mutating in place.
//!
//! A pass implements `Folder`, describing its observable behaviour through
//! spec members over an abstract pass state `SV`: how it maps variables,
//! combinations and directives, and what statements it emits for each
//! consumed statement. Overriding one node kind never requires
//! reimplementing the traversal of any other: the free `fold_*` functions
//! are the default structural recursion for each kind, and an
//! implementation delegates to them wherever it has nothing special to do.

use vstd::prelude::*;
use crate::ir::{
    lemma_qcs_view, lemma_stmts_view, qcs_view, stmts_view, Directive, DirectiveV, LinComb,
    LinCombV, Parameter, Prog, ProgV, QuadComb, QuadCombV, Statement, StatementV, Variable,
};

verus! {

broadcast use lemma_stmts_view, lemma_qcs_view;

/// The tree-rewrite contract over the flattened IR. Infallible: by the
/// stage it runs, the program is fully type-checked and flattened.
/// A whole module is folded by the free `fold_module`, which drives the
/// pass's operations over arguments, statements and return wires.
pub trait Folder: Sized {
    /// The abstract state of the pass.
    type SV;

    /// The abstract view of the pass's current state.
    spec fn sv(&self) -> Self::SV;

    /// How the pass maps an argument, as a function of its state.
    spec fn arg_map(sv: Self::SV, a: Parameter) -> Parameter;

    /// How the pass maps a variable occurrence.
    spec fn var_map(sv: Self::SV, v: Variable) -> Variable;

    /// How the pass maps a linear combination.
    spec fn lc_map(sv: Self::SV, l: LinCombV) -> LinCombV;

    /// How the pass maps a quadratic combination.
    spec fn qc_map(sv: Self::SV, q: QuadCombV) -> QuadCombV;

    /// How the pass maps a directive.
    spec fn dir_map(sv: Self::SV, d: DirectiveV) -> DirectiveV;

    /// The zero, one or many statements the pass emits for one consumed
    /// statement.
    spec fn stmt_out(sv: Self::SV, s: StatementV) -> Seq<StatementV>;

    /// The state of the pass after consuming one statement.
    spec fn stmt_sv(sv: Self::SV, s: StatementV) -> Self::SV;

    fn fold_argument(&mut self, a: Parameter) -> (r: Parameter)
        ensures
            final(self).sv() == old(self).sv(),
            r == Self::arg_map(old(self).sv(), a),
    ;

    fn fold_variable(&mut self, v: Variable) -> (r: Variable)
        ensures
            final(self).sv() == old(self).sv(),
            r == Self::var_map(old(self).sv(), v),
    ;

    fn fold_linear_combination(&mut self, l: LinComb) -> (r: LinComb)
        ensures
            final(self).sv() == old(self).sv(),
            r@ == Self::lc_map(old(self).sv(), l@),
    ;

    fn fold_quadratic_combination(&mut self, q: QuadComb) -> (r: QuadComb)
        ensures
            final(self).sv() == old(self).sv(),
            r@ == Self::qc_map(old(self).sv(), q@),
    ;

    fn fold_directive(&mut self, d: Directive) -> (r: Directive)
        ensures
            final(self).sv() == old(self).sv(),
            r@ == Self::dir_map(old(self).sv(), d@),
    ;

    fn fold_statement(&mut self, s: Statement) -> (out: Vec<Statement>)
        ensures
            final(self).sv() == Self::stmt_sv(old(self).sv(), s@),
            stmts_view(out@) == Self::stmt_out(old(self).sv(), s@),
    ;

}

/// The default mapping of an argument: its wire through the pass's
/// variable map, its visibility untouched.
pub open spec fn default_arg_map<F: Folder>(sv: F::SV, a: Parameter) -> Parameter {
    Parameter { id: F::var_map(sv, a.id), private: a.private }
}

/// The default mapping of a linear combination: every variable occurrence
/// through the pass's variable map, coefficients untouched.
pub open spec fn default_lc_map<F: Folder>(sv: F::SV, l: LinCombV) -> LinCombV {
    l.map_values(|t: (Variable, crate::field::FieldElem)| (F::var_map(sv, t.0), t.1))
}

/// The default mapping of a quadratic combination: both sides through the
/// pass's linear-combination map.
pub open spec fn default_qc_map<F: Folder>(sv: F::SV, q: QuadCombV) -> QuadCombV {
    QuadCombV { left: F::lc_map(sv, q.left), right: F::lc_map(sv, q.right) }
}

/// The default mapping of a directive: inputs through the quadratic map,
/// outputs through the variable map, the solver untouched.
pub open spec fn default_dir_map<F: Folder>(sv: F::SV, d: DirectiveV) -> DirectiveV {
    DirectiveV {
        inputs: d.inputs.map_values(|q: QuadCombV| F::qc_map(sv, q)),
        outputs: d.outputs.map_values(|v: Variable| F::var_map(sv, v)),
        solver: d.solver,
    }
}

/// The default statement fold: one statement out per statement in, with
/// the children rewritten through the pass's maps.
pub open spec fn default_stmt_out<F: Folder>(sv: F::SV, s: StatementV) -> Seq<StatementV> {
    match s {
        StatementV::Constraint(q, l, m) => seq![
            StatementV::Constraint(F::qc_map(sv, q), F::lc_map(sv, l), m),
        ],
        StatementV::Directive(d) => seq![StatementV::Directive(F::dir_map(sv, d))],
    }
}

/// The pass state after consuming a sequence of statements.
pub open spec fn run_stmts_sv<F: Folder>(sv: F::SV, ss: Seq<StatementV>) -> F::SV
    decreases ss.len(),
{
    if ss.len() == 0 {
        sv
    } else {
        run_stmts_sv::<F>(F::stmt_sv(sv, ss[0]), ss.drop_first())
    }
}

/// The statements a pass emits for a sequence of consumed statements.
pub open spec fn run_stmts_out<F: Folder>(sv: F::SV, ss: Seq<StatementV>) -> Seq<StatementV>
    decreases ss.len(),
{
    if ss.len() == 0 {
        Seq::<StatementV>::empty()
    } else {
        F::stmt_out(sv, ss[0]) + run_stmts_out::<F>(F::stmt_sv(sv, ss[0]), ss.drop_first())
    }
}

/// What folding a whole module yields: arguments mapped under the initial
/// state, statements expanded in order, return variables mapped under the
/// final state, so substitutions are visible at the program boundary.
pub open spec fn module_map<F: Folder>(sv: F::SV, p: ProgV) -> ProgV {
    ProgV {
        arguments: p.arguments.map_values(|a: Parameter| F::arg_map(sv, a)),
        statements: run_stmts_out::<F>(sv, p.statements),
        returns: p.returns.map_values(
            |v: Variable| F::var_map(run_stmts_sv::<F>(sv, p.statements), v),
        ),
    }
}

/// Consuming one more statement extends the emitted sequence at its end.
pub proof fn lemma_run_stmts_snoc<F: Folder>(sv: F::SV, ss: Seq<StatementV>, s: StatementV)
    ensures
        run_stmts_sv::<F>(sv, ss.push(s)) == F::stmt_sv(run_stmts_sv::<F>(sv, ss), s),
        run_stmts_out::<F>(sv, ss.push(s)) == run_stmts_out::<F>(sv, ss) + F::stmt_out(
            run_stmts_sv::<F>(sv, ss),
            s,
        ),
    decreases ss.len(),
{
    let t = ss.push(s);
    if ss.len() == 0 {
        assert(t[0] == s);
        assert(t.drop_first() =~= Seq::<StatementV>::empty());
        assert(run_stmts_sv::<F>(F::stmt_sv(sv, s), Seq::<StatementV>::empty()) == F::stmt_sv(
            sv,
            s,
        ));
        assert(run_stmts_out::<F>(F::stmt_sv(sv, s), Seq::<StatementV>::empty())
            == Seq::<StatementV>::empty());
        assert(run_stmts_out::<F>(sv, t) == F::stmt_out(sv, s) + Seq::<StatementV>::empty());
        assert(run_stmts_out::<F>(sv, t) =~= run_stmts_out::<F>(sv, ss) + F::stmt_out(
            run_stmts_sv::<F>(sv, ss),
            s,
        ));
    } else {
        lemma_run_stmts_snoc::<F>(F::stmt_sv(sv, ss[0]), ss.drop_first(), s);
        assert(t.drop_first() =~= ss.drop_first().push(s));
        assert(t[0] == ss[0]);
        assert(run_stmts_sv::<F>(sv, t) == run_stmts_sv::<F>(
            F::stmt_sv(sv, ss[0]),
            ss.drop_first().push(s),
        ));
        assert(run_stmts_out::<F>(sv, t) == F::stmt_out(sv, ss[0]) + run_stmts_out::<F>(
            F::stmt_sv(sv, ss[0]),
            ss.drop_first().push(s),
        ));
        assert(run_stmts_out::<F>(sv, t) =~= run_stmts_out::<F>(sv, ss) + F::stmt_out(
            run_stmts_sv::<F>(sv, ss),
            s,
        ));
    }
}

/// A pass's run over a concatenation is its run over the first part
/// followed by its run, from the reached state, over the second.
pub proof fn lemma_run_stmts_concat<F: Folder>(sv: F::SV, xs: Seq<StatementV>, ys: Seq<StatementV>)
    ensures
        run_stmts_sv::<F>(sv, xs + ys) == run_stmts_sv::<F>(run_stmts_sv::<F>(sv, xs), ys),
        run_stmts_out::<F>(sv, xs + ys) == run_stmts_out::<F>(sv, xs) + run_stmts_out::<F>(
            run_stmts_sv::<F>(sv, xs),
            ys,
        ),
    decreases ys.len(),
{
    if ys.len() == 0 {
        assert(xs + ys =~= xs);
        assert(run_stmts_out::<F>(sv, xs + ys) =~= run_stmts_out::<F>(sv, xs) + run_stmts_out::<
            F,
        >(run_stmts_sv::<F>(sv, xs), ys));
    } else {
        assert(xs + ys =~= (xs.push(ys[0])) + ys.drop_first());
        lemma_run_stmts_snoc::<F>(sv, xs, ys[0]);
        lemma_run_stmts_concat::<F>(sv, xs.push(ys[0]), ys.drop_first());
        assert(run_stmts_out::<F>(sv, xs + ys) =~= run_stmts_out::<F>(sv, xs) + run_stmts_out::<
            F,
        >(run_stmts_sv::<F>(sv, xs), ys));
    }
}

/// Default structural fold of an argument.
pub fn fold_argument<F: Folder>(f: &mut F, a: Parameter) -> (r: Parameter)
    ensures
        final(f).sv() == old(f).sv(),
        r == default_arg_map::<F>(old(f).sv(), a),
{
    let id = f.fold_variable(a.id);
    Parameter { id, private: a.private }
}

/// Default fold of a variable: the identity.
pub fn fold_variable<F: Folder>(_f: &mut F, v: Variable) -> (r: Variable)
    ensures
        r == v,
{
    v
}

/// Default structural fold of a linear combination: every variable
/// occurrence is routed through the pass's `fold_variable`.
pub fn fold_linear_combination<F: Folder>(f: &mut F, l: LinComb) -> (r: LinComb)
    ensures
        final(f).sv() == old(f).sv(),
        r@ == default_lc_map::<F>(old(f).sv(), l@),
{
    let ghost sv0 = f.sv();
    let n = l.0.len();
    let mut out: Vec<(Variable, crate::field::FieldElem)> = Vec::new();
    let mut i: usize = 0;
    while i < n
        invariant
            0 <= i <= n,
            n == l.0.len(),
            f.sv() == sv0,
            out@ == default_lc_map::<F>(sv0, l@.subrange(0, i as int)),
        decreases n - i,
    {
        let t = l.0[i];
        let v = f.fold_variable(t.0);
        out.push((v, t.1));
        proof {
            assert(l@.subrange(0, i + 1 as int) =~= l@.subrange(0, i as int).push(l@[i as int]));
            assert(out@ =~= default_lc_map::<F>(sv0, l@.subrange(0, i + 1 as int)));
        }
        i += 1;
    }
    proof {
        assert(l@.subrange(0, n as int) =~= l@);
    }
    LinComb(out)
}

/// Default structural fold of a quadratic combination.
pub fn fold_quadratic_combination<F: Folder>(f: &mut F, q: QuadComb) -> (r: QuadComb)
    ensures
        final(f).sv() == old(f).sv(),
        r@ == default_qc_map::<F>(old(f).sv(), q@),
{
    let left = f.fold_linear_combination(q.left);
    let right = f.fold_linear_combination(q.right);
    QuadComb { left, right }
}

/// Default structural fold of a directive.
pub fn fold_directive<F: Folder>(f: &mut F, d: Directive) -> (r: Directive)
    ensures
        final(f).sv() == old(f).sv(),
        r@ == default_dir_map::<F>(old(f).sv(), d@),
{
    let ghost sv0 = f.sv();
    let ghost dv = d@;
    let Directive { inputs, outputs, solver } = d;
    let mut inputs = inputs;
    let n = inputs.len();
    let mut new_inputs: Vec<QuadComb> = Vec::new();
    proof {
        assert(qcs_view(inputs@) == dv.inputs);
        assert(dv.inputs.subrange(0, n as int) =~= dv.inputs);
        assert(dv.inputs.subrange(0, 0) =~= Seq::<QuadCombV>::empty());
        assert(qcs_view(new_inputs@) =~= Seq::<QuadCombV>::empty());
    }
    let mut i: usize = 0;
    while i < n
        invariant
            0 <= i <= n,
            n == dv.inputs.len(),
            f.sv() == sv0,
            qcs_view(inputs@) == dv.inputs.subrange(i as int, n as int),
            qcs_view(new_inputs@) == dv.inputs.subrange(0, i as int).map_values(
                |q: QuadCombV| F::qc_map(sv0, q),
            ),
        decreases n - i,
    {
        let ghost inputs0 = inputs@;
        let q = inputs.remove(0);
        proof {
            assert(dv.inputs.subrange(i as int, n as int)[0] == inputs0[0]@);
            assert(inputs@ =~= inputs0.drop_first());
            crate::ir::lemma_qcs_view_drop_first(inputs0);
            assert(qcs_view(inputs@) =~= dv.inputs.subrange(i + 1 as int, n as int));
        }
        let ghost kept = new_inputs@;
        let q2 = f.fold_quadratic_combination(q);
        new_inputs.push(q2);
        proof {
            crate::ir::lemma_qcs_view_push(kept, q2);
            assert(qcs_view(new_inputs@) =~= dv.inputs.subrange(0, i + 1 as int).map_values(
                |q: QuadCombV| F::qc_map(sv0, q),
            ));
        }
        i += 1;
    }
    let m = outputs.len();
    let mut new_outputs: Vec<Variable> = Vec::new();
    let mut k: usize = 0;
    while k < m
        invariant
            0 <= k <= m,
            m == outputs.len(),
            f.sv() == sv0,
            qcs_view(new_inputs@) == dv.inputs.map_values(|q: QuadCombV| F::qc_map(sv0, q)),
            new_outputs@ == outputs@.subrange(0, k as int).map_values(
                |v: Variable| F::var_map(sv0, v),
            ),
        decreases m - k,
    {
        let v2 = f.fold_variable(outputs[k]);
        new_outputs.push(v2);
        proof {
            assert(new_outputs@ =~= outputs@.subrange(0, k + 1 as int).map_values(
                |v: Variable| F::var_map(sv0, v),
            ));
        }
        k += 1;
    }
    proof {
        assert(outputs@.subrange(0, m as int) =~= outputs@);
        assert(outputs@ == dv.outputs);
    }
    let r = Directive { inputs: new_inputs, outputs: new_outputs, solver };
    proof {
        assert(r@ =~= default_dir_map::<F>(sv0, dv));
    }
    r
}

/// Default statement fold: one statement out per statement in, children
/// rewritten through the pass's overridable operations.
pub fn fold_statement<F: Folder>(f: &mut F, s: Statement) -> (out: Vec<Statement>)
    ensures
        final(f).sv() == old(f).sv(),
        stmts_view(out@) == default_stmt_out::<F>(old(f).sv(), s@),
{
    let ghost sv0 = f.sv();
    let ghost s_v = s@;
    let mut out: Vec<Statement> = Vec::new();
    match s {
        Statement::Constraint(q, l, m) => {
            let q2 = f.fold_quadratic_combination(q);
            let l2 = f.fold_linear_combination(l);
            out.push(Statement::Constraint(q2, l2, m));
        },
        Statement::Directive(d) => {
            let d2 = f.fold_directive(d);
            out.push(Statement::Directive(d2));
        },
    }
    proof {
        assert(stmts_view(out@) =~= default_stmt_out::<F>(sv0, s_v));
    }
    out
}

/// Default module fold: arguments first, then the statement stream, then
/// the return variables under the final pass state.
pub fn fold_module<F: Folder>(f: &mut F, p: Prog) -> (r: Prog)
    ensures
        final(f).sv() == run_stmts_sv::<F>(old(f).sv(), p@.statements),
        r@ == module_map::<F>(old(f).sv(), p@),
{
    let ghost sv0 = f.sv();
    let ghost pv = p@;
    let Prog { arguments, statements, returns: rets } = p;

    let na = arguments.len();
    let mut new_args: Vec<Parameter> = Vec::new();
    let mut i: usize = 0;
    while i < na
        invariant
            0 <= i <= na,
            na == arguments.len(),
            f.sv() == sv0,
            new_args@ == arguments@.subrange(0, i as int).map_values(
                |a: Parameter| F::arg_map(sv0, a),
            ),
        decreases na - i,
    {
        let a2 = f.fold_argument(arguments[i]);
        new_args.push(a2);
        proof {
            assert(new_args@ =~= arguments@.subrange(0, i + 1 as int).map_values(
                |a: Parameter| F::arg_map(sv0, a),
            ));
        }
        i += 1;
    }
    proof {
        assert(arguments@.subrange(0, na as int) =~= arguments@);
    }

    let ns = statements.len();
    let ghost ssv = pv.statements;
    let mut new_stmts: Vec<Statement> = Vec::new();
    let mut j: usize = 0;
    let mut rest = statements;
    // Consume the statement vector front to back.
    proof {
        assert(stmts_view(rest@) == ssv);
        assert(ssv.subrange(0, ns as int) =~= ssv);
        assert(ssv.subrange(0, 0) =~= Seq::<StatementV>::empty());
        assert(stmts_view(new_stmts@) =~= Seq::<StatementV>::empty());
    }
    while j < ns
        invariant
            0 <= j <= ns,
            ns == ssv.len(),
            stmts_view(rest@) == ssv.subrange(j as int, ns as int),
            f.sv() == run_stmts_sv::<F>(sv0, ssv.subrange(0, j as int)),
            stmts_view(new_stmts@) == run_stmts_out::<F>(sv0, ssv.subrange(0, j as int)),
        decreases ns - j,
    {
        let ghost rest0 = rest@;
        let s = rest.remove(0);
        proof {
            assert(ssv.subrange(j as int, ns as int)[0] == rest0[0]@);
            assert(rest@ =~= rest0.drop_first());
            crate::ir::lemma_stmts_view_drop_first(rest0);
            assert(stmts_view(rest@) =~= ssv.subrange(j + 1 as int, ns as int));
        }
        let mut folded = f.fold_statement(s);
        let ghost pre = ssv.subrange(0, j as int);
        let nf = folded.len();
        let mut t: usize = 0;
        let ghost folded_v = stmts_view(folded@);
        proof {
            assert(folded_v.subrange(0, nf as int) =~= folded_v);
            assert(folded_v.subrange(0, 0) =~= Seq::<StatementV>::empty());
        }
        while t < nf
            invariant
                0 <= t <= nf,
                nf == folded_v.len(),
                stmts_view(folded@) == folded_v.subrange(t as int, nf as int),
                stmts_view(new_stmts@) == run_stmts_out::<F>(sv0, pre) + folded_v.subrange(
                    0,
                    t as int,
                ),
            decreases nf - t,
        {
            let ghost folded0 = folded@;
            let st = folded.remove(0);
            proof {
                assert(folded_v.subrange(t as int, nf as int)[0] == folded0[0]@);
                assert(folded@ =~= folded0.drop_first());
                crate::ir::lemma_stmts_view_drop_first(folded0);
                assert(stmts_view(folded@) =~= folded_v.subrange(t + 1 as int, nf as int));
            }
            let ghost kept = new_stmts@;
            new_stmts.push(st);
            proof {
                crate::ir::lemma_stmts_view_push(kept, st);
                assert(stmts_view(new_stmts@) =~= run_stmts_out::<F>(sv0, pre) + folded_v.subrange(
                    0,
                    t + 1 as int,
                ));
            }
            t += 1;
        }
        proof {
            assert(folded_v.subrange(0, nf as int) =~= folded_v);
            assert(ssv.subrange(0, j + 1 as int) =~= pre.push(ssv[j as int]));
            lemma_run_stmts_snoc::<F>(sv0, pre, ssv[j as int]);
            assert(stmts_view(new_stmts@) =~= run_stmts_out::<F>(sv0, ssv.subrange(0, j + 1 as int)));
        }
        j += 1;
    }
    proof {
        assert(ssv.subrange(0, ns as int) =~= ssv);
    }

    let ghost svf = run_stmts_sv::<F>(sv0, ssv);
    let nr = rets.len();
    let mut new_returns: Vec<Variable> = Vec::new();
    let mut k: usize = 0;
    while k < nr
        invariant
            0 <= k <= nr,
            nr == rets.len(),
            f.sv() == svf,
            new_returns@ == rets@.subrange(0, k as int).map_values(
                |v: Variable| F::var_map(svf, v),
            ),
        decreases nr - k,
    {
        let v2 = f.fold_variable(rets[k]);
        new_returns.push(v2);
        proof {
            assert(new_returns@ =~= rets@.subrange(0, k + 1 as int).map_values(
                |v: Variable| F::var_map(svf, v),
            ));
        }
        k += 1;
    }
    proof {
        assert(rets@.subrange(0, nr as int) =~= rets@);
    }

    let r = Prog { arguments: new_args, statements: new_stmts, returns: new_returns };
    proof {
        assert(r@ =~= module_map::<F>(sv0, pv));
    }
    r
}

/// Fold every statement of a vector through a pass, in order,
/// concatenating what the pass emits.
pub fn fold_vec_through<F: Folder>(f: &mut F, ss: Vec<Statement>) -> (out: Vec<Statement>)
    ensures
        final(f).sv() == run_stmts_sv::<F>(old(f).sv(), stmts_view(ss@)),
        stmts_view(out@) == run_stmts_out::<F>(old(f).sv(), stmts_view(ss@)),
{
    let ghost sv0 = f.sv();
    let ghost ssv = stmts_view(ss@);
    let ns = ss.len();
    let mut rest = ss;
    let mut out: Vec<Statement> = Vec::new();
    proof {
        assert(ssv.subrange(0, ns as int) =~= ssv);
        assert(ssv.subrange(0, 0) =~= Seq::<StatementV>::empty());
        assert(stmts_view(out@) =~= Seq::<StatementV>::empty());
    }
    let mut j: usize = 0;
    while j < ns
        invariant
            0 <= j <= ns,
            ns == ssv.len(),
            stmts_view(rest@) == ssv.subrange(j as int, ns as int),
            f.sv() == run_stmts_sv::<F>(sv0, ssv.subrange(0, j as int)),
            stmts_view(out@) == run_stmts_out::<F>(sv0, ssv.subrange(0, j as int)),
        decreases ns - j,
    {
        let ghost rest0 = rest@;
        let s = rest.remove(0);
        proof {
            assert(ssv.subrange(j as int, ns as int)[0] == rest0[0]@);
            assert(rest@ =~= rest0.drop_first());
            crate::ir::lemma_stmts_view_drop_first(rest0);
            assert(stmts_view(rest@) =~= ssv.subrange(j + 1 as int, ns as int));
        }
        let mut folded = f.fold_statement(s);
        let ghost pre = ssv.subrange(0, j as int);
        let nf = folded.len();
        let mut t: usize = 0;
        let ghost folded_v = stmts_view(folded@);
        proof {
            assert(folded_v.subrange(0, nf as int) =~= folded_v);
            assert(folded_v.subrange(0, 0) =~= Seq::<StatementV>::empty());
        }
        while t < nf
            invariant
                0 <= t <= nf,
                nf == folded_v.len(),
                stmts_view(folded@) == folded_v.subrange(t as int, nf as int),
                stmts_view(out@) == run_stmts_out::<F>(sv0, pre) + folded_v.subrange(0, t as int),
            decreases nf - t,
        {
            let ghost folded0 = folded@;
            let st = folded.remove(0);
            proof {
                assert(folded_v.subrange(t as int, nf as int)[0] == folded0[0]@);
                assert(folded@ =~= folded0.drop_first());
                crate::ir::lemma_stmts_view_drop_first(folded0);
                assert(stmts_view(folded@) =~= folded_v.subrange(t + 1 as int, nf as int));
            }
            let ghost kept = out@;
            out.push(st);
            proof {
                crate::ir::lemma_stmts_view_push(kept, st);
                assert(stmts_view(out@) =~= run_stmts_out::<F>(sv0, pre) + folded_v.subrange(
                    0,
                    t + 1 as int,
                ));
            }
            t += 1;
        }
        proof {
            assert(folded_v.subrange(0, nf as int) =~= folded_v);
            assert(ssv.subrange(0, j + 1 as int) =~= pre.push(ssv[j as int]));
            lemma_run_stmts_snoc::<F>(sv0, pre, ssv[j as int]);
            assert(stmts_view(out@) =~= run_stmts_out::<F>(sv0, ssv.subrange(0, j + 1 as int)));
        }
        j += 1;
    }
    proof {
        assert(ssv.subrange(0, ns as int) =~= ssv);
    }
    out
}

/// The pass that overrides nothing: every operation is the identity, as
/// every default is on well-formed input.
pub struct DefaultFolder;

impl Folder for DefaultFolder {
    type SV = ();

    open spec fn sv(&self) -> () {
        ()
    }

    open spec fn arg_map(sv: (), a: Parameter) -> Parameter {
        a
    }

    open spec fn var_map(sv: (), v: Variable) -> Variable {
        v
    }

    open spec fn lc_map(sv: (), l: LinCombV) -> LinCombV {
        l
    }

    open spec fn qc_map(sv: (), q: QuadCombV) -> QuadCombV {
        q
    }

    open spec fn dir_map(sv: (), d: DirectiveV) -> DirectiveV {
        d
    }

    open spec fn stmt_out(sv: (), s: StatementV) -> Seq<StatementV> {
        seq![s]
    }

    open spec fn stmt_sv(sv: (), s: StatementV) -> () {
        sv
    }

    fn fold_argument(&mut self, a: Parameter) -> (r: Parameter) {
        a
    }

    fn fold_variable(&mut self, v: Variable) -> (r: Variable) {
        v
    }

    fn fold_linear_combination(&mut self, l: LinComb) -> (r: LinComb) {
        l
    }

    fn fold_quadratic_combination(&mut self, q: QuadComb) -> (r: QuadComb) {
        q
    }

    fn fold_directive(&mut self, d: Directive) -> (r: Directive) {
        d
    }

    fn fold_statement(&mut self, s: Statement) -> (out: Vec<Statement>) {
        let mut out: Vec<Statement> = Vec::new();
        let ghost s_v = s@;
        out.push(s);
        proof {
            assert(stmts_view(out@) =~= seq![s_v]);
        }
        out
    }
}

/// Identity law, statement streams: the no-override pass emits every
/// statement sequence unchanged.
pub proof fn lemma_default_folder_stmts(ss: Seq<StatementV>)
    ensures
        run_stmts_out::<DefaultFolder>((), ss) == ss,
        run_stmts_sv::<DefaultFolder>((), ss) == (),
    decreases ss.len(),
{
    if ss.len() == 0 {
        assert(run_stmts_out::<DefaultFolder>((), ss) =~= ss);
    } else {
        lemma_default_folder_stmts(ss.drop_first());
        assert(run_stmts_out::<DefaultFolder>((), ss) =~= ss) by {
            assert(run_stmts_out::<DefaultFolder>((), ss) == seq![ss[0]] + ss.drop_first());
        }
    }
}

/// Identity law: folding any program with the no-override pass yields a
/// structurally identical program.
pub proof fn lemma_default_folder_identity(p: ProgV)
    ensures
        module_map::<DefaultFolder>((), p) == p,
{
    lemma_default_folder_stmts(p.statements);
    assert(p.arguments.map_values(|a: Parameter| DefaultFolder::arg_map((), a)) =~= p.arguments);
    assert(p.returns.map_values(
        |v: Variable| DefaultFolder::var_map(run_stmts_sv::<DefaultFolder>((), p.statements), v),
    ) =~= p.returns);
    assert(module_map::<DefaultFolder>((), p) =~= p);
}

} // verus!
