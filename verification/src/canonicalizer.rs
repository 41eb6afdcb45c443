//! The canonicalization pass: every linear combination of the program is
//! rewritten into canonical form, so that later structural equality is
//! semantic equality of linear forms.

use vstd::prelude::*;
use crate::canonical::{canon_lc, canonicalize};
use crate::folder::Folder;
use crate::ir::{
    lemma_qcs_view_push, qcs_view, Directive, DirectiveV, LinComb, LinCombV, Parameter, QuadComb,
    QuadCombV, Statement, StatementV, Variable,
};

verus! {

broadcast use crate::ir::lemma_stmts_view, crate::ir::lemma_qcs_view;

/// The canonical form of a quadratic combination: both sides canonical.
pub open spec fn qc_canon(q: QuadCombV) -> QuadCombV {
    QuadCombV { left: canon_lc(q.left), right: canon_lc(q.right) }
}

/// The canonical form of a directive: every input canonical, outputs and
/// solver untouched.
pub open spec fn dir_canon(d: DirectiveV) -> DirectiveV {
    DirectiveV {
        inputs: d.inputs.map_values(|q: QuadCombV| qc_canon(q)),
        outputs: d.outputs,
        solver: d.solver,
    }
}

/// What canonicalization emits for one statement: the statement with
/// every combination in canonical form.
pub open spec fn stmt_canon(s: StatementV) -> Seq<StatementV> {
    match s {
        StatementV::Constraint(q, l, m) => seq![
            StatementV::Constraint(qc_canon(q), canon_lc(l), m),
        ],
        StatementV::Directive(d) => seq![StatementV::Directive(dir_canon(d))],
    }
}

/// The stateless canonicalization pass.
pub struct Canonicalizer;

impl Folder for Canonicalizer {
    type SV = ();

    open spec fn sv(&self) -> () {
        ()
    }

    open spec fn arg_map(sv: (), a: Parameter) -> Parameter {
        a
    }

    open spec fn var_map(sv: (), v: Variable) -> Variable {
        v
    }

    open spec fn lc_map(sv: (), l: LinCombV) -> LinCombV {
        canon_lc(l)
    }

    open spec fn qc_map(sv: (), q: QuadCombV) -> QuadCombV {
        qc_canon(q)
    }

    open spec fn dir_map(sv: (), d: DirectiveV) -> DirectiveV {
        dir_canon(d)
    }

    open spec fn stmt_out(sv: (), s: StatementV) -> Seq<StatementV> {
        stmt_canon(s)
    }

    open spec fn stmt_sv(sv: (), s: StatementV) -> () {
        sv
    }

    fn fold_argument(&mut self, a: Parameter) -> (r: Parameter) {
        a
    }

    fn fold_variable(&mut self, v: Variable) -> (r: Variable) {
        v
    }

    fn fold_linear_combination(&mut self, l: LinComb) -> (r: LinComb) {
        canonicalize(&l)
    }

    fn fold_quadratic_combination(&mut self, q: QuadComb) -> (r: QuadComb) {
        let left = canonicalize(&q.left);
        let right = canonicalize(&q.right);
        let r = QuadComb { left, right };
        proof {
            assert(r@ =~= qc_canon(q@));
        }
        r
    }

    fn fold_directive(&mut self, d: Directive) -> (r: Directive) {
        let ghost dv = d@;
        let Directive { inputs, outputs, solver } = d;
        let mut inputs = inputs;
        let n = inputs.len();
        let mut new_inputs: Vec<QuadComb> = Vec::new();
        proof {
            assert(qcs_view(inputs@) == dv.inputs);
            assert(dv.inputs.subrange(0, n as int) =~= dv.inputs);
            assert(qcs_view(new_inputs@) =~= Seq::<QuadCombV>::empty());
            assert(dv.inputs.subrange(0, 0) =~= Seq::<QuadCombV>::empty());
        }
        let mut i: usize = 0;
        while i < n
            invariant
                0 <= i <= n,
                n == dv.inputs.len(),
                qcs_view(inputs@) == dv.inputs.subrange(i as int, n as int),
                qcs_view(new_inputs@) == dv.inputs.subrange(0, i as int).map_values(
                    |q: QuadCombV| qc_canon(q),
                ),
            decreases n - i,
        {
            let ghost inputs0 = inputs@;
            let q = inputs.remove(0);
            proof {
                crate::ir::lemma_qcs_view(inputs0);
                assert(dv.inputs.subrange(i as int, n as int)[0] == inputs0[0]@);
                assert(inputs@ =~= inputs0.drop_first());
                crate::ir::lemma_qcs_view_drop_first(inputs0);
                assert(qcs_view(inputs@) =~= dv.inputs.subrange(i + 1 as int, n as int));
            }
            let q2 = self.fold_quadratic_combination(q);
            let ghost kept = new_inputs@;
            new_inputs.push(q2);
            proof {
                lemma_qcs_view_push(kept, q2);
                assert(qcs_view(new_inputs@) =~= dv.inputs.subrange(0, i + 1 as int).map_values(
                    |q: QuadCombV| qc_canon(q),
                ));
            }
            i += 1;
        }
        let r = Directive { inputs: new_inputs, outputs, solver };
        proof {
            assert(r@ =~= dir_canon(dv));
        }
        r
    }

    fn fold_statement(&mut self, s: Statement) -> (out: Vec<Statement>) {
        let ghost s_v = s@;
        let mut out: Vec<Statement> = Vec::new();
        match s {
            Statement::Constraint(q, l, m) => {
                let q2 = self.fold_quadratic_combination(q);
                let l2 = canonicalize(&l);
                out.push(Statement::Constraint(q2, l2, m));
            },
            Statement::Directive(d) => {
                let d2 = self.fold_directive(d);
                out.push(Statement::Directive(d2));
            },
        }
        proof {
            assert(crate::ir::stmts_view(out@) =~= stmt_canon(s_v));
        }
        out
    }
}

} // verus!
