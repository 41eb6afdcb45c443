//! The tautology-elimination pass: a constraint whose two sides are
//! provably identical as written adds no information and is removed.

use vstd::prelude::*;
use crate::canonical::{canon_lc, canonicalize, lc_eq};
use crate::folder::Folder;
use crate::ir::{
    one_lc, one_lc_v, Directive, DirectiveV, LinComb, LinCombV, Parameter, QuadComb, QuadCombV,
    Statement, StatementV, Variable,
};

verus! {

/// Whether a constraint `q = l` is a tautology as written: one side of
/// the product is canonically the constant one and the other side is
/// canonically identical to the result.
pub open spec fn is_tautology(q: QuadCombV, l: LinCombV) -> bool {
    ||| (canon_lc(q.left) == one_lc_v() && canon_lc(q.right) == canon_lc(l))
    ||| (canon_lc(q.right) == one_lc_v() && canon_lc(q.left) == canon_lc(l))
}

/// What the pass emits for one statement: nothing for a tautological
/// constraint, the statement unchanged otherwise.
pub open spec fn stmt_tautology(s: StatementV) -> Seq<StatementV> {
    match s {
        StatementV::Constraint(q, l, _) => if is_tautology(q, l) {
            Seq::<StatementV>::empty()
        } else {
            seq![s]
        },
        StatementV::Directive(_) => seq![s],
    }
}

/// The stateless tautology-elimination pass.
pub struct TautologyOptimizer;

impl Folder for TautologyOptimizer {
    type SV = ();

    open spec fn sv(&self) -> () {
        ()
    }

    open spec fn arg_map(sv: (), a: Parameter) -> Parameter {
        a
    }

    open spec fn var_map(sv: (), v: Variable) -> Variable {
        v
    }

    open spec fn lc_map(sv: (), l: LinCombV) -> LinCombV {
        l
    }

    open spec fn qc_map(sv: (), q: QuadCombV) -> QuadCombV {
        q
    }

    open spec fn dir_map(sv: (), d: DirectiveV) -> DirectiveV {
        d
    }

    open spec fn stmt_out(sv: (), s: StatementV) -> Seq<StatementV> {
        stmt_tautology(s)
    }

    open spec fn stmt_sv(sv: (), s: StatementV) -> () {
        sv
    }

    fn fold_argument(&mut self, a: Parameter) -> (r: Parameter) {
        a
    }

    fn fold_variable(&mut self, v: Variable) -> (r: Variable) {
        v
    }

    fn fold_linear_combination(&mut self, l: LinComb) -> (r: LinComb) {
        l
    }

    fn fold_quadratic_combination(&mut self, q: QuadComb) -> (r: QuadComb) {
        q
    }

    fn fold_directive(&mut self, d: Directive) -> (r: Directive) {
        d
    }

    fn fold_statement(&mut self, s: Statement) -> (out: Vec<Statement>) {
        let ghost s_v = s@;
        let mut out: Vec<Statement> = Vec::new();
        match s {
            Statement::Constraint(q, l, m) => {
                let one = one_lc();
                let cleft = canonicalize(&q.left);
                let cright = canonicalize(&q.right);
                let clin = canonicalize(&l);
                let taut = (lc_eq(&cleft, &one) && lc_eq(&cright, &clin)) || (lc_eq(
                    &cright,
                    &one,
                ) && lc_eq(&cleft, &clin));
                proof {
                    assert(taut == is_tautology(q@, l@));
                }
                if !taut {
                    out.push(Statement::Constraint(q, l, m));
                }
            },
            Statement::Directive(d) => {
                out.push(Statement::Directive(d));
            },
        }
        proof {
            assert(crate::ir::stmts_view(out@) =~= stmt_tautology(s_v));
        }
        out
    }
}

} // verus!
