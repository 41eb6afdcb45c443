//! The optimization pipeline: redefinition elimination, tautology
//! elimination, canonicalization, directive pruning and duplicate
//! elimination, composed in that fixed order over the statement
//! sequence. The optimized program keeps the argument identities and
//! visibilities of the input; its return wires see the recorded
//! substitution, so the external contract is preserved.

use vstd::prelude::*;
use crate::canonicalizer::Canonicalizer;
use crate::directive::{prune_directives, prune_stmts};
use crate::duplicate::DuplicateOptimizer;
use crate::folder::{fold_vec_through, run_stmts_out, run_stmts_sv, Folder};
use crate::ir::{LinCombV, Parameter, Prog, ProgV, QuadCombV, StatementV, Variable};
use crate::redefinition::{init_sv, subst_var, RedefinitionOptimizer};
use crate::tautology::TautologyOptimizer;

verus! {

impl Default for TautologyOptimizer {
    fn default() -> (r: Self)
        ensures
            r.sv() == (),
    {
        TautologyOptimizer
    }
}

impl Default for Canonicalizer {
    fn default() -> (r: Self)
        ensures
            r.sv() == (),
    {
        Canonicalizer
    }
}

impl Default for DuplicateOptimizer {
    fn default() -> (r: Self)
        ensures
            r.sv() == Set::<(QuadCombV, LinCombV)>::empty(),
    {
        DuplicateOptimizer::new()
    }
}

/// What the whole pipeline yields: the five stages composed in order,
/// arguments untouched, return wires under the final substitution.
pub open spec fn optimize_spec(p: ProgV) -> ProgV {
    let sv0 = init_sv(p);
    let s1 = run_stmts_out::<RedefinitionOptimizer>(sv0, p.statements);
    let svf = run_stmts_sv::<RedefinitionOptimizer>(sv0, p.statements);
    let s2 = run_stmts_out::<TautologyOptimizer>((), s1);
    let s3 = run_stmts_out::<Canonicalizer>((), s2);
    let rets = p.returns.map_values(|v: Variable| subst_var(svf, v));
    let s4 = prune_stmts(s3, rets.to_set()).0;
    let s5 = run_stmts_out::<DuplicateOptimizer>(Set::<(QuadCombV, LinCombV)>::empty(), s4);
    ProgV { arguments: p.arguments, statements: s5, returns: rets }
}

impl Prog {
    /// Run the five optimization passes over the program.
    pub fn optimize(self) -> (r: Prog)
        ensures
            r@ == optimize_spec(self@),
            r@.arguments == self@.arguments,
    {
        let ghost pv = self@;
        let mut redef = RedefinitionOptimizer::init(&self);
        let mut taut = TautologyOptimizer::default();
        let mut canon = Canonicalizer::default();
        let mut dup = DuplicateOptimizer::default();

        let Prog { arguments, statements, returns: rets } = self;

        let na = arguments.len();
        let mut new_args: Vec<Parameter> = Vec::new();
        let mut i: usize = 0;
        while i < na
            invariant
                0 <= i <= na,
                na == arguments.len(),
                arguments@ == pv.arguments,
                redef.sv() == init_sv(pv),
                taut.sv() == (),
                canon.sv() == (),
                dup.sv() == Set::<(QuadCombV, LinCombV)>::empty(),
                new_args@ == pv.arguments.subrange(0, i as int),
            decreases na - i,
        {
            let a = arguments[i];
            let a1 = redef.fold_argument(a);
            proof {
                assert(!init_sv(pv).subst.contains_key(a.id));
                assert(a1 == a);
            }
            let a2 = taut.fold_argument(a1);
            let a3 = canon.fold_argument(a2);
            let a4 = dup.fold_argument(a3);
            new_args.push(a4);
            proof {
                assert(new_args@ =~= pv.arguments.subrange(0, i + 1 as int));
            }
            i += 1;
        }
        proof {
            assert(pv.arguments.subrange(0, na as int) =~= pv.arguments);
        }

        let s1 = fold_vec_through(&mut redef, statements);
        let s2 = fold_vec_through(&mut taut, s1);
        let s3 = fold_vec_through(&mut canon, s2);

        let ghost svf = run_stmts_sv::<RedefinitionOptimizer>(init_sv(pv), pv.statements);
        let nr = rets.len();
        let mut new_rets: Vec<Variable> = Vec::new();
        let mut k: usize = 0;
        while k < nr
            invariant
                0 <= k <= nr,
                nr == rets.len(),
                rets@ == pv.returns,
                redef.sv() == svf,
                taut.sv() == (),
                canon.sv() == (),
                dup.sv() == Set::<(QuadCombV, LinCombV)>::empty(),
                new_rets@ == pv.returns.subrange(0, k as int).map_values(
                    |v: Variable| subst_var(svf, v),
                ),
            decreases nr - k,
        {
            let v1 = redef.fold_variable(rets[k]);
            let v2 = taut.fold_variable(v1);
            let v3 = canon.fold_variable(v2);
            let v4 = dup.fold_variable(v3);
            new_rets.push(v4);
            proof {
                assert(new_rets@ =~= pv.returns.subrange(0, k + 1 as int).map_values(
                    |v: Variable| subst_var(svf, v),
                ));
            }
            k += 1;
        }
        proof {
            assert(pv.returns.subrange(0, nr as int) =~= pv.returns);
        }

        let s4 = prune_directives(s3, &new_rets);
        let s5 = fold_vec_through(&mut dup, s4);

        let r = Prog { arguments: new_args, statements: s5, returns: new_rets };
        proof {
            assert(r@ =~= optimize_spec(pv));
        }
        r
    }
}

} // verus!
