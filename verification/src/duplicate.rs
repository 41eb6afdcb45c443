//! The duplicate-elimination pass: a constraint whose canonical signature
//! (quadratic and linear side, the diagnostic message ignored) was already
//! emitted is dropped; the first occurrence survives. It runs last, on
//! canonical statements, so structural equality is semantic equality.

use vstd::prelude::*;
use crate::canonical::{lc_eq, qc_eq};
use crate::folder::Folder;
use crate::ir::{
    Directive, DirectiveV, LinComb, LinCombV, Parameter, QuadComb, QuadCombV, Statement,
    StatementV, Variable,
};

verus! {

broadcast use crate::ir::lemma_stmts_view;

/// The signatures of the recorded constraints.
pub open spec fn sigs_view(s: Seq<(QuadComb, LinComb)>) -> Seq<(QuadCombV, LinCombV)> {
    s.map_values(|p: (QuadComb, LinComb)| (p.0@, p.1@))
}

pub broadcast proof fn lemma_sigs_view(s: Seq<(QuadComb, LinComb)>)
    ensures
        (#[trigger] sigs_view(s)).len() == s.len(),
        forall|i: int| 0 <= i < s.len() ==> sigs_view(s)[i] == (s[i].0@, s[i].1@),
{
}

/// What the pass emits for one statement: nothing for a constraint whose
/// signature was already seen, the statement unchanged otherwise.
pub open spec fn stmt_dup(seen: Set<(QuadCombV, LinCombV)>, s: StatementV) -> Seq<StatementV> {
    match s {
        StatementV::Constraint(q, l, _) => if seen.contains((q, l)) {
            Seq::<StatementV>::empty()
        } else {
            seq![s]
        },
        StatementV::Directive(_) => seq![s],
    }
}

/// The signatures recorded after one statement.
pub open spec fn sv_dup(seen: Set<(QuadCombV, LinCombV)>, s: StatementV) -> Set<
    (QuadCombV, LinCombV),
> {
    match s {
        StatementV::Constraint(q, l, _) => seen.insert((q, l)),
        StatementV::Directive(_) => seen,
    }
}

/// The duplicate-elimination pass: a content-addressed record of the
/// constraint signatures already emitted.
pub struct DuplicateOptimizer {
    seen: Vec<(QuadComb, LinComb)>,
}

impl DuplicateOptimizer {
    pub fn new() -> (r: Self)
        ensures
            r.sv() == Set::<(QuadCombV, LinCombV)>::empty(),
    {
        let r = DuplicateOptimizer { seen: Vec::new() };
        proof {
            assert(r.sv() =~= Set::<(QuadCombV, LinCombV)>::empty());
        }
        r
    }

    /// Whether the signature of a constraint was already recorded.
    fn has_sig(&self, q: &QuadComb, l: &LinComb) -> (r: bool)
        ensures
            r == self.sv().contains((q@, l@)),
    {
        let n = self.seen.len();
        let mut i: usize = 0;
        while i < n
            invariant
                0 <= i <= n,
                n == self.seen.len(),
                forall|k: int| 0 <= k < i ==> #[trigger] sigs_view(self.seen@)[k] != (q@, l@),
            decreases n - i,
        {
            if qc_eq(&self.seen[i].0, q) && lc_eq(&self.seen[i].1, l) {
                proof {
                    lemma_sigs_view(self.seen@);
                    assert(sigs_view(self.seen@)[i as int] == (q@, l@));
                    assert(sigs_view(self.seen@).contains((q@, l@)));
                }
                return true;
            }
            proof {
                lemma_sigs_view(self.seen@);
                assert(sigs_view(self.seen@)[i as int] != (q@, l@));
            }
            i += 1;
        }
        proof {
            lemma_sigs_view(self.seen@);
            assert(!self.sv().contains((q@, l@))) by {
                if sigs_view(self.seen@).contains((q@, l@)) {
                    let k = choose|k: int|
                        0 <= k < sigs_view(self.seen@).len() && sigs_view(self.seen@)[k] == (
                        q@,
                        l@,
                        );
                    assert(false);
                }
            }
        }
        false
    }
}

impl Folder for DuplicateOptimizer {
    type SV = Set<(QuadCombV, LinCombV)>;

    closed spec fn sv(&self) -> Set<(QuadCombV, LinCombV)> {
        sigs_view(self.seen@).to_set()
    }

    open spec fn arg_map(sv: Set<(QuadCombV, LinCombV)>, a: Parameter) -> Parameter {
        a
    }

    open spec fn var_map(sv: Set<(QuadCombV, LinCombV)>, v: Variable) -> Variable {
        v
    }

    open spec fn lc_map(sv: Set<(QuadCombV, LinCombV)>, l: LinCombV) -> LinCombV {
        l
    }

    open spec fn qc_map(sv: Set<(QuadCombV, LinCombV)>, q: QuadCombV) -> QuadCombV {
        q
    }

    open spec fn dir_map(sv: Set<(QuadCombV, LinCombV)>, d: DirectiveV) -> DirectiveV {
        d
    }

    open spec fn stmt_out(sv: Set<(QuadCombV, LinCombV)>, s: StatementV) -> Seq<StatementV> {
        stmt_dup(sv, s)
    }

    open spec fn stmt_sv(sv: Set<(QuadCombV, LinCombV)>, s: StatementV) -> Set<
        (QuadCombV, LinCombV),
    > {
        sv_dup(sv, s)
    }

    fn fold_argument(&mut self, a: Parameter) -> (r: Parameter) {
        a
    }

    fn fold_variable(&mut self, v: Variable) -> (r: Variable) {
        v
    }

    fn fold_linear_combination(&mut self, l: LinComb) -> (r: LinComb) {
        l
    }

    fn fold_quadratic_combination(&mut self, q: QuadComb) -> (r: QuadComb) {
        q
    }

    fn fold_directive(&mut self, d: Directive) -> (r: Directive) {
        d
    }

    fn fold_statement(&mut self, s: Statement) -> (out: Vec<Statement>) {
        let ghost s_v = s@;
        let ghost sv0 = self.sv();
        let mut out: Vec<Statement> = Vec::new();
        match s {
            Statement::Constraint(q, l, m) => {
                if self.has_sig(&q, &l) {
                    proof {
                        assert(self.sv() =~= sv_dup(sv0, s_v));
                    }
                } else {
                    let ghost seen0 = self.seen@;
                    self.seen.push((crate::ir::qc_copy(&q), crate::ir::lc_copy(&l)));
                    proof {
                        lemma_sigs_view(self.seen@);
                        lemma_sigs_view(seen0);
                        assert(sigs_view(self.seen@) =~= sigs_view(seen0).push((q@, l@)));
                        sigs_view(seen0).lemma_push_to_set_commute((q@, l@));
                        assert(self.sv() =~= sv_dup(sv0, s_v));
                    }
                    out.push(Statement::Constraint(q, l, m));
                }
            },
            Statement::Directive(d) => {
                out.push(Statement::Directive(d));
            },
        }
        proof {
            assert(crate::ir::stmts_view(out@) =~= stmt_dup(sv0, s_v));
        }
        out
    }
}

} // verus!
