//! The redefinition-elimination pass: a constraint that only names an
//! existing wire under a new variable is removed, and a substitution
//! (variable to its canonical representative) rewrites every later
//! reference. A variable is never substituted away if it is a program
//! argument, a directive output, or the reserved one wire: those stay
//! materialized as real wires.

use vstd::prelude::*;
use crate::canonical::{canon_lc, canonicalize, lc_eq};
use crate::folder::Folder;
use crate::ir::{
    one_lc, one_lc_v, qcs_view, Directive, DirectiveV, LinComb, LinCombV, Parameter, Prog, ProgV,
    QuadComb, QuadCombV, Statement, StatementV, Variable, ONE_WIRE_ID,
};

verus! {

broadcast use crate::ir::lemma_stmts_view, crate::ir::lemma_qcs_view;

/// The abstract state of the pass: the substitution recorded so far, and
/// the variables that must never be substituted away.
#[verifier::ext_equal]
pub struct RedefSV {
    pub subst: Map<Variable, Variable>,
    pub protected: Set<Variable>,
}

/// A recorded association list, later entries winning.
pub open spec fn map_of(s: Seq<(Variable, Variable)>) -> Map<Variable, Variable>
    decreases s.len(),
{
    if s.len() == 0 {
        Map::<Variable, Variable>::empty()
    } else {
        map_of(s.drop_last()).insert(s.last().0, s.last().1)
    }
}

/// Where one variable occurrence goes under the substitution.
pub open spec fn subst_var(sv: RedefSV, v: Variable) -> Variable {
    if sv.subst.contains_key(v) {
        sv.subst[v]
    } else {
        v
    }
}

/// A linear combination with every variable occurrence substituted.
pub open spec fn lc_subst(sv: RedefSV, l: LinCombV) -> LinCombV {
    l.map_values(|t: (Variable, crate::field::FieldElem)| (subst_var(sv, t.0), t.1))
}

/// A quadratic combination with both sides substituted.
pub open spec fn qc_subst(sv: RedefSV, q: QuadCombV) -> QuadCombV {
    QuadCombV { left: lc_subst(sv, q.left), right: lc_subst(sv, q.right) }
}

/// A directive with inputs and outputs substituted.
pub open spec fn dir_subst(sv: RedefSV, d: DirectiveV) -> DirectiveV {
    DirectiveV {
        inputs: d.inputs.map_values(|q: QuadCombV| qc_subst(sv, q)),
        outputs: d.outputs.map_values(|v: Variable| subst_var(sv, v)),
        solver: d.solver,
    }
}

/// The variable a combination canonically is, when it is exactly one
/// variable with coefficient one.
pub open spec fn lc_single_var(l: LinCombV) -> Option<Variable> {
    let c = canon_lc(l);
    if c.len() == 1 && c[0].1.value() == 1 {
        Option::Some(c[0].0)
    } else {
        Option::None
    }
}

/// Whether an already-substituted constraint `q = l` is a pure
/// redefinition, and of which variable by which: `l` is a single
/// unprotected variable `y`, one side of `q` is canonically the constant
/// one, and the other side is a single variable `x`.
pub open spec fn target_of(sv: RedefSV, q: QuadCombV, l: LinCombV) -> Option<(Variable, Variable)> {
    match lc_single_var(l) {
        Option::Some(y) => if !sv.protected.contains(y) {
            if canon_lc(q.left) == one_lc_v() {
                match lc_single_var(q.right) {
                    Option::Some(x) => Option::Some((y, x)),
                    Option::None => Option::None,
                }
            } else if canon_lc(q.right) == one_lc_v() {
                match lc_single_var(q.left) {
                    Option::Some(x) => Option::Some((y, x)),
                    Option::None => Option::None,
                }
            } else {
                Option::None
            }
        } else {
            Option::None
        },
        Option::None => Option::None,
    }
}

/// What the pass emits for one statement: nothing for a pure
/// redefinition, otherwise the statement with the substitution applied.
pub open spec fn stmt_redef(sv: RedefSV, s: StatementV) -> Seq<StatementV> {
    match s {
        StatementV::Constraint(q, l, m) => {
            let q2 = qc_subst(sv, q);
            let l2 = lc_subst(sv, l);
            if target_of(sv, q2, l2) is Some {
                Seq::<StatementV>::empty()
            } else {
                seq![StatementV::Constraint(q2, l2, m)]
            }
        },
        StatementV::Directive(d) => seq![StatementV::Directive(dir_subst(sv, d))],
    }
}

/// The state after one statement: a new substitution entry for an
/// eliminated redefinition; protection for the outputs of a directive.
pub open spec fn sv_redef(sv: RedefSV, s: StatementV) -> RedefSV {
    match s {
        StatementV::Constraint(q, l, _) => {
            match target_of(sv, qc_subst(sv, q), lc_subst(sv, l)) {
                Option::Some((y, x)) => RedefSV {
                    subst: sv.subst.insert(y, x),
                    protected: sv.protected,
                },
                Option::None => sv,
            }
        },
        StatementV::Directive(d) => RedefSV {
            subst: sv.subst,
            protected: sv.protected.union(dir_subst(sv, d).outputs.to_set()),
        },
    }
}

/// The state the pass starts from: no substitution; the one wire and
/// every program argument protected.
pub open spec fn init_sv(p: ProgV) -> RedefSV {
    RedefSV {
        subst: Map::<Variable, Variable>::empty(),
        protected: p.arguments.map_values(|a: Parameter| a.id).to_set().insert(
            Variable { id: ONE_WIRE_ID },
        ),
    }
}

/// The redefinition-elimination pass.
pub struct RedefinitionOptimizer {
    substitution: Vec<(Variable, Variable)>,
    protected: Vec<Variable>,
}

impl RedefinitionOptimizer {
    /// Start the pass for a program: its arguments and the one wire are
    /// protected from elimination.
    pub fn init(p: &Prog) -> (r: Self)
        ensures
            r.sv() == init_sv(p@),
    {
        let mut protected: Vec<Variable> = Vec::new();
        protected.push(Variable::one_wire());
        let ghost ids = p@.arguments.map_values(|a: Parameter| a.id);
        let n = p.arguments.len();
        proof {
            assert(protected@ =~= Seq::<Variable>::empty().push(Variable { id: ONE_WIRE_ID }));
            Seq::<Variable>::empty().lemma_push_to_set_commute(Variable { id: ONE_WIRE_ID });
            assert(Seq::<Variable>::empty().to_set() =~= Set::<Variable>::empty());
            assert(ids.subrange(0, 0).to_set() =~= Set::<Variable>::empty());
            assert(protected@.to_set() =~= ids.subrange(0, 0).to_set().insert(
                Variable { id: ONE_WIRE_ID },
            ));
        }
        let mut i: usize = 0;
        while i < n
            invariant
                0 <= i <= n,
                n == p.arguments.len(),
                ids == p@.arguments.map_values(|a: Parameter| a.id),
                ids.len() == n,
                protected@.to_set() == ids.subrange(0, i as int).to_set().insert(
                    Variable { id: ONE_WIRE_ID },
                ),
            decreases n - i,
        {
            let ghost prot0 = protected@;
            protected.push(p.arguments[i].id);
            proof {
                prot0.lemma_push_to_set_commute(p.arguments@[i as int].id);
                assert(ids[i as int] == p.arguments@[i as int].id);
                assert(ids.subrange(0, i + 1 as int) =~= ids.subrange(0, i as int).push(
                    ids[i as int],
                ));
                ids.subrange(0, i as int).lemma_push_to_set_commute(ids[i as int]);
                assert(protected@.to_set() =~= ids.subrange(0, i + 1 as int).to_set().insert(
                    Variable { id: ONE_WIRE_ID },
                ));
            }
            i += 1;
        }
        proof {
            assert(ids.subrange(0, n as int) =~= ids);
        }
        let r = RedefinitionOptimizer { substitution: Vec::new(), protected };
        proof {
            assert(map_of(r.substitution@) =~= Map::<Variable, Variable>::empty());
            assert(r.sv() =~= init_sv(p@));
        }
        r
    }

    /// Look the variable up in the recorded substitution, later entries
    /// winning.
    fn lookup(&self, v: Variable) -> (r: Option<Variable>)
        ensures
            r == (if map_of(self.substitution@).contains_key(v) {
                Option::Some(map_of(self.substitution@)[v])
            } else {
                Option::<Variable>::None
            }),
    {
        let n = self.substitution.len();
        let ghost sq = self.substitution@;
        let ghost full = map_of(sq);
        let mut i: usize = n;
        proof {
            assert(sq.subrange(0, n as int) =~= sq);
        }
        while i > 0
            invariant
                0 <= i <= n,
                n == self.substitution.len(),
                sq == self.substitution@,
                full == map_of(sq),
                full.contains_key(v) ==> map_of(sq.subrange(0, i as int)).contains_key(v)
                    && map_of(sq.subrange(0, i as int))[v] == full[v],
                !full.contains_key(v) ==> !map_of(sq.subrange(0, i as int)).contains_key(v),
            decreases i,
        {
            let ghost cur = sq.subrange(0, i as int);
            proof {
                assert(cur.len() == i);
                assert(cur.last() == sq[i - 1]);
                assert(cur.drop_last() =~= sq.subrange(0, i - 1));
            }
            if self.substitution[i - 1].0.id == v.id {
                proof {
                    assert(sq[i - 1].0 == v);
                    assert(map_of(cur) == map_of(cur.drop_last()).insert(v, sq[i - 1].1));
                    assert(map_of(cur).contains_key(v));
                    assert(map_of(cur)[v] == sq[i - 1].1);
                    assert(full.contains_key(v));
                    assert(full[v] == sq[i - 1].1);
                }
                return Some(self.substitution[i - 1].1);
            }
            proof {
                assert(sq[i - 1].0 != v);
                assert(map_of(cur) == map_of(cur.drop_last()).insert(sq[i - 1].0, sq[i - 1].1));
            }
            i -= 1;
        }
        proof {
            assert(sq.subrange(0, 0) =~= Seq::<(Variable, Variable)>::empty());
            assert(map_of(sq.subrange(0, 0)) == Map::<Variable, Variable>::empty());
            assert(!map_of(sq.subrange(0, 0)).contains_key(v));
        }
        None
    }

    /// Whether the variable may not be substituted away.
    fn is_protected(&self, v: Variable) -> (r: bool)
        ensures
            r == self.sv().protected.contains(v),
    {
        let n = self.protected.len();
        let mut i: usize = 0;
        while i < n
            invariant
                0 <= i <= n,
                n == self.protected.len(),
                forall|k: int| 0 <= k < i ==> self.protected@[k] != v,
            decreases n - i,
        {
            if self.protected[i].id == v.id {
                proof {
                    assert(self.protected@[i as int] == v);
                    assert(self.protected@.contains(v));
                }
                return true;
            }
            i += 1;
        }
        proof {
            assert(!self.protected@.contains(v)) by {
                if self.protected@.contains(v) {
                    let k = choose|k: int|
                        0 <= k < self.protected@.len() && self.protected@[k] == v;
                    assert(false);
                }
            }
        }
        false
    }
}

impl Folder for RedefinitionOptimizer {
    type SV = RedefSV;

    closed spec fn sv(&self) -> RedefSV {
        RedefSV { subst: map_of(self.substitution@), protected: self.protected@.to_set() }
    }

    open spec fn arg_map(sv: RedefSV, a: Parameter) -> Parameter {
        Parameter { id: subst_var(sv, a.id), private: a.private }
    }

    open spec fn var_map(sv: RedefSV, v: Variable) -> Variable {
        subst_var(sv, v)
    }

    open spec fn lc_map(sv: RedefSV, l: LinCombV) -> LinCombV {
        lc_subst(sv, l)
    }

    open spec fn qc_map(sv: RedefSV, q: QuadCombV) -> QuadCombV {
        qc_subst(sv, q)
    }

    open spec fn dir_map(sv: RedefSV, d: DirectiveV) -> DirectiveV {
        dir_subst(sv, d)
    }

    open spec fn stmt_out(sv: RedefSV, s: StatementV) -> Seq<StatementV> {
        stmt_redef(sv, s)
    }

    open spec fn stmt_sv(sv: RedefSV, s: StatementV) -> RedefSV {
        sv_redef(sv, s)
    }

    fn fold_argument(&mut self, a: Parameter) -> (r: Parameter) {
        let id = self.fold_variable(a.id);
        Parameter { id, private: a.private }
    }

    fn fold_variable(&mut self, v: Variable) -> (r: Variable) {
        match self.lookup(v) {
            Some(x) => x,
            None => v,
        }
    }

    fn fold_linear_combination(&mut self, l: LinComb) -> (r: LinComb) {
        let ghost sv0 = self.sv();
        let n = l.0.len();
        let mut out: Vec<(Variable, crate::field::FieldElem)> = Vec::new();
        let mut i: usize = 0;
        while i < n
            invariant
                0 <= i <= n,
                n == l.0.len(),
                self.sv() == sv0,
                out@ == lc_subst(sv0, l@.subrange(0, i as int)),
            decreases n - i,
        {
            let t = l.0[i];
            let v = self.fold_variable(t.0);
            out.push((v, t.1));
            proof {
                assert(l@.subrange(0, i + 1 as int) =~= l@.subrange(0, i as int).push(
                    l@[i as int],
                ));
                assert(out@ =~= lc_subst(sv0, l@.subrange(0, i + 1 as int)));
            }
            i += 1;
        }
        proof {
            assert(l@.subrange(0, n as int) =~= l@);
        }
        LinComb(out)
    }

    fn fold_quadratic_combination(&mut self, q: QuadComb) -> (r: QuadComb) {
        let left = self.fold_linear_combination(q.left);
        let right = self.fold_linear_combination(q.right);
        let r = QuadComb { left, right };
        proof {
            assert(r@ =~= qc_subst(self.sv(), q@));
        }
        r
    }

    fn fold_directive(&mut self, d: Directive) -> (r: Directive) {
        let ghost sv0 = self.sv();
        let ghost dv = d@;
        let Directive { inputs, outputs, solver } = d;
        let mut inputs = inputs;
        let n = inputs.len();
        let mut new_inputs: Vec<QuadComb> = Vec::new();
        proof {
            assert(qcs_view(inputs@) == dv.inputs);
            assert(dv.inputs.subrange(0, n as int) =~= dv.inputs);
            assert(qcs_view(new_inputs@) =~= Seq::<QuadCombV>::empty());
            assert(dv.inputs.subrange(0, 0) =~= Seq::<QuadCombV>::empty());
        }
        let mut i: usize = 0;
        while i < n
            invariant
                0 <= i <= n,
                n == dv.inputs.len(),
                self.sv() == sv0,
                qcs_view(inputs@) == dv.inputs.subrange(i as int, n as int),
                qcs_view(new_inputs@) == dv.inputs.subrange(0, i as int).map_values(
                    |q: QuadCombV| qc_subst(sv0, q),
                ),
            decreases n - i,
        {
            let ghost inputs0 = inputs@;
            let q = inputs.remove(0);
            proof {
                assert(dv.inputs.subrange(i as int, n as int)[0] == inputs0[0]@);
                assert(inputs@ =~= inputs0.drop_first());
                crate::ir::lemma_qcs_view_drop_first(inputs0);
                assert(qcs_view(inputs@) =~= dv.inputs.subrange(i + 1 as int, n as int));
            }
            let q2 = self.fold_quadratic_combination(q);
            let ghost kept = new_inputs@;
            new_inputs.push(q2);
            proof {
                crate::ir::lemma_qcs_view_push(kept, q2);
                assert(qcs_view(new_inputs@) =~= dv.inputs.subrange(0, i + 1 as int).map_values(
                    |q: QuadCombV| qc_subst(sv0, q),
                ));
            }
            i += 1;
        }
        let m = outputs.len();
        let mut new_outputs: Vec<Variable> = Vec::new();
        let mut k: usize = 0;
        while k < m
            invariant
                0 <= k <= m,
                m == outputs.len(),
                self.sv() == sv0,
                qcs_view(new_inputs@) == dv.inputs.map_values(|q: QuadCombV| qc_subst(sv0, q)),
                new_outputs@ == outputs@.subrange(0, k as int).map_values(
                    |v: Variable| subst_var(sv0, v),
                ),
            decreases m - k,
        {
            let v2 = self.fold_variable(outputs[k]);
            new_outputs.push(v2);
            proof {
                assert(new_outputs@ =~= outputs@.subrange(0, k + 1 as int).map_values(
                    |v: Variable| subst_var(sv0, v),
                ));
            }
            k += 1;
        }
        proof {
            assert(outputs@.subrange(0, m as int) =~= outputs@);
        }
        let r = Directive { inputs: new_inputs, outputs: new_outputs, solver };
        proof {
            assert(r@ =~= dir_subst(sv0, dv));
        }
        r
    }

    fn fold_statement(&mut self, s: Statement) -> (out: Vec<Statement>) {
        let ghost sv0 = self.sv();
        let ghost s_v = s@;
        let mut out: Vec<Statement> = Vec::new();
        match s {
            Statement::Constraint(q, l, m) => {
                let q2 = self.fold_quadratic_combination(q);
                let l2 = self.fold_linear_combination(l);
                let lin_c = canonicalize(&l2);
                let mut eliminated = false;
                if lin_c.0.len() == 1 && lin_c.0[0].1.is_one() {
                    let y = lin_c.0[0].0;
                    if !self.is_protected(y) {
                        let one = one_lc();
                        let cl = canonicalize(&q2.left);
                        let cr = canonicalize(&q2.right);
                        if lc_eq(&cl, &one) {
                            if cr.0.len() == 1 && cr.0[0].1.is_one() {
                                let x = cr.0[0].0;
                                let ghost subst0 = self.substitution@;
                                self.substitution.push((y, x));
                                proof {
                                    assert(self.substitution@.drop_last() =~= subst0);
                                    assert(map_of(self.substitution@) == map_of(subst0).insert(
                                        y,
                                        x,
                                    ));
                                    assert(target_of(sv0, q2@, l2@) == Option::Some((y, x)));
                                    assert(self.sv() =~= sv_redef(sv0, s_v));
                                }
                                eliminated = true;
                            }
                        } else if lc_eq(&cr, &one) {
                            if cl.0.len() == 1 && cl.0[0].1.is_one() {
                                let x = cl.0[0].0;
                                let ghost subst0 = self.substitution@;
                                self.substitution.push((y, x));
                                proof {
                                    assert(self.substitution@.drop_last() =~= subst0);
                                    assert(map_of(self.substitution@) == map_of(subst0).insert(
                                        y,
                                        x,
                                    ));
                                    assert(target_of(sv0, q2@, l2@) == Option::Some((y, x)));
                                    assert(self.sv() =~= sv_redef(sv0, s_v));
                                }
                                eliminated = true;
                            }
                        }
                    }
                }
                if !eliminated {
                    proof {
                        assert(target_of(sv0, q2@, l2@) is None);
                        assert(self.sv() =~= sv_redef(sv0, s_v));
                    }
                    out.push(Statement::Constraint(q2, l2, m));
                }
            },
            Statement::Directive(d) => {
                let d2 = self.fold_directive(d);
                let ghost d2v = d2@;
                let m = d2.outputs.len();
                let mut k: usize = 0;
                proof {
                    assert(d2v.outputs.subrange(0, 0) =~= Seq::<Variable>::empty());
                    assert(sv0.protected.union(d2v.outputs.subrange(0, 0).to_set())
                        =~= sv0.protected);
                }
                while k < m
                    invariant
                        0 <= k <= m,
                        m == d2.outputs.len(),
                        d2v == d2@,
                        map_of(self.substitution@) == sv0.subst,
                        self.protected@.to_set() == sv0.protected.union(
                            d2v.outputs.subrange(0, k as int).to_set(),
                        ),
                    decreases m - k,
                {
                    let ghost pk = self.protected@;
                    let o = d2.outputs[k];
                    self.protected.push(o);
                    proof {
                        pk.lemma_push_to_set_commute(o);
                        assert(d2v.outputs.subrange(0, k + 1 as int) =~= d2v.outputs.subrange(
                            0,
                            k as int,
                        ).push(d2v.outputs[k as int]));
                        d2v.outputs.subrange(0, k as int).lemma_push_to_set_commute(
                            d2v.outputs[k as int],
                        );
                        assert(self.protected@.to_set() =~= sv0.protected.union(
                            d2v.outputs.subrange(0, k + 1 as int).to_set(),
                        ));
                    }
                    k += 1;
                }
                proof {
                    assert(d2v.outputs.subrange(0, m as int) =~= d2v.outputs);
                    assert(self.sv() =~= sv_redef(sv0, s_v));
                }
                out.push(Statement::Directive(d2));
            },
        }
        proof {
            assert(crate::ir::stmts_view(out@) =~= stmt_redef(sv0, s_v));
        }
        out
    }
}

} // verus!
