//! The flattened constraint IR: variables, linear and quadratic
//! combinations, statements, and whole programs, together with their
//! mathematical views and the satisfaction semantics that the optimization
//! passes preserve.

use vstd::prelude::*;
use crate::field::{FieldElem, FIELD_MODULUS};

verus! {

/// The id of the reserved wire that carries the multiplicative identity.
pub const ONE_WIRE_ID: u64 = 0;

/// A wire of the constraint system. Equality is identity of ids.
#[derive(Clone, Copy, PartialEq, Eq, Structural, Debug, Hash)]
pub struct Variable {
    pub id: u64,
}

impl Variable {
    /// The reserved wire whose value is the constant one.
    pub fn one_wire() -> (r: Self)
        ensures
            r == (Variable { id: ONE_WIRE_ID }),
    {
        Variable { id: ONE_WIRE_ID }
    }

    pub fn new(id: u64) -> (r: Self)
        ensures
            r == (Variable { id: id }),
    {
        Variable { id }
    }

    pub open spec fn is_one_wire(self) -> bool {
        self.id == ONE_WIRE_ID
    }
}

/// A program argument: a wire plus its visibility.
#[derive(Clone, Copy, PartialEq, Eq, Structural, Debug)]
pub struct Parameter {
    pub id: Variable,
    pub private: bool,
}

/// The view of a linear combination: its ordered terms.
pub type LinCombV = Seq<(Variable, FieldElem)>;

/// A weighted sum of wires.
#[derive(Debug)]
pub struct LinComb(pub Vec<(Variable, FieldElem)>);

impl View for LinComb {
    type V = LinCombV;

    open spec fn view(&self) -> LinCombV {
        self.0@
    }
}

/// The view of a quadratic combination.
#[verifier::ext_equal]
pub struct QuadCombV {
    pub left: LinCombV,
    pub right: LinCombV,
}

/// A product of two linear combinations.
#[derive(Debug)]
pub struct QuadComb {
    pub left: LinComb,
    pub right: LinComb,
}

impl View for QuadComb {
    type V = QuadCombV;

    open spec fn view(&self) -> QuadCombV {
        QuadCombV { left: self.left@, right: self.right@ }
    }
}

/// The view of a directive.
#[verifier::ext_equal]
pub struct DirectiveV {
    pub inputs: Seq<QuadCombV>,
    pub outputs: Seq<Variable>,
    pub solver: u64,
}

/// An out-of-circuit hint: the solver computes the outputs from the
/// inputs; nothing about that computation is enforced by constraints.
#[derive(Debug)]
pub struct Directive {
    pub inputs: Vec<QuadComb>,
    pub outputs: Vec<Variable>,
    pub solver: u64,
}

impl View for Directive {
    type V = DirectiveV;

    open spec fn view(&self) -> DirectiveV {
        DirectiveV {
            inputs: self.inputs@.map_values(|q: QuadComb| q@),
            outputs: self.outputs@,
            solver: self.solver,
        }
    }
}

/// The view of a statement.
#[verifier::ext_equal]
pub enum StatementV {
    Constraint(QuadCombV, LinCombV, Option<Seq<char>>),
    Directive(DirectiveV),
}

/// One statement of the flattened program: an enforced equation
/// `left * right = result`, or a witness-producing directive.
#[derive(Debug)]
pub enum Statement {
    Constraint(QuadComb, LinComb, Option<String>),
    Directive(Directive),
}

impl View for Statement {
    type V = StatementV;

    open spec fn view(&self) -> StatementV {
        match self {
            Statement::Constraint(q, l, m) => StatementV::Constraint(
                q@,
                l@,
                match m {
                    Option::Some(s) => Option::Some(s@),
                    Option::None => Option::None,
                },
            ),
            Statement::Directive(d) => StatementV::Directive(d@),
        }
    }
}

/// The view of a program.
#[verifier::ext_equal]
pub struct ProgV {
    pub arguments: Seq<Parameter>,
    pub statements: Seq<StatementV>,
    pub returns: Seq<Variable>,
}

/// A whole flattened program.
#[derive(Debug)]
pub struct Prog {
    pub arguments: Vec<Parameter>,
    pub statements: Vec<Statement>,
    pub returns: Vec<Variable>,
}

impl View for Prog {
    type V = ProgV;

    open spec fn view(&self) -> ProgV {
        ProgV {
            arguments: self.arguments@,
            statements: self.statements@.map_values(|s: Statement| s@),
            returns: self.returns@,
        }
    }
}

/// The views of a run of statements.
pub open spec fn stmts_view(s: Seq<Statement>) -> Seq<StatementV> {
    s.map_values(|t: Statement| t@)
}

pub broadcast proof fn lemma_stmts_view(s: Seq<Statement>)
    ensures
        (#[trigger] stmts_view(s)).len() == s.len(),
        forall|i: int| 0 <= i < s.len() ==> stmts_view(s)[i] == s[i]@,
{
}

/// The views of a run of quadratic combinations.
pub open spec fn qcs_view(s: Seq<QuadComb>) -> Seq<QuadCombV> {
    s.map_values(|q: QuadComb| q@)
}

pub broadcast proof fn lemma_qcs_view(s: Seq<QuadComb>)
    ensures
        (#[trigger] qcs_view(s)).len() == s.len(),
        forall|i: int| 0 <= i < s.len() ==> qcs_view(s)[i] == s[i]@,
{
}

pub proof fn lemma_stmts_view_drop_first(s: Seq<Statement>)
    requires
        s.len() > 0,
    ensures
        stmts_view(s.drop_first()) == stmts_view(s).drop_first(),
{
    lemma_stmts_view(s);
    lemma_stmts_view(s.drop_first());
    assert(stmts_view(s.drop_first()) =~= stmts_view(s).drop_first());
}

pub proof fn lemma_stmts_view_push(s: Seq<Statement>, x: Statement)
    ensures
        stmts_view(s.push(x)) == stmts_view(s).push(x@),
{
    lemma_stmts_view(s);
    lemma_stmts_view(s.push(x));
    assert(stmts_view(s.push(x)) =~= stmts_view(s).push(x@));
}

pub proof fn lemma_qcs_view_drop_first(s: Seq<QuadComb>)
    requires
        s.len() > 0,
    ensures
        qcs_view(s.drop_first()) == qcs_view(s).drop_first(),
{
    lemma_qcs_view(s);
    lemma_qcs_view(s.drop_first());
    assert(qcs_view(s.drop_first()) =~= qcs_view(s).drop_first());
}

pub proof fn lemma_qcs_view_push(s: Seq<QuadComb>, x: QuadComb)
    ensures
        qcs_view(s.push(x)) == qcs_view(s).push(x@),
{
    lemma_qcs_view(s);
    lemma_qcs_view(s.push(x));
    assert(qcs_view(s.push(x)) =~= qcs_view(s).push(x@));
}

/// The view of the linear combination `1`, as canonicalization emits it.
pub open spec fn one_lc_v() -> LinCombV {
    seq![(Variable { id: ONE_WIRE_ID }, FieldElem { raw: 1 })]
}

/// A fresh linear combination with the same terms.
pub fn lc_copy(l: &LinComb) -> (r: LinComb)
    ensures
        r@ == l@,
{
    let n = l.0.len();
    let mut out: Vec<(Variable, FieldElem)> = Vec::new();
    let mut i: usize = 0;
    while i < n
        invariant
            0 <= i <= n,
            n == l.0.len(),
            out@ == l@.subrange(0, i as int),
        decreases n - i,
    {
        out.push(l.0[i]);
        proof {
            assert(out@ =~= l@.subrange(0, i + 1 as int));
        }
        i += 1;
    }
    proof {
        assert(l@.subrange(0, n as int) =~= l@);
    }
    LinComb(out)
}

/// A fresh quadratic combination with the same sides.
pub fn qc_copy(q: &QuadComb) -> (r: QuadComb)
    ensures
        r@ == q@,
{
    let r = QuadComb { left: lc_copy(&q.left), right: lc_copy(&q.right) };
    proof {
        assert(r@ =~= q@);
    }
    r
}

/// The linear combination `1`: the reserved wire with coefficient one.
pub fn one_lc() -> (r: LinComb)
    ensures
        r@ == one_lc_v(),
{
    let mut terms: Vec<(Variable, FieldElem)> = Vec::new();
    terms.push((Variable::one_wire(), FieldElem { raw: 1 }));
    proof {
        assert(terms@ =~= one_lc_v());
    }
    LinComb(terms)
}

/// An assignment of field values to wires is admissible when it gives the
/// reserved wire the value one and stays inside the field.
pub open spec fn asg_ok(a: spec_fn(Variable) -> int) -> bool {
    &&& a(Variable { id: ONE_WIRE_ID }) == 1
    &&& forall|v: Variable| 0 <= #[trigger] a(v) < FIELD_MODULUS as int
}

/// The value of a linear combination under an assignment, in the field.
pub open spec fn lc_eval(l: LinCombV, a: spec_fn(Variable) -> int) -> int
    decreases l.len(),
{
    if l.len() == 0 {
        0
    } else {
        (l[0].1.value() * a(l[0].0) + lc_eval(l.drop_first(), a)) % (FIELD_MODULUS as int)
    }
}

/// The value of a quadratic combination: the product of its sides.
pub open spec fn qc_eval(q: QuadCombV, a: spec_fn(Variable) -> int) -> int {
    (lc_eval(q.left, a) * lc_eval(q.right, a)) % (FIELD_MODULUS as int)
}

/// Whether an assignment satisfies a statement. A directive is not a
/// constraint: it restricts nothing.
pub open spec fn stmt_sat(s: StatementV, a: spec_fn(Variable) -> int) -> bool {
    match s {
        StatementV::Constraint(q, l, _) => qc_eval(q, a) == lc_eval(l, a),
        StatementV::Directive(_) => true,
    }
}

/// Whether an assignment satisfies every statement of a sequence.
pub open spec fn stmts_sat(ss: Seq<StatementV>, a: spec_fn(Variable) -> int) -> bool {
    forall|i: int| 0 <= i < ss.len() ==> stmt_sat(#[trigger] ss[i], a)
}

/// Whether an assignment satisfies a program.
pub open spec fn prog_sat(p: ProgV, a: spec_fn(Variable) -> int) -> bool {
    stmts_sat(p.statements, a)
}

/// The value of a linear combination is always a field residue.
pub proof fn lemma_lc_eval_bounds(l: LinCombV, a: spec_fn(Variable) -> int)
    ensures
        0 <= lc_eval(l, a) < FIELD_MODULUS as int,
    decreases l.len(),
{
    if l.len() == 0 {
    } else {
        lemma_lc_eval_bounds(l.drop_first(), a);
        vstd::arithmetic::div_mod::lemma_mod_bound(
            l[0].1.value() * a(l[0].0) + lc_eval(l.drop_first(), a),
            FIELD_MODULUS as int,
        );
    }
}

/// The value a finite witness gives a wire; unassigned wires read zero.
pub open spec fn asg_lookup(entries: Seq<(Variable, u64)>, v: Variable) -> int
    decreases entries.len(),
{
    if entries.len() == 0 {
        0
    } else if entries[0].0 == v {
        entries[0].1 as int
    } else {
        asg_lookup(entries.drop_first(), v)
    }
}

/// A finite witness as an assignment.
pub open spec fn asg_view(entries: Seq<(Variable, u64)>) -> spec_fn(Variable) -> int {
    |v: Variable| asg_lookup(entries, v)
}

/// Read one wire of a witness.
fn lookup_value(entries: &Vec<(Variable, u64)>, v: Variable) -> (r: u64)
    ensures
        r as int == asg_lookup(entries@, v),
{
    let n = entries.len();
    proof {
        assert(entries@.subrange(0, n as int) =~= entries@);
    }
    let mut i: usize = 0;
    while i < n
        invariant
            0 <= i <= n,
            n == entries.len(),
            asg_lookup(entries@, v) == asg_lookup(entries@.subrange(i as int, n as int), v),
        decreases n - i,
    {
        let ghost cur = entries@.subrange(i as int, n as int);
        proof {
            assert(cur[0] == entries@[i as int]);
            assert(cur.drop_first() =~= entries@.subrange(i + 1 as int, n as int));
        }
        if entries[i].0.id == v.id {
            proof {
                assert(entries@[i as int].0 == v);
            }
            return entries[i].1;
        }
        proof {
            assert(entries@[i as int].0 != v);
        }
        i += 1;
    }
    proof {
        assert(entries@.subrange(n as int, n as int) =~= Seq::<(Variable, u64)>::empty());
    }
    0
}

/// The value of a linear combination under a finite witness.
pub fn lc_value(l: &LinComb, entries: &Vec<(Variable, u64)>) -> (r: u64)
    ensures
        r as int == lc_eval(l@, asg_view(entries@)),
        r < FIELD_MODULUS,
{
    let ghost a = asg_view(entries@);
    let ghost m = FIELD_MODULUS as int;
    let n = l.0.len();
    let mut acc: u64 = 0;
    let mut i: usize = n;
    proof {
        assert(l@.subrange(n as int, n as int) =~= Seq::<(Variable, FieldElem)>::empty());
        assert(lc_eval(l@.subrange(n as int, n as int), a) == 0);
    }
    while i > 0
        invariant
            0 <= i <= n,
            n == l.0.len(),
            a == asg_view(entries@),
            m == FIELD_MODULUS as int,
            acc < FIELD_MODULUS,
            acc as int == lc_eval(l@.subrange(i as int, n as int), a),
        decreases i,
    {
        let t = l.0[i - 1];
        let looked = lookup_value(entries, t.0);
        let av = looked % FIELD_MODULUS;
        let cv = t.1.raw % FIELD_MODULUS;
        proof {
            assert(cv * av < FIELD_MODULUS * FIELD_MODULUS) by (nonlinear_arith)
                requires
                    cv < FIELD_MODULUS,
                    av < FIELD_MODULUS,
            ;
        }
        let prod = cv * av;
        let acc2 = (acc + prod % FIELD_MODULUS) % FIELD_MODULUS;
        proof {
            let cur = l@.subrange(i - 1, n as int);
            assert(cur[0] == l@[i - 1]);
            assert(cur.drop_first() =~= l@.subrange(i as int, n as int));
            let raw_a = asg_lookup(entries@, t.0);
            assert(asg_view(entries@)(t.0) == raw_a);
            assert(a(t.0) == raw_a);
            assert(looked as int == raw_a);
            assert(av as int == raw_a % m);
            assert(cv as int == t.1.value());
            vstd::arithmetic::div_mod::lemma_mul_mod_noop_right(t.1.value(), raw_a, m);
            assert((t.1.value() * (raw_a % m)) % m == (t.1.value() * raw_a) % m);
            vstd::arithmetic::div_mod::lemma_add_mod_noop_right(
                t.1.value() * raw_a,
                acc as int,
                m,
            );
            vstd::arithmetic::div_mod::lemma_add_mod_noop_right(
                acc as int,
                t.1.value() * raw_a,
                m,
            );
            assert((t.1.value() * raw_a + acc as int) % m == (t.1.value() * raw_a + (acc as int)
                % m) % m) by {
                vstd::arithmetic::div_mod::lemma_small_mod(acc as nat, FIELD_MODULUS as nat);
            }
            assert(acc2 as int == (t.1.value() * raw_a + acc as int) % m);
            assert(lc_eval(cur, a) == (t.1.value() * a(t.0) + lc_eval(cur.drop_first(), a)) % m);
        }
        acc = acc2;
        i -= 1;
    }
    proof {
        assert(l@.subrange(0, n as int) =~= l@);
    }
    acc
}

/// Whether a statement holds under a finite witness: the enforced
/// equation for a constraint; always, for a directive.
pub fn stmt_holds(s: &Statement, entries: &Vec<(Variable, u64)>) -> (r: bool)
    ensures
        r == stmt_sat(s@, asg_view(entries@)),
{
    let ghost m = FIELD_MODULUS as int;
    match s {
        Statement::Constraint(q, l, _) => {
            let lv = lc_value(&q.left, entries);
            let rv = lc_value(&q.right, entries);
            let ov = lc_value(l, entries);
            proof {
                assert(lv * rv < FIELD_MODULUS * FIELD_MODULUS) by (nonlinear_arith)
                    requires
                        lv < FIELD_MODULUS,
                        rv < FIELD_MODULUS,
                ;
            }
            let prod = (lv * rv) % FIELD_MODULUS;
            proof {
                assert(lv < FIELD_MODULUS && rv < FIELD_MODULUS);
                assert(prod as int == (lc_eval(q.left@, asg_view(entries@)) * lc_eval(
                    q.right@,
                    asg_view(entries@),
                )) % m);
            }
            prod == ov
        },
        Statement::Directive(_) => true,
    }
}

/// Whether every statement of a program holds under a finite witness.
pub fn prog_holds(p: &Prog, entries: &Vec<(Variable, u64)>) -> (r: bool)
    ensures
        r == prog_sat(p@, asg_view(entries@)),
{
    let n = p.statements.len();
    let mut i: usize = 0;
    while i < n
        invariant
            0 <= i <= n,
            n == p.statements.len(),
            forall|k: int| 0 <= k < i ==> stmt_sat(#[trigger] p@.statements[k], asg_view(
                entries@,
            )),
        decreases n - i,
    {
        proof {
            lemma_stmts_view(p.statements@);
        }
        if !stmt_holds(&p.statements[i], entries) {
            proof {
                assert(p@.statements[i as int] == p.statements@[i as int]@);
                assert(!stmt_sat(p@.statements[i as int], asg_view(entries@)));
            }
            return false;
        }
        proof {
            assert(p@.statements[i as int] == p.statements@[i as int]@);
        }
        i += 1;
    }
    proof {
        lemma_stmts_view(p.statements@);
    }
    true
}

} // verus!
