use circ_opt::canonical::{canonicalize, lc_eq, qc_eq};
use circ_opt::field::{FieldElem, FIELD_MODULUS};
use circ_opt::folder::{fold_module, DefaultFolder};
use circ_opt::ir::{one_lc, Directive, LinComb, Parameter, Prog, QuadComb, Statement, Variable};

fn fe(raw: u64) -> FieldElem {
    FieldElem { raw }
}

fn v(id: u64) -> Variable {
    Variable::new(id)
}

fn lc(terms: Vec<(u64, u64)>) -> LinComb {
    LinComb(terms.into_iter().map(|(id, c)| (v(id), fe(c))).collect())
}

fn stmt_eq(a: &Statement, b: &Statement) -> bool {
    match (a, b) {
        (Statement::Constraint(qa, la, ma), Statement::Constraint(qb, lb, mb)) => {
            qc_eq(qa, qb) && lc_eq(la, lb) && ma == mb
        }
        (Statement::Directive(da), Statement::Directive(db)) => {
            da.solver == db.solver
                && da.outputs == db.outputs
                && da.inputs.len() == db.inputs.len()
                && da.inputs.iter().zip(db.inputs.iter()).all(|(x, y)| qc_eq(x, y))
        }
        _ => false,
    }
}

fn prog_eq(a: &Prog, b: &Prog) -> bool {
    a.arguments == b.arguments
        && a.returns == b.returns
        && a.statements.len() == b.statements.len()
        && a.statements.iter().zip(b.statements.iter()).all(|(x, y)| stmt_eq(x, y))
}

#[test]
fn field_arithmetic_reduces() {
    let a = fe(FIELD_MODULUS + 1);
    assert_eq!(a.reduce().raw, 1);
    assert!(a.is_one());
    let b = fe(FIELD_MODULUS - 1);
    let s = b.add_mod(fe(1));
    assert!(s.is_zero());
    assert!(fe(5).same_value(fe(FIELD_MODULUS + 5)));
}

#[test]
fn canonical_merges_sorts_and_drops_zeros() {
    // duplicate-variable terms split across entries, out of order
    let l = lc(vec![(3, 4), (1, 1), (3, 1), (2, 0)]);
    let c = canonicalize(&l);
    let expected = lc(vec![(1, 1), (3, 5)]);
    assert!(lc_eq(&c, &expected));
}

#[test]
fn canonical_reduces_coefficients() {
    let l = lc(vec![(1, FIELD_MODULUS + 2)]);
    let c = canonicalize(&l);
    assert!(lc_eq(&c, &lc(vec![(1, 2)])));
}

#[test]
fn canonical_form_determinism() {
    // same terms in different insertion orders, duplicates split differently
    let a = lc(vec![(1, 2), (2, 3), (1, 5)]);
    let b = lc(vec![(2, 1), (1, 7), (2, 2)]);
    let ca = canonicalize(&a);
    let cb = canonicalize(&b);
    assert!(lc_eq(&ca, &cb));
}

#[test]
fn canonical_idempotent() {
    let l = lc(vec![(5, 9), (2, 0), (5, 1), (4, 3)]);
    let once = canonicalize(&l);
    let twice = canonicalize(&once);
    assert!(lc_eq(&once, &twice));
}

#[test]
fn one_lc_is_the_reserved_wire() {
    let one = one_lc();
    assert!(lc_eq(&one, &lc(vec![(0, 1)])));
}

#[test]
fn default_folder_is_identity() {
    let p = Prog {
        arguments: vec![Parameter { id: v(1), private: true }],
        statements: vec![
            Statement::Constraint(
                QuadComb { left: lc(vec![(1, 1)]), right: lc(vec![(0, 1)]) },
                lc(vec![(2, 1)]),
                Some("named".to_string()),
            ),
            Statement::Directive(Directive {
                inputs: vec![QuadComb { left: lc(vec![(1, 1)]), right: lc(vec![(0, 1)]) }],
                outputs: vec![v(3)],
                solver: 7,
            }),
        ],
        returns: vec![v(2)],
    };
    let copy = Prog {
        arguments: p.arguments.clone(),
        statements: vec![
            Statement::Constraint(
                QuadComb { left: lc(vec![(1, 1)]), right: lc(vec![(0, 1)]) },
                lc(vec![(2, 1)]),
                Some("named".to_string()),
            ),
            Statement::Directive(Directive {
                inputs: vec![QuadComb { left: lc(vec![(1, 1)]), right: lc(vec![(0, 1)]) }],
                outputs: vec![v(3)],
                solver: 7,
            }),
        ],
        returns: p.returns.clone(),
    };
    let mut f = DefaultFolder;
    let folded = fold_module(&mut f, p);
    assert!(prog_eq(&folded, &copy));
}

#[test]
fn canonical_of_empty_is_empty() {
    let c = canonicalize(&lc(vec![]));
    assert!(c.0.is_empty());
}

#[test]
fn lc_eq_distinguishes() {
    assert!(!lc_eq(&lc(vec![(1, 2)]), &lc(vec![(1, 3)])));
    assert!(!lc_eq(&lc(vec![(1, 2)]), &lc(vec![(2, 2)])));
    assert!(lc_eq(&lc(vec![(1, 2)]), &lc(vec![(1, 2)])));
}
