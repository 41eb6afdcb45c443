use circ_opt::canonical::{lc_eq, qc_eq};
use circ_opt::field::FieldElem;
use circ_opt::ir::{Directive, LinComb, Parameter, Prog, QuadComb, Statement, Variable};

fn fe(raw: u64) -> FieldElem {
    FieldElem { raw }
}

fn v(id: u64) -> Variable {
    Variable::new(id)
}

fn lc(terms: Vec<(u64, u64)>) -> LinComb {
    LinComb(terms.into_iter().map(|(id, c)| (v(id), fe(c))).collect())
}

fn one() -> LinComb {
    lc(vec![(0, 1)])
}

fn constraint(left: Vec<(u64, u64)>, right: Vec<(u64, u64)>, out: Vec<(u64, u64)>) -> Statement {
    Statement::Constraint(QuadComb { left: lc(left), right: lc(right) }, lc(out), None)
}

fn stmt_eq(a: &Statement, b: &Statement) -> bool {
    match (a, b) {
        (Statement::Constraint(qa, la, ma), Statement::Constraint(qb, lb, mb)) => {
            qc_eq(qa, qb) && lc_eq(la, lb) && ma == mb
        }
        (Statement::Directive(da), Statement::Directive(db)) => {
            da.solver == db.solver
                && da.outputs == db.outputs
                && da.inputs.len() == db.inputs.len()
                && da.inputs.iter().zip(db.inputs.iter()).all(|(x, y)| qc_eq(x, y))
        }
        _ => false,
    }
}

fn prog_eq(a: &Prog, b: &Prog) -> bool {
    a.arguments == b.arguments
        && a.returns == b.returns
        && a.statements.len() == b.statements.len()
        && a.statements.iter().zip(b.statements.iter()).all(|(x, y)| stmt_eq(x, y))
}

fn mentions(s: &Statement, id: u64) -> bool {
    let in_lc = |l: &LinComb| l.0.iter().any(|t| t.0.id == id);
    let in_qc = |q: &QuadComb| in_lc(&q.left) || in_lc(&q.right);
    match s {
        Statement::Constraint(q, l, _) => in_qc(q) || in_lc(l),
        Statement::Directive(d) => {
            d.inputs.iter().any(in_qc) || d.outputs.iter().any(|o| o.id == id)
        }
    }
}

#[test]
fn tautology_removed() {
    // the constraint x * 1 = x is trivially true and disappears
    let p = Prog {
        arguments: vec![Parameter { id: v(1), private: false }],
        statements: vec![constraint(vec![(1, 1)], vec![(0, 1)], vec![(1, 1)])],
        returns: vec![],
    };
    let before = p.statements.len();
    let r = p.optimize();
    assert!(r.statements.len() < before);
    assert_eq!(r.statements.len(), 0);
}

#[test]
fn redefinition_eliminated_and_references_rewritten() {
    // y := x + 0 is a pure redefinition; the later constraint on y
    // must afterwards speak of x directly
    let x = 1;
    let y = 2;
    let p = Prog {
        arguments: vec![Parameter { id: v(x), private: true }],
        statements: vec![
            constraint(vec![(0, 1)], vec![(x, 1), (0, 0)], vec![(y, 1)]),
            constraint(vec![(y, 1)], vec![(y, 1)], vec![(y, 1)]),
        ],
        returns: vec![v(y)],
    };
    let r = p.optimize();
    assert_eq!(r.statements.len(), 1);
    assert!(!mentions(&r.statements[0], y));
    assert!(mentions(&r.statements[0], x));
    // the substitution is visible at the program boundary
    assert_eq!(r.returns, vec![v(x)]);
}

#[test]
fn argument_redefinition_protected() {
    // y is a program argument: its defining statement must survive
    let p = Prog {
        arguments: vec![
            Parameter { id: v(1), private: true },
            Parameter { id: v(2), private: false },
        ],
        statements: vec![constraint(vec![(0, 1)], vec![(1, 1)], vec![(2, 1)])],
        returns: vec![],
    };
    let r = p.optimize();
    assert_eq!(r.statements.len(), 1);
    assert!(mentions(&r.statements[0], 2));
    assert_eq!(r.arguments.len(), 2);
}

#[test]
fn directive_output_redefinition_protected() {
    // y is a directive output: the statement defining it survives, and
    // so does the directive, whose output stays referenced
    let x = 1;
    let y = 2;
    let p = Prog {
        arguments: vec![Parameter { id: v(x), private: true }],
        statements: vec![
            Statement::Directive(Directive {
                inputs: vec![QuadComb { left: lc(vec![(x, 1)]), right: one() }],
                outputs: vec![v(y)],
                solver: 3,
            }),
            constraint(vec![(0, 1)], vec![(x, 1)], vec![(y, 1)]),
        ],
        returns: vec![],
    };
    let r = p.optimize();
    assert_eq!(r.statements.len(), 2);
    assert!(matches!(r.statements[0], Statement::Directive(_)));
    assert!(mentions(&r.statements[1], y));
}

#[test]
fn duplicates_collapse_ignoring_messages() {
    // same canonical signature under different insertion orders and
    // different diagnostic messages: exactly one survives
    let c1 = Statement::Constraint(
        QuadComb { left: lc(vec![(1, 1), (2, 2)]), right: one() },
        lc(vec![(3, 1), (3, 1)]),
        Some("first".to_string()),
    );
    let c2 = Statement::Constraint(
        QuadComb { left: lc(vec![(2, 2), (1, 1)]), right: one() },
        lc(vec![(3, 2)]),
        Some("second".to_string()),
    );
    let p = Prog {
        arguments: vec![Parameter { id: v(1), private: true }],
        statements: vec![c1, c2],
        returns: vec![],
    };
    let r = p.optimize();
    assert_eq!(r.statements.len(), 1);
    match &r.statements[0] {
        Statement::Constraint(_, _, m) => assert_eq!(m.as_deref(), Some("first")),
        _ => panic!("expected a constraint"),
    }
}

#[test]
fn dead_directive_removed() {
    // the directive's sole output feeds no surviving statement
    let p = Prog {
        arguments: vec![Parameter { id: v(1), private: true }],
        statements: vec![
            Statement::Directive(Directive {
                inputs: vec![QuadComb { left: lc(vec![(1, 1)]), right: one() }],
                outputs: vec![v(5)],
                solver: 9,
            }),
            constraint(vec![(1, 1)], vec![(1, 1)], vec![(1, 1)]),
        ],
        returns: vec![],
    };
    let r = p.optimize();
    assert_eq!(r.statements.len(), 1);
    assert!(matches!(r.statements[0], Statement::Constraint(_, _, _)));
}

#[test]
fn live_directive_kept_through_returns() {
    // an output read by nothing but the return wires is still live
    let p = Prog {
        arguments: vec![],
        statements: vec![Statement::Directive(Directive {
            inputs: vec![],
            outputs: vec![v(4)],
            solver: 2,
        })],
        returns: vec![v(4)],
    };
    let r = p.optimize();
    assert_eq!(r.statements.len(), 1);
}

#[test]
fn optimize_preserves_arguments() {
    let p = Prog {
        arguments: vec![
            Parameter { id: v(1), private: true },
            Parameter { id: v(2), private: false },
        ],
        statements: vec![constraint(vec![(1, 1)], vec![(2, 1)], vec![(1, 1)])],
        returns: vec![v(1)],
    };
    let args = p.arguments.clone();
    let r = p.optimize();
    assert_eq!(r.arguments, args);
}

#[test]
fn optimize_idempotent_on_example() {
    let x = 1;
    let y = 2;
    let z = 3;
    let p = Prog {
        arguments: vec![Parameter { id: v(x), private: true }],
        statements: vec![
            constraint(vec![(0, 1)], vec![(x, 1)], vec![(y, 1)]),
            constraint(vec![(y, 1)], vec![(0, 1)], vec![(y, 1)]),
            constraint(vec![(y, 1), (y, 1)], vec![(y, 1)], vec![(z, 0), (z, 1)]),
            constraint(vec![(y, 2)], vec![(y, 1)], vec![(z, 1)]),
            Statement::Directive(Directive {
                inputs: vec![QuadComb { left: lc(vec![(y, 1)]), right: one() }],
                outputs: vec![v(9)],
                solver: 1,
            }),
        ],
        returns: vec![v(z)],
    };
    let once = p.optimize();
    let again = Prog {
        arguments: once.arguments.clone(),
        statements: once
            .statements
            .iter()
            .map(|s| match s {
                Statement::Constraint(q, l, m) => Statement::Constraint(
                    QuadComb {
                        left: LinComb(q.left.0.clone()),
                        right: LinComb(q.right.0.clone()),
                    },
                    LinComb(l.0.clone()),
                    m.clone(),
                ),
                Statement::Directive(d) => Statement::Directive(Directive {
                    inputs: d
                        .inputs
                        .iter()
                        .map(|q| QuadComb {
                            left: LinComb(q.left.0.clone()),
                            right: LinComb(q.right.0.clone()),
                        })
                        .collect(),
                    outputs: d.outputs.clone(),
                    solver: d.solver,
                }),
            })
            .collect(),
        returns: once.returns.clone(),
    };
    let twice = again.optimize();
    assert!(prog_eq(&once, &twice));
}

#[test]
fn empty_program_unchanged() {
    let p = Prog { arguments: vec![], statements: vec![], returns: vec![] };
    let r = p.optimize();
    assert!(r.arguments.is_empty());
    assert!(r.statements.is_empty());
    assert!(r.returns.is_empty());
}

#[test]
fn optimization_preserves_satisfying_witness() {
    // a witness satisfying the input program still satisfies the
    // optimized one: wires 0 (the one wire), x=1, y=2, z=3
    let x = 1;
    let y = 2;
    let z = 3;
    let p = Prog {
        arguments: vec![Parameter { id: v(x), private: true }],
        statements: vec![
            constraint(vec![(0, 1)], vec![(x, 1)], vec![(y, 1)]),
            constraint(vec![(y, 1)], vec![(y, 1)], vec![(z, 1)]),
            constraint(vec![(x, 1)], vec![(0, 1)], vec![(x, 1)]),
        ],
        returns: vec![v(z)],
    };
    // x = 5, y = 5, z = 25
    let witness = vec![(v(0), 1u64), (v(x), 5), (v(y), 5), (v(z), 25)];
    assert!(circ_opt::ir::prog_holds(&p, &witness));
    let r = p.optimize();
    assert!(circ_opt::ir::prog_holds(&r, &witness));
    // and a broken witness violates both
    let bad = vec![(v(0), 1u64), (v(x), 5), (v(y), 5), (v(z), 26)];
    let p2 = Prog {
        arguments: vec![Parameter { id: v(x), private: true }],
        statements: vec![
            constraint(vec![(0, 1)], vec![(x, 1)], vec![(y, 1)]),
            constraint(vec![(y, 1)], vec![(y, 1)], vec![(z, 1)]),
        ],
        returns: vec![v(z)],
    };
    assert!(!circ_opt::ir::prog_holds(&p2, &bad));
    let r2 = p2.optimize();
    assert!(!circ_opt::ir::prog_holds(&r2, &bad));
}
