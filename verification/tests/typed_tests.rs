use circ_opt::result_folder::{
    fold_program, fold_statements, CompileError, DefaultResultFolder, FailingFolder,
    RecordingFolder,
};
use circ_opt::typed::{
    BooleanExpression, DeclarationParameter, DeclarationType, DeclarationVariable,
    FieldElementExpression, IntExpression, List, TypedAssignee, TypedExpression, TypedFunction,
    TypedFunctionSymbol, TypedModule, TypedProgram, TypedStatement, Type, Variable,
};

fn nil<T>() -> List<T> {
    List::Nil
}

fn l1<T>(x: T) -> List<T> {
    List::Cons(Box::new(x), Box::new(List::Nil))
}

fn l2<T>(x: T, y: T) -> List<T> {
    List::Cons(Box::new(x), Box::new(l1(y)))
}

fn var(id: u64) -> Variable {
    Variable { id, ty: Type::FieldElement }
}

fn def(id: u64, from: u64) -> TypedStatement {
    TypedStatement::Definition(
        TypedAssignee::Identifier(var(id)),
        TypedExpression::FieldElement(Box::new(FieldElementExpression::Identifier(from))),
    )
}

fn fun_of(statements: List<TypedStatement>) -> TypedFunction {
    TypedFunction {
        generics: nil(),
        arguments: l1(DeclarationParameter {
            id: DeclarationVariable { id: 100, ty: DeclarationType::FieldElement },
            private: true,
        }),
        statements,
        returns: l1(DeclarationType::FieldElement),
    }
}

fn prog_of(statements: List<TypedStatement>) -> TypedProgram {
    TypedProgram {
        modules: l1((0, TypedModule {
            functions: l2(
                (1, TypedFunctionSymbol::Here(fun_of(statements))),
                (2, TypedFunctionSymbol::There(5, 6)),
            ),
        })),
        main: 1,
    }
}

#[test]
fn default_fold_is_identity() {
    let p = prog_of(l2(def(10, 11), TypedStatement::Assertion(BooleanExpression::Value(true))));
    let expected = prog_of(l2(def(10, 11), TypedStatement::Assertion(BooleanExpression::Value(true))));
    let mut f = DefaultResultFolder;
    let r = fold_program(&mut f, p);
    assert_eq!(r, Ok(expected));
}

#[test]
fn fatal_on_residual_untyped_literal() {
    let stmt = TypedStatement::Definition(
        TypedAssignee::Identifier(var(10)),
        TypedExpression::Int(Box::new(IntExpression::Value(3))),
    );
    let p = prog_of(l1(stmt));
    let mut f = DefaultResultFolder;
    let r = fold_program(&mut f, p);
    assert_eq!(r, Err(CompileError::InternalInvariant));
    // the fatal signal is not an ordinary compile error
    assert_ne!(r, Err(CompileError::Custom(3)));
}

#[test]
fn fail_fast_returns_exact_error_and_skips_siblings() {
    // the first statement holds the marked name 10; the second holds 42
    let stmts = l2(def(10, 11), def(42, 43));
    let mut f = RecordingFolder::new(10);
    let r = fold_statements(&mut f, stmts);
    assert_eq!(r, Err(CompileError::Custom(10)));
    let visited = f.visited_names();
    assert!(visited.contains(&10));
    // nothing of the later sibling statement was folded
    assert!(!visited.contains(&42));
    assert!(!visited.contains(&43));
}

#[test]
fn recording_folder_visits_in_order() {
    let stmts = l2(def(7, 8), def(9, 12));
    let mut f = RecordingFolder::new(999);
    let r = fold_statements(&mut f, stmts);
    assert!(r.is_ok());
    assert_eq!(f.visited_names(), &vec![7, 8, 9, 12]);
}

#[test]
fn there_symbols_are_not_walked() {
    // a program whose only Int node sits behind an external reference
    // folds without reaching the fatal path
    let p = TypedProgram {
        modules: l1((0, TypedModule { functions: l1((2, TypedFunctionSymbol::There(5, 6))) })),
        main: 1,
    };
    let expected = TypedProgram {
        modules: l1((0, TypedModule { functions: l1((2, TypedFunctionSymbol::There(5, 6))) })),
        main: 1,
    };
    let mut f = RecordingFolder::new(0);
    let r = fold_program(&mut f, p);
    assert_eq!(r, Ok(expected));
    assert!(f.visited_names().is_empty());
}

#[test]
fn for_statement_body_is_folded_and_flattened() {
    let body = l2(def(20, 21), def(22, 23));
    let stmt = TypedStatement::For(
        var(15),
        circ_opt::typed::UExpression {
            bitwidth: 32,
            inner: circ_opt::typed::UExpressionInner::Value(0),
        },
        circ_opt::typed::UExpression {
            bitwidth: 32,
            inner: circ_opt::typed::UExpressionInner::Value(4),
        },
        body,
    );
    let mut f = RecordingFolder::new(999);
    let r = fold_statements(&mut f, l1(stmt));
    assert!(r.is_ok());
    // loop variable, then both body statements, in order
    assert_eq!(f.visited_names(), &vec![15, 20, 21, 22, 23]);
}

#[test]
fn assignee_names_are_folded() {
    let stmt = TypedStatement::Definition(
        TypedAssignee::Member(Box::new(TypedAssignee::Identifier(var(30))), 7),
        TypedExpression::Boolean(Box::new(BooleanExpression::Value(false))),
    );
    let mut f = RecordingFolder::new(999);
    let r = fold_statements(&mut f, l1(stmt));
    assert!(r.is_ok());
    assert_eq!(f.visited_names(), &vec![30]);
}

#[test]
fn fail_fast_at_an_expression_node() {
    // the first statement holds the marked field literal; the second
    // would visit other names, and must not be reached
    let failing_stmt = TypedStatement::Definition(
        TypedAssignee::Identifier(var(10)),
        TypedExpression::FieldElement(Box::new(FieldElementExpression::Add(
            Box::new(FieldElementExpression::Number(circ_opt::field::FieldElem { raw: 77 })),
            Box::new(FieldElementExpression::Identifier(11)),
        ))),
    );
    let stmts = l2(failing_stmt, def(42, 43));
    let mut f = FailingFolder::new(77);
    let r = fold_statements(&mut f, stmts);
    assert_eq!(r, Err(CompileError::Custom(77)));
}

#[test]
fn replacing_hook_is_possible_through_default_recursion() {
    // a folder whose hooks are all inert leaves a marked literal alone
    let stmt = TypedStatement::Definition(
        TypedAssignee::Identifier(var(10)),
        TypedExpression::FieldElement(Box::new(FieldElementExpression::Number(
            circ_opt::field::FieldElem { raw: 77 },
        ))),
    );
    let expected = TypedStatement::Definition(
        TypedAssignee::Identifier(var(10)),
        TypedExpression::FieldElement(Box::new(FieldElementExpression::Number(
            circ_opt::field::FieldElem { raw: 77 },
        ))),
    );
    let mut f = FailingFolder::new(999);
    let r = fold_statements(&mut f, l1(stmt));
    assert_eq!(r, Ok(l1(expected)));
}

#[test]
fn struct_expression_type_is_folded_first() {
    // the struct's member schema holds an array size that is an
    // identifier expression: folding the struct expression must fold
    // the shape, visiting that identifier before the inner expression
    let shape = circ_opt::typed::StructType {
        members: l1(circ_opt::typed::StructMember {
            id: 5,
            ty: Box::new(Type::Array(Box::new(circ_opt::typed::ArrayType {
                ty: Box::new(Type::FieldElement),
                size: circ_opt::typed::UExpression {
                    bitwidth: 32,
                    inner: circ_opt::typed::UExpressionInner::Identifier(77),
                },
            }))),
        }),
    };
    let stmt = TypedStatement::Definition(
        TypedAssignee::Identifier(var(10)),
        TypedExpression::Struct(Box::new(circ_opt::typed::StructExpression {
            ty: shape,
            inner: circ_opt::typed::StructExpressionInner::Identifier(50),
        })),
    );
    let mut f = RecordingFolder::new(999);
    let r = fold_statements(&mut f, l1(stmt));
    assert!(r.is_ok());
    // assignee name, then the size identifier inside the shape, then
    // the inner expression's identifier
    assert_eq!(f.visited_names(), &vec![10, 77, 50]);
}
