//! The laws of the typed-AST framework: with inert hooks and an
//! identity identifier fold, folding is the identity on programs free
//! of untyped integer literals; a residual untyped integer literal
//! makes the fold end in the fatal internal error; and the first error
//! aborts the fold with no sibling folded after it.

use vstd::prelude::*;
use crate::typed::{
    append, ArrayExpression, ArrayExpressionInner, ArrayType, BooleanExpression,
    DeclarationParameter, DeclarationType, DeclarationVariable, FieldElementExpression,
    Identifier, IntExpression, List, StructExpression, StructExpressionInner, StructMember,
    StructType, Type, TypedAssignee, TypedExpression, TypedExpressionList,
    TypedExpressionOrSpread, TypedFunction, TypedFunctionSymbol, TypedModule, TypedProgram,
    TypedSpread, TypedStatement, UExpression, UExpressionInner, Variable,
};
use crate::result_folder::{
    sf_array_expression, sf_array_expression_inner, sf_array_type, sf_assignee, sf_assignees,
    sf_boolean_expression, sf_declaration_type, sf_declaration_variable, sf_expression,
    sf_expression_list, sf_expression_or_spread, sf_expressions, sf_field_expression,
    sf_function, sf_function_symbol, sf_functions, sf_generics, sf_int_expression, sf_members,
    sf_module, sf_modules, sf_or_spreads, sf_parameter, sf_params, sf_program, sf_spread,
    sf_statement, sf_statements, sf_struct_expression, sf_struct_expression_inner,
    sf_struct_type, sf_type, sf_types, sf_uint_expression, sf_uint_expression_inner,
    sf_variable, CompileError, HookOutcome, Hooks,
};

verus! {

/// All hooks let the default recursion proceed without touching the
/// state, and identifiers fold to themselves without failing.
pub open spec fn hooks_inert<S>(hs: Hooks<S>) -> bool {
    &&& forall|sv: S, n: Identifier| #[trigger] (hs.name)(sv, n) == (
        sv,
        Result::<Identifier, CompileError>::Ok(n),
    )
    &&& forall|sv: S, e: TypedProgram| #[trigger] (hs.program)(sv, e) == (
        sv,
        Result::<HookOutcome<TypedProgram>, CompileError>::Ok(HookOutcome::Proceed),
    )
    &&& forall|sv: S, e: TypedModule| #[trigger] (hs.module)(sv, e) == (
        sv,
        Result::<HookOutcome<TypedModule>, CompileError>::Ok(HookOutcome::Proceed),
    )
    &&& forall|sv: S, e: TypedFunctionSymbol| #[trigger] (hs.function_symbol)(sv, e) == (
        sv,
        Result::<HookOutcome<TypedFunctionSymbol>, CompileError>::Ok(HookOutcome::Proceed),
    )
    &&& forall|sv: S, e: TypedFunction| #[trigger] (hs.function)(sv, e) == (
        sv,
        Result::<HookOutcome<TypedFunction>, CompileError>::Ok(HookOutcome::Proceed),
    )
    &&& forall|sv: S, e: DeclarationParameter| #[trigger] (hs.parameter)(sv, e) == (
        sv,
        Result::<HookOutcome<DeclarationParameter>, CompileError>::Ok(HookOutcome::Proceed),
    )
    &&& forall|sv: S, e: Variable| #[trigger] (hs.variable)(sv, e) == (
        sv,
        Result::<HookOutcome<Variable>, CompileError>::Ok(HookOutcome::Proceed),
    )
    &&& forall|sv: S, e: DeclarationVariable| #[trigger] (hs.declaration_variable)(sv, e) == (
        sv,
        Result::<HookOutcome<DeclarationVariable>, CompileError>::Ok(HookOutcome::Proceed),
    )
    &&& forall|sv: S, e: Type| #[trigger] (hs.ty)(sv, e) == (
        sv,
        Result::<HookOutcome<Type>, CompileError>::Ok(HookOutcome::Proceed),
    )
    &&& forall|sv: S, e: ArrayType| #[trigger] (hs.array_type)(sv, e) == (
        sv,
        Result::<HookOutcome<ArrayType>, CompileError>::Ok(HookOutcome::Proceed),
    )
    &&& forall|sv: S, e: StructType| #[trigger] (hs.struct_type)(sv, e) == (
        sv,
        Result::<HookOutcome<StructType>, CompileError>::Ok(HookOutcome::Proceed),
    )
    &&& forall|sv: S, e: DeclarationType| #[trigger] (hs.declaration_type)(sv, e) == (
        sv,
        Result::<HookOutcome<DeclarationType>, CompileError>::Ok(HookOutcome::Proceed),
    )
    &&& forall|sv: S, e: TypedAssignee| #[trigger] (hs.assignee)(sv, e) == (
        sv,
        Result::<HookOutcome<TypedAssignee>, CompileError>::Ok(HookOutcome::Proceed),
    )
    &&& forall|sv: S, e: TypedStatement| #[trigger] (hs.statement)(sv, e) == (
        sv,
        Result::<HookOutcome<List<TypedStatement>>, CompileError>::Ok(HookOutcome::Proceed),
    )
    &&& forall|sv: S, e: TypedExpressionOrSpread| #[trigger] (hs.expression_or_spread)(sv, e) == (
        sv,
        Result::<HookOutcome<TypedExpressionOrSpread>, CompileError>::Ok(HookOutcome::Proceed),
    )
    &&& forall|sv: S, e: TypedSpread| #[trigger] (hs.spread)(sv, e) == (
        sv,
        Result::<HookOutcome<TypedSpread>, CompileError>::Ok(HookOutcome::Proceed),
    )
    &&& forall|sv: S, e: TypedExpression| #[trigger] (hs.expression)(sv, e) == (
        sv,
        Result::<HookOutcome<TypedExpression>, CompileError>::Ok(HookOutcome::Proceed),
    )
    &&& forall|sv: S, e: ArrayExpression| #[trigger] (hs.array_expression)(sv, e) == (
        sv,
        Result::<HookOutcome<ArrayExpression>, CompileError>::Ok(HookOutcome::Proceed),
    )
    &&& forall|sv: S, e: StructExpression| #[trigger] (hs.struct_expression)(sv, e) == (
        sv,
        Result::<HookOutcome<StructExpression>, CompileError>::Ok(HookOutcome::Proceed),
    )
    &&& forall|sv: S, e: TypedExpressionList| #[trigger] (hs.expression_list)(sv, e) == (
        sv,
        Result::<HookOutcome<TypedExpressionList>, CompileError>::Ok(HookOutcome::Proceed),
    )
    &&& forall|sv: S, e: IntExpression| #[trigger] (hs.int_expression)(sv, e) == (
        sv,
        Result::<HookOutcome<IntExpression>, CompileError>::Ok(HookOutcome::Proceed),
    )
    &&& forall|sv: S, e: FieldElementExpression| #[trigger] (hs.field_expression)(sv, e) == (
        sv,
        Result::<HookOutcome<FieldElementExpression>, CompileError>::Ok(HookOutcome::Proceed),
    )
    &&& forall|sv: S, e: BooleanExpression| #[trigger] (hs.boolean_expression)(sv, e) == (
        sv,
        Result::<HookOutcome<BooleanExpression>, CompileError>::Ok(HookOutcome::Proceed),
    )
    &&& forall|sv: S, e: UExpression| #[trigger] (hs.uint_expression)(sv, e) == (
        sv,
        Result::<HookOutcome<UExpression>, CompileError>::Ok(HookOutcome::Proceed),
    )
    &&& forall|sv: S, e: UExpressionInner| #[trigger] (hs.uint_expression_inner)(sv, e) == (
        sv,
        Result::<HookOutcome<UExpressionInner>, CompileError>::Ok(HookOutcome::Proceed),
    )
    &&& forall|sv: S, e: ArrayExpressionInner| #[trigger] (hs.array_expression_inner)(sv, e) == (
        sv,
        Result::<HookOutcome<ArrayExpressionInner>, CompileError>::Ok(HookOutcome::Proceed),
    )
    &&& forall|sv: S, e: StructExpressionInner| #[trigger] (hs.struct_expression_inner)(sv, e) == (
        sv,
        Result::<HookOutcome<StructExpressionInner>, CompileError>::Ok(HookOutcome::Proceed),
    )
}

pub open spec fn has_int_int(e: IntExpression) -> bool
    decreases e,
{
    true
}

pub open spec fn has_int_field(e: FieldElementExpression) -> bool
    decreases e,
{
    match e {
        FieldElementExpression::Number(n) => false,
        FieldElementExpression::Identifier(id) => false,
        FieldElementExpression::Add(a, b) => has_int_field(*a) || has_int_field(*b),
        FieldElementExpression::Sub(a, b) => has_int_field(*a) || has_int_field(*b),
        FieldElementExpression::Mult(a, b) => has_int_field(*a) || has_int_field(*b),
        FieldElementExpression::Div(a, b) => has_int_field(*a) || has_int_field(*b),
        FieldElementExpression::Pow(a, b) => has_int_field(*a) || has_int_uint(*b),
        FieldElementExpression::IfElse(a, b, c) => has_int_bool(*a) || has_int_field(*b) || has_int_field(*c),
        FieldElementExpression::FunctionCall(key, gens, args) => has_int_gens(gens) || has_int_exprs(args),
        FieldElementExpression::Member(s, id) => has_int_struct(*s),
        FieldElementExpression::Select(a, i) => has_int_array(*a) || has_int_uint(*i),
    }
}

pub open spec fn has_int_bool(e: BooleanExpression) -> bool
    decreases e,
{
    match e {
        BooleanExpression::Value(b) => false,
        BooleanExpression::Identifier(id) => false,
        BooleanExpression::FieldEq(a, b) => has_int_field(*a) || has_int_field(*b),
        BooleanExpression::BoolEq(a, b) => has_int_bool(*a) || has_int_bool(*b),
        BooleanExpression::ArrayEq(a, b) => has_int_array(*a) || has_int_array(*b),
        BooleanExpression::StructEq(a, b) => has_int_struct(*a) || has_int_struct(*b),
        BooleanExpression::UintEq(a, b) => has_int_uint(*a) || has_int_uint(*b),
        BooleanExpression::FieldLt(a, b) => has_int_field(*a) || has_int_field(*b),
        BooleanExpression::FieldLe(a, b) => has_int_field(*a) || has_int_field(*b),
        BooleanExpression::FieldGt(a, b) => has_int_field(*a) || has_int_field(*b),
        BooleanExpression::FieldGe(a, b) => has_int_field(*a) || has_int_field(*b),
        BooleanExpression::UintLt(a, b) => has_int_uint(*a) || has_int_uint(*b),
        BooleanExpression::UintLe(a, b) => has_int_uint(*a) || has_int_uint(*b),
        BooleanExpression::UintGt(a, b) => has_int_uint(*a) || has_int_uint(*b),
        BooleanExpression::UintGe(a, b) => has_int_uint(*a) || has_int_uint(*b),
        BooleanExpression::Or(a, b) => has_int_bool(*a) || has_int_bool(*b),
        BooleanExpression::And(a, b) => has_int_bool(*a) || has_int_bool(*b),
        BooleanExpression::Not(a) => has_int_bool(*a),
        BooleanExpression::FunctionCall(key, gens, args) => has_int_gens(gens) || has_int_exprs(args),
        BooleanExpression::IfElse(a, b, c) => has_int_bool(*a) || has_int_bool(*b) || has_int_bool(*c),
        BooleanExpression::Member(s, id) => has_int_struct(*s),
        BooleanExpression::Select(a, i) => has_int_array(*a) || has_int_uint(*i),
    }
}

pub open spec fn has_int_uint(e: UExpression) -> bool
    decreases e,
{
    has_int_uinner(e.inner)
}

pub open spec fn has_int_uinner(e: UExpressionInner) -> bool
    decreases e,
{
    match e {
        UExpressionInner::Value(v) => false,
        UExpressionInner::Identifier(id) => false,
        UExpressionInner::Add(a, b) => has_int_uint(*a) || has_int_uint(*b),
        UExpressionInner::Sub(a, b) => has_int_uint(*a) || has_int_uint(*b),
        UExpressionInner::FloorSub(a, b) => has_int_uint(*a) || has_int_uint(*b),
        UExpressionInner::Mult(a, b) => has_int_uint(*a) || has_int_uint(*b),
        UExpressionInner::Div(a, b) => has_int_uint(*a) || has_int_uint(*b),
        UExpressionInner::Rem(a, b) => has_int_uint(*a) || has_int_uint(*b),
        UExpressionInner::Xor(a, b) => has_int_uint(*a) || has_int_uint(*b),
        UExpressionInner::And(a, b) => has_int_uint(*a) || has_int_uint(*b),
        UExpressionInner::Or(a, b) => has_int_uint(*a) || has_int_uint(*b),
        UExpressionInner::LeftShift(a, b) => has_int_uint(*a) || has_int_field(*b),
        UExpressionInner::RightShift(a, b) => has_int_uint(*a) || has_int_field(*b),
        UExpressionInner::Not(a) => has_int_uint(*a),
        UExpressionInner::FunctionCall(key, gens, args) => has_int_gens(gens) || has_int_exprs(args),
        UExpressionInner::Select(a, i) => has_int_array(*a) || has_int_uint(*i),
        UExpressionInner::IfElse(a, b, c) => has_int_bool(*a) || has_int_uint(*b) || has_int_uint(*c),
        UExpressionInner::Member(s, id) => has_int_struct(*s),
    }
}

pub open spec fn has_int_array(e: ArrayExpression) -> bool
    decreases e,
{
    has_int_atype(*e.ty) || has_int_ainner(e.inner)
}

pub open spec fn has_int_ainner(e: ArrayExpressionInner) -> bool
    decreases e,
{
    match e {
        ArrayExpressionInner::Identifier(id) => false,
        ArrayExpressionInner::Value(l) => has_int_orsps(l),
        ArrayExpressionInner::FunctionCall(key, gens, args) => has_int_gens(gens) || has_int_exprs(args),
        ArrayExpressionInner::IfElse(a, b, c) => has_int_bool(*a) || has_int_array(*b) || has_int_array(*c),
        ArrayExpressionInner::Member(s, id) => has_int_struct(*s),
        ArrayExpressionInner::Select(a, i) => has_int_array(*a) || has_int_uint(*i),
        ArrayExpressionInner::Slice(a, b, c) => has_int_array(*a) || has_int_uint(*b) || has_int_uint(*c),
        ArrayExpressionInner::Repeat(a, b) => has_int_expr(*a) || has_int_uint(*b),
    }
}

pub open spec fn has_int_struct(e: StructExpression) -> bool
    decreases e,
{
    has_int_stype(e.ty) || has_int_sinner(e.inner)
}

pub open spec fn has_int_sinner(e: StructExpressionInner) -> bool
    decreases e,
{
    match e {
        StructExpressionInner::Identifier(id) => false,
        StructExpressionInner::Value(l) => has_int_exprs(l),
        StructExpressionInner::FunctionCall(key, gens, args) => has_int_gens(gens) || has_int_exprs(args),
        StructExpressionInner::IfElse(a, b, c) => has_int_bool(*a) || has_int_struct(*b) || has_int_struct(*c),
        StructExpressionInner::Member(s, id) => has_int_struct(*s),
        StructExpressionInner::Select(a, i) => has_int_array(*a) || has_int_uint(*i),
    }
}

pub open spec fn has_int_expr(e: TypedExpression) -> bool
    decreases e,
{
    match e {
        TypedExpression::FieldElement(x) => has_int_field(*x),
        TypedExpression::Boolean(x) => has_int_bool(*x),
        TypedExpression::Uint(x) => has_int_uint(*x),
        TypedExpression::Array(x) => has_int_array(*x),
        TypedExpression::Struct(x) => has_int_struct(*x),
        TypedExpression::Int(x) => true,
    }
}

pub open spec fn has_int_exprs(e: List<TypedExpression>) -> bool
    decreases e,
{
    match e {
        List::Nil => false,
        List::Cons(x, rest) => has_int_expr(*x) || has_int_exprs(*rest),
    }
}

pub open spec fn has_int_gens(e: List<Option<UExpression>>) -> bool
    decreases e,
{
    match e {
        List::Nil => false,
        List::Cons(g, rest) => (match *g {
            Option::Some(u) => has_int_uint(u),
            Option::None => false,
        }) || has_int_gens(*rest),
    }
}

pub open spec fn has_int_orsps(e: List<TypedExpressionOrSpread>) -> bool
    decreases e,
{
    match e {
        List::Nil => false,
        List::Cons(x, rest) => has_int_orsp(*x) || has_int_orsps(*rest),
    }
}

pub open spec fn has_int_orsp(e: TypedExpressionOrSpread) -> bool
    decreases e,
{
    match e {
        TypedExpressionOrSpread::Expression(x) => has_int_expr(x),
        TypedExpressionOrSpread::Spread(s) => has_int_spread(s),
    }
}

pub open spec fn has_int_spread(e: TypedSpread) -> bool
    decreases e,
{
    has_int_array(e.array)
}

pub open spec fn has_int_assignee(e: TypedAssignee) -> bool
    decreases e,
{
    match e {
        TypedAssignee::Identifier(v) => has_int_var(v),
        TypedAssignee::Select(a, i) => has_int_assignee(*a) || has_int_uint(*i),
        TypedAssignee::Member(a, m) => has_int_assignee(*a),
    }
}

pub open spec fn has_int_assignees(e: List<TypedAssignee>) -> bool
    decreases e,
{
    match e {
        List::Nil => false,
        List::Cons(x, rest) => has_int_assignee(*x) || has_int_assignees(*rest),
    }
}

pub open spec fn has_int_ty(e: Type) -> bool
    decreases e,
{
    match e {
        Type::Array(at) => has_int_atype(*at),
        Type::Struct(st) => has_int_stype(st),
        other => false,
    }
}

pub open spec fn has_int_types(e: List<Type>) -> bool
    decreases e,
{
    match e {
        List::Nil => false,
        List::Cons(x, rest) => has_int_ty(*x) || has_int_types(*rest),
    }
}

pub open spec fn has_int_atype(e: ArrayType) -> bool
    decreases e,
{
    has_int_ty(*e.ty) || has_int_uint(e.size)
}

pub open spec fn has_int_stype(e: StructType) -> bool
    decreases e,
{
    has_int_members(e.members)
}

pub open spec fn has_int_members(e: List<StructMember>) -> bool
    decreases e,
{
    match e {
        List::Nil => false,
        List::Cons(m, rest) => has_int_ty(*m.ty) || has_int_members(*rest),
    }
}

pub open spec fn has_int_var(e: Variable) -> bool
    decreases e,
{
    has_int_ty(e.ty)
}

pub open spec fn has_int_dvar(e: DeclarationVariable) -> bool
    decreases e,
{
    false
}

pub open spec fn has_int_dtype(e: DeclarationType) -> bool
    decreases e,
{
    false
}

pub open spec fn has_int_param(e: DeclarationParameter) -> bool
    decreases e,
{
    has_int_dvar(e.id)
}

pub open spec fn has_int_params(e: List<DeclarationParameter>) -> bool
    decreases e,
{
    match e {
        List::Nil => false,
        List::Cons(x, rest) => has_int_param(*x) || has_int_params(*rest),
    }
}

pub open spec fn has_int_stmt(e: TypedStatement) -> bool
    decreases e,
{
    match e {
        TypedStatement::Return(es) => has_int_exprs(es),
        TypedStatement::Definition(a, x) => has_int_assignee(a) || has_int_expr(x),
        TypedStatement::Declaration(v) => has_int_var(v),
        TypedStatement::Assertion(b) => has_int_bool(b),
        TypedStatement::For(v, lo, hi, body) => has_int_var(v) || has_int_uint(lo) || has_int_uint(hi) || has_int_stmts(body),
        TypedStatement::MultipleDefinition(asgs, el) => has_int_assignees(asgs) || has_int_exprlist(el),
    }
}

pub open spec fn has_int_stmts(e: List<TypedStatement>) -> bool
    decreases e,
{
    match e {
        List::Nil => false,
        List::Cons(s, rest) => has_int_stmt(*s) || has_int_stmts(*rest),
    }
}

pub open spec fn has_int_exprlist(e: TypedExpressionList) -> bool
    decreases e,
{
    match e {
        TypedExpressionList::FunctionCall(key, gens, args, tys) => has_int_gens(gens) || has_int_exprs(args) || has_int_types(tys),
    }
}

pub open spec fn has_int_func(e: TypedFunction) -> bool
    decreases e,
{
    has_int_params(e.arguments) || has_int_stmts(e.statements)
}

pub open spec fn has_int_symbol(e: TypedFunctionSymbol) -> bool
    decreases e,
{
    match e {
        TypedFunctionSymbol::Here(fun) => has_int_func(fun),
        there => false,
    }
}

pub open spec fn has_int_funcs(e: List<(Identifier, TypedFunctionSymbol)>) -> bool
    decreases e,
{
    match e {
        List::Nil => false,
        List::Cons(p, rest) => has_int_symbol((*p).1) || has_int_funcs(*rest),
    }
}

pub open spec fn has_int_module(e: TypedModule) -> bool
    decreases e,
{
    has_int_funcs(e.functions)
}

pub open spec fn has_int_modules(e: List<(Identifier, TypedModule)>) -> bool
    decreases e,
{
    match e {
        List::Nil => false,
        List::Cons(p, rest) => has_int_module((*p).1) || has_int_modules(*rest),
    }
}

pub open spec fn has_int_program(e: TypedProgram) -> bool
    decreases e,
{
    has_int_modules(e.modules)
}

pub proof fn lemma_id_int<S>(
    hs: Hooks<S>,
    sv: S,
    e: IntExpression,
)
    requires
        hooks_inert(hs),
    ensures
        sf_int_expression(hs, sv, e) == (
            sv,
            Result::<IntExpression, CompileError>::Err(CompileError::InternalInvariant),
        ),
{
    assert((hs.int_expression)(sv, e) == (
        sv,
        Result::<HookOutcome<IntExpression>, CompileError>::Ok(HookOutcome::Proceed),
    ));
}

pub proof fn lemma_id_field<S>(
    hs: Hooks<S>,
    sv: S,
    e: FieldElementExpression,
)
    requires
        hooks_inert(hs),
    ensures
        sf_field_expression(hs, sv, e) == (
            sv,
            if has_int_field(e) {
                Result::<FieldElementExpression, CompileError>::Err(CompileError::InternalInvariant)
            } else {
                Result::<FieldElementExpression, CompileError>::Ok(e)
            },
        ),
    decreases e,
{
    assert((hs.field_expression)(sv, e) == (
        sv,
        Result::<HookOutcome<FieldElementExpression>, CompileError>::Ok(HookOutcome::Proceed),
    ));
    match e {
        FieldElementExpression::Number(n) => {
        },
        FieldElementExpression::Identifier(id) => {
        },
        FieldElementExpression::Add(a, b) => {
            lemma_id_field(hs, sv, *a);
            lemma_id_field(hs, sv, *b);
        },
        FieldElementExpression::Sub(a, b) => {
            lemma_id_field(hs, sv, *a);
            lemma_id_field(hs, sv, *b);
        },
        FieldElementExpression::Mult(a, b) => {
            lemma_id_field(hs, sv, *a);
            lemma_id_field(hs, sv, *b);
        },
        FieldElementExpression::Div(a, b) => {
            lemma_id_field(hs, sv, *a);
            lemma_id_field(hs, sv, *b);
        },
        FieldElementExpression::Pow(a, b) => {
            lemma_id_field(hs, sv, *a);
            lemma_id_uint(hs, sv, *b);
        },
        FieldElementExpression::IfElse(a, b, c) => {
            lemma_id_bool(hs, sv, *a);
            lemma_id_field(hs, sv, *b);
            lemma_id_field(hs, sv, *c);
        },
        FieldElementExpression::FunctionCall(key, gens, args) => {
            lemma_id_gens(hs, sv, gens);
            lemma_id_exprs(hs, sv, args);
        },
        FieldElementExpression::Member(s, id) => {
            lemma_id_struct(hs, sv, *s);
        },
        FieldElementExpression::Select(a, i) => {
            lemma_id_array(hs, sv, *a);
            lemma_id_uint(hs, sv, *i);
        },
    }
}

pub proof fn lemma_id_bool<S>(
    hs: Hooks<S>,
    sv: S,
    e: BooleanExpression,
)
    requires
        hooks_inert(hs),
    ensures
        sf_boolean_expression(hs, sv, e) == (
            sv,
            if has_int_bool(e) {
                Result::<BooleanExpression, CompileError>::Err(CompileError::InternalInvariant)
            } else {
                Result::<BooleanExpression, CompileError>::Ok(e)
            },
        ),
    decreases e,
{
    assert((hs.boolean_expression)(sv, e) == (
        sv,
        Result::<HookOutcome<BooleanExpression>, CompileError>::Ok(HookOutcome::Proceed),
    ));
    match e {
        BooleanExpression::Value(b) => {
        },
        BooleanExpression::Identifier(id) => {
        },
        BooleanExpression::FieldEq(a, b) => {
            lemma_id_field(hs, sv, *a);
            lemma_id_field(hs, sv, *b);
        },
        BooleanExpression::BoolEq(a, b) => {
            lemma_id_bool(hs, sv, *a);
            lemma_id_bool(hs, sv, *b);
        },
        BooleanExpression::ArrayEq(a, b) => {
            lemma_id_array(hs, sv, *a);
            lemma_id_array(hs, sv, *b);
        },
        BooleanExpression::StructEq(a, b) => {
            lemma_id_struct(hs, sv, *a);
            lemma_id_struct(hs, sv, *b);
        },
        BooleanExpression::UintEq(a, b) => {
            lemma_id_uint(hs, sv, *a);
            lemma_id_uint(hs, sv, *b);
        },
        BooleanExpression::FieldLt(a, b) => {
            lemma_id_field(hs, sv, *a);
            lemma_id_field(hs, sv, *b);
        },
        BooleanExpression::FieldLe(a, b) => {
            lemma_id_field(hs, sv, *a);
            lemma_id_field(hs, sv, *b);
        },
        BooleanExpression::FieldGt(a, b) => {
            lemma_id_field(hs, sv, *a);
            lemma_id_field(hs, sv, *b);
        },
        BooleanExpression::FieldGe(a, b) => {
            lemma_id_field(hs, sv, *a);
            lemma_id_field(hs, sv, *b);
        },
        BooleanExpression::UintLt(a, b) => {
            lemma_id_uint(hs, sv, *a);
            lemma_id_uint(hs, sv, *b);
        },
        BooleanExpression::UintLe(a, b) => {
            lemma_id_uint(hs, sv, *a);
            lemma_id_uint(hs, sv, *b);
        },
        BooleanExpression::UintGt(a, b) => {
            lemma_id_uint(hs, sv, *a);
            lemma_id_uint(hs, sv, *b);
        },
        BooleanExpression::UintGe(a, b) => {
            lemma_id_uint(hs, sv, *a);
            lemma_id_uint(hs, sv, *b);
        },
        BooleanExpression::Or(a, b) => {
            lemma_id_bool(hs, sv, *a);
            lemma_id_bool(hs, sv, *b);
        },
        BooleanExpression::And(a, b) => {
            lemma_id_bool(hs, sv, *a);
            lemma_id_bool(hs, sv, *b);
        },
        BooleanExpression::Not(a) => {
            lemma_id_bool(hs, sv, *a);
        },
        BooleanExpression::FunctionCall(key, gens, args) => {
            lemma_id_gens(hs, sv, gens);
            lemma_id_exprs(hs, sv, args);
        },
        BooleanExpression::IfElse(a, b, c) => {
            lemma_id_bool(hs, sv, *a);
            lemma_id_bool(hs, sv, *b);
            lemma_id_bool(hs, sv, *c);
        },
        BooleanExpression::Member(s, id) => {
            lemma_id_struct(hs, sv, *s);
        },
        BooleanExpression::Select(a, i) => {
            lemma_id_array(hs, sv, *a);
            lemma_id_uint(hs, sv, *i);
        },
    }
}

pub proof fn lemma_id_uint<S>(
    hs: Hooks<S>,
    sv: S,
    e: UExpression,
)
    requires
        hooks_inert(hs),
    ensures
        sf_uint_expression(hs, sv, e) == (
            sv,
            if has_int_uint(e) {
                Result::<UExpression, CompileError>::Err(CompileError::InternalInvariant)
            } else {
                Result::<UExpression, CompileError>::Ok(e)
            },
        ),
    decreases e,
{
    assert((hs.uint_expression)(sv, e) == (
        sv,
        Result::<HookOutcome<UExpression>, CompileError>::Ok(HookOutcome::Proceed),
    ));
    lemma_id_uinner(hs, sv, e.inner);
}

pub proof fn lemma_id_uinner<S>(
    hs: Hooks<S>,
    sv: S,
    e: UExpressionInner,
)
    requires
        hooks_inert(hs),
    ensures
        sf_uint_expression_inner(hs, sv, e) == (
            sv,
            if has_int_uinner(e) {
                Result::<UExpressionInner, CompileError>::Err(CompileError::InternalInvariant)
            } else {
                Result::<UExpressionInner, CompileError>::Ok(e)
            },
        ),
    decreases e,
{
    assert((hs.uint_expression_inner)(sv, e) == (
        sv,
        Result::<HookOutcome<UExpressionInner>, CompileError>::Ok(HookOutcome::Proceed),
    ));
    match e {
        UExpressionInner::Value(v) => {
        },
        UExpressionInner::Identifier(id) => {
        },
        UExpressionInner::Add(a, b) => {
            lemma_id_uint(hs, sv, *a);
            lemma_id_uint(hs, sv, *b);
        },
        UExpressionInner::Sub(a, b) => {
            lemma_id_uint(hs, sv, *a);
            lemma_id_uint(hs, sv, *b);
        },
        UExpressionInner::FloorSub(a, b) => {
            lemma_id_uint(hs, sv, *a);
            lemma_id_uint(hs, sv, *b);
        },
        UExpressionInner::Mult(a, b) => {
            lemma_id_uint(hs, sv, *a);
            lemma_id_uint(hs, sv, *b);
        },
        UExpressionInner::Div(a, b) => {
            lemma_id_uint(hs, sv, *a);
            lemma_id_uint(hs, sv, *b);
        },
        UExpressionInner::Rem(a, b) => {
            lemma_id_uint(hs, sv, *a);
            lemma_id_uint(hs, sv, *b);
        },
        UExpressionInner::Xor(a, b) => {
            lemma_id_uint(hs, sv, *a);
            lemma_id_uint(hs, sv, *b);
        },
        UExpressionInner::And(a, b) => {
            lemma_id_uint(hs, sv, *a);
            lemma_id_uint(hs, sv, *b);
        },
        UExpressionInner::Or(a, b) => {
            lemma_id_uint(hs, sv, *a);
            lemma_id_uint(hs, sv, *b);
        },
        UExpressionInner::LeftShift(a, b) => {
            lemma_id_uint(hs, sv, *a);
            lemma_id_field(hs, sv, *b);
        },
        UExpressionInner::RightShift(a, b) => {
            lemma_id_uint(hs, sv, *a);
            lemma_id_field(hs, sv, *b);
        },
        UExpressionInner::Not(a) => {
            lemma_id_uint(hs, sv, *a);
        },
        UExpressionInner::FunctionCall(key, gens, args) => {
            lemma_id_gens(hs, sv, gens);
            lemma_id_exprs(hs, sv, args);
        },
        UExpressionInner::Select(a, i) => {
            lemma_id_array(hs, sv, *a);
            lemma_id_uint(hs, sv, *i);
        },
        UExpressionInner::IfElse(a, b, c) => {
            lemma_id_bool(hs, sv, *a);
            lemma_id_uint(hs, sv, *b);
            lemma_id_uint(hs, sv, *c);
        },
        UExpressionInner::Member(s, id) => {
            lemma_id_struct(hs, sv, *s);
        },
    }
}

pub proof fn lemma_id_array<S>(
    hs: Hooks<S>,
    sv: S,
    e: ArrayExpression,
)
    requires
        hooks_inert(hs),
    ensures
        sf_array_expression(hs, sv, e) == (
            sv,
            if has_int_array(e) {
                Result::<ArrayExpression, CompileError>::Err(CompileError::InternalInvariant)
            } else {
                Result::<ArrayExpression, CompileError>::Ok(e)
            },
        ),
    decreases e,
{
    assert((hs.array_expression)(sv, e) == (
        sv,
        Result::<HookOutcome<ArrayExpression>, CompileError>::Ok(HookOutcome::Proceed),
    ));
    lemma_id_atype(hs, sv, *e.ty);
    lemma_id_ainner(hs, sv, e.inner);
}

pub proof fn lemma_id_ainner<S>(
    hs: Hooks<S>,
    sv: S,
    e: ArrayExpressionInner,
)
    requires
        hooks_inert(hs),
    ensures
        sf_array_expression_inner(hs, sv, e) == (
            sv,
            if has_int_ainner(e) {
                Result::<ArrayExpressionInner, CompileError>::Err(CompileError::InternalInvariant)
            } else {
                Result::<ArrayExpressionInner, CompileError>::Ok(e)
            },
        ),
    decreases e,
{
    assert((hs.array_expression_inner)(sv, e) == (
        sv,
        Result::<HookOutcome<ArrayExpressionInner>, CompileError>::Ok(HookOutcome::Proceed),
    ));
    match e {
        ArrayExpressionInner::Identifier(id) => {
        },
        ArrayExpressionInner::Value(l) => {
            lemma_id_orsps(hs, sv, l);
        },
        ArrayExpressionInner::FunctionCall(key, gens, args) => {
            lemma_id_gens(hs, sv, gens);
            lemma_id_exprs(hs, sv, args);
        },
        ArrayExpressionInner::IfElse(a, b, c) => {
            lemma_id_bool(hs, sv, *a);
            lemma_id_array(hs, sv, *b);
            lemma_id_array(hs, sv, *c);
        },
        ArrayExpressionInner::Member(s, id) => {
            lemma_id_struct(hs, sv, *s);
        },
        ArrayExpressionInner::Select(a, i) => {
            lemma_id_array(hs, sv, *a);
            lemma_id_uint(hs, sv, *i);
        },
        ArrayExpressionInner::Slice(a, b, c) => {
            lemma_id_array(hs, sv, *a);
            lemma_id_uint(hs, sv, *b);
            lemma_id_uint(hs, sv, *c);
        },
        ArrayExpressionInner::Repeat(a, b) => {
            lemma_id_expr(hs, sv, *a);
            lemma_id_uint(hs, sv, *b);
        },
    }
}

pub proof fn lemma_id_struct<S>(
    hs: Hooks<S>,
    sv: S,
    e: StructExpression,
)
    requires
        hooks_inert(hs),
    ensures
        sf_struct_expression(hs, sv, e) == (
            sv,
            if has_int_struct(e) {
                Result::<StructExpression, CompileError>::Err(CompileError::InternalInvariant)
            } else {
                Result::<StructExpression, CompileError>::Ok(e)
            },
        ),
    decreases e,
{
    assert((hs.struct_expression)(sv, e) == (
        sv,
        Result::<HookOutcome<StructExpression>, CompileError>::Ok(HookOutcome::Proceed),
    ));
    lemma_id_stype(hs, sv, e.ty);
    lemma_id_sinner(hs, sv, e.inner);
}

pub proof fn lemma_id_sinner<S>(
    hs: Hooks<S>,
    sv: S,
    e: StructExpressionInner,
)
    requires
        hooks_inert(hs),
    ensures
        sf_struct_expression_inner(hs, sv, e) == (
            sv,
            if has_int_sinner(e) {
                Result::<StructExpressionInner, CompileError>::Err(CompileError::InternalInvariant)
            } else {
                Result::<StructExpressionInner, CompileError>::Ok(e)
            },
        ),
    decreases e,
{
    assert((hs.struct_expression_inner)(sv, e) == (
        sv,
        Result::<HookOutcome<StructExpressionInner>, CompileError>::Ok(HookOutcome::Proceed),
    ));
    match e {
        StructExpressionInner::Identifier(id) => {
        },
        StructExpressionInner::Value(l) => {
            lemma_id_exprs(hs, sv, l);
        },
        StructExpressionInner::FunctionCall(key, gens, args) => {
            lemma_id_gens(hs, sv, gens);
            lemma_id_exprs(hs, sv, args);
        },
        StructExpressionInner::IfElse(a, b, c) => {
            lemma_id_bool(hs, sv, *a);
            lemma_id_struct(hs, sv, *b);
            lemma_id_struct(hs, sv, *c);
        },
        StructExpressionInner::Member(s, id) => {
            lemma_id_struct(hs, sv, *s);
        },
        StructExpressionInner::Select(a, i) => {
            lemma_id_array(hs, sv, *a);
            lemma_id_uint(hs, sv, *i);
        },
    }
}

pub proof fn lemma_id_expr<S>(
    hs: Hooks<S>,
    sv: S,
    e: TypedExpression,
)
    requires
        hooks_inert(hs),
    ensures
        sf_expression(hs, sv, e) == (
            sv,
            if has_int_expr(e) {
                Result::<TypedExpression, CompileError>::Err(CompileError::InternalInvariant)
            } else {
                Result::<TypedExpression, CompileError>::Ok(e)
            },
        ),
    decreases e,
{
    assert((hs.expression)(sv, e) == (
        sv,
        Result::<HookOutcome<TypedExpression>, CompileError>::Ok(HookOutcome::Proceed),
    ));
    match e {
        TypedExpression::FieldElement(x) => {
            lemma_id_field(hs, sv, *x);
        },
        TypedExpression::Boolean(x) => {
            lemma_id_bool(hs, sv, *x);
        },
        TypedExpression::Uint(x) => {
            lemma_id_uint(hs, sv, *x);
        },
        TypedExpression::Array(x) => {
            lemma_id_array(hs, sv, *x);
        },
        TypedExpression::Struct(x) => {
            lemma_id_struct(hs, sv, *x);
        },
        TypedExpression::Int(x) => {
            lemma_id_int(hs, sv, *x);
        },
    }
}

pub proof fn lemma_id_exprs<S>(
    hs: Hooks<S>,
    sv: S,
    e: List<TypedExpression>,
)
    requires
        hooks_inert(hs),
    ensures
        sf_expressions(hs, sv, e) == (
            sv,
            if has_int_exprs(e) {
                Result::<List<TypedExpression>, CompileError>::Err(CompileError::InternalInvariant)
            } else {
                Result::<List<TypedExpression>, CompileError>::Ok(e)
            },
        ),
    decreases e,
{
    match e {
        List::Nil => {
        },
        List::Cons(x, rest) => {
            lemma_id_expr(hs, sv, *x);
            lemma_id_exprs(hs, sv, *rest);
        },
    }
}

pub proof fn lemma_id_gens<S>(
    hs: Hooks<S>,
    sv: S,
    e: List<Option<UExpression>>,
)
    requires
        hooks_inert(hs),
    ensures
        sf_generics(hs, sv, e) == (
            sv,
            if has_int_gens(e) {
                Result::<List<Option<UExpression>>, CompileError>::Err(CompileError::InternalInvariant)
            } else {
                Result::<List<Option<UExpression>>, CompileError>::Ok(e)
            },
        ),
    decreases e,
{
    match e {
        List::Nil => {
        },
        List::Cons(g, rest) => {
            match *g {
                Option::Some(u) => {
                    lemma_id_uint(hs, sv, u);
                },
                Option::None => {
                },
            }
            lemma_id_gens(hs, sv, *rest);
        },
    }
}

pub proof fn lemma_id_orsps<S>(
    hs: Hooks<S>,
    sv: S,
    e: List<TypedExpressionOrSpread>,
)
    requires
        hooks_inert(hs),
    ensures
        sf_or_spreads(hs, sv, e) == (
            sv,
            if has_int_orsps(e) {
                Result::<List<TypedExpressionOrSpread>, CompileError>::Err(CompileError::InternalInvariant)
            } else {
                Result::<List<TypedExpressionOrSpread>, CompileError>::Ok(e)
            },
        ),
    decreases e,
{
    match e {
        List::Nil => {
        },
        List::Cons(x, rest) => {
            lemma_id_orsp(hs, sv, *x);
            lemma_id_orsps(hs, sv, *rest);
        },
    }
}

pub proof fn lemma_id_orsp<S>(
    hs: Hooks<S>,
    sv: S,
    e: TypedExpressionOrSpread,
)
    requires
        hooks_inert(hs),
    ensures
        sf_expression_or_spread(hs, sv, e) == (
            sv,
            if has_int_orsp(e) {
                Result::<TypedExpressionOrSpread, CompileError>::Err(CompileError::InternalInvariant)
            } else {
                Result::<TypedExpressionOrSpread, CompileError>::Ok(e)
            },
        ),
    decreases e,
{
    assert((hs.expression_or_spread)(sv, e) == (
        sv,
        Result::<HookOutcome<TypedExpressionOrSpread>, CompileError>::Ok(HookOutcome::Proceed),
    ));
    match e {
        TypedExpressionOrSpread::Expression(x) => {
            lemma_id_expr(hs, sv, x);
        },
        TypedExpressionOrSpread::Spread(s) => {
            lemma_id_spread(hs, sv, s);
        },
    }
}

pub proof fn lemma_id_spread<S>(
    hs: Hooks<S>,
    sv: S,
    e: TypedSpread,
)
    requires
        hooks_inert(hs),
    ensures
        sf_spread(hs, sv, e) == (
            sv,
            if has_int_spread(e) {
                Result::<TypedSpread, CompileError>::Err(CompileError::InternalInvariant)
            } else {
                Result::<TypedSpread, CompileError>::Ok(e)
            },
        ),
    decreases e,
{
    assert((hs.spread)(sv, e) == (
        sv,
        Result::<HookOutcome<TypedSpread>, CompileError>::Ok(HookOutcome::Proceed),
    ));
    lemma_id_array(hs, sv, e.array);
}

pub proof fn lemma_id_assignee<S>(
    hs: Hooks<S>,
    sv: S,
    e: TypedAssignee,
)
    requires
        hooks_inert(hs),
    ensures
        sf_assignee(hs, sv, e) == (
            sv,
            if has_int_assignee(e) {
                Result::<TypedAssignee, CompileError>::Err(CompileError::InternalInvariant)
            } else {
                Result::<TypedAssignee, CompileError>::Ok(e)
            },
        ),
    decreases e,
{
    assert((hs.assignee)(sv, e) == (
        sv,
        Result::<HookOutcome<TypedAssignee>, CompileError>::Ok(HookOutcome::Proceed),
    ));
    match e {
        TypedAssignee::Identifier(v) => {
            lemma_id_var(hs, sv, v);
        },
        TypedAssignee::Select(a, i) => {
            lemma_id_assignee(hs, sv, *a);
            lemma_id_uint(hs, sv, *i);
        },
        TypedAssignee::Member(a, m) => {
            lemma_id_assignee(hs, sv, *a);
        },
    }
}

pub proof fn lemma_id_assignees<S>(
    hs: Hooks<S>,
    sv: S,
    e: List<TypedAssignee>,
)
    requires
        hooks_inert(hs),
    ensures
        sf_assignees(hs, sv, e) == (
            sv,
            if has_int_assignees(e) {
                Result::<List<TypedAssignee>, CompileError>::Err(CompileError::InternalInvariant)
            } else {
                Result::<List<TypedAssignee>, CompileError>::Ok(e)
            },
        ),
    decreases e,
{
    match e {
        List::Nil => {
        },
        List::Cons(x, rest) => {
            lemma_id_assignee(hs, sv, *x);
            lemma_id_assignees(hs, sv, *rest);
        },
    }
}

pub proof fn lemma_id_ty<S>(
    hs: Hooks<S>,
    sv: S,
    e: Type,
)
    requires
        hooks_inert(hs),
    ensures
        sf_type(hs, sv, e) == (
            sv,
            if has_int_ty(e) {
                Result::<Type, CompileError>::Err(CompileError::InternalInvariant)
            } else {
                Result::<Type, CompileError>::Ok(e)
            },
        ),
    decreases e,
{
    assert((hs.ty)(sv, e) == (
        sv,
        Result::<HookOutcome<Type>, CompileError>::Ok(HookOutcome::Proceed),
    ));
    match e {
        Type::Array(at) => {
            lemma_id_atype(hs, sv, *at);
        },
        Type::Struct(st) => {
            lemma_id_stype(hs, sv, st);
        },
        other => {
        },
    }
}

pub proof fn lemma_id_types<S>(
    hs: Hooks<S>,
    sv: S,
    e: List<Type>,
)
    requires
        hooks_inert(hs),
    ensures
        sf_types(hs, sv, e) == (
            sv,
            if has_int_types(e) {
                Result::<List<Type>, CompileError>::Err(CompileError::InternalInvariant)
            } else {
                Result::<List<Type>, CompileError>::Ok(e)
            },
        ),
    decreases e,
{
    match e {
        List::Nil => {
        },
        List::Cons(x, rest) => {
            lemma_id_ty(hs, sv, *x);
            lemma_id_types(hs, sv, *rest);
        },
    }
}

pub proof fn lemma_id_atype<S>(
    hs: Hooks<S>,
    sv: S,
    e: ArrayType,
)
    requires
        hooks_inert(hs),
    ensures
        sf_array_type(hs, sv, e) == (
            sv,
            if has_int_atype(e) {
                Result::<ArrayType, CompileError>::Err(CompileError::InternalInvariant)
            } else {
                Result::<ArrayType, CompileError>::Ok(e)
            },
        ),
    decreases e,
{
    assert((hs.array_type)(sv, e) == (
        sv,
        Result::<HookOutcome<ArrayType>, CompileError>::Ok(HookOutcome::Proceed),
    ));
    lemma_id_ty(hs, sv, *e.ty);
    lemma_id_uint(hs, sv, e.size);
}

pub proof fn lemma_id_stype<S>(
    hs: Hooks<S>,
    sv: S,
    e: StructType,
)
    requires
        hooks_inert(hs),
    ensures
        sf_struct_type(hs, sv, e) == (
            sv,
            if has_int_stype(e) {
                Result::<StructType, CompileError>::Err(CompileError::InternalInvariant)
            } else {
                Result::<StructType, CompileError>::Ok(e)
            },
        ),
    decreases e,
{
    assert((hs.struct_type)(sv, e) == (
        sv,
        Result::<HookOutcome<StructType>, CompileError>::Ok(HookOutcome::Proceed),
    ));
    lemma_id_members(hs, sv, e.members);
}

pub proof fn lemma_id_members<S>(
    hs: Hooks<S>,
    sv: S,
    e: List<StructMember>,
)
    requires
        hooks_inert(hs),
    ensures
        sf_members(hs, sv, e) == (
            sv,
            if has_int_members(e) {
                Result::<List<StructMember>, CompileError>::Err(CompileError::InternalInvariant)
            } else {
                Result::<List<StructMember>, CompileError>::Ok(e)
            },
        ),
    decreases e,
{
    match e {
        List::Nil => {
        },
        List::Cons(m, rest) => {
            lemma_id_ty(hs, sv, *m.ty);
            lemma_id_members(hs, sv, *rest);
        },
    }
}

pub proof fn lemma_id_var<S>(
    hs: Hooks<S>,
    sv: S,
    e: Variable,
)
    requires
        hooks_inert(hs),
    ensures
        sf_variable(hs, sv, e) == (
            sv,
            if has_int_var(e) {
                Result::<Variable, CompileError>::Err(CompileError::InternalInvariant)
            } else {
                Result::<Variable, CompileError>::Ok(e)
            },
        ),
    decreases e,
{
    assert((hs.variable)(sv, e) == (
        sv,
        Result::<HookOutcome<Variable>, CompileError>::Ok(HookOutcome::Proceed),
    ));
    lemma_id_ty(hs, sv, e.ty);
}

pub proof fn lemma_id_dvar<S>(
    hs: Hooks<S>,
    sv: S,
    e: DeclarationVariable,
)
    requires
        hooks_inert(hs),
    ensures
        sf_declaration_variable(hs, sv, e) == (
            sv,
            if has_int_dvar(e) {
                Result::<DeclarationVariable, CompileError>::Err(CompileError::InternalInvariant)
            } else {
                Result::<DeclarationVariable, CompileError>::Ok(e)
            },
        ),
    decreases e,
{
    assert((hs.declaration_variable)(sv, e) == (
        sv,
        Result::<HookOutcome<DeclarationVariable>, CompileError>::Ok(HookOutcome::Proceed),
    ));
}

pub proof fn lemma_id_dtype<S>(
    hs: Hooks<S>,
    sv: S,
    e: DeclarationType,
)
    requires
        hooks_inert(hs),
    ensures
        sf_declaration_type(hs, sv, e) == (
            sv,
            if has_int_dtype(e) {
                Result::<DeclarationType, CompileError>::Err(CompileError::InternalInvariant)
            } else {
                Result::<DeclarationType, CompileError>::Ok(e)
            },
        ),
    decreases e,
{
    assert((hs.declaration_type)(sv, e) == (
        sv,
        Result::<HookOutcome<DeclarationType>, CompileError>::Ok(HookOutcome::Proceed),
    ));
}

pub proof fn lemma_id_param<S>(
    hs: Hooks<S>,
    sv: S,
    e: DeclarationParameter,
)
    requires
        hooks_inert(hs),
    ensures
        sf_parameter(hs, sv, e) == (
            sv,
            if has_int_param(e) {
                Result::<DeclarationParameter, CompileError>::Err(CompileError::InternalInvariant)
            } else {
                Result::<DeclarationParameter, CompileError>::Ok(e)
            },
        ),
    decreases e,
{
    assert((hs.parameter)(sv, e) == (
        sv,
        Result::<HookOutcome<DeclarationParameter>, CompileError>::Ok(HookOutcome::Proceed),
    ));
    lemma_id_dvar(hs, sv, e.id);
}

pub proof fn lemma_id_params<S>(
    hs: Hooks<S>,
    sv: S,
    e: List<DeclarationParameter>,
)
    requires
        hooks_inert(hs),
    ensures
        sf_params(hs, sv, e) == (
            sv,
            if has_int_params(e) {
                Result::<List<DeclarationParameter>, CompileError>::Err(CompileError::InternalInvariant)
            } else {
                Result::<List<DeclarationParameter>, CompileError>::Ok(e)
            },
        ),
    decreases e,
{
    match e {
        List::Nil => {
        },
        List::Cons(x, rest) => {
            lemma_id_param(hs, sv, *x);
            lemma_id_params(hs, sv, *rest);
        },
    }
}

pub proof fn lemma_id_stmt<S>(
    hs: Hooks<S>,
    sv: S,
    e: TypedStatement,
)
    requires
        hooks_inert(hs),
    ensures
        sf_statement(hs, sv, e) == (
            sv,
            if has_int_stmt(e) {
                Result::<List<TypedStatement>, CompileError>::Err(CompileError::InternalInvariant)
            } else {
                Result::<List<TypedStatement>, CompileError>::Ok(List::Cons(Box::new(e), Box::new(List::Nil)))
            },
        ),
    decreases e,
{
    assert((hs.statement)(sv, e) == (
        sv,
        Result::<HookOutcome<List<TypedStatement>>, CompileError>::Ok(HookOutcome::Proceed),
    ));
    match e {
        TypedStatement::Return(es) => {
            lemma_id_exprs(hs, sv, es);
        },
        TypedStatement::Definition(a, x) => {
            lemma_id_assignee(hs, sv, a);
            lemma_id_expr(hs, sv, x);
        },
        TypedStatement::Declaration(v) => {
            lemma_id_var(hs, sv, v);
        },
        TypedStatement::Assertion(b) => {
            lemma_id_bool(hs, sv, b);
        },
        TypedStatement::For(v, lo, hi, body) => {
            lemma_id_var(hs, sv, v);
            lemma_id_uint(hs, sv, lo);
            lemma_id_uint(hs, sv, hi);
            lemma_id_stmts(hs, sv, body);
        },
        TypedStatement::MultipleDefinition(asgs, el) => {
            lemma_id_assignees(hs, sv, asgs);
            lemma_id_exprlist(hs, sv, el);
        },
    }
}

pub proof fn lemma_id_stmts<S>(
    hs: Hooks<S>,
    sv: S,
    e: List<TypedStatement>,
)
    requires
        hooks_inert(hs),
    ensures
        sf_statements(hs, sv, e) == (
            sv,
            if has_int_stmts(e) {
                Result::<List<TypedStatement>, CompileError>::Err(CompileError::InternalInvariant)
            } else {
                Result::<List<TypedStatement>, CompileError>::Ok(e)
            },
        ),
    decreases e,
{
    match e {
        List::Nil => {
        },
        List::Cons(s, rest) => {
            lemma_id_stmt(hs, sv, *s);
            lemma_id_stmts(hs, sv, *rest);
            if !has_int_stmts(e) {
                assert(append(List::<TypedStatement>::Nil, *rest) == *rest);
                assert(append(
                    List::Cons(Box::new(*s), Box::new(List::<TypedStatement>::Nil)),
                    *rest,
                ) == List::<TypedStatement>::Cons(Box::new(*s), Box::new(*rest)));
            }
        },
    }
}

pub proof fn lemma_id_exprlist<S>(
    hs: Hooks<S>,
    sv: S,
    e: TypedExpressionList,
)
    requires
        hooks_inert(hs),
    ensures
        sf_expression_list(hs, sv, e) == (
            sv,
            if has_int_exprlist(e) {
                Result::<TypedExpressionList, CompileError>::Err(CompileError::InternalInvariant)
            } else {
                Result::<TypedExpressionList, CompileError>::Ok(e)
            },
        ),
    decreases e,
{
    assert((hs.expression_list)(sv, e) == (
        sv,
        Result::<HookOutcome<TypedExpressionList>, CompileError>::Ok(HookOutcome::Proceed),
    ));
    match e {
        TypedExpressionList::FunctionCall(key, gens, args, tys) => {
            lemma_id_gens(hs, sv, gens);
            lemma_id_exprs(hs, sv, args);
            lemma_id_types(hs, sv, tys);
        },
    }
}

pub proof fn lemma_id_func<S>(
    hs: Hooks<S>,
    sv: S,
    e: TypedFunction,
)
    requires
        hooks_inert(hs),
    ensures
        sf_function(hs, sv, e) == (
            sv,
            if has_int_func(e) {
                Result::<TypedFunction, CompileError>::Err(CompileError::InternalInvariant)
            } else {
                Result::<TypedFunction, CompileError>::Ok(e)
            },
        ),
    decreases e,
{
    assert((hs.function)(sv, e) == (
        sv,
        Result::<HookOutcome<TypedFunction>, CompileError>::Ok(HookOutcome::Proceed),
    ));
    lemma_id_params(hs, sv, e.arguments);
    lemma_id_stmts(hs, sv, e.statements);
}

pub proof fn lemma_id_symbol<S>(
    hs: Hooks<S>,
    sv: S,
    e: TypedFunctionSymbol,
)
    requires
        hooks_inert(hs),
    ensures
        sf_function_symbol(hs, sv, e) == (
            sv,
            if has_int_symbol(e) {
                Result::<TypedFunctionSymbol, CompileError>::Err(CompileError::InternalInvariant)
            } else {
                Result::<TypedFunctionSymbol, CompileError>::Ok(e)
            },
        ),
    decreases e,
{
    assert((hs.function_symbol)(sv, e) == (
        sv,
        Result::<HookOutcome<TypedFunctionSymbol>, CompileError>::Ok(HookOutcome::Proceed),
    ));
    match e {
        TypedFunctionSymbol::Here(fun) => {
            lemma_id_func(hs, sv, fun);
        },
        there => {
        },
    }
}

pub proof fn lemma_id_funcs<S>(
    hs: Hooks<S>,
    sv: S,
    e: List<(Identifier, TypedFunctionSymbol)>,
)
    requires
        hooks_inert(hs),
    ensures
        sf_functions(hs, sv, e) == (
            sv,
            if has_int_funcs(e) {
                Result::<List<(Identifier, TypedFunctionSymbol)>, CompileError>::Err(CompileError::InternalInvariant)
            } else {
                Result::<List<(Identifier, TypedFunctionSymbol)>, CompileError>::Ok(e)
            },
        ),
    decreases e,
{
    match e {
        List::Nil => {
        },
        List::Cons(p, rest) => {
            lemma_id_symbol(hs, sv, (*p).1);
            lemma_id_funcs(hs, sv, *rest);
        },
    }
}

pub proof fn lemma_id_module<S>(
    hs: Hooks<S>,
    sv: S,
    e: TypedModule,
)
    requires
        hooks_inert(hs),
    ensures
        sf_module(hs, sv, e) == (
            sv,
            if has_int_module(e) {
                Result::<TypedModule, CompileError>::Err(CompileError::InternalInvariant)
            } else {
                Result::<TypedModule, CompileError>::Ok(e)
            },
        ),
    decreases e,
{
    assert((hs.module)(sv, e) == (
        sv,
        Result::<HookOutcome<TypedModule>, CompileError>::Ok(HookOutcome::Proceed),
    ));
    lemma_id_funcs(hs, sv, e.functions);
}

pub proof fn lemma_id_modules<S>(
    hs: Hooks<S>,
    sv: S,
    e: List<(Identifier, TypedModule)>,
)
    requires
        hooks_inert(hs),
    ensures
        sf_modules(hs, sv, e) == (
            sv,
            if has_int_modules(e) {
                Result::<List<(Identifier, TypedModule)>, CompileError>::Err(CompileError::InternalInvariant)
            } else {
                Result::<List<(Identifier, TypedModule)>, CompileError>::Ok(e)
            },
        ),
    decreases e,
{
    match e {
        List::Nil => {
        },
        List::Cons(p, rest) => {
            lemma_id_module(hs, sv, (*p).1);
            lemma_id_modules(hs, sv, *rest);
        },
    }
}

pub proof fn lemma_id_program<S>(
    hs: Hooks<S>,
    sv: S,
    e: TypedProgram,
)
    requires
        hooks_inert(hs),
    ensures
        sf_program(hs, sv, e) == (
            sv,
            if has_int_program(e) {
                Result::<TypedProgram, CompileError>::Err(CompileError::InternalInvariant)
            } else {
                Result::<TypedProgram, CompileError>::Ok(e)
            },
        ),
    decreases e,
{
    assert((hs.program)(sv, e) == (
        sv,
        Result::<HookOutcome<TypedProgram>, CompileError>::Ok(HookOutcome::Proceed),
    ));
    lemma_id_modules(hs, sv, e.modules);
}

/// Fail-fast: when folding one statement ends in an error, folding it
/// together with any later siblings yields that exact error, with the
/// state of the error point: no sibling is folded after the failure.
pub proof fn lemma_fail_fast<S>(
    hs: Hooks<S>,
    sv: S,
    s: TypedStatement,
    rest: List<TypedStatement>,
)
    requires
        sf_statement(hs, sv, s).1 is Err,
    ensures
        sf_statements(hs, sv, List::Cons(Box::new(s), Box::new(rest))).0 == sf_statement(
            hs,
            sv,
            s,
        ).0,
        sf_statements(hs, sv, List::Cons(Box::new(s), Box::new(rest))).1 == Result::<
            List<TypedStatement>,
            CompileError,
        >::Err(sf_statement(hs, sv, s).1->Err_0),
{
}

/// The no-override pass has inert hooks.
pub proof fn lemma_default_hooks_inert()
    ensures
        hooks_inert(
            crate::result_folder::hooks_of::<crate::result_folder::DefaultResultFolder>(),
        ),
{
    let hs = crate::result_folder::hooks_of::<crate::result_folder::DefaultResultFolder>();
    crate::result_folder::lemma_hooks_of::<crate::result_folder::DefaultResultFolder>();
    assert forall|sv: (), n: Identifier| #[trigger] (hs.name)(sv, n) == (
        sv,
        Result::<Identifier, CompileError>::Ok(n),
    ) by {
        assert((hs.name)(sv, n) == <crate::result_folder::DefaultResultFolder as crate::result_folder::ResultFolder>::name_fold(sv, n));
    }
    assert forall|sv: (), e: TypedProgram| #[trigger] (hs.program)(sv, e) == (
        sv,
        Result::<HookOutcome<TypedProgram>, CompileError>::Ok(HookOutcome::Proceed),
    ) by {
        assert((hs.program)(sv, e) == <crate::result_folder::DefaultResultFolder as crate::result_folder::ResultFolder>::program_hook(sv, e));
    }
    assert forall|sv: (), e: TypedModule| #[trigger] (hs.module)(sv, e) == (
        sv,
        Result::<HookOutcome<TypedModule>, CompileError>::Ok(HookOutcome::Proceed),
    ) by {
        assert((hs.module)(sv, e) == <crate::result_folder::DefaultResultFolder as crate::result_folder::ResultFolder>::module_hook(sv, e));
    }
    assert forall|sv: (), e: TypedFunctionSymbol| #[trigger] (hs.function_symbol)(sv, e) == (
        sv,
        Result::<HookOutcome<TypedFunctionSymbol>, CompileError>::Ok(HookOutcome::Proceed),
    ) by {
        assert((hs.function_symbol)(sv, e) == <crate::result_folder::DefaultResultFolder as crate::result_folder::ResultFolder>::function_symbol_hook(sv, e));
    }
    assert forall|sv: (), e: TypedFunction| #[trigger] (hs.function)(sv, e) == (
        sv,
        Result::<HookOutcome<TypedFunction>, CompileError>::Ok(HookOutcome::Proceed),
    ) by {
        assert((hs.function)(sv, e) == <crate::result_folder::DefaultResultFolder as crate::result_folder::ResultFolder>::function_hook(sv, e));
    }
    assert forall|sv: (), e: DeclarationParameter| #[trigger] (hs.parameter)(sv, e) == (
        sv,
        Result::<HookOutcome<DeclarationParameter>, CompileError>::Ok(HookOutcome::Proceed),
    ) by {
        assert((hs.parameter)(sv, e) == <crate::result_folder::DefaultResultFolder as crate::result_folder::ResultFolder>::parameter_hook(sv, e));
    }
    assert forall|sv: (), e: Variable| #[trigger] (hs.variable)(sv, e) == (
        sv,
        Result::<HookOutcome<Variable>, CompileError>::Ok(HookOutcome::Proceed),
    ) by {
        assert((hs.variable)(sv, e) == <crate::result_folder::DefaultResultFolder as crate::result_folder::ResultFolder>::variable_hook(sv, e));
    }
    assert forall|sv: (), e: DeclarationVariable| #[trigger] (hs.declaration_variable)(sv, e) == (
        sv,
        Result::<HookOutcome<DeclarationVariable>, CompileError>::Ok(HookOutcome::Proceed),
    ) by {
        assert((hs.declaration_variable)(sv, e) == <crate::result_folder::DefaultResultFolder as crate::result_folder::ResultFolder>::declaration_variable_hook(sv, e));
    }
    assert forall|sv: (), e: Type| #[trigger] (hs.ty)(sv, e) == (
        sv,
        Result::<HookOutcome<Type>, CompileError>::Ok(HookOutcome::Proceed),
    ) by {
        assert((hs.ty)(sv, e) == <crate::result_folder::DefaultResultFolder as crate::result_folder::ResultFolder>::ty_hook(sv, e));
    }
    assert forall|sv: (), e: ArrayType| #[trigger] (hs.array_type)(sv, e) == (
        sv,
        Result::<HookOutcome<ArrayType>, CompileError>::Ok(HookOutcome::Proceed),
    ) by {
        assert((hs.array_type)(sv, e) == <crate::result_folder::DefaultResultFolder as crate::result_folder::ResultFolder>::array_type_hook(sv, e));
    }
    assert forall|sv: (), e: StructType| #[trigger] (hs.struct_type)(sv, e) == (
        sv,
        Result::<HookOutcome<StructType>, CompileError>::Ok(HookOutcome::Proceed),
    ) by {
        assert((hs.struct_type)(sv, e) == <crate::result_folder::DefaultResultFolder as crate::result_folder::ResultFolder>::struct_type_hook(sv, e));
    }
    assert forall|sv: (), e: DeclarationType| #[trigger] (hs.declaration_type)(sv, e) == (
        sv,
        Result::<HookOutcome<DeclarationType>, CompileError>::Ok(HookOutcome::Proceed),
    ) by {
        assert((hs.declaration_type)(sv, e) == <crate::result_folder::DefaultResultFolder as crate::result_folder::ResultFolder>::declaration_type_hook(sv, e));
    }
    assert forall|sv: (), e: TypedAssignee| #[trigger] (hs.assignee)(sv, e) == (
        sv,
        Result::<HookOutcome<TypedAssignee>, CompileError>::Ok(HookOutcome::Proceed),
    ) by {
        assert((hs.assignee)(sv, e) == <crate::result_folder::DefaultResultFolder as crate::result_folder::ResultFolder>::assignee_hook(sv, e));
    }
    assert forall|sv: (), e: TypedStatement| #[trigger] (hs.statement)(sv, e) == (
        sv,
        Result::<HookOutcome<List<TypedStatement>>, CompileError>::Ok(HookOutcome::Proceed),
    ) by {
        assert((hs.statement)(sv, e) == <crate::result_folder::DefaultResultFolder as crate::result_folder::ResultFolder>::statement_hook(sv, e));
    }
    assert forall|sv: (), e: TypedExpressionOrSpread| #[trigger] (hs.expression_or_spread)(sv, e) == (
        sv,
        Result::<HookOutcome<TypedExpressionOrSpread>, CompileError>::Ok(HookOutcome::Proceed),
    ) by {
        assert((hs.expression_or_spread)(sv, e) == <crate::result_folder::DefaultResultFolder as crate::result_folder::ResultFolder>::expression_or_spread_hook(sv, e));
    }
    assert forall|sv: (), e: TypedSpread| #[trigger] (hs.spread)(sv, e) == (
        sv,
        Result::<HookOutcome<TypedSpread>, CompileError>::Ok(HookOutcome::Proceed),
    ) by {
        assert((hs.spread)(sv, e) == <crate::result_folder::DefaultResultFolder as crate::result_folder::ResultFolder>::spread_hook(sv, e));
    }
    assert forall|sv: (), e: TypedExpression| #[trigger] (hs.expression)(sv, e) == (
        sv,
        Result::<HookOutcome<TypedExpression>, CompileError>::Ok(HookOutcome::Proceed),
    ) by {
        assert((hs.expression)(sv, e) == <crate::result_folder::DefaultResultFolder as crate::result_folder::ResultFolder>::expression_hook(sv, e));
    }
    assert forall|sv: (), e: ArrayExpression| #[trigger] (hs.array_expression)(sv, e) == (
        sv,
        Result::<HookOutcome<ArrayExpression>, CompileError>::Ok(HookOutcome::Proceed),
    ) by {
        assert((hs.array_expression)(sv, e) == <crate::result_folder::DefaultResultFolder as crate::result_folder::ResultFolder>::array_expression_hook(sv, e));
    }
    assert forall|sv: (), e: StructExpression| #[trigger] (hs.struct_expression)(sv, e) == (
        sv,
        Result::<HookOutcome<StructExpression>, CompileError>::Ok(HookOutcome::Proceed),
    ) by {
        assert((hs.struct_expression)(sv, e) == <crate::result_folder::DefaultResultFolder as crate::result_folder::ResultFolder>::struct_expression_hook(sv, e));
    }
    assert forall|sv: (), e: TypedExpressionList| #[trigger] (hs.expression_list)(sv, e) == (
        sv,
        Result::<HookOutcome<TypedExpressionList>, CompileError>::Ok(HookOutcome::Proceed),
    ) by {
        assert((hs.expression_list)(sv, e) == <crate::result_folder::DefaultResultFolder as crate::result_folder::ResultFolder>::expression_list_hook(sv, e));
    }
    assert forall|sv: (), e: IntExpression| #[trigger] (hs.int_expression)(sv, e) == (
        sv,
        Result::<HookOutcome<IntExpression>, CompileError>::Ok(HookOutcome::Proceed),
    ) by {
        assert((hs.int_expression)(sv, e) == <crate::result_folder::DefaultResultFolder as crate::result_folder::ResultFolder>::int_expression_hook(sv, e));
    }
    assert forall|sv: (), e: FieldElementExpression| #[trigger] (hs.field_expression)(sv, e) == (
        sv,
        Result::<HookOutcome<FieldElementExpression>, CompileError>::Ok(HookOutcome::Proceed),
    ) by {
        assert((hs.field_expression)(sv, e) == <crate::result_folder::DefaultResultFolder as crate::result_folder::ResultFolder>::field_expression_hook(sv, e));
    }
    assert forall|sv: (), e: BooleanExpression| #[trigger] (hs.boolean_expression)(sv, e) == (
        sv,
        Result::<HookOutcome<BooleanExpression>, CompileError>::Ok(HookOutcome::Proceed),
    ) by {
        assert((hs.boolean_expression)(sv, e) == <crate::result_folder::DefaultResultFolder as crate::result_folder::ResultFolder>::boolean_expression_hook(sv, e));
    }
    assert forall|sv: (), e: UExpression| #[trigger] (hs.uint_expression)(sv, e) == (
        sv,
        Result::<HookOutcome<UExpression>, CompileError>::Ok(HookOutcome::Proceed),
    ) by {
        assert((hs.uint_expression)(sv, e) == <crate::result_folder::DefaultResultFolder as crate::result_folder::ResultFolder>::uint_expression_hook(sv, e));
    }
    assert forall|sv: (), e: UExpressionInner| #[trigger] (hs.uint_expression_inner)(sv, e) == (
        sv,
        Result::<HookOutcome<UExpressionInner>, CompileError>::Ok(HookOutcome::Proceed),
    ) by {
        assert((hs.uint_expression_inner)(sv, e) == <crate::result_folder::DefaultResultFolder as crate::result_folder::ResultFolder>::uint_expression_inner_hook(sv, e));
    }
    assert forall|sv: (), e: ArrayExpressionInner| #[trigger] (hs.array_expression_inner)(sv, e) == (
        sv,
        Result::<HookOutcome<ArrayExpressionInner>, CompileError>::Ok(HookOutcome::Proceed),
    ) by {
        assert((hs.array_expression_inner)(sv, e) == <crate::result_folder::DefaultResultFolder as crate::result_folder::ResultFolder>::array_expression_inner_hook(sv, e));
    }
    assert forall|sv: (), e: StructExpressionInner| #[trigger] (hs.struct_expression_inner)(sv, e) == (
        sv,
        Result::<HookOutcome<StructExpressionInner>, CompileError>::Ok(HookOutcome::Proceed),
    ) by {
        assert((hs.struct_expression_inner)(sv, e) == <crate::result_folder::DefaultResultFolder as crate::result_folder::ResultFolder>::struct_expression_inner_hook(sv, e));
    }
}

/// Identity law: folding any program free of untyped integer literals
/// with the no-override pass yields the program unchanged; and the fatal
/// invariant: folding a program that still holds an untyped integer
/// literal ends in the internal-invariant error, not an ordinary
/// compile error.
pub proof fn lemma_default_result_folder(p: TypedProgram)
    ensures
        !has_int_program(p) ==> sf_program(
            crate::result_folder::hooks_of::<crate::result_folder::DefaultResultFolder>(),
            (),
            p,
        ) == ((), Result::<TypedProgram, CompileError>::Ok(p)),
        has_int_program(p) ==> sf_program(
            crate::result_folder::hooks_of::<crate::result_folder::DefaultResultFolder>(),
            (),
            p,
        ) == ((), Result::<TypedProgram, CompileError>::Err(CompileError::InternalInvariant)),
{
    let hs = crate::result_folder::hooks_of::<crate::result_folder::DefaultResultFolder>();
    lemma_default_hooks_inert();
    lemma_id_program(hs, (), p);
}

/// Fail-fast at any position: when every statement before one position
/// folds successfully and folding the statement at that position fails,
/// folding the whole run yields that exact error, with the state of the
/// error point: no later sibling is folded.
pub proof fn lemma_fail_fast_at<S>(
    hs: Hooks<S>,
    sv: S,
    xs: List<TypedStatement>,
    s: TypedStatement,
    rest: List<TypedStatement>,
)
    requires
        sf_statements(hs, sv, xs).1 is Ok,
        sf_statement(hs, sf_statements(hs, sv, xs).0, s).1 is Err,
    ensures
        sf_statements(hs, sv, append(xs, List::Cons(Box::new(s), Box::new(rest)))).0
            == sf_statement(hs, sf_statements(hs, sv, xs).0, s).0,
        sf_statements(hs, sv, append(xs, List::Cons(Box::new(s), Box::new(rest)))).1
            == Result::<List<TypedStatement>, CompileError>::Err(
            sf_statement(hs, sf_statements(hs, sv, xs).0, s).1->Err_0,
        ),
    decreases xs,
{
    match xs {
        List::Nil => {
            assert(sf_statements(hs, sv, xs).0 == sv);
            lemma_fail_fast(hs, sv, s, rest);
        },
        List::Cons(h, t) => {
            let (sv1, rh) = sf_statement(hs, sv, *h);
            assert(rh is Ok);
            assert(sf_statements(hs, sv1, *t).1 is Ok);
            assert(sf_statements(hs, sv, xs).0 == sf_statements(hs, sv1, *t).0);
            lemma_fail_fast_at(hs, sv1, *t, s, rest);
            assert(append(xs, List::Cons(Box::new(s), Box::new(rest)))
                == List::<TypedStatement>::Cons(
                Box::new(*h),
                Box::new(append(*t, List::Cons(Box::new(s), Box::new(rest)))),
            ));
        },
    }
}

} // verus!
