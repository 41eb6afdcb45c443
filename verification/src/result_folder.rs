//! Generic walk through the typed AST, not mutating in place.
//!
//! Every operation is fallible: the first error aborts the whole fold,
//! with no sibling folded after it. Type information is threaded: an
//! array or struct expression's declared type or shape is folded first
//! and handed to the fold of its inner expression.
//!
//! A rewrite pass implements `ResultFolder`: it chooses an abstract
//! state, says how identifiers fold, and may override any node kind
//! through that kind's hook, consulted before the default structural
//! recursion — replacing the node outright, failing, updating state, or
//! letting traversal proceed. Overriding one node kind never requires
//! reimplementing the traversal of any other: the free `fold_*`
//! functions are the default recursion for every kind, each pinned to
//! its `sf_*` specification, the exact state-threading, fail-fast fold
//! of that node kind.

use vstd::prelude::*;
use crate::typed::{
    append, list_concat, ArrayExpression, ArrayExpressionInner, ArrayType, BooleanExpression,
    DeclarationParameter, DeclarationType, DeclarationVariable, FieldElementExpression,
    Identifier, IntExpression, List, StructExpression, StructExpressionInner, StructMember,
    StructType, Type, TypedAssignee, TypedExpression, TypedExpressionList,
    TypedExpressionOrSpread, TypedFunction, TypedFunctionSymbol, TypedModule, TypedProgram,
    TypedSpread, TypedStatement, UExpression, UExpressionInner, Variable,
};

verus! {

/// A fold error: an ordinary compile error attributable to one node, or
/// the fatal signal that an untyped integer literal survived into the
/// fold, which is a broken upstream invariant, not a user diagnostic.
#[derive(Clone, Copy, PartialEq, Eq, Structural, Debug)]
pub enum CompileError {
    Custom(u64),
    InternalInvariant,
}

/// What a node-kind hook decides: replace the node with a finished
/// result, or let the default structural recursion proceed.
#[derive(PartialEq, Eq, Debug)]
pub enum HookOutcome<A> {
    Replace(A),
    Proceed,
}

/// A pass's behaviour as one record of functions over its abstract
/// state: the identifier rewrite, and one hook per node kind.
#[verifier::reject_recursive_types(S)]
pub struct Hooks<S> {
    pub name: spec_fn(S, Identifier) -> (S, Result<Identifier, CompileError>),
    pub program: spec_fn(S, TypedProgram) -> (S, Result<HookOutcome<TypedProgram>, CompileError>),
    pub module: spec_fn(S, TypedModule) -> (S, Result<HookOutcome<TypedModule>, CompileError>),
    pub function_symbol: spec_fn(S, TypedFunctionSymbol) -> (S, Result<HookOutcome<TypedFunctionSymbol>, CompileError>),
    pub function: spec_fn(S, TypedFunction) -> (S, Result<HookOutcome<TypedFunction>, CompileError>),
    pub parameter: spec_fn(S, DeclarationParameter) -> (S, Result<HookOutcome<DeclarationParameter>, CompileError>),
    pub variable: spec_fn(S, Variable) -> (S, Result<HookOutcome<Variable>, CompileError>),
    pub declaration_variable: spec_fn(S, DeclarationVariable) -> (S, Result<HookOutcome<DeclarationVariable>, CompileError>),
    pub ty: spec_fn(S, Type) -> (S, Result<HookOutcome<Type>, CompileError>),
    pub array_type: spec_fn(S, ArrayType) -> (S, Result<HookOutcome<ArrayType>, CompileError>),
    pub struct_type: spec_fn(S, StructType) -> (S, Result<HookOutcome<StructType>, CompileError>),
    pub declaration_type: spec_fn(S, DeclarationType) -> (S, Result<HookOutcome<DeclarationType>, CompileError>),
    pub assignee: spec_fn(S, TypedAssignee) -> (S, Result<HookOutcome<TypedAssignee>, CompileError>),
    pub statement: spec_fn(S, TypedStatement) -> (S, Result<HookOutcome<List<TypedStatement>>, CompileError>),
    pub expression_or_spread: spec_fn(S, TypedExpressionOrSpread) -> (S, Result<HookOutcome<TypedExpressionOrSpread>, CompileError>),
    pub spread: spec_fn(S, TypedSpread) -> (S, Result<HookOutcome<TypedSpread>, CompileError>),
    pub expression: spec_fn(S, TypedExpression) -> (S, Result<HookOutcome<TypedExpression>, CompileError>),
    pub array_expression: spec_fn(S, ArrayExpression) -> (S, Result<HookOutcome<ArrayExpression>, CompileError>),
    pub struct_expression: spec_fn(S, StructExpression) -> (S, Result<HookOutcome<StructExpression>, CompileError>),
    pub expression_list: spec_fn(S, TypedExpressionList) -> (S, Result<HookOutcome<TypedExpressionList>, CompileError>),
    pub int_expression: spec_fn(S, IntExpression) -> (S, Result<HookOutcome<IntExpression>, CompileError>),
    pub field_expression: spec_fn(S, FieldElementExpression) -> (S, Result<HookOutcome<FieldElementExpression>, CompileError>),
    pub boolean_expression: spec_fn(S, BooleanExpression) -> (S, Result<HookOutcome<BooleanExpression>, CompileError>),
    pub uint_expression: spec_fn(S, UExpression) -> (S, Result<HookOutcome<UExpression>, CompileError>),
    pub uint_expression_inner: spec_fn(S, UExpressionInner) -> (S, Result<HookOutcome<UExpressionInner>, CompileError>),
    pub array_expression_inner: spec_fn(S, ArrayExpressionInner) -> (S, Result<HookOutcome<ArrayExpressionInner>, CompileError>),
    pub struct_expression_inner: spec_fn(S, StructExpressionInner) -> (S, Result<HookOutcome<StructExpressionInner>, CompileError>),
}

/// The tree-rewrite contract over the typed AST: one overridable
/// operation per node kind. A pass supplies its abstract state, its
/// identifier fold, and a hook for each node kind; a hook that yields
/// `Proceed` falls back to the default structural recursion of the free
/// `fold_*` functions.
pub trait ResultFolder: Sized {
    /// The abstract state of the pass.
    type SV;

    /// The abstract view of the pass's current state.
    spec fn sv(&self) -> Self::SV;

    /// How the pass folds one identifier: the state after, and the
    /// rewritten identifier or the first error.
    spec fn name_fold(sv: Self::SV, n: Identifier) -> (Self::SV, Result<Identifier, CompileError>);

    fn fold_name(&mut self, n: Identifier) -> (r: Result<Identifier, CompileError>)
        ensures
            final(self).sv() == Self::name_fold(old(self).sv(), n).0,
            r == Self::name_fold(old(self).sv(), n).1,
    ;

    spec fn program_hook(sv: Self::SV, e: TypedProgram) -> (Self::SV, Result<HookOutcome<TypedProgram>, CompileError>);

    fn hook_program(&mut self, e: &TypedProgram) -> (r: Result<HookOutcome<TypedProgram>, CompileError>)
        ensures
            final(self).sv() == Self::program_hook(old(self).sv(), *e).0,
            r == Self::program_hook(old(self).sv(), *e).1,
    ;

    spec fn module_hook(sv: Self::SV, e: TypedModule) -> (Self::SV, Result<HookOutcome<TypedModule>, CompileError>);

    fn hook_module(&mut self, e: &TypedModule) -> (r: Result<HookOutcome<TypedModule>, CompileError>)
        ensures
            final(self).sv() == Self::module_hook(old(self).sv(), *e).0,
            r == Self::module_hook(old(self).sv(), *e).1,
    ;

    spec fn function_symbol_hook(sv: Self::SV, e: TypedFunctionSymbol) -> (Self::SV, Result<HookOutcome<TypedFunctionSymbol>, CompileError>);

    fn hook_function_symbol(&mut self, e: &TypedFunctionSymbol) -> (r: Result<HookOutcome<TypedFunctionSymbol>, CompileError>)
        ensures
            final(self).sv() == Self::function_symbol_hook(old(self).sv(), *e).0,
            r == Self::function_symbol_hook(old(self).sv(), *e).1,
    ;

    spec fn function_hook(sv: Self::SV, e: TypedFunction) -> (Self::SV, Result<HookOutcome<TypedFunction>, CompileError>);

    fn hook_function(&mut self, e: &TypedFunction) -> (r: Result<HookOutcome<TypedFunction>, CompileError>)
        ensures
            final(self).sv() == Self::function_hook(old(self).sv(), *e).0,
            r == Self::function_hook(old(self).sv(), *e).1,
    ;

    spec fn parameter_hook(sv: Self::SV, e: DeclarationParameter) -> (Self::SV, Result<HookOutcome<DeclarationParameter>, CompileError>);

    fn hook_parameter(&mut self, e: &DeclarationParameter) -> (r: Result<HookOutcome<DeclarationParameter>, CompileError>)
        ensures
            final(self).sv() == Self::parameter_hook(old(self).sv(), *e).0,
            r == Self::parameter_hook(old(self).sv(), *e).1,
    ;

    spec fn variable_hook(sv: Self::SV, e: Variable) -> (Self::SV, Result<HookOutcome<Variable>, CompileError>);

    fn hook_variable(&mut self, e: &Variable) -> (r: Result<HookOutcome<Variable>, CompileError>)
        ensures
            final(self).sv() == Self::variable_hook(old(self).sv(), *e).0,
            r == Self::variable_hook(old(self).sv(), *e).1,
    ;

    spec fn declaration_variable_hook(sv: Self::SV, e: DeclarationVariable) -> (Self::SV, Result<HookOutcome<DeclarationVariable>, CompileError>);

    fn hook_declaration_variable(&mut self, e: &DeclarationVariable) -> (r: Result<HookOutcome<DeclarationVariable>, CompileError>)
        ensures
            final(self).sv() == Self::declaration_variable_hook(old(self).sv(), *e).0,
            r == Self::declaration_variable_hook(old(self).sv(), *e).1,
    ;

    spec fn ty_hook(sv: Self::SV, e: Type) -> (Self::SV, Result<HookOutcome<Type>, CompileError>);

    fn hook_type(&mut self, e: &Type) -> (r: Result<HookOutcome<Type>, CompileError>)
        ensures
            final(self).sv() == Self::ty_hook(old(self).sv(), *e).0,
            r == Self::ty_hook(old(self).sv(), *e).1,
    ;

    spec fn array_type_hook(sv: Self::SV, e: ArrayType) -> (Self::SV, Result<HookOutcome<ArrayType>, CompileError>);

    fn hook_array_type(&mut self, e: &ArrayType) -> (r: Result<HookOutcome<ArrayType>, CompileError>)
        ensures
            final(self).sv() == Self::array_type_hook(old(self).sv(), *e).0,
            r == Self::array_type_hook(old(self).sv(), *e).1,
    ;

    spec fn struct_type_hook(sv: Self::SV, e: StructType) -> (Self::SV, Result<HookOutcome<StructType>, CompileError>);

    fn hook_struct_type(&mut self, e: &StructType) -> (r: Result<HookOutcome<StructType>, CompileError>)
        ensures
            final(self).sv() == Self::struct_type_hook(old(self).sv(), *e).0,
            r == Self::struct_type_hook(old(self).sv(), *e).1,
    ;

    spec fn declaration_type_hook(sv: Self::SV, e: DeclarationType) -> (Self::SV, Result<HookOutcome<DeclarationType>, CompileError>);

    fn hook_declaration_type(&mut self, e: &DeclarationType) -> (r: Result<HookOutcome<DeclarationType>, CompileError>)
        ensures
            final(self).sv() == Self::declaration_type_hook(old(self).sv(), *e).0,
            r == Self::declaration_type_hook(old(self).sv(), *e).1,
    ;

    spec fn assignee_hook(sv: Self::SV, e: TypedAssignee) -> (Self::SV, Result<HookOutcome<TypedAssignee>, CompileError>);

    fn hook_assignee(&mut self, e: &TypedAssignee) -> (r: Result<HookOutcome<TypedAssignee>, CompileError>)
        ensures
            final(self).sv() == Self::assignee_hook(old(self).sv(), *e).0,
            r == Self::assignee_hook(old(self).sv(), *e).1,
    ;

    spec fn statement_hook(sv: Self::SV, e: TypedStatement) -> (Self::SV, Result<HookOutcome<List<TypedStatement>>, CompileError>);

    fn hook_statement(&mut self, e: &TypedStatement) -> (r: Result<HookOutcome<List<TypedStatement>>, CompileError>)
        ensures
            final(self).sv() == Self::statement_hook(old(self).sv(), *e).0,
            r == Self::statement_hook(old(self).sv(), *e).1,
    ;

    spec fn expression_or_spread_hook(sv: Self::SV, e: TypedExpressionOrSpread) -> (Self::SV, Result<HookOutcome<TypedExpressionOrSpread>, CompileError>);

    fn hook_expression_or_spread(&mut self, e: &TypedExpressionOrSpread) -> (r: Result<HookOutcome<TypedExpressionOrSpread>, CompileError>)
        ensures
            final(self).sv() == Self::expression_or_spread_hook(old(self).sv(), *e).0,
            r == Self::expression_or_spread_hook(old(self).sv(), *e).1,
    ;

    spec fn spread_hook(sv: Self::SV, e: TypedSpread) -> (Self::SV, Result<HookOutcome<TypedSpread>, CompileError>);

    fn hook_spread(&mut self, e: &TypedSpread) -> (r: Result<HookOutcome<TypedSpread>, CompileError>)
        ensures
            final(self).sv() == Self::spread_hook(old(self).sv(), *e).0,
            r == Self::spread_hook(old(self).sv(), *e).1,
    ;

    spec fn expression_hook(sv: Self::SV, e: TypedExpression) -> (Self::SV, Result<HookOutcome<TypedExpression>, CompileError>);

    fn hook_expression(&mut self, e: &TypedExpression) -> (r: Result<HookOutcome<TypedExpression>, CompileError>)
        ensures
            final(self).sv() == Self::expression_hook(old(self).sv(), *e).0,
            r == Self::expression_hook(old(self).sv(), *e).1,
    ;

    spec fn array_expression_hook(sv: Self::SV, e: ArrayExpression) -> (Self::SV, Result<HookOutcome<ArrayExpression>, CompileError>);

    fn hook_array_expression(&mut self, e: &ArrayExpression) -> (r: Result<HookOutcome<ArrayExpression>, CompileError>)
        ensures
            final(self).sv() == Self::array_expression_hook(old(self).sv(), *e).0,
            r == Self::array_expression_hook(old(self).sv(), *e).1,
    ;

    spec fn struct_expression_hook(sv: Self::SV, e: StructExpression) -> (Self::SV, Result<HookOutcome<StructExpression>, CompileError>);

    fn hook_struct_expression(&mut self, e: &StructExpression) -> (r: Result<HookOutcome<StructExpression>, CompileError>)
        ensures
            final(self).sv() == Self::struct_expression_hook(old(self).sv(), *e).0,
            r == Self::struct_expression_hook(old(self).sv(), *e).1,
    ;

    spec fn expression_list_hook(sv: Self::SV, e: TypedExpressionList) -> (Self::SV, Result<HookOutcome<TypedExpressionList>, CompileError>);

    fn hook_expression_list(&mut self, e: &TypedExpressionList) -> (r: Result<HookOutcome<TypedExpressionList>, CompileError>)
        ensures
            final(self).sv() == Self::expression_list_hook(old(self).sv(), *e).0,
            r == Self::expression_list_hook(old(self).sv(), *e).1,
    ;

    spec fn int_expression_hook(sv: Self::SV, e: IntExpression) -> (Self::SV, Result<HookOutcome<IntExpression>, CompileError>);

    fn hook_int_expression(&mut self, e: &IntExpression) -> (r: Result<HookOutcome<IntExpression>, CompileError>)
        ensures
            final(self).sv() == Self::int_expression_hook(old(self).sv(), *e).0,
            r == Self::int_expression_hook(old(self).sv(), *e).1,
    ;

    spec fn field_expression_hook(sv: Self::SV, e: FieldElementExpression) -> (Self::SV, Result<HookOutcome<FieldElementExpression>, CompileError>);

    fn hook_field_expression(&mut self, e: &FieldElementExpression) -> (r: Result<HookOutcome<FieldElementExpression>, CompileError>)
        ensures
            final(self).sv() == Self::field_expression_hook(old(self).sv(), *e).0,
            r == Self::field_expression_hook(old(self).sv(), *e).1,
    ;

    spec fn boolean_expression_hook(sv: Self::SV, e: BooleanExpression) -> (Self::SV, Result<HookOutcome<BooleanExpression>, CompileError>);

    fn hook_boolean_expression(&mut self, e: &BooleanExpression) -> (r: Result<HookOutcome<BooleanExpression>, CompileError>)
        ensures
            final(self).sv() == Self::boolean_expression_hook(old(self).sv(), *e).0,
            r == Self::boolean_expression_hook(old(self).sv(), *e).1,
    ;

    spec fn uint_expression_hook(sv: Self::SV, e: UExpression) -> (Self::SV, Result<HookOutcome<UExpression>, CompileError>);

    fn hook_uint_expression(&mut self, e: &UExpression) -> (r: Result<HookOutcome<UExpression>, CompileError>)
        ensures
            final(self).sv() == Self::uint_expression_hook(old(self).sv(), *e).0,
            r == Self::uint_expression_hook(old(self).sv(), *e).1,
    ;

    spec fn uint_expression_inner_hook(sv: Self::SV, e: UExpressionInner) -> (Self::SV, Result<HookOutcome<UExpressionInner>, CompileError>);

    fn hook_uint_expression_inner(&mut self, e: &UExpressionInner) -> (r: Result<HookOutcome<UExpressionInner>, CompileError>)
        ensures
            final(self).sv() == Self::uint_expression_inner_hook(old(self).sv(), *e).0,
            r == Self::uint_expression_inner_hook(old(self).sv(), *e).1,
    ;

    spec fn array_expression_inner_hook(sv: Self::SV, e: ArrayExpressionInner) -> (Self::SV, Result<HookOutcome<ArrayExpressionInner>, CompileError>);

    fn hook_array_expression_inner(&mut self, e: &ArrayExpressionInner) -> (r: Result<HookOutcome<ArrayExpressionInner>, CompileError>)
        ensures
            final(self).sv() == Self::array_expression_inner_hook(old(self).sv(), *e).0,
            r == Self::array_expression_inner_hook(old(self).sv(), *e).1,
    ;

    spec fn struct_expression_inner_hook(sv: Self::SV, e: StructExpressionInner) -> (Self::SV, Result<HookOutcome<StructExpressionInner>, CompileError>);

    fn hook_struct_expression_inner(&mut self, e: &StructExpressionInner) -> (r: Result<HookOutcome<StructExpressionInner>, CompileError>)
        ensures
            final(self).sv() == Self::struct_expression_inner_hook(old(self).sv(), *e).0,
            r == Self::struct_expression_inner_hook(old(self).sv(), *e).1,
    ;
}

/// A pass's behaviour as a hook record, for the spec-level traversal.
pub open spec fn hooks_of<F: ResultFolder>() -> Hooks<F::SV> {
    Hooks {
        name: |sv: F::SV, n: Identifier| F::name_fold(sv, n),
        program: |sv: F::SV, e: TypedProgram| F::program_hook(sv, e),
        module: |sv: F::SV, e: TypedModule| F::module_hook(sv, e),
        function_symbol: |sv: F::SV, e: TypedFunctionSymbol| F::function_symbol_hook(sv, e),
        function: |sv: F::SV, e: TypedFunction| F::function_hook(sv, e),
        parameter: |sv: F::SV, e: DeclarationParameter| F::parameter_hook(sv, e),
        variable: |sv: F::SV, e: Variable| F::variable_hook(sv, e),
        declaration_variable: |sv: F::SV, e: DeclarationVariable| F::declaration_variable_hook(sv, e),
        ty: |sv: F::SV, e: Type| F::ty_hook(sv, e),
        array_type: |sv: F::SV, e: ArrayType| F::array_type_hook(sv, e),
        struct_type: |sv: F::SV, e: StructType| F::struct_type_hook(sv, e),
        declaration_type: |sv: F::SV, e: DeclarationType| F::declaration_type_hook(sv, e),
        assignee: |sv: F::SV, e: TypedAssignee| F::assignee_hook(sv, e),
        statement: |sv: F::SV, e: TypedStatement| F::statement_hook(sv, e),
        expression_or_spread: |sv: F::SV, e: TypedExpressionOrSpread| F::expression_or_spread_hook(sv, e),
        spread: |sv: F::SV, e: TypedSpread| F::spread_hook(sv, e),
        expression: |sv: F::SV, e: TypedExpression| F::expression_hook(sv, e),
        array_expression: |sv: F::SV, e: ArrayExpression| F::array_expression_hook(sv, e),
        struct_expression: |sv: F::SV, e: StructExpression| F::struct_expression_hook(sv, e),
        expression_list: |sv: F::SV, e: TypedExpressionList| F::expression_list_hook(sv, e),
        int_expression: |sv: F::SV, e: IntExpression| F::int_expression_hook(sv, e),
        field_expression: |sv: F::SV, e: FieldElementExpression| F::field_expression_hook(sv, e),
        boolean_expression: |sv: F::SV, e: BooleanExpression| F::boolean_expression_hook(sv, e),
        uint_expression: |sv: F::SV, e: UExpression| F::uint_expression_hook(sv, e),
        uint_expression_inner: |sv: F::SV, e: UExpressionInner| F::uint_expression_inner_hook(sv, e),
        array_expression_inner: |sv: F::SV, e: ArrayExpressionInner| F::array_expression_inner_hook(sv, e),
        struct_expression_inner: |sv: F::SV, e: StructExpressionInner| F::struct_expression_inner_hook(sv, e),
    }
}

pub proof fn lemma_hooks_of<F: ResultFolder>()
    ensures
        forall|sv: F::SV, n: Identifier| #[trigger] (hooks_of::<F>().name)(sv, n)
            == F::name_fold(sv, n),
        forall|sv: F::SV, e: TypedProgram| #[trigger] (hooks_of::<F>().program)(sv, e)
            == F::program_hook(sv, e),
        forall|sv: F::SV, e: TypedModule| #[trigger] (hooks_of::<F>().module)(sv, e)
            == F::module_hook(sv, e),
        forall|sv: F::SV, e: TypedFunctionSymbol| #[trigger] (hooks_of::<F>().function_symbol)(sv, e)
            == F::function_symbol_hook(sv, e),
        forall|sv: F::SV, e: TypedFunction| #[trigger] (hooks_of::<F>().function)(sv, e)
            == F::function_hook(sv, e),
        forall|sv: F::SV, e: DeclarationParameter| #[trigger] (hooks_of::<F>().parameter)(sv, e)
            == F::parameter_hook(sv, e),
        forall|sv: F::SV, e: Variable| #[trigger] (hooks_of::<F>().variable)(sv, e)
            == F::variable_hook(sv, e),
        forall|sv: F::SV, e: DeclarationVariable| #[trigger] (hooks_of::<F>().declaration_variable)(sv, e)
            == F::declaration_variable_hook(sv, e),
        forall|sv: F::SV, e: Type| #[trigger] (hooks_of::<F>().ty)(sv, e)
            == F::ty_hook(sv, e),
        forall|sv: F::SV, e: ArrayType| #[trigger] (hooks_of::<F>().array_type)(sv, e)
            == F::array_type_hook(sv, e),
        forall|sv: F::SV, e: StructType| #[trigger] (hooks_of::<F>().struct_type)(sv, e)
            == F::struct_type_hook(sv, e),
        forall|sv: F::SV, e: DeclarationType| #[trigger] (hooks_of::<F>().declaration_type)(sv, e)
            == F::declaration_type_hook(sv, e),
        forall|sv: F::SV, e: TypedAssignee| #[trigger] (hooks_of::<F>().assignee)(sv, e)
            == F::assignee_hook(sv, e),
        forall|sv: F::SV, e: TypedStatement| #[trigger] (hooks_of::<F>().statement)(sv, e)
            == F::statement_hook(sv, e),
        forall|sv: F::SV, e: TypedExpressionOrSpread| #[trigger] (hooks_of::<F>().expression_or_spread)(sv, e)
            == F::expression_or_spread_hook(sv, e),
        forall|sv: F::SV, e: TypedSpread| #[trigger] (hooks_of::<F>().spread)(sv, e)
            == F::spread_hook(sv, e),
        forall|sv: F::SV, e: TypedExpression| #[trigger] (hooks_of::<F>().expression)(sv, e)
            == F::expression_hook(sv, e),
        forall|sv: F::SV, e: ArrayExpression| #[trigger] (hooks_of::<F>().array_expression)(sv, e)
            == F::array_expression_hook(sv, e),
        forall|sv: F::SV, e: StructExpression| #[trigger] (hooks_of::<F>().struct_expression)(sv, e)
            == F::struct_expression_hook(sv, e),
        forall|sv: F::SV, e: TypedExpressionList| #[trigger] (hooks_of::<F>().expression_list)(sv, e)
            == F::expression_list_hook(sv, e),
        forall|sv: F::SV, e: IntExpression| #[trigger] (hooks_of::<F>().int_expression)(sv, e)
            == F::int_expression_hook(sv, e),
        forall|sv: F::SV, e: FieldElementExpression| #[trigger] (hooks_of::<F>().field_expression)(sv, e)
            == F::field_expression_hook(sv, e),
        forall|sv: F::SV, e: BooleanExpression| #[trigger] (hooks_of::<F>().boolean_expression)(sv, e)
            == F::boolean_expression_hook(sv, e),
        forall|sv: F::SV, e: UExpression| #[trigger] (hooks_of::<F>().uint_expression)(sv, e)
            == F::uint_expression_hook(sv, e),
        forall|sv: F::SV, e: UExpressionInner| #[trigger] (hooks_of::<F>().uint_expression_inner)(sv, e)
            == F::uint_expression_inner_hook(sv, e),
        forall|sv: F::SV, e: ArrayExpressionInner| #[trigger] (hooks_of::<F>().array_expression_inner)(sv, e)
            == F::array_expression_inner_hook(sv, e),
        forall|sv: F::SV, e: StructExpressionInner| #[trigger] (hooks_of::<F>().struct_expression_inner)(sv, e)
            == F::struct_expression_inner_hook(sv, e),
{
}

pub open spec fn sf_declaration_type<S>(
    hs: Hooks<S>,
    sv: S,
    e: DeclarationType,
) -> (S, Result<DeclarationType, CompileError>) {
    let (svh, hr) = (hs.declaration_type)(sv, e);
    match hr {
        Result::Ok(HookOutcome::Replace(done)) => (svh, Result::Ok(done)),
        Result::Ok(HookOutcome::Proceed) => {
            (svh, Result::Ok(e))
        },
        Result::Err(er) => (svh, Result::Err(er)),
    }
}

pub open spec fn sf_declaration_variable<S>(
    hs: Hooks<S>,
    sv: S,
    e: DeclarationVariable,
) -> (S, Result<DeclarationVariable, CompileError>) {
    let (svh, hr) = (hs.declaration_variable)(sv, e);
    match hr {
        Result::Ok(HookOutcome::Replace(done)) => (svh, Result::Ok(done)),
        Result::Ok(HookOutcome::Proceed) => {
            let (sv1, r1) = (hs.name)(svh, e.id);
            match r1 {
                Result::Ok(id2) => {
                    (sv1, Result::Ok(DeclarationVariable { id: id2, ty: e.ty }))
                },
                Result::Err(er) => (sv1, Result::Err(er)),
            }
        },
        Result::Err(er) => (svh, Result::Err(er)),
    }
}

pub open spec fn sf_parameter<S>(
    hs: Hooks<S>,
    sv: S,
    e: DeclarationParameter,
) -> (S, Result<DeclarationParameter, CompileError>) {
    let (svh, hr) = (hs.parameter)(sv, e);
    match hr {
        Result::Ok(HookOutcome::Replace(done)) => (svh, Result::Ok(done)),
        Result::Ok(HookOutcome::Proceed) => {
            let (sv1, r1) = sf_declaration_variable(hs, svh, e.id);
            match r1 {
                Result::Ok(id2) => {
                    (sv1, Result::Ok(DeclarationParameter { id: id2, private: e.private }))
                },
                Result::Err(er) => (sv1, Result::Err(er)),
            }
        },
        Result::Err(er) => (svh, Result::Err(er)),
    }
}

pub open spec fn sf_variable<S>(
    hs: Hooks<S>,
    sv: S,
    e: Variable,
) -> (S, Result<Variable, CompileError>)
    decreases e,
{
    let (svh, hr) = (hs.variable)(sv, e);
    match hr {
        Result::Ok(HookOutcome::Replace(done)) => (svh, Result::Ok(done)),
        Result::Ok(HookOutcome::Proceed) => {
            let (sv1, r1) = (hs.name)(svh, e.id);
            match r1 {
                Result::Ok(id2) => {
                    let (sv2, r2) = sf_type(hs, sv1, e.ty);
                    match r2 {
                        Result::Ok(ty2) => {
                            (sv2, Result::Ok(Variable { id: id2, ty: ty2 }))
                        },
                        Result::Err(er) => (sv2, Result::Err(er)),
                    }
                },
                Result::Err(er) => (sv1, Result::Err(er)),
            }
        },
        Result::Err(er) => (svh, Result::Err(er)),
    }
}

pub open spec fn sf_type<S>(
    hs: Hooks<S>,
    sv: S,
    e: Type,
) -> (S, Result<Type, CompileError>)
    decreases e,
{
    let (svh, hr) = (hs.ty)(sv, e);
    match hr {
        Result::Ok(HookOutcome::Replace(done)) => (svh, Result::Ok(done)),
        Result::Ok(HookOutcome::Proceed) => {
            match e {
                Type::Array(at) => {
                    let (sv1, r1) = sf_array_type(hs, svh, *at);
                    match r1 {
                        Result::Ok(at2) => {
                            (sv1, Result::Ok(Type::Array(Box::new(at2))))
                        },
                        Result::Err(er) => (sv1, Result::Err(er)),
                    }
                },
                Type::Struct(st) => {
                    let (sv1, r1) = sf_struct_type(hs, svh, st);
                    match r1 {
                        Result::Ok(st2) => {
                            (sv1, Result::Ok(Type::Struct(st2)))
                        },
                        Result::Err(er) => (sv1, Result::Err(er)),
                    }
                },
                other => {
                    (svh, Result::Ok(other))
                },
            }
        },
        Result::Err(er) => (svh, Result::Err(er)),
    }
}

pub open spec fn sf_array_type<S>(
    hs: Hooks<S>,
    sv: S,
    e: ArrayType,
) -> (S, Result<ArrayType, CompileError>)
    decreases e,
{
    let (svh, hr) = (hs.array_type)(sv, e);
    match hr {
        Result::Ok(HookOutcome::Replace(done)) => (svh, Result::Ok(done)),
        Result::Ok(HookOutcome::Proceed) => {
            let (sv1, r1) = sf_type(hs, svh, *e.ty);
            match r1 {
                Result::Ok(ty2) => {
                    let (sv2, r2) = sf_uint_expression(hs, sv1, e.size);
                    match r2 {
                        Result::Ok(size2) => {
                            (sv2, Result::Ok(ArrayType { ty: Box::new(ty2), size: size2 }))
                        },
                        Result::Err(er) => (sv2, Result::Err(er)),
                    }
                },
                Result::Err(er) => (sv1, Result::Err(er)),
            }
        },
        Result::Err(er) => (svh, Result::Err(er)),
    }
}

pub open spec fn sf_struct_type<S>(
    hs: Hooks<S>,
    sv: S,
    e: StructType,
) -> (S, Result<StructType, CompileError>)
    decreases e,
{
    let (svh, hr) = (hs.struct_type)(sv, e);
    match hr {
        Result::Ok(HookOutcome::Replace(done)) => (svh, Result::Ok(done)),
        Result::Ok(HookOutcome::Proceed) => {
            let (sv1, r1) = sf_members(hs, svh, e.members);
            match r1 {
                Result::Ok(m2) => {
                    (sv1, Result::Ok(StructType { members: m2 }))
                },
                Result::Err(er) => (sv1, Result::Err(er)),
            }
        },
        Result::Err(er) => (svh, Result::Err(er)),
    }
}

pub open spec fn sf_members<S>(
    hs: Hooks<S>,
    sv: S,
    e: List<StructMember>,
) -> (S, Result<List<StructMember>, CompileError>)
    decreases e,
{
    match e {
        List::Nil => (sv, Result::Ok(List::Nil)),
        List::Cons(m, rest) => {
            let (sv1, rty) = sf_type(hs, sv, *m.ty);
            match rty {
                Result::Ok(ty) => {
                    let (sv2, rr) = sf_members(hs, sv1, *rest);
                    match rr {
                        Result::Ok(rest2) => (
                            sv2,
                            Result::Ok(
                                List::Cons(
                                    Box::new(StructMember { id: m.id, ty: Box::new(ty) }),
                                    Box::new(rest2),
                                ),
                            ),
                        ),
                        Result::Err(er) => (sv2, Result::Err(er)),
                    }
                },
                Result::Err(er) => (sv1, Result::Err(er)),
            }
        },
    }
}

pub open spec fn sf_generics<S>(
    hs: Hooks<S>,
    sv: S,
    e: List<Option<UExpression>>,
) -> (S, Result<List<Option<UExpression>>, CompileError>)
    decreases e,
{
    match e {
        List::Nil => (sv, Result::Ok(List::Nil)),
        List::Cons(g, rest) => {
            let (sv1, rg) = match *g {
                Option::Some(u) => {
                    let (svx, ru) = sf_uint_expression(hs, sv, u);
                    match ru {
                        Result::Ok(u2) => (svx, Result::Ok(Option::Some(u2))),
                        Result::Err(er) => (svx, Result::Err(er)),
                    }
                },
                Option::None => (sv, Result::Ok(Option::<UExpression>::None)),
            };
            match rg {
                Result::Ok(g2) => {
                    let (sv2, rr) = sf_generics(hs, sv1, *rest);
                    match rr {
                        Result::Ok(rest2) => (
                            sv2,
                            Result::Ok(List::Cons(Box::new(g2), Box::new(rest2))),
                        ),
                        Result::Err(er) => (sv2, Result::Err(er)),
                    }
                },
                Result::Err(er) => (sv1, Result::Err(er)),
            }
        },
    }
}

/// The documented fatal path: an untyped integer literal must never
/// reach this fold, so meeting one signals a broken upstream invariant,
/// distinct from every ordinary compile error. A hook may intercept it.
pub open spec fn sf_int_expression<S>(
    hs: Hooks<S>,
    sv: S,
    e: IntExpression,
) -> (S, Result<IntExpression, CompileError>) {
    let (svh, hr) = (hs.int_expression)(sv, e);
    match hr {
        Result::Ok(HookOutcome::Replace(done)) => (svh, Result::Ok(done)),
        Result::Ok(HookOutcome::Proceed) => {
            (svh, Result::Err(CompileError::InternalInvariant))
        },
        Result::Err(er) => (svh, Result::Err(er)),
    }
}

pub open spec fn sf_uint_expression<S>(
    hs: Hooks<S>,
    sv: S,
    e: UExpression,
) -> (S, Result<UExpression, CompileError>)
    decreases e,
{
    let (svh, hr) = (hs.uint_expression)(sv, e);
    match hr {
        Result::Ok(HookOutcome::Replace(done)) => (svh, Result::Ok(done)),
        Result::Ok(HookOutcome::Proceed) => {
            let (sv1, r1) = sf_uint_expression_inner(hs, svh, e.inner);
            match r1 {
                Result::Ok(i2) => {
                    (sv1, Result::Ok(UExpression { bitwidth: e.bitwidth, inner: i2 }))
                },
                Result::Err(er) => (sv1, Result::Err(er)),
            }
        },
        Result::Err(er) => (svh, Result::Err(er)),
    }
}

pub open spec fn sf_uint_expression_inner<S>(
    hs: Hooks<S>,
    sv: S,
    e: UExpressionInner,
) -> (S, Result<UExpressionInner, CompileError>)
    decreases e,
{
    let (svh, hr) = (hs.uint_expression_inner)(sv, e);
    match hr {
        Result::Ok(HookOutcome::Replace(done)) => (svh, Result::Ok(done)),
        Result::Ok(HookOutcome::Proceed) => {
            match e {
                UExpressionInner::Value(v) => {
                    (svh, Result::Ok(UExpressionInner::Value(v)))
                },
                UExpressionInner::Identifier(id) => {
                    let (sv1, r1) = (hs.name)(svh, id);
                    match r1 {
                        Result::Ok(id2) => {
                            (sv1, Result::Ok(UExpressionInner::Identifier(id2)))
                        },
                        Result::Err(er) => (sv1, Result::Err(er)),
                    }
                },
                UExpressionInner::Add(a, b) => {
                    let (sv1, r1) = sf_uint_expression(hs, svh, *a);
                    match r1 {
                        Result::Ok(a2) => {
                            let (sv2, r2) = sf_uint_expression(hs, sv1, *b);
                            match r2 {
                                Result::Ok(b2) => {
                                    (sv2, Result::Ok(UExpressionInner::Add(Box::new(a2), Box::new(b2))))
                                },
                                Result::Err(er) => (sv2, Result::Err(er)),
                            }
                        },
                        Result::Err(er) => (sv1, Result::Err(er)),
                    }
                },
                UExpressionInner::Sub(a, b) => {
                    let (sv1, r1) = sf_uint_expression(hs, svh, *a);
                    match r1 {
                        Result::Ok(a2) => {
                            let (sv2, r2) = sf_uint_expression(hs, sv1, *b);
                            match r2 {
                                Result::Ok(b2) => {
                                    (sv2, Result::Ok(UExpressionInner::Sub(Box::new(a2), Box::new(b2))))
                                },
                                Result::Err(er) => (sv2, Result::Err(er)),
                            }
                        },
                        Result::Err(er) => (sv1, Result::Err(er)),
                    }
                },
                UExpressionInner::FloorSub(a, b) => {
                    let (sv1, r1) = sf_uint_expression(hs, svh, *a);
                    match r1 {
                        Result::Ok(a2) => {
                            let (sv2, r2) = sf_uint_expression(hs, sv1, *b);
                            match r2 {
                                Result::Ok(b2) => {
                                    (sv2, Result::Ok(UExpressionInner::FloorSub(Box::new(a2), Box::new(b2))))
                                },
                                Result::Err(er) => (sv2, Result::Err(er)),
                            }
                        },
                        Result::Err(er) => (sv1, Result::Err(er)),
                    }
                },
                UExpressionInner::Mult(a, b) => {
                    let (sv1, r1) = sf_uint_expression(hs, svh, *a);
                    match r1 {
                        Result::Ok(a2) => {
                            let (sv2, r2) = sf_uint_expression(hs, sv1, *b);
                            match r2 {
                                Result::Ok(b2) => {
                                    (sv2, Result::Ok(UExpressionInner::Mult(Box::new(a2), Box::new(b2))))
                                },
                                Result::Err(er) => (sv2, Result::Err(er)),
                            }
                        },
                        Result::Err(er) => (sv1, Result::Err(er)),
                    }
                },
                UExpressionInner::Div(a, b) => {
                    let (sv1, r1) = sf_uint_expression(hs, svh, *a);
                    match r1 {
                        Result::Ok(a2) => {
                            let (sv2, r2) = sf_uint_expression(hs, sv1, *b);
                            match r2 {
                                Result::Ok(b2) => {
                                    (sv2, Result::Ok(UExpressionInner::Div(Box::new(a2), Box::new(b2))))
                                },
                                Result::Err(er) => (sv2, Result::Err(er)),
                            }
                        },
                        Result::Err(er) => (sv1, Result::Err(er)),
                    }
                },
                UExpressionInner::Rem(a, b) => {
                    let (sv1, r1) = sf_uint_expression(hs, svh, *a);
                    match r1 {
                        Result::Ok(a2) => {
                            let (sv2, r2) = sf_uint_expression(hs, sv1, *b);
                            match r2 {
                                Result::Ok(b2) => {
                                    (sv2, Result::Ok(UExpressionInner::Rem(Box::new(a2), Box::new(b2))))
                                },
                                Result::Err(er) => (sv2, Result::Err(er)),
                            }
                        },
                        Result::Err(er) => (sv1, Result::Err(er)),
                    }
                },
                UExpressionInner::Xor(a, b) => {
                    let (sv1, r1) = sf_uint_expression(hs, svh, *a);
                    match r1 {
                        Result::Ok(a2) => {
                            let (sv2, r2) = sf_uint_expression(hs, sv1, *b);
                            match r2 {
                                Result::Ok(b2) => {
                                    (sv2, Result::Ok(UExpressionInner::Xor(Box::new(a2), Box::new(b2))))
                                },
                                Result::Err(er) => (sv2, Result::Err(er)),
                            }
                        },
                        Result::Err(er) => (sv1, Result::Err(er)),
                    }
                },
                UExpressionInner::And(a, b) => {
                    let (sv1, r1) = sf_uint_expression(hs, svh, *a);
                    match r1 {
                        Result::Ok(a2) => {
                            let (sv2, r2) = sf_uint_expression(hs, sv1, *b);
                            match r2 {
                                Result::Ok(b2) => {
                                    (sv2, Result::Ok(UExpressionInner::And(Box::new(a2), Box::new(b2))))
                                },
                                Result::Err(er) => (sv2, Result::Err(er)),
                            }
                        },
                        Result::Err(er) => (sv1, Result::Err(er)),
                    }
                },
                UExpressionInner::Or(a, b) => {
                    let (sv1, r1) = sf_uint_expression(hs, svh, *a);
                    match r1 {
                        Result::Ok(a2) => {
                            let (sv2, r2) = sf_uint_expression(hs, sv1, *b);
                            match r2 {
                                Result::Ok(b2) => {
                                    (sv2, Result::Ok(UExpressionInner::Or(Box::new(a2), Box::new(b2))))
                                },
                                Result::Err(er) => (sv2, Result::Err(er)),
                            }
                        },
                        Result::Err(er) => (sv1, Result::Err(er)),
                    }
                },
                UExpressionInner::LeftShift(a, b) => {
                    let (sv1, r1) = sf_uint_expression(hs, svh, *a);
                    match r1 {
                        Result::Ok(a2) => {
                            let (sv2, r2) = sf_field_expression(hs, sv1, *b);
                            match r2 {
                                Result::Ok(b2) => {
                                    (sv2, Result::Ok(UExpressionInner::LeftShift(Box::new(a2), Box::new(b2))))
                                },
                                Result::Err(er) => (sv2, Result::Err(er)),
                            }
                        },
                        Result::Err(er) => (sv1, Result::Err(er)),
                    }
                },
                UExpressionInner::RightShift(a, b) => {
                    let (sv1, r1) = sf_uint_expression(hs, svh, *a);
                    match r1 {
                        Result::Ok(a2) => {
                            let (sv2, r2) = sf_field_expression(hs, sv1, *b);
                            match r2 {
                                Result::Ok(b2) => {
                                    (sv2, Result::Ok(UExpressionInner::RightShift(Box::new(a2), Box::new(b2))))
                                },
                                Result::Err(er) => (sv2, Result::Err(er)),
                            }
                        },
                        Result::Err(er) => (sv1, Result::Err(er)),
                    }
                },
                UExpressionInner::Not(a) => {
                    let (sv1, r1) = sf_uint_expression(hs, svh, *a);
                    match r1 {
                        Result::Ok(a2) => {
                            (sv1, Result::Ok(UExpressionInner::Not(Box::new(a2))))
                        },
                        Result::Err(er) => (sv1, Result::Err(er)),
                    }
                },
                UExpressionInner::FunctionCall(key, gens, args) => {
                    let (sv1, r1) = sf_generics(hs, svh, gens);
                    match r1 {
                        Result::Ok(g2) => {
                            let (sv2, r2) = sf_expressions(hs, sv1, args);
                            match r2 {
                                Result::Ok(a2) => {
                                    (sv2, Result::Ok(UExpressionInner::FunctionCall(key, g2, a2)))
                                },
                                Result::Err(er) => (sv2, Result::Err(er)),
                            }
                        },
                        Result::Err(er) => (sv1, Result::Err(er)),
                    }
                },
                UExpressionInner::Select(a, i) => {
                    let (sv1, r1) = sf_array_expression(hs, svh, *a);
                    match r1 {
                        Result::Ok(a2) => {
                            let (sv2, r2) = sf_uint_expression(hs, sv1, *i);
                            match r2 {
                                Result::Ok(i2) => {
                                    (sv2, Result::Ok(UExpressionInner::Select(Box::new(a2), Box::new(i2))))
                                },
                                Result::Err(er) => (sv2, Result::Err(er)),
                            }
                        },
                        Result::Err(er) => (sv1, Result::Err(er)),
                    }
                },
                UExpressionInner::IfElse(a, b, c) => {
                    let (sv1, r1) = sf_boolean_expression(hs, svh, *a);
                    match r1 {
                        Result::Ok(a2) => {
                            let (sv2, r2) = sf_uint_expression(hs, sv1, *b);
                            match r2 {
                                Result::Ok(b2) => {
                                    let (sv3, r3) = sf_uint_expression(hs, sv2, *c);
                                    match r3 {
                                        Result::Ok(c2) => {
                                            (sv3, Result::Ok(UExpressionInner::IfElse(Box::new(a2), Box::new(b2), Box::new(c2))))
                                        },
                                        Result::Err(er) => (sv3, Result::Err(er)),
                                    }
                                },
                                Result::Err(er) => (sv2, Result::Err(er)),
                            }
                        },
                        Result::Err(er) => (sv1, Result::Err(er)),
                    }
                },
                UExpressionInner::Member(s, id) => {
                    let (sv1, r1) = sf_struct_expression(hs, svh, *s);
                    match r1 {
                        Result::Ok(s2) => {
                            (sv1, Result::Ok(UExpressionInner::Member(Box::new(s2), id)))
                        },
                        Result::Err(er) => (sv1, Result::Err(er)),
                    }
                },
            }
        },
        Result::Err(er) => (svh, Result::Err(er)),
    }
}

pub open spec fn sf_field_expression<S>(
    hs: Hooks<S>,
    sv: S,
    e: FieldElementExpression,
) -> (S, Result<FieldElementExpression, CompileError>)
    decreases e,
{
    let (svh, hr) = (hs.field_expression)(sv, e);
    match hr {
        Result::Ok(HookOutcome::Replace(done)) => (svh, Result::Ok(done)),
        Result::Ok(HookOutcome::Proceed) => {
            match e {
                FieldElementExpression::Number(n) => {
                    (svh, Result::Ok(FieldElementExpression::Number(n)))
                },
                FieldElementExpression::Identifier(id) => {
                    let (sv1, r1) = (hs.name)(svh, id);
                    match r1 {
                        Result::Ok(id2) => {
                            (sv1, Result::Ok(FieldElementExpression::Identifier(id2)))
                        },
                        Result::Err(er) => (sv1, Result::Err(er)),
                    }
                },
                FieldElementExpression::Add(a, b) => {
                    let (sv1, r1) = sf_field_expression(hs, svh, *a);
                    match r1 {
                        Result::Ok(a2) => {
                            let (sv2, r2) = sf_field_expression(hs, sv1, *b);
                            match r2 {
                                Result::Ok(b2) => {
                                    (sv2, Result::Ok(FieldElementExpression::Add(Box::new(a2), Box::new(b2))))
                                },
                                Result::Err(er) => (sv2, Result::Err(er)),
                            }
                        },
                        Result::Err(er) => (sv1, Result::Err(er)),
                    }
                },
                FieldElementExpression::Sub(a, b) => {
                    let (sv1, r1) = sf_field_expression(hs, svh, *a);
                    match r1 {
                        Result::Ok(a2) => {
                            let (sv2, r2) = sf_field_expression(hs, sv1, *b);
                            match r2 {
                                Result::Ok(b2) => {
                                    (sv2, Result::Ok(FieldElementExpression::Sub(Box::new(a2), Box::new(b2))))
                                },
                                Result::Err(er) => (sv2, Result::Err(er)),
                            }
                        },
                        Result::Err(er) => (sv1, Result::Err(er)),
                    }
                },
                FieldElementExpression::Mult(a, b) => {
                    let (sv1, r1) = sf_field_expression(hs, svh, *a);
                    match r1 {
                        Result::Ok(a2) => {
                            let (sv2, r2) = sf_field_expression(hs, sv1, *b);
                            match r2 {
                                Result::Ok(b2) => {
                                    (sv2, Result::Ok(FieldElementExpression::Mult(Box::new(a2), Box::new(b2))))
                                },
                                Result::Err(er) => (sv2, Result::Err(er)),
                            }
                        },
                        Result::Err(er) => (sv1, Result::Err(er)),
                    }
                },
                FieldElementExpression::Div(a, b) => {
                    let (sv1, r1) = sf_field_expression(hs, svh, *a);
                    match r1 {
                        Result::Ok(a2) => {
                            let (sv2, r2) = sf_field_expression(hs, sv1, *b);
                            match r2 {
                                Result::Ok(b2) => {
                                    (sv2, Result::Ok(FieldElementExpression::Div(Box::new(a2), Box::new(b2))))
                                },
                                Result::Err(er) => (sv2, Result::Err(er)),
                            }
                        },
                        Result::Err(er) => (sv1, Result::Err(er)),
                    }
                },
                FieldElementExpression::Pow(a, b) => {
                    let (sv1, r1) = sf_field_expression(hs, svh, *a);
                    match r1 {
                        Result::Ok(a2) => {
                            let (sv2, r2) = sf_uint_expression(hs, sv1, *b);
                            match r2 {
                                Result::Ok(b2) => {
                                    (sv2, Result::Ok(FieldElementExpression::Pow(Box::new(a2), Box::new(b2))))
                                },
                                Result::Err(er) => (sv2, Result::Err(er)),
                            }
                        },
                        Result::Err(er) => (sv1, Result::Err(er)),
                    }
                },
                FieldElementExpression::IfElse(a, b, c) => {
                    let (sv1, r1) = sf_boolean_expression(hs, svh, *a);
                    match r1 {
                        Result::Ok(a2) => {
                            let (sv2, r2) = sf_field_expression(hs, sv1, *b);
                            match r2 {
                                Result::Ok(b2) => {
                                    let (sv3, r3) = sf_field_expression(hs, sv2, *c);
                                    match r3 {
                                        Result::Ok(c2) => {
                                            (sv3, Result::Ok(FieldElementExpression::IfElse(Box::new(a2), Box::new(b2), Box::new(c2))))
                                        },
                                        Result::Err(er) => (sv3, Result::Err(er)),
                                    }
                                },
                                Result::Err(er) => (sv2, Result::Err(er)),
                            }
                        },
                        Result::Err(er) => (sv1, Result::Err(er)),
                    }
                },
                FieldElementExpression::FunctionCall(key, gens, args) => {
                    let (sv1, r1) = sf_generics(hs, svh, gens);
                    match r1 {
                        Result::Ok(g2) => {
                            let (sv2, r2) = sf_expressions(hs, sv1, args);
                            match r2 {
                                Result::Ok(a2) => {
                                    (sv2, Result::Ok(FieldElementExpression::FunctionCall(key, g2, a2)))
                                },
                                Result::Err(er) => (sv2, Result::Err(er)),
                            }
                        },
                        Result::Err(er) => (sv1, Result::Err(er)),
                    }
                },
                FieldElementExpression::Member(s, id) => {
                    let (sv1, r1) = sf_struct_expression(hs, svh, *s);
                    match r1 {
                        Result::Ok(s2) => {
                            (sv1, Result::Ok(FieldElementExpression::Member(Box::new(s2), id)))
                        },
                        Result::Err(er) => (sv1, Result::Err(er)),
                    }
                },
                FieldElementExpression::Select(a, i) => {
                    let (sv1, r1) = sf_array_expression(hs, svh, *a);
                    match r1 {
                        Result::Ok(a2) => {
                            let (sv2, r2) = sf_uint_expression(hs, sv1, *i);
                            match r2 {
                                Result::Ok(i2) => {
                                    (sv2, Result::Ok(FieldElementExpression::Select(Box::new(a2), Box::new(i2))))
                                },
                                Result::Err(er) => (sv2, Result::Err(er)),
                            }
                        },
                        Result::Err(er) => (sv1, Result::Err(er)),
                    }
                },
            }
        },
        Result::Err(er) => (svh, Result::Err(er)),
    }
}

pub open spec fn sf_boolean_expression<S>(
    hs: Hooks<S>,
    sv: S,
    e: BooleanExpression,
) -> (S, Result<BooleanExpression, CompileError>)
    decreases e,
{
    let (svh, hr) = (hs.boolean_expression)(sv, e);
    match hr {
        Result::Ok(HookOutcome::Replace(done)) => (svh, Result::Ok(done)),
        Result::Ok(HookOutcome::Proceed) => {
            match e {
                BooleanExpression::Value(b) => {
                    (svh, Result::Ok(BooleanExpression::Value(b)))
                },
                BooleanExpression::Identifier(id) => {
                    let (sv1, r1) = (hs.name)(svh, id);
                    match r1 {
                        Result::Ok(id2) => {
                            (sv1, Result::Ok(BooleanExpression::Identifier(id2)))
                        },
                        Result::Err(er) => (sv1, Result::Err(er)),
                    }
                },
                BooleanExpression::FieldEq(a, b) => {
                    let (sv1, r1) = sf_field_expression(hs, svh, *a);
                    match r1 {
                        Result::Ok(a2) => {
                            let (sv2, r2) = sf_field_expression(hs, sv1, *b);
                            match r2 {
                                Result::Ok(b2) => {
                                    (sv2, Result::Ok(BooleanExpression::FieldEq(Box::new(a2), Box::new(b2))))
                                },
                                Result::Err(er) => (sv2, Result::Err(er)),
                            }
                        },
                        Result::Err(er) => (sv1, Result::Err(er)),
                    }
                },
                BooleanExpression::BoolEq(a, b) => {
                    let (sv1, r1) = sf_boolean_expression(hs, svh, *a);
                    match r1 {
                        Result::Ok(a2) => {
                            let (sv2, r2) = sf_boolean_expression(hs, sv1, *b);
                            match r2 {
                                Result::Ok(b2) => {
                                    (sv2, Result::Ok(BooleanExpression::BoolEq(Box::new(a2), Box::new(b2))))
                                },
                                Result::Err(er) => (sv2, Result::Err(er)),
                            }
                        },
                        Result::Err(er) => (sv1, Result::Err(er)),
                    }
                },
                BooleanExpression::ArrayEq(a, b) => {
                    let (sv1, r1) = sf_array_expression(hs, svh, *a);
                    match r1 {
                        Result::Ok(a2) => {
                            let (sv2, r2) = sf_array_expression(hs, sv1, *b);
                            match r2 {
                                Result::Ok(b2) => {
                                    (sv2, Result::Ok(BooleanExpression::ArrayEq(Box::new(a2), Box::new(b2))))
                                },
                                Result::Err(er) => (sv2, Result::Err(er)),
                            }
                        },
                        Result::Err(er) => (sv1, Result::Err(er)),
                    }
                },
                BooleanExpression::StructEq(a, b) => {
                    let (sv1, r1) = sf_struct_expression(hs, svh, *a);
                    match r1 {
                        Result::Ok(a2) => {
                            let (sv2, r2) = sf_struct_expression(hs, sv1, *b);
                            match r2 {
                                Result::Ok(b2) => {
                                    (sv2, Result::Ok(BooleanExpression::StructEq(Box::new(a2), Box::new(b2))))
                                },
                                Result::Err(er) => (sv2, Result::Err(er)),
                            }
                        },
                        Result::Err(er) => (sv1, Result::Err(er)),
                    }
                },
                BooleanExpression::UintEq(a, b) => {
                    let (sv1, r1) = sf_uint_expression(hs, svh, *a);
                    match r1 {
                        Result::Ok(a2) => {
                            let (sv2, r2) = sf_uint_expression(hs, sv1, *b);
                            match r2 {
                                Result::Ok(b2) => {
                                    (sv2, Result::Ok(BooleanExpression::UintEq(Box::new(a2), Box::new(b2))))
                                },
                                Result::Err(er) => (sv2, Result::Err(er)),
                            }
                        },
                        Result::Err(er) => (sv1, Result::Err(er)),
                    }
                },
                BooleanExpression::FieldLt(a, b) => {
                    let (sv1, r1) = sf_field_expression(hs, svh, *a);
                    match r1 {
                        Result::Ok(a2) => {
                            let (sv2, r2) = sf_field_expression(hs, sv1, *b);
                            match r2 {
                                Result::Ok(b2) => {
                                    (sv2, Result::Ok(BooleanExpression::FieldLt(Box::new(a2), Box::new(b2))))
                                },
                                Result::Err(er) => (sv2, Result::Err(er)),
                            }
                        },
                        Result::Err(er) => (sv1, Result::Err(er)),
                    }
                },
                BooleanExpression::FieldLe(a, b) => {
                    let (sv1, r1) = sf_field_expression(hs, svh, *a);
                    match r1 {
                        Result::Ok(a2) => {
                            let (sv2, r2) = sf_field_expression(hs, sv1, *b);
                            match r2 {
                                Result::Ok(b2) => {
                                    (sv2, Result::Ok(BooleanExpression::FieldLe(Box::new(a2), Box::new(b2))))
                                },
                                Result::Err(er) => (sv2, Result::Err(er)),
                            }
                        },
                        Result::Err(er) => (sv1, Result::Err(er)),
                    }
                },
                BooleanExpression::FieldGt(a, b) => {
                    let (sv1, r1) = sf_field_expression(hs, svh, *a);
                    match r1 {
                        Result::Ok(a2) => {
                            let (sv2, r2) = sf_field_expression(hs, sv1, *b);
                            match r2 {
                                Result::Ok(b2) => {
                                    (sv2, Result::Ok(BooleanExpression::FieldGt(Box::new(a2), Box::new(b2))))
                                },
                                Result::Err(er) => (sv2, Result::Err(er)),
                            }
                        },
                        Result::Err(er) => (sv1, Result::Err(er)),
                    }
                },
                BooleanExpression::FieldGe(a, b) => {
                    let (sv1, r1) = sf_field_expression(hs, svh, *a);
                    match r1 {
                        Result::Ok(a2) => {
                            let (sv2, r2) = sf_field_expression(hs, sv1, *b);
                            match r2 {
                                Result::Ok(b2) => {
                                    (sv2, Result::Ok(BooleanExpression::FieldGe(Box::new(a2), Box::new(b2))))
                                },
                                Result::Err(er) => (sv2, Result::Err(er)),
                            }
                        },
                        Result::Err(er) => (sv1, Result::Err(er)),
                    }
                },
                BooleanExpression::UintLt(a, b) => {
                    let (sv1, r1) = sf_uint_expression(hs, svh, *a);
                    match r1 {
                        Result::Ok(a2) => {
                            let (sv2, r2) = sf_uint_expression(hs, sv1, *b);
                            match r2 {
                                Result::Ok(b2) => {
                                    (sv2, Result::Ok(BooleanExpression::UintLt(Box::new(a2), Box::new(b2))))
                                },
                                Result::Err(er) => (sv2, Result::Err(er)),
                            }
                        },
                        Result::Err(er) => (sv1, Result::Err(er)),
                    }
                },
                BooleanExpression::UintLe(a, b) => {
                    let (sv1, r1) = sf_uint_expression(hs, svh, *a);
                    match r1 {
                        Result::Ok(a2) => {
                            let (sv2, r2) = sf_uint_expression(hs, sv1, *b);
                            match r2 {
                                Result::Ok(b2) => {
                                    (sv2, Result::Ok(BooleanExpression::UintLe(Box::new(a2), Box::new(b2))))
                                },
                                Result::Err(er) => (sv2, Result::Err(er)),
                            }
                        },
                        Result::Err(er) => (sv1, Result::Err(er)),
                    }
                },
                BooleanExpression::UintGt(a, b) => {
                    let (sv1, r1) = sf_uint_expression(hs, svh, *a);
                    match r1 {
                        Result::Ok(a2) => {
                            let (sv2, r2) = sf_uint_expression(hs, sv1, *b);
                            match r2 {
                                Result::Ok(b2) => {
                                    (sv2, Result::Ok(BooleanExpression::UintGt(Box::new(a2), Box::new(b2))))
                                },
                                Result::Err(er) => (sv2, Result::Err(er)),
                            }
                        },
                        Result::Err(er) => (sv1, Result::Err(er)),
                    }
                },
                BooleanExpression::UintGe(a, b) => {
                    let (sv1, r1) = sf_uint_expression(hs, svh, *a);
                    match r1 {
                        Result::Ok(a2) => {
                            let (sv2, r2) = sf_uint_expression(hs, sv1, *b);
                            match r2 {
                                Result::Ok(b2) => {
                                    (sv2, Result::Ok(BooleanExpression::UintGe(Box::new(a2), Box::new(b2))))
                                },
                                Result::Err(er) => (sv2, Result::Err(er)),
                            }
                        },
                        Result::Err(er) => (sv1, Result::Err(er)),
                    }
                },
                BooleanExpression::Or(a, b) => {
                    let (sv1, r1) = sf_boolean_expression(hs, svh, *a);
                    match r1 {
                        Result::Ok(a2) => {
                            let (sv2, r2) = sf_boolean_expression(hs, sv1, *b);
                            match r2 {
                                Result::Ok(b2) => {
                                    (sv2, Result::Ok(BooleanExpression::Or(Box::new(a2), Box::new(b2))))
                                },
                                Result::Err(er) => (sv2, Result::Err(er)),
                            }
                        },
                        Result::Err(er) => (sv1, Result::Err(er)),
                    }
                },
                BooleanExpression::And(a, b) => {
                    let (sv1, r1) = sf_boolean_expression(hs, svh, *a);
                    match r1 {
                        Result::Ok(a2) => {
                            let (sv2, r2) = sf_boolean_expression(hs, sv1, *b);
                            match r2 {
                                Result::Ok(b2) => {
                                    (sv2, Result::Ok(BooleanExpression::And(Box::new(a2), Box::new(b2))))
                                },
                                Result::Err(er) => (sv2, Result::Err(er)),
                            }
                        },
                        Result::Err(er) => (sv1, Result::Err(er)),
                    }
                },
                BooleanExpression::Not(a) => {
                    let (sv1, r1) = sf_boolean_expression(hs, svh, *a);
                    match r1 {
                        Result::Ok(a2) => {
                            (sv1, Result::Ok(BooleanExpression::Not(Box::new(a2))))
                        },
                        Result::Err(er) => (sv1, Result::Err(er)),
                    }
                },
                BooleanExpression::FunctionCall(key, gens, args) => {
                    let (sv1, r1) = sf_generics(hs, svh, gens);
                    match r1 {
                        Result::Ok(g2) => {
                            let (sv2, r2) = sf_expressions(hs, sv1, args);
                            match r2 {
                                Result::Ok(a2) => {
                                    (sv2, Result::Ok(BooleanExpression::FunctionCall(key, g2, a2)))
                                },
                                Result::Err(er) => (sv2, Result::Err(er)),
                            }
                        },
                        Result::Err(er) => (sv1, Result::Err(er)),
                    }
                },
                BooleanExpression::IfElse(a, b, c) => {
                    let (sv1, r1) = sf_boolean_expression(hs, svh, *a);
                    match r1 {
                        Result::Ok(a2) => {
                            let (sv2, r2) = sf_boolean_expression(hs, sv1, *b);
                            match r2 {
                                Result::Ok(b2) => {
                                    let (sv3, r3) = sf_boolean_expression(hs, sv2, *c);
                                    match r3 {
                                        Result::Ok(c2) => {
                                            (sv3, Result::Ok(BooleanExpression::IfElse(Box::new(a2), Box::new(b2), Box::new(c2))))
                                        },
                                        Result::Err(er) => (sv3, Result::Err(er)),
                                    }
                                },
                                Result::Err(er) => (sv2, Result::Err(er)),
                            }
                        },
                        Result::Err(er) => (sv1, Result::Err(er)),
                    }
                },
                BooleanExpression::Member(s, id) => {
                    let (sv1, r1) = sf_struct_expression(hs, svh, *s);
                    match r1 {
                        Result::Ok(s2) => {
                            (sv1, Result::Ok(BooleanExpression::Member(Box::new(s2), id)))
                        },
                        Result::Err(er) => (sv1, Result::Err(er)),
                    }
                },
                BooleanExpression::Select(a, i) => {
                    let (sv1, r1) = sf_array_expression(hs, svh, *a);
                    match r1 {
                        Result::Ok(a2) => {
                            let (sv2, r2) = sf_uint_expression(hs, sv1, *i);
                            match r2 {
                                Result::Ok(i2) => {
                                    (sv2, Result::Ok(BooleanExpression::Select(Box::new(a2), Box::new(i2))))
                                },
                                Result::Err(er) => (sv2, Result::Err(er)),
                            }
                        },
                        Result::Err(er) => (sv1, Result::Err(er)),
                    }
                },
            }
        },
        Result::Err(er) => (svh, Result::Err(er)),
    }
}

/// An array expression's declared type is folded first; the folded
/// type is what the rebuilt node carries.
pub open spec fn sf_array_expression<S>(
    hs: Hooks<S>,
    sv: S,
    e: ArrayExpression,
) -> (S, Result<ArrayExpression, CompileError>)
    decreases e,
{
    let (svh, hr) = (hs.array_expression)(sv, e);
    match hr {
        Result::Ok(HookOutcome::Replace(done)) => (svh, Result::Ok(done)),
        Result::Ok(HookOutcome::Proceed) => {
            let (sv1, r1) = sf_array_type(hs, svh, *e.ty);
            match r1 {
                Result::Ok(t2) => {
                    let (sv2, r2) = sf_array_expression_inner(hs, sv1, e.inner);
                    match r2 {
                        Result::Ok(i2) => {
                            (sv2, Result::Ok(ArrayExpression { ty: Box::new(t2), inner: i2 }))
                        },
                        Result::Err(er) => (sv2, Result::Err(er)),
                    }
                },
                Result::Err(er) => (sv1, Result::Err(er)),
            }
        },
        Result::Err(er) => (svh, Result::Err(er)),
    }
}

pub open spec fn sf_array_expression_inner<S>(
    hs: Hooks<S>,
    sv: S,
    e: ArrayExpressionInner,
) -> (S, Result<ArrayExpressionInner, CompileError>)
    decreases e,
{
    let (svh, hr) = (hs.array_expression_inner)(sv, e);
    match hr {
        Result::Ok(HookOutcome::Replace(done)) => (svh, Result::Ok(done)),
        Result::Ok(HookOutcome::Proceed) => {
            match e {
                ArrayExpressionInner::Identifier(id) => {
                    let (sv1, r1) = (hs.name)(svh, id);
                    match r1 {
                        Result::Ok(id2) => {
                            (sv1, Result::Ok(ArrayExpressionInner::Identifier(id2)))
                        },
                        Result::Err(er) => (sv1, Result::Err(er)),
                    }
                },
                ArrayExpressionInner::Value(l) => {
                    let (sv1, r1) = sf_or_spreads(hs, svh, l);
                    match r1 {
                        Result::Ok(l2) => {
                            (sv1, Result::Ok(ArrayExpressionInner::Value(l2)))
                        },
                        Result::Err(er) => (sv1, Result::Err(er)),
                    }
                },
                ArrayExpressionInner::FunctionCall(key, gens, args) => {
                    let (sv1, r1) = sf_generics(hs, svh, gens);
                    match r1 {
                        Result::Ok(g2) => {
                            let (sv2, r2) = sf_expressions(hs, sv1, args);
                            match r2 {
                                Result::Ok(a2) => {
                                    (sv2, Result::Ok(ArrayExpressionInner::FunctionCall(key, g2, a2)))
                                },
                                Result::Err(er) => (sv2, Result::Err(er)),
                            }
                        },
                        Result::Err(er) => (sv1, Result::Err(er)),
                    }
                },
                ArrayExpressionInner::IfElse(a, b, c) => {
                    let (sv1, r1) = sf_boolean_expression(hs, svh, *a);
                    match r1 {
                        Result::Ok(a2) => {
                            let (sv2, r2) = sf_array_expression(hs, sv1, *b);
                            match r2 {
                                Result::Ok(b2) => {
                                    let (sv3, r3) = sf_array_expression(hs, sv2, *c);
                                    match r3 {
                                        Result::Ok(c2) => {
                                            (sv3, Result::Ok(ArrayExpressionInner::IfElse(Box::new(a2), Box::new(b2), Box::new(c2))))
                                        },
                                        Result::Err(er) => (sv3, Result::Err(er)),
                                    }
                                },
                                Result::Err(er) => (sv2, Result::Err(er)),
                            }
                        },
                        Result::Err(er) => (sv1, Result::Err(er)),
                    }
                },
                ArrayExpressionInner::Member(s, id) => {
                    let (sv1, r1) = sf_struct_expression(hs, svh, *s);
                    match r1 {
                        Result::Ok(s2) => {
                            (sv1, Result::Ok(ArrayExpressionInner::Member(Box::new(s2), id)))
                        },
                        Result::Err(er) => (sv1, Result::Err(er)),
                    }
                },
                ArrayExpressionInner::Select(a, i) => {
                    let (sv1, r1) = sf_array_expression(hs, svh, *a);
                    match r1 {
                        Result::Ok(a2) => {
                            let (sv2, r2) = sf_uint_expression(hs, sv1, *i);
                            match r2 {
                                Result::Ok(i2) => {
                                    (sv2, Result::Ok(ArrayExpressionInner::Select(Box::new(a2), Box::new(i2))))
                                },
                                Result::Err(er) => (sv2, Result::Err(er)),
                            }
                        },
                        Result::Err(er) => (sv1, Result::Err(er)),
                    }
                },
                ArrayExpressionInner::Slice(a, b, c) => {
                    let (sv1, r1) = sf_array_expression(hs, svh, *a);
                    match r1 {
                        Result::Ok(a2) => {
                            let (sv2, r2) = sf_uint_expression(hs, sv1, *b);
                            match r2 {
                                Result::Ok(b2) => {
                                    let (sv3, r3) = sf_uint_expression(hs, sv2, *c);
                                    match r3 {
                                        Result::Ok(c2) => {
                                            (sv3, Result::Ok(ArrayExpressionInner::Slice(Box::new(a2), Box::new(b2), Box::new(c2))))
                                        },
                                        Result::Err(er) => (sv3, Result::Err(er)),
                                    }
                                },
                                Result::Err(er) => (sv2, Result::Err(er)),
                            }
                        },
                        Result::Err(er) => (sv1, Result::Err(er)),
                    }
                },
                ArrayExpressionInner::Repeat(a, b) => {
                    let (sv1, r1) = sf_expression(hs, svh, *a);
                    match r1 {
                        Result::Ok(a2) => {
                            let (sv2, r2) = sf_uint_expression(hs, sv1, *b);
                            match r2 {
                                Result::Ok(b2) => {
                                    (sv2, Result::Ok(ArrayExpressionInner::Repeat(Box::new(a2), Box::new(b2))))
                                },
                                Result::Err(er) => (sv2, Result::Err(er)),
                            }
                        },
                        Result::Err(er) => (sv1, Result::Err(er)),
                    }
                },
            }
        },
        Result::Err(er) => (svh, Result::Err(er)),
    }
}

/// A struct expression's declared shape is folded first; the folded
/// shape is what the rebuilt node carries.
pub open spec fn sf_struct_expression<S>(
    hs: Hooks<S>,
    sv: S,
    e: StructExpression,
) -> (S, Result<StructExpression, CompileError>)
    decreases e,
{
    let (svh, hr) = (hs.struct_expression)(sv, e);
    match hr {
        Result::Ok(HookOutcome::Replace(done)) => (svh, Result::Ok(done)),
        Result::Ok(HookOutcome::Proceed) => {
            let (sv1, r1) = sf_struct_type(hs, svh, e.ty);
            match r1 {
                Result::Ok(t2) => {
                    let (sv2, r2) = sf_struct_expression_inner(hs, sv1, e.inner);
                    match r2 {
                        Result::Ok(i2) => {
                            (sv2, Result::Ok(StructExpression { ty: t2, inner: i2 }))
                        },
                        Result::Err(er) => (sv2, Result::Err(er)),
                    }
                },
                Result::Err(er) => (sv1, Result::Err(er)),
            }
        },
        Result::Err(er) => (svh, Result::Err(er)),
    }
}

pub open spec fn sf_struct_expression_inner<S>(
    hs: Hooks<S>,
    sv: S,
    e: StructExpressionInner,
) -> (S, Result<StructExpressionInner, CompileError>)
    decreases e,
{
    let (svh, hr) = (hs.struct_expression_inner)(sv, e);
    match hr {
        Result::Ok(HookOutcome::Replace(done)) => (svh, Result::Ok(done)),
        Result::Ok(HookOutcome::Proceed) => {
            match e {
                StructExpressionInner::Identifier(id) => {
                    let (sv1, r1) = (hs.name)(svh, id);
                    match r1 {
                        Result::Ok(id2) => {
                            (sv1, Result::Ok(StructExpressionInner::Identifier(id2)))
                        },
                        Result::Err(er) => (sv1, Result::Err(er)),
                    }
                },
                StructExpressionInner::Value(l) => {
                    let (sv1, r1) = sf_expressions(hs, svh, l);
                    match r1 {
                        Result::Ok(l2) => {
                            (sv1, Result::Ok(StructExpressionInner::Value(l2)))
                        },
                        Result::Err(er) => (sv1, Result::Err(er)),
                    }
                },
                StructExpressionInner::FunctionCall(key, gens, args) => {
                    let (sv1, r1) = sf_generics(hs, svh, gens);
                    match r1 {
                        Result::Ok(g2) => {
                            let (sv2, r2) = sf_expressions(hs, sv1, args);
                            match r2 {
                                Result::Ok(a2) => {
                                    (sv2, Result::Ok(StructExpressionInner::FunctionCall(key, g2, a2)))
                                },
                                Result::Err(er) => (sv2, Result::Err(er)),
                            }
                        },
                        Result::Err(er) => (sv1, Result::Err(er)),
                    }
                },
                StructExpressionInner::IfElse(a, b, c) => {
                    let (sv1, r1) = sf_boolean_expression(hs, svh, *a);
                    match r1 {
                        Result::Ok(a2) => {
                            let (sv2, r2) = sf_struct_expression(hs, sv1, *b);
                            match r2 {
                                Result::Ok(b2) => {
                                    let (sv3, r3) = sf_struct_expression(hs, sv2, *c);
                                    match r3 {
                                        Result::Ok(c2) => {
                                            (sv3, Result::Ok(StructExpressionInner::IfElse(Box::new(a2), Box::new(b2), Box::new(c2))))
                                        },
                                        Result::Err(er) => (sv3, Result::Err(er)),
                                    }
                                },
                                Result::Err(er) => (sv2, Result::Err(er)),
                            }
                        },
                        Result::Err(er) => (sv1, Result::Err(er)),
                    }
                },
                StructExpressionInner::Member(s, id) => {
                    let (sv1, r1) = sf_struct_expression(hs, svh, *s);
                    match r1 {
                        Result::Ok(s2) => {
                            (sv1, Result::Ok(StructExpressionInner::Member(Box::new(s2), id)))
                        },
                        Result::Err(er) => (sv1, Result::Err(er)),
                    }
                },
                StructExpressionInner::Select(a, i) => {
                    let (sv1, r1) = sf_array_expression(hs, svh, *a);
                    match r1 {
                        Result::Ok(a2) => {
                            let (sv2, r2) = sf_uint_expression(hs, sv1, *i);
                            match r2 {
                                Result::Ok(i2) => {
                                    (sv2, Result::Ok(StructExpressionInner::Select(Box::new(a2), Box::new(i2))))
                                },
                                Result::Err(er) => (sv2, Result::Err(er)),
                            }
                        },
                        Result::Err(er) => (sv1, Result::Err(er)),
                    }
                },
            }
        },
        Result::Err(er) => (svh, Result::Err(er)),
    }
}

pub open spec fn sf_expression<S>(
    hs: Hooks<S>,
    sv: S,
    e: TypedExpression,
) -> (S, Result<TypedExpression, CompileError>)
    decreases e,
{
    let (svh, hr) = (hs.expression)(sv, e);
    match hr {
        Result::Ok(HookOutcome::Replace(done)) => (svh, Result::Ok(done)),
        Result::Ok(HookOutcome::Proceed) => {
            match e {
                TypedExpression::FieldElement(x) => {
                    let (sv1, r1) = sf_field_expression(hs, svh, *x);
                    match r1 {
                        Result::Ok(x2) => {
                            (sv1, Result::Ok(TypedExpression::FieldElement(Box::new(x2))))
                        },
                        Result::Err(er) => (sv1, Result::Err(er)),
                    }
                },
                TypedExpression::Boolean(x) => {
                    let (sv1, r1) = sf_boolean_expression(hs, svh, *x);
                    match r1 {
                        Result::Ok(x2) => {
                            (sv1, Result::Ok(TypedExpression::Boolean(Box::new(x2))))
                        },
                        Result::Err(er) => (sv1, Result::Err(er)),
                    }
                },
                TypedExpression::Uint(x) => {
                    let (sv1, r1) = sf_uint_expression(hs, svh, *x);
                    match r1 {
                        Result::Ok(x2) => {
                            (sv1, Result::Ok(TypedExpression::Uint(Box::new(x2))))
                        },
                        Result::Err(er) => (sv1, Result::Err(er)),
                    }
                },
                TypedExpression::Array(x) => {
                    let (sv1, r1) = sf_array_expression(hs, svh, *x);
                    match r1 {
                        Result::Ok(x2) => {
                            (sv1, Result::Ok(TypedExpression::Array(Box::new(x2))))
                        },
                        Result::Err(er) => (sv1, Result::Err(er)),
                    }
                },
                TypedExpression::Struct(x) => {
                    let (sv1, r1) = sf_struct_expression(hs, svh, *x);
                    match r1 {
                        Result::Ok(x2) => {
                            (sv1, Result::Ok(TypedExpression::Struct(Box::new(x2))))
                        },
                        Result::Err(er) => (sv1, Result::Err(er)),
                    }
                },
                TypedExpression::Int(x) => {
                    let (sv1, r1) = sf_int_expression(hs, svh, *x);
                    match r1 {
                        Result::Ok(x2) => {
                            (sv1, Result::Ok(TypedExpression::Int(Box::new(x2))))
                        },
                        Result::Err(er) => (sv1, Result::Err(er)),
                    }
                },
            }
        },
        Result::Err(er) => (svh, Result::Err(er)),
    }
}

pub open spec fn sf_expressions<S>(
    hs: Hooks<S>,
    sv: S,
    e: List<TypedExpression>,
) -> (S, Result<List<TypedExpression>, CompileError>)
    decreases e,
{
    match e {
        List::Nil => (sv, Result::Ok(List::Nil)),
        List::Cons(x, rest) => {
            let (sv1, rx) = sf_expression(hs, sv, *x);
            match rx {
                Result::Ok(x2) => {
                    let (sv2, rr) = sf_expressions(hs, sv1, *rest);
                    match rr {
                        Result::Ok(rest2) => (
                            sv2,
                            Result::Ok(List::Cons(Box::new(x2), Box::new(rest2))),
                        ),
                        Result::Err(er) => (sv2, Result::Err(er)),
                    }
                },
                Result::Err(er) => (sv1, Result::Err(er)),
            }
        },
    }
}

pub open spec fn sf_expression_or_spread<S>(
    hs: Hooks<S>,
    sv: S,
    e: TypedExpressionOrSpread,
) -> (S, Result<TypedExpressionOrSpread, CompileError>)
    decreases e,
{
    let (svh, hr) = (hs.expression_or_spread)(sv, e);
    match hr {
        Result::Ok(HookOutcome::Replace(done)) => (svh, Result::Ok(done)),
        Result::Ok(HookOutcome::Proceed) => {
            match e {
                TypedExpressionOrSpread::Expression(x) => {
                    let (sv1, r1) = sf_expression(hs, svh, x);
                    match r1 {
                        Result::Ok(x2) => {
                            (sv1, Result::Ok(TypedExpressionOrSpread::Expression(x2)))
                        },
                        Result::Err(er) => (sv1, Result::Err(er)),
                    }
                },
                TypedExpressionOrSpread::Spread(s) => {
                    let (sv1, r1) = sf_spread(hs, svh, s);
                    match r1 {
                        Result::Ok(s2) => {
                            (sv1, Result::Ok(TypedExpressionOrSpread::Spread(s2)))
                        },
                        Result::Err(er) => (sv1, Result::Err(er)),
                    }
                },
            }
        },
        Result::Err(er) => (svh, Result::Err(er)),
    }
}

pub open spec fn sf_or_spreads<S>(
    hs: Hooks<S>,
    sv: S,
    e: List<TypedExpressionOrSpread>,
) -> (S, Result<List<TypedExpressionOrSpread>, CompileError>)
    decreases e,
{
    match e {
        List::Nil => (sv, Result::Ok(List::Nil)),
        List::Cons(x, rest) => {
            let (sv1, rx) = sf_expression_or_spread(hs, sv, *x);
            match rx {
                Result::Ok(x2) => {
                    let (sv2, rr) = sf_or_spreads(hs, sv1, *rest);
                    match rr {
                        Result::Ok(rest2) => (
                            sv2,
                            Result::Ok(List::Cons(Box::new(x2), Box::new(rest2))),
                        ),
                        Result::Err(er) => (sv2, Result::Err(er)),
                    }
                },
                Result::Err(er) => (sv1, Result::Err(er)),
            }
        },
    }
}

pub open spec fn sf_spread<S>(
    hs: Hooks<S>,
    sv: S,
    e: TypedSpread,
) -> (S, Result<TypedSpread, CompileError>)
    decreases e,
{
    let (svh, hr) = (hs.spread)(sv, e);
    match hr {
        Result::Ok(HookOutcome::Replace(done)) => (svh, Result::Ok(done)),
        Result::Ok(HookOutcome::Proceed) => {
            let (sv1, r1) = sf_array_expression(hs, svh, e.array);
            match r1 {
                Result::Ok(a2) => {
                    (sv1, Result::Ok(TypedSpread { array: a2 }))
                },
                Result::Err(er) => (sv1, Result::Err(er)),
            }
        },
        Result::Err(er) => (svh, Result::Err(er)),
    }
}

pub open spec fn sf_assignee<S>(
    hs: Hooks<S>,
    sv: S,
    e: TypedAssignee,
) -> (S, Result<TypedAssignee, CompileError>)
    decreases e,
{
    let (svh, hr) = (hs.assignee)(sv, e);
    match hr {
        Result::Ok(HookOutcome::Replace(done)) => (svh, Result::Ok(done)),
        Result::Ok(HookOutcome::Proceed) => {
            match e {
                TypedAssignee::Identifier(v) => {
                    let (sv1, r1) = sf_variable(hs, svh, v);
                    match r1 {
                        Result::Ok(v2) => {
                            (sv1, Result::Ok(TypedAssignee::Identifier(v2)))
                        },
                        Result::Err(er) => (sv1, Result::Err(er)),
                    }
                },
                TypedAssignee::Select(a, i) => {
                    let (sv1, r1) = sf_assignee(hs, svh, *a);
                    match r1 {
                        Result::Ok(a2) => {
                            let (sv2, r2) = sf_uint_expression(hs, sv1, *i);
                            match r2 {
                                Result::Ok(i2) => {
                                    (sv2, Result::Ok(TypedAssignee::Select(Box::new(a2), Box::new(i2))))
                                },
                                Result::Err(er) => (sv2, Result::Err(er)),
                            }
                        },
                        Result::Err(er) => (sv1, Result::Err(er)),
                    }
                },
                TypedAssignee::Member(a, m) => {
                    let (sv1, r1) = sf_assignee(hs, svh, *a);
                    match r1 {
                        Result::Ok(a2) => {
                            (sv1, Result::Ok(TypedAssignee::Member(Box::new(a2), m)))
                        },
                        Result::Err(er) => (sv1, Result::Err(er)),
                    }
                },
            }
        },
        Result::Err(er) => (svh, Result::Err(er)),
    }
}

pub open spec fn sf_assignees<S>(
    hs: Hooks<S>,
    sv: S,
    e: List<TypedAssignee>,
) -> (S, Result<List<TypedAssignee>, CompileError>)
    decreases e,
{
    match e {
        List::Nil => (sv, Result::Ok(List::Nil)),
        List::Cons(x, rest) => {
            let (sv1, rx) = sf_assignee(hs, sv, *x);
            match rx {
                Result::Ok(x2) => {
                    let (sv2, rr) = sf_assignees(hs, sv1, *rest);
                    match rr {
                        Result::Ok(rest2) => (
                            sv2,
                            Result::Ok(List::Cons(Box::new(x2), Box::new(rest2))),
                        ),
                        Result::Err(er) => (sv2, Result::Err(er)),
                    }
                },
                Result::Err(er) => (sv1, Result::Err(er)),
            }
        },
    }
}

pub open spec fn sf_types<S>(
    hs: Hooks<S>,
    sv: S,
    e: List<Type>,
) -> (S, Result<List<Type>, CompileError>)
    decreases e,
{
    match e {
        List::Nil => (sv, Result::Ok(List::Nil)),
        List::Cons(x, rest) => {
            let (sv1, rx) = sf_type(hs, sv, *x);
            match rx {
                Result::Ok(x2) => {
                    let (sv2, rr) = sf_types(hs, sv1, *rest);
                    match rr {
                        Result::Ok(rest2) => (
                            sv2,
                            Result::Ok(List::Cons(Box::new(x2), Box::new(rest2))),
                        ),
                        Result::Err(er) => (sv2, Result::Err(er)),
                    }
                },
                Result::Err(er) => (sv1, Result::Err(er)),
            }
        },
    }
}

pub open spec fn sf_params<S>(
    hs: Hooks<S>,
    sv: S,
    e: List<DeclarationParameter>,
) -> (S, Result<List<DeclarationParameter>, CompileError>)
    decreases e,
{
    match e {
        List::Nil => (sv, Result::Ok(List::Nil)),
        List::Cons(x, rest) => {
            let (sv1, rx) = sf_parameter(hs, sv, *x);
            match rx {
                Result::Ok(x2) => {
                    let (sv2, rr) = sf_params(hs, sv1, *rest);
                    match rr {
                        Result::Ok(rest2) => (
                            sv2,
                            Result::Ok(List::Cons(Box::new(x2), Box::new(rest2))),
                        ),
                        Result::Err(er) => (sv2, Result::Err(er)),
                    }
                },
                Result::Err(er) => (sv1, Result::Err(er)),
            }
        },
    }
}

pub open spec fn sf_expression_list<S>(
    hs: Hooks<S>,
    sv: S,
    e: TypedExpressionList,
) -> (S, Result<TypedExpressionList, CompileError>)
    decreases e,
{
    let (svh, hr) = (hs.expression_list)(sv, e);
    match hr {
        Result::Ok(HookOutcome::Replace(done)) => (svh, Result::Ok(done)),
        Result::Ok(HookOutcome::Proceed) => {
            match e {
                TypedExpressionList::FunctionCall(key, gens, args, tys) => {
                    let (sv1, r1) = sf_generics(hs, svh, gens);
                    match r1 {
                        Result::Ok(g2) => {
                            let (sv2, r2) = sf_expressions(hs, sv1, args);
                            match r2 {
                                Result::Ok(a2) => {
                                    let (sv3, r3) = sf_types(hs, sv2, tys);
                                    match r3 {
                                        Result::Ok(t2) => {
                                            (sv3, Result::Ok(TypedExpressionList::FunctionCall(key, g2, a2, t2)))
                                        },
                                        Result::Err(er) => (sv3, Result::Err(er)),
                                    }
                                },
                                Result::Err(er) => (sv2, Result::Err(er)),
                            }
                        },
                        Result::Err(er) => (sv1, Result::Err(er)),
                    }
                },
            }
        },
        Result::Err(er) => (svh, Result::Err(er)),
    }
}

/// One statement folds to zero, one or many statements; every default
/// yields exactly one.
pub open spec fn sf_statement<S>(
    hs: Hooks<S>,
    sv: S,
    e: TypedStatement,
) -> (S, Result<List<TypedStatement>, CompileError>)
    decreases e,
{
    let (svh, hr) = (hs.statement)(sv, e);
    match hr {
        Result::Ok(HookOutcome::Replace(done)) => (svh, Result::Ok(done)),
        Result::Ok(HookOutcome::Proceed) => {
            match e {
                TypedStatement::Return(es) => {
                    let (sv1, r1) = sf_expressions(hs, svh, es);
                    match r1 {
                        Result::Ok(es2) => {
                            (sv1, Result::Ok(List::Cons(Box::new(TypedStatement::Return(es2)), Box::new(List::Nil))))
                        },
                        Result::Err(er) => (sv1, Result::Err(er)),
                    }
                },
                TypedStatement::Definition(a, x) => {
                    let (sv1, r1) = sf_assignee(hs, svh, a);
                    match r1 {
                        Result::Ok(a2) => {
                            let (sv2, r2) = sf_expression(hs, sv1, x);
                            match r2 {
                                Result::Ok(x2) => {
                                    (sv2, Result::Ok(List::Cons(Box::new(TypedStatement::Definition(a2, x2)), Box::new(List::Nil))))
                                },
                                Result::Err(er) => (sv2, Result::Err(er)),
                            }
                        },
                        Result::Err(er) => (sv1, Result::Err(er)),
                    }
                },
                TypedStatement::Declaration(v) => {
                    let (sv1, r1) = sf_variable(hs, svh, v);
                    match r1 {
                        Result::Ok(v2) => {
                            (sv1, Result::Ok(List::Cons(Box::new(TypedStatement::Declaration(v2)), Box::new(List::Nil))))
                        },
                        Result::Err(er) => (sv1, Result::Err(er)),
                    }
                },
                TypedStatement::Assertion(b) => {
                    let (sv1, r1) = sf_boolean_expression(hs, svh, b);
                    match r1 {
                        Result::Ok(b2) => {
                            (sv1, Result::Ok(List::Cons(Box::new(TypedStatement::Assertion(b2)), Box::new(List::Nil))))
                        },
                        Result::Err(er) => (sv1, Result::Err(er)),
                    }
                },
                TypedStatement::For(v, lo, hi, body) => {
                    let (sv1, r1) = sf_variable(hs, svh, v);
                    match r1 {
                        Result::Ok(v2) => {
                            let (sv2, r2) = sf_uint_expression(hs, sv1, lo);
                            match r2 {
                                Result::Ok(lo2) => {
                                    let (sv3, r3) = sf_uint_expression(hs, sv2, hi);
                                    match r3 {
                                        Result::Ok(hi2) => {
                                            let (sv4, r4) = sf_statements(hs, sv3, body);
                                            match r4 {
                                                Result::Ok(body2) => {
                                                    (sv4, Result::Ok(List::Cons(Box::new(TypedStatement::For(v2, lo2, hi2, body2)), Box::new(List::Nil))))
                                                },
                                                Result::Err(er) => (sv4, Result::Err(er)),
                                            }
                                        },
                                        Result::Err(er) => (sv3, Result::Err(er)),
                                    }
                                },
                                Result::Err(er) => (sv2, Result::Err(er)),
                            }
                        },
                        Result::Err(er) => (sv1, Result::Err(er)),
                    }
                },
                TypedStatement::MultipleDefinition(asgs, el) => {
                    let (sv1, r1) = sf_assignees(hs, svh, asgs);
                    match r1 {
                        Result::Ok(a2) => {
                            let (sv2, r2) = sf_expression_list(hs, sv1, el);
                            match r2 {
                                Result::Ok(e2) => {
                                    (sv2, Result::Ok(List::Cons(Box::new(TypedStatement::MultipleDefinition(a2, e2)), Box::new(List::Nil))))
                                },
                                Result::Err(er) => (sv2, Result::Err(er)),
                            }
                        },
                        Result::Err(er) => (sv1, Result::Err(er)),
                    }
                },
            }
        },
        Result::Err(er) => (svh, Result::Err(er)),
    }
}

pub open spec fn sf_statements<S>(
    hs: Hooks<S>,
    sv: S,
    e: List<TypedStatement>,
) -> (S, Result<List<TypedStatement>, CompileError>)
    decreases e,
{
    match e {
        List::Nil => (sv, Result::Ok(List::Nil)),
        List::Cons(s, rest) => {
            let (sv1, rs) = sf_statement(hs, sv, *s);
            match rs {
                Result::Ok(out_s) => {
                    let (sv2, rr) = sf_statements(hs, sv1, *rest);
                    match rr {
                        Result::Ok(rest2) => (sv2, Result::Ok(append(out_s, rest2))),
                        Result::Err(er) => (sv2, Result::Err(er)),
                    }
                },
                Result::Err(er) => (sv1, Result::Err(er)),
            }
        },
    }
}

pub open spec fn sf_function<S>(
    hs: Hooks<S>,
    sv: S,
    e: TypedFunction,
) -> (S, Result<TypedFunction, CompileError>)
    decreases e,
{
    let (svh, hr) = (hs.function)(sv, e);
    match hr {
        Result::Ok(HookOutcome::Replace(done)) => (svh, Result::Ok(done)),
        Result::Ok(HookOutcome::Proceed) => {
            let (sv1, r1) = sf_params(hs, svh, e.arguments);
            match r1 {
                Result::Ok(a2) => {
                    let (sv2, r2) = sf_statements(hs, sv1, e.statements);
                    match r2 {
                        Result::Ok(s2) => {
                            (sv2, Result::Ok(TypedFunction { generics: e.generics, arguments: a2, statements: s2, returns: e.returns }))
                        },
                        Result::Err(er) => (sv2, Result::Err(er)),
                    }
                },
                Result::Err(er) => (sv1, Result::Err(er)),
            }
        },
        Result::Err(er) => (svh, Result::Err(er)),
    }
}

/// A symbol defined elsewhere is a stable reference: it is not walked,
/// so each module body is folded exactly once.
pub open spec fn sf_function_symbol<S>(
    hs: Hooks<S>,
    sv: S,
    e: TypedFunctionSymbol,
) -> (S, Result<TypedFunctionSymbol, CompileError>)
    decreases e,
{
    let (svh, hr) = (hs.function_symbol)(sv, e);
    match hr {
        Result::Ok(HookOutcome::Replace(done)) => (svh, Result::Ok(done)),
        Result::Ok(HookOutcome::Proceed) => {
            match e {
                TypedFunctionSymbol::Here(fun) => {
                    let (sv1, r1) = sf_function(hs, svh, fun);
                    match r1 {
                        Result::Ok(f2) => {
                            (sv1, Result::Ok(TypedFunctionSymbol::Here(f2)))
                        },
                        Result::Err(er) => (sv1, Result::Err(er)),
                    }
                },
                there => {
                    (svh, Result::Ok(there))
                },
            }
        },
        Result::Err(er) => (svh, Result::Err(er)),
    }
}

pub open spec fn sf_functions<S>(
    hs: Hooks<S>,
    sv: S,
    e: List<(Identifier, TypedFunctionSymbol)>,
) -> (S, Result<List<(Identifier, TypedFunctionSymbol)>, CompileError>)
    decreases e,
{
    match e {
        List::Nil => (sv, Result::Ok(List::Nil)),
        List::Cons(p, rest) => {
            let pr = *p;
            let (sv1, rs) = sf_function_symbol(hs, sv, pr.1);
            match rs {
                Result::Ok(s2) => {
                    let (sv2, rr) = sf_functions(hs, sv1, *rest);
                    match rr {
                        Result::Ok(rest2) => (
                            sv2,
                            Result::Ok(List::Cons(Box::new((pr.0, s2)), Box::new(rest2))),
                        ),
                        Result::Err(er) => (sv2, Result::Err(er)),
                    }
                },
                Result::Err(er) => (sv1, Result::Err(er)),
            }
        },
    }
}

pub open spec fn sf_module<S>(
    hs: Hooks<S>,
    sv: S,
    e: TypedModule,
) -> (S, Result<TypedModule, CompileError>)
    decreases e,
{
    let (svh, hr) = (hs.module)(sv, e);
    match hr {
        Result::Ok(HookOutcome::Replace(done)) => (svh, Result::Ok(done)),
        Result::Ok(HookOutcome::Proceed) => {
            let (sv1, r1) = sf_functions(hs, svh, e.functions);
            match r1 {
                Result::Ok(fs) => {
                    (sv1, Result::Ok(TypedModule { functions: fs }))
                },
                Result::Err(er) => (sv1, Result::Err(er)),
            }
        },
        Result::Err(er) => (svh, Result::Err(er)),
    }
}

pub open spec fn sf_modules<S>(
    hs: Hooks<S>,
    sv: S,
    e: List<(Identifier, TypedModule)>,
) -> (S, Result<List<(Identifier, TypedModule)>, CompileError>)
    decreases e,
{
    match e {
        List::Nil => (sv, Result::Ok(List::Nil)),
        List::Cons(p, rest) => {
            let pr = *p;
            let (sv1, rs) = sf_module(hs, sv, pr.1);
            match rs {
                Result::Ok(s2) => {
                    let (sv2, rr) = sf_modules(hs, sv1, *rest);
                    match rr {
                        Result::Ok(rest2) => (
                            sv2,
                            Result::Ok(List::Cons(Box::new((pr.0, s2)), Box::new(rest2))),
                        ),
                        Result::Err(er) => (sv2, Result::Err(er)),
                    }
                },
                Result::Err(er) => (sv1, Result::Err(er)),
            }
        },
    }
}

pub open spec fn sf_program<S>(
    hs: Hooks<S>,
    sv: S,
    e: TypedProgram,
) -> (S, Result<TypedProgram, CompileError>)
    decreases e,
{
    let (svh, hr) = (hs.program)(sv, e);
    match hr {
        Result::Ok(HookOutcome::Replace(done)) => (svh, Result::Ok(done)),
        Result::Ok(HookOutcome::Proceed) => {
            let (sv1, r1) = sf_modules(hs, svh, e.modules);
            match r1 {
                Result::Ok(ms) => {
                    (sv1, Result::Ok(TypedProgram { modules: ms, main: e.main }))
                },
                Result::Err(er) => (sv1, Result::Err(er)),
            }
        },
        Result::Err(er) => (svh, Result::Err(er)),
    }
}

pub fn fold_declaration_type<F: ResultFolder>(f: &mut F, e: DeclarationType) -> (r: Result<DeclarationType, CompileError>)
    ensures
        final(f).sv() == sf_declaration_type::<F::SV>(hooks_of::<F>(), old(f).sv(), e).0,
        r == sf_declaration_type::<F::SV>(hooks_of::<F>(), old(f).sv(), e).1,
{
    proof {
        lemma_hooks_of::<F>();
    }
    let hr = match f.hook_declaration_type(&e) {
        Result::Ok(v) => v,
        Result::Err(er) => {
            return Result::Err(er);
        },
    };
    match hr {
        HookOutcome::Replace(done) => Result::Ok(done),
        HookOutcome::Proceed => {
            Result::Ok(e)
        },
    }
}

pub fn fold_declaration_variable<F: ResultFolder>(f: &mut F, e: DeclarationVariable) -> (r: Result<DeclarationVariable, CompileError>)
    ensures
        final(f).sv() == sf_declaration_variable::<F::SV>(hooks_of::<F>(), old(f).sv(), e).0,
        r == sf_declaration_variable::<F::SV>(hooks_of::<F>(), old(f).sv(), e).1,
{
    proof {
        lemma_hooks_of::<F>();
    }
    let hr = match f.hook_declaration_variable(&e) {
        Result::Ok(v) => v,
        Result::Err(er) => {
            return Result::Err(er);
        },
    };
    match hr {
        HookOutcome::Replace(done) => Result::Ok(done),
        HookOutcome::Proceed => {
            let DeclarationVariable { id, ty } = e;
            let id2 = match f.fold_name(id) {
                Result::Ok(v) => v,
                Result::Err(er) => {
                    return Result::Err(er);
                },
            };
            Result::Ok(DeclarationVariable { id: id2, ty })
        },
    }
}

pub fn fold_parameter<F: ResultFolder>(f: &mut F, e: DeclarationParameter) -> (r: Result<DeclarationParameter, CompileError>)
    ensures
        final(f).sv() == sf_parameter::<F::SV>(hooks_of::<F>(), old(f).sv(), e).0,
        r == sf_parameter::<F::SV>(hooks_of::<F>(), old(f).sv(), e).1,
{
    proof {
        lemma_hooks_of::<F>();
    }
    let hr = match f.hook_parameter(&e) {
        Result::Ok(v) => v,
        Result::Err(er) => {
            return Result::Err(er);
        },
    };
    match hr {
        HookOutcome::Replace(done) => Result::Ok(done),
        HookOutcome::Proceed => {
            let DeclarationParameter { id, private } = e;
            let id2 = match fold_declaration_variable(f, id) {
                Result::Ok(v) => v,
                Result::Err(er) => {
                    return Result::Err(er);
                },
            };
            Result::Ok(DeclarationParameter { id: id2, private })
        },
    }
}

pub fn fold_variable<F: ResultFolder>(f: &mut F, e: Variable) -> (r: Result<Variable, CompileError>)
    ensures
        final(f).sv() == sf_variable::<F::SV>(hooks_of::<F>(), old(f).sv(), e).0,
        r == sf_variable::<F::SV>(hooks_of::<F>(), old(f).sv(), e).1,
    decreases e,
{
    proof {
        lemma_hooks_of::<F>();
    }
    let hr = match f.hook_variable(&e) {
        Result::Ok(v) => v,
        Result::Err(er) => {
            return Result::Err(er);
        },
    };
    match hr {
        HookOutcome::Replace(done) => Result::Ok(done),
        HookOutcome::Proceed => {
            let Variable { id, ty } = e;
            let id2 = match f.fold_name(id) {
                Result::Ok(v) => v,
                Result::Err(er) => {
                    return Result::Err(er);
                },
            };
            let ty2 = match fold_type(f, ty) {
                Result::Ok(v) => v,
                Result::Err(er) => {
                    return Result::Err(er);
                },
            };
            Result::Ok(Variable { id: id2, ty: ty2 })
        },
    }
}

pub fn fold_type<F: ResultFolder>(f: &mut F, e: Type) -> (r: Result<Type, CompileError>)
    ensures
        final(f).sv() == sf_type::<F::SV>(hooks_of::<F>(), old(f).sv(), e).0,
        r == sf_type::<F::SV>(hooks_of::<F>(), old(f).sv(), e).1,
    decreases e,
{
    proof {
        lemma_hooks_of::<F>();
    }
    let hr = match f.hook_type(&e) {
        Result::Ok(v) => v,
        Result::Err(er) => {
            return Result::Err(er);
        },
    };
    match hr {
        HookOutcome::Replace(done) => Result::Ok(done),
        HookOutcome::Proceed => {
            match e {
                Type::Array(at) => {
                    let at2 = match fold_array_type(f, *at) {
                        Result::Ok(v) => v,
                        Result::Err(er) => {
                            return Result::Err(er);
                        },
                    };
                    Result::Ok(Type::Array(Box::new(at2)))
                },
                Type::Struct(st) => {
                    let st2 = match fold_struct_type(f, st) {
                        Result::Ok(v) => v,
                        Result::Err(er) => {
                            return Result::Err(er);
                        },
                    };
                    Result::Ok(Type::Struct(st2))
                },
                other => {
                    Result::Ok(other)
                },
            }
        },
    }
}

pub fn fold_array_type<F: ResultFolder>(f: &mut F, e: ArrayType) -> (r: Result<ArrayType, CompileError>)
    ensures
        final(f).sv() == sf_array_type::<F::SV>(hooks_of::<F>(), old(f).sv(), e).0,
        r == sf_array_type::<F::SV>(hooks_of::<F>(), old(f).sv(), e).1,
    decreases e,
{
    proof {
        lemma_hooks_of::<F>();
    }
    let hr = match f.hook_array_type(&e) {
        Result::Ok(v) => v,
        Result::Err(er) => {
            return Result::Err(er);
        },
    };
    match hr {
        HookOutcome::Replace(done) => Result::Ok(done),
        HookOutcome::Proceed => {
            let ArrayType { ty, size } = e;
            let ty2 = match fold_type(f, *ty) {
                Result::Ok(v) => v,
                Result::Err(er) => {
                    return Result::Err(er);
                },
            };
            let size2 = match fold_uint_expression(f, size) {
                Result::Ok(v) => v,
                Result::Err(er) => {
                    return Result::Err(er);
                },
            };
            Result::Ok(ArrayType { ty: Box::new(ty2), size: size2 })
        },
    }
}

pub fn fold_struct_type<F: ResultFolder>(f: &mut F, e: StructType) -> (r: Result<StructType, CompileError>)
    ensures
        final(f).sv() == sf_struct_type::<F::SV>(hooks_of::<F>(), old(f).sv(), e).0,
        r == sf_struct_type::<F::SV>(hooks_of::<F>(), old(f).sv(), e).1,
    decreases e,
{
    proof {
        lemma_hooks_of::<F>();
    }
    let hr = match f.hook_struct_type(&e) {
        Result::Ok(v) => v,
        Result::Err(er) => {
            return Result::Err(er);
        },
    };
    match hr {
        HookOutcome::Replace(done) => Result::Ok(done),
        HookOutcome::Proceed => {
            let StructType { members } = e;
            let m2 = match fold_members(f, members) {
                Result::Ok(v) => v,
                Result::Err(er) => {
                    return Result::Err(er);
                },
            };
            Result::Ok(StructType { members: m2 })
        },
    }
}

pub fn fold_members<F: ResultFolder>(f: &mut F, e: List<StructMember>) -> (r: Result<List<StructMember>, CompileError>)
    ensures
        final(f).sv() == sf_members::<F::SV>(hooks_of::<F>(), old(f).sv(), e).0,
        r == sf_members::<F::SV>(hooks_of::<F>(), old(f).sv(), e).1,
    decreases e,
{
    proof {
        lemma_hooks_of::<F>();
    }
    match e {
        List::Nil => Result::Ok(List::Nil),
        List::Cons(m, rest) => {
            let id = m.id;
            let ty = match fold_type(f, *m.ty) {
                Result::Ok(v) => v,
                Result::Err(er) => {
                    return Result::Err(er);
                },
            };
            let rest2 = match fold_members(f, *rest) {
                Result::Ok(v) => v,
                Result::Err(er) => {
                    return Result::Err(er);
                },
            };
            Result::Ok(
                List::Cons(
                    Box::new(StructMember { id, ty: Box::new(ty) }),
                    Box::new(rest2),
                ),
            )
        },
    }
}

pub fn fold_generics<F: ResultFolder>(f: &mut F, e: List<Option<UExpression>>) -> (r: Result<List<Option<UExpression>>, CompileError>)
    ensures
        final(f).sv() == sf_generics::<F::SV>(hooks_of::<F>(), old(f).sv(), e).0,
        r == sf_generics::<F::SV>(hooks_of::<F>(), old(f).sv(), e).1,
    decreases e,
{
    proof {
        lemma_hooks_of::<F>();
    }
    match e {
        List::Nil => Result::Ok(List::Nil),
        List::Cons(g, rest) => {
            let g2 = match *g {
                Option::Some(u) => {
                    let u2 = match fold_uint_expression(f, u) {
                        Result::Ok(v) => v,
                        Result::Err(er) => {
                            return Result::Err(er);
                        },
                    };
                    Option::Some(u2)
                },
                Option::None => Option::None,
            };
            let rest2 = match fold_generics(f, *rest) {
                Result::Ok(v) => v,
                Result::Err(er) => {
                    return Result::Err(er);
                },
            };
            Result::Ok(List::Cons(Box::new(g2), Box::new(rest2)))
        },
    }
}

pub fn fold_int_expression<F: ResultFolder>(f: &mut F, e: IntExpression) -> (r: Result<IntExpression, CompileError>)
    ensures
        final(f).sv() == sf_int_expression::<F::SV>(hooks_of::<F>(), old(f).sv(), e).0,
        r == sf_int_expression::<F::SV>(hooks_of::<F>(), old(f).sv(), e).1,
{
    proof {
        lemma_hooks_of::<F>();
    }
    let hr = match f.hook_int_expression(&e) {
        Result::Ok(v) => v,
        Result::Err(er) => {
            return Result::Err(er);
        },
    };
    match hr {
        HookOutcome::Replace(done) => Result::Ok(done),
        HookOutcome::Proceed => {
            Result::Err(CompileError::InternalInvariant)
        },
    }
}

pub fn fold_uint_expression<F: ResultFolder>(f: &mut F, e: UExpression) -> (r: Result<UExpression, CompileError>)
    ensures
        final(f).sv() == sf_uint_expression::<F::SV>(hooks_of::<F>(), old(f).sv(), e).0,
        r == sf_uint_expression::<F::SV>(hooks_of::<F>(), old(f).sv(), e).1,
    decreases e,
{
    proof {
        lemma_hooks_of::<F>();
    }
    let hr = match f.hook_uint_expression(&e) {
        Result::Ok(v) => v,
        Result::Err(er) => {
            return Result::Err(er);
        },
    };
    match hr {
        HookOutcome::Replace(done) => Result::Ok(done),
        HookOutcome::Proceed => {
            let UExpression { bitwidth, inner } = e;
            let i2 = match fold_uint_expression_inner(f, bitwidth, inner) {
                Result::Ok(v) => v,
                Result::Err(er) => {
                    return Result::Err(er);
                },
            };
            Result::Ok(UExpression { bitwidth, inner: i2 })
        },
    }
}

pub fn fold_field_expression<F: ResultFolder>(f: &mut F, e: FieldElementExpression) -> (r: Result<FieldElementExpression, CompileError>)
    ensures
        final(f).sv() == sf_field_expression::<F::SV>(hooks_of::<F>(), old(f).sv(), e).0,
        r == sf_field_expression::<F::SV>(hooks_of::<F>(), old(f).sv(), e).1,
    decreases e,
{
    proof {
        lemma_hooks_of::<F>();
    }
    let hr = match f.hook_field_expression(&e) {
        Result::Ok(v) => v,
        Result::Err(er) => {
            return Result::Err(er);
        },
    };
    match hr {
        HookOutcome::Replace(done) => Result::Ok(done),
        HookOutcome::Proceed => {
            match e {
                FieldElementExpression::Number(n) => {
                    Result::Ok(FieldElementExpression::Number(n))
                },
                FieldElementExpression::Identifier(id) => {
                    let id2 = match f.fold_name(id) {
                        Result::Ok(v) => v,
                        Result::Err(er) => {
                            return Result::Err(er);
                        },
                    };
                    Result::Ok(FieldElementExpression::Identifier(id2))
                },
                FieldElementExpression::Add(a, b) => {
                    let a2 = match fold_field_expression(f, *a) {
                        Result::Ok(v) => v,
                        Result::Err(er) => {
                            return Result::Err(er);
                        },
                    };
                    let b2 = match fold_field_expression(f, *b) {
                        Result::Ok(v) => v,
                        Result::Err(er) => {
                            return Result::Err(er);
                        },
                    };
                    Result::Ok(FieldElementExpression::Add(Box::new(a2), Box::new(b2)))
                },
                FieldElementExpression::Sub(a, b) => {
                    let a2 = match fold_field_expression(f, *a) {
                        Result::Ok(v) => v,
                        Result::Err(er) => {
                            return Result::Err(er);
                        },
                    };
                    let b2 = match fold_field_expression(f, *b) {
                        Result::Ok(v) => v,
                        Result::Err(er) => {
                            return Result::Err(er);
                        },
                    };
                    Result::Ok(FieldElementExpression::Sub(Box::new(a2), Box::new(b2)))
                },
                FieldElementExpression::Mult(a, b) => {
                    let a2 = match fold_field_expression(f, *a) {
                        Result::Ok(v) => v,
                        Result::Err(er) => {
                            return Result::Err(er);
                        },
                    };
                    let b2 = match fold_field_expression(f, *b) {
                        Result::Ok(v) => v,
                        Result::Err(er) => {
                            return Result::Err(er);
                        },
                    };
                    Result::Ok(FieldElementExpression::Mult(Box::new(a2), Box::new(b2)))
                },
                FieldElementExpression::Div(a, b) => {
                    let a2 = match fold_field_expression(f, *a) {
                        Result::Ok(v) => v,
                        Result::Err(er) => {
                            return Result::Err(er);
                        },
                    };
                    let b2 = match fold_field_expression(f, *b) {
                        Result::Ok(v) => v,
                        Result::Err(er) => {
                            return Result::Err(er);
                        },
                    };
                    Result::Ok(FieldElementExpression::Div(Box::new(a2), Box::new(b2)))
                },
                FieldElementExpression::Pow(a, b) => {
                    let a2 = match fold_field_expression(f, *a) {
                        Result::Ok(v) => v,
                        Result::Err(er) => {
                            return Result::Err(er);
                        },
                    };
                    let b2 = match fold_uint_expression(f, *b) {
                        Result::Ok(v) => v,
                        Result::Err(er) => {
                            return Result::Err(er);
                        },
                    };
                    Result::Ok(FieldElementExpression::Pow(Box::new(a2), Box::new(b2)))
                },
                FieldElementExpression::IfElse(a, b, c) => {
                    let a2 = match fold_boolean_expression(f, *a) {
                        Result::Ok(v) => v,
                        Result::Err(er) => {
                            return Result::Err(er);
                        },
                    };
                    let b2 = match fold_field_expression(f, *b) {
                        Result::Ok(v) => v,
                        Result::Err(er) => {
                            return Result::Err(er);
                        },
                    };
                    let c2 = match fold_field_expression(f, *c) {
                        Result::Ok(v) => v,
                        Result::Err(er) => {
                            return Result::Err(er);
                        },
                    };
                    Result::Ok(FieldElementExpression::IfElse(Box::new(a2), Box::new(b2), Box::new(c2)))
                },
                FieldElementExpression::FunctionCall(key, gens, args) => {
                    let g2 = match fold_generics(f, gens) {
                        Result::Ok(v) => v,
                        Result::Err(er) => {
                            return Result::Err(er);
                        },
                    };
                    let a2 = match fold_expressions(f, args) {
                        Result::Ok(v) => v,
                        Result::Err(er) => {
                            return Result::Err(er);
                        },
                    };
                    Result::Ok(FieldElementExpression::FunctionCall(key, g2, a2))
                },
                FieldElementExpression::Member(s, id) => {
                    let s2 = match fold_struct_expression(f, *s) {
                        Result::Ok(v) => v,
                        Result::Err(er) => {
                            return Result::Err(er);
                        },
                    };
                    Result::Ok(FieldElementExpression::Member(Box::new(s2), id))
                },
                FieldElementExpression::Select(a, i) => {
                    let a2 = match fold_array_expression(f, *a) {
                        Result::Ok(v) => v,
                        Result::Err(er) => {
                            return Result::Err(er);
                        },
                    };
                    let i2 = match fold_uint_expression(f, *i) {
                        Result::Ok(v) => v,
                        Result::Err(er) => {
                            return Result::Err(er);
                        },
                    };
                    Result::Ok(FieldElementExpression::Select(Box::new(a2), Box::new(i2)))
                },
            }
        },
    }
}

pub fn fold_boolean_expression<F: ResultFolder>(f: &mut F, e: BooleanExpression) -> (r: Result<BooleanExpression, CompileError>)
    ensures
        final(f).sv() == sf_boolean_expression::<F::SV>(hooks_of::<F>(), old(f).sv(), e).0,
        r == sf_boolean_expression::<F::SV>(hooks_of::<F>(), old(f).sv(), e).1,
    decreases e,
{
    proof {
        lemma_hooks_of::<F>();
    }
    let hr = match f.hook_boolean_expression(&e) {
        Result::Ok(v) => v,
        Result::Err(er) => {
            return Result::Err(er);
        },
    };
    match hr {
        HookOutcome::Replace(done) => Result::Ok(done),
        HookOutcome::Proceed => {
            match e {
                BooleanExpression::Value(b) => {
                    Result::Ok(BooleanExpression::Value(b))
                },
                BooleanExpression::Identifier(id) => {
                    let id2 = match f.fold_name(id) {
                        Result::Ok(v) => v,
                        Result::Err(er) => {
                            return Result::Err(er);
                        },
                    };
                    Result::Ok(BooleanExpression::Identifier(id2))
                },
                BooleanExpression::FieldEq(a, b) => {
                    let a2 = match fold_field_expression(f, *a) {
                        Result::Ok(v) => v,
                        Result::Err(er) => {
                            return Result::Err(er);
                        },
                    };
                    let b2 = match fold_field_expression(f, *b) {
                        Result::Ok(v) => v,
                        Result::Err(er) => {
                            return Result::Err(er);
                        },
                    };
                    Result::Ok(BooleanExpression::FieldEq(Box::new(a2), Box::new(b2)))
                },
                BooleanExpression::BoolEq(a, b) => {
                    let a2 = match fold_boolean_expression(f, *a) {
                        Result::Ok(v) => v,
                        Result::Err(er) => {
                            return Result::Err(er);
                        },
                    };
                    let b2 = match fold_boolean_expression(f, *b) {
                        Result::Ok(v) => v,
                        Result::Err(er) => {
                            return Result::Err(er);
                        },
                    };
                    Result::Ok(BooleanExpression::BoolEq(Box::new(a2), Box::new(b2)))
                },
                BooleanExpression::ArrayEq(a, b) => {
                    let a2 = match fold_array_expression(f, *a) {
                        Result::Ok(v) => v,
                        Result::Err(er) => {
                            return Result::Err(er);
                        },
                    };
                    let b2 = match fold_array_expression(f, *b) {
                        Result::Ok(v) => v,
                        Result::Err(er) => {
                            return Result::Err(er);
                        },
                    };
                    Result::Ok(BooleanExpression::ArrayEq(Box::new(a2), Box::new(b2)))
                },
                BooleanExpression::StructEq(a, b) => {
                    let a2 = match fold_struct_expression(f, *a) {
                        Result::Ok(v) => v,
                        Result::Err(er) => {
                            return Result::Err(er);
                        },
                    };
                    let b2 = match fold_struct_expression(f, *b) {
                        Result::Ok(v) => v,
                        Result::Err(er) => {
                            return Result::Err(er);
                        },
                    };
                    Result::Ok(BooleanExpression::StructEq(Box::new(a2), Box::new(b2)))
                },
                BooleanExpression::UintEq(a, b) => {
                    let a2 = match fold_uint_expression(f, *a) {
                        Result::Ok(v) => v,
                        Result::Err(er) => {
                            return Result::Err(er);
                        },
                    };
                    let b2 = match fold_uint_expression(f, *b) {
                        Result::Ok(v) => v,
                        Result::Err(er) => {
                            return Result::Err(er);
                        },
                    };
                    Result::Ok(BooleanExpression::UintEq(Box::new(a2), Box::new(b2)))
                },
                BooleanExpression::FieldLt(a, b) => {
                    let a2 = match fold_field_expression(f, *a) {
                        Result::Ok(v) => v,
                        Result::Err(er) => {
                            return Result::Err(er);
                        },
                    };
                    let b2 = match fold_field_expression(f, *b) {
                        Result::Ok(v) => v,
                        Result::Err(er) => {
                            return Result::Err(er);
                        },
                    };
                    Result::Ok(BooleanExpression::FieldLt(Box::new(a2), Box::new(b2)))
                },
                BooleanExpression::FieldLe(a, b) => {
                    let a2 = match fold_field_expression(f, *a) {
                        Result::Ok(v) => v,
                        Result::Err(er) => {
                            return Result::Err(er);
                        },
                    };
                    let b2 = match fold_field_expression(f, *b) {
                        Result::Ok(v) => v,
                        Result::Err(er) => {
                            return Result::Err(er);
                        },
                    };
                    Result::Ok(BooleanExpression::FieldLe(Box::new(a2), Box::new(b2)))
                },
                BooleanExpression::FieldGt(a, b) => {
                    let a2 = match fold_field_expression(f, *a) {
                        Result::Ok(v) => v,
                        Result::Err(er) => {
                            return Result::Err(er);
                        },
                    };
                    let b2 = match fold_field_expression(f, *b) {
                        Result::Ok(v) => v,
                        Result::Err(er) => {
                            return Result::Err(er);
                        },
                    };
                    Result::Ok(BooleanExpression::FieldGt(Box::new(a2), Box::new(b2)))
                },
                BooleanExpression::FieldGe(a, b) => {
                    let a2 = match fold_field_expression(f, *a) {
                        Result::Ok(v) => v,
                        Result::Err(er) => {
                            return Result::Err(er);
                        },
                    };
                    let b2 = match fold_field_expression(f, *b) {
                        Result::Ok(v) => v,
                        Result::Err(er) => {
                            return Result::Err(er);
                        },
                    };
                    Result::Ok(BooleanExpression::FieldGe(Box::new(a2), Box::new(b2)))
                },
                BooleanExpression::UintLt(a, b) => {
                    let a2 = match fold_uint_expression(f, *a) {
                        Result::Ok(v) => v,
                        Result::Err(er) => {
                            return Result::Err(er);
                        },
                    };
                    let b2 = match fold_uint_expression(f, *b) {
                        Result::Ok(v) => v,
                        Result::Err(er) => {
                            return Result::Err(er);
                        },
                    };
                    Result::Ok(BooleanExpression::UintLt(Box::new(a2), Box::new(b2)))
                },
                BooleanExpression::UintLe(a, b) => {
                    let a2 = match fold_uint_expression(f, *a) {
                        Result::Ok(v) => v,
                        Result::Err(er) => {
                            return Result::Err(er);
                        },
                    };
                    let b2 = match fold_uint_expression(f, *b) {
                        Result::Ok(v) => v,
                        Result::Err(er) => {
                            return Result::Err(er);
                        },
                    };
                    Result::Ok(BooleanExpression::UintLe(Box::new(a2), Box::new(b2)))
                },
                BooleanExpression::UintGt(a, b) => {
                    let a2 = match fold_uint_expression(f, *a) {
                        Result::Ok(v) => v,
                        Result::Err(er) => {
                            return Result::Err(er);
                        },
                    };
                    let b2 = match fold_uint_expression(f, *b) {
                        Result::Ok(v) => v,
                        Result::Err(er) => {
                            return Result::Err(er);
                        },
                    };
                    Result::Ok(BooleanExpression::UintGt(Box::new(a2), Box::new(b2)))
                },
                BooleanExpression::UintGe(a, b) => {
                    let a2 = match fold_uint_expression(f, *a) {
                        Result::Ok(v) => v,
                        Result::Err(er) => {
                            return Result::Err(er);
                        },
                    };
                    let b2 = match fold_uint_expression(f, *b) {
                        Result::Ok(v) => v,
                        Result::Err(er) => {
                            return Result::Err(er);
                        },
                    };
                    Result::Ok(BooleanExpression::UintGe(Box::new(a2), Box::new(b2)))
                },
                BooleanExpression::Or(a, b) => {
                    let a2 = match fold_boolean_expression(f, *a) {
                        Result::Ok(v) => v,
                        Result::Err(er) => {
                            return Result::Err(er);
                        },
                    };
                    let b2 = match fold_boolean_expression(f, *b) {
                        Result::Ok(v) => v,
                        Result::Err(er) => {
                            return Result::Err(er);
                        },
                    };
                    Result::Ok(BooleanExpression::Or(Box::new(a2), Box::new(b2)))
                },
                BooleanExpression::And(a, b) => {
                    let a2 = match fold_boolean_expression(f, *a) {
                        Result::Ok(v) => v,
                        Result::Err(er) => {
                            return Result::Err(er);
                        },
                    };
                    let b2 = match fold_boolean_expression(f, *b) {
                        Result::Ok(v) => v,
                        Result::Err(er) => {
                            return Result::Err(er);
                        },
                    };
                    Result::Ok(BooleanExpression::And(Box::new(a2), Box::new(b2)))
                },
                BooleanExpression::Not(a) => {
                    let a2 = match fold_boolean_expression(f, *a) {
                        Result::Ok(v) => v,
                        Result::Err(er) => {
                            return Result::Err(er);
                        },
                    };
                    Result::Ok(BooleanExpression::Not(Box::new(a2)))
                },
                BooleanExpression::FunctionCall(key, gens, args) => {
                    let g2 = match fold_generics(f, gens) {
                        Result::Ok(v) => v,
                        Result::Err(er) => {
                            return Result::Err(er);
                        },
                    };
                    let a2 = match fold_expressions(f, args) {
                        Result::Ok(v) => v,
                        Result::Err(er) => {
                            return Result::Err(er);
                        },
                    };
                    Result::Ok(BooleanExpression::FunctionCall(key, g2, a2))
                },
                BooleanExpression::IfElse(a, b, c) => {
                    let a2 = match fold_boolean_expression(f, *a) {
                        Result::Ok(v) => v,
                        Result::Err(er) => {
                            return Result::Err(er);
                        },
                    };
                    let b2 = match fold_boolean_expression(f, *b) {
                        Result::Ok(v) => v,
                        Result::Err(er) => {
                            return Result::Err(er);
                        },
                    };
                    let c2 = match fold_boolean_expression(f, *c) {
                        Result::Ok(v) => v,
                        Result::Err(er) => {
                            return Result::Err(er);
                        },
                    };
                    Result::Ok(BooleanExpression::IfElse(Box::new(a2), Box::new(b2), Box::new(c2)))
                },
                BooleanExpression::Member(s, id) => {
                    let s2 = match fold_struct_expression(f, *s) {
                        Result::Ok(v) => v,
                        Result::Err(er) => {
                            return Result::Err(er);
                        },
                    };
                    Result::Ok(BooleanExpression::Member(Box::new(s2), id))
                },
                BooleanExpression::Select(a, i) => {
                    let a2 = match fold_array_expression(f, *a) {
                        Result::Ok(v) => v,
                        Result::Err(er) => {
                            return Result::Err(er);
                        },
                    };
                    let i2 = match fold_uint_expression(f, *i) {
                        Result::Ok(v) => v,
                        Result::Err(er) => {
                            return Result::Err(er);
                        },
                    };
                    Result::Ok(BooleanExpression::Select(Box::new(a2), Box::new(i2)))
                },
            }
        },
    }
}

pub fn fold_array_expression<F: ResultFolder>(f: &mut F, e: ArrayExpression) -> (r: Result<ArrayExpression, CompileError>)
    ensures
        final(f).sv() == sf_array_expression::<F::SV>(hooks_of::<F>(), old(f).sv(), e).0,
        r == sf_array_expression::<F::SV>(hooks_of::<F>(), old(f).sv(), e).1,
    decreases e,
{
    proof {
        lemma_hooks_of::<F>();
    }
    let hr = match f.hook_array_expression(&e) {
        Result::Ok(v) => v,
        Result::Err(er) => {
            return Result::Err(er);
        },
    };
    match hr {
        HookOutcome::Replace(done) => Result::Ok(done),
        HookOutcome::Proceed => {
            let ArrayExpression { ty, inner } = e;
            let t2 = match fold_array_type(f, *ty) {
                Result::Ok(v) => v,
                Result::Err(er) => {
                    return Result::Err(er);
                },
            };
            let i2 = match fold_array_expression_inner(f, &t2, inner) {
                Result::Ok(v) => v,
                Result::Err(er) => {
                    return Result::Err(er);
                },
            };
            Result::Ok(ArrayExpression { ty: Box::new(t2), inner: i2 })
        },
    }
}

pub fn fold_struct_expression<F: ResultFolder>(f: &mut F, e: StructExpression) -> (r: Result<StructExpression, CompileError>)
    ensures
        final(f).sv() == sf_struct_expression::<F::SV>(hooks_of::<F>(), old(f).sv(), e).0,
        r == sf_struct_expression::<F::SV>(hooks_of::<F>(), old(f).sv(), e).1,
    decreases e,
{
    proof {
        lemma_hooks_of::<F>();
    }
    let hr = match f.hook_struct_expression(&e) {
        Result::Ok(v) => v,
        Result::Err(er) => {
            return Result::Err(er);
        },
    };
    match hr {
        HookOutcome::Replace(done) => Result::Ok(done),
        HookOutcome::Proceed => {
            let StructExpression { ty, inner } = e;
            let t2 = match fold_struct_type(f, ty) {
                Result::Ok(v) => v,
                Result::Err(er) => {
                    return Result::Err(er);
                },
            };
            let i2 = match fold_struct_expression_inner(f, &t2, inner) {
                Result::Ok(v) => v,
                Result::Err(er) => {
                    return Result::Err(er);
                },
            };
            Result::Ok(StructExpression { ty: t2, inner: i2 })
        },
    }
}

pub fn fold_expression<F: ResultFolder>(f: &mut F, e: TypedExpression) -> (r: Result<TypedExpression, CompileError>)
    ensures
        final(f).sv() == sf_expression::<F::SV>(hooks_of::<F>(), old(f).sv(), e).0,
        r == sf_expression::<F::SV>(hooks_of::<F>(), old(f).sv(), e).1,
    decreases e,
{
    proof {
        lemma_hooks_of::<F>();
    }
    let hr = match f.hook_expression(&e) {
        Result::Ok(v) => v,
        Result::Err(er) => {
            return Result::Err(er);
        },
    };
    match hr {
        HookOutcome::Replace(done) => Result::Ok(done),
        HookOutcome::Proceed => {
            match e {
                TypedExpression::FieldElement(x) => {
                    let x2 = match fold_field_expression(f, *x) {
                        Result::Ok(v) => v,
                        Result::Err(er) => {
                            return Result::Err(er);
                        },
                    };
                    Result::Ok(TypedExpression::FieldElement(Box::new(x2)))
                },
                TypedExpression::Boolean(x) => {
                    let x2 = match fold_boolean_expression(f, *x) {
                        Result::Ok(v) => v,
                        Result::Err(er) => {
                            return Result::Err(er);
                        },
                    };
                    Result::Ok(TypedExpression::Boolean(Box::new(x2)))
                },
                TypedExpression::Uint(x) => {
                    let x2 = match fold_uint_expression(f, *x) {
                        Result::Ok(v) => v,
                        Result::Err(er) => {
                            return Result::Err(er);
                        },
                    };
                    Result::Ok(TypedExpression::Uint(Box::new(x2)))
                },
                TypedExpression::Array(x) => {
                    let x2 = match fold_array_expression(f, *x) {
                        Result::Ok(v) => v,
                        Result::Err(er) => {
                            return Result::Err(er);
                        },
                    };
                    Result::Ok(TypedExpression::Array(Box::new(x2)))
                },
                TypedExpression::Struct(x) => {
                    let x2 = match fold_struct_expression(f, *x) {
                        Result::Ok(v) => v,
                        Result::Err(er) => {
                            return Result::Err(er);
                        },
                    };
                    Result::Ok(TypedExpression::Struct(Box::new(x2)))
                },
                TypedExpression::Int(x) => {
                    let x2 = match fold_int_expression(f, *x) {
                        Result::Ok(v) => v,
                        Result::Err(er) => {
                            return Result::Err(er);
                        },
                    };
                    Result::Ok(TypedExpression::Int(Box::new(x2)))
                },
            }
        },
    }
}

pub fn fold_expressions<F: ResultFolder>(f: &mut F, e: List<TypedExpression>) -> (r: Result<List<TypedExpression>, CompileError>)
    ensures
        final(f).sv() == sf_expressions::<F::SV>(hooks_of::<F>(), old(f).sv(), e).0,
        r == sf_expressions::<F::SV>(hooks_of::<F>(), old(f).sv(), e).1,
    decreases e,
{
    proof {
        lemma_hooks_of::<F>();
    }
    match e {
        List::Nil => Result::Ok(List::Nil),
        List::Cons(x, rest) => {
            let x2 = match fold_expression(f, *x) {
                Result::Ok(v) => v,
                Result::Err(er) => {
                    return Result::Err(er);
                },
            };
            let rest2 = match fold_expressions(f, *rest) {
                Result::Ok(v) => v,
                Result::Err(er) => {
                    return Result::Err(er);
                },
            };
            Result::Ok(List::Cons(Box::new(x2), Box::new(rest2)))
        },
    }
}

pub fn fold_expression_or_spread<F: ResultFolder>(f: &mut F, e: TypedExpressionOrSpread) -> (r: Result<TypedExpressionOrSpread, CompileError>)
    ensures
        final(f).sv() == sf_expression_or_spread::<F::SV>(hooks_of::<F>(), old(f).sv(), e).0,
        r == sf_expression_or_spread::<F::SV>(hooks_of::<F>(), old(f).sv(), e).1,
    decreases e,
{
    proof {
        lemma_hooks_of::<F>();
    }
    let hr = match f.hook_expression_or_spread(&e) {
        Result::Ok(v) => v,
        Result::Err(er) => {
            return Result::Err(er);
        },
    };
    match hr {
        HookOutcome::Replace(done) => Result::Ok(done),
        HookOutcome::Proceed => {
            match e {
                TypedExpressionOrSpread::Expression(x) => {
                    let x2 = match fold_expression(f, x) {
                        Result::Ok(v) => v,
                        Result::Err(er) => {
                            return Result::Err(er);
                        },
                    };
                    Result::Ok(TypedExpressionOrSpread::Expression(x2))
                },
                TypedExpressionOrSpread::Spread(s) => {
                    let s2 = match fold_spread(f, s) {
                        Result::Ok(v) => v,
                        Result::Err(er) => {
                            return Result::Err(er);
                        },
                    };
                    Result::Ok(TypedExpressionOrSpread::Spread(s2))
                },
            }
        },
    }
}

pub fn fold_or_spreads<F: ResultFolder>(f: &mut F, e: List<TypedExpressionOrSpread>) -> (r: Result<List<TypedExpressionOrSpread>, CompileError>)
    ensures
        final(f).sv() == sf_or_spreads::<F::SV>(hooks_of::<F>(), old(f).sv(), e).0,
        r == sf_or_spreads::<F::SV>(hooks_of::<F>(), old(f).sv(), e).1,
    decreases e,
{
    proof {
        lemma_hooks_of::<F>();
    }
    match e {
        List::Nil => Result::Ok(List::Nil),
        List::Cons(x, rest) => {
            let x2 = match fold_expression_or_spread(f, *x) {
                Result::Ok(v) => v,
                Result::Err(er) => {
                    return Result::Err(er);
                },
            };
            let rest2 = match fold_or_spreads(f, *rest) {
                Result::Ok(v) => v,
                Result::Err(er) => {
                    return Result::Err(er);
                },
            };
            Result::Ok(List::Cons(Box::new(x2), Box::new(rest2)))
        },
    }
}

pub fn fold_spread<F: ResultFolder>(f: &mut F, e: TypedSpread) -> (r: Result<TypedSpread, CompileError>)
    ensures
        final(f).sv() == sf_spread::<F::SV>(hooks_of::<F>(), old(f).sv(), e).0,
        r == sf_spread::<F::SV>(hooks_of::<F>(), old(f).sv(), e).1,
    decreases e,
{
    proof {
        lemma_hooks_of::<F>();
    }
    let hr = match f.hook_spread(&e) {
        Result::Ok(v) => v,
        Result::Err(er) => {
            return Result::Err(er);
        },
    };
    match hr {
        HookOutcome::Replace(done) => Result::Ok(done),
        HookOutcome::Proceed => {
            let TypedSpread { array } = e;
            let a2 = match fold_array_expression(f, array) {
                Result::Ok(v) => v,
                Result::Err(er) => {
                    return Result::Err(er);
                },
            };
            Result::Ok(TypedSpread { array: a2 })
        },
    }
}

pub fn fold_assignee<F: ResultFolder>(f: &mut F, e: TypedAssignee) -> (r: Result<TypedAssignee, CompileError>)
    ensures
        final(f).sv() == sf_assignee::<F::SV>(hooks_of::<F>(), old(f).sv(), e).0,
        r == sf_assignee::<F::SV>(hooks_of::<F>(), old(f).sv(), e).1,
    decreases e,
{
    proof {
        lemma_hooks_of::<F>();
    }
    let hr = match f.hook_assignee(&e) {
        Result::Ok(v) => v,
        Result::Err(er) => {
            return Result::Err(er);
        },
    };
    match hr {
        HookOutcome::Replace(done) => Result::Ok(done),
        HookOutcome::Proceed => {
            match e {
                TypedAssignee::Identifier(v) => {
                    let v2 = match fold_variable(f, v) {
                        Result::Ok(v) => v,
                        Result::Err(er) => {
                            return Result::Err(er);
                        },
                    };
                    Result::Ok(TypedAssignee::Identifier(v2))
                },
                TypedAssignee::Select(a, i) => {
                    let a2 = match fold_assignee(f, *a) {
                        Result::Ok(v) => v,
                        Result::Err(er) => {
                            return Result::Err(er);
                        },
                    };
                    let i2 = match fold_uint_expression(f, *i) {
                        Result::Ok(v) => v,
                        Result::Err(er) => {
                            return Result::Err(er);
                        },
                    };
                    Result::Ok(TypedAssignee::Select(Box::new(a2), Box::new(i2)))
                },
                TypedAssignee::Member(a, m) => {
                    let a2 = match fold_assignee(f, *a) {
                        Result::Ok(v) => v,
                        Result::Err(er) => {
                            return Result::Err(er);
                        },
                    };
                    Result::Ok(TypedAssignee::Member(Box::new(a2), m))
                },
            }
        },
    }
}

pub fn fold_assignees<F: ResultFolder>(f: &mut F, e: List<TypedAssignee>) -> (r: Result<List<TypedAssignee>, CompileError>)
    ensures
        final(f).sv() == sf_assignees::<F::SV>(hooks_of::<F>(), old(f).sv(), e).0,
        r == sf_assignees::<F::SV>(hooks_of::<F>(), old(f).sv(), e).1,
    decreases e,
{
    proof {
        lemma_hooks_of::<F>();
    }
    match e {
        List::Nil => Result::Ok(List::Nil),
        List::Cons(x, rest) => {
            let x2 = match fold_assignee(f, *x) {
                Result::Ok(v) => v,
                Result::Err(er) => {
                    return Result::Err(er);
                },
            };
            let rest2 = match fold_assignees(f, *rest) {
                Result::Ok(v) => v,
                Result::Err(er) => {
                    return Result::Err(er);
                },
            };
            Result::Ok(List::Cons(Box::new(x2), Box::new(rest2)))
        },
    }
}

pub fn fold_types<F: ResultFolder>(f: &mut F, e: List<Type>) -> (r: Result<List<Type>, CompileError>)
    ensures
        final(f).sv() == sf_types::<F::SV>(hooks_of::<F>(), old(f).sv(), e).0,
        r == sf_types::<F::SV>(hooks_of::<F>(), old(f).sv(), e).1,
    decreases e,
{
    proof {
        lemma_hooks_of::<F>();
    }
    match e {
        List::Nil => Result::Ok(List::Nil),
        List::Cons(x, rest) => {
            let x2 = match fold_type(f, *x) {
                Result::Ok(v) => v,
                Result::Err(er) => {
                    return Result::Err(er);
                },
            };
            let rest2 = match fold_types(f, *rest) {
                Result::Ok(v) => v,
                Result::Err(er) => {
                    return Result::Err(er);
                },
            };
            Result::Ok(List::Cons(Box::new(x2), Box::new(rest2)))
        },
    }
}

pub fn fold_params<F: ResultFolder>(f: &mut F, e: List<DeclarationParameter>) -> (r: Result<List<DeclarationParameter>, CompileError>)
    ensures
        final(f).sv() == sf_params::<F::SV>(hooks_of::<F>(), old(f).sv(), e).0,
        r == sf_params::<F::SV>(hooks_of::<F>(), old(f).sv(), e).1,
    decreases e,
{
    proof {
        lemma_hooks_of::<F>();
    }
    match e {
        List::Nil => Result::Ok(List::Nil),
        List::Cons(x, rest) => {
            let x2 = match fold_parameter(f, *x) {
                Result::Ok(v) => v,
                Result::Err(er) => {
                    return Result::Err(er);
                },
            };
            let rest2 = match fold_params(f, *rest) {
                Result::Ok(v) => v,
                Result::Err(er) => {
                    return Result::Err(er);
                },
            };
            Result::Ok(List::Cons(Box::new(x2), Box::new(rest2)))
        },
    }
}

pub fn fold_expression_list<F: ResultFolder>(f: &mut F, e: TypedExpressionList) -> (r: Result<TypedExpressionList, CompileError>)
    ensures
        final(f).sv() == sf_expression_list::<F::SV>(hooks_of::<F>(), old(f).sv(), e).0,
        r == sf_expression_list::<F::SV>(hooks_of::<F>(), old(f).sv(), e).1,
    decreases e,
{
    proof {
        lemma_hooks_of::<F>();
    }
    let hr = match f.hook_expression_list(&e) {
        Result::Ok(v) => v,
        Result::Err(er) => {
            return Result::Err(er);
        },
    };
    match hr {
        HookOutcome::Replace(done) => Result::Ok(done),
        HookOutcome::Proceed => {
            match e {
                TypedExpressionList::FunctionCall(key, gens, args, tys) => {
                    let g2 = match fold_generics(f, gens) {
                        Result::Ok(v) => v,
                        Result::Err(er) => {
                            return Result::Err(er);
                        },
                    };
                    let a2 = match fold_expressions(f, args) {
                        Result::Ok(v) => v,
                        Result::Err(er) => {
                            return Result::Err(er);
                        },
                    };
                    let t2 = match fold_types(f, tys) {
                        Result::Ok(v) => v,
                        Result::Err(er) => {
                            return Result::Err(er);
                        },
                    };
                    Result::Ok(TypedExpressionList::FunctionCall(key, g2, a2, t2))
                },
            }
        },
    }
}

pub fn fold_statement<F: ResultFolder>(f: &mut F, e: TypedStatement) -> (r: Result<List<TypedStatement>, CompileError>)
    ensures
        final(f).sv() == sf_statement::<F::SV>(hooks_of::<F>(), old(f).sv(), e).0,
        r == sf_statement::<F::SV>(hooks_of::<F>(), old(f).sv(), e).1,
    decreases e,
{
    proof {
        lemma_hooks_of::<F>();
    }
    let hr = match f.hook_statement(&e) {
        Result::Ok(v) => v,
        Result::Err(er) => {
            return Result::Err(er);
        },
    };
    match hr {
        HookOutcome::Replace(done) => Result::Ok(done),
        HookOutcome::Proceed => {
            match e {
                TypedStatement::Return(es) => {
                    let es2 = match fold_expressions(f, es) {
                        Result::Ok(v) => v,
                        Result::Err(er) => {
                            return Result::Err(er);
                        },
                    };
                    Result::Ok(List::Cons(Box::new(TypedStatement::Return(es2)), Box::new(List::Nil)))
                },
                TypedStatement::Definition(a, x) => {
                    let a2 = match fold_assignee(f, a) {
                        Result::Ok(v) => v,
                        Result::Err(er) => {
                            return Result::Err(er);
                        },
                    };
                    let x2 = match fold_expression(f, x) {
                        Result::Ok(v) => v,
                        Result::Err(er) => {
                            return Result::Err(er);
                        },
                    };
                    Result::Ok(List::Cons(Box::new(TypedStatement::Definition(a2, x2)), Box::new(List::Nil)))
                },
                TypedStatement::Declaration(v) => {
                    let v2 = match fold_variable(f, v) {
                        Result::Ok(v) => v,
                        Result::Err(er) => {
                            return Result::Err(er);
                        },
                    };
                    Result::Ok(List::Cons(Box::new(TypedStatement::Declaration(v2)), Box::new(List::Nil)))
                },
                TypedStatement::Assertion(b) => {
                    let b2 = match fold_boolean_expression(f, b) {
                        Result::Ok(v) => v,
                        Result::Err(er) => {
                            return Result::Err(er);
                        },
                    };
                    Result::Ok(List::Cons(Box::new(TypedStatement::Assertion(b2)), Box::new(List::Nil)))
                },
                TypedStatement::For(v, lo, hi, body) => {
                    let v2 = match fold_variable(f, v) {
                        Result::Ok(v) => v,
                        Result::Err(er) => {
                            return Result::Err(er);
                        },
                    };
                    let lo2 = match fold_uint_expression(f, lo) {
                        Result::Ok(v) => v,
                        Result::Err(er) => {
                            return Result::Err(er);
                        },
                    };
                    let hi2 = match fold_uint_expression(f, hi) {
                        Result::Ok(v) => v,
                        Result::Err(er) => {
                            return Result::Err(er);
                        },
                    };
                    let body2 = match fold_statements(f, body) {
                        Result::Ok(v) => v,
                        Result::Err(er) => {
                            return Result::Err(er);
                        },
                    };
                    Result::Ok(List::Cons(Box::new(TypedStatement::For(v2, lo2, hi2, body2)), Box::new(List::Nil)))
                },
                TypedStatement::MultipleDefinition(asgs, el) => {
                    let a2 = match fold_assignees(f, asgs) {
                        Result::Ok(v) => v,
                        Result::Err(er) => {
                            return Result::Err(er);
                        },
                    };
                    let e2 = match fold_expression_list(f, el) {
                        Result::Ok(v) => v,
                        Result::Err(er) => {
                            return Result::Err(er);
                        },
                    };
                    Result::Ok(List::Cons(Box::new(TypedStatement::MultipleDefinition(a2, e2)), Box::new(List::Nil)))
                },
            }
        },
    }
}

pub fn fold_statements<F: ResultFolder>(f: &mut F, e: List<TypedStatement>) -> (r: Result<List<TypedStatement>, CompileError>)
    ensures
        final(f).sv() == sf_statements::<F::SV>(hooks_of::<F>(), old(f).sv(), e).0,
        r == sf_statements::<F::SV>(hooks_of::<F>(), old(f).sv(), e).1,
    decreases e,
{
    proof {
        lemma_hooks_of::<F>();
    }
    match e {
        List::Nil => Result::Ok(List::Nil),
        List::Cons(s, rest) => {
            let out_s = match fold_statement(f, *s) {
                Result::Ok(v) => v,
                Result::Err(er) => {
                    return Result::Err(er);
                },
            };
            let rest2 = match fold_statements(f, *rest) {
                Result::Ok(v) => v,
                Result::Err(er) => {
                    return Result::Err(er);
                },
            };
            Result::Ok(list_concat(out_s, rest2))
        },
    }
}

pub fn fold_function<F: ResultFolder>(f: &mut F, e: TypedFunction) -> (r: Result<TypedFunction, CompileError>)
    ensures
        final(f).sv() == sf_function::<F::SV>(hooks_of::<F>(), old(f).sv(), e).0,
        r == sf_function::<F::SV>(hooks_of::<F>(), old(f).sv(), e).1,
    decreases e,
{
    proof {
        lemma_hooks_of::<F>();
    }
    let hr = match f.hook_function(&e) {
        Result::Ok(v) => v,
        Result::Err(er) => {
            return Result::Err(er);
        },
    };
    match hr {
        HookOutcome::Replace(done) => Result::Ok(done),
        HookOutcome::Proceed => {
            let TypedFunction { generics, arguments, statements, returns: rts } = e;
            let a2 = match fold_params(f, arguments) {
                Result::Ok(v) => v,
                Result::Err(er) => {
                    return Result::Err(er);
                },
            };
            let s2 = match fold_statements(f, statements) {
                Result::Ok(v) => v,
                Result::Err(er) => {
                    return Result::Err(er);
                },
            };
            Result::Ok(TypedFunction { generics, arguments: a2, statements: s2, returns: rts })
        },
    }
}

pub fn fold_function_symbol<F: ResultFolder>(f: &mut F, e: TypedFunctionSymbol) -> (r: Result<TypedFunctionSymbol, CompileError>)
    ensures
        final(f).sv() == sf_function_symbol::<F::SV>(hooks_of::<F>(), old(f).sv(), e).0,
        r == sf_function_symbol::<F::SV>(hooks_of::<F>(), old(f).sv(), e).1,
    decreases e,
{
    proof {
        lemma_hooks_of::<F>();
    }
    let hr = match f.hook_function_symbol(&e) {
        Result::Ok(v) => v,
        Result::Err(er) => {
            return Result::Err(er);
        },
    };
    match hr {
        HookOutcome::Replace(done) => Result::Ok(done),
        HookOutcome::Proceed => {
            match e {
                TypedFunctionSymbol::Here(fun) => {
                    let f2 = match fold_function(f, fun) {
                        Result::Ok(v) => v,
                        Result::Err(er) => {
                            return Result::Err(er);
                        },
                    };
                    Result::Ok(TypedFunctionSymbol::Here(f2))
                },
                there => {
                    Result::Ok(there)
                },
            }
        },
    }
}

pub fn fold_functions<F: ResultFolder>(f: &mut F, e: List<(Identifier, TypedFunctionSymbol)>) -> (r: Result<List<(Identifier, TypedFunctionSymbol)>, CompileError>)
    ensures
        final(f).sv() == sf_functions::<F::SV>(hooks_of::<F>(), old(f).sv(), e).0,
        r == sf_functions::<F::SV>(hooks_of::<F>(), old(f).sv(), e).1,
    decreases e,
{
    proof {
        lemma_hooks_of::<F>();
    }
    match e {
        List::Nil => Result::Ok(List::Nil),
        List::Cons(p, rest) => {
            let (key, item) = *p;
            let s2 = match fold_function_symbol(f, item) {
                Result::Ok(v) => v,
                Result::Err(er) => {
                    return Result::Err(er);
                },
            };
            let rest2 = match fold_functions(f, *rest) {
                Result::Ok(v) => v,
                Result::Err(er) => {
                    return Result::Err(er);
                },
            };
            Result::Ok(List::Cons(Box::new((key, s2)), Box::new(rest2)))
        },
    }
}

pub fn fold_module<F: ResultFolder>(f: &mut F, e: TypedModule) -> (r: Result<TypedModule, CompileError>)
    ensures
        final(f).sv() == sf_module::<F::SV>(hooks_of::<F>(), old(f).sv(), e).0,
        r == sf_module::<F::SV>(hooks_of::<F>(), old(f).sv(), e).1,
    decreases e,
{
    proof {
        lemma_hooks_of::<F>();
    }
    let hr = match f.hook_module(&e) {
        Result::Ok(v) => v,
        Result::Err(er) => {
            return Result::Err(er);
        },
    };
    match hr {
        HookOutcome::Replace(done) => Result::Ok(done),
        HookOutcome::Proceed => {
            let TypedModule { functions } = e;
            let fs = match fold_functions(f, functions) {
                Result::Ok(v) => v,
                Result::Err(er) => {
                    return Result::Err(er);
                },
            };
            Result::Ok(TypedModule { functions: fs })
        },
    }
}

pub fn fold_modules<F: ResultFolder>(f: &mut F, e: List<(Identifier, TypedModule)>) -> (r: Result<List<(Identifier, TypedModule)>, CompileError>)
    ensures
        final(f).sv() == sf_modules::<F::SV>(hooks_of::<F>(), old(f).sv(), e).0,
        r == sf_modules::<F::SV>(hooks_of::<F>(), old(f).sv(), e).1,
    decreases e,
{
    proof {
        lemma_hooks_of::<F>();
    }
    match e {
        List::Nil => Result::Ok(List::Nil),
        List::Cons(p, rest) => {
            let (key, item) = *p;
            let s2 = match fold_module(f, item) {
                Result::Ok(v) => v,
                Result::Err(er) => {
                    return Result::Err(er);
                },
            };
            let rest2 = match fold_modules(f, *rest) {
                Result::Ok(v) => v,
                Result::Err(er) => {
                    return Result::Err(er);
                },
            };
            Result::Ok(List::Cons(Box::new((key, s2)), Box::new(rest2)))
        },
    }
}

pub fn fold_program<F: ResultFolder>(f: &mut F, e: TypedProgram) -> (r: Result<TypedProgram, CompileError>)
    ensures
        final(f).sv() == sf_program::<F::SV>(hooks_of::<F>(), old(f).sv(), e).0,
        r == sf_program::<F::SV>(hooks_of::<F>(), old(f).sv(), e).1,
    decreases e,
{
    proof {
        lemma_hooks_of::<F>();
    }
    let hr = match f.hook_program(&e) {
        Result::Ok(v) => v,
        Result::Err(er) => {
            return Result::Err(er);
        },
    };
    match hr {
        HookOutcome::Replace(done) => Result::Ok(done),
        HookOutcome::Proceed => {
            let TypedProgram { modules, main } = e;
            let ms = match fold_modules(f, modules) {
                Result::Ok(v) => v,
                Result::Err(er) => {
                    return Result::Err(er);
                },
            };
            Result::Ok(TypedProgram { modules: ms, main })
        },
    }
}

pub fn fold_uint_expression_inner<F: ResultFolder>(f: &mut F, _bitwidth: u32, e: UExpressionInner) -> (r: Result<UExpressionInner, CompileError>)
    ensures
        final(f).sv() == sf_uint_expression_inner::<F::SV>(hooks_of::<F>(), old(f).sv(), e).0,
        r == sf_uint_expression_inner::<F::SV>(hooks_of::<F>(), old(f).sv(), e).1,
    decreases e,
{
    proof {
        lemma_hooks_of::<F>();
    }
    let hr = match f.hook_uint_expression_inner(&e) {
        Result::Ok(v) => v,
        Result::Err(er) => {
            return Result::Err(er);
        },
    };
    match hr {
        HookOutcome::Replace(done) => Result::Ok(done),
        HookOutcome::Proceed => {
            match e {
                UExpressionInner::Value(v) => {
                    Result::Ok(UExpressionInner::Value(v))
                },
                UExpressionInner::Identifier(id) => {
                    let id2 = match f.fold_name(id) {
                        Result::Ok(v) => v,
                        Result::Err(er) => {
                            return Result::Err(er);
                        },
                    };
                    Result::Ok(UExpressionInner::Identifier(id2))
                },
                UExpressionInner::Add(a, b) => {
                    let a2 = match fold_uint_expression(f, *a) {
                        Result::Ok(v) => v,
                        Result::Err(er) => {
                            return Result::Err(er);
                        },
                    };
                    let b2 = match fold_uint_expression(f, *b) {
                        Result::Ok(v) => v,
                        Result::Err(er) => {
                            return Result::Err(er);
                        },
                    };
                    Result::Ok(UExpressionInner::Add(Box::new(a2), Box::new(b2)))
                },
                UExpressionInner::Sub(a, b) => {
                    let a2 = match fold_uint_expression(f, *a) {
                        Result::Ok(v) => v,
                        Result::Err(er) => {
                            return Result::Err(er);
                        },
                    };
                    let b2 = match fold_uint_expression(f, *b) {
                        Result::Ok(v) => v,
                        Result::Err(er) => {
                            return Result::Err(er);
                        },
                    };
                    Result::Ok(UExpressionInner::Sub(Box::new(a2), Box::new(b2)))
                },
                UExpressionInner::FloorSub(a, b) => {
                    let a2 = match fold_uint_expression(f, *a) {
                        Result::Ok(v) => v,
                        Result::Err(er) => {
                            return Result::Err(er);
                        },
                    };
                    let b2 = match fold_uint_expression(f, *b) {
                        Result::Ok(v) => v,
                        Result::Err(er) => {
                            return Result::Err(er);
                        },
                    };
                    Result::Ok(UExpressionInner::FloorSub(Box::new(a2), Box::new(b2)))
                },
                UExpressionInner::Mult(a, b) => {
                    let a2 = match fold_uint_expression(f, *a) {
                        Result::Ok(v) => v,
                        Result::Err(er) => {
                            return Result::Err(er);
                        },
                    };
                    let b2 = match fold_uint_expression(f, *b) {
                        Result::Ok(v) => v,
                        Result::Err(er) => {
                            return Result::Err(er);
                        },
                    };
                    Result::Ok(UExpressionInner::Mult(Box::new(a2), Box::new(b2)))
                },
                UExpressionInner::Div(a, b) => {
                    let a2 = match fold_uint_expression(f, *a) {
                        Result::Ok(v) => v,
                        Result::Err(er) => {
                            return Result::Err(er);
                        },
                    };
                    let b2 = match fold_uint_expression(f, *b) {
                        Result::Ok(v) => v,
                        Result::Err(er) => {
                            return Result::Err(er);
                        },
                    };
                    Result::Ok(UExpressionInner::Div(Box::new(a2), Box::new(b2)))
                },
                UExpressionInner::Rem(a, b) => {
                    let a2 = match fold_uint_expression(f, *a) {
                        Result::Ok(v) => v,
                        Result::Err(er) => {
                            return Result::Err(er);
                        },
                    };
                    let b2 = match fold_uint_expression(f, *b) {
                        Result::Ok(v) => v,
                        Result::Err(er) => {
                            return Result::Err(er);
                        },
                    };
                    Result::Ok(UExpressionInner::Rem(Box::new(a2), Box::new(b2)))
                },
                UExpressionInner::Xor(a, b) => {
                    let a2 = match fold_uint_expression(f, *a) {
                        Result::Ok(v) => v,
                        Result::Err(er) => {
                            return Result::Err(er);
                        },
                    };
                    let b2 = match fold_uint_expression(f, *b) {
                        Result::Ok(v) => v,
                        Result::Err(er) => {
                            return Result::Err(er);
                        },
                    };
                    Result::Ok(UExpressionInner::Xor(Box::new(a2), Box::new(b2)))
                },
                UExpressionInner::And(a, b) => {
                    let a2 = match fold_uint_expression(f, *a) {
                        Result::Ok(v) => v,
                        Result::Err(er) => {
                            return Result::Err(er);
                        },
                    };
                    let b2 = match fold_uint_expression(f, *b) {
                        Result::Ok(v) => v,
                        Result::Err(er) => {
                            return Result::Err(er);
                        },
                    };
                    Result::Ok(UExpressionInner::And(Box::new(a2), Box::new(b2)))
                },
                UExpressionInner::Or(a, b) => {
                    let a2 = match fold_uint_expression(f, *a) {
                        Result::Ok(v) => v,
                        Result::Err(er) => {
                            return Result::Err(er);
                        },
                    };
                    let b2 = match fold_uint_expression(f, *b) {
                        Result::Ok(v) => v,
                        Result::Err(er) => {
                            return Result::Err(er);
                        },
                    };
                    Result::Ok(UExpressionInner::Or(Box::new(a2), Box::new(b2)))
                },
                UExpressionInner::LeftShift(a, b) => {
                    let a2 = match fold_uint_expression(f, *a) {
                        Result::Ok(v) => v,
                        Result::Err(er) => {
                            return Result::Err(er);
                        },
                    };
                    let b2 = match fold_field_expression(f, *b) {
                        Result::Ok(v) => v,
                        Result::Err(er) => {
                            return Result::Err(er);
                        },
                    };
                    Result::Ok(UExpressionInner::LeftShift(Box::new(a2), Box::new(b2)))
                },
                UExpressionInner::RightShift(a, b) => {
                    let a2 = match fold_uint_expression(f, *a) {
                        Result::Ok(v) => v,
                        Result::Err(er) => {
                            return Result::Err(er);
                        },
                    };
                    let b2 = match fold_field_expression(f, *b) {
                        Result::Ok(v) => v,
                        Result::Err(er) => {
                            return Result::Err(er);
                        },
                    };
                    Result::Ok(UExpressionInner::RightShift(Box::new(a2), Box::new(b2)))
                },
                UExpressionInner::Not(a) => {
                    let a2 = match fold_uint_expression(f, *a) {
                        Result::Ok(v) => v,
                        Result::Err(er) => {
                            return Result::Err(er);
                        },
                    };
                    Result::Ok(UExpressionInner::Not(Box::new(a2)))
                },
                UExpressionInner::FunctionCall(key, gens, args) => {
                    let g2 = match fold_generics(f, gens) {
                        Result::Ok(v) => v,
                        Result::Err(er) => {
                            return Result::Err(er);
                        },
                    };
                    let a2 = match fold_expressions(f, args) {
                        Result::Ok(v) => v,
                        Result::Err(er) => {
                            return Result::Err(er);
                        },
                    };
                    Result::Ok(UExpressionInner::FunctionCall(key, g2, a2))
                },
                UExpressionInner::Select(a, i) => {
                    let a2 = match fold_array_expression(f, *a) {
                        Result::Ok(v) => v,
                        Result::Err(er) => {
                            return Result::Err(er);
                        },
                    };
                    let i2 = match fold_uint_expression(f, *i) {
                        Result::Ok(v) => v,
                        Result::Err(er) => {
                            return Result::Err(er);
                        },
                    };
                    Result::Ok(UExpressionInner::Select(Box::new(a2), Box::new(i2)))
                },
                UExpressionInner::IfElse(a, b, c) => {
                    let a2 = match fold_boolean_expression(f, *a) {
                        Result::Ok(v) => v,
                        Result::Err(er) => {
                            return Result::Err(er);
                        },
                    };
                    let b2 = match fold_uint_expression(f, *b) {
                        Result::Ok(v) => v,
                        Result::Err(er) => {
                            return Result::Err(er);
                        },
                    };
                    let c2 = match fold_uint_expression(f, *c) {
                        Result::Ok(v) => v,
                        Result::Err(er) => {
                            return Result::Err(er);
                        },
                    };
                    Result::Ok(UExpressionInner::IfElse(Box::new(a2), Box::new(b2), Box::new(c2)))
                },
                UExpressionInner::Member(s, id) => {
                    let s2 = match fold_struct_expression(f, *s) {
                        Result::Ok(v) => v,
                        Result::Err(er) => {
                            return Result::Err(er);
                        },
                    };
                    Result::Ok(UExpressionInner::Member(Box::new(s2), id))
                },
            }
        },
    }
}

pub fn fold_array_expression_inner<F: ResultFolder>(f: &mut F, _ty: &ArrayType, e: ArrayExpressionInner) -> (r: Result<ArrayExpressionInner, CompileError>)
    ensures
        final(f).sv() == sf_array_expression_inner::<F::SV>(hooks_of::<F>(), old(f).sv(), e).0,
        r == sf_array_expression_inner::<F::SV>(hooks_of::<F>(), old(f).sv(), e).1,
    decreases e,
{
    proof {
        lemma_hooks_of::<F>();
    }
    let hr = match f.hook_array_expression_inner(&e) {
        Result::Ok(v) => v,
        Result::Err(er) => {
            return Result::Err(er);
        },
    };
    match hr {
        HookOutcome::Replace(done) => Result::Ok(done),
        HookOutcome::Proceed => {
            match e {
                ArrayExpressionInner::Identifier(id) => {
                    let id2 = match f.fold_name(id) {
                        Result::Ok(v) => v,
                        Result::Err(er) => {
                            return Result::Err(er);
                        },
                    };
                    Result::Ok(ArrayExpressionInner::Identifier(id2))
                },
                ArrayExpressionInner::Value(l) => {
                    let l2 = match fold_or_spreads(f, l) {
                        Result::Ok(v) => v,
                        Result::Err(er) => {
                            return Result::Err(er);
                        },
                    };
                    Result::Ok(ArrayExpressionInner::Value(l2))
                },
                ArrayExpressionInner::FunctionCall(key, gens, args) => {
                    let g2 = match fold_generics(f, gens) {
                        Result::Ok(v) => v,
                        Result::Err(er) => {
                            return Result::Err(er);
                        },
                    };
                    let a2 = match fold_expressions(f, args) {
                        Result::Ok(v) => v,
                        Result::Err(er) => {
                            return Result::Err(er);
                        },
                    };
                    Result::Ok(ArrayExpressionInner::FunctionCall(key, g2, a2))
                },
                ArrayExpressionInner::IfElse(a, b, c) => {
                    let a2 = match fold_boolean_expression(f, *a) {
                        Result::Ok(v) => v,
                        Result::Err(er) => {
                            return Result::Err(er);
                        },
                    };
                    let b2 = match fold_array_expression(f, *b) {
                        Result::Ok(v) => v,
                        Result::Err(er) => {
                            return Result::Err(er);
                        },
                    };
                    let c2 = match fold_array_expression(f, *c) {
                        Result::Ok(v) => v,
                        Result::Err(er) => {
                            return Result::Err(er);
                        },
                    };
                    Result::Ok(ArrayExpressionInner::IfElse(Box::new(a2), Box::new(b2), Box::new(c2)))
                },
                ArrayExpressionInner::Member(s, id) => {
                    let s2 = match fold_struct_expression(f, *s) {
                        Result::Ok(v) => v,
                        Result::Err(er) => {
                            return Result::Err(er);
                        },
                    };
                    Result::Ok(ArrayExpressionInner::Member(Box::new(s2), id))
                },
                ArrayExpressionInner::Select(a, i) => {
                    let a2 = match fold_array_expression(f, *a) {
                        Result::Ok(v) => v,
                        Result::Err(er) => {
                            return Result::Err(er);
                        },
                    };
                    let i2 = match fold_uint_expression(f, *i) {
                        Result::Ok(v) => v,
                        Result::Err(er) => {
                            return Result::Err(er);
                        },
                    };
                    Result::Ok(ArrayExpressionInner::Select(Box::new(a2), Box::new(i2)))
                },
                ArrayExpressionInner::Slice(a, b, c) => {
                    let a2 = match fold_array_expression(f, *a) {
                        Result::Ok(v) => v,
                        Result::Err(er) => {
                            return Result::Err(er);
                        },
                    };
                    let b2 = match fold_uint_expression(f, *b) {
                        Result::Ok(v) => v,
                        Result::Err(er) => {
                            return Result::Err(er);
                        },
                    };
                    let c2 = match fold_uint_expression(f, *c) {
                        Result::Ok(v) => v,
                        Result::Err(er) => {
                            return Result::Err(er);
                        },
                    };
                    Result::Ok(ArrayExpressionInner::Slice(Box::new(a2), Box::new(b2), Box::new(c2)))
                },
                ArrayExpressionInner::Repeat(a, b) => {
                    let a2 = match fold_expression(f, *a) {
                        Result::Ok(v) => v,
                        Result::Err(er) => {
                            return Result::Err(er);
                        },
                    };
                    let b2 = match fold_uint_expression(f, *b) {
                        Result::Ok(v) => v,
                        Result::Err(er) => {
                            return Result::Err(er);
                        },
                    };
                    Result::Ok(ArrayExpressionInner::Repeat(Box::new(a2), Box::new(b2)))
                },
            }
        },
    }
}

pub fn fold_struct_expression_inner<F: ResultFolder>(f: &mut F, _ty: &StructType, e: StructExpressionInner) -> (r: Result<StructExpressionInner, CompileError>)
    ensures
        final(f).sv() == sf_struct_expression_inner::<F::SV>(hooks_of::<F>(), old(f).sv(), e).0,
        r == sf_struct_expression_inner::<F::SV>(hooks_of::<F>(), old(f).sv(), e).1,
    decreases e,
{
    proof {
        lemma_hooks_of::<F>();
    }
    let hr = match f.hook_struct_expression_inner(&e) {
        Result::Ok(v) => v,
        Result::Err(er) => {
            return Result::Err(er);
        },
    };
    match hr {
        HookOutcome::Replace(done) => Result::Ok(done),
        HookOutcome::Proceed => {
            match e {
                StructExpressionInner::Identifier(id) => {
                    let id2 = match f.fold_name(id) {
                        Result::Ok(v) => v,
                        Result::Err(er) => {
                            return Result::Err(er);
                        },
                    };
                    Result::Ok(StructExpressionInner::Identifier(id2))
                },
                StructExpressionInner::Value(l) => {
                    let l2 = match fold_expressions(f, l) {
                        Result::Ok(v) => v,
                        Result::Err(er) => {
                            return Result::Err(er);
                        },
                    };
                    Result::Ok(StructExpressionInner::Value(l2))
                },
                StructExpressionInner::FunctionCall(key, gens, args) => {
                    let g2 = match fold_generics(f, gens) {
                        Result::Ok(v) => v,
                        Result::Err(er) => {
                            return Result::Err(er);
                        },
                    };
                    let a2 = match fold_expressions(f, args) {
                        Result::Ok(v) => v,
                        Result::Err(er) => {
                            return Result::Err(er);
                        },
                    };
                    Result::Ok(StructExpressionInner::FunctionCall(key, g2, a2))
                },
                StructExpressionInner::IfElse(a, b, c) => {
                    let a2 = match fold_boolean_expression(f, *a) {
                        Result::Ok(v) => v,
                        Result::Err(er) => {
                            return Result::Err(er);
                        },
                    };
                    let b2 = match fold_struct_expression(f, *b) {
                        Result::Ok(v) => v,
                        Result::Err(er) => {
                            return Result::Err(er);
                        },
                    };
                    let c2 = match fold_struct_expression(f, *c) {
                        Result::Ok(v) => v,
                        Result::Err(er) => {
                            return Result::Err(er);
                        },
                    };
                    Result::Ok(StructExpressionInner::IfElse(Box::new(a2), Box::new(b2), Box::new(c2)))
                },
                StructExpressionInner::Member(s, id) => {
                    let s2 = match fold_struct_expression(f, *s) {
                        Result::Ok(v) => v,
                        Result::Err(er) => {
                            return Result::Err(er);
                        },
                    };
                    Result::Ok(StructExpressionInner::Member(Box::new(s2), id))
                },
                StructExpressionInner::Select(a, i) => {
                    let a2 = match fold_array_expression(f, *a) {
                        Result::Ok(v) => v,
                        Result::Err(er) => {
                            return Result::Err(er);
                        },
                    };
                    let i2 = match fold_uint_expression(f, *i) {
                        Result::Ok(v) => v,
                        Result::Err(er) => {
                            return Result::Err(er);
                        },
                    };
                    Result::Ok(StructExpressionInner::Select(Box::new(a2), Box::new(i2)))
                },
            }
        },
    }
}

/// The pass that overrides nothing: identifiers fold to themselves,
/// every hook lets the default recursion proceed, and nothing ever
/// fails at a name.
pub struct DefaultResultFolder;

impl ResultFolder for DefaultResultFolder {
    type SV = ();

    open spec fn sv(&self) -> () {
        ()
    }

    open spec fn name_fold(sv: (), n: Identifier) -> ((), Result<Identifier, CompileError>) {
        (sv, Result::Ok(n))
    }

    fn fold_name(&mut self, n: Identifier) -> (r: Result<Identifier, CompileError>) {
        Result::Ok(n)
    }

    open spec fn program_hook(sv: (), e: TypedProgram) -> ((), Result<HookOutcome<TypedProgram>, CompileError>) {
        (sv, Result::Ok(HookOutcome::Proceed))
    }

    fn hook_program(&mut self, e: &TypedProgram) -> (r: Result<HookOutcome<TypedProgram>, CompileError>) {
        Result::Ok(HookOutcome::Proceed)
    }

    open spec fn module_hook(sv: (), e: TypedModule) -> ((), Result<HookOutcome<TypedModule>, CompileError>) {
        (sv, Result::Ok(HookOutcome::Proceed))
    }

    fn hook_module(&mut self, e: &TypedModule) -> (r: Result<HookOutcome<TypedModule>, CompileError>) {
        Result::Ok(HookOutcome::Proceed)
    }

    open spec fn function_symbol_hook(sv: (), e: TypedFunctionSymbol) -> ((), Result<HookOutcome<TypedFunctionSymbol>, CompileError>) {
        (sv, Result::Ok(HookOutcome::Proceed))
    }

    fn hook_function_symbol(&mut self, e: &TypedFunctionSymbol) -> (r: Result<HookOutcome<TypedFunctionSymbol>, CompileError>) {
        Result::Ok(HookOutcome::Proceed)
    }

    open spec fn function_hook(sv: (), e: TypedFunction) -> ((), Result<HookOutcome<TypedFunction>, CompileError>) {
        (sv, Result::Ok(HookOutcome::Proceed))
    }

    fn hook_function(&mut self, e: &TypedFunction) -> (r: Result<HookOutcome<TypedFunction>, CompileError>) {
        Result::Ok(HookOutcome::Proceed)
    }

    open spec fn parameter_hook(sv: (), e: DeclarationParameter) -> ((), Result<HookOutcome<DeclarationParameter>, CompileError>) {
        (sv, Result::Ok(HookOutcome::Proceed))
    }

    fn hook_parameter(&mut self, e: &DeclarationParameter) -> (r: Result<HookOutcome<DeclarationParameter>, CompileError>) {
        Result::Ok(HookOutcome::Proceed)
    }

    open spec fn variable_hook(sv: (), e: Variable) -> ((), Result<HookOutcome<Variable>, CompileError>) {
        (sv, Result::Ok(HookOutcome::Proceed))
    }

    fn hook_variable(&mut self, e: &Variable) -> (r: Result<HookOutcome<Variable>, CompileError>) {
        Result::Ok(HookOutcome::Proceed)
    }

    open spec fn declaration_variable_hook(sv: (), e: DeclarationVariable) -> ((), Result<HookOutcome<DeclarationVariable>, CompileError>) {
        (sv, Result::Ok(HookOutcome::Proceed))
    }

    fn hook_declaration_variable(&mut self, e: &DeclarationVariable) -> (r: Result<HookOutcome<DeclarationVariable>, CompileError>) {
        Result::Ok(HookOutcome::Proceed)
    }

    open spec fn ty_hook(sv: (), e: Type) -> ((), Result<HookOutcome<Type>, CompileError>) {
        (sv, Result::Ok(HookOutcome::Proceed))
    }

    fn hook_type(&mut self, e: &Type) -> (r: Result<HookOutcome<Type>, CompileError>) {
        Result::Ok(HookOutcome::Proceed)
    }

    open spec fn array_type_hook(sv: (), e: ArrayType) -> ((), Result<HookOutcome<ArrayType>, CompileError>) {
        (sv, Result::Ok(HookOutcome::Proceed))
    }

    fn hook_array_type(&mut self, e: &ArrayType) -> (r: Result<HookOutcome<ArrayType>, CompileError>) {
        Result::Ok(HookOutcome::Proceed)
    }

    open spec fn struct_type_hook(sv: (), e: StructType) -> ((), Result<HookOutcome<StructType>, CompileError>) {
        (sv, Result::Ok(HookOutcome::Proceed))
    }

    fn hook_struct_type(&mut self, e: &StructType) -> (r: Result<HookOutcome<StructType>, CompileError>) {
        Result::Ok(HookOutcome::Proceed)
    }

    open spec fn declaration_type_hook(sv: (), e: DeclarationType) -> ((), Result<HookOutcome<DeclarationType>, CompileError>) {
        (sv, Result::Ok(HookOutcome::Proceed))
    }

    fn hook_declaration_type(&mut self, e: &DeclarationType) -> (r: Result<HookOutcome<DeclarationType>, CompileError>) {
        Result::Ok(HookOutcome::Proceed)
    }

    open spec fn assignee_hook(sv: (), e: TypedAssignee) -> ((), Result<HookOutcome<TypedAssignee>, CompileError>) {
        (sv, Result::Ok(HookOutcome::Proceed))
    }

    fn hook_assignee(&mut self, e: &TypedAssignee) -> (r: Result<HookOutcome<TypedAssignee>, CompileError>) {
        Result::Ok(HookOutcome::Proceed)
    }

    open spec fn statement_hook(sv: (), e: TypedStatement) -> ((), Result<HookOutcome<List<TypedStatement>>, CompileError>) {
        (sv, Result::Ok(HookOutcome::Proceed))
    }

    fn hook_statement(&mut self, e: &TypedStatement) -> (r: Result<HookOutcome<List<TypedStatement>>, CompileError>) {
        Result::Ok(HookOutcome::Proceed)
    }

    open spec fn expression_or_spread_hook(sv: (), e: TypedExpressionOrSpread) -> ((), Result<HookOutcome<TypedExpressionOrSpread>, CompileError>) {
        (sv, Result::Ok(HookOutcome::Proceed))
    }

    fn hook_expression_or_spread(&mut self, e: &TypedExpressionOrSpread) -> (r: Result<HookOutcome<TypedExpressionOrSpread>, CompileError>) {
        Result::Ok(HookOutcome::Proceed)
    }

    open spec fn spread_hook(sv: (), e: TypedSpread) -> ((), Result<HookOutcome<TypedSpread>, CompileError>) {
        (sv, Result::Ok(HookOutcome::Proceed))
    }

    fn hook_spread(&mut self, e: &TypedSpread) -> (r: Result<HookOutcome<TypedSpread>, CompileError>) {
        Result::Ok(HookOutcome::Proceed)
    }

    open spec fn expression_hook(sv: (), e: TypedExpression) -> ((), Result<HookOutcome<TypedExpression>, CompileError>) {
        (sv, Result::Ok(HookOutcome::Proceed))
    }

    fn hook_expression(&mut self, e: &TypedExpression) -> (r: Result<HookOutcome<TypedExpression>, CompileError>) {
        Result::Ok(HookOutcome::Proceed)
    }

    open spec fn array_expression_hook(sv: (), e: ArrayExpression) -> ((), Result<HookOutcome<ArrayExpression>, CompileError>) {
        (sv, Result::Ok(HookOutcome::Proceed))
    }

    fn hook_array_expression(&mut self, e: &ArrayExpression) -> (r: Result<HookOutcome<ArrayExpression>, CompileError>) {
        Result::Ok(HookOutcome::Proceed)
    }

    open spec fn struct_expression_hook(sv: (), e: StructExpression) -> ((), Result<HookOutcome<StructExpression>, CompileError>) {
        (sv, Result::Ok(HookOutcome::Proceed))
    }

    fn hook_struct_expression(&mut self, e: &StructExpression) -> (r: Result<HookOutcome<StructExpression>, CompileError>) {
        Result::Ok(HookOutcome::Proceed)
    }

    open spec fn expression_list_hook(sv: (), e: TypedExpressionList) -> ((), Result<HookOutcome<TypedExpressionList>, CompileError>) {
        (sv, Result::Ok(HookOutcome::Proceed))
    }

    fn hook_expression_list(&mut self, e: &TypedExpressionList) -> (r: Result<HookOutcome<TypedExpressionList>, CompileError>) {
        Result::Ok(HookOutcome::Proceed)
    }

    open spec fn int_expression_hook(sv: (), e: IntExpression) -> ((), Result<HookOutcome<IntExpression>, CompileError>) {
        (sv, Result::Ok(HookOutcome::Proceed))
    }

    fn hook_int_expression(&mut self, e: &IntExpression) -> (r: Result<HookOutcome<IntExpression>, CompileError>) {
        Result::Ok(HookOutcome::Proceed)
    }

    open spec fn field_expression_hook(sv: (), e: FieldElementExpression) -> ((), Result<HookOutcome<FieldElementExpression>, CompileError>) {
        (sv, Result::Ok(HookOutcome::Proceed))
    }

    fn hook_field_expression(&mut self, e: &FieldElementExpression) -> (r: Result<HookOutcome<FieldElementExpression>, CompileError>) {
        Result::Ok(HookOutcome::Proceed)
    }

    open spec fn boolean_expression_hook(sv: (), e: BooleanExpression) -> ((), Result<HookOutcome<BooleanExpression>, CompileError>) {
        (sv, Result::Ok(HookOutcome::Proceed))
    }

    fn hook_boolean_expression(&mut self, e: &BooleanExpression) -> (r: Result<HookOutcome<BooleanExpression>, CompileError>) {
        Result::Ok(HookOutcome::Proceed)
    }

    open spec fn uint_expression_hook(sv: (), e: UExpression) -> ((), Result<HookOutcome<UExpression>, CompileError>) {
        (sv, Result::Ok(HookOutcome::Proceed))
    }

    fn hook_uint_expression(&mut self, e: &UExpression) -> (r: Result<HookOutcome<UExpression>, CompileError>) {
        Result::Ok(HookOutcome::Proceed)
    }

    open spec fn uint_expression_inner_hook(sv: (), e: UExpressionInner) -> ((), Result<HookOutcome<UExpressionInner>, CompileError>) {
        (sv, Result::Ok(HookOutcome::Proceed))
    }

    fn hook_uint_expression_inner(&mut self, e: &UExpressionInner) -> (r: Result<HookOutcome<UExpressionInner>, CompileError>) {
        Result::Ok(HookOutcome::Proceed)
    }

    open spec fn array_expression_inner_hook(sv: (), e: ArrayExpressionInner) -> ((), Result<HookOutcome<ArrayExpressionInner>, CompileError>) {
        (sv, Result::Ok(HookOutcome::Proceed))
    }

    fn hook_array_expression_inner(&mut self, e: &ArrayExpressionInner) -> (r: Result<HookOutcome<ArrayExpressionInner>, CompileError>) {
        Result::Ok(HookOutcome::Proceed)
    }

    open spec fn struct_expression_inner_hook(sv: (), e: StructExpressionInner) -> ((), Result<HookOutcome<StructExpressionInner>, CompileError>) {
        (sv, Result::Ok(HookOutcome::Proceed))
    }

    fn hook_struct_expression_inner(&mut self, e: &StructExpressionInner) -> (r: Result<HookOutcome<StructExpressionInner>, CompileError>) {
        Result::Ok(HookOutcome::Proceed)
    }
}

/// An instrumented pass: it records every identifier it visits, and
/// fails, with an error naming the identifier, on one marked name.
pub struct RecordingFolder {
    pub visited: Vec<Identifier>,
    pub marker: Identifier,
}

impl RecordingFolder {
    pub fn new(marker: Identifier) -> (r: Self)
        ensures
            r.sv() == (Seq::<Identifier>::empty(), marker),
    {
        let r = RecordingFolder { visited: Vec::new(), marker };
        proof {
            assert(r.sv() == (Seq::<Identifier>::empty(), marker));
        }
        r
    }

    /// The identifiers visited so far, in order.
    pub fn visited_names(&self) -> (r: &Vec<Identifier>)
        ensures
            r@ == self.sv().0,
    {
        &self.visited
    }
}

impl ResultFolder for RecordingFolder {
    type SV = (Seq<Identifier>, Identifier);

    closed spec fn sv(&self) -> (Seq<Identifier>, Identifier) {
        (self.visited@, self.marker)
    }

    open spec fn name_fold(sv: (Seq<Identifier>, Identifier), n: Identifier) -> (
        (Seq<Identifier>, Identifier),
        Result<Identifier, CompileError>,
    ) {
        if n == sv.1 {
            ((sv.0.push(n), sv.1), Result::Err(CompileError::Custom(n)))
        } else {
            ((sv.0.push(n), sv.1), Result::Ok(n))
        }
    }

    fn fold_name(&mut self, n: Identifier) -> (r: Result<Identifier, CompileError>) {
        self.visited.push(n);
        if n == self.marker {
            Result::Err(CompileError::Custom(n))
        } else {
            Result::Ok(n)
        }
    }

    open spec fn program_hook(sv: (Seq<Identifier>, Identifier), e: TypedProgram) -> ((Seq<Identifier>, Identifier), Result<HookOutcome<TypedProgram>, CompileError>) {
        (sv, Result::Ok(HookOutcome::Proceed))
    }

    fn hook_program(&mut self, e: &TypedProgram) -> (r: Result<HookOutcome<TypedProgram>, CompileError>) {
        Result::Ok(HookOutcome::Proceed)
    }

    open spec fn module_hook(sv: (Seq<Identifier>, Identifier), e: TypedModule) -> ((Seq<Identifier>, Identifier), Result<HookOutcome<TypedModule>, CompileError>) {
        (sv, Result::Ok(HookOutcome::Proceed))
    }

    fn hook_module(&mut self, e: &TypedModule) -> (r: Result<HookOutcome<TypedModule>, CompileError>) {
        Result::Ok(HookOutcome::Proceed)
    }

    open spec fn function_symbol_hook(sv: (Seq<Identifier>, Identifier), e: TypedFunctionSymbol) -> ((Seq<Identifier>, Identifier), Result<HookOutcome<TypedFunctionSymbol>, CompileError>) {
        (sv, Result::Ok(HookOutcome::Proceed))
    }

    fn hook_function_symbol(&mut self, e: &TypedFunctionSymbol) -> (r: Result<HookOutcome<TypedFunctionSymbol>, CompileError>) {
        Result::Ok(HookOutcome::Proceed)
    }

    open spec fn function_hook(sv: (Seq<Identifier>, Identifier), e: TypedFunction) -> ((Seq<Identifier>, Identifier), Result<HookOutcome<TypedFunction>, CompileError>) {
        (sv, Result::Ok(HookOutcome::Proceed))
    }

    fn hook_function(&mut self, e: &TypedFunction) -> (r: Result<HookOutcome<TypedFunction>, CompileError>) {
        Result::Ok(HookOutcome::Proceed)
    }

    open spec fn parameter_hook(sv: (Seq<Identifier>, Identifier), e: DeclarationParameter) -> ((Seq<Identifier>, Identifier), Result<HookOutcome<DeclarationParameter>, CompileError>) {
        (sv, Result::Ok(HookOutcome::Proceed))
    }

    fn hook_parameter(&mut self, e: &DeclarationParameter) -> (r: Result<HookOutcome<DeclarationParameter>, CompileError>) {
        Result::Ok(HookOutcome::Proceed)
    }

    open spec fn variable_hook(sv: (Seq<Identifier>, Identifier), e: Variable) -> ((Seq<Identifier>, Identifier), Result<HookOutcome<Variable>, CompileError>) {
        (sv, Result::Ok(HookOutcome::Proceed))
    }

    fn hook_variable(&mut self, e: &Variable) -> (r: Result<HookOutcome<Variable>, CompileError>) {
        Result::Ok(HookOutcome::Proceed)
    }

    open spec fn declaration_variable_hook(sv: (Seq<Identifier>, Identifier), e: DeclarationVariable) -> ((Seq<Identifier>, Identifier), Result<HookOutcome<DeclarationVariable>, CompileError>) {
        (sv, Result::Ok(HookOutcome::Proceed))
    }

    fn hook_declaration_variable(&mut self, e: &DeclarationVariable) -> (r: Result<HookOutcome<DeclarationVariable>, CompileError>) {
        Result::Ok(HookOutcome::Proceed)
    }

    open spec fn ty_hook(sv: (Seq<Identifier>, Identifier), e: Type) -> ((Seq<Identifier>, Identifier), Result<HookOutcome<Type>, CompileError>) {
        (sv, Result::Ok(HookOutcome::Proceed))
    }

    fn hook_type(&mut self, e: &Type) -> (r: Result<HookOutcome<Type>, CompileError>) {
        Result::Ok(HookOutcome::Proceed)
    }

    open spec fn array_type_hook(sv: (Seq<Identifier>, Identifier), e: ArrayType) -> ((Seq<Identifier>, Identifier), Result<HookOutcome<ArrayType>, CompileError>) {
        (sv, Result::Ok(HookOutcome::Proceed))
    }

    fn hook_array_type(&mut self, e: &ArrayType) -> (r: Result<HookOutcome<ArrayType>, CompileError>) {
        Result::Ok(HookOutcome::Proceed)
    }

    open spec fn struct_type_hook(sv: (Seq<Identifier>, Identifier), e: StructType) -> ((Seq<Identifier>, Identifier), Result<HookOutcome<StructType>, CompileError>) {
        (sv, Result::Ok(HookOutcome::Proceed))
    }

    fn hook_struct_type(&mut self, e: &StructType) -> (r: Result<HookOutcome<StructType>, CompileError>) {
        Result::Ok(HookOutcome::Proceed)
    }

    open spec fn declaration_type_hook(sv: (Seq<Identifier>, Identifier), e: DeclarationType) -> ((Seq<Identifier>, Identifier), Result<HookOutcome<DeclarationType>, CompileError>) {
        (sv, Result::Ok(HookOutcome::Proceed))
    }

    fn hook_declaration_type(&mut self, e: &DeclarationType) -> (r: Result<HookOutcome<DeclarationType>, CompileError>) {
        Result::Ok(HookOutcome::Proceed)
    }

    open spec fn assignee_hook(sv: (Seq<Identifier>, Identifier), e: TypedAssignee) -> ((Seq<Identifier>, Identifier), Result<HookOutcome<TypedAssignee>, CompileError>) {
        (sv, Result::Ok(HookOutcome::Proceed))
    }

    fn hook_assignee(&mut self, e: &TypedAssignee) -> (r: Result<HookOutcome<TypedAssignee>, CompileError>) {
        Result::Ok(HookOutcome::Proceed)
    }

    open spec fn statement_hook(sv: (Seq<Identifier>, Identifier), e: TypedStatement) -> ((Seq<Identifier>, Identifier), Result<HookOutcome<List<TypedStatement>>, CompileError>) {
        (sv, Result::Ok(HookOutcome::Proceed))
    }

    fn hook_statement(&mut self, e: &TypedStatement) -> (r: Result<HookOutcome<List<TypedStatement>>, CompileError>) {
        Result::Ok(HookOutcome::Proceed)
    }

    open spec fn expression_or_spread_hook(sv: (Seq<Identifier>, Identifier), e: TypedExpressionOrSpread) -> ((Seq<Identifier>, Identifier), Result<HookOutcome<TypedExpressionOrSpread>, CompileError>) {
        (sv, Result::Ok(HookOutcome::Proceed))
    }

    fn hook_expression_or_spread(&mut self, e: &TypedExpressionOrSpread) -> (r: Result<HookOutcome<TypedExpressionOrSpread>, CompileError>) {
        Result::Ok(HookOutcome::Proceed)
    }

    open spec fn spread_hook(sv: (Seq<Identifier>, Identifier), e: TypedSpread) -> ((Seq<Identifier>, Identifier), Result<HookOutcome<TypedSpread>, CompileError>) {
        (sv, Result::Ok(HookOutcome::Proceed))
    }

    fn hook_spread(&mut self, e: &TypedSpread) -> (r: Result<HookOutcome<TypedSpread>, CompileError>) {
        Result::Ok(HookOutcome::Proceed)
    }

    open spec fn expression_hook(sv: (Seq<Identifier>, Identifier), e: TypedExpression) -> ((Seq<Identifier>, Identifier), Result<HookOutcome<TypedExpression>, CompileError>) {
        (sv, Result::Ok(HookOutcome::Proceed))
    }

    fn hook_expression(&mut self, e: &TypedExpression) -> (r: Result<HookOutcome<TypedExpression>, CompileError>) {
        Result::Ok(HookOutcome::Proceed)
    }

    open spec fn array_expression_hook(sv: (Seq<Identifier>, Identifier), e: ArrayExpression) -> ((Seq<Identifier>, Identifier), Result<HookOutcome<ArrayExpression>, CompileError>) {
        (sv, Result::Ok(HookOutcome::Proceed))
    }

    fn hook_array_expression(&mut self, e: &ArrayExpression) -> (r: Result<HookOutcome<ArrayExpression>, CompileError>) {
        Result::Ok(HookOutcome::Proceed)
    }

    open spec fn struct_expression_hook(sv: (Seq<Identifier>, Identifier), e: StructExpression) -> ((Seq<Identifier>, Identifier), Result<HookOutcome<StructExpression>, CompileError>) {
        (sv, Result::Ok(HookOutcome::Proceed))
    }

    fn hook_struct_expression(&mut self, e: &StructExpression) -> (r: Result<HookOutcome<StructExpression>, CompileError>) {
        Result::Ok(HookOutcome::Proceed)
    }

    open spec fn expression_list_hook(sv: (Seq<Identifier>, Identifier), e: TypedExpressionList) -> ((Seq<Identifier>, Identifier), Result<HookOutcome<TypedExpressionList>, CompileError>) {
        (sv, Result::Ok(HookOutcome::Proceed))
    }

    fn hook_expression_list(&mut self, e: &TypedExpressionList) -> (r: Result<HookOutcome<TypedExpressionList>, CompileError>) {
        Result::Ok(HookOutcome::Proceed)
    }

    open spec fn int_expression_hook(sv: (Seq<Identifier>, Identifier), e: IntExpression) -> ((Seq<Identifier>, Identifier), Result<HookOutcome<IntExpression>, CompileError>) {
        (sv, Result::Ok(HookOutcome::Proceed))
    }

    fn hook_int_expression(&mut self, e: &IntExpression) -> (r: Result<HookOutcome<IntExpression>, CompileError>) {
        Result::Ok(HookOutcome::Proceed)
    }

    open spec fn field_expression_hook(sv: (Seq<Identifier>, Identifier), e: FieldElementExpression) -> ((Seq<Identifier>, Identifier), Result<HookOutcome<FieldElementExpression>, CompileError>) {
        (sv, Result::Ok(HookOutcome::Proceed))
    }

    fn hook_field_expression(&mut self, e: &FieldElementExpression) -> (r: Result<HookOutcome<FieldElementExpression>, CompileError>) {
        Result::Ok(HookOutcome::Proceed)
    }

    open spec fn boolean_expression_hook(sv: (Seq<Identifier>, Identifier), e: BooleanExpression) -> ((Seq<Identifier>, Identifier), Result<HookOutcome<BooleanExpression>, CompileError>) {
        (sv, Result::Ok(HookOutcome::Proceed))
    }

    fn hook_boolean_expression(&mut self, e: &BooleanExpression) -> (r: Result<HookOutcome<BooleanExpression>, CompileError>) {
        Result::Ok(HookOutcome::Proceed)
    }

    open spec fn uint_expression_hook(sv: (Seq<Identifier>, Identifier), e: UExpression) -> ((Seq<Identifier>, Identifier), Result<HookOutcome<UExpression>, CompileError>) {
        (sv, Result::Ok(HookOutcome::Proceed))
    }

    fn hook_uint_expression(&mut self, e: &UExpression) -> (r: Result<HookOutcome<UExpression>, CompileError>) {
        Result::Ok(HookOutcome::Proceed)
    }

    open spec fn uint_expression_inner_hook(sv: (Seq<Identifier>, Identifier), e: UExpressionInner) -> ((Seq<Identifier>, Identifier), Result<HookOutcome<UExpressionInner>, CompileError>) {
        (sv, Result::Ok(HookOutcome::Proceed))
    }

    fn hook_uint_expression_inner(&mut self, e: &UExpressionInner) -> (r: Result<HookOutcome<UExpressionInner>, CompileError>) {
        Result::Ok(HookOutcome::Proceed)
    }

    open spec fn array_expression_inner_hook(sv: (Seq<Identifier>, Identifier), e: ArrayExpressionInner) -> ((Seq<Identifier>, Identifier), Result<HookOutcome<ArrayExpressionInner>, CompileError>) {
        (sv, Result::Ok(HookOutcome::Proceed))
    }

    fn hook_array_expression_inner(&mut self, e: &ArrayExpressionInner) -> (r: Result<HookOutcome<ArrayExpressionInner>, CompileError>) {
        Result::Ok(HookOutcome::Proceed)
    }

    open spec fn struct_expression_inner_hook(sv: (Seq<Identifier>, Identifier), e: StructExpressionInner) -> ((Seq<Identifier>, Identifier), Result<HookOutcome<StructExpressionInner>, CompileError>) {
        (sv, Result::Ok(HookOutcome::Proceed))
    }

    fn hook_struct_expression_inner(&mut self, e: &StructExpressionInner) -> (r: Result<HookOutcome<StructExpressionInner>, CompileError>) {
        Result::Ok(HookOutcome::Proceed)
    }
}

/// An instrumented pass that fails at one expression node: the field
/// literal carrying a marked raw word. Every other node folds by the
/// default recursion.
pub struct FailingFolder {
    pub marker: u64,
}

impl FailingFolder {
    pub fn new(marker: u64) -> (r: Self)
        ensures
            r.sv() == marker,
    {
        FailingFolder { marker }
    }
}

impl ResultFolder for FailingFolder {
    type SV = u64;

    open spec fn sv(&self) -> u64 {
        self.marker
    }

    open spec fn name_fold(sv: u64, n: Identifier) -> (u64, Result<Identifier, CompileError>) {
        (sv, Result::Ok(n))
    }

    fn fold_name(&mut self, n: Identifier) -> (r: Result<Identifier, CompileError>) {
        Result::Ok(n)
    }

    open spec fn program_hook(sv: u64, e: TypedProgram) -> (u64, Result<HookOutcome<TypedProgram>, CompileError>) {
        (sv, Result::Ok(HookOutcome::Proceed))
    }

    fn hook_program(&mut self, e: &TypedProgram) -> (r: Result<HookOutcome<TypedProgram>, CompileError>) {
        Result::Ok(HookOutcome::Proceed)
    }

    open spec fn module_hook(sv: u64, e: TypedModule) -> (u64, Result<HookOutcome<TypedModule>, CompileError>) {
        (sv, Result::Ok(HookOutcome::Proceed))
    }

    fn hook_module(&mut self, e: &TypedModule) -> (r: Result<HookOutcome<TypedModule>, CompileError>) {
        Result::Ok(HookOutcome::Proceed)
    }

    open spec fn function_symbol_hook(sv: u64, e: TypedFunctionSymbol) -> (u64, Result<HookOutcome<TypedFunctionSymbol>, CompileError>) {
        (sv, Result::Ok(HookOutcome::Proceed))
    }

    fn hook_function_symbol(&mut self, e: &TypedFunctionSymbol) -> (r: Result<HookOutcome<TypedFunctionSymbol>, CompileError>) {
        Result::Ok(HookOutcome::Proceed)
    }

    open spec fn function_hook(sv: u64, e: TypedFunction) -> (u64, Result<HookOutcome<TypedFunction>, CompileError>) {
        (sv, Result::Ok(HookOutcome::Proceed))
    }

    fn hook_function(&mut self, e: &TypedFunction) -> (r: Result<HookOutcome<TypedFunction>, CompileError>) {
        Result::Ok(HookOutcome::Proceed)
    }

    open spec fn parameter_hook(sv: u64, e: DeclarationParameter) -> (u64, Result<HookOutcome<DeclarationParameter>, CompileError>) {
        (sv, Result::Ok(HookOutcome::Proceed))
    }

    fn hook_parameter(&mut self, e: &DeclarationParameter) -> (r: Result<HookOutcome<DeclarationParameter>, CompileError>) {
        Result::Ok(HookOutcome::Proceed)
    }

    open spec fn variable_hook(sv: u64, e: Variable) -> (u64, Result<HookOutcome<Variable>, CompileError>) {
        (sv, Result::Ok(HookOutcome::Proceed))
    }

    fn hook_variable(&mut self, e: &Variable) -> (r: Result<HookOutcome<Variable>, CompileError>) {
        Result::Ok(HookOutcome::Proceed)
    }

    open spec fn declaration_variable_hook(sv: u64, e: DeclarationVariable) -> (u64, Result<HookOutcome<DeclarationVariable>, CompileError>) {
        (sv, Result::Ok(HookOutcome::Proceed))
    }

    fn hook_declaration_variable(&mut self, e: &DeclarationVariable) -> (r: Result<HookOutcome<DeclarationVariable>, CompileError>) {
        Result::Ok(HookOutcome::Proceed)
    }

    open spec fn ty_hook(sv: u64, e: Type) -> (u64, Result<HookOutcome<Type>, CompileError>) {
        (sv, Result::Ok(HookOutcome::Proceed))
    }

    fn hook_type(&mut self, e: &Type) -> (r: Result<HookOutcome<Type>, CompileError>) {
        Result::Ok(HookOutcome::Proceed)
    }

    open spec fn array_type_hook(sv: u64, e: ArrayType) -> (u64, Result<HookOutcome<ArrayType>, CompileError>) {
        (sv, Result::Ok(HookOutcome::Proceed))
    }

    fn hook_array_type(&mut self, e: &ArrayType) -> (r: Result<HookOutcome<ArrayType>, CompileError>) {
        Result::Ok(HookOutcome::Proceed)
    }

    open spec fn struct_type_hook(sv: u64, e: StructType) -> (u64, Result<HookOutcome<StructType>, CompileError>) {
        (sv, Result::Ok(HookOutcome::Proceed))
    }

    fn hook_struct_type(&mut self, e: &StructType) -> (r: Result<HookOutcome<StructType>, CompileError>) {
        Result::Ok(HookOutcome::Proceed)
    }

    open spec fn declaration_type_hook(sv: u64, e: DeclarationType) -> (u64, Result<HookOutcome<DeclarationType>, CompileError>) {
        (sv, Result::Ok(HookOutcome::Proceed))
    }

    fn hook_declaration_type(&mut self, e: &DeclarationType) -> (r: Result<HookOutcome<DeclarationType>, CompileError>) {
        Result::Ok(HookOutcome::Proceed)
    }

    open spec fn assignee_hook(sv: u64, e: TypedAssignee) -> (u64, Result<HookOutcome<TypedAssignee>, CompileError>) {
        (sv, Result::Ok(HookOutcome::Proceed))
    }

    fn hook_assignee(&mut self, e: &TypedAssignee) -> (r: Result<HookOutcome<TypedAssignee>, CompileError>) {
        Result::Ok(HookOutcome::Proceed)
    }

    open spec fn statement_hook(sv: u64, e: TypedStatement) -> (u64, Result<HookOutcome<List<TypedStatement>>, CompileError>) {
        (sv, Result::Ok(HookOutcome::Proceed))
    }

    fn hook_statement(&mut self, e: &TypedStatement) -> (r: Result<HookOutcome<List<TypedStatement>>, CompileError>) {
        Result::Ok(HookOutcome::Proceed)
    }

    open spec fn expression_or_spread_hook(sv: u64, e: TypedExpressionOrSpread) -> (u64, Result<HookOutcome<TypedExpressionOrSpread>, CompileError>) {
        (sv, Result::Ok(HookOutcome::Proceed))
    }

    fn hook_expression_or_spread(&mut self, e: &TypedExpressionOrSpread) -> (r: Result<HookOutcome<TypedExpressionOrSpread>, CompileError>) {
        Result::Ok(HookOutcome::Proceed)
    }

    open spec fn spread_hook(sv: u64, e: TypedSpread) -> (u64, Result<HookOutcome<TypedSpread>, CompileError>) {
        (sv, Result::Ok(HookOutcome::Proceed))
    }

    fn hook_spread(&mut self, e: &TypedSpread) -> (r: Result<HookOutcome<TypedSpread>, CompileError>) {
        Result::Ok(HookOutcome::Proceed)
    }

    open spec fn expression_hook(sv: u64, e: TypedExpression) -> (u64, Result<HookOutcome<TypedExpression>, CompileError>) {
        (sv, Result::Ok(HookOutcome::Proceed))
    }

    fn hook_expression(&mut self, e: &TypedExpression) -> (r: Result<HookOutcome<TypedExpression>, CompileError>) {
        Result::Ok(HookOutcome::Proceed)
    }

    open spec fn array_expression_hook(sv: u64, e: ArrayExpression) -> (u64, Result<HookOutcome<ArrayExpression>, CompileError>) {
        (sv, Result::Ok(HookOutcome::Proceed))
    }

    fn hook_array_expression(&mut self, e: &ArrayExpression) -> (r: Result<HookOutcome<ArrayExpression>, CompileError>) {
        Result::Ok(HookOutcome::Proceed)
    }

    open spec fn struct_expression_hook(sv: u64, e: StructExpression) -> (u64, Result<HookOutcome<StructExpression>, CompileError>) {
        (sv, Result::Ok(HookOutcome::Proceed))
    }

    fn hook_struct_expression(&mut self, e: &StructExpression) -> (r: Result<HookOutcome<StructExpression>, CompileError>) {
        Result::Ok(HookOutcome::Proceed)
    }

    open spec fn expression_list_hook(sv: u64, e: TypedExpressionList) -> (u64, Result<HookOutcome<TypedExpressionList>, CompileError>) {
        (sv, Result::Ok(HookOutcome::Proceed))
    }

    fn hook_expression_list(&mut self, e: &TypedExpressionList) -> (r: Result<HookOutcome<TypedExpressionList>, CompileError>) {
        Result::Ok(HookOutcome::Proceed)
    }

    open spec fn int_expression_hook(sv: u64, e: IntExpression) -> (u64, Result<HookOutcome<IntExpression>, CompileError>) {
        (sv, Result::Ok(HookOutcome::Proceed))
    }

    fn hook_int_expression(&mut self, e: &IntExpression) -> (r: Result<HookOutcome<IntExpression>, CompileError>) {
        Result::Ok(HookOutcome::Proceed)
    }

    open spec fn field_expression_hook(sv: u64, e: FieldElementExpression) -> (u64, Result<HookOutcome<FieldElementExpression>, CompileError>) {
        match e {
            FieldElementExpression::Number(n) => if n.raw == sv {
                (sv, Result::Err(CompileError::Custom(n.raw)))
            } else {
                (sv, Result::Ok(HookOutcome::Proceed))
            },
            _ => (sv, Result::Ok(HookOutcome::Proceed)),
        }
    }

    fn hook_field_expression(&mut self, e: &FieldElementExpression) -> (r: Result<HookOutcome<FieldElementExpression>, CompileError>) {
        match e {
            FieldElementExpression::Number(n) => if n.raw == self.marker {
                Result::Err(CompileError::Custom(n.raw))
            } else {
                Result::Ok(HookOutcome::Proceed)
            },
            _ => Result::Ok(HookOutcome::Proceed),
        }
    }

    open spec fn boolean_expression_hook(sv: u64, e: BooleanExpression) -> (u64, Result<HookOutcome<BooleanExpression>, CompileError>) {
        (sv, Result::Ok(HookOutcome::Proceed))
    }

    fn hook_boolean_expression(&mut self, e: &BooleanExpression) -> (r: Result<HookOutcome<BooleanExpression>, CompileError>) {
        Result::Ok(HookOutcome::Proceed)
    }

    open spec fn uint_expression_hook(sv: u64, e: UExpression) -> (u64, Result<HookOutcome<UExpression>, CompileError>) {
        (sv, Result::Ok(HookOutcome::Proceed))
    }

    fn hook_uint_expression(&mut self, e: &UExpression) -> (r: Result<HookOutcome<UExpression>, CompileError>) {
        Result::Ok(HookOutcome::Proceed)
    }

    open spec fn uint_expression_inner_hook(sv: u64, e: UExpressionInner) -> (u64, Result<HookOutcome<UExpressionInner>, CompileError>) {
        (sv, Result::Ok(HookOutcome::Proceed))
    }

    fn hook_uint_expression_inner(&mut self, e: &UExpressionInner) -> (r: Result<HookOutcome<UExpressionInner>, CompileError>) {
        Result::Ok(HookOutcome::Proceed)
    }

    open spec fn array_expression_inner_hook(sv: u64, e: ArrayExpressionInner) -> (u64, Result<HookOutcome<ArrayExpressionInner>, CompileError>) {
        (sv, Result::Ok(HookOutcome::Proceed))
    }

    fn hook_array_expression_inner(&mut self, e: &ArrayExpressionInner) -> (r: Result<HookOutcome<ArrayExpressionInner>, CompileError>) {
        Result::Ok(HookOutcome::Proceed)
    }

    open spec fn struct_expression_inner_hook(sv: u64, e: StructExpressionInner) -> (u64, Result<HookOutcome<StructExpressionInner>, CompileError>) {
        (sv, Result::Ok(HookOutcome::Proceed))
    }

    fn hook_struct_expression_inner(&mut self, e: &StructExpressionInner) -> (r: Result<HookOutcome<StructExpressionInner>, CompileError>) {
        Result::Ok(HookOutcome::Proceed)
    }
}

} // verus!
