//! The pre-flattening typed AST: a collection of named modules mapping
//! function keys to symbols, functions of typed statements, and a typed
//! expression tree over field elements, booleans, fixed-width integers,
//! arrays, structs, and transient untyped integer literals.

use vstd::prelude::*;
use crate::field::FieldElem;

verus! {

/// A singly linked list: the AST's sequence type.
#[derive(PartialEq, Eq, Debug)]
pub enum List<A> {
    Nil,
    Cons(Box<A>, Box<List<A>>),
}

/// Two lists, the first followed by the second.
pub open spec fn append<A>(a: List<A>, b: List<A>) -> List<A>
    decreases a,
{
    match a {
        List::Nil => b,
        List::Cons(h, t) => List::Cons(h, Box::new(append(*t, b))),
    }
}

/// Concatenate two lists.
pub fn list_concat<A>(a: List<A>, b: List<A>) -> (r: List<A>)
    ensures
        r == append(a, b),
    decreases a,
{
    match a {
        List::Nil => b,
        List::Cons(h, t) => List::Cons(h, Box::new(list_concat(*t, b))),
    }
}

/// A source-level name, already resolved to an opaque id.
pub type Identifier = u64;

/// A typed-AST type: the declared shape of a value. An array carries its
/// element type and a size that is itself an integer expression, so
/// generic, parametric lengths stay representable.
#[derive(PartialEq, Eq, Debug)]
pub enum Type {
    FieldElement,
    Boolean,
    Uint(u32),
    Array(Box<ArrayType>),
    Struct(StructType),
}

#[derive(PartialEq, Eq, Debug)]
pub struct ArrayType {
    pub ty: Box<Type>,
    pub size: UExpression,
}

#[derive(PartialEq, Eq, Debug)]
pub struct StructMember {
    pub id: Identifier,
    pub ty: Box<Type>,
}

#[derive(PartialEq, Eq, Debug)]
pub struct StructType {
    pub members: List<StructMember>,
}

/// A declaration-level type: array sizes are resolved constants or
/// const-generic parameters, not expressions.
#[derive(PartialEq, Eq, Debug)]
pub enum DeclarationSize {
    Concrete(u64),
    Generic(Identifier),
}

#[derive(PartialEq, Eq, Debug)]
pub enum DeclarationType {
    FieldElement,
    Boolean,
    Uint(u32),
    Array(Box<DeclarationType>, DeclarationSize),
    Struct(List<(Identifier, Box<DeclarationType>)>),
}

#[derive(PartialEq, Eq, Debug)]
pub struct Variable {
    pub id: Identifier,
    pub ty: Type,
}

#[derive(PartialEq, Eq, Debug)]
pub struct DeclarationVariable {
    pub id: Identifier,
    pub ty: DeclarationType,
}

#[derive(PartialEq, Eq, Debug)]
pub struct DeclarationParameter {
    pub id: DeclarationVariable,
    pub private: bool,
}

#[derive(PartialEq, Eq, Debug)]
pub enum FieldElementExpression {
    Number(FieldElem),
    Identifier(Identifier),
    Add(Box<FieldElementExpression>, Box<FieldElementExpression>),
    Sub(Box<FieldElementExpression>, Box<FieldElementExpression>),
    Mult(Box<FieldElementExpression>, Box<FieldElementExpression>),
    Div(Box<FieldElementExpression>, Box<FieldElementExpression>),
    Pow(Box<FieldElementExpression>, Box<UExpression>),
    IfElse(Box<BooleanExpression>, Box<FieldElementExpression>, Box<FieldElementExpression>),
    FunctionCall(Identifier, List<Option<UExpression>>, List<TypedExpression>),
    Member(Box<StructExpression>, Identifier),
    Select(Box<ArrayExpression>, Box<UExpression>),
}

#[derive(PartialEq, Eq, Debug)]
pub enum BooleanExpression {
    Value(bool),
    Identifier(Identifier),
    FieldEq(Box<FieldElementExpression>, Box<FieldElementExpression>),
    BoolEq(Box<BooleanExpression>, Box<BooleanExpression>),
    ArrayEq(Box<ArrayExpression>, Box<ArrayExpression>),
    StructEq(Box<StructExpression>, Box<StructExpression>),
    UintEq(Box<UExpression>, Box<UExpression>),
    FieldLt(Box<FieldElementExpression>, Box<FieldElementExpression>),
    FieldLe(Box<FieldElementExpression>, Box<FieldElementExpression>),
    FieldGt(Box<FieldElementExpression>, Box<FieldElementExpression>),
    FieldGe(Box<FieldElementExpression>, Box<FieldElementExpression>),
    UintLt(Box<UExpression>, Box<UExpression>),
    UintLe(Box<UExpression>, Box<UExpression>),
    UintGt(Box<UExpression>, Box<UExpression>),
    UintGe(Box<UExpression>, Box<UExpression>),
    Or(Box<BooleanExpression>, Box<BooleanExpression>),
    And(Box<BooleanExpression>, Box<BooleanExpression>),
    Not(Box<BooleanExpression>),
    FunctionCall(Identifier, List<Option<UExpression>>, List<TypedExpression>),
    IfElse(Box<BooleanExpression>, Box<BooleanExpression>, Box<BooleanExpression>),
    Member(Box<StructExpression>, Identifier),
    Select(Box<ArrayExpression>, Box<UExpression>),
}

#[derive(PartialEq, Eq, Debug)]
pub struct UExpression {
    pub bitwidth: u32,
    pub inner: UExpressionInner,
}

#[derive(PartialEq, Eq, Debug)]
pub enum UExpressionInner {
    Value(u64),
    Identifier(Identifier),
    Add(Box<UExpression>, Box<UExpression>),
    Sub(Box<UExpression>, Box<UExpression>),
    FloorSub(Box<UExpression>, Box<UExpression>),
    Mult(Box<UExpression>, Box<UExpression>),
    Div(Box<UExpression>, Box<UExpression>),
    Rem(Box<UExpression>, Box<UExpression>),
    Xor(Box<UExpression>, Box<UExpression>),
    And(Box<UExpression>, Box<UExpression>),
    Or(Box<UExpression>, Box<UExpression>),
    LeftShift(Box<UExpression>, Box<FieldElementExpression>),
    RightShift(Box<UExpression>, Box<FieldElementExpression>),
    Not(Box<UExpression>),
    FunctionCall(Identifier, List<Option<UExpression>>, List<TypedExpression>),
    Select(Box<ArrayExpression>, Box<UExpression>),
    IfElse(Box<BooleanExpression>, Box<UExpression>, Box<UExpression>),
    Member(Box<StructExpression>, Identifier),
}

#[derive(PartialEq, Eq, Debug)]
pub struct ArrayExpression {
    pub ty: Box<ArrayType>,
    pub inner: ArrayExpressionInner,
}

#[derive(PartialEq, Eq, Debug)]
pub enum ArrayExpressionInner {
    Identifier(Identifier),
    Value(List<TypedExpressionOrSpread>),
    FunctionCall(Identifier, List<Option<UExpression>>, List<TypedExpression>),
    IfElse(Box<BooleanExpression>, Box<ArrayExpression>, Box<ArrayExpression>),
    Member(Box<StructExpression>, Identifier),
    Select(Box<ArrayExpression>, Box<UExpression>),
    Slice(Box<ArrayExpression>, Box<UExpression>, Box<UExpression>),
    Repeat(Box<TypedExpression>, Box<UExpression>),
}

#[derive(PartialEq, Eq, Debug)]
pub struct StructExpression {
    pub ty: StructType,
    pub inner: StructExpressionInner,
}

#[derive(PartialEq, Eq, Debug)]
pub enum StructExpressionInner {
    Identifier(Identifier),
    Value(List<TypedExpression>),
    FunctionCall(Identifier, List<Option<UExpression>>, List<TypedExpression>),
    IfElse(Box<BooleanExpression>, Box<StructExpression>, Box<StructExpression>),
    Member(Box<StructExpression>, Identifier),
    Select(Box<ArrayExpression>, Box<UExpression>),
}

/// An untyped integer literal: only transiently present, eliminated by
/// literal-type resolution before any fold runs.
#[derive(PartialEq, Eq, Debug)]
pub enum IntExpression {
    Value(u64),
    Add(Box<IntExpression>, Box<IntExpression>),
}

#[derive(PartialEq, Eq, Debug)]
pub enum TypedExpression {
    FieldElement(Box<FieldElementExpression>),
    Boolean(Box<BooleanExpression>),
    Uint(Box<UExpression>),
    Array(Box<ArrayExpression>),
    Struct(Box<StructExpression>),
    Int(Box<IntExpression>),
}

#[derive(PartialEq, Eq, Debug)]
pub struct TypedSpread {
    pub array: ArrayExpression,
}

#[derive(PartialEq, Eq, Debug)]
pub enum TypedExpressionOrSpread {
    Expression(TypedExpression),
    Spread(TypedSpread),
}

#[derive(PartialEq, Eq, Debug)]
pub enum TypedAssignee {
    Identifier(Variable),
    Select(Box<TypedAssignee>, Box<UExpression>),
    Member(Box<TypedAssignee>, Identifier),
}

#[derive(PartialEq, Eq, Debug)]
pub enum TypedExpressionList {
    FunctionCall(Identifier, List<Option<UExpression>>, List<TypedExpression>, List<Type>),
}

#[derive(PartialEq, Eq, Debug)]
pub enum TypedStatement {
    Return(List<TypedExpression>),
    Definition(TypedAssignee, TypedExpression),
    Declaration(Variable),
    Assertion(BooleanExpression),
    For(Variable, UExpression, UExpression, List<TypedStatement>),
    MultipleDefinition(List<TypedAssignee>, TypedExpressionList),
}

#[derive(PartialEq, Eq, Debug)]
pub struct TypedFunction {
    pub generics: List<Identifier>,
    pub arguments: List<DeclarationParameter>,
    pub statements: List<TypedStatement>,
    pub returns: List<DeclarationType>,
}

/// A function defined in this module, or a stable reference to one
/// defined elsewhere, which folding never walks into.
#[derive(PartialEq, Eq, Debug)]
pub enum TypedFunctionSymbol {
    Here(TypedFunction),
    There(Identifier, Identifier),
}

#[derive(PartialEq, Eq, Debug)]
pub struct TypedModule {
    pub functions: List<(Identifier, TypedFunctionSymbol)>,
}

#[derive(PartialEq, Eq, Debug)]
pub struct TypedProgram {
    pub modules: List<(Identifier, TypedModule)>,
    pub main: Identifier,
}

} // verus!
