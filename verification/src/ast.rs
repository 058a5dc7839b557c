//! Abstract syntax tree of the source language. The external front end
//! produces one `Program` per source unit; the interpreter and the compiler
//! both consume this tree and nothing else.

use vstd::prelude::*;

use std::rc::Rc;

verus! {

/// A numeric literal, kept as its source text (digits with an optional
/// fractional part).
pub struct NumberVal {
    pub value: String,
}

/// An identifier occurrence.
pub struct VariableVal {
    pub value: String,
}

/// A string literal, kept as its source text including the surrounding
/// double quotes.
pub struct StringVal {
    pub value: String,
}

/// A capitalized name: a struct type or an error tag.
pub struct StructNameVal {
    pub value: String,
}

/// A lower-case field name.
pub struct FieldNameVal {
    pub value: String,
}

pub enum BoolVal {
    True,
    False,
}

/// The types of the source language.
pub enum KiroType {
    Num,
    Str,
    Bool,
    Void,
    /// `Adr(Void)` is an opaque raw handle; `Adr(T)` an optional shared
    /// mutable pointer to a `T`.
    Adr(Box<KiroType>),
    /// A channel carrying values of the inner type.
    Pipe(Box<KiroType>),
    List(Box<KiroType>),
    MapOf(Box<KiroType>, Box<KiroType>),
    /// A nominal struct type.
    Custom(StructNameVal),
}

/// One `key value` entry of a map literal.
pub struct MapPair {
    pub key: Expression,
    pub value: Expression,
}

/// One `name: type` parameter of a function definition.
pub struct FuncParam {
    pub name: String,
    pub command_type: KiroType,
}

/// One `name: type` field of a struct definition.
pub struct FieldDef {
    pub name: FieldNameVal,
    pub field_type: KiroType,
}

/// One `name: value` entry of a struct literal.
pub struct FieldInit {
    pub name: FieldNameVal,
    pub value: Expression,
}

/// A brace-delimited sequence of statements.
pub struct Block {
    pub statements: Vec<Statement>,
}

/// The `off { ... }` alternative of a conditional or of a filtered loop.
pub struct OffClause {
    pub body: Block,
}

/// The `= "description"` part of an error definition.
pub struct ErrorDesc {
    pub value: StringVal,
}

/// One `error [Tag] { ... }` handler; a clause without a tag catches
/// every error.
pub struct ErrorClause {
    pub error_type: Option<String>,
    pub body: Block,
}

/// One or more error handlers attached to an `on` statement.
pub struct ErrorClauseList {
    pub first: ErrorClause,
    pub rest: Option<Box<ErrorClauseList>>,
}

/// The `per step` clause of an iterator loop.
pub struct StepClause {
    pub value: Expression,
}

/// The `on (condition)` per-item filter of an iterator loop.
pub struct LoopFilter {
    pub condition: Expression,
}

/// A `/// ...` documentation line.
pub struct DocComment {
    pub content: String,
}

/// A `struct Name { fields }` definition.
pub struct StructDef {
    pub name: StructNameVal,
    pub fields: Vec<FieldDef>,
}

/// A `[pure] fn name(params) [-> type] [!] { body }` definition.
pub struct FunctionDef {
    pub is_pure: bool,
    pub name: String,
    pub params: Vec<FuncParam>,
    pub return_type: Option<KiroType>,
    pub can_error: bool,
    pub body: Block,
}

/// A `rust fn name(params) -> type [!]` declaration: a host-backed function
/// with no body, called through the host glue.
pub struct RustFnDecl {
    pub name: String,
    pub params: Vec<FuncParam>,
    pub return_type: KiroType,
    pub can_error: bool,
}

/// An item that documentation comments may precede.
pub enum AnnotatableItem {
    StructDef(StructDef),
    FunctionDef(Rc<FunctionDef>),
    RustFnDecl(Rc<RustFnDecl>),
}

pub enum Statement {
    StructDef(StructDef),
    /// `error Name [= "description"]`
    ErrorDef { name: String, description: Option<ErrorDesc> },
    /// `var x = e` — always declares a mutable binding.
    VarDecl { ident: String, value: Expression },
    /// `lhs = e` — mutation, or, on a fresh simple name, an implicit
    /// immutable declaration.
    AssignStmt { lhs: Expression, rhs: Expression },
    /// `on (c) { } [off { }] [error Tag { } ...]`
    On {
        condition: Expression,
        body: Block,
        else_clause: Option<OffClause>,
        error_clauses: Option<ErrorClauseList>,
    },
    /// `loop on (c) { }` — a while loop.
    LoopOn { condition: Expression, body: Block },
    /// `loop x in e [per s] [on (f)] { } [off { }]` — iteration.
    LoopIter {
        iterator: String,
        iterable: Expression,
        step: Option<StepClause>,
        filter: Option<LoopFilter>,
        body: Block,
        else_clause: Option<OffClause>,
    },
    FunctionDef(Rc<FunctionDef>),
    RustFnDecl(Rc<RustFnDecl>),
    /// `give channel value` — send on a channel.
    Give(Expression, Expression),
    /// `close channel` — close a channel; one-way and idempotent.
    Close(Expression),
    Return(Option<Expression>),
    Break,
    Continue,
    /// `import name`
    Import { module_name: String },
    ExprStmt(Expression),
    Print(Expression),
    Documented { doc: Vec<DocComment>, item: AnnotatableItem },
}

pub enum Expression {
    StructInit(StructNameVal, Vec<FieldInit>),
    ListInit(KiroType, Vec<Expression>),
    MapInit(KiroType, KiroType, Vec<MapPair>),
    FieldAccess(Box<Expression>, FieldNameVal),
    /// `collection at index`
    At(Box<Expression>, Box<Expression>),
    /// `list push value`
    Push(Box<Expression>, Box<Expression>),
    BoolLit(BoolVal),
    Number(NumberVal),
    StringLit(StringVal),
    Variable(VariableVal),
    /// `move x` — a one-time transfer that invalidates the source binding.
    MoveExpr(VariableVal),
    AdrInit(KiroType),
    PipeInit(KiroType),
    /// `take channel` — receive.
    Take(Box<Expression>),
    Len(Box<Expression>),
    Ref(Box<Expression>),
    Deref(Box<Expression>),
    Call(Box<Expression>, Vec<Expression>),
    /// `run f(args)` — spawn the call as an independent unit of work.
    RunCall(Box<Expression>),
    Mul(Box<Expression>, Box<Expression>),
    Div(Box<Expression>, Box<Expression>),
    Add(Box<Expression>, Box<Expression>),
    Sub(Box<Expression>, Box<Expression>),
    Eq(Box<Expression>, Box<Expression>),
    Neq(Box<Expression>, Box<Expression>),
    Gt(Box<Expression>, Box<Expression>),
    Lt(Box<Expression>, Box<Expression>),
    Geq(Box<Expression>, Box<Expression>),
    Leq(Box<Expression>, Box<Expression>),
    Range(Box<Expression>, Box<Expression>),
}

/// A whole source unit: an ordered sequence of statements.
pub struct Program {
    pub statements: Vec<Statement>,
}

} // verus!
