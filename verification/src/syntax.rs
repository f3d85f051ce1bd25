//! The part of Rust's syntax tree that kernel functions are written in.
//!
//! Every node that can be reported in an error carries a `span`: a number
//! chosen by whoever builds the tree, which the error hands back so the
//! caller can point at the offending source.
use vstd::prelude::*;

verus! {

/// A literal.
#[derive(Clone, Debug)]
pub struct Lit {
    pub span: usize,
    pub kind: LitKind,
}

#[derive(Clone, Debug)]
pub enum LitKind {
    /// An integer literal, as written (with any suffix).
    Int(String),
    Bool(bool),
    /// A string, byte, character or float literal.
    Other,
}

/// A path such as `foo::Bar`, by the identifiers of its segments.
#[derive(Clone, Debug)]
pub struct Path {
    pub segments: Vec<String>,
}

/// A field of a struct or tuple, by name or by position.
#[derive(Clone, Debug)]
pub enum Member {
    Named(String),
    Unnamed(u32),
}

/// A pattern.
#[derive(Debug)]
pub struct Pat {
    pub span: usize,
    pub kind: PatKind,
}

#[derive(Debug)]
pub enum PatKind {
    Ident(PatIdent),
    TupleStruct(PatTupleStruct),
    Tuple(PatTuple),
    Path(PatPath),
    Struct(PatStruct),
    Type(PatType),
    Lit(Lit),
    /// `_`
    Wild,
    /// `a..b`, `a..=b`
    Range,
    Paren(PatParen),
    Or(PatOr),
    /// Any other pattern (references, slices, macros, ...)
    Other,
}

/// `[ref] [mut] name`
#[derive(Debug)]
pub struct PatIdent {
    pub name: String,
    pub by_ref: bool,
    pub mutability: bool,
}

/// `Path(a, b, ..)`
#[derive(Debug)]
pub struct PatTupleStruct {
    pub path: Path,
    pub elems: Vec<Pat>,
}

/// `(a, b, ..)`
#[derive(Debug)]
pub struct PatTuple {
    pub elems: Vec<Pat>,
}

/// `Path`, possibly with a qualified self (`<T as Trait>::Path`).
#[derive(Debug)]
pub struct PatPath {
    pub qself: bool,
    pub path: Path,
}

/// `Path { member: pat, .. }`
#[derive(Debug)]
pub struct PatStruct {
    pub qself: bool,
    pub path: Path,
    pub fields: Vec<FieldPat>,
    pub rest: bool,
}

/// `pat: Type`, the type given by its source text.
#[derive(Debug)]
pub struct PatType {
    pub pat: Box<Pat>,
    pub ty: String,
}

/// `(pat)`
#[derive(Debug)]
pub struct PatParen {
    pub pat: Box<Pat>,
}

/// `a | b | ..`
#[derive(Debug)]
pub struct PatOr {
    pub cases: Vec<Pat>,
}

/// `member: pat` inside a struct pattern.
#[derive(Debug)]
pub struct FieldPat {
    pub member: Member,
    pub pat: Pat,
}

/// Binary operators, including the compound assignments.
#[derive(Clone, Copy, PartialEq, Eq, Structural, Debug)]
pub enum BinOp {
    Add,
    Sub,
    Mul,
    Div,
    Rem,
    And,
    Or,
    BitXor,
    BitAnd,
    BitOr,
    Shl,
    Shr,
    Eq,
    Lt,
    Le,
    Ne,
    Ge,
    Gt,
    AddAssign,
    SubAssign,
    MulAssign,
    DivAssign,
    RemAssign,
    BitXorAssign,
    BitAndAssign,
    BitOrAssign,
    ShlAssign,
    ShrAssign,
}

/// Unary operators.
#[derive(Clone, Copy, PartialEq, Eq, Structural, Debug)]
pub enum UnOp {
    Deref,
    Not,
    Neg,
}

/// `..` or `..=`.
#[derive(Clone, Copy, PartialEq, Eq, Structural, Debug)]
pub enum RangeLimits {
    HalfOpen,
    Closed,
}

/// An expression.
#[derive(Debug)]
pub struct Expr {
    pub span: usize,
    pub kind: ExprKind,
}

#[derive(Debug)]
pub enum ExprKind {
    Lit(ExprLit),
    Binary(ExprBinary),
    Unary(ExprUnary),
    Group(ExprGroup),
    Paren(ExprParen),
    Assign(ExprAssign),
    Path(ExprPath),
    Struct(ExprStruct),
    Block(ExprBlock),
    Field(ExprField),
    If(ExprIf),
    Let(ExprLet),
    Match(ExprMatch),
    Range(ExprRange),
    Try(ExprTry),
    Return(ExprReturn),
    Tuple(ExprTuple),
    Repeat(ExprRepeat),
    ForLoop(ExprForLoop),
    While,
    Call(ExprCall),
    Array(ExprArray),
    Index(ExprIndex),
    MethodCall(ExprMethodCall),
    /// Any other expression (closures, casts, loops, macros, ...)
    Other,
}

#[derive(Debug)]
pub struct ExprLit {
    pub lit: Lit,
}

#[derive(Debug)]
pub struct ExprBinary {
    pub op: BinOp,
    pub left: Box<Expr>,
    pub right: Box<Expr>,
}

#[derive(Debug)]
pub struct ExprUnary {
    pub op: UnOp,
    pub expr: Box<Expr>,
}

/// An invisible group, as produced by macro expansion.
#[derive(Debug)]
pub struct ExprGroup {
    pub expr: Box<Expr>,
}

#[derive(Debug)]
pub struct ExprParen {
    pub expr: Box<Expr>,
}

#[derive(Debug)]
pub struct ExprAssign {
    pub left: Box<Expr>,
    pub right: Box<Expr>,
}

#[derive(Debug)]
pub struct ExprPath {
    pub path: Path,
}

/// `Path { member: expr, .. rest }`
#[derive(Debug)]
pub struct ExprStruct {
    pub qself: bool,
    pub path: Path,
    pub fields: Vec<FieldValue>,
    pub rest: Option<Box<Expr>>,
}

#[derive(Debug)]
pub struct ExprBlock {
    pub block: Block,
}

#[derive(Debug)]
pub struct ExprField {
    pub base: Box<Expr>,
    pub member: Member,
}

#[derive(Debug)]
pub struct ExprIf {
    pub cond: Box<Expr>,
    pub then_branch: Block,
    pub else_branch: Option<Box<Expr>>,
}

/// `let pat = expr` in a condition.
#[derive(Debug)]
pub struct ExprLet {
    pub pat: Pat,
    pub expr: Box<Expr>,
}

#[derive(Debug)]
pub struct ExprMatch {
    pub expr: Box<Expr>,
    pub arms: Vec<Arm>,
}

#[derive(Debug)]
pub struct ExprRange {
    pub start: Option<Box<Expr>>,
    pub limits: RangeLimits,
    pub end: Option<Box<Expr>>,
}

/// `expr?`
#[derive(Debug)]
pub struct ExprTry {
    pub expr: Box<Expr>,
}

#[derive(Debug)]
pub struct ExprReturn {
    pub expr: Option<Box<Expr>>,
}

#[derive(Debug)]
pub struct ExprTuple {
    pub elems: Vec<Expr>,
}

/// `[expr; len]`
#[derive(Debug)]
pub struct ExprRepeat {
    pub expr: Box<Expr>,
    pub len: Box<Expr>,
}

#[derive(Debug)]
pub struct ExprForLoop {
    pub pat: Pat,
    pub expr: Box<Expr>,
    pub body: Block,
}

#[derive(Debug)]
pub struct ExprCall {
    pub func: Box<Expr>,
    pub args: Vec<Expr>,
}

#[derive(Debug)]
pub struct ExprArray {
    pub elems: Vec<Expr>,
}

#[derive(Debug)]
pub struct ExprIndex {
    pub expr: Box<Expr>,
    pub index: Box<Expr>,
}

#[derive(Debug)]
pub struct ExprMethodCall {
    pub receiver: Box<Expr>,
    pub method: String,
    pub args: Vec<Expr>,
}

/// `member: expr` inside a struct expression.
#[derive(Debug)]
pub struct FieldValue {
    pub member: Member,
    pub expr: Expr,
}

/// One arm of a `match`.
#[derive(Debug)]
pub struct Arm {
    pub pat: Pat,
    pub guard: Option<Box<Expr>>,
    pub body: Box<Expr>,
}

/// A statement.
#[derive(Debug)]
pub struct Stmt {
    pub span: usize,
    pub kind: StmtKind,
}

#[derive(Debug)]
pub enum StmtKind {
    Local(Local),
    /// An expression, with (`true`) or without a trailing semicolon.
    Expr(Expr, bool),
    /// An item or a macro in statement position.
    Other,
}

/// `let pat [= init];`
#[derive(Debug)]
pub struct Local {
    pub pat: Pat,
    pub init: Option<Expr>,
}

/// `{ stmts }`
#[derive(Debug)]
pub struct Block {
    pub stmts: Vec<Stmt>,
}

/// A function item: its name and its body.
#[derive(Debug)]
pub struct ItemFn {
    pub ident: String,
    pub block: Block,
}

} // verus!
