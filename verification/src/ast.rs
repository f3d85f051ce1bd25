//! The AST of a kernel function, as type inference sees it: every node
//! may carry the id that inference gave it.
use vstd::prelude::*;
use crate::builder::{AstBinOp, AstUnOp};

verus! {

/// The id of an AST node; inference names the type of a node by it.
pub type NodeId = usize;

#[derive(Debug)]
pub struct Kernel {
    pub ast: KernelFn,
}

#[derive(Debug)]
pub struct KernelFn {
    pub id: Option<NodeId>,
    pub name: String,
    pub inputs: Vec<Pat>,
    pub body: Block,
}

#[derive(Debug)]
pub struct Block {
    pub id: Option<NodeId>,
    pub stmts: Vec<Stmt>,
}

#[derive(Debug)]
pub struct Stmt {
    pub id: Option<NodeId>,
    pub kind: StmtKind,
}

#[derive(Debug)]
pub enum StmtKind {
    Local(Local),
    Expr(Expr),
    Semi(Expr),
}

#[derive(Debug)]
pub struct Local {
    pub id: Option<NodeId>,
    pub pat: Pat,
    pub init: Option<Box<Expr>>,
}

#[derive(Debug)]
pub struct Pat {
    pub id: Option<NodeId>,
    pub kind: PatKind,
}

#[derive(Debug)]
pub enum PatKind {
    Ident { name: String, mutable: bool },
    Wild,
    Lit,
    Tuple { elems: Vec<Pat> },
    TupleStruct { path: Vec<String>, elems: Vec<Pat> },
    Struct { path: Vec<String>, fields: Vec<FieldPat>, rest: bool },
    Path { path: Vec<String> },
    Type { pat: Box<Pat> },
}

#[derive(Debug)]
pub struct FieldPat {
    pub member: String,
    pub pat: Pat,
}

#[derive(Debug)]
pub struct Expr {
    pub id: Option<NodeId>,
    pub kind: ExprKind,
}

#[derive(Debug)]
pub enum ExprKind {
    Binary { op: AstBinOp, lhs: Box<Expr>, rhs: Box<Expr> },
    Unary { op: AstUnOp, arg: Box<Expr> },
    Match { expr: Box<Expr>, arms: Vec<Arm> },
    Ret { expr: Option<Box<Expr>> },
    If { cond: Box<Expr>, then_branch: Block, else_branch: Option<Box<Expr>> },
    Index { expr: Box<Expr>, index: Box<Expr> },
    Lit,
    Paren { expr: Box<Expr> },
    Group { expr: Box<Expr> },
    Tuple { elems: Vec<Expr> },
    Array { elems: Vec<Expr> },
    Struct { path: Vec<String>, fields: Vec<FieldValue>, rest: Option<Box<Expr>> },
    Field { expr: Box<Expr>, member: String },
    Block { block: Block },
    Range { start: Option<Box<Expr>>, end: Option<Box<Expr>> },
    Path { path: Vec<String> },
    Let { pat: Pat, value: Box<Expr> },
    Repeat { value: Box<Expr>, len: Box<Expr> },
    Assign(ExprAssign),
    For { pat: Pat, expr: Box<Expr>, body: Block },
    Call { path: Vec<String>, args: Vec<Expr> },
    MethodCall { receiver: Box<Expr>, args: Vec<Expr>, name: String },
}

#[derive(Debug)]
pub struct ExprAssign {
    pub lhs: Box<Expr>,
    pub rhs: Box<Expr>,
}

#[derive(Debug)]
pub struct FieldValue {
    pub member: String,
    pub value: Expr,
}

#[derive(Debug)]
pub struct Arm {
    pub pat: Pat,
    pub guard: Option<Box<Expr>>,
    pub body: Box<Expr>,
}

} // verus!
