//! Code that builds a kernel AST at run time: nested calls of the AST
//! builder functions, with their arguments.
use vstd::prelude::*;

verus! {

/// The functions of the AST builder that generated code calls.
#[derive(Clone, Copy, PartialEq, Eq, Structural, Debug)]
pub enum Builder {
    Block,
    BlockExpr,
    SemiStmt,
    ExprStmt,
    LocalStmt,
    IdentPat,
    TupleStructPat,
    TuplePat,
    PathPat,
    StructPat,
    TypePat,
    LitPat,
    WildPat,
    FieldPat,
    MethodExpr,
    IndexExpr,
    ArrayExpr,
    CallExpr,
    ForExpr,
    RepeatExpr,
    TupleExpr,
    GroupExpr,
    ParenExpr,
    ReturnExpr,
    RangeLimitsHalfOpen,
    RangeLimitsClosed,
    RangeExpr,
    MatchExpr,
    Arm,
    LetExpr,
    IfExpr,
    StructExpr,
    PathExpr,
    Path,
    PathSegment,
    AssignExpr,
    FieldExpr,
    FieldValue,
    MemberNamed,
    MemberUnnamed,
    UnaryExpr,
    BinaryExpr,
    LitExpr,
    ExprLitInt,
    ExprLitBool,
}

/// The binary operators of the kernel AST.
#[derive(Clone, Copy, PartialEq, Eq, Structural, Debug)]
pub enum AstBinOp {
    Add,
    Sub,
    Mul,
    And,
    Or,
    BitXor,
    BitAnd,
    BitOr,
    Shl,
    Shr,
    Eq,
    Lt,
    Le,
    Ne,
    Ge,
    Gt,
    AddAssign,
    SubAssign,
    MulAssign,
    BitXorAssign,
    BitAndAssign,
    BitOrAssign,
    ShlAssign,
    ShrAssign,
}

/// The unary operators of the kernel AST.
#[derive(Clone, Copy, PartialEq, Eq, Structural, Debug)]
pub enum AstUnOp {
    Neg,
    Not,
}

/// A piece of generated code.
#[derive(Debug)]
pub enum Code {
    /// A call of an AST builder function.
    Call(Builder, Vec<Code>),
    /// A vector of values (`vec![..]`).
    List(Vec<Code>),
    /// `Some(..)`
    Present(Box<Code>),
    /// `None`
    Absent,
    /// The text of an identifier or literal token, as a `String`.
    Name(String),
    Bool(bool),
    Index(u32),
    BinOp(AstBinOp),
    UnOp(AstUnOp),
    /// The kind of the type whose source text is given (the `Digital`
    /// kind of that type).
    KindOf(String),
    /// The inner code followed by a stray comma.
    Trailing(Box<Code>),
}

/// The mathematical form of a piece of generated code.
pub enum CodeSpec {
    Call(Builder, Seq<CodeSpec>),
    List(Seq<CodeSpec>),
    Present(Box<CodeSpec>),
    Absent,
    Name(String),
    Bool(bool),
    Index(u32),
    BinOp(AstBinOp),
    UnOp(AstUnOp),
    KindOf(String),
    Trailing(Box<CodeSpec>),
}

/// The mathematical form of `c`.
pub open spec fn code_view(c: Code) -> CodeSpec
    decreases c, 0int,
{
    match c {
        Code::Call(b, v) => CodeSpec::Call(b, codes_view(v@, v@.len() as int)),
        Code::List(v) => CodeSpec::List(codes_view(v@, v@.len() as int)),
        Code::Present(b) => CodeSpec::Present(Box::new(code_view(*b))),
        Code::Absent => CodeSpec::Absent,
        Code::Name(s) => CodeSpec::Name(s),
        Code::Bool(b) => CodeSpec::Bool(b),
        Code::Index(i) => CodeSpec::Index(i),
        Code::BinOp(o) => CodeSpec::BinOp(o),
        Code::UnOp(o) => CodeSpec::UnOp(o),
        Code::KindOf(t) => CodeSpec::KindOf(t),
        Code::Trailing(b) => CodeSpec::Trailing(Box::new(code_view(*b))),
    }
}

/// The mathematical forms of the first `n` pieces of `s`.
pub open spec fn codes_view(s: Seq<Code>, n: int) -> Seq<CodeSpec>
    decreases s, n,
{
    if n <= 0 || n > s.len() {
        seq![]
    } else {
        codes_view(s, n - 1).push(code_view(s[n - 1]))
    }
}

/// The mathematical form of all of `v`.
pub open spec fn vec_view(v: Vec<Code>) -> Seq<CodeSpec> {
    codes_view(v@, v@.len() as int)
}

/// Pieces that agree on the first `n` positions have the same first `n` forms.
pub proof fn lemma_codes_view_prefix(s: Seq<Code>, t: Seq<Code>, n: int)
    requires
        0 <= n <= t.len(),
        n <= s.len(),
        forall|k: int| 0 <= k < n ==> s[k] == t[k],
    ensures
        codes_view(s, n) == codes_view(t, n),
    decreases n,
{
    if n > 0 {
        lemma_codes_view_prefix(s, t, n - 1);
    }
}

/// Appending a piece appends its form.
pub proof fn lemma_codes_view_push(s: Seq<Code>, c: Code)
    ensures
        codes_view(s.push(c), s.len() + 1int) == codes_view(s, s.len() as int).push(code_view(c)),
{
    lemma_codes_view_prefix(s.push(c), s, s.len() as int);
}

/// Appends `c` to `v`, keeping track of the forms.
pub fn push_code(v: &mut Vec<Code>, c: Code)
    ensures
        vec_view(*final(v)) == vec_view(*old(v)).push(code_view(c)),
{
    proof {
        lemma_codes_view_push(v@, c);
    }
    v.push(c);
}

/// A call of `b` with no arguments.
pub fn call0(b: Builder) -> (r: Code)
    ensures
        code_view(r) == CodeSpec::Call(b, seq![]),
{
    let v: Vec<Code> = Vec::new();
    assert(vec_view(v) =~= seq![]);
    Code::Call(b, v)
}

/// A call of `b` with one argument.
pub fn call1(b: Builder, a: Code) -> (r: Code)
    ensures
        code_view(r) == CodeSpec::Call(b, seq![code_view(a)]),
{
    let ghost va = code_view(a);
    let mut v: Vec<Code> = Vec::new();
    push_code(&mut v, a);
    assert(vec_view(v) =~= seq![va]);
    Code::Call(b, v)
}

/// A call of `b` with two arguments.
pub fn call2(b: Builder, a1: Code, a2: Code) -> (r: Code)
    ensures
        code_view(r) == CodeSpec::Call(b, seq![code_view(a1), code_view(a2)]),
{
    let ghost v1 = code_view(a1);
    let ghost v2 = code_view(a2);
    let mut v: Vec<Code> = Vec::new();
    push_code(&mut v, a1);
    push_code(&mut v, a2);
    assert(vec_view(v) =~= seq![v1, v2]);
    Code::Call(b, v)
}

/// A call of `b` with three arguments.
pub fn call3(b: Builder, a1: Code, a2: Code, a3: Code) -> (r: Code)
    ensures
        code_view(r) == CodeSpec::Call(b, seq![code_view(a1), code_view(a2), code_view(a3)]),
{
    let ghost v1 = code_view(a1);
    let ghost v2 = code_view(a2);
    let ghost v3 = code_view(a3);
    let mut v: Vec<Code> = Vec::new();
    push_code(&mut v, a1);
    push_code(&mut v, a2);
    push_code(&mut v, a3);
    assert(vec_view(v) =~= seq![v1, v2, v3]);
    Code::Call(b, v)
}

/// `Some(c)` when there is a piece, `None` when there is not.
pub fn optional(c: Option<Code>) -> (r: Code)
    ensures
        code_view(r) == match c {
            Some(x) => CodeSpec::Present(Box::new(code_view(x))),
            None => CodeSpec::Absent,
        },
{
    match c {
        Some(x) => Code::Present(Box::new(x)),
        None => Code::Absent,
    }
}

} // verus!
