//! Translation of a kernel function's syntax into code that builds its
//! AST, refusing the constructs that kernels do not support.
use vstd::prelude::*;
use crate::builder::{
    AstBinOp, AstUnOp, Builder, Code, CodeSpec, call0, call1, call2, call3, code_view, optional,
    push_code, vec_view,
};
use crate::syntax::{
    Arm, BinOp, Block, Expr, ExprArray, ExprAssign, ExprBinary, ExprBlock, ExprCall, ExprField,
    ExprForLoop, ExprGroup, ExprIf, ExprIndex, ExprKind, ExprLet, ExprLit, ExprMatch,
    ExprMethodCall, ExprParen, ExprPath, ExprRange, ExprRepeat, ExprReturn, ExprStruct, ExprTuple,
    ExprUnary, FieldPat, FieldValue, ItemFn, Lit, LitKind, Local, Member, Pat, PatKind, Path,
    RangeLimits, Stmt, StmtKind, UnOp,
};

verus! {

/// Why a construct was refused.
#[derive(Clone, Copy, PartialEq, Eq, Structural, Debug)]
pub enum ErrorKind {
    UnsupportedStatement,
    UnsupportedReferencePattern,
    UnsupportedQualifiedSelf,
    UnsupportedPattern,
    UnsupportedExpression,
    UnsupportedFunctionCall,
    UnsupportedWhileLoop,
    UnsupportedTry,
    UnsupportedTupleStructPattern,
    UnsupportedStructPatternLiteral,
    UnsupportedMatchPattern,
    UnsupportedUnaryOperator,
    UnsupportedBinaryOperator,
    UnsupportedLiteral,
}

/// A refused construct: where it is and why it was refused.
#[derive(Clone, Copy, PartialEq, Eq, Structural, Debug)]
pub struct KernelError {
    pub span: usize,
    pub kind: ErrorKind,
}

pub open spec fn fail(span: usize, kind: ErrorKind) -> KernelError {
    KernelError { span, kind }
}

/// The message that reports a refusal of kind `kind`; a refused expression
/// is named by its source text `expr_text`.
pub open spec fn error_text(kind: ErrorKind, expr_text: Seq<char>) -> Seq<char> {
    match kind {
        ErrorKind::UnsupportedExpression => "Unsupported expression type "@ + expr_text
            + " in an rhdl kernel function"@,
        ErrorKind::UnsupportedStatement => "Unsupported statement type"@,
        ErrorKind::UnsupportedReferencePattern => "Unsupported reference pattern"@,
        ErrorKind::UnsupportedQualifiedSelf => "Unsupported qualified self in rhdl kernel function"@,
        ErrorKind::UnsupportedPattern => "Unsupported pattern type"@,
        ErrorKind::UnsupportedFunctionCall => "Unsupported function call in rhdl kernel function (only paths allowed here)"@,
        ErrorKind::UnsupportedWhileLoop => "Unsupported while loop in rhdl kernel function"@,
        ErrorKind::UnsupportedTry => "Unsupported try expression in rhdl kernel function"@,
        ErrorKind::UnsupportedTupleStructPattern => "Unsupported tuple struct pattern - rhdl only supports simple patterns like Foo(a,b,_)"@,
        ErrorKind::UnsupportedStructPatternLiteral => "Unsupported literal or range in struct pattern"@,
        ErrorKind::UnsupportedMatchPattern => "Unsupported match pattern in rhdl kernel function"@,
        ErrorKind::UnsupportedUnaryOperator => "Unsupported unary operator in rhdl kernel function"@,
        ErrorKind::UnsupportedBinaryOperator => "Unsupported binary operator in rhdl kernel function"@,
        ErrorKind::UnsupportedLiteral => "Unsupported literal type in rhdl kernel function"@,
    }
}

impl KernelError {
    /// The message that reports this refusal (see `error_text`); only a
    /// refused expression uses `expr_text`, its source text.
    pub fn message(&self, expr_text: &str) -> (m: String)
        ensures
            m@ == error_text(self.kind, expr_text@),
    {
        let fixed: &str = match self.kind {
            ErrorKind::UnsupportedExpression => {
                let mut m = String::from_str("Unsupported expression type ");
                m.append(expr_text);
                m.append(" in an rhdl kernel function");
                return m;
            },
            ErrorKind::UnsupportedStatement => "Unsupported statement type",
            ErrorKind::UnsupportedReferencePattern => "Unsupported reference pattern",
            ErrorKind::UnsupportedQualifiedSelf => "Unsupported qualified self in rhdl kernel function",
            ErrorKind::UnsupportedPattern => "Unsupported pattern type",
            ErrorKind::UnsupportedFunctionCall => "Unsupported function call in rhdl kernel function (only paths allowed here)",
            ErrorKind::UnsupportedWhileLoop => "Unsupported while loop in rhdl kernel function",
            ErrorKind::UnsupportedTry => "Unsupported try expression in rhdl kernel function",
            ErrorKind::UnsupportedTupleStructPattern => "Unsupported tuple struct pattern - rhdl only supports simple patterns like Foo(a,b,_)",
            ErrorKind::UnsupportedStructPatternLiteral => "Unsupported literal or range in struct pattern",
            ErrorKind::UnsupportedMatchPattern => "Unsupported match pattern in rhdl kernel function",
            ErrorKind::UnsupportedUnaryOperator => "Unsupported unary operator in rhdl kernel function",
            ErrorKind::UnsupportedBinaryOperator => "Unsupported binary operator in rhdl kernel function",
            ErrorKind::UnsupportedLiteral => "Unsupported literal type in rhdl kernel function",
        };
        String::from_str(fixed)
    }
}

/// The translation `r` of a node agrees with its specified translation `s`.
pub open spec fn agrees(r: Result<Code, KernelError>, s: Result<CodeSpec, KernelError>) -> bool {
    match r {
        Ok(c) => s == Ok::<CodeSpec, KernelError>(code_view(c)),
        Err(e) => s == Err::<CodeSpec, KernelError>(e),
    }
}

/// The translation `r` of a list agrees with its specified translation `s`.
pub open spec fn agrees_all(r: Result<Vec<Code>, KernelError>, s: Result<Seq<CodeSpec>, KernelError>) -> bool {
    match r {
        Ok(v) => s == Ok::<Seq<CodeSpec>, KernelError>(vec_view(v)),
        Err(e) => s == Err::<Seq<CodeSpec>, KernelError>(e),
    }
}

// ---------------------------------------------------------------------
// Specification of the translation
// ---------------------------------------------------------------------

/// A literal: integers by their token, booleans by their value.
pub open spec fn spec_hdl_lit_inner(l: Lit) -> Result<CodeSpec, KernelError> {
    match l.kind {
        LitKind::Int(t) => Ok(CodeSpec::Call(Builder::ExprLitInt, seq![CodeSpec::Name(t)])),
        LitKind::Bool(b) => Ok(CodeSpec::Call(Builder::ExprLitBool, seq![CodeSpec::Bool(b)])),
        LitKind::Other => Err(fail(l.span, ErrorKind::UnsupportedLiteral)),
    }
}

pub open spec fn spec_hdl_path_segment(s: String) -> CodeSpec {
    CodeSpec::Call(Builder::PathSegment, seq![CodeSpec::Name(s)])
}

pub open spec fn spec_hdl_path_inner(p: Path) -> CodeSpec {
    CodeSpec::Call(
        Builder::Path,
        seq![CodeSpec::List(p.segments@.map_values(|s: String| spec_hdl_path_segment(s)))],
    )
}

pub open spec fn spec_hdl_member(m: Member) -> CodeSpec {
    match m {
        Member::Named(n) => CodeSpec::Call(Builder::MemberNamed, seq![CodeSpec::Name(n)]),
        Member::Unnamed(i) => CodeSpec::Call(Builder::MemberUnnamed, seq![CodeSpec::Index(i)]),
    }
}

pub open spec fn spec_hdl_pat(p: Pat) -> Result<CodeSpec, KernelError>
    decreases p, 0int,
{
    match p.kind {
        PatKind::Ident(i) => if i.by_ref {
            Err(fail(p.span, ErrorKind::UnsupportedReferencePattern))
        } else {
            Ok(
                CodeSpec::Call(
                    Builder::IdentPat,
                    seq![CodeSpec::Name(i.name), CodeSpec::Bool(i.mutability)],
                ),
            )
        },
        PatKind::TupleStruct(t) => match spec_hdl_pats(t.elems@, t.elems@.len() as int) {
            Ok(es) => Ok(
                CodeSpec::Call(
                    Builder::TupleStructPat,
                    seq![spec_hdl_path_inner(t.path), CodeSpec::List(es)],
                ),
            ),
            Err(e) => Err(e),
        },
        PatKind::Tuple(t) => match spec_hdl_pats(t.elems@, t.elems@.len() as int) {
            Ok(es) => Ok(CodeSpec::Call(Builder::TuplePat, seq![CodeSpec::List(es)])),
            Err(e) => Err(e),
        },
        PatKind::Path(pp) => Ok(CodeSpec::Call(Builder::PathPat, seq![spec_hdl_path_inner(pp.path)])),
        PatKind::Struct(s) => match spec_hdl_field_pats(s.fields@, s.fields@.len() as int) {
            Ok(fs) => if s.qself {
                Err(fail(p.span, ErrorKind::UnsupportedQualifiedSelf))
            } else {
                Ok(
                    CodeSpec::Call(
                        Builder::StructPat,
                        seq![
                            spec_hdl_path_inner(s.path),
                            CodeSpec::List(fs),
                            CodeSpec::Bool(s.rest),
                        ],
                    ),
                )
            },
            Err(e) => Err(e),
        },
        PatKind::Type(t) => match spec_hdl_pat(*t.pat) {
            Ok(c) => Ok(CodeSpec::Call(Builder::TypePat, seq![c, CodeSpec::KindOf(t.ty)])),
            Err(e) => Err(e),
        },
        PatKind::Lit(l) => match spec_hdl_lit_inner(l) {
            Ok(c) => Ok(CodeSpec::Call(Builder::LitPat, seq![c])),
            Err(e) => Err(e),
        },
        PatKind::Wild => Ok(CodeSpec::Call(Builder::WildPat, seq![])),
        _ => Err(fail(p.span, ErrorKind::UnsupportedPattern)),
    }
}

/// The translations of the first `n` patterns, or the first refusal among them.
pub open spec fn spec_hdl_pats(s: Seq<Pat>, n: int) -> Result<Seq<CodeSpec>, KernelError>
    decreases s, n,
{
    if n <= 0 || n > s.len() {
        Ok(seq![])
    } else {
        match spec_hdl_pats(s, n - 1) {
            Err(e) => Err(e),
            Ok(p) => match spec_hdl_pat(s[n - 1]) {
                Err(e) => Err(e),
                Ok(c) => Ok(p.push(c)),
            },
        }
    }
}

pub open spec fn spec_hdl_field_pat(f: FieldPat) -> Result<CodeSpec, KernelError>
    decreases f, 0int,
{
    match spec_hdl_pat(f.pat) {
        Ok(c) => Ok(CodeSpec::Call(Builder::FieldPat, seq![spec_hdl_member(f.member), c])),
        Err(e) => Err(e),
    }
}

pub open spec fn spec_hdl_field_pats(s: Seq<FieldPat>, n: int) -> Result<Seq<CodeSpec>, KernelError>
    decreases s, n,
{
    if n <= 0 || n > s.len() {
        Ok(seq![])
    } else {
        match spec_hdl_field_pats(s, n - 1) {
            Err(e) => Err(e),
            Ok(p) => match spec_hdl_field_pat(s[n - 1]) {
                Err(e) => Err(e),
                Ok(c) => Ok(p.push(c)),
            },
        }
    }
}

/// A simple binding or `_`.
pub open spec fn spec_ident_or_wildcard(p: Pat) -> bool {
    (p.kind is Ident) || (p.kind is Wild)
}

/// The translation of a match arm's pattern: enum variants may bind only
/// names or `_`, paths may not have a qualified self, and apart from
/// those only literals and `_` are allowed.
pub open spec fn spec_hdl_pat_arm(p: Pat) -> Result<CodeSpec, KernelError> {
    match p.kind {
        PatKind::TupleStruct(t) => if forall|i: int|
            0 <= i < t.elems@.len() ==> spec_ident_or_wildcard(#[trigger] t.elems@[i]) {
            spec_hdl_pat(p)
        } else {
            Err(fail(p.span, ErrorKind::UnsupportedTupleStructPattern))
        },
        PatKind::Struct(s) => if forall|i: int|
            0 <= i < s.fields@.len() ==> spec_ident_or_wildcard(#[trigger] s.fields@[i].pat) {
            spec_hdl_pat(p)
        } else {
            Err(fail(p.span, ErrorKind::UnsupportedStructPatternLiteral))
        },
        PatKind::Path(pp) => if pp.qself {
            Err(fail(p.span, ErrorKind::UnsupportedQualifiedSelf))
        } else {
            spec_hdl_pat(p)
        },
        PatKind::Lit(_) => spec_hdl_pat(p),
        PatKind::Wild => spec_hdl_pat(p),
        _ => Err(fail(p.span, ErrorKind::UnsupportedMatchPattern)),
    }
}

pub open spec fn spec_ast_binop(op: BinOp) -> Option<AstBinOp> {
    match op {
        BinOp::Add => Some(AstBinOp::Add),
        BinOp::Sub => Some(AstBinOp::Sub),
        BinOp::Mul => Some(AstBinOp::Mul),
        BinOp::And => Some(AstBinOp::And),
        BinOp::Or => Some(AstBinOp::Or),
        BinOp::BitXor => Some(AstBinOp::BitXor),
        BinOp::BitAnd => Some(AstBinOp::BitAnd),
        BinOp::BitOr => Some(AstBinOp::BitOr),
        BinOp::Shl => Some(AstBinOp::Shl),
        BinOp::Shr => Some(AstBinOp::Shr),
        BinOp::Eq => Some(AstBinOp::Eq),
        BinOp::Lt => Some(AstBinOp::Lt),
        BinOp::Le => Some(AstBinOp::Le),
        BinOp::Ne => Some(AstBinOp::Ne),
        BinOp::Ge => Some(AstBinOp::Ge),
        BinOp::Gt => Some(AstBinOp::Gt),
        BinOp::AddAssign => Some(AstBinOp::AddAssign),
        BinOp::SubAssign => Some(AstBinOp::SubAssign),
        BinOp::MulAssign => Some(AstBinOp::MulAssign),
        BinOp::BitXorAssign => Some(AstBinOp::BitXorAssign),
        BinOp::BitAndAssign => Some(AstBinOp::BitAndAssign),
        BinOp::BitOrAssign => Some(AstBinOp::BitOrAssign),
        BinOp::ShlAssign => Some(AstBinOp::ShlAssign),
        BinOp::ShrAssign => Some(AstBinOp::ShrAssign),
        _ => None,
    }
}

pub open spec fn spec_ast_unop(op: UnOp) -> Option<AstUnOp> {
    match op {
        UnOp::Neg => Some(AstUnOp::Neg),
        UnOp::Not => Some(AstUnOp::Not),
        UnOp::Deref => None,
    }
}

/// `Some(translation)` of an optional expression, or `None`.
pub open spec fn spec_hdl_opt_expr(o: Option<Box<Expr>>) -> Result<CodeSpec, KernelError>
    decreases o, 0int,
{
    match o {
        Some(b) => match spec_hdl_expr(*b) {
            Ok(c) => Ok(CodeSpec::Present(Box::new(c))),
            Err(e) => Err(e),
        },
        None => Ok(CodeSpec::Absent),
    }
}

pub open spec fn spec_hdl_expr(e: Expr) -> Result<CodeSpec, KernelError>
    decreases e, 0int,
{
    match e.kind {
        ExprKind::Lit(l) => spec_hdl_lit(l, e.span),
        ExprKind::Binary(b) => spec_hdl_binary(b, e.span),
        ExprKind::Unary(u) => spec_hdl_unary(u, e.span),
        ExprKind::Group(g) => spec_hdl_group(g, e.span),
        ExprKind::Paren(p) => spec_hdl_paren(p, e.span),
        ExprKind::Assign(a) => spec_hdl_assign(a, e.span),
        ExprKind::Path(p) => spec_hdl_path(p, e.span),
        ExprKind::Struct(s) => spec_hdl_struct(s, e.span),
        ExprKind::Block(b) => spec_hdl_block(b, e.span),
        ExprKind::Field(f) => spec_hdl_field(f, e.span),
        ExprKind::If(i) => spec_hdl_if(i, e.span),
        ExprKind::Let(l) => spec_hdl_let(l, e.span),
        ExprKind::Match(m) => spec_hdl_match(m, e.span),
        ExprKind::Range(r) => spec_hdl_range(r, e.span),
        ExprKind::Try(_) => Err(fail(e.span, ErrorKind::UnsupportedTry)),
        ExprKind::Return(r) => spec_hdl_return(r, e.span),
        ExprKind::Tuple(t) => spec_hdl_tuple(t, e.span),
        ExprKind::Repeat(r) => spec_hdl_repeat(r, e.span),
        ExprKind::ForLoop(f) => spec_hdl_for_loop(f, e.span),
        ExprKind::While => Err(fail(e.span, ErrorKind::UnsupportedWhileLoop)),
        ExprKind::Call(c) => spec_hdl_call(c, e.span),
        ExprKind::Array(a) => spec_hdl_array(a, e.span),
        ExprKind::Index(i) => spec_hdl_index(i, e.span),
        ExprKind::MethodCall(m) => spec_hdl_method_call(m, e.span),
        ExprKind::Other => Err(fail(e.span, ErrorKind::UnsupportedExpression)),
    }
}

pub open spec fn spec_hdl_lit(l: ExprLit, span: usize) -> Result<CodeSpec, KernelError>
    decreases l, 0int,
{
    match spec_hdl_lit_inner(l.lit) {
        Ok(c) => Ok(CodeSpec::Call(Builder::LitExpr, seq![c])),
        Err(x) => Err(x),
    }
}

pub open spec fn spec_hdl_binary(b: ExprBinary, span: usize) -> Result<CodeSpec, KernelError>
    decreases b, 0int,
{
    match spec_ast_binop(b.op) {
        None => Err(fail(span, ErrorKind::UnsupportedBinaryOperator)),
        Some(op) => match spec_hdl_expr(*b.left) {
            Err(x) => Err(x),
            Ok(l) => match spec_hdl_expr(*b.right) {
                Err(x) => Err(x),
                Ok(r) => Ok(CodeSpec::Call(Builder::BinaryExpr, seq![CodeSpec::BinOp(op), l, r])),
            },
        },
    }
}

pub open spec fn spec_hdl_unary(u: ExprUnary, span: usize) -> Result<CodeSpec, KernelError>
    decreases u, 0int,
{
    match spec_ast_unop(u.op) {
        None => Err(fail(span, ErrorKind::UnsupportedUnaryOperator)),
        Some(op) => match spec_hdl_expr(*u.expr) {
            Err(x) => Err(x),
            Ok(c) => Ok(CodeSpec::Call(Builder::UnaryExpr, seq![CodeSpec::UnOp(op), c])),
        },
    }
}

pub open spec fn spec_hdl_group(g: ExprGroup, span: usize) -> Result<CodeSpec, KernelError>
    decreases g, 0int,
{
    match spec_hdl_expr(*g.expr) {
        Err(x) => Err(x),
        Ok(c) => Ok(CodeSpec::Call(Builder::GroupExpr, seq![c])),
    }
}

pub open spec fn spec_hdl_paren(p: ExprParen, span: usize) -> Result<CodeSpec, KernelError>
    decreases p, 0int,
{
    match spec_hdl_expr(*p.expr) {
        Err(x) => Err(x),
        Ok(c) => Ok(CodeSpec::Call(Builder::ParenExpr, seq![c])),
    }
}

pub open spec fn spec_hdl_assign(a: ExprAssign, span: usize) -> Result<CodeSpec, KernelError>
    decreases a, 0int,
{
    match spec_hdl_expr(*a.left) {
        Err(x) => Err(x),
        Ok(l) => match spec_hdl_expr(*a.right) {
            Err(x) => Err(x),
            Ok(r) => Ok(CodeSpec::Call(Builder::AssignExpr, seq![l, r])),
        },
    }
}

pub open spec fn spec_hdl_path(p: ExprPath, span: usize) -> Result<CodeSpec, KernelError>
    decreases p, 0int,
{
    Ok(CodeSpec::Call(Builder::PathExpr, seq![spec_hdl_path_inner(p.path)]))
}

pub open spec fn spec_hdl_struct(s: ExprStruct, span: usize) -> Result<CodeSpec, KernelError>
    decreases s, 0int,
{
    match spec_hdl_field_values(s.fields@, s.fields@.len() as int) {
        Err(x) => Err(x),
        Ok(fs) => if s.qself {
            Err(fail(span, ErrorKind::UnsupportedQualifiedSelf))
        } else {
            match s.rest {
                Some(b) => match spec_hdl_expr(*b) {
                    Err(x) => Err(x),
                    Ok(r) => Ok(
                        CodeSpec::Trailing(
                            Box::new(
                                CodeSpec::Call(
                                    Builder::StructExpr,
                                    seq![spec_hdl_path_inner(s.path), CodeSpec::List(fs), r],
                                ),
                            ),
                        ),
                    ),
                },
                None => Ok(
                    CodeSpec::Trailing(
                        Box::new(
                            CodeSpec::Call(
                                Builder::StructExpr,
                                seq![
                                    spec_hdl_path_inner(s.path),
                                    CodeSpec::List(fs),
                                    CodeSpec::Absent,
                                ],
                            ),
                        ),
                    ),
                ),
            }
        },
    }
}

pub open spec fn spec_hdl_block(b: ExprBlock, span: usize) -> Result<CodeSpec, KernelError>
    decreases b, 0int,
{
    match spec_hdl_block_inner(b.block) {
        Err(x) => Err(x),
        Ok(c) => Ok(CodeSpec::Call(Builder::BlockExpr, seq![c])),
    }
}

pub open spec fn spec_hdl_field(f: ExprField, span: usize) -> Result<CodeSpec, KernelError>
    decreases f, 0int,
{
    match spec_hdl_expr(*f.base) {
        Err(x) => Err(x),
        Ok(c) => Ok(CodeSpec::Call(Builder::FieldExpr, seq![c, spec_hdl_member(f.member)])),
    }
}

pub open spec fn spec_hdl_if(i: ExprIf, span: usize) -> Result<CodeSpec, KernelError>
    decreases i, 0int,
{
    match spec_hdl_expr(*i.cond) {
        Err(x) => Err(x),
        Ok(c) => match spec_hdl_block_inner(i.then_branch) {
            Err(x) => Err(x),
            Ok(t) => match spec_hdl_opt_expr(i.else_branch) {
                Err(x) => Err(x),
                Ok(el) => Ok(CodeSpec::Call(Builder::IfExpr, seq![c, t, el])),
            },
        },
    }
}

pub open spec fn spec_hdl_let(l: ExprLet, span: usize) -> Result<CodeSpec, KernelError>
    decreases l, 0int,
{
    match spec_hdl_pat(l.pat) {
        Err(x) => Err(x),
        Ok(p) => match spec_hdl_expr(*l.expr) {
            Err(x) => Err(x),
            Ok(v) => Ok(CodeSpec::Call(Builder::LetExpr, seq![p, v])),
        },
    }
}

pub open spec fn spec_hdl_match(m: ExprMatch, span: usize) -> Result<CodeSpec, KernelError>
    decreases m, 0int,
{
    match spec_hdl_arms(m.arms@, m.arms@.len() as int) {
        Err(x) => Err(x),
        Ok(arms) => match spec_hdl_expr(*m.expr) {
            Err(x) => Err(x),
            Ok(c) => Ok(CodeSpec::Call(Builder::MatchExpr, seq![c, CodeSpec::List(arms)])),
        },
    }
}

pub open spec fn spec_hdl_range(r: ExprRange, span: usize) -> Result<CodeSpec, KernelError>
    decreases r, 0int,
{
    match spec_hdl_opt_expr(r.start) {
        Err(x) => Err(x),
        Ok(s) => match spec_hdl_opt_expr(r.end) {
            Err(x) => Err(x),
            Ok(en) => Ok(
                CodeSpec::Call(
                    Builder::RangeExpr,
                    seq![
                        s,
                        CodeSpec::Call(
                            match r.limits {
                                RangeLimits::HalfOpen => Builder::RangeLimitsHalfOpen,
                                RangeLimits::Closed => Builder::RangeLimitsClosed,
                            },
                            seq![],
                        ),
                        en,
                    ],
                ),
            ),
        },
    }
}

pub open spec fn spec_hdl_return(r: ExprReturn, span: usize) -> Result<CodeSpec, KernelError>
    decreases r, 0int,
{
    match spec_hdl_opt_expr(r.expr) {
        Err(x) => Err(x),
        Ok(c) => Ok(CodeSpec::Call(Builder::ReturnExpr, seq![c])),
    }
}

pub open spec fn spec_hdl_tuple(t: ExprTuple, span: usize) -> Result<CodeSpec, KernelError>
    decreases t, 0int,
{
    match spec_hdl_exprs(t.elems@, t.elems@.len() as int) {
        Err(x) => Err(x),
        Ok(es) => Ok(CodeSpec::Call(Builder::TupleExpr, seq![CodeSpec::List(es)])),
    }
}

pub open spec fn spec_hdl_repeat(r: ExprRepeat, span: usize) -> Result<CodeSpec, KernelError>
    decreases r, 0int,
{
    match spec_hdl_expr(*r.len) {
        Err(x) => Err(x),
        Ok(len) => match spec_hdl_expr(*r.expr) {
            Err(x) => Err(x),
            Ok(c) => Ok(CodeSpec::Call(Builder::RepeatExpr, seq![c, len])),
        },
    }
}

pub open spec fn spec_hdl_for_loop(f: ExprForLoop, span: usize) -> Result<CodeSpec, KernelError>
    decreases f, 0int,
{
    match spec_hdl_pat(f.pat) {
        Err(x) => Err(x),
        Ok(p) => match spec_hdl_block_inner(f.body) {
            Err(x) => Err(x),
            Ok(b) => match spec_hdl_expr(*f.expr) {
                Err(x) => Err(x),
                Ok(c) => Ok(CodeSpec::Call(Builder::ForExpr, seq![p, c, b])),
            },
        },
    }
}

pub open spec fn spec_hdl_call(c: ExprCall, span: usize) -> Result<CodeSpec, KernelError>
    decreases c, 0int,
{
    match c.func.kind {
        ExprKind::Path(fp) => match spec_hdl_exprs(c.args@, c.args@.len() as int) {
            Err(x) => Err(x),
            Ok(args) => Ok(
                CodeSpec::Call(
                    Builder::CallExpr,
                    seq![spec_hdl_path_inner(fp.path), CodeSpec::List(args)],
                ),
            ),
        },
        _ => Err(fail(c.func.span, ErrorKind::UnsupportedFunctionCall)),
    }
}

pub open spec fn spec_hdl_array(a: ExprArray, span: usize) -> Result<CodeSpec, KernelError>
    decreases a, 0int,
{
    match spec_hdl_exprs(a.elems@, a.elems@.len() as int) {
        Err(x) => Err(x),
        Ok(es) => Ok(CodeSpec::Call(Builder::ArrayExpr, seq![CodeSpec::List(es)])),
    }
}

pub open spec fn spec_hdl_index(i: ExprIndex, span: usize) -> Result<CodeSpec, KernelError>
    decreases i, 0int,
{
    match spec_hdl_expr(*i.index) {
        Err(x) => Err(x),
        Ok(ix) => match spec_hdl_expr(*i.expr) {
            Err(x) => Err(x),
            Ok(c) => Ok(CodeSpec::Call(Builder::IndexExpr, seq![c, ix])),
        },
    }
}

pub open spec fn spec_hdl_method_call(m: ExprMethodCall, span: usize) -> Result<CodeSpec, KernelError>
    decreases m, 0int,
{
    match spec_hdl_expr(*m.receiver) {
        Err(x) => Err(x),
        Ok(r) => match spec_hdl_exprs(m.args@, m.args@.len() as int) {
            Err(x) => Err(x),
            Ok(args) => Ok(
                CodeSpec::Call(
                    Builder::MethodExpr,
                    seq![r, CodeSpec::List(args), CodeSpec::Name(m.method)],
                ),
            ),
        },
    }
}

/// The translations of the first `n` expressions, or the first refusal among them.
pub open spec fn spec_hdl_exprs(s: Seq<Expr>, n: int) -> Result<Seq<CodeSpec>, KernelError>
    decreases s, n,
{
    if n <= 0 || n > s.len() {
        Ok(seq![])
    } else {
        match spec_hdl_exprs(s, n - 1) {
            Err(e) => Err(e),
            Ok(p) => match spec_hdl_expr(s[n - 1]) {
                Err(e) => Err(e),
                Ok(c) => Ok(p.push(c)),
            },
        }
    }
}

pub open spec fn spec_hdl_field_value(f: FieldValue) -> Result<CodeSpec, KernelError>
    decreases f, 0int,
{
    match spec_hdl_expr(f.expr) {
        Ok(c) => Ok(CodeSpec::Call(Builder::FieldValue, seq![spec_hdl_member(f.member), c])),
        Err(e) => Err(e),
    }
}

pub open spec fn spec_hdl_field_values(s: Seq<FieldValue>, n: int) -> Result<Seq<CodeSpec>, KernelError>
    decreases s, n,
{
    if n <= 0 || n > s.len() {
        Ok(seq![])
    } else {
        match spec_hdl_field_values(s, n - 1) {
            Err(e) => Err(e),
            Ok(p) => match spec_hdl_field_value(s[n - 1]) {
                Err(e) => Err(e),
                Ok(c) => Ok(p.push(c)),
            },
        }
    }
}

pub open spec fn spec_hdl_arm(a: Arm) -> Result<CodeSpec, KernelError>
    decreases a, 0int,
{
    match spec_hdl_pat_arm(a.pat) {
        Err(e) => Err(e),
        Ok(p) => match spec_hdl_opt_expr(a.guard) {
            Err(e) => Err(e),
            Ok(g) => match spec_hdl_expr(*a.body) {
                Err(e) => Err(e),
                Ok(b) => Ok(CodeSpec::Call(Builder::Arm, seq![p, g, b])),
            },
        },
    }
}

pub open spec fn spec_hdl_arms(s: Seq<Arm>, n: int) -> Result<Seq<CodeSpec>, KernelError>
    decreases s, n,
{
    if n <= 0 || n > s.len() {
        Ok(seq![])
    } else {
        match spec_hdl_arms(s, n - 1) {
            Err(e) => Err(e),
            Ok(p) => match spec_hdl_arm(s[n - 1]) {
                Err(e) => Err(e),
                Ok(c) => Ok(p.push(c)),
            },
        }
    }
}

pub open spec fn spec_hdl_stmt(st: Stmt) -> Result<CodeSpec, KernelError>
    decreases st, 0int,
{
    match st.kind {
        StmtKind::Local(l) => match spec_hdl_pat(l.pat) {
            Err(e) => Err(e),
            Ok(p) => match l.init {
                Some(i) => match spec_hdl_expr(i) {
                    Err(e) => Err(e),
                    Ok(c) => Ok(
                        CodeSpec::Call(
                            Builder::LocalStmt,
                            seq![p, CodeSpec::Present(Box::new(c))],
                        ),
                    ),
                },
                None => Ok(CodeSpec::Call(Builder::LocalStmt, seq![p, CodeSpec::Absent])),
            },
        },
        StmtKind::Expr(x, semi) => match spec_hdl_expr(x) {
            Err(e) => Err(e),
            Ok(c) => Ok(
                CodeSpec::Call(
                    if semi {
                        Builder::SemiStmt
                    } else {
                        Builder::ExprStmt
                    },
                    seq![c],
                ),
            ),
        },
        StmtKind::Other => Err(fail(st.span, ErrorKind::UnsupportedStatement)),
    }
}

pub open spec fn spec_hdl_stmts(s: Seq<Stmt>, n: int) -> Result<Seq<CodeSpec>, KernelError>
    decreases s, n,
{
    if n <= 0 || n > s.len() {
        Ok(seq![])
    } else {
        match spec_hdl_stmts(s, n - 1) {
            Err(e) => Err(e),
            Ok(p) => match spec_hdl_stmt(s[n - 1]) {
                Err(e) => Err(e),
                Ok(c) => Ok(p.push(c)),
            },
        }
    }
}

/// `block(vec![statements])`
pub open spec fn spec_hdl_block_inner(b: Block) -> Result<CodeSpec, KernelError>
    decreases b, 0int,
{
    match spec_hdl_stmts(b.stmts@, b.stmts@.len() as int) {
        Err(e) => Err(e),
        Ok(ss) => Ok(CodeSpec::Call(Builder::Block, seq![CodeSpec::List(ss)])),
    }
}


// ---------------------------------------------------------------------
// A refusal among the first elements of a list is the refusal of the list
// ---------------------------------------------------------------------

proof fn lemma_pats_err_stays(s: Seq<Pat>, i: int, j: int)
    requires
        0 <= i <= j <= s.len(),
        spec_hdl_pats(s, i) is Err,
    ensures
        spec_hdl_pats(s, j) == spec_hdl_pats(s, i),
    decreases j - i,
{
    if j > i {
        lemma_pats_err_stays(s, i, j - 1);
    }
}

proof fn lemma_field_pats_err_stays(s: Seq<FieldPat>, i: int, j: int)
    requires
        0 <= i <= j <= s.len(),
        spec_hdl_field_pats(s, i) is Err,
    ensures
        spec_hdl_field_pats(s, j) == spec_hdl_field_pats(s, i),
    decreases j - i,
{
    if j > i {
        lemma_field_pats_err_stays(s, i, j - 1);
    }
}

proof fn lemma_exprs_err_stays(s: Seq<Expr>, i: int, j: int)
    requires
        0 <= i <= j <= s.len(),
        spec_hdl_exprs(s, i) is Err,
    ensures
        spec_hdl_exprs(s, j) == spec_hdl_exprs(s, i),
    decreases j - i,
{
    if j > i {
        lemma_exprs_err_stays(s, i, j - 1);
    }
}

proof fn lemma_field_values_err_stays(s: Seq<FieldValue>, i: int, j: int)
    requires
        0 <= i <= j <= s.len(),
        spec_hdl_field_values(s, i) is Err,
    ensures
        spec_hdl_field_values(s, j) == spec_hdl_field_values(s, i),
    decreases j - i,
{
    if j > i {
        lemma_field_values_err_stays(s, i, j - 1);
    }
}

proof fn lemma_arms_err_stays(s: Seq<Arm>, i: int, j: int)
    requires
        0 <= i <= j <= s.len(),
        spec_hdl_arms(s, i) is Err,
    ensures
        spec_hdl_arms(s, j) == spec_hdl_arms(s, i),
    decreases j - i,
{
    if j > i {
        lemma_arms_err_stays(s, i, j - 1);
    }
}

proof fn lemma_stmts_err_stays(s: Seq<Stmt>, i: int, j: int)
    requires
        0 <= i <= j <= s.len(),
        spec_hdl_stmts(s, i) is Err,
    ensures
        spec_hdl_stmts(s, j) == spec_hdl_stmts(s, i),
    decreases j - i,
{
    if j > i {
        lemma_stmts_err_stays(s, i, j - 1);
    }
}

// ---------------------------------------------------------------------
// The translation
// ---------------------------------------------------------------------

/// A function ready to be emitted: the name of the function that builds
/// the AST of the kernel's body, and the code of that body.
#[derive(Debug)]
pub struct KernelFn {
    pub name: String,
    pub body: Code,
}

/// `_hdl_kernel`
pub open spec fn kernel_suffix() -> Seq<char> {
    seq!['_', 'h', 'd', 'l', '_', 'k', 'e', 'r', 'n', 'e', 'l']
}

/// Translates a kernel function: the builder of its body is named after
/// the function with `_hdl_kernel` appended.
pub fn hdl_kernel(input: &ItemFn) -> (r: Result<KernelFn, KernelError>)
    ensures
        match r {
            Ok(k) => k.name@ == input.ident@ + kernel_suffix() && spec_hdl_block_inner(input.block)
                == Ok::<CodeSpec, KernelError>(code_view(k.body)),
            Err(e) => spec_hdl_block_inner(input.block) == Err::<CodeSpec, KernelError>(e),
        },
{
    proof {
        reveal_strlit("_hdl_kernel");
    }
    let mut name = input.ident.clone();
    name.append("_hdl_kernel");
    let block = hdl_block_inner(&input.block);
    match block {
        Ok(body) => Ok(KernelFn { name, body }),
        Err(e) => Err(e),
    }
}

/// A block used as an expression: `block_expr(block(..))`.
pub fn hdl_block(block: &Block) -> (r: Result<Code, KernelError>)
    ensures
        agrees(
            r,
            match spec_hdl_block_inner(*block) {
                Ok(c) => Ok(CodeSpec::Call(Builder::BlockExpr, seq![c])),
                Err(e) => Err(e),
            },
        ),
    decreases *block, 1int,
{
    let inner = hdl_block_inner(block)?;
    Ok(call1(Builder::BlockExpr, inner))
}

fn hdl_block_inner(block: &Block) -> (r: Result<Code, KernelError>)
    ensures
        agrees(r, spec_hdl_block_inner(*block)),
    decreases *block, 0int,
{
    let stmts = hdl_stmts(&block.stmts)?;
    Ok(call1(Builder::Block, Code::List(stmts)))
}

fn hdl_stmts(v: &Vec<Stmt>) -> (r: Result<Vec<Code>, KernelError>)
    ensures
        agrees_all(r, spec_hdl_stmts(v@, v@.len() as int)),
    decreases v@, 0int,
{
    let mut acc: Vec<Code> = Vec::new();
    let mut i: usize = 0;
    while i < v.len()
        invariant
            i <= v@.len(),
            spec_hdl_stmts(v@, i as int) == Ok::<Seq<CodeSpec>, KernelError>(vec_view(acc)),
        decreases v@.len() - i,
    {
        match stmt(&v[i]) {
            Ok(c) => push_code(&mut acc, c),
            Err(x) => {
                proof {
                    lemma_stmts_err_stays(v@, i + 1, v@.len() as int);
                }
                return Err(x);
            },
        }
        i = i + 1;
    }
    Ok(acc)
}

/// Translates a statement: `let`, or an expression with or without `;`.
pub fn stmt(statement: &Stmt) -> (r: Result<Code, KernelError>)
    ensures
        agrees(r, spec_hdl_stmt(*statement)),
    decreases *statement, 1int,
{
    match &statement.kind {
        StmtKind::Local(local) => stmt_local(statement),
        StmtKind::Expr(expr, semi) => {
            let expr = hdl_expr(expr)?;
            if *semi {
                Ok(call1(Builder::SemiStmt, expr))
            } else {
                Ok(call1(Builder::ExprStmt, expr))
            }
        },
        StmtKind::Other => Err(KernelError { span: statement.span, kind: ErrorKind::UnsupportedStatement }),
    }
}

fn stmt_local(statement: &Stmt) -> (r: Result<Code, KernelError>)
    requires
        statement.kind is Local,
    ensures
        agrees(r, spec_hdl_stmt(*statement)),
    decreases *statement, 0int,
{
    match &statement.kind {
        StmtKind::Local(local) => {
            let pattern = hdl_pat(&local.pat)?;
            let local_init = match &local.init {
                Some(x) => Some(hdl_expr(x)?),
                None => None,
            };
            Ok(call2(Builder::LocalStmt, pattern, optional(local_init)))
        },
        _ => unreached(),
    }
}

/// Translates a pattern.
pub fn hdl_pat(pat: &Pat) -> (r: Result<Code, KernelError>)
    ensures
        agrees(r, spec_hdl_pat(*pat)),
    decreases *pat, 0int,
{
    match &pat.kind {
        PatKind::Ident(ident) => {
            if ident.by_ref {
                return Err(KernelError { span: pat.span, kind: ErrorKind::UnsupportedReferencePattern });
            }
            Ok(call2(Builder::IdentPat, Code::Name(ident.name.clone()), Code::Bool(ident.mutability)))
        },
        PatKind::TupleStruct(tuple) => {
            let path = hdl_path_inner(&tuple.path);
            let elems = hdl_pats(&tuple.elems)?;
            Ok(call2(Builder::TupleStructPat, path, Code::List(elems)))
        },
        PatKind::Tuple(tuple) => {
            let elems = hdl_pats(&tuple.elems)?;
            Ok(call1(Builder::TuplePat, Code::List(elems)))
        },
        PatKind::Path(path) => {
            let path = hdl_path_inner(&path.path);
            Ok(call1(Builder::PathPat, path))
        },
        PatKind::Struct(structure) => {
            let path = hdl_path_inner(&structure.path);
            let fields = hdl_field_pats(&structure.fields)?;
            if structure.qself {
                return Err(KernelError { span: pat.span, kind: ErrorKind::UnsupportedQualifiedSelf });
            }
            Ok(call3(Builder::StructPat, path, Code::List(fields), Code::Bool(structure.rest)))
        },
        PatKind::Type(t) => {
            let inner = hdl_pat(&t.pat)?;
            Ok(call2(Builder::TypePat, inner, Code::KindOf(t.ty.clone())))
        },
        PatKind::Lit(lit) => {
            let lit = hdl_lit_inner(lit)?;
            Ok(call1(Builder::LitPat, lit))
        },
        PatKind::Wild => Ok(call0(Builder::WildPat)),
        _ => Err(KernelError { span: pat.span, kind: ErrorKind::UnsupportedPattern }),
    }
}

fn hdl_pats(v: &Vec<Pat>) -> (r: Result<Vec<Code>, KernelError>)
    ensures
        agrees_all(r, spec_hdl_pats(v@, v@.len() as int)),
    decreases v@, 0int,
{
    let mut acc: Vec<Code> = Vec::new();
    let mut i: usize = 0;
    while i < v.len()
        invariant
            i <= v@.len(),
            spec_hdl_pats(v@, i as int) == Ok::<Seq<CodeSpec>, KernelError>(vec_view(acc)),
        decreases v@.len() - i,
    {
        match hdl_pat(&v[i]) {
            Ok(c) => push_code(&mut acc, c),
            Err(x) => {
                proof {
                    lemma_pats_err_stays(v@, i + 1, v@.len() as int);
                }
                return Err(x);
            },
        }
        i = i + 1;
    }
    Ok(acc)
}

fn hdl_field_pat(field: &FieldPat) -> (r: Result<Code, KernelError>)
    ensures
        agrees(r, spec_hdl_field_pat(*field)),
    decreases *field, 0int,
{
    let member = hdl_member(&field.member);
    let pat = hdl_pat(&field.pat)?;
    Ok(call2(Builder::FieldPat, member, pat))
}

fn hdl_field_pats(v: &Vec<FieldPat>) -> (r: Result<Vec<Code>, KernelError>)
    ensures
        agrees_all(r, spec_hdl_field_pats(v@, v@.len() as int)),
    decreases v@, 0int,
{
    let mut acc: Vec<Code> = Vec::new();
    let mut i: usize = 0;
    while i < v.len()
        invariant
            i <= v@.len(),
            spec_hdl_field_pats(v@, i as int) == Ok::<Seq<CodeSpec>, KernelError>(vec_view(acc)),
        decreases v@.len() - i,
    {
        match hdl_field_pat(&v[i]) {
            Ok(c) => push_code(&mut acc, c),
            Err(x) => {
                proof {
                    lemma_field_pats_err_stays(v@, i + 1, v@.len() as int);
                }
                return Err(x);
            },
        }
        i = i + 1;
    }
    Ok(acc)
}

/// Whether the pattern is a plain binding or `_`.
pub fn ident_or_wildcard(pat: &Pat) -> (r: bool)
    ensures
        r == spec_ident_or_wildcard(*pat),
{
    matches!(pat.kind, PatKind::Ident(_) | PatKind::Wild)
}

fn all_ident_or_wildcard(v: &Vec<Pat>) -> (r: bool)
    ensures
        r == forall|i: int| 0 <= i < v@.len() ==> spec_ident_or_wildcard(#[trigger] v@[i]),
{
    let mut i: usize = 0;
    while i < v.len()
        invariant
            i <= v@.len(),
            forall|j: int| 0 <= j < i ==> spec_ident_or_wildcard(#[trigger] v@[j]),
        decreases v@.len() - i,
    {
        if !ident_or_wildcard(&v[i]) {
            return false;
        }
        i = i + 1;
    }
    true
}

fn all_fields_ident_or_wildcard(v: &Vec<FieldPat>) -> (r: bool)
    ensures
        r == forall|i: int| 0 <= i < v@.len() ==> spec_ident_or_wildcard(#[trigger] v@[i].pat),
{
    let mut i: usize = 0;
    while i < v.len()
        invariant
            i <= v@.len(),
            forall|j: int| 0 <= j < i ==> spec_ident_or_wildcard(#[trigger] v@[j].pat),
        decreases v@.len() - i,
    {
        if !ident_or_wildcard(&v[i].pat) {
            return false;
        }
        i = i + 1;
    }
    true
}

/// Translates the pattern of a match arm (see `spec_hdl_pat_arm`).
pub fn hdl_pat_arm(pat: &Pat) -> (r: Result<Code, KernelError>)
    ensures
        agrees(r, spec_hdl_pat_arm(*pat)),
{
    match &pat.kind {
        PatKind::TupleStruct(tuple) => {
            if !all_ident_or_wildcard(&tuple.elems) {
                return Err(KernelError { span: pat.span, kind: ErrorKind::UnsupportedTupleStructPattern });
            }
        },
        PatKind::Struct(structure) => {
            if !all_fields_ident_or_wildcard(&structure.fields) {
                return Err(KernelError { span: pat.span, kind: ErrorKind::UnsupportedStructPatternLiteral });
            }
        },
        PatKind::Path(path) => {
            if path.qself {
                return Err(KernelError { span: pat.span, kind: ErrorKind::UnsupportedQualifiedSelf });
            }
        },
        PatKind::Lit(_) | PatKind::Wild => {},
        _ => {
            return Err(KernelError { span: pat.span, kind: ErrorKind::UnsupportedMatchPattern });
        },
    }
    hdl_pat(pat)
}

fn hdl_lit_inner(lit: &Lit) -> (r: Result<Code, KernelError>)
    ensures
        agrees(r, spec_hdl_lit_inner(*lit)),
{
    match &lit.kind {
        LitKind::Int(token) => Ok(call1(Builder::ExprLitInt, Code::Name(token.clone()))),
        LitKind::Bool(value) => Ok(call1(Builder::ExprLitBool, Code::Bool(*value))),
        LitKind::Other => Err(KernelError { span: lit.span, kind: ErrorKind::UnsupportedLiteral }),
    }
}

fn hdl_path_segment(segment: &String) -> (r: Code)
    ensures
        code_view(r) == spec_hdl_path_segment(*segment),
{
    call1(Builder::PathSegment, Code::Name(segment.clone()))
}

fn hdl_path_inner(path: &Path) -> (r: Code)
    ensures
        code_view(r) == spec_hdl_path_inner(*path),
{
    let mut acc: Vec<Code> = Vec::new();
    let mut i: usize = 0;
    let ghost segs = path.segments@;
    while i < path.segments.len()
        invariant
            i <= segs.len(),
            segs == path.segments@,
            vec_view(acc) == segs.take(i as int).map_values(|s: String| spec_hdl_path_segment(s)),
        decreases segs.len() - i,
    {
        let c = hdl_path_segment(&path.segments[i]);
        push_code(&mut acc, c);
        proof {
            assert(segs.take(i + 1) =~= segs.take(i as int).push(segs[i as int]));
            assert(vec_view(acc) =~= segs.take(i + 1).map_values(
                |s: String| spec_hdl_path_segment(s),
            ));
        }
        i = i + 1;
    }
    assert(segs.take(segs.len() as int) =~= segs);
    call1(Builder::Path, Code::List(acc))
}

fn hdl_member(member: &Member) -> (r: Code)
    ensures
        code_view(r) == spec_hdl_member(*member),
{
    match member {
        Member::Named(ident) => call1(Builder::MemberNamed, Code::Name(ident.clone())),
        Member::Unnamed(index) => call1(Builder::MemberUnnamed, Code::Index(*index)),
    }
}

fn hdl_opt_expr(o: &Option<Box<Expr>>) -> (r: Result<Code, KernelError>)
    ensures
        agrees(r, spec_hdl_opt_expr(*o)),
    decreases *o, 0int,
{
    match o {
        Some(x) => {
            let c = hdl_expr(x)?;
            Ok(Code::Present(Box::new(c)))
        },
        None => Ok(Code::Absent),
    }
}

/// Translates an expression.
pub fn hdl_expr(expr: &Expr) -> (r: Result<Code, KernelError>)
    ensures
        agrees(r, spec_hdl_expr(*expr)),
    decreases *expr, 1int,
{
    match &expr.kind {
        ExprKind::Lit(_) => hdl_lit(expr),
        ExprKind::Binary(_) => hdl_binary(expr),
        ExprKind::Unary(_) => hdl_unary(expr),
        ExprKind::Group(_) => hdl_group(expr),
        ExprKind::Paren(_) => hdl_paren(expr),
        ExprKind::Assign(_) => hdl_assign(expr),
        ExprKind::Path(p) => Ok(hdl_path(&p.path)),
        ExprKind::Struct(_) => hdl_struct(expr),
        ExprKind::Block(b) => hdl_block(&b.block),
        ExprKind::Field(_) => hdl_field_expression(expr),
        ExprKind::If(_) => hdl_if(expr),
        ExprKind::Let(_) => hdl_let(expr),
        ExprKind::Match(_) => hdl_match(expr),
        ExprKind::Range(_) => hdl_range(expr),
        ExprKind::Try(_) => Err(KernelError { span: expr.span, kind: ErrorKind::UnsupportedTry }),
        ExprKind::Return(_) => hdl_return(expr),
        ExprKind::Tuple(_) => hdl_tuple(expr),
        ExprKind::Repeat(_) => hdl_repeat(expr),
        ExprKind::ForLoop(_) => hdl_for_loop(expr),
        ExprKind::While => Err(KernelError { span: expr.span, kind: ErrorKind::UnsupportedWhileLoop }),
        ExprKind::Call(_) => hdl_call(expr),
        ExprKind::Array(_) => hdl_array(expr),
        ExprKind::Index(_) => hdl_index(expr),
        ExprKind::MethodCall(_) => hdl_method_call(expr),
        ExprKind::Other => Err(KernelError { span: expr.span, kind: ErrorKind::UnsupportedExpression }),
    }
}

fn hdl_exprs(v: &Vec<Expr>) -> (r: Result<Vec<Code>, KernelError>)
    ensures
        agrees_all(r, spec_hdl_exprs(v@, v@.len() as int)),
    decreases v@, 0int,
{
    let mut acc: Vec<Code> = Vec::new();
    let mut i: usize = 0;
    while i < v.len()
        invariant
            i <= v@.len(),
            spec_hdl_exprs(v@, i as int) == Ok::<Seq<CodeSpec>, KernelError>(vec_view(acc)),
        decreases v@.len() - i,
    {
        match hdl_expr(&v[i]) {
            Ok(c) => push_code(&mut acc, c),
            Err(x) => {
                proof {
                    lemma_exprs_err_stays(v@, i + 1, v@.len() as int);
                }
                return Err(x);
            },
        }
        i = i + 1;
    }
    Ok(acc)
}

fn hdl_lit(expr: &Expr) -> (r: Result<Code, KernelError>)
    requires
        expr.kind is Lit,
    ensures
        agrees(r, spec_hdl_expr(*expr)),
{
    match &expr.kind {
        ExprKind::Lit(l) => {
            let inner = hdl_lit_inner(&l.lit)?;
            Ok(call1(Builder::LitExpr, inner))
        },
        _ => unreached(),
    }
}

fn ast_binop(op: BinOp) -> (r: Option<AstBinOp>)
    ensures
        r == spec_ast_binop(op),
{
    match op {
        BinOp::Add => Some(AstBinOp::Add),
        BinOp::Sub => Some(AstBinOp::Sub),
        BinOp::Mul => Some(AstBinOp::Mul),
        BinOp::And => Some(AstBinOp::And),
        BinOp::Or => Some(AstBinOp::Or),
        BinOp::BitXor => Some(AstBinOp::BitXor),
        BinOp::BitAnd => Some(AstBinOp::BitAnd),
        BinOp::BitOr => Some(AstBinOp::BitOr),
        BinOp::Shl => Some(AstBinOp::Shl),
        BinOp::Shr => Some(AstBinOp::Shr),
        BinOp::Eq => Some(AstBinOp::Eq),
        BinOp::Lt => Some(AstBinOp::Lt),
        BinOp::Le => Some(AstBinOp::Le),
        BinOp::Ne => Some(AstBinOp::Ne),
        BinOp::Ge => Some(AstBinOp::Ge),
        BinOp::Gt => Some(AstBinOp::Gt),
        BinOp::AddAssign => Some(AstBinOp::AddAssign),
        BinOp::SubAssign => Some(AstBinOp::SubAssign),
        BinOp::MulAssign => Some(AstBinOp::MulAssign),
        BinOp::BitXorAssign => Some(AstBinOp::BitXorAssign),
        BinOp::BitAndAssign => Some(AstBinOp::BitAndAssign),
        BinOp::BitOrAssign => Some(AstBinOp::BitOrAssign),
        BinOp::ShlAssign => Some(AstBinOp::ShlAssign),
        BinOp::ShrAssign => Some(AstBinOp::ShrAssign),
        _ => None,
    }
}

/// A binary expression: `binary_expr(op, left, right)` with each operator
/// mapped to the kernel operator of the same name (see `spec_hdl_binary`
/// and `spec_ast_binop`); division, remainder and their assignments are
/// refused.
pub fn hdl_binary(expr: &Expr) -> (r: Result<Code, KernelError>)
    requires
        expr.kind is Binary,
    ensures
        agrees(r, spec_hdl_expr(*expr)),
    decreases *expr, 0int,
{
    match &expr.kind {
        ExprKind::Binary(binary) => {
            let op = match ast_binop(binary.op) {
                Some(op) => op,
                None => {
                    return Err(KernelError { span: expr.span, kind: ErrorKind::UnsupportedBinaryOperator });
                },
            };
            let left = hdl_expr(&binary.left)?;
            let right = hdl_expr(&binary.right)?;
            Ok(call3(Builder::BinaryExpr, Code::BinOp(op), left, right))
        },
        _ => unreached(),
    }
}

fn hdl_unary(expr: &Expr) -> (r: Result<Code, KernelError>)
    requires
        expr.kind is Unary,
    ensures
        agrees(r, spec_hdl_expr(*expr)),
    decreases *expr, 0int,
{
    match &expr.kind {
        ExprKind::Unary(unary) => {
            let op = match unary.op {
                UnOp::Neg => AstUnOp::Neg,
                UnOp::Not => AstUnOp::Not,
                UnOp::Deref => {
                    return Err(KernelError { span: expr.span, kind: ErrorKind::UnsupportedUnaryOperator });
                },
            };
            let inner = hdl_expr(&unary.expr)?;
            Ok(call2(Builder::UnaryExpr, Code::UnOp(op), inner))
        },
        _ => unreached(),
    }
}

fn hdl_group(expr: &Expr) -> (r: Result<Code, KernelError>)
    requires
        expr.kind is Group,
    ensures
        agrees(r, spec_hdl_expr(*expr)),
    decreases *expr, 0int,
{
    match &expr.kind {
        ExprKind::Group(g) => {
            let inner = hdl_expr(&g.expr)?;
            Ok(call1(Builder::GroupExpr, inner))
        },
        _ => unreached(),
    }
}

fn hdl_paren(expr: &Expr) -> (r: Result<Code, KernelError>)
    requires
        expr.kind is Paren,
    ensures
        agrees(r, spec_hdl_expr(*expr)),
    decreases *expr, 0int,
{
    match &expr.kind {
        ExprKind::Paren(p) => {
            let inner = hdl_expr(&p.expr)?;
            Ok(call1(Builder::ParenExpr, inner))
        },
        _ => unreached(),
    }
}

fn hdl_assign(expr: &Expr) -> (r: Result<Code, KernelError>)
    requires
        expr.kind is Assign,
    ensures
        agrees(r, spec_hdl_expr(*expr)),
    decreases *expr, 0int,
{
    match &expr.kind {
        ExprKind::Assign(assign) => {
            let left = hdl_expr(&assign.left)?;
            let right = hdl_expr(&assign.right)?;
            Ok(call2(Builder::AssignExpr, left, right))
        },
        _ => unreached(),
    }
}

fn hdl_path(path: &Path) -> (r: Code)
    ensures
        code_view(r) == CodeSpec::Call(Builder::PathExpr, seq![spec_hdl_path_inner(*path)]),
{
    let inner = hdl_path_inner(path);
    call1(Builder::PathExpr, inner)
}

fn hdl_field_value(field: &FieldValue) -> (r: Result<Code, KernelError>)
    ensures
        agrees(r, spec_hdl_field_value(*field)),
    decreases *field, 0int,
{
    let member = hdl_member(&field.member);
    let value = hdl_expr(&field.expr)?;
    Ok(call2(Builder::FieldValue, member, value))
}

fn hdl_field_values(v: &Vec<FieldValue>) -> (r: Result<Vec<Code>, KernelError>)
    ensures
        agrees_all(r, spec_hdl_field_values(v@, v@.len() as int)),
    decreases v@, 0int,
{
    let mut acc: Vec<Code> = Vec::new();
    let mut i: usize = 0;
    while i < v.len()
        invariant
            i <= v@.len(),
            spec_hdl_field_values(v@, i as int) == Ok::<Seq<CodeSpec>, KernelError>(vec_view(acc)),
        decreases v@.len() - i,
    {
        match hdl_field_value(&v[i]) {
            Ok(c) => push_code(&mut acc, c),
            Err(x) => {
                proof {
                    lemma_field_values_err_stays(v@, i + 1, v@.len() as int);
                }
                return Err(x);
            },
        }
        i = i + 1;
    }
    Ok(acc)
}

fn hdl_struct(expr: &Expr) -> (r: Result<Code, KernelError>)
    requires
        expr.kind is Struct,
    ensures
        agrees(r, spec_hdl_expr(*expr)),
    decreases *expr, 0int,
{
    match &expr.kind {
        ExprKind::Struct(structure) => {
            let path = hdl_path_inner(&structure.path);
            let fields = hdl_field_values(&structure.fields)?;
            if structure.qself {
                return Err(KernelError { span: expr.span, kind: ErrorKind::UnsupportedQualifiedSelf });
            }
            let rest = match &structure.rest {
                Some(x) => hdl_expr(x)?,
                None => Code::Absent,
            };
            Ok(Code::Trailing(Box::new(call3(Builder::StructExpr, path, Code::List(fields), rest))))
        },
        _ => unreached(),
    }
}

fn hdl_field_expression(expr: &Expr) -> (r: Result<Code, KernelError>)
    requires
        expr.kind is Field,
    ensures
        agrees(r, spec_hdl_expr(*expr)),
    decreases *expr, 0int,
{
    match &expr.kind {
        ExprKind::Field(field) => {
            let base = hdl_expr(&field.base)?;
            let member = hdl_member(&field.member);
            Ok(call2(Builder::FieldExpr, base, member))
        },
        _ => unreached(),
    }
}

fn hdl_if(expr: &Expr) -> (r: Result<Code, KernelError>)
    requires
        expr.kind is If,
    ensures
        agrees(r, spec_hdl_expr(*expr)),
    decreases *expr, 0int,
{
    match &expr.kind {
        ExprKind::If(i) => {
            let cond = hdl_expr(&i.cond)?;
            let then = hdl_block_inner(&i.then_branch)?;
            let else_ = hdl_opt_expr(&i.else_branch)?;
            Ok(call3(Builder::IfExpr, cond, then, else_))
        },
        _ => unreached(),
    }
}

fn hdl_let(expr: &Expr) -> (r: Result<Code, KernelError>)
    requires
        expr.kind is Let,
    ensures
        agrees(r, spec_hdl_expr(*expr)),
    decreases *expr, 0int,
{
    match &expr.kind {
        ExprKind::Let(l) => {
            let pattern = hdl_pat(&l.pat)?;
            let value = hdl_expr(&l.expr)?;
            Ok(call2(Builder::LetExpr, pattern, value))
        },
        _ => unreached(),
    }
}

fn hdl_arm(arm: &Arm) -> (r: Result<Code, KernelError>)
    ensures
        agrees(r, spec_hdl_arm(*arm)),
    decreases *arm, 0int,
{
    let pat = hdl_pat_arm(&arm.pat)?;
    let guard = hdl_opt_expr(&arm.guard)?;
    let body = hdl_expr(&arm.body)?;
    Ok(call3(Builder::Arm, pat, guard, body))
}

fn hdl_arms(v: &Vec<Arm>) -> (r: Result<Vec<Code>, KernelError>)
    ensures
        agrees_all(r, spec_hdl_arms(v@, v@.len() as int)),
    decreases v@, 0int,
{
    let mut acc: Vec<Code> = Vec::new();
    let mut i: usize = 0;
    while i < v.len()
        invariant
            i <= v@.len(),
            spec_hdl_arms(v@, i as int) == Ok::<Seq<CodeSpec>, KernelError>(vec_view(acc)),
        decreases v@.len() - i,
    {
        match hdl_arm(&v[i]) {
            Ok(c) => push_code(&mut acc, c),
            Err(x) => {
                proof {
                    lemma_arms_err_stays(v@, i + 1, v@.len() as int);
                }
                return Err(x);
            },
        }
        i = i + 1;
    }
    Ok(acc)
}

fn hdl_match(expr: &Expr) -> (r: Result<Code, KernelError>)
    requires
        expr.kind is Match,
    ensures
        agrees(r, spec_hdl_expr(*expr)),
    decreases *expr, 0int,
{
    match &expr.kind {
        ExprKind::Match(m) => {
            let arms = hdl_arms(&m.arms)?;
            let scrutinee = hdl_expr(&m.expr)?;
            Ok(call2(Builder::MatchExpr, scrutinee, Code::List(arms)))
        },
        _ => unreached(),
    }
}

/// A range expression: `range_expr(start, limits, end)`, each bound
/// `Some(..)` where present and `None` where not, the limits closed for
/// `..=` and half open for `..` (see `spec_hdl_range`).
pub fn hdl_range(expr: &Expr) -> (r: Result<Code, KernelError>)
    requires
        expr.kind is Range,
    ensures
        agrees(r, spec_hdl_expr(*expr)),
    decreases *expr, 0int,
{
    match &expr.kind {
        ExprKind::Range(range) => {
            let start = hdl_opt_expr(&range.start)?;
            let end = hdl_opt_expr(&range.end)?;
            let limits = match range.limits {
                RangeLimits::HalfOpen => call0(Builder::RangeLimitsHalfOpen),
                RangeLimits::Closed => call0(Builder::RangeLimitsClosed),
            };
            Ok(call3(Builder::RangeExpr, start, limits, end))
        },
        _ => unreached(),
    }
}

fn hdl_return(expr: &Expr) -> (r: Result<Code, KernelError>)
    requires
        expr.kind is Return,
    ensures
        agrees(r, spec_hdl_expr(*expr)),
    decreases *expr, 0int,
{
    match &expr.kind {
        ExprKind::Return(ret) => {
            let value = hdl_opt_expr(&ret.expr)?;
            Ok(call1(Builder::ReturnExpr, value))
        },
        _ => unreached(),
    }
}

fn hdl_tuple(expr: &Expr) -> (r: Result<Code, KernelError>)
    requires
        expr.kind is Tuple,
    ensures
        agrees(r, spec_hdl_expr(*expr)),
    decreases *expr, 0int,
{
    match &expr.kind {
        ExprKind::Tuple(t) => {
            let elems = hdl_exprs(&t.elems)?;
            Ok(call1(Builder::TupleExpr, Code::List(elems)))
        },
        _ => unreached(),
    }
}

fn hdl_repeat(expr: &Expr) -> (r: Result<Code, KernelError>)
    requires
        expr.kind is Repeat,
    ensures
        agrees(r, spec_hdl_expr(*expr)),
    decreases *expr, 0int,
{
    match &expr.kind {
        ExprKind::Repeat(rep) => {
            let len = hdl_expr(&rep.len)?;
            let value = hdl_expr(&rep.expr)?;
            Ok(call2(Builder::RepeatExpr, value, len))
        },
        _ => unreached(),
    }
}

fn hdl_for_loop(expr: &Expr) -> (r: Result<Code, KernelError>)
    requires
        expr.kind is ForLoop,
    ensures
        agrees(r, spec_hdl_expr(*expr)),
    decreases *expr, 0int,
{
    match &expr.kind {
        ExprKind::ForLoop(f) => {
            let pat = hdl_pat(&f.pat)?;
            let body = hdl_block_inner(&f.body)?;
            let iter = hdl_expr(&f.expr)?;
            Ok(call3(Builder::ForExpr, pat, iter, body))
        },
        _ => unreached(),
    }
}

fn hdl_call(expr: &Expr) -> (r: Result<Code, KernelError>)
    requires
        expr.kind is Call,
    ensures
        agrees(r, spec_hdl_expr(*expr)),
    decreases *expr, 0int,
{
    match &expr.kind {
        ExprKind::Call(call) => {
            match &call.func.kind {
                ExprKind::Path(func_path) => {
                    let path = hdl_path_inner(&func_path.path);
                    let args = hdl_exprs(&call.args)?;
                    Ok(call2(Builder::CallExpr, path, Code::List(args)))
                },
                _ => Err(KernelError { span: call.func.span, kind: ErrorKind::UnsupportedFunctionCall }),
            }
        },
        _ => unreached(),
    }
}

fn hdl_array(expr: &Expr) -> (r: Result<Code, KernelError>)
    requires
        expr.kind is Array,
    ensures
        agrees(r, spec_hdl_expr(*expr)),
    decreases *expr, 0int,
{
    match &expr.kind {
        ExprKind::Array(a) => {
            let elems = hdl_exprs(&a.elems)?;
            Ok(call1(Builder::ArrayExpr, Code::List(elems)))
        },
        _ => unreached(),
    }
}

fn hdl_index(expr: &Expr) -> (r: Result<Code, KernelError>)
    requires
        expr.kind is Index,
    ensures
        agrees(r, spec_hdl_expr(*expr)),
    decreases *expr, 0int,
{
    match &expr.kind {
        ExprKind::Index(ix) => {
            let index = hdl_expr(&ix.index)?;
            let base = hdl_expr(&ix.expr)?;
            Ok(call2(Builder::IndexExpr, base, index))
        },
        _ => unreached(),
    }
}

fn hdl_method_call(expr: &Expr) -> (r: Result<Code, KernelError>)
    requires
        expr.kind is MethodCall,
    ensures
        agrees(r, spec_hdl_expr(*expr)),
    decreases *expr, 0int,
{
    match &expr.kind {
        ExprKind::MethodCall(m) => {
            let receiver = hdl_expr(&m.receiver)?;
            let args = hdl_exprs(&m.args)?;
            Ok(call3(Builder::MethodExpr, receiver, Code::List(args), Code::Name(m.method.clone())))
        },
        _ => unreached(),
    }
}


/// Whether a pattern contains a literal or a range pattern, looking into
/// parentheses, enum variants, structs and alternatives.
pub open spec fn spec_literal_or_ranges(p: Pat) -> bool
    decreases p, 0int,
{
    match p.kind {
        PatKind::Lit(_) => true,
        PatKind::Range => true,
        PatKind::Paren(pp) => spec_literal_or_ranges(*pp.pat),
        PatKind::TupleStruct(t) => spec_any_literal_or_ranges(t.elems@, t.elems@.len() as int),
        PatKind::Struct(st) => spec_any_field_literal_or_ranges(st.fields@, st.fields@.len() as int),
        PatKind::Or(o) => spec_any_literal_or_ranges(o.cases@, o.cases@.len() as int),
        _ => false,
    }
}

/// Whether one of the first `n` patterns contains a literal or a range.
pub open spec fn spec_any_literal_or_ranges(s: Seq<Pat>, n: int) -> bool
    decreases s, n,
{
    if 0 < n <= s.len() {
        spec_any_literal_or_ranges(s, n - 1) || spec_literal_or_ranges(s[n - 1])
    } else {
        false
    }
}

/// Whether one of the first `n` field patterns contains a literal or a range.
pub open spec fn spec_any_field_literal_or_ranges(s: Seq<FieldPat>, n: int) -> bool
    decreases s, n,
{
    if 0 < n <= s.len() {
        spec_any_field_literal_or_ranges(s, n - 1) || spec_literal_or_ranges(s[n - 1].pat)
    } else {
        false
    }
}

proof fn lemma_any_literal_or_ranges_grows(s: Seq<Pat>, i: int, j: int)
    requires
        0 <= i <= j <= s.len(),
        spec_any_literal_or_ranges(s, i),
    ensures
        spec_any_literal_or_ranges(s, j),
    decreases j - i,
{
    if j > i {
        lemma_any_literal_or_ranges_grows(s, i, j - 1);
    }
}

proof fn lemma_any_field_literal_or_ranges_grows(s: Seq<FieldPat>, i: int, j: int)
    requires
        0 <= i <= j <= s.len(),
        spec_any_field_literal_or_ranges(s, i),
    ensures
        spec_any_field_literal_or_ranges(s, j),
    decreases j - i,
{
    if j > i {
        lemma_any_field_literal_or_ranges_grows(s, i, j - 1);
    }
}

/// Whether a pattern contains a literal or a range pattern.
pub fn literal_or_ranges(pat: &Pat) -> (r: bool)
    ensures
        r == spec_literal_or_ranges(*pat),
    decreases *pat, 1int,
{
    match &pat.kind {
        PatKind::Lit(_) => true,
        PatKind::Range => true,
        PatKind::Paren(p) => literal_or_ranges(&p.pat),
        PatKind::TupleStruct(tuple) => any_literal_or_ranges(&tuple.elems),
        PatKind::Struct(structure) => any_field_literal_or_ranges(&structure.fields),
        PatKind::Or(o) => any_literal_or_ranges(&o.cases),
        _ => false,
    }
}

fn any_literal_or_ranges(v: &Vec<Pat>) -> (r: bool)
    ensures
        r == spec_any_literal_or_ranges(v@, v@.len() as int),
    decreases v@, 0int,
{
    let mut i: usize = 0;
    while i < v.len()
        invariant
            i <= v@.len(),
            !spec_any_literal_or_ranges(v@, i as int),
        decreases v@.len() - i,
    {
        if literal_or_ranges(&v[i]) {
            proof {
                lemma_any_literal_or_ranges_grows(v@, i + 1, v@.len() as int);
            }
            return true;
        }
        i = i + 1;
    }
    false
}

fn any_field_literal_or_ranges(v: &Vec<FieldPat>) -> (r: bool)
    ensures
        r == spec_any_field_literal_or_ranges(v@, v@.len() as int),
    decreases v@, 0int,
{
    let mut i: usize = 0;
    while i < v.len()
        invariant
            i <= v@.len(),
            !spec_any_field_literal_or_ranges(v@, i as int),
        decreases v@.len() - i,
    {
        if literal_or_ranges(&v[i].pat) {
            proof {
                lemma_any_field_literal_or_ranges_grows(v@, i + 1, v@.len() as int);
            }
            return true;
        }
        i = i + 1;
    }
    false
}

} // verus!
