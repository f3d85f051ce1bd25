//! What the translation of each construct is, stated construct by
//! construct in terms of the translations of its parts: which builder is
//! called, with which arguments, in which order.
use vstd::prelude::*;
use crate::builder::{AstBinOp, AstUnOp, Builder, CodeSpec};
use crate::kernel::{
    ErrorKind, KernelError, spec_hdl_arm, spec_hdl_arms, spec_hdl_block_inner, spec_hdl_expr,
    spec_hdl_exprs, spec_hdl_field_pat, spec_hdl_field_pats, spec_hdl_field_value,
    spec_hdl_field_values, spec_hdl_opt_expr, spec_hdl_pat, spec_hdl_pat_arm, spec_hdl_pats,
    spec_hdl_path_inner, spec_hdl_stmt, spec_hdl_stmts, spec_hdl_member, spec_hdl_struct,
};
use crate::syntax::{
    Arm, BinOp, Block, Expr, ExprArray, ExprAssign, ExprBinary, ExprBlock, ExprCall, ExprField,
    ExprForLoop, ExprGroup, ExprIf, ExprIndex, ExprKind, ExprLet, ExprLit, ExprMatch,
    ExprMethodCall, ExprParen, ExprPath, ExprRange, ExprRepeat, ExprReturn, ExprStruct, ExprTuple,
    ExprUnary, FieldPat, FieldValue, Lit, LitKind, Local, Member, Pat, PatKind, Path, RangeLimits,
    Stmt, StmtKind, UnOp,
};

verus! {

/// `e` translates to `c`.
pub open spec fn gives(e: Expr, c: CodeSpec) -> bool {
    spec_hdl_expr(e) == Ok::<CodeSpec, KernelError>(c)
}

/// `e` is refused at `span` for the reason `kind`.
pub open spec fn refused(e: Expr, span: usize, kind: ErrorKind) -> bool {
    spec_hdl_expr(e) == Err::<CodeSpec, KernelError>(KernelError { span, kind })
}

/// `binary_expr(op, left, right)`
pub open spec fn binary_code(op: AstBinOp, left: CodeSpec, right: CodeSpec) -> CodeSpec {
    CodeSpec::Call(Builder::BinaryExpr, seq![CodeSpec::BinOp(op), left, right])
}

/// A binary expression calls `binary_expr` with the operator of the same
/// name, then the left operand, then the right one. Division, remainder
/// and their assignments are refused at the expression, whatever the
/// operands are.
pub proof fn lemma_binary_keeps_operator_and_operands(
    span: usize,
    b: ExprBinary,
    left: CodeSpec,
    right: CodeSpec,
)
    requires
        gives(*b.left, left),
        gives(*b.right, right),
    ensures
        ({
            let e = Expr { span, kind: ExprKind::Binary(b) };
            &&& b.op == BinOp::Add ==> gives(e, binary_code(AstBinOp::Add, left, right))
            &&& b.op == BinOp::Sub ==> gives(e, binary_code(AstBinOp::Sub, left, right))
            &&& b.op == BinOp::Mul ==> gives(e, binary_code(AstBinOp::Mul, left, right))
            &&& b.op == BinOp::And ==> gives(e, binary_code(AstBinOp::And, left, right))
            &&& b.op == BinOp::Or ==> gives(e, binary_code(AstBinOp::Or, left, right))
            &&& b.op == BinOp::BitXor ==> gives(e, binary_code(AstBinOp::BitXor, left, right))
            &&& b.op == BinOp::BitAnd ==> gives(e, binary_code(AstBinOp::BitAnd, left, right))
            &&& b.op == BinOp::BitOr ==> gives(e, binary_code(AstBinOp::BitOr, left, right))
            &&& b.op == BinOp::Shl ==> gives(e, binary_code(AstBinOp::Shl, left, right))
            &&& b.op == BinOp::Shr ==> gives(e, binary_code(AstBinOp::Shr, left, right))
            &&& b.op == BinOp::Eq ==> gives(e, binary_code(AstBinOp::Eq, left, right))
            &&& b.op == BinOp::Lt ==> gives(e, binary_code(AstBinOp::Lt, left, right))
            &&& b.op == BinOp::Le ==> gives(e, binary_code(AstBinOp::Le, left, right))
            &&& b.op == BinOp::Ne ==> gives(e, binary_code(AstBinOp::Ne, left, right))
            &&& b.op == BinOp::Ge ==> gives(e, binary_code(AstBinOp::Ge, left, right))
            &&& b.op == BinOp::Gt ==> gives(e, binary_code(AstBinOp::Gt, left, right))
            &&& b.op == BinOp::AddAssign ==> gives(e, binary_code(AstBinOp::AddAssign, left, right))
            &&& b.op == BinOp::SubAssign ==> gives(e, binary_code(AstBinOp::SubAssign, left, right))
            &&& b.op == BinOp::MulAssign ==> gives(e, binary_code(AstBinOp::MulAssign, left, right))
            &&& b.op == BinOp::BitXorAssign ==> gives(
                e,
                binary_code(AstBinOp::BitXorAssign, left, right),
            )
            &&& b.op == BinOp::BitAndAssign ==> gives(
                e,
                binary_code(AstBinOp::BitAndAssign, left, right),
            )
            &&& b.op == BinOp::BitOrAssign ==> gives(
                e,
                binary_code(AstBinOp::BitOrAssign, left, right),
            )
            &&& b.op == BinOp::ShlAssign ==> gives(e, binary_code(AstBinOp::ShlAssign, left, right))
            &&& b.op == BinOp::ShrAssign ==> gives(e, binary_code(AstBinOp::ShrAssign, left, right))
        }),
{
}

/// Division, remainder and their assignments are refused at the
/// expression, before its operands are looked at.
pub proof fn lemma_binary_refuses_division(span: usize, b: ExprBinary)
    requires
        b.op == BinOp::Div || b.op == BinOp::Rem || b.op == BinOp::DivAssign || b.op
            == BinOp::RemAssign,
    ensures
        refused(Expr { span, kind: ExprKind::Binary(b) }, span, ErrorKind::UnsupportedBinaryOperator),
{
}

/// `-x` calls `unary_expr` with `Neg`, `!x` with `Not`, each over the
/// translation of `x`; `*x` is refused at the expression.
pub proof fn lemma_unary_keeps_operator(span: usize, u: ExprUnary, operand: CodeSpec)
    requires
        gives(*u.expr, operand),
    ensures
        ({
            let e = Expr { span, kind: ExprKind::Unary(u) };
            &&& u.op == UnOp::Neg ==> gives(
                e,
                CodeSpec::Call(Builder::UnaryExpr, seq![CodeSpec::UnOp(AstUnOp::Neg), operand]),
            )
            &&& u.op == UnOp::Not ==> gives(
                e,
                CodeSpec::Call(Builder::UnaryExpr, seq![CodeSpec::UnOp(AstUnOp::Not), operand]),
            )
            &&& u.op == UnOp::Deref ==> refused(e, span, ErrorKind::UnsupportedUnaryOperator)
        }),
{
}

/// `Some(c)` for a present part, `None` for an absent one.
pub open spec fn optional_code(c: Option<CodeSpec>) -> CodeSpec {
    match c {
        Some(x) => CodeSpec::Present(Box::new(x)),
        None => CodeSpec::Absent,
    }
}

/// An optional part `o` translates to `c`: both absent, or both present
/// with the part translating to the code.
pub open spec fn optional_gives(o: Option<Box<Expr>>, c: Option<CodeSpec>) -> bool {
    match (o, c) {
        (None, None) => true,
        (Some(x), Some(y)) => gives(*x, y),
        _ => false,
    }
}

/// A range calls `range_expr` with its start, its limits and its end:
/// `..` gives `range_limits_half_open()`, `..=` gives
/// `range_limits_closed()`, and each bound is `Some(..)` where written and
/// `None` where not.
pub proof fn lemma_range_keeps_bounds_and_limits(
    span: usize,
    r: ExprRange,
    start: Option<CodeSpec>,
    end: Option<CodeSpec>,
)
    requires
        optional_gives(r.start, start),
        optional_gives(r.end, end),
    ensures
        ({
            let e = Expr { span, kind: ExprKind::Range(r) };
            &&& r.limits == RangeLimits::HalfOpen ==> gives(
                e,
                CodeSpec::Call(
                    Builder::RangeExpr,
                    seq![
                        optional_code(start),
                        CodeSpec::Call(Builder::RangeLimitsHalfOpen, seq![]),
                        optional_code(end),
                    ],
                ),
            )
            &&& r.limits == RangeLimits::Closed ==> gives(
                e,
                CodeSpec::Call(
                    Builder::RangeExpr,
                    seq![
                        optional_code(start),
                        CodeSpec::Call(Builder::RangeLimitsClosed, seq![]),
                        optional_code(end),
                    ],
                ),
            )
        }),
{
    lemma_optional_gives(r.start, start);
    lemma_optional_gives(r.end, end);
}

/// An optional part translates to `Some(..)` of its translation, or to
/// `None` where it is absent.
pub proof fn lemma_optional_gives(o: Option<Box<Expr>>, c: Option<CodeSpec>)
    requires
        optional_gives(o, c),
    ensures
        spec_hdl_opt_expr(o) == Ok::<CodeSpec, KernelError>(optional_code(c)),
{
}

/// `a[i]` calls `index_expr` with the indexed value first and the index
/// second.
pub proof fn lemma_index_keeps_order(span: usize, i: ExprIndex, base: CodeSpec, index: CodeSpec)
    requires
        gives(*i.expr, base),
        gives(*i.index, index),
    ensures
        gives(
            Expr { span, kind: ExprKind::Index(i) },
            CodeSpec::Call(Builder::IndexExpr, seq![base, index]),
        ),
{
}

/// A literal expression calls `lit_expr`: a boolean with its own value, an
/// integer with its own token; any other literal is refused at the
/// literal.
pub proof fn lemma_literal_keeps_value(span: usize, lit_span: usize, kind: LitKind)
    ensures
        ({
            let e = Expr { span, kind: ExprKind::Lit(ExprLit { lit: Lit { span: lit_span, kind } }) };
            &&& kind matches LitKind::Bool(b) ==> gives(
                e,
                CodeSpec::Call(
                    Builder::LitExpr,
                    seq![CodeSpec::Call(Builder::ExprLitBool, seq![CodeSpec::Bool(b)])],
                ),
            )
            &&& kind matches LitKind::Int(t) ==> gives(
                e,
                CodeSpec::Call(
                    Builder::LitExpr,
                    seq![CodeSpec::Call(Builder::ExprLitInt, seq![CodeSpec::Name(t)])],
                ),
            )
            &&& kind is Other ==> refused(e, lit_span, ErrorKind::UnsupportedLiteral)
        }),
{
}

/// Each of `s` translates to the code at the same position of `cs`.
pub open spec fn each_gives(s: Seq<Expr>, cs: Seq<CodeSpec>) -> bool {
    &&& cs.len() == s.len()
    &&& forall|i: int| 0 <= i < s.len() ==> gives(#[trigger] s[i], cs[i])
}

/// A list of expressions translates to the list of their translations,
/// in the same order.
pub proof fn lemma_exprs_in_order(s: Seq<Expr>, cs: Seq<CodeSpec>)
    requires
        each_gives(s, cs),
    ensures
        spec_hdl_exprs(s, s.len() as int) == Ok::<Seq<CodeSpec>, KernelError>(cs),
{
    lemma_exprs_prefix(s, cs, s.len() as int);
    assert(cs.subrange(0, s.len() as int) =~= cs);
}

proof fn lemma_exprs_prefix(s: Seq<Expr>, cs: Seq<CodeSpec>, n: int)
    requires
        each_gives(s, cs),
        0 <= n <= s.len(),
    ensures
        spec_hdl_exprs(s, n) == Ok::<Seq<CodeSpec>, KernelError>(cs.subrange(0, n)),
    decreases n,
{
    if n > 0 {
        lemma_exprs_prefix(s, cs, n - 1);
        assert(gives(s[n - 1], cs[n - 1]));
        assert(cs.subrange(0, n - 1).push(cs[n - 1]) =~= cs.subrange(0, n));
    } else {
        assert(cs.subrange(0, 0) =~= seq![]);
    }
}

// ---------------------------------------------------------------------
// Paths and members
// ---------------------------------------------------------------------

/// A path calls `path` with one `path_segment(name)` per segment, in
/// order.
pub proof fn lemma_path_segments_in_order(p: Path)
    ensures
        spec_hdl_path_inner(p) == CodeSpec::Call(
            Builder::Path,
            seq![
                CodeSpec::List(
                    Seq::new(
                        p.segments@.len(),
                        |i: int|
                            CodeSpec::Call(
                                Builder::PathSegment,
                                seq![CodeSpec::Name(p.segments@[i])],
                            ),
                    ),
                ),
            ],
        ),
{
    let b = Seq::new(
        p.segments@.len(),
        |i: int| CodeSpec::Call(Builder::PathSegment, seq![CodeSpec::Name(p.segments@[i])]),
    );
    match spec_hdl_path_inner(p) {
        CodeSpec::Call(_, args) => match args[0] {
            CodeSpec::List(l) => {
                assert(l =~= b);
            },
            _ => {},
        },
        _ => {},
    }
}

/// A named member calls `member_named(name)`, a positional one
/// `member_unnamed(index)`.
pub proof fn lemma_member_keeps_name(m: Member)
    ensures
        m matches Member::Named(n) ==> spec_hdl_member(m) == CodeSpec::Call(
            Builder::MemberNamed,
            seq![CodeSpec::Name(n)],
        ),
        m matches Member::Unnamed(i) ==> spec_hdl_member(m) == CodeSpec::Call(
            Builder::MemberUnnamed,
            seq![CodeSpec::Index(i)],
        ),
{
}

// ---------------------------------------------------------------------
// Expressions with parts
// ---------------------------------------------------------------------

/// A group and a parenthesised expression wrap the translation of what
/// they hold in `group_expr` and `paren_expr`.
pub proof fn lemma_wrappers(span: usize, inner: Box<Expr>, c: CodeSpec)
    requires
        gives(*inner, c),
    ensures
        gives(
            Expr { span, kind: ExprKind::Group(ExprGroup { expr: inner }) },
            CodeSpec::Call(Builder::GroupExpr, seq![c]),
        ),
        gives(
            Expr { span, kind: ExprKind::Paren(ExprParen { expr: inner }) },
            CodeSpec::Call(Builder::ParenExpr, seq![c]),
        ),
{
}

/// `left = right` calls `assign_expr` with the place first and the value
/// second.
pub proof fn lemma_assign_keeps_order(span: usize, a: ExprAssign, left: CodeSpec, right: CodeSpec)
    requires
        gives(*a.left, left),
        gives(*a.right, right),
    ensures
        gives(
            Expr { span, kind: ExprKind::Assign(a) },
            CodeSpec::Call(Builder::AssignExpr, seq![left, right]),
        ),
{
}

/// A path expression calls `path_expr` with its path.
pub proof fn lemma_path_expr(span: usize, p: ExprPath)
    ensures
        gives(
            Expr { span, kind: ExprKind::Path(p) },
            CodeSpec::Call(Builder::PathExpr, seq![spec_hdl_path_inner(p.path)]),
        ),
{
}

/// `base.member` calls `field_expr` with the base, then the member.
pub proof fn lemma_field_keeps_order(span: usize, f: ExprField, base: CodeSpec)
    requires
        gives(*f.base, base),
    ensures
        gives(
            Expr { span, kind: ExprKind::Field(f) },
            CodeSpec::Call(Builder::FieldExpr, seq![base, spec_hdl_member(f.member)]),
        ),
{
}

/// A block translates to `block(vec![statements])`.
pub open spec fn block_gives(b: Block, c: CodeSpec) -> bool {
    spec_hdl_block_inner(b) == Ok::<CodeSpec, KernelError>(c)
}

/// A block expression wraps its block in `block_expr`.
pub proof fn lemma_block_expr(span: usize, b: ExprBlock, c: CodeSpec)
    requires
        block_gives(b.block, c),
    ensures
        gives(Expr { span, kind: ExprKind::Block(b) }, CodeSpec::Call(Builder::BlockExpr, seq![c])),
{
}

/// `if cond { then } else ..` calls `if_expr` with the condition, the
/// block, and `Some(else)` or `None`.
pub proof fn lemma_if_keeps_branches(
    span: usize,
    i: ExprIf,
    cond: CodeSpec,
    then_branch: CodeSpec,
    else_branch: Option<CodeSpec>,
)
    requires
        gives(*i.cond, cond),
        block_gives(i.then_branch, then_branch),
        optional_gives(i.else_branch, else_branch),
    ensures
        gives(
            Expr { span, kind: ExprKind::If(i) },
            CodeSpec::Call(Builder::IfExpr, seq![cond, then_branch, optional_code(else_branch)]),
        ),
{
    lemma_optional_gives(i.else_branch, else_branch);
}

/// `p` translates to `c`.
pub open spec fn pat_gives(p: Pat, c: CodeSpec) -> bool {
    spec_hdl_pat(p) == Ok::<CodeSpec, KernelError>(c)
}

/// `let pat = value` calls `let_expr` with the pattern, then the value.
pub proof fn lemma_let_keeps_order(span: usize, l: ExprLet, pat: CodeSpec, value: CodeSpec)
    requires
        pat_gives(l.pat, pat),
        gives(*l.expr, value),
    ensures
        gives(Expr { span, kind: ExprKind::Let(l) }, CodeSpec::Call(Builder::LetExpr, seq![pat, value])),
{
}

/// `return x` calls `return_expr(Some(x))`, a bare `return` calls
/// `return_expr(None)`.
pub proof fn lemma_return(span: usize, r: ExprReturn, value: Option<CodeSpec>)
    requires
        optional_gives(r.expr, value),
    ensures
        gives(
            Expr { span, kind: ExprKind::Return(r) },
            CodeSpec::Call(Builder::ReturnExpr, seq![optional_code(value)]),
        ),
{
    lemma_optional_gives(r.expr, value);
}

/// A tuple and an array call `tuple_expr` and `array_expr` with the list
/// of their elements' translations, in order.
pub proof fn lemma_tuple_and_array_keep_elements(span: usize, elems: Vec<Expr>, cs: Seq<CodeSpec>)
    requires
        each_gives(elems@, cs),
    ensures
        gives(
            Expr { span, kind: ExprKind::Tuple(ExprTuple { elems }) },
            CodeSpec::Call(Builder::TupleExpr, seq![CodeSpec::List(cs)]),
        ),
        gives(
            Expr { span, kind: ExprKind::Array(ExprArray { elems }) },
            CodeSpec::Call(Builder::ArrayExpr, seq![CodeSpec::List(cs)]),
        ),
{
    lemma_exprs_in_order(elems@, cs);
}

/// `[value; len]` calls `repeat_expr` with the value first and the length
/// second.
pub proof fn lemma_repeat_keeps_order(span: usize, r: ExprRepeat, value: CodeSpec, len: CodeSpec)
    requires
        gives(*r.expr, value),
        gives(*r.len, len),
    ensures
        gives(
            Expr { span, kind: ExprKind::Repeat(r) },
            CodeSpec::Call(Builder::RepeatExpr, seq![value, len]),
        ),
{
}

/// `for pat in iter { body }` calls `for_expr` with the pattern, the
/// iterated expression and the body, in that order.
pub proof fn lemma_for_keeps_order(
    span: usize,
    f: ExprForLoop,
    pat: CodeSpec,
    iter: CodeSpec,
    body: CodeSpec,
)
    requires
        pat_gives(f.pat, pat),
        gives(*f.expr, iter),
        block_gives(f.body, body),
    ensures
        gives(
            Expr { span, kind: ExprKind::ForLoop(f) },
            CodeSpec::Call(Builder::ForExpr, seq![pat, iter, body]),
        ),
{
}

/// `f(args)` with `f` a path calls `call_expr` with the path and the list
/// of the arguments' translations, in order; any other callee is refused
/// at the callee.
pub proof fn lemma_call_keeps_arguments(span: usize, c: ExprCall, args: Seq<CodeSpec>)
    requires
        each_gives(c.args@, args),
    ensures
        c.func.kind matches ExprKind::Path(fp) ==> gives(
            Expr { span, kind: ExprKind::Call(c) },
            CodeSpec::Call(Builder::CallExpr, seq![spec_hdl_path_inner(fp.path), CodeSpec::List(args)]),
        ),
        !(c.func.kind is Path) ==> refused(
            Expr { span, kind: ExprKind::Call(c) },
            c.func.span,
            ErrorKind::UnsupportedFunctionCall,
        ),
{
    lemma_exprs_in_order(c.args@, args);
}

/// `receiver.method(args)` calls `method_expr` with the receiver, the list
/// of the arguments' translations, and the method's name.
pub proof fn lemma_method_call_keeps_parts(
    span: usize,
    m: ExprMethodCall,
    receiver: CodeSpec,
    args: Seq<CodeSpec>,
)
    requires
        gives(*m.receiver, receiver),
        each_gives(m.args@, args),
    ensures
        gives(
            Expr { span, kind: ExprKind::MethodCall(m) },
            CodeSpec::Call(
                Builder::MethodExpr,
                seq![receiver, CodeSpec::List(args), CodeSpec::Name(m.method)],
            ),
        ),
{
    lemma_exprs_in_order(m.args@, args);
}

/// Each field value of `s` translates to the code at the same position
/// of `cs`.
pub open spec fn each_field_value_gives(s: Seq<FieldValue>, cs: Seq<CodeSpec>) -> bool {
    &&& cs.len() == s.len()
    &&& forall|i: int|
        0 <= i < s.len() ==> spec_hdl_field_value(#[trigger] s[i]) == Ok::<CodeSpec, KernelError>(
            cs[i],
        )
}

/// `member: value` calls `field_value` with the member, then the value.
pub proof fn lemma_field_value_keeps_order(f: FieldValue, value: CodeSpec)
    requires
        gives(f.expr, value),
    ensures
        spec_hdl_field_value(f) == Ok::<CodeSpec, KernelError>(
            CodeSpec::Call(Builder::FieldValue, seq![spec_hdl_member(f.member), value]),
        ),
{
}

/// Field values translate in order.
pub proof fn lemma_field_values_in_order(s: Seq<FieldValue>, cs: Seq<CodeSpec>)
    requires
        each_field_value_gives(s, cs),
    ensures
        spec_hdl_field_values(s, s.len() as int) == Ok::<Seq<CodeSpec>, KernelError>(cs),
{
    lemma_field_values_prefix(s, cs, s.len() as int);
    assert(cs.subrange(0, s.len() as int) =~= cs);
}

proof fn lemma_field_values_prefix(s: Seq<FieldValue>, cs: Seq<CodeSpec>, n: int)
    requires
        each_field_value_gives(s, cs),
        0 <= n <= s.len(),
    ensures
        spec_hdl_field_values(s, n) == Ok::<Seq<CodeSpec>, KernelError>(cs.subrange(0, n)),
    decreases n,
{
    if n > 0 {
        lemma_field_values_prefix(s, cs, n - 1);
        assert(spec_hdl_field_value(s[n - 1]) == Ok::<CodeSpec, KernelError>(cs[n - 1]));
        assert(cs.subrange(0, n - 1).push(cs[n - 1]) =~= cs.subrange(0, n));
    } else {
        assert(cs.subrange(0, 0) =~= seq![]);
    }
}

/// The rest expression's translation as it is, or `None` where there is
/// no rest expression.
pub open spec fn rest_code(rest: Option<CodeSpec>) -> CodeSpec {
    match rest {
        Some(r) => r,
        None => CodeSpec::Absent,
    }
}

/// `Path { fields, ..rest }` calls `struct_expr` with the path, the list
/// of the field values, and the translation of the rest expression
/// itself (not wrapped in `Some`) or `None` where there is none, followed
/// by a stray comma; a qualified self is refused at the expression.
pub proof fn lemma_struct_keeps_parts(
    span: usize,
    s: ExprStruct,
    fields: Seq<CodeSpec>,
    rest: Option<CodeSpec>,
)
    requires
        each_field_value_gives(s.fields@, fields),
        optional_gives(s.rest, rest),
    ensures
        s.qself ==> refused(
            Expr { span, kind: ExprKind::Struct(s) },
            span,
            ErrorKind::UnsupportedQualifiedSelf,
        ),
        !s.qself ==> gives(
            Expr { span, kind: ExprKind::Struct(s) },
            CodeSpec::Trailing(
                Box::new(
                    CodeSpec::Call(
                        Builder::StructExpr,
                        seq![
                            spec_hdl_path_inner(s.path),
                            CodeSpec::List(fields),
                            rest_code(rest),
                        ],
                    ),
                ),
            ),
        ),
{
    lemma_field_values_in_order(s.fields@, fields);
    assert(spec_hdl_expr(Expr { span, kind: ExprKind::Struct(s) }) == spec_hdl_struct(s, span));
    match s.rest {
        Some(b) => {
            let r = rest->Some_0;
            assert(spec_hdl_expr(*b) == Ok::<CodeSpec, KernelError>(r));
            if !s.qself {
                assert(spec_hdl_struct(s, span) == Ok::<CodeSpec, KernelError>(
                    CodeSpec::Trailing(
                        Box::new(
                            CodeSpec::Call(
                                Builder::StructExpr,
                                seq![spec_hdl_path_inner(s.path), CodeSpec::List(fields), r],
                            ),
                        ),
                    ),
                ));
            }
        },
        None => {},
    }
}

/// `?`, `while` and every construct outside the kernel subset are
/// refused at the expression.
pub proof fn lemma_refused_expressions(span: usize, kind: ExprKind)
    ensures
        kind is Try ==> refused(Expr { span, kind }, span, ErrorKind::UnsupportedTry),
        kind is While ==> refused(Expr { span, kind }, span, ErrorKind::UnsupportedWhileLoop),
        kind is Other ==> refused(Expr { span, kind }, span, ErrorKind::UnsupportedExpression),
{
}

// ---------------------------------------------------------------------
// Patterns
// ---------------------------------------------------------------------

/// Each of `s` translates to the code at the same position of `cs`.
pub open spec fn each_pat_gives(s: Seq<Pat>, cs: Seq<CodeSpec>) -> bool {
    &&& cs.len() == s.len()
    &&& forall|i: int| 0 <= i < s.len() ==> pat_gives(#[trigger] s[i], cs[i])
}

/// Patterns translate in order.
pub proof fn lemma_pats_in_order(s: Seq<Pat>, cs: Seq<CodeSpec>)
    requires
        each_pat_gives(s, cs),
    ensures
        spec_hdl_pats(s, s.len() as int) == Ok::<Seq<CodeSpec>, KernelError>(cs),
{
    lemma_pats_prefix(s, cs, s.len() as int);
    assert(cs.subrange(0, s.len() as int) =~= cs);
}

proof fn lemma_pats_prefix(s: Seq<Pat>, cs: Seq<CodeSpec>, n: int)
    requires
        each_pat_gives(s, cs),
        0 <= n <= s.len(),
    ensures
        spec_hdl_pats(s, n) == Ok::<Seq<CodeSpec>, KernelError>(cs.subrange(0, n)),
    decreases n,
{
    if n > 0 {
        lemma_pats_prefix(s, cs, n - 1);
        assert(pat_gives(s[n - 1], cs[n - 1]));
        assert(cs.subrange(0, n - 1).push(cs[n - 1]) =~= cs.subrange(0, n));
    } else {
        assert(cs.subrange(0, 0) =~= seq![]);
    }
}

/// A binding calls `ident_pat` with its name and whether it is mutable;
/// a binding by reference is refused; `_` calls `wild_pat()`; a path
/// calls `path_pat`; a literal calls `lit_pat` with the literal's own
/// value.
pub proof fn lemma_simple_patterns(span: usize, kind: PatKind)
    ensures
        kind matches PatKind::Ident(i) ==> (if i.by_ref {
            spec_hdl_pat(Pat { span, kind }) == Err::<CodeSpec, KernelError>(
                KernelError { span, kind: ErrorKind::UnsupportedReferencePattern },
            )
        } else {
            pat_gives(
                Pat { span, kind },
                CodeSpec::Call(Builder::IdentPat, seq![CodeSpec::Name(i.name), CodeSpec::Bool(i.mutability)]),
            )
        }),
        kind is Wild ==> pat_gives(Pat { span, kind }, CodeSpec::Call(Builder::WildPat, seq![])),
        kind matches PatKind::Path(pp) ==> pat_gives(
            Pat { span, kind },
            CodeSpec::Call(Builder::PathPat, seq![spec_hdl_path_inner(pp.path)]),
        ),
        kind matches PatKind::Lit(l) ==> (l.kind matches LitKind::Bool(b) ==> pat_gives(
            Pat { span, kind },
            CodeSpec::Call(
                Builder::LitPat,
                seq![CodeSpec::Call(Builder::ExprLitBool, seq![CodeSpec::Bool(b)])],
            ),
        )),
        kind matches PatKind::Lit(l) ==> (l.kind matches LitKind::Int(t) ==> pat_gives(
            Pat { span, kind },
            CodeSpec::Call(
                Builder::LitPat,
                seq![CodeSpec::Call(Builder::ExprLitInt, seq![CodeSpec::Name(t)])],
            ),
        )),
        (kind is Range || kind is Paren || kind is Or || kind is Other) ==> spec_hdl_pat(
            Pat { span, kind },
        ) == Err::<CodeSpec, KernelError>(KernelError { span, kind: ErrorKind::UnsupportedPattern }),
{
}

/// A tuple pattern calls `tuple_pat`, a tuple-struct pattern
/// `tuple_struct_pat` with its path first, each with the list of the
/// element patterns' translations, in order.
pub proof fn lemma_tuple_patterns_keep_elements(span: usize, kind: PatKind, cs: Seq<CodeSpec>)
    ensures
        kind matches PatKind::Tuple(t) ==> (each_pat_gives(t.elems@, cs) ==> pat_gives(
            Pat { span, kind },
            CodeSpec::Call(Builder::TuplePat, seq![CodeSpec::List(cs)]),
        )),
        kind matches PatKind::TupleStruct(t) ==> (each_pat_gives(t.elems@, cs) ==> pat_gives(
            Pat { span, kind },
            CodeSpec::Call(
                Builder::TupleStructPat,
                seq![spec_hdl_path_inner(t.path), CodeSpec::List(cs)],
            ),
        )),
{
    match kind {
        PatKind::Tuple(t) => {
            if each_pat_gives(t.elems@, cs) {
                lemma_pats_in_order(t.elems@, cs);
            }
        },
        PatKind::TupleStruct(t) => {
            if each_pat_gives(t.elems@, cs) {
                lemma_pats_in_order(t.elems@, cs);
            }
        },
        _ => {},
    }
}

/// `pat: Type` calls `type_pat` with the pattern, then the kind of the
/// type.
pub proof fn lemma_type_pattern(span: usize, kind: PatKind, c: CodeSpec)
    ensures
        kind matches PatKind::Type(t) ==> (pat_gives(*t.pat, c) ==> pat_gives(
            Pat { span, kind },
            CodeSpec::Call(Builder::TypePat, seq![c, CodeSpec::KindOf(t.ty)]),
        )),
{
}

/// Each field pattern of `s` translates to the code at the same position
/// of `cs`.
pub open spec fn each_field_pat_gives(s: Seq<FieldPat>, cs: Seq<CodeSpec>) -> bool {
    &&& cs.len() == s.len()
    &&& forall|i: int|
        0 <= i < s.len() ==> spec_hdl_field_pat(#[trigger] s[i]) == Ok::<CodeSpec, KernelError>(cs[i])
}

/// `member: pat` calls `field_pat` with the member, then the pattern.
pub proof fn lemma_field_pat_keeps_order(f: FieldPat, c: CodeSpec)
    requires
        pat_gives(f.pat, c),
    ensures
        spec_hdl_field_pat(f) == Ok::<CodeSpec, KernelError>(
            CodeSpec::Call(Builder::FieldPat, seq![spec_hdl_member(f.member), c]),
        ),
{
}

/// Field patterns translate in order.
pub proof fn lemma_field_pats_in_order(s: Seq<FieldPat>, cs: Seq<CodeSpec>)
    requires
        each_field_pat_gives(s, cs),
    ensures
        spec_hdl_field_pats(s, s.len() as int) == Ok::<Seq<CodeSpec>, KernelError>(cs),
{
    lemma_field_pats_prefix(s, cs, s.len() as int);
    assert(cs.subrange(0, s.len() as int) =~= cs);
}

proof fn lemma_field_pats_prefix(s: Seq<FieldPat>, cs: Seq<CodeSpec>, n: int)
    requires
        each_field_pat_gives(s, cs),
        0 <= n <= s.len(),
    ensures
        spec_hdl_field_pats(s, n) == Ok::<Seq<CodeSpec>, KernelError>(cs.subrange(0, n)),
    decreases n,
{
    if n > 0 {
        lemma_field_pats_prefix(s, cs, n - 1);
        assert(spec_hdl_field_pat(s[n - 1]) == Ok::<CodeSpec, KernelError>(cs[n - 1]));
        assert(cs.subrange(0, n - 1).push(cs[n - 1]) =~= cs.subrange(0, n));
    } else {
        assert(cs.subrange(0, 0) =~= seq![]);
    }
}

/// `Path { fields, .. }` calls `struct_pat` with the path, the list of the
/// field patterns' translations and whether `..` is written; a qualified
/// self is refused at the pattern.
pub proof fn lemma_struct_pattern_keeps_parts(span: usize, kind: PatKind, cs: Seq<CodeSpec>)
    ensures
        kind matches PatKind::Struct(s) ==> (each_field_pat_gives(s.fields@, cs) ==> (if s.qself {
            spec_hdl_pat(Pat { span, kind }) == Err::<CodeSpec, KernelError>(
                KernelError { span, kind: ErrorKind::UnsupportedQualifiedSelf },
            )
        } else {
            pat_gives(
                Pat { span, kind },
                CodeSpec::Call(
                    Builder::StructPat,
                    seq![spec_hdl_path_inner(s.path), CodeSpec::List(cs), CodeSpec::Bool(s.rest)],
                ),
            )
        })),
{
    match kind {
        PatKind::Struct(s) => {
            if each_field_pat_gives(s.fields@, cs) {
                lemma_field_pats_in_order(s.fields@, cs);
            }
        },
        _ => {},
    }
}

// ---------------------------------------------------------------------
// Arms, statements, blocks
// ---------------------------------------------------------------------

/// The patterns a match arm may use: a variant binding only names or
/// `_` (else refused), a path without a qualified self (else refused),
/// a literal or `_`; each of these translates as the pattern does. Any
/// other pattern is refused as a match pattern.
pub proof fn lemma_arm_patterns(span: usize, kind: PatKind)
    ensures
        ({
            let p = Pat { span, kind };
            &&& kind matches PatKind::TupleStruct(t) ==> (if forall|i: int|
                0 <= i < t.elems@.len() ==> (#[trigger] t.elems@[i].kind is Ident || t.elems@[i].kind is Wild) {
                spec_hdl_pat_arm(p) == spec_hdl_pat(p)
            } else {
                spec_hdl_pat_arm(p) == Err::<CodeSpec, KernelError>(
                    KernelError { span, kind: ErrorKind::UnsupportedTupleStructPattern },
                )
            })
            &&& kind matches PatKind::Struct(st) ==> (if forall|i: int|
                0 <= i < st.fields@.len() ==> (#[trigger] st.fields@[i].pat.kind is Ident
                    || st.fields@[i].pat.kind is Wild) {
                spec_hdl_pat_arm(p) == spec_hdl_pat(p)
            } else {
                spec_hdl_pat_arm(p) == Err::<CodeSpec, KernelError>(
                    KernelError { span, kind: ErrorKind::UnsupportedStructPatternLiteral },
                )
            })
            &&& kind matches PatKind::Path(pp) ==> (if pp.qself {
                spec_hdl_pat_arm(p) == Err::<CodeSpec, KernelError>(
                    KernelError { span, kind: ErrorKind::UnsupportedQualifiedSelf },
                )
            } else {
                spec_hdl_pat_arm(p) == spec_hdl_pat(p)
            })
            &&& (kind is Lit || kind is Wild) ==> spec_hdl_pat_arm(p) == spec_hdl_pat(p)
            &&& (kind is Ident || kind is Tuple || kind is Type || kind is Range || kind is Paren
                || kind is Or || kind is Other) ==> spec_hdl_pat_arm(p) == Err::<CodeSpec, KernelError>(
                KernelError { span, kind: ErrorKind::UnsupportedMatchPattern },
            )
        }),
{
}

/// A match arm calls `arm` with its pattern, `Some(guard)` or `None`, and
/// its body, in that order.
pub proof fn lemma_arm_keeps_parts(a: Arm, pat: CodeSpec, guard: Option<CodeSpec>, body: CodeSpec)
    requires
        spec_hdl_pat_arm(a.pat) == Ok::<CodeSpec, KernelError>(pat),
        optional_gives(a.guard, guard),
        gives(*a.body, body),
    ensures
        spec_hdl_arm(a) == Ok::<CodeSpec, KernelError>(
            CodeSpec::Call(Builder::Arm, seq![pat, optional_code(guard), body]),
        ),
{
    lemma_optional_gives(a.guard, guard);
}

/// Each arm of `s` translates to the code at the same position of `cs`.
pub open spec fn each_arm_gives(s: Seq<Arm>, cs: Seq<CodeSpec>) -> bool {
    &&& cs.len() == s.len()
    &&& forall|i: int|
        0 <= i < s.len() ==> spec_hdl_arm(#[trigger] s[i]) == Ok::<CodeSpec, KernelError>(cs[i])
}

/// Arms translate in order.
pub proof fn lemma_arms_in_order(s: Seq<Arm>, cs: Seq<CodeSpec>)
    requires
        each_arm_gives(s, cs),
    ensures
        spec_hdl_arms(s, s.len() as int) == Ok::<Seq<CodeSpec>, KernelError>(cs),
{
    lemma_arms_prefix(s, cs, s.len() as int);
    assert(cs.subrange(0, s.len() as int) =~= cs);
}

proof fn lemma_arms_prefix(s: Seq<Arm>, cs: Seq<CodeSpec>, n: int)
    requires
        each_arm_gives(s, cs),
        0 <= n <= s.len(),
    ensures
        spec_hdl_arms(s, n) == Ok::<Seq<CodeSpec>, KernelError>(cs.subrange(0, n)),
    decreases n,
{
    if n > 0 {
        lemma_arms_prefix(s, cs, n - 1);
        assert(spec_hdl_arm(s[n - 1]) == Ok::<CodeSpec, KernelError>(cs[n - 1]));
        assert(cs.subrange(0, n - 1).push(cs[n - 1]) =~= cs.subrange(0, n));
    } else {
        assert(cs.subrange(0, 0) =~= seq![]);
    }
}

/// `match scrutinee { arms }` calls `match_expr` with the scrutinee and
/// the list of the arms' translations, in order.
pub proof fn lemma_match_keeps_arms(span: usize, m: ExprMatch, scrutinee: CodeSpec, arms: Seq<CodeSpec>)
    requires
        gives(*m.expr, scrutinee),
        each_arm_gives(m.arms@, arms),
    ensures
        gives(
            Expr { span, kind: ExprKind::Match(m) },
            CodeSpec::Call(Builder::MatchExpr, seq![scrutinee, CodeSpec::List(arms)]),
        ),
{
    lemma_arms_in_order(m.arms@, arms);
}

/// `st` translates to `c`.
pub open spec fn stmt_gives(st: Stmt, c: CodeSpec) -> bool {
    spec_hdl_stmt(st) == Ok::<CodeSpec, KernelError>(c)
}

/// `let pat = init;` calls `local_stmt` with the pattern and `Some(init)`
/// or `None`; an expression statement calls `semi_stmt` when it ends in a
/// semicolon and `expr_stmt` when it does not; items and macros are
/// refused at the statement.
pub proof fn lemma_statements(span: usize, kind: StmtKind, pat: CodeSpec, value: Option<CodeSpec>)
    ensures
        kind matches StmtKind::Local(l) ==> (pat_gives(l.pat, pat) && match (l.init, value) {
            (None, None) => true,
            (Some(x), Some(y)) => gives(x, y),
            _ => false,
        } ==> stmt_gives(
            Stmt { span, kind },
            CodeSpec::Call(Builder::LocalStmt, seq![pat, optional_code(value)]),
        )),
        kind matches StmtKind::Expr(x, semi) ==> (value matches Some(c) ==> (gives(x, c) ==> stmt_gives(
            Stmt { span, kind },
            CodeSpec::Call(if semi { Builder::SemiStmt } else { Builder::ExprStmt }, seq![c]),
        ))),
        kind is Other ==> spec_hdl_stmt(Stmt { span, kind }) == Err::<CodeSpec, KernelError>(
            KernelError { span, kind: ErrorKind::UnsupportedStatement },
        ),
{
}

/// Each statement of `s` translates to the code at the same position of
/// `cs`.
pub open spec fn each_stmt_gives(s: Seq<Stmt>, cs: Seq<CodeSpec>) -> bool {
    &&& cs.len() == s.len()
    &&& forall|i: int| 0 <= i < s.len() ==> stmt_gives(#[trigger] s[i], cs[i])
}

/// A block calls `block` with the list of its statements' translations,
/// in order.
pub proof fn lemma_block_keeps_statements(b: Block, cs: Seq<CodeSpec>)
    requires
        each_stmt_gives(b.stmts@, cs),
    ensures
        block_gives(b, CodeSpec::Call(Builder::Block, seq![CodeSpec::List(cs)])),
{
    lemma_stmts_prefix(b.stmts@, cs, b.stmts@.len() as int);
    assert(cs.subrange(0, b.stmts@.len() as int) =~= cs);
}

proof fn lemma_stmts_prefix(s: Seq<Stmt>, cs: Seq<CodeSpec>, n: int)
    requires
        each_stmt_gives(s, cs),
        0 <= n <= s.len(),
    ensures
        spec_hdl_stmts(s, n) == Ok::<Seq<CodeSpec>, KernelError>(cs.subrange(0, n)),
    decreases n,
{
    if n > 0 {
        lemma_stmts_prefix(s, cs, n - 1);
        assert(stmt_gives(s[n - 1], cs[n - 1]));
        assert(cs.subrange(0, n - 1).push(cs[n - 1]) =~= cs.subrange(0, n));
    } else {
        assert(cs.subrange(0, 0) =~= seq![]);
    }
}

} // verus!
