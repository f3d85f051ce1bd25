//! Which kernel syntax is supported, stated on its own, and the proof
//! that the translation accepts exactly that syntax.
use vstd::prelude::*;
use crate::kernel::{
    spec_ast_binop, spec_hdl_arm, spec_hdl_arms, spec_hdl_block_inner, spec_hdl_expr,
    spec_hdl_exprs, spec_hdl_field_pat, spec_hdl_field_pats, spec_hdl_field_value,
    spec_hdl_field_values, spec_hdl_opt_expr, spec_hdl_pat, spec_hdl_pat_arm, spec_hdl_pats,
    spec_hdl_stmt, spec_hdl_stmts, spec_ident_or_wildcard,
};
use crate::syntax::{
    Arm, Block, Expr, ExprKind, FieldPat, FieldValue, Lit, Pat, PatKind, Stmt, StmtKind,
};

verus! {

/// Integer and boolean literals are supported.
pub open spec fn lit_supported(l: Lit) -> bool {
    !(l.kind is Other)
}

/// Supported patterns: bindings by value, tuple-struct, tuple, path and
/// struct patterns (without a qualified self), typed patterns, literal
/// patterns and `_`, with supported patterns inside.
pub open spec fn pat_supported(p: Pat) -> bool
    decreases p, 0int,
{
    match p.kind {
        PatKind::Ident(i) => !i.by_ref,
        PatKind::TupleStruct(t) => pats_supported(t.elems@, t.elems@.len() as int),
        PatKind::Tuple(t) => pats_supported(t.elems@, t.elems@.len() as int),
        PatKind::Path(_) => true,
        PatKind::Struct(s) => !s.qself && field_pats_supported(s.fields@, s.fields@.len() as int),
        PatKind::Type(t) => pat_supported(*t.pat),
        PatKind::Lit(l) => lit_supported(l),
        PatKind::Wild => true,
        _ => false,
    }
}

/// The first `n` patterns are all supported.
pub open spec fn pats_supported(s: Seq<Pat>, n: int) -> bool
    decreases s, n,
{
    if n <= 0 || n > s.len() {
        true
    } else {
        pats_supported(s, n - 1) && pat_supported(s[n - 1])
    }
}

pub open spec fn field_pat_supported(f: FieldPat) -> bool
    decreases f, 0int,
{
    pat_supported(f.pat)
}

/// The first `n` field patterns are all supported.
pub open spec fn field_pats_supported(s: Seq<FieldPat>, n: int) -> bool
    decreases s, n,
{
    if n <= 0 || n > s.len() {
        true
    } else {
        field_pats_supported(s, n - 1) && field_pat_supported(s[n - 1])
    }
}

/// Supported patterns of match arms: literals, `_`, paths without a
/// qualified self, and enum variants whose fields bind only names or `_`.
pub open spec fn arm_pat_supported(p: Pat) -> bool {
    &&& match p.kind {
        PatKind::TupleStruct(t) => forall|i: int|
            0 <= i < t.elems@.len() ==> spec_ident_or_wildcard(#[trigger] t.elems@[i]),
        PatKind::Struct(s) => forall|i: int|
            0 <= i < s.fields@.len() ==> spec_ident_or_wildcard(#[trigger] s.fields@[i].pat),
        PatKind::Path(pp) => !pp.qself,
        PatKind::Lit(_) => true,
        PatKind::Wild => true,
        _ => false,
    }
    &&& pat_supported(p)
}

/// Supported expressions: everything but `?`, `while`, dereferences,
/// division and remainder, calls of anything but a path, qualified
/// struct paths and the expression kinds kernels do not know at all,
/// anywhere inside.
pub open spec fn expr_supported(e: Expr) -> bool
    decreases e, 0int,
{
    match e.kind {
        ExprKind::Lit(l) => lit_supported(l.lit),
        ExprKind::Binary(b) => spec_ast_binop(b.op) is Some && expr_supported(*b.left)
            && expr_supported(*b.right),
        ExprKind::Unary(u) => !(u.op is Deref) && expr_supported(*u.expr),
        ExprKind::Group(g) => expr_supported(*g.expr),
        ExprKind::Paren(p) => expr_supported(*p.expr),
        ExprKind::Assign(a) => expr_supported(*a.left) && expr_supported(*a.right),
        ExprKind::Path(_) => true,
        ExprKind::Struct(s) => !s.qself && field_values_supported(s.fields@, s.fields@.len() as int)
            && opt_expr_supported(s.rest),
        ExprKind::Block(b) => block_supported(b.block),
        ExprKind::Field(f) => expr_supported(*f.base),
        ExprKind::If(i) => expr_supported(*i.cond) && block_supported(i.then_branch)
            && opt_expr_supported(i.else_branch),
        ExprKind::Let(l) => pat_supported(l.pat) && expr_supported(*l.expr),
        ExprKind::Match(m) => expr_supported(*m.expr) && arms_supported(m.arms@, m.arms@.len() as int),
        ExprKind::Range(r) => opt_expr_supported(r.start) && opt_expr_supported(r.end),
        ExprKind::Try(_) => false,
        ExprKind::Return(r) => opt_expr_supported(r.expr),
        ExprKind::Tuple(t) => exprs_supported(t.elems@, t.elems@.len() as int),
        ExprKind::Repeat(r) => expr_supported(*r.expr) && expr_supported(*r.len),
        ExprKind::ForLoop(f) => pat_supported(f.pat) && block_supported(f.body) && expr_supported(
            *f.expr,
        ),
        ExprKind::While => false,
        ExprKind::Call(c) => (c.func.kind is Path) && exprs_supported(c.args@, c.args@.len() as int),
        ExprKind::Array(a) => exprs_supported(a.elems@, a.elems@.len() as int),
        ExprKind::Index(i) => expr_supported(*i.expr) && expr_supported(*i.index),
        ExprKind::MethodCall(m) => expr_supported(*m.receiver) && exprs_supported(
            m.args@,
            m.args@.len() as int,
        ),
        ExprKind::Other => false,
    }
}

pub open spec fn opt_expr_supported(o: Option<Box<Expr>>) -> bool
    decreases o, 0int,
{
    match o {
        Some(b) => expr_supported(*b),
        None => true,
    }
}

/// The first `n` expressions are all supported.
pub open spec fn exprs_supported(s: Seq<Expr>, n: int) -> bool
    decreases s, n,
{
    if n <= 0 || n > s.len() {
        true
    } else {
        exprs_supported(s, n - 1) && expr_supported(s[n - 1])
    }
}

pub open spec fn field_value_supported(f: FieldValue) -> bool
    decreases f, 0int,
{
    expr_supported(f.expr)
}

/// The first `n` field values are all supported.
pub open spec fn field_values_supported(s: Seq<FieldValue>, n: int) -> bool
    decreases s, n,
{
    if n <= 0 || n > s.len() {
        true
    } else {
        field_values_supported(s, n - 1) && field_value_supported(s[n - 1])
    }
}

pub open spec fn arm_supported(a: Arm) -> bool
    decreases a, 0int,
{
    arm_pat_supported(a.pat) && opt_expr_supported(a.guard) && expr_supported(*a.body)
}

/// The first `n` arms are all supported.
pub open spec fn arms_supported(s: Seq<Arm>, n: int) -> bool
    decreases s, n,
{
    if n <= 0 || n > s.len() {
        true
    } else {
        arms_supported(s, n - 1) && arm_supported(s[n - 1])
    }
}

/// Supported statements: `let` with a supported pattern and initializer,
/// and supported expressions.
pub open spec fn stmt_supported(s: Stmt) -> bool
    decreases s, 0int,
{
    match s.kind {
        StmtKind::Local(l) => pat_supported(l.pat) && match l.init {
            Some(i) => expr_supported(i),
            None => true,
        },
        StmtKind::Expr(x, _) => expr_supported(x),
        StmtKind::Other => false,
    }
}

/// The first `n` statements are all supported.
pub open spec fn stmts_supported(s: Seq<Stmt>, n: int) -> bool
    decreases s, n,
{
    if n <= 0 || n > s.len() {
        true
    } else {
        stmts_supported(s, n - 1) && stmt_supported(s[n - 1])
    }
}

pub open spec fn block_supported(b: Block) -> bool
    decreases b, 0int,
{
    stmts_supported(b.stmts@, b.stmts@.len() as int)
}


// ---------------------------------------------------------------------
// The translation refuses exactly the unsupported syntax
// ---------------------------------------------------------------------

/// A pattern is translated exactly when it is supported.
pub proof fn lemma_hdl_pat_accepts_supported(p: Pat)
    ensures
        (spec_hdl_pat(p) is Ok) <==> pat_supported(p),
    decreases p, 0int,
{
    match p.kind {
        PatKind::TupleStruct(t) => {
            lemma_hdl_pats_accept_supported(t.elems@, t.elems@.len() as int);
        },
        PatKind::Tuple(t) => {
            lemma_hdl_pats_accept_supported(t.elems@, t.elems@.len() as int);
        },
        PatKind::Struct(st) => {
            lemma_hdl_field_pats_accept_supported(st.fields@, st.fields@.len() as int);
        },
        PatKind::Type(t) => {
            lemma_hdl_pat_accepts_supported(*t.pat);
        },
        _ => {},
    }
}

/// The first `n` patterns are translated exactly when each is supported.
pub proof fn lemma_hdl_pats_accept_supported(s: Seq<Pat>, n: int)
    ensures
        (spec_hdl_pats(s, n) is Ok) <==> pats_supported(s, n),
    decreases s, n,
{
    if 0 < n <= s.len() {
        lemma_hdl_pats_accept_supported(s, n - 1);
        lemma_hdl_pat_accepts_supported(s[n - 1]);
    }
}

pub proof fn lemma_hdl_field_pat_accepts_supported(f: FieldPat)
    ensures
        (spec_hdl_field_pat(f) is Ok) <==> field_pat_supported(f),
    decreases f, 0int,
{
    lemma_hdl_pat_accepts_supported(f.pat);
}

pub proof fn lemma_hdl_field_pats_accept_supported(s: Seq<FieldPat>, n: int)
    ensures
        (spec_hdl_field_pats(s, n) is Ok) <==> field_pats_supported(s, n),
    decreases s, n,
{
    if 0 < n <= s.len() {
        lemma_hdl_field_pats_accept_supported(s, n - 1);
        lemma_hdl_field_pat_accepts_supported(s[n - 1]);
    }
}

/// The pattern of a match arm is translated exactly when it is supported
/// there.
pub proof fn lemma_hdl_pat_arm_accepts_supported(p: Pat)
    ensures
        (spec_hdl_pat_arm(p) is Ok) <==> arm_pat_supported(p),
{
    lemma_hdl_pat_accepts_supported(p);
}

/// An expression is translated exactly when it is supported.
#[verifier::rlimit(60)]
pub proof fn lemma_hdl_expr_accepts_supported(e: Expr)
    ensures
        (spec_hdl_expr(e) is Ok) <==> expr_supported(e),
    decreases e, 0int,
{
    match e.kind {
        ExprKind::Binary(b) => {
            lemma_hdl_expr_accepts_supported(*b.left);
            lemma_hdl_expr_accepts_supported(*b.right);
        },
        ExprKind::Unary(u) => {
            lemma_hdl_expr_accepts_supported(*u.expr);
        },
        ExprKind::Group(g) => {
            lemma_hdl_expr_accepts_supported(*g.expr);
        },
        ExprKind::Paren(p) => {
            lemma_hdl_expr_accepts_supported(*p.expr);
        },
        ExprKind::Assign(a) => {
            lemma_hdl_expr_accepts_supported(*a.left);
            lemma_hdl_expr_accepts_supported(*a.right);
        },
        ExprKind::Struct(st) => {
            lemma_hdl_field_values_accept_supported(st.fields@, st.fields@.len() as int);
            lemma_hdl_opt_expr_accepts_supported(st.rest);
            match st.rest {
                Some(b) => {
                    lemma_hdl_expr_accepts_supported(*b);
                },
                None => {},
            }
        },
        ExprKind::Block(b) => {
            lemma_hdl_block_accepts_supported(b.block);
        },
        ExprKind::Field(f) => {
            lemma_hdl_expr_accepts_supported(*f.base);
        },
        ExprKind::If(i) => {
            lemma_hdl_expr_accepts_supported(*i.cond);
            lemma_hdl_block_accepts_supported(i.then_branch);
            lemma_hdl_opt_expr_accepts_supported(i.else_branch);
        },
        ExprKind::Let(l) => {
            lemma_hdl_pat_accepts_supported(l.pat);
            lemma_hdl_expr_accepts_supported(*l.expr);
        },
        ExprKind::Match(m) => {
            lemma_hdl_arms_accept_supported(m.arms@, m.arms@.len() as int);
            lemma_hdl_expr_accepts_supported(*m.expr);
        },
        ExprKind::Range(r) => {
            lemma_hdl_opt_expr_accepts_supported(r.start);
            lemma_hdl_opt_expr_accepts_supported(r.end);
        },
        ExprKind::Return(r) => {
            lemma_hdl_opt_expr_accepts_supported(r.expr);
        },
        ExprKind::Tuple(t) => {
            lemma_hdl_exprs_accept_supported(t.elems@, t.elems@.len() as int);
        },
        ExprKind::Repeat(r) => {
            lemma_hdl_expr_accepts_supported(*r.expr);
            lemma_hdl_expr_accepts_supported(*r.len);
        },
        ExprKind::ForLoop(f) => {
            lemma_hdl_pat_accepts_supported(f.pat);
            lemma_hdl_block_accepts_supported(f.body);
            lemma_hdl_expr_accepts_supported(*f.expr);
        },
        ExprKind::Call(c) => {
            lemma_hdl_exprs_accept_supported(c.args@, c.args@.len() as int);
        },
        ExprKind::Array(a) => {
            lemma_hdl_exprs_accept_supported(a.elems@, a.elems@.len() as int);
        },
        ExprKind::Index(i) => {
            lemma_hdl_expr_accepts_supported(*i.expr);
            lemma_hdl_expr_accepts_supported(*i.index);
        },
        ExprKind::MethodCall(m) => {
            lemma_hdl_expr_accepts_supported(*m.receiver);
            lemma_hdl_exprs_accept_supported(m.args@, m.args@.len() as int);
        },
        _ => {},
    }
}

pub proof fn lemma_hdl_opt_expr_accepts_supported(o: Option<Box<Expr>>)
    ensures
        (spec_hdl_opt_expr(o) is Ok) <==> opt_expr_supported(o),
    decreases o, 0int,
{
    match o {
        Some(b) => {
            lemma_hdl_expr_accepts_supported(*b);
        },
        None => {},
    }
}

/// The first `n` expressions are translated exactly when each is supported.
pub proof fn lemma_hdl_exprs_accept_supported(s: Seq<Expr>, n: int)
    ensures
        (spec_hdl_exprs(s, n) is Ok) <==> exprs_supported(s, n),
    decreases s, n,
{
    if 0 < n <= s.len() {
        lemma_hdl_exprs_accept_supported(s, n - 1);
        lemma_hdl_expr_accepts_supported(s[n - 1]);
    }
}

pub proof fn lemma_hdl_field_value_accepts_supported(f: FieldValue)
    ensures
        (spec_hdl_field_value(f) is Ok) <==> field_value_supported(f),
    decreases f, 0int,
{
    lemma_hdl_expr_accepts_supported(f.expr);
}

pub proof fn lemma_hdl_field_values_accept_supported(s: Seq<FieldValue>, n: int)
    ensures
        (spec_hdl_field_values(s, n) is Ok) <==> field_values_supported(s, n),
    decreases s, n,
{
    if 0 < n <= s.len() {
        lemma_hdl_field_values_accept_supported(s, n - 1);
        lemma_hdl_field_value_accepts_supported(s[n - 1]);
    }
}

pub proof fn lemma_hdl_arm_accepts_supported(a: Arm)
    ensures
        (spec_hdl_arm(a) is Ok) <==> arm_supported(a),
    decreases a, 0int,
{
    lemma_hdl_pat_arm_accepts_supported(a.pat);
    lemma_hdl_opt_expr_accepts_supported(a.guard);
    lemma_hdl_expr_accepts_supported(*a.body);
}

pub proof fn lemma_hdl_arms_accept_supported(s: Seq<Arm>, n: int)
    ensures
        (spec_hdl_arms(s, n) is Ok) <==> arms_supported(s, n),
    decreases s, n,
{
    if 0 < n <= s.len() {
        lemma_hdl_arms_accept_supported(s, n - 1);
        lemma_hdl_arm_accepts_supported(s[n - 1]);
    }
}

/// A statement is translated exactly when it is supported.
pub proof fn lemma_hdl_stmt_accepts_supported(st: Stmt)
    ensures
        (spec_hdl_stmt(st) is Ok) <==> stmt_supported(st),
    decreases st, 0int,
{
    match st.kind {
        StmtKind::Local(l) => {
            lemma_hdl_pat_accepts_supported(l.pat);
            match l.init {
                Some(i) => {
                    lemma_hdl_expr_accepts_supported(i);
                },
                None => {},
            }
        },
        StmtKind::Expr(x, _) => {
            lemma_hdl_expr_accepts_supported(x);
        },
        StmtKind::Other => {},
    }
}

pub proof fn lemma_hdl_stmts_accept_supported(s: Seq<Stmt>, n: int)
    ensures
        (spec_hdl_stmts(s, n) is Ok) <==> stmts_supported(s, n),
    decreases s, n,
{
    if 0 < n <= s.len() {
        lemma_hdl_stmts_accept_supported(s, n - 1);
        lemma_hdl_stmt_accepts_supported(s[n - 1]);
    }
}

/// A block, and so the body of a kernel function, is translated exactly
/// when every statement in it is supported.
pub proof fn lemma_hdl_block_accepts_supported(b: Block)
    ensures
        (spec_hdl_block_inner(b) is Ok) <==> block_supported(b),
    decreases b, 0int,
{
    lemma_hdl_stmts_accept_supported(b.stmts@, b.stmts@.len() as int);
}

} // verus!
