use rhdl::builder::{AstBinOp, Builder, Code};
use rhdl::kernel::{hdl_binary, hdl_block, hdl_expr, hdl_kernel, hdl_range, hdl_pat, hdl_pat_arm, literal_or_ranges, stmt, ErrorKind, KernelError};
use rhdl::syntax::{
    Arm, BinOp, Block, Expr, ExprAssign, ExprBinary, ExprBlock, ExprCall, ExprField, ExprIf,
    ExprKind, ExprLit, ExprMatch, ExprPath, ExprRange, ExprStruct, ExprTry, ExprTuple, ExprUnary, FieldPat,
    FieldValue, ItemFn, Lit, LitKind, Local, Member, Pat, PatIdent, PatKind, PatOr, PatParen,
    PatPath, PatStruct, PatTupleStruct, Path, RangeLimits, Stmt, StmtKind, UnOp,
};

fn path(segs: &[&str]) -> Path {
    Path { segments: segs.iter().map(|s| s.to_string()).collect() }
}

fn e(span: usize, kind: ExprKind) -> Expr {
    Expr { span, kind }
}

fn lit_int(span: usize, token: &str) -> Expr {
    e(span, ExprKind::Lit(ExprLit { lit: Lit { span, kind: LitKind::Int(token.to_string()) } }))
}

fn var(span: usize, name: &str) -> Expr {
    e(span, ExprKind::Path(ExprPath { path: path(&[name]) }))
}

fn bin(span: usize, op: BinOp, l: Expr, r: Expr) -> Expr {
    e(span, ExprKind::Binary(ExprBinary { op, left: Box::new(l), right: Box::new(r) }))
}

fn ident_pat(span: usize, name: &str, mutability: bool) -> Pat {
    Pat { span, kind: PatKind::Ident(PatIdent { name: name.to_string(), by_ref: false, mutability }) }
}

fn let_stmt(span: usize, name: &str, mutability: bool, init: Expr) -> Stmt {
    Stmt { span, kind: StmtKind::Local(Local { pat: ident_pat(span, name, mutability), init: Some(init) }) }
}

fn expr_stmt(span: usize, x: Expr, semi: bool) -> Stmt {
    Stmt { span, kind: StmtKind::Expr(x, semi) }
}

fn field(name: &str, x: Expr) -> FieldValue {
    FieldValue { member: Member::Named(name.to_string()), expr: x }
}

fn struct_expr(span: usize, name: &str, fields: Vec<FieldValue>) -> Expr {
    e(span, ExprKind::Struct(ExprStruct { qself: false, path: path(&[name]), fields, rest: None }))
}

fn empty_block(span: usize) -> Expr {
    e(span, ExprKind::Block(ExprBlock { block: Block { stmts: vec![] } }))
}

fn builder_of(c: &Code) -> Option<Builder> {
    match c {
        Code::Call(b, _) => Some(*b),
        Code::Trailing(inner) => builder_of(inner),
        _ => None,
    }
}

fn args_of(c: &Code) -> &Vec<Code> {
    match c {
        Code::Call(_, args) => args,
        Code::Trailing(inner) => args_of(inner),
        _ => panic!("not a call"),
    }
}

fn list_of(c: &Code) -> &Vec<Code> {
    match c {
        Code::List(v) => v,
        _ => panic!("not a list"),
    }
}

#[test]
fn test_basic_block() {
    let block = Block {
        stmts: vec![
            let_stmt(1, "a", false, lit_int(2, "1")),
            let_stmt(3, "b", false, lit_int(4, "2")),
            let_stmt(5, "q", false, lit_int(6, "0x1234_u32")),
            let_stmt(7, "c", false, bin(8, BinOp::Add, var(9, "a"), var(10, "b"))),
            let_stmt(11, "d", true, lit_int(12, "3")),
            let_stmt(
                13,
                "g",
                false,
                struct_expr(14, "Foo", vec![field("r", lit_int(15, "1")), field("g", lit_int(16, "120")), field("b", lit_int(17, "33"))]),
            ),
            let_stmt(
                18,
                "h",
                false,
                e(19, ExprKind::Field(ExprField { base: Box::new(var(20, "g")), member: Member::Named("r".to_string()) })),
            ),
            expr_stmt(21, var(22, "c"), false),
        ],
    };
    let result = hdl_block(&block).unwrap();
    assert_eq!(builder_of(&result), Some(Builder::BlockExpr));
    let inner = &args_of(&result)[0];
    assert_eq!(builder_of(inner), Some(Builder::Block));
    let stmts = list_of(&args_of(inner)[0]);
    assert_eq!(stmts.len(), 8);
    for s in &stmts[..7] {
        assert_eq!(builder_of(s), Some(Builder::LocalStmt));
    }
    assert_eq!(builder_of(&stmts[7]), Some(Builder::ExprStmt));
    // `let mut d = 3;` keeps its mutability
    let d_pat = &args_of(&stmts[4])[0];
    match &args_of(d_pat)[..] {
        [Code::Name(n), Code::Bool(m)] => {
            assert_eq!(n, "d");
            assert!(*m);
        }
        _ => panic!("unexpected pattern"),
    }
    // the struct literal carries the stray comma of its builder call
    let g_init = &args_of(&stmts[5])[1];
    match g_init {
        Code::Present(inner) => assert!(matches!(**inner, Code::Trailing(_))),
        _ => panic!("missing initializer"),
    }
}

#[test]
fn test_precedence_parser() {
    let block = Block {
        stmts: vec![expr_stmt(
            1,
            bin(2, BinOp::Add, lit_int(3, "1"), bin(4, BinOp::Mul, lit_int(5, "3"), lit_int(6, "9"))),
            false,
        )],
    };
    let result = hdl_block(&block).unwrap();
    let inner = &args_of(&result)[0];
    let stmts = list_of(&args_of(inner)[0]);
    let sum = &args_of(&stmts[0])[0];
    assert_eq!(builder_of(sum), Some(Builder::BinaryExpr));
    assert!(matches!(args_of(sum)[0], Code::BinOp(AstBinOp::Add)));
    let product = &args_of(sum)[2];
    assert!(matches!(args_of(product)[0], Code::BinOp(AstBinOp::Mul)));
}

#[test]
fn test_struct_expression_let() {
    let local = let_stmt(1, "d", false, struct_expr(2, "Foo", vec![field("a", lit_int(3, "1")), field("b", lit_int(4, "2"))]));
    let result = stmt(&local).unwrap();
    assert_eq!(builder_of(&result), Some(Builder::LocalStmt));
}

#[test]
fn test_if_expression() {
    let body = Block {
        stmts: vec![expr_stmt(
            5,
            e(6, ExprKind::Assign(ExprAssign {
                left: Box::new(var(7, "d")),
                right: Box::new(bin(8, BinOp::Sub, var(9, "d"), lit_int(10, "1"))),
            })),
            true,
        )],
    };
    let if_expr = expr_stmt(
        1,
        e(2, ExprKind::If(ExprIf {
            cond: Box::new(bin(3, BinOp::Gt, var(4, "d"), lit_int(11, "0"))),
            then_branch: body,
            else_branch: None,
        })),
        false,
    );
    let result = stmt(&if_expr).unwrap();
    assert_eq!(builder_of(&result), Some(Builder::ExprStmt));
    let if_code = &args_of(&result)[0];
    assert_eq!(builder_of(if_code), Some(Builder::IfExpr));
    assert!(matches!(args_of(if_code)[2], Code::Absent));
}

fn state_arm(span: usize, pat: Pat) -> Arm {
    Arm { pat, guard: None, body: Box::new(empty_block(span)) }
}

fn path_pat(span: usize, segs: &[&str]) -> Pat {
    Pat { span, kind: PatKind::Path(PatPath { qself: false, path: path(segs) }) }
}

#[test]
fn test_match_expression() {
    let arms = vec![
        state_arm(3, path_pat(4, &["State", "Init"])),
        state_arm(
            5,
            Pat {
                span: 6,
                kind: PatKind::TupleStruct(PatTupleStruct { path: path(&["State", "Run"]), elems: vec![ident_pat(7, "a", false)] }),
            },
        ),
        state_arm(8, path_pat(9, &["State", "Boom"])),
    ];
    let match_expr = expr_stmt(1, e(2, ExprKind::Match(ExprMatch { expr: Box::new(var(10, "l")), arms })), false);
    let result = stmt(&match_expr).unwrap();
    let m = &args_of(&result)[0];
    assert_eq!(builder_of(m), Some(Builder::MatchExpr));
    assert_eq!(list_of(&args_of(m)[1]).len(), 3);
}

#[test]
fn test_self_update() {
    let lhs = e(2, ExprKind::Tuple(ExprTuple { elems: vec![var(3, "a"), var(4, "b"), var(5, "c")] }));
    let assign = expr_stmt(1, e(6, ExprKind::Assign(ExprAssign { left: Box::new(lhs), right: Box::new(lit_int(7, "3")) })), true);
    let result = stmt(&assign).unwrap();
    assert_eq!(builder_of(&result), Some(Builder::SemiStmt));
    assert_eq!(builder_of(&args_of(&result)[0]), Some(Builder::AssignExpr));
}

#[test]
fn kernel_builder_is_named_after_function() {
    let item = ItemFn { ident: "add_one".to_string(), block: Block { stmts: vec![expr_stmt(1, var(2, "count"), false)] } };
    let k = hdl_kernel(&item).unwrap();
    assert_eq!(k.name, "add_one_hdl_kernel");
    assert_eq!(builder_of(&k.body), Some(Builder::Block));
}

#[test]
fn while_loops_are_refused() {
    let s = expr_stmt(1, e(42, ExprKind::While), true);
    assert_eq!(stmt(&s).unwrap_err(), KernelError { span: 42, kind: ErrorKind::UnsupportedWhileLoop });
}

#[test]
fn try_is_refused() {
    let x = e(7, ExprKind::Try(ExprTry { expr: Box::new(var(8, "x")) }));
    assert_eq!(hdl_expr(&x).unwrap_err(), KernelError { span: 7, kind: ErrorKind::UnsupportedTry });
}

#[test]
fn division_and_dereference_are_refused() {
    let d = bin(9, BinOp::Div, var(1, "a"), var(2, "b"));
    assert_eq!(hdl_expr(&d).unwrap_err().kind, ErrorKind::UnsupportedBinaryOperator);
    let r = e(3, ExprKind::Unary(ExprUnary { op: UnOp::Deref, expr: Box::new(var(4, "p")) }));
    assert_eq!(hdl_expr(&r).unwrap_err(), KernelError { span: 3, kind: ErrorKind::UnsupportedUnaryOperator });
    // the operator is rejected before its operands are looked at
    let both = bin(5, BinOp::Rem, e(6, ExprKind::Other), var(7, "b"));
    assert_eq!(hdl_expr(&both).unwrap_err().kind, ErrorKind::UnsupportedBinaryOperator);
}

#[test]
fn first_refusal_is_reported() {
    let block = Block {
        stmts: vec![
            expr_stmt(1, var(2, "ok"), true),
            expr_stmt(3, e(4, ExprKind::Other), true),
            expr_stmt(5, e(6, ExprKind::While), true),
        ],
    };
    assert_eq!(hdl_block(&block).unwrap_err(), KernelError { span: 4, kind: ErrorKind::UnsupportedExpression });
}

#[test]
fn index_is_translated_before_base() {
    let x = e(1, ExprKind::Index(rhdl::syntax::ExprIndex { expr: Box::new(e(2, ExprKind::Other)), index: Box::new(e(3, ExprKind::While)) }));
    assert_eq!(hdl_expr(&x).unwrap_err().span, 3);
}

#[test]
fn calls_must_name_a_path() {
    let call = e(1, ExprKind::Call(ExprCall { func: Box::new(e(2, ExprKind::Paren(rhdl::syntax::ExprParen { expr: Box::new(var(3, "f")) }))), args: vec![] }));
    assert_eq!(hdl_expr(&call).unwrap_err(), KernelError { span: 2, kind: ErrorKind::UnsupportedFunctionCall });
    let ok = e(4, ExprKind::Call(ExprCall { func: Box::new(var(5, "f")), args: vec![lit_int(6, "1")] }));
    assert_eq!(builder_of(&hdl_expr(&ok).unwrap()), Some(Builder::CallExpr));
}

#[test]
fn reference_patterns_are_refused() {
    let p = Pat { span: 11, kind: PatKind::Ident(PatIdent { name: "x".to_string(), by_ref: true, mutability: false }) };
    assert_eq!(hdl_pat(&p).unwrap_err(), KernelError { span: 11, kind: ErrorKind::UnsupportedReferencePattern });
}

#[test]
fn qualified_struct_patterns_are_refused_after_fields() {
    let bad_field = FieldPat { member: Member::Named("a".to_string()), pat: Pat { span: 5, kind: PatKind::Other } };
    let p = Pat { span: 4, kind: PatKind::Struct(PatStruct { qself: true, path: path(&["S"]), fields: vec![bad_field], rest: false }) };
    assert_eq!(hdl_pat(&p).unwrap_err(), KernelError { span: 5, kind: ErrorKind::UnsupportedPattern });
    let q = Pat { span: 4, kind: PatKind::Struct(PatStruct { qself: true, path: path(&["S"]), fields: vec![], rest: true }) };
    assert_eq!(hdl_pat(&q).unwrap_err(), KernelError { span: 4, kind: ErrorKind::UnsupportedQualifiedSelf });
}

#[test]
fn match_arm_patterns() {
    let lit3 = Pat { span: 3, kind: PatKind::Lit(Lit { span: 3, kind: LitKind::Int("3".to_string()) }) };
    let not_ok = Pat { span: 1, kind: PatKind::TupleStruct(PatTupleStruct { path: path(&["State", "NotOk"]), elems: vec![lit3] }) };
    assert_eq!(hdl_pat_arm(&not_ok).unwrap_err(), KernelError { span: 1, kind: ErrorKind::UnsupportedTupleStructPattern });
    let tuple = Pat { span: 2, kind: PatKind::Tuple(rhdl::syntax::PatTuple { elems: vec![] }) };
    assert_eq!(hdl_pat_arm(&tuple).unwrap_err().kind, ErrorKind::UnsupportedMatchPattern);
    let wild = Pat { span: 3, kind: PatKind::Wild };
    assert_eq!(builder_of(&hdl_pat_arm(&wild).unwrap()), Some(Builder::WildPat));
}

#[test]
fn literals_other_than_int_and_bool_are_refused() {
    let x = e(1, ExprKind::Lit(ExprLit { lit: Lit { span: 9, kind: LitKind::Other } }));
    assert_eq!(hdl_expr(&x).unwrap_err(), KernelError { span: 9, kind: ErrorKind::UnsupportedLiteral });
    let b = e(1, ExprKind::Lit(ExprLit { lit: Lit { span: 9, kind: LitKind::Bool(true) } }));
    let code = hdl_expr(&b).unwrap();
    assert_eq!(builder_of(&args_of(&code)[0]), Some(Builder::ExprLitBool));
}

#[test]
fn error_messages() {
    let e1 = KernelError { span: 0, kind: ErrorKind::UnsupportedExpression };
    assert_eq!(e1.message("x as u8"), "Unsupported expression type x as u8 in an rhdl kernel function");
    let e2 = KernelError { span: 0, kind: ErrorKind::UnsupportedWhileLoop };
    assert_eq!(e2.message(""), "Unsupported while loop in rhdl kernel function");
    let e3 = KernelError { span: 0, kind: ErrorKind::UnsupportedTupleStructPattern };
    assert_eq!(e3.message(""), "Unsupported tuple struct pattern - rhdl only supports simple patterns like Foo(a,b,_)");
    let e4 = KernelError { span: 0, kind: ErrorKind::UnsupportedStatement };
    assert_eq!(e4.message(""), "Unsupported statement type");
}

#[test]
fn literal_or_ranges_looks_inside() {
    let lit = Pat { span: 1, kind: PatKind::Lit(Lit { span: 1, kind: LitKind::Int("1".to_string()) }) };
    let or = Pat { span: 2, kind: PatKind::Or(PatOr { cases: vec![Pat { span: 3, kind: PatKind::Wild }, lit] }) };
    let paren = Pat { span: 4, kind: PatKind::Paren(PatParen { pat: Box::new(or) }) };
    assert!(literal_or_ranges(&paren));
    assert!(!literal_or_ranges(&ident_pat(5, "x", false)));
    assert!(literal_or_ranges(&Pat { span: 6, kind: PatKind::Range }));
}

#[test]
fn supported_kernel_is_translated() {
    // A law on concrete values: a body made only of supported syntax translates.
    let item = ItemFn {
        ident: "strobe".to_string(),
        block: Block {
            stmts: vec![
                let_stmt(1, "s", false, bin(2, BinOp::BitAnd, var(3, "enable"), bin(4, BinOp::Eq, var(5, "counter"), var(6, "threshold")))),
                expr_stmt(7, e(8, ExprKind::Tuple(ExprTuple { elems: vec![var(9, "s"), var(10, "d")] })), false),
            ],
        },
    };
    assert!(hdl_kernel(&item).is_ok());
}

#[test]
fn binary_operators_keep_their_names() {
    let cases = [
        (BinOp::Add, AstBinOp::Add),
        (BinOp::Shl, AstBinOp::Shl),
        (BinOp::Ge, AstBinOp::Ge),
        (BinOp::BitXorAssign, AstBinOp::BitXorAssign),
        (BinOp::ShrAssign, AstBinOp::ShrAssign),
    ];
    for (op, ast_op) in cases {
        let c = hdl_binary(&bin(1, op, var(2, "a"), var(3, "b"))).unwrap();
        assert_eq!(builder_of(&c), Some(Builder::BinaryExpr));
        let args = args_of(&c);
        assert!(matches!(args[0], Code::BinOp(o) if o == ast_op));
        assert_eq!(builder_of(&args[1]), Some(Builder::PathExpr));
        assert_eq!(builder_of(&args[2]), Some(Builder::PathExpr));
    }
    assert_eq!(
        hdl_binary(&bin(4, BinOp::DivAssign, var(5, "a"), var(6, "b"))).unwrap_err(),
        KernelError { span: 4, kind: ErrorKind::UnsupportedBinaryOperator }
    );
}

#[test]
fn range_bounds_and_limits() {
    let r = e(1, ExprKind::Range(ExprRange {
        start: Some(Box::new(lit_int(2, "0"))),
        limits: RangeLimits::Closed,
        end: None,
    }));
    let c = hdl_range(&r).unwrap();
    assert_eq!(builder_of(&c), Some(Builder::RangeExpr));
    let args = args_of(&c);
    assert!(matches!(&args[0], Code::Present(x) if builder_of(x) == Some(Builder::LitExpr)));
    assert_eq!(builder_of(&args[1]), Some(Builder::RangeLimitsClosed));
    assert!(matches!(args[2], Code::Absent));

    let half = e(3, ExprKind::Range(ExprRange {
        start: None,
        limits: RangeLimits::HalfOpen,
        end: Some(Box::new(e(4, ExprKind::Other))),
    }));
    assert_eq!(hdl_range(&half).unwrap_err(), KernelError { span: 4, kind: ErrorKind::UnsupportedExpression });
}
