use rhdl::ast::{
    Block, Expr, ExprAssign, ExprKind, Kernel, KernelFn, Local, Pat, PatKind, Stmt, StmtKind,
};
use rhdl::check_inference::{check_inference, id_to_var, InferenceError, Validator};
use rhdl::unify::{Ty, UnifyContext};

fn ident(id: Option<usize>, name: &str) -> Pat {
    Pat { id, kind: PatKind::Ident { name: name.to_string(), mutable: false } }
}

fn path_expr(id: Option<usize>, name: &str) -> Expr {
    Expr { id, kind: ExprKind::Path { path: vec![name.to_string()] } }
}

/// `fn f(a) { let x = a; x = a; }` with node ids:
/// input pat 0, block 1, let stmt 2, local 3, pat x 4, init 5,
/// assign stmt 6, lhs 7, rhs 8, assign expr 9.
fn kernel() -> Kernel {
    let let_stmt = Stmt {
        id: Some(2),
        kind: StmtKind::Local(Local { id: Some(3), pat: ident(Some(4), "x"), init: Some(Box::new(path_expr(Some(5), "a"))) }),
    };
    let assign_stmt = Stmt {
        id: Some(6),
        kind: StmtKind::Semi(Expr {
            id: Some(9),
            kind: ExprKind::Assign(ExprAssign {
                lhs: Box::new(path_expr(Some(7), "x")),
                rhs: Box::new(path_expr(Some(8), "a")),
            }),
        }),
    };
    Kernel {
        ast: KernelFn {
            id: None,
            name: "f".to_string(),
            inputs: vec![ident(Some(0), "a")],
            body: Block { id: Some(1), stmts: vec![let_stmt, assign_stmt] },
        },
    }
}

fn all_bound_except(unbound: &[usize]) -> UnifyContext {
    let sub = (0..10).map(|v| if unbound.contains(&v) { None } else { Some(Ty::Bits(8)) }).collect();
    UnifyContext::new(sub).unwrap()
}

#[test]
fn fully_inferred_kernel_passes() {
    assert_eq!(check_inference(&kernel(), &all_bound_except(&[])), Ok(()));
}

#[test]
fn unchecked_nodes_may_stay_unbound() {
    // Expressions other than the sides of an assignment are not checked.
    assert_eq!(check_inference(&kernel(), &all_bound_except(&[5, 9])), Ok(()));
}

#[test]
fn unbound_pattern_is_reported_with_its_statement() {
    assert_eq!(
        check_inference(&kernel(), &all_bound_except(&[4])),
        Err(InferenceError::UnboundTypeVariable { statement: Some(2) })
    );
}

#[test]
fn unbound_input_is_reported_before_any_statement() {
    assert_eq!(
        check_inference(&kernel(), &all_bound_except(&[0, 4])),
        Err(InferenceError::UnboundTypeVariable { statement: None })
    );
}

#[test]
fn unbound_assignment_side_is_reported() {
    assert_eq!(
        check_inference(&kernel(), &all_bound_except(&[8])),
        Err(InferenceError::UnboundTypeVariable { statement: Some(6) })
    );
}

#[test]
fn variable_bound_to_unbound_variable_is_unbound() {
    let mut sub: Vec<Option<Ty>> = (0..10).map(|_| Some(Ty::Bool)).collect();
    sub[1] = Some(Ty::Var(12));
    let ctx = UnifyContext::new(sub).unwrap();
    assert_eq!(check_inference(&kernel(), &ctx), Err(InferenceError::UnboundTypeVariable { statement: None }));
}

#[test]
fn missing_id_is_reported() {
    let mut k = kernel();
    k.ast.body.stmts[1].id = None;
    assert_eq!(
        check_inference(&k, &all_bound_except(&[])),
        Err(InferenceError::MissingId { statement: None })
    );
}

#[test]
fn validator_checks_one_node() {
    let ctx = all_bound_except(&[3]);
    let mut v = Validator::new(&ctx);
    assert_eq!(v.validate_bound_type(Some(2)), Ok(()));
    assert_eq!(v.validate_bound_type(Some(3)), Err(InferenceError::UnboundTypeVariable { statement: None }));
    assert_eq!(v.validate_bound_type(None), Err(InferenceError::MissingId { statement: None }));
    assert_eq!(v.validate_kernel(&kernel()), Err(InferenceError::UnboundTypeVariable { statement: Some(2) }));
}

#[test]
fn id_to_var_names_the_node_variable() {
    assert_eq!(id_to_var(Some(5)), Some(Ty::Var(5)));
    assert_eq!(id_to_var(None), None);
}

#[test]
fn unify_context_resolves_in_one_step() {
    let ctx = UnifyContext::new(vec![Some(Ty::Var(1)), None, Some(Ty::Signed(4))]).unwrap();
    assert_eq!(ctx.apply(Ty::Var(0)), Ty::Var(1));
    assert_eq!(ctx.apply(Ty::Var(1)), Ty::Var(1));
    assert_eq!(ctx.apply(Ty::Var(2)), Ty::Signed(4));
    assert_eq!(ctx.apply(Ty::Var(9)), Ty::Var(9));
    assert_eq!(ctx.apply(Ty::Bool), Ty::Bool);
    // applying twice is applying once
    assert_eq!(ctx.apply(ctx.apply(Ty::Var(0))), ctx.apply(Ty::Var(0)));
}

#[test]
fn unresolved_substitution_is_refused() {
    assert!(UnifyContext::new(vec![Some(Ty::Var(1)), Some(Ty::Bool)]).is_none());
    assert!(UnifyContext::new(vec![Some(Ty::Var(0))]).is_none());
}

#[test]
fn unbound_message_names_the_statement() {
    let e = InferenceError::UnboundTypeVariable { statement: Some(3) };
    assert_eq!(e.message("let a = b;"), "unbound type variable in statement: let a = b;");
}
