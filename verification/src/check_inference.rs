//! The check that type inference left no node of a kernel with an
//! unbound type.
use vstd::prelude::*;
use crate::ast::{
    Arm, Block, Expr, ExprAssign, ExprKind, FieldPat, FieldValue, Kernel, Local, NodeId, Pat,
    PatKind, Stmt, StmtKind,
};
use crate::unify::{Ty, UnifyContext, spec_apply};

verus! {

/// Why a kernel failed the check; `statement` is the statement being
/// visited when the failure was found (none before the first).
#[derive(Clone, Copy, PartialEq, Eq, Structural, Debug)]
pub enum InferenceError {
    /// A node carries no id, so its type cannot be looked up.
    MissingId { statement: Option<NodeId> },
    /// The type of a node is still a type variable.
    UnboundTypeVariable { statement: Option<NodeId> },
}

/// The message that reports an unbound type variable found while
/// visiting the statement printed as `statement_text`.
pub open spec fn unbound_text(statement_text: Seq<char>) -> Seq<char> {
    "unbound type variable in statement: "@ + statement_text
}

impl InferenceError {
    /// The message that reports an unbound type variable; `statement_text`
    /// is the printed form of the statement the error names.
    pub fn message(&self, statement_text: &str) -> (m: String)
        requires
            *self is UnboundTypeVariable,
        ensures
            m@ == unbound_text(statement_text@),
    {
        let mut m = String::from_str("unbound type variable in statement: ");
        m.append(statement_text);
        m
    }
}

/// The type variable of node `id`.
pub open spec fn var_of(id: NodeId) -> Ty {
    Ty::Var(id)
}

/// Whether node `id` has a type other than a variable under `sub`.
pub open spec fn id_bound(sub: Seq<Option<Ty>>, id: Option<NodeId>) -> bool {
    match id {
        Some(v) => !(spec_apply(sub, var_of(v)) is Var),
        None => false,
    }
}

/// The failure that checking node `id` finds while visiting `statement`.
pub open spec fn spec_check_id(sub: Seq<Option<Ty>>, id: Option<NodeId>, statement: Option<NodeId>) -> Option<InferenceError> {
    match id {
        None => Some(InferenceError::MissingId { statement }),
        Some(v) => if spec_apply(sub, var_of(v)) is Var {
            Some(InferenceError::UnboundTypeVariable { statement })
        } else {
            None
        },
    }
}

// ---------------------------------------------------------------------
// The visit, specified: the first failure in visiting order, or the
// statement being visited at the end
// ---------------------------------------------------------------------

pub open spec fn spec_visit_pat(sub: Seq<Option<Ty>>, p: Pat, cur: Option<NodeId>) -> Option<InferenceError>
    decreases p, 0int,
{
    match spec_check_id(sub, p.id, cur) {
        Some(e) => Some(e),
        None => match p.kind {
            PatKind::Tuple { elems } => spec_visit_pats(sub, elems@, elems@.len() as int, cur),
            PatKind::TupleStruct { path: _, elems } => spec_visit_pats(sub, elems@, elems@.len() as int, cur),
            PatKind::Struct { path: _, fields, rest: _ } => spec_visit_field_pats(
                sub,
                fields@,
                fields@.len() as int,
                cur,
            ),
            PatKind::Type { pat } => spec_visit_pat(sub, *pat, cur),
            _ => None,
        },
    }
}

pub open spec fn spec_visit_pats(sub: Seq<Option<Ty>>, s: Seq<Pat>, n: int, cur: Option<NodeId>) -> Option<InferenceError>
    decreases s, n,
{
    if 0 < n <= s.len() {
        match spec_visit_pats(sub, s, n - 1, cur) {
            Some(e) => Some(e),
            None => spec_visit_pat(sub, s[n - 1], cur),
        }
    } else {
        None
    }
}

pub open spec fn spec_visit_field_pats(sub: Seq<Option<Ty>>, s: Seq<FieldPat>, n: int, cur: Option<NodeId>) -> Option<InferenceError>
    decreases s, n,
{
    if 0 < n <= s.len() {
        match spec_visit_field_pats(sub, s, n - 1, cur) {
            Some(e) => Some(e),
            None => spec_visit_pat(sub, s[n - 1].pat, cur),
        }
    } else {
        None
    }
}

pub open spec fn spec_visit_opt_expr(sub: Seq<Option<Ty>>, o: Option<Box<Expr>>, cur: Option<NodeId>) -> Result<Option<NodeId>, InferenceError>
    decreases o, 0int,
{
    match o {
        Some(b) => spec_visit_expr(sub, *b, cur),
        None => Ok(cur),
    }
}

pub open spec fn spec_visit_expr(sub: Seq<Option<Ty>>, e: Expr, cur: Option<NodeId>) -> Result<Option<NodeId>, InferenceError>
    decreases e, 0int,
{
    match e.kind {
        ExprKind::Binary { op: _, lhs, rhs } => match spec_visit_expr(sub, *lhs, cur) {
            Err(x) => Err(x),
            Ok(c) => spec_visit_expr(sub, *rhs, c),
        },
        ExprKind::Unary { op: _, arg } => spec_visit_expr(sub, *arg, cur),
        ExprKind::Match { expr, arms } => match spec_visit_expr(sub, *expr, cur) {
            Err(x) => Err(x),
            Ok(c) => spec_visit_arms(sub, arms@, arms@.len() as int, c),
        },
        ExprKind::Ret { expr } => spec_visit_opt_expr(sub, expr, cur),
        ExprKind::If { cond, then_branch, else_branch } => match spec_visit_expr(sub, *cond, cur) {
            Err(x) => Err(x),
            Ok(c) => match spec_visit_block(sub, then_branch, c) {
                Err(x) => Err(x),
                Ok(c2) => spec_visit_opt_expr(sub, else_branch, c2),
            },
        },
        ExprKind::Index { expr, index } => match spec_visit_expr(sub, *expr, cur) {
            Err(x) => Err(x),
            Ok(c) => spec_visit_expr(sub, *index, c),
        },
        ExprKind::Lit => Ok(cur),
        ExprKind::Paren { expr } => spec_visit_expr(sub, *expr, cur),
        ExprKind::Group { expr } => spec_visit_expr(sub, *expr, cur),
        ExprKind::Tuple { elems } => spec_visit_exprs(sub, elems@, elems@.len() as int, cur),
        ExprKind::Array { elems } => spec_visit_exprs(sub, elems@, elems@.len() as int, cur),
        ExprKind::Struct { path: _, fields, rest } => match spec_visit_field_values(
            sub,
            fields@,
            fields@.len() as int,
            cur,
        ) {
            Err(x) => Err(x),
            Ok(c) => spec_visit_opt_expr(sub, rest, c),
        },
        ExprKind::Field { expr, member: _ } => spec_visit_expr(sub, *expr, cur),
        ExprKind::Block { block } => spec_visit_block(sub, block, cur),
        ExprKind::Range { start, end } => match spec_visit_opt_expr(sub, start, cur) {
            Err(x) => Err(x),
            Ok(c) => spec_visit_opt_expr(sub, end, c),
        },
        ExprKind::Path { path: _ } => Ok(cur),
        ExprKind::Let { pat, value } => match spec_visit_pat(sub, pat, cur) {
            Some(x) => Err(x),
            None => spec_visit_expr(sub, *value, cur),
        },
        ExprKind::Repeat { value, len } => match spec_visit_expr(sub, *value, cur) {
            Err(x) => Err(x),
            Ok(c) => spec_visit_expr(sub, *len, c),
        },
        ExprKind::Assign(a) => spec_visit_expr_assign(sub, a, cur),
        ExprKind::For { pat, expr, body } => match spec_visit_pat(sub, pat, cur) {
            Some(x) => Err(x),
            None => match spec_visit_expr(sub, *expr, cur) {
                Err(x) => Err(x),
                Ok(c) => spec_visit_block(sub, body, c),
            },
        },
        ExprKind::Call { path: _, args } => spec_visit_exprs(sub, args@, args@.len() as int, cur),
        ExprKind::MethodCall { receiver, args, name: _ } => match spec_visit_expr(sub, *receiver, cur) {
            Err(x) => Err(x),
            Ok(c) => spec_visit_exprs(sub, args@, args@.len() as int, c),
        },
    }
}

/// An assignment: both sides are checked, then visited.
pub open spec fn spec_visit_expr_assign(sub: Seq<Option<Ty>>, a: ExprAssign, cur: Option<NodeId>) -> Result<Option<NodeId>, InferenceError>
    decreases a, 0int,
{
    match spec_check_id(sub, a.lhs.id, cur) {
        Some(x) => Err(x),
        None => match spec_check_id(sub, a.rhs.id, cur) {
            Some(x) => Err(x),
            None => match spec_visit_expr(sub, *a.lhs, cur) {
                Err(x) => Err(x),
                Ok(c) => spec_visit_expr(sub, *a.rhs, c),
            },
        },
    }
}

pub open spec fn spec_visit_exprs(sub: Seq<Option<Ty>>, s: Seq<Expr>, n: int, cur: Option<NodeId>) -> Result<Option<NodeId>, InferenceError>
    decreases s, n,
{
    if 0 < n <= s.len() {
        match spec_visit_exprs(sub, s, n - 1, cur) {
            Err(x) => Err(x),
            Ok(c) => spec_visit_expr(sub, s[n - 1], c),
        }
    } else {
        Ok(cur)
    }
}

pub open spec fn spec_visit_field_values(sub: Seq<Option<Ty>>, s: Seq<FieldValue>, n: int, cur: Option<NodeId>) -> Result<Option<NodeId>, InferenceError>
    decreases s, n,
{
    if 0 < n <= s.len() {
        match spec_visit_field_values(sub, s, n - 1, cur) {
            Err(x) => Err(x),
            Ok(c) => spec_visit_expr(sub, s[n - 1].value, c),
        }
    } else {
        Ok(cur)
    }
}

pub open spec fn spec_visit_arm(sub: Seq<Option<Ty>>, a: Arm, cur: Option<NodeId>) -> Result<Option<NodeId>, InferenceError>
    decreases a, 0int,
{
    match spec_visit_pat(sub, a.pat, cur) {
        Some(x) => Err(x),
        None => match spec_visit_opt_expr(sub, a.guard, cur) {
            Err(x) => Err(x),
            Ok(c) => spec_visit_expr(sub, *a.body, c),
        },
    }
}

pub open spec fn spec_visit_arms(sub: Seq<Option<Ty>>, s: Seq<Arm>, n: int, cur: Option<NodeId>) -> Result<Option<NodeId>, InferenceError>
    decreases s, n,
{
    if 0 < n <= s.len() {
        match spec_visit_arms(sub, s, n - 1, cur) {
            Err(x) => Err(x),
            Ok(c) => spec_visit_arm(sub, s[n - 1], c),
        }
    } else {
        Ok(cur)
    }
}

/// A `let`: its own id, its pattern, then its initializer.
pub open spec fn spec_visit_local(sub: Seq<Option<Ty>>, l: Local, cur: Option<NodeId>) -> Result<Option<NodeId>, InferenceError>
    decreases l, 0int,
{
    match spec_check_id(sub, l.id, cur) {
        Some(x) => Err(x),
        None => match spec_visit_pat(sub, l.pat, cur) {
            Some(x) => Err(x),
            None => spec_visit_opt_expr(sub, l.init, cur),
        },
    }
}

/// A statement becomes the statement being visited, is checked, and its
/// parts are visited.
pub open spec fn spec_visit_stmt(sub: Seq<Option<Ty>>, st: Stmt, cur: Option<NodeId>) -> Result<Option<NodeId>, InferenceError>
    decreases st, 0int,
{
    match spec_check_id(sub, st.id, st.id) {
        Some(x) => Err(x),
        None => match st.kind {
            StmtKind::Local(l) => spec_visit_local(sub, l, st.id),
            StmtKind::Expr(e) => spec_visit_expr(sub, e, st.id),
            StmtKind::Semi(e) => spec_visit_expr(sub, e, st.id),
        },
    }
}

pub open spec fn spec_visit_stmts(sub: Seq<Option<Ty>>, s: Seq<Stmt>, n: int, cur: Option<NodeId>) -> Result<Option<NodeId>, InferenceError>
    decreases s, n,
{
    if 0 < n <= s.len() {
        match spec_visit_stmts(sub, s, n - 1, cur) {
            Err(x) => Err(x),
            Ok(c) => spec_visit_stmt(sub, s[n - 1], c),
        }
    } else {
        Ok(cur)
    }
}

/// A block: its own id, then its statements.
pub open spec fn spec_visit_block(sub: Seq<Option<Ty>>, b: Block, cur: Option<NodeId>) -> Result<Option<NodeId>, InferenceError>
    decreases b, 0int,
{
    match spec_check_id(sub, b.id, cur) {
        Some(x) => Err(x),
        None => spec_visit_stmts(sub, b.stmts@, b.stmts@.len() as int, cur),
    }
}

/// A kernel: its argument patterns, then its body.
pub open spec fn spec_visit_kernel(sub: Seq<Option<Ty>>, k: Kernel, cur: Option<NodeId>) -> Result<(), InferenceError> {
    match spec_visit_pats(sub, k.ast.inputs@, k.ast.inputs@.len() as int, cur) {
        Some(x) => Err(x),
        None => match spec_visit_block(sub, k.ast.body, cur) {
            Err(x) => Err(x),
            Ok(_) => Ok(()),
        },
    }
}

/// The whole check, with no statement visited yet.
pub open spec fn spec_check_inference(k: Kernel, sub: Seq<Option<Ty>>) -> Result<(), InferenceError> {
    spec_visit_kernel(sub, k, None)
}

/// A visit that ended in `r` with `after` the statement being visited
/// agrees with the specified outcome `s`.
pub open spec fn visit_agrees(r: Result<(), InferenceError>, after: Option<NodeId>, s: Result<Option<NodeId>, InferenceError>) -> bool {
    match r {
        Ok(_) => s == Ok::<Option<NodeId>, InferenceError>(after),
        Err(e) => s == Err::<Option<NodeId>, InferenceError>(e),
    }
}

/// A pattern visit that ended in `r` agrees with the specified failure `s`.
pub open spec fn check_agrees(r: Result<(), InferenceError>, s: Option<InferenceError>) -> bool {
    match r {
        Ok(_) => s is None,
        Err(e) => s == Some(e),
    }
}

/// Checks that inference bound the type of every statement, block,
/// `let`, pattern and assignment side of `kernel`.
pub fn check_inference(kernel: &Kernel, ty: &UnifyContext) -> (r: Result<(), InferenceError>)
    ensures
        r == spec_check_inference(*kernel, ty.bindings()),
{
    let mut validator = Validator::new(ty);
    validator.validate_kernel(kernel)
}

/// Walks a kernel, remembering the statement it is in.
pub struct Validator<'a> {
    ty: &'a UnifyContext,
    current_statement: Option<NodeId>,
}

impl<'a> Validator<'a> {
    /// The substitution the walk checks against.
    pub closed spec fn context(&self) -> Seq<Option<Ty>> {
        self.ty.bindings()
    }

    /// The statement being visited.
    pub closed spec fn statement(&self) -> Option<NodeId> {
        self.current_statement
    }

    pub fn new(ty: &'a UnifyContext) -> (v: Self)
        ensures
            v.context() == ty.bindings(),
            v.statement() is None,
    {
        Validator { ty, current_statement: None }
    }

    /// Visits the kernel's argument patterns, then its body.
    pub fn validate_kernel(&mut self, kernel: &Kernel) -> (r: Result<(), InferenceError>)
        ensures
            r == spec_visit_kernel(old(self).context(), *kernel, old(self).statement()),
    {
        self.visit_pats(&kernel.ast.inputs)?;
        self.visit_block(&kernel.ast.body)?;
        Ok(())
    }

    /// Fails when `node_id` is missing or its type is still a variable.
    pub fn validate_bound_type(&mut self, node_id: Option<NodeId>) -> (r: Result<(), InferenceError>)
        ensures
            final(self).context() == old(self).context(),
            final(self).statement() == old(self).statement(),
            check_agrees(r, spec_check_id(old(self).context(), node_id, old(self).statement())),
    {
        let var = match id_to_var(node_id) {
            Some(v) => v,
            None => {
                return Err(InferenceError::MissingId { statement: self.current_statement });
            },
        };
        let ty = self.ty.apply(var);
        if matches!(ty, Ty::Var(_)) {
            Err(InferenceError::UnboundTypeVariable { statement: self.current_statement })
        } else {
            Ok(())
        }
    }

    fn visit_pat(&mut self, node: &Pat) -> (r: Result<(), InferenceError>)
        ensures
            final(self).context() == old(self).context(),
            final(self).statement() == old(self).statement(),
            check_agrees(r, spec_visit_pat(old(self).context(), *node, old(self).statement())),
        decreases *node, 0int,
    {
        self.validate_bound_type(node.id)?;
        match &node.kind {
            PatKind::Tuple { elems } => self.visit_pats(elems),
            PatKind::TupleStruct { path: _, elems } => self.visit_pats(elems),
            PatKind::Struct { path: _, fields, rest: _ } => self.visit_field_pats(fields),
            PatKind::Type { pat } => self.visit_pat(pat),
            _ => Ok(()),
        }
    }

    fn visit_pats(&mut self, v: &Vec<Pat>) -> (r: Result<(), InferenceError>)
        ensures
            final(self).context() == old(self).context(),
            final(self).statement() == old(self).statement(),
            check_agrees(r, spec_visit_pats(old(self).context(), v@, v@.len() as int, old(self).statement())),
        decreases v@, 0int,
    {
        let ghost sub = self.context();
        let ghost cur = self.statement();
        let mut i: usize = 0;
        while i < v.len()
            invariant
                i <= v@.len(),
                self.context() == sub,
                sub == old(self).context(),
                cur == old(self).statement(),
                self.statement() == cur,
                spec_visit_pats(sub, v@, i as int, cur) is None,
            decreases v@.len() - i,
        {
            let r = self.visit_pat(&v[i]);
            if r.is_err() {
                proof {
                    lemma_visit_pats_fail_stays(sub, v@, i + 1, v@.len() as int, cur);
                }
                return r;
            }
            i = i + 1;
        }
        Ok(())
    }

    fn visit_field_pats(&mut self, v: &Vec<FieldPat>) -> (r: Result<(), InferenceError>)
        ensures
            final(self).context() == old(self).context(),
            final(self).statement() == old(self).statement(),
            check_agrees(r, spec_visit_field_pats(old(self).context(), v@, v@.len() as int, old(self).statement())),
        decreases v@, 0int,
    {
        let ghost sub = self.context();
        let ghost cur = self.statement();
        let mut i: usize = 0;
        while i < v.len()
            invariant
                i <= v@.len(),
                self.context() == sub,
                sub == old(self).context(),
                cur == old(self).statement(),
                self.statement() == cur,
                spec_visit_field_pats(sub, v@, i as int, cur) is None,
            decreases v@.len() - i,
        {
            let r = self.visit_pat(&v[i].pat);
            if r.is_err() {
                proof {
                    lemma_visit_field_pats_fail_stays(sub, v@, i + 1, v@.len() as int, cur);
                }
                return r;
            }
            i = i + 1;
        }
        Ok(())
    }

    fn visit_opt_expr(&mut self, o: &Option<Box<Expr>>) -> (r: Result<(), InferenceError>)
        ensures
            final(self).context() == old(self).context(),
            visit_agrees(r, final(self).statement(), spec_visit_opt_expr(old(self).context(), *o, old(self).statement())),
        decreases *o, 0int,
    {
        match o {
            Some(e) => self.visit_expr(e),
            None => Ok(()),
        }
    }

    fn visit_expr(&mut self, node: &Expr) -> (r: Result<(), InferenceError>)
        ensures
            final(self).context() == old(self).context(),
            visit_agrees(r, final(self).statement(), spec_visit_expr(old(self).context(), *node, old(self).statement())),
        decreases *node, 0int,
    {
        match &node.kind {
            ExprKind::Binary { op: _, lhs, rhs } => {
                self.visit_expr(lhs)?;
                self.visit_expr(rhs)
            },
            ExprKind::Unary { op: _, arg } => self.visit_expr(arg),
            ExprKind::Match { expr, arms } => {
                self.visit_expr(expr)?;
                self.visit_arms(arms)
            },
            ExprKind::Ret { expr } => self.visit_opt_expr(expr),
            ExprKind::If { cond, then_branch, else_branch } => {
                self.visit_expr(cond)?;
                self.visit_block(then_branch)?;
                self.visit_opt_expr(else_branch)
            },
            ExprKind::Index { expr, index } => {
                self.visit_expr(expr)?;
                self.visit_expr(index)
            },
            ExprKind::Lit => Ok(()),
            ExprKind::Paren { expr } => self.visit_expr(expr),
            ExprKind::Group { expr } => self.visit_expr(expr),
            ExprKind::Tuple { elems } => self.visit_exprs(elems),
            ExprKind::Array { elems } => self.visit_exprs(elems),
            ExprKind::Struct { path: _, fields, rest } => {
                self.visit_field_values(fields)?;
                self.visit_opt_expr(rest)
            },
            ExprKind::Field { expr, member: _ } => self.visit_expr(expr),
            ExprKind::Block { block } => self.visit_block(block),
            ExprKind::Range { start, end } => {
                self.visit_opt_expr(start)?;
                self.visit_opt_expr(end)
            },
            ExprKind::Path { path: _ } => Ok(()),
            ExprKind::Let { pat, value } => {
                self.visit_pat(pat)?;
                self.visit_expr(value)
            },
            ExprKind::Repeat { value, len } => {
                self.visit_expr(value)?;
                self.visit_expr(len)
            },
            ExprKind::Assign(a) => self.visit_expr_assign(a),
            ExprKind::For { pat, expr, body } => {
                self.visit_pat(pat)?;
                self.visit_expr(expr)?;
                self.visit_block(body)
            },
            ExprKind::Call { path: _, args } => self.visit_exprs(args),
            ExprKind::MethodCall { receiver, args, name: _ } => {
                self.visit_expr(receiver)?;
                self.visit_exprs(args)
            },
        }
    }

    fn visit_expr_assign(&mut self, node: &ExprAssign) -> (r: Result<(), InferenceError>)
        ensures
            final(self).context() == old(self).context(),
            visit_agrees(r, final(self).statement(), spec_visit_expr_assign(old(self).context(), *node, old(self).statement())),
        decreases *node, 0int,
    {
        self.validate_bound_type(node.lhs.id)?;
        self.validate_bound_type(node.rhs.id)?;
        self.visit_expr(&node.lhs)?;
        self.visit_expr(&node.rhs)
    }

    fn visit_exprs(&mut self, v: &Vec<Expr>) -> (r: Result<(), InferenceError>)
        ensures
            final(self).context() == old(self).context(),
            visit_agrees(r, final(self).statement(), spec_visit_exprs(old(self).context(), v@, v@.len() as int, old(self).statement())),
        decreases v@, 0int,
    {
        let ghost sub = self.context();
        let ghost cur = self.statement();
        let mut i: usize = 0;
        while i < v.len()
            invariant
                i <= v@.len(),
                self.context() == sub,
                sub == old(self).context(),
                cur == old(self).statement(),
                spec_visit_exprs(sub, v@, i as int, cur) == Ok::<Option<NodeId>, InferenceError>(self.statement()),
            decreases v@.len() - i,
        {
            let r = self.visit_expr(&v[i]);
            if r.is_err() {
                proof {
                    lemma_visit_exprs_fail_stays(sub, v@, i + 1, v@.len() as int, cur);
                }
                return r;
            }
            i = i + 1;
        }
        Ok(())
    }

    fn visit_field_values(&mut self, v: &Vec<FieldValue>) -> (r: Result<(), InferenceError>)
        ensures
            final(self).context() == old(self).context(),
            visit_agrees(r, final(self).statement(), spec_visit_field_values(old(self).context(), v@, v@.len() as int, old(self).statement())),
        decreases v@, 0int,
    {
        let ghost sub = self.context();
        let ghost cur = self.statement();
        let mut i: usize = 0;
        while i < v.len()
            invariant
                i <= v@.len(),
                self.context() == sub,
                sub == old(self).context(),
                cur == old(self).statement(),
                spec_visit_field_values(sub, v@, i as int, cur) == Ok::<Option<NodeId>, InferenceError>(self.statement()),
            decreases v@.len() - i,
        {
            let r = self.visit_expr(&v[i].value);
            if r.is_err() {
                proof {
                    lemma_visit_field_values_fail_stays(sub, v@, i + 1, v@.len() as int, cur);
                }
                return r;
            }
            i = i + 1;
        }
        Ok(())
    }

    fn visit_arm(&mut self, node: &Arm) -> (r: Result<(), InferenceError>)
        ensures
            final(self).context() == old(self).context(),
            visit_agrees(r, final(self).statement(), spec_visit_arm(old(self).context(), *node, old(self).statement())),
        decreases *node, 0int,
    {
        self.visit_pat(&node.pat)?;
        self.visit_opt_expr(&node.guard)?;
        self.visit_expr(&node.body)
    }

    fn visit_arms(&mut self, v: &Vec<Arm>) -> (r: Result<(), InferenceError>)
        ensures
            final(self).context() == old(self).context(),
            visit_agrees(r, final(self).statement(), spec_visit_arms(old(self).context(), v@, v@.len() as int, old(self).statement())),
        decreases v@, 0int,
    {
        let ghost sub = self.context();
        let ghost cur = self.statement();
        let mut i: usize = 0;
        while i < v.len()
            invariant
                i <= v@.len(),
                self.context() == sub,
                sub == old(self).context(),
                cur == old(self).statement(),
                spec_visit_arms(sub, v@, i as int, cur) == Ok::<Option<NodeId>, InferenceError>(self.statement()),
            decreases v@.len() - i,
        {
            let r = self.visit_arm(&v[i]);
            if r.is_err() {
                proof {
                    lemma_visit_arms_fail_stays(sub, v@, i + 1, v@.len() as int, cur);
                }
                return r;
            }
            i = i + 1;
        }
        Ok(())
    }

    fn visit_local(&mut self, node: &Local) -> (r: Result<(), InferenceError>)
        ensures
            final(self).context() == old(self).context(),
            visit_agrees(r, final(self).statement(), spec_visit_local(old(self).context(), *node, old(self).statement())),
        decreases *node, 0int,
    {
        self.validate_bound_type(node.id)?;
        self.visit_pat(&node.pat)?;
        self.visit_opt_expr(&node.init)
    }

    fn visit_stmt(&mut self, node: &Stmt) -> (r: Result<(), InferenceError>)
        ensures
            final(self).context() == old(self).context(),
            visit_agrees(r, final(self).statement(), spec_visit_stmt(old(self).context(), *node, old(self).statement())),
        decreases *node, 0int,
    {
        self.current_statement = node.id;
        self.validate_bound_type(node.id)?;
        match &node.kind {
            StmtKind::Local(l) => self.visit_local(l),
            StmtKind::Expr(e) => self.visit_expr(e),
            StmtKind::Semi(e) => self.visit_expr(e),
        }
    }

    fn visit_stmts(&mut self, v: &Vec<Stmt>) -> (r: Result<(), InferenceError>)
        ensures
            final(self).context() == old(self).context(),
            visit_agrees(r, final(self).statement(), spec_visit_stmts(old(self).context(), v@, v@.len() as int, old(self).statement())),
        decreases v@, 0int,
    {
        let ghost sub = self.context();
        let ghost cur = self.statement();
        let mut i: usize = 0;
        while i < v.len()
            invariant
                i <= v@.len(),
                self.context() == sub,
                sub == old(self).context(),
                cur == old(self).statement(),
                spec_visit_stmts(sub, v@, i as int, cur) == Ok::<Option<NodeId>, InferenceError>(self.statement()),
            decreases v@.len() - i,
        {
            let r = self.visit_stmt(&v[i]);
            if r.is_err() {
                proof {
                    lemma_visit_stmts_fail_stays(sub, v@, i + 1, v@.len() as int, cur);
                }
                return r;
            }
            i = i + 1;
        }
        Ok(())
    }

    fn visit_block(&mut self, node: &Block) -> (r: Result<(), InferenceError>)
        ensures
            final(self).context() == old(self).context(),
            visit_agrees(r, final(self).statement(), spec_visit_block(old(self).context(), *node, old(self).statement())),
        decreases *node, 0int,
    {
        self.validate_bound_type(node.id)?;
        self.visit_stmts(&node.stmts)
    }
}

/// The type variable of a node, or `None` when the node has no id.
pub fn id_to_var(node_id: Option<NodeId>) -> (r: Option<Ty>)
    ensures
        r == match node_id {
            Some(v) => Some(var_of(v)),
            None => None::<Ty>,
        },
{
    match node_id {
        Some(v) => Some(Ty::Var(v)),
        None => None,
    }
}


proof fn lemma_visit_pats_fail_stays(sub: Seq<Option<Ty>>, s: Seq<Pat>, i: int, j: int, cur: Option<NodeId>)
    requires
        0 <= i <= j <= s.len(),
        spec_visit_pats(sub, s, i, cur) is Some,
    ensures
        spec_visit_pats(sub, s, j, cur) == spec_visit_pats(sub, s, i, cur),
    decreases j - i,
{
    if j > i {
        lemma_visit_pats_fail_stays(sub, s, i, j - 1, cur);
    }
}

proof fn lemma_visit_field_pats_fail_stays(sub: Seq<Option<Ty>>, s: Seq<FieldPat>, i: int, j: int, cur: Option<NodeId>)
    requires
        0 <= i <= j <= s.len(),
        spec_visit_field_pats(sub, s, i, cur) is Some,
    ensures
        spec_visit_field_pats(sub, s, j, cur) == spec_visit_field_pats(sub, s, i, cur),
    decreases j - i,
{
    if j > i {
        lemma_visit_field_pats_fail_stays(sub, s, i, j - 1, cur);
    }
}

proof fn lemma_visit_exprs_fail_stays(sub: Seq<Option<Ty>>, s: Seq<Expr>, i: int, j: int, cur: Option<NodeId>)
    requires
        0 <= i <= j <= s.len(),
        spec_visit_exprs(sub, s, i, cur) is Err,
    ensures
        spec_visit_exprs(sub, s, j, cur) == spec_visit_exprs(sub, s, i, cur),
    decreases j - i,
{
    if j > i {
        lemma_visit_exprs_fail_stays(sub, s, i, j - 1, cur);
    }
}

proof fn lemma_visit_field_values_fail_stays(sub: Seq<Option<Ty>>, s: Seq<FieldValue>, i: int, j: int, cur: Option<NodeId>)
    requires
        0 <= i <= j <= s.len(),
        spec_visit_field_values(sub, s, i, cur) is Err,
    ensures
        spec_visit_field_values(sub, s, j, cur) == spec_visit_field_values(sub, s, i, cur),
    decreases j - i,
{
    if j > i {
        lemma_visit_field_values_fail_stays(sub, s, i, j - 1, cur);
    }
}

proof fn lemma_visit_arms_fail_stays(sub: Seq<Option<Ty>>, s: Seq<Arm>, i: int, j: int, cur: Option<NodeId>)
    requires
        0 <= i <= j <= s.len(),
        spec_visit_arms(sub, s, i, cur) is Err,
    ensures
        spec_visit_arms(sub, s, j, cur) == spec_visit_arms(sub, s, i, cur),
    decreases j - i,
{
    if j > i {
        lemma_visit_arms_fail_stays(sub, s, i, j - 1, cur);
    }
}

proof fn lemma_visit_stmts_fail_stays(sub: Seq<Option<Ty>>, s: Seq<Stmt>, i: int, j: int, cur: Option<NodeId>)
    requires
        0 <= i <= j <= s.len(),
        spec_visit_stmts(sub, s, i, cur) is Err,
    ensures
        spec_visit_stmts(sub, s, j, cur) == spec_visit_stmts(sub, s, i, cur),
    decreases j - i,
{
    if j > i {
        lemma_visit_stmts_fail_stays(sub, s, i, j - 1, cur);
    }
}


// ---------------------------------------------------------------------
// The check passes exactly when every checked node has a bound type
// ---------------------------------------------------------------------

/// Every pattern node has a bound type.
pub open spec fn pat_bound(sub: Seq<Option<Ty>>, p: Pat) -> bool
    decreases p, 0int,
{
    id_bound(sub, p.id) && match p.kind {
        PatKind::Tuple { elems } => pats_bound(sub, elems@, elems@.len() as int),
        PatKind::TupleStruct { path: _, elems } => pats_bound(sub, elems@, elems@.len() as int),
        PatKind::Struct { path: _, fields, rest: _ } => field_pats_bound(sub, fields@, fields@.len() as int),
        PatKind::Type { pat } => pat_bound(sub, *pat),
        _ => true,
    }
}

pub open spec fn pats_bound(sub: Seq<Option<Ty>>, s: Seq<Pat>, n: int) -> bool
    decreases s, n,
{
    if 0 < n <= s.len() {
        pats_bound(sub, s, n - 1) && pat_bound(sub, s[n - 1])
    } else {
        true
    }
}

pub open spec fn field_pats_bound(sub: Seq<Option<Ty>>, s: Seq<FieldPat>, n: int) -> bool
    decreases s, n,
{
    if 0 < n <= s.len() {
        field_pats_bound(sub, s, n - 1) && pat_bound(sub, s[n - 1].pat)
    } else {
        true
    }
}

pub open spec fn opt_expr_bound(sub: Seq<Option<Ty>>, o: Option<Box<Expr>>) -> bool
    decreases o, 0int,
{
    match o {
        Some(b) => expr_bound(sub, *b),
        None => true,
    }
}

/// Inside the expression, every statement, block, `let`, pattern and
/// side of an assignment has a bound type.
pub open spec fn expr_bound(sub: Seq<Option<Ty>>, e: Expr) -> bool
    decreases e, 0int,
{
    match e.kind {
        ExprKind::Binary { op: _, lhs, rhs } => expr_bound(sub, *lhs) && expr_bound(sub, *rhs),
        ExprKind::Unary { op: _, arg } => expr_bound(sub, *arg),
        ExprKind::Match { expr, arms } => expr_bound(sub, *expr) && arms_bound(sub, arms@, arms@.len() as int),
        ExprKind::Ret { expr } => opt_expr_bound(sub, expr),
        ExprKind::If { cond, then_branch, else_branch } => expr_bound(sub, *cond) && block_bound(
            sub,
            then_branch,
        ) && opt_expr_bound(sub, else_branch),
        ExprKind::Index { expr, index } => expr_bound(sub, *expr) && expr_bound(sub, *index),
        ExprKind::Lit => true,
        ExprKind::Paren { expr } => expr_bound(sub, *expr),
        ExprKind::Group { expr } => expr_bound(sub, *expr),
        ExprKind::Tuple { elems } => exprs_bound(sub, elems@, elems@.len() as int),
        ExprKind::Array { elems } => exprs_bound(sub, elems@, elems@.len() as int),
        ExprKind::Struct { path: _, fields, rest } => field_values_bound(sub, fields@, fields@.len() as int)
            && opt_expr_bound(sub, rest),
        ExprKind::Field { expr, member: _ } => expr_bound(sub, *expr),
        ExprKind::Block { block } => block_bound(sub, block),
        ExprKind::Range { start, end } => opt_expr_bound(sub, start) && opt_expr_bound(sub, end),
        ExprKind::Path { path: _ } => true,
        ExprKind::Let { pat, value } => pat_bound(sub, pat) && expr_bound(sub, *value),
        ExprKind::Repeat { value, len } => expr_bound(sub, *value) && expr_bound(sub, *len),
        ExprKind::Assign(a) => assign_bound(sub, a),
        ExprKind::For { pat, expr, body } => pat_bound(sub, pat) && expr_bound(sub, *expr) && block_bound(
            sub,
            body,
        ),
        ExprKind::Call { path: _, args } => exprs_bound(sub, args@, args@.len() as int),
        ExprKind::MethodCall { receiver, args, name: _ } => expr_bound(sub, *receiver) && exprs_bound(
            sub,
            args@,
            args@.len() as int,
        ),
    }
}

pub open spec fn assign_bound(sub: Seq<Option<Ty>>, a: ExprAssign) -> bool
    decreases a, 0int,
{
    id_bound(sub, a.lhs.id) && id_bound(sub, a.rhs.id) && expr_bound(sub, *a.lhs) && expr_bound(sub, *a.rhs)
}

pub open spec fn exprs_bound(sub: Seq<Option<Ty>>, s: Seq<Expr>, n: int) -> bool
    decreases s, n,
{
    if 0 < n <= s.len() {
        exprs_bound(sub, s, n - 1) && expr_bound(sub, s[n - 1])
    } else {
        true
    }
}

pub open spec fn field_values_bound(sub: Seq<Option<Ty>>, s: Seq<FieldValue>, n: int) -> bool
    decreases s, n,
{
    if 0 < n <= s.len() {
        field_values_bound(sub, s, n - 1) && expr_bound(sub, s[n - 1].value)
    } else {
        true
    }
}

pub open spec fn arm_bound(sub: Seq<Option<Ty>>, a: Arm) -> bool
    decreases a, 0int,
{
    pat_bound(sub, a.pat) && opt_expr_bound(sub, a.guard) && expr_bound(sub, *a.body)
}

pub open spec fn arms_bound(sub: Seq<Option<Ty>>, s: Seq<Arm>, n: int) -> bool
    decreases s, n,
{
    if 0 < n <= s.len() {
        arms_bound(sub, s, n - 1) && arm_bound(sub, s[n - 1])
    } else {
        true
    }
}

pub open spec fn local_bound(sub: Seq<Option<Ty>>, l: Local) -> bool
    decreases l, 0int,
{
    id_bound(sub, l.id) && pat_bound(sub, l.pat) && opt_expr_bound(sub, l.init)
}

pub open spec fn stmt_bound(sub: Seq<Option<Ty>>, st: Stmt) -> bool
    decreases st, 0int,
{
    id_bound(sub, st.id) && match st.kind {
        StmtKind::Local(l) => local_bound(sub, l),
        StmtKind::Expr(e) => expr_bound(sub, e),
        StmtKind::Semi(e) => expr_bound(sub, e),
    }
}

pub open spec fn stmts_bound(sub: Seq<Option<Ty>>, s: Seq<Stmt>, n: int) -> bool
    decreases s, n,
{
    if 0 < n <= s.len() {
        stmts_bound(sub, s, n - 1) && stmt_bound(sub, s[n - 1])
    } else {
        true
    }
}

pub open spec fn block_bound(sub: Seq<Option<Ty>>, b: Block) -> bool
    decreases b, 0int,
{
    id_bound(sub, b.id) && stmts_bound(sub, b.stmts@, b.stmts@.len() as int)
}

/// Every checked node of the kernel has a bound type.
pub open spec fn kernel_bound(sub: Seq<Option<Ty>>, k: Kernel) -> bool {
    pats_bound(sub, k.ast.inputs@, k.ast.inputs@.len() as int) && block_bound(sub, k.ast.body)
}

pub proof fn lemma_check_id_passes(sub: Seq<Option<Ty>>, id: Option<NodeId>, cur: Option<NodeId>)
    ensures
        (spec_check_id(sub, id, cur) is None) <==> id_bound(sub, id),
{
}

pub proof fn lemma_visit_pat_passes(sub: Seq<Option<Ty>>, p: Pat, cur: Option<NodeId>)
    ensures
        (spec_visit_pat(sub, p, cur) is None) <==> pat_bound(sub, p),
    decreases p, 0int,
{
    match p.kind {
        PatKind::Tuple { elems } => lemma_visit_pats_pass(sub, elems@, elems@.len() as int, cur),
        PatKind::TupleStruct { path: _, elems } => lemma_visit_pats_pass(sub, elems@, elems@.len() as int, cur),
        PatKind::Struct { path: _, fields, rest: _ } => lemma_visit_field_pats_pass(
            sub,
            fields@,
            fields@.len() as int,
            cur,
        ),
        PatKind::Type { pat } => lemma_visit_pat_passes(sub, *pat, cur),
        _ => {},
    }
}

pub proof fn lemma_visit_pats_pass(sub: Seq<Option<Ty>>, s: Seq<Pat>, n: int, cur: Option<NodeId>)
    ensures
        (spec_visit_pats(sub, s, n, cur) is None) <==> pats_bound(sub, s, n),
    decreases s, n,
{
    if 0 < n <= s.len() {
        lemma_visit_pats_pass(sub, s, n - 1, cur);
        lemma_visit_pat_passes(sub, s[n - 1], cur);
    }
}

pub proof fn lemma_visit_field_pats_pass(sub: Seq<Option<Ty>>, s: Seq<FieldPat>, n: int, cur: Option<NodeId>)
    ensures
        (spec_visit_field_pats(sub, s, n, cur) is None) <==> field_pats_bound(sub, s, n),
    decreases s, n,
{
    if 0 < n <= s.len() {
        lemma_visit_field_pats_pass(sub, s, n - 1, cur);
        lemma_visit_pat_passes(sub, s[n - 1].pat, cur);
    }
}

pub proof fn lemma_visit_opt_expr_passes(sub: Seq<Option<Ty>>, o: Option<Box<Expr>>, cur: Option<NodeId>)
    ensures
        (spec_visit_opt_expr(sub, o, cur) is Ok) <==> opt_expr_bound(sub, o),
    decreases o, 0int,
{
    match o {
        Some(b) => lemma_visit_expr_passes(sub, *b, cur),
        None => {},
    }
}

/// The visit of an expression passes exactly when every node it checks
/// has a bound type, whatever statement it starts in.
#[verifier::rlimit(60)]
pub proof fn lemma_visit_expr_passes(sub: Seq<Option<Ty>>, e: Expr, cur: Option<NodeId>)
    ensures
        (spec_visit_expr(sub, e, cur) is Ok) <==> expr_bound(sub, e),
    decreases e, 0int,
{
    match e.kind {
        ExprKind::Binary { op: _, lhs, rhs } => {
            lemma_visit_expr_passes(sub, *lhs, cur);
            if let Ok(c) = spec_visit_expr(sub, *lhs, cur) {
                lemma_visit_expr_passes(sub, *rhs, c);
            }
        },
        ExprKind::Unary { op: _, arg } => lemma_visit_expr_passes(sub, *arg, cur),
        ExprKind::Match { expr, arms } => {
            lemma_visit_expr_passes(sub, *expr, cur);
            if let Ok(c) = spec_visit_expr(sub, *expr, cur) {
                lemma_visit_arms_pass(sub, arms@, arms@.len() as int, c);
            }
        },
        ExprKind::Ret { expr } => lemma_visit_opt_expr_passes(sub, expr, cur),
        ExprKind::If { cond, then_branch, else_branch } => {
            lemma_visit_expr_passes(sub, *cond, cur);
            if let Ok(c) = spec_visit_expr(sub, *cond, cur) {
                lemma_visit_block_passes(sub, then_branch, c);
                if let Ok(c2) = spec_visit_block(sub, then_branch, c) {
                    lemma_visit_opt_expr_passes(sub, else_branch, c2);
                }
            }
        },
        ExprKind::Index { expr, index } => {
            lemma_visit_expr_passes(sub, *expr, cur);
            if let Ok(c) = spec_visit_expr(sub, *expr, cur) {
                lemma_visit_expr_passes(sub, *index, c);
            }
        },
        ExprKind::Paren { expr } => lemma_visit_expr_passes(sub, *expr, cur),
        ExprKind::Group { expr } => lemma_visit_expr_passes(sub, *expr, cur),
        ExprKind::Tuple { elems } => lemma_visit_exprs_pass(sub, elems@, elems@.len() as int, cur),
        ExprKind::Array { elems } => lemma_visit_exprs_pass(sub, elems@, elems@.len() as int, cur),
        ExprKind::Struct { path: _, fields, rest } => {
            lemma_visit_field_values_pass(sub, fields@, fields@.len() as int, cur);
            if let Ok(c) = spec_visit_field_values(sub, fields@, fields@.len() as int, cur) {
                lemma_visit_opt_expr_passes(sub, rest, c);
            }
        },
        ExprKind::Field { expr, member: _ } => lemma_visit_expr_passes(sub, *expr, cur),
        ExprKind::Block { block } => lemma_visit_block_passes(sub, block, cur),
        ExprKind::Range { start, end } => {
            lemma_visit_opt_expr_passes(sub, start, cur);
            if let Ok(c) = spec_visit_opt_expr(sub, start, cur) {
                lemma_visit_opt_expr_passes(sub, end, c);
            }
        },
        ExprKind::Let { pat, value } => {
            lemma_visit_pat_passes(sub, pat, cur);
            lemma_visit_expr_passes(sub, *value, cur);
        },
        ExprKind::Repeat { value, len } => {
            lemma_visit_expr_passes(sub, *value, cur);
            if let Ok(c) = spec_visit_expr(sub, *value, cur) {
                lemma_visit_expr_passes(sub, *len, c);
            }
        },
        ExprKind::Assign(a) => lemma_visit_expr_assign_passes(sub, a, cur),
        ExprKind::For { pat, expr, body } => {
            lemma_visit_pat_passes(sub, pat, cur);
            lemma_visit_expr_passes(sub, *expr, cur);
            if let Ok(c) = spec_visit_expr(sub, *expr, cur) {
                lemma_visit_block_passes(sub, body, c);
            }
        },
        ExprKind::Call { path: _, args } => lemma_visit_exprs_pass(sub, args@, args@.len() as int, cur),
        ExprKind::MethodCall { receiver, args, name: _ } => {
            lemma_visit_expr_passes(sub, *receiver, cur);
            if let Ok(c) = spec_visit_expr(sub, *receiver, cur) {
                lemma_visit_exprs_pass(sub, args@, args@.len() as int, c);
            }
        },
        _ => {},
    }
}

pub proof fn lemma_visit_expr_assign_passes(sub: Seq<Option<Ty>>, a: ExprAssign, cur: Option<NodeId>)
    ensures
        (spec_visit_expr_assign(sub, a, cur) is Ok) <==> assign_bound(sub, a),
    decreases a, 0int,
{
    lemma_visit_expr_passes(sub, *a.lhs, cur);
    if let Ok(c) = spec_visit_expr(sub, *a.lhs, cur) {
        lemma_visit_expr_passes(sub, *a.rhs, c);
    }
}

pub proof fn lemma_visit_exprs_pass(sub: Seq<Option<Ty>>, s: Seq<Expr>, n: int, cur: Option<NodeId>)
    ensures
        (spec_visit_exprs(sub, s, n, cur) is Ok) <==> exprs_bound(sub, s, n),
    decreases s, n,
{
    if 0 < n <= s.len() {
        lemma_visit_exprs_pass(sub, s, n - 1, cur);
        if let Ok(c) = spec_visit_exprs(sub, s, n - 1, cur) {
            lemma_visit_expr_passes(sub, s[n - 1], c);
        }
    }
}

pub proof fn lemma_visit_field_values_pass(sub: Seq<Option<Ty>>, s: Seq<FieldValue>, n: int, cur: Option<NodeId>)
    ensures
        (spec_visit_field_values(sub, s, n, cur) is Ok) <==> field_values_bound(sub, s, n),
    decreases s, n,
{
    if 0 < n <= s.len() {
        lemma_visit_field_values_pass(sub, s, n - 1, cur);
        if let Ok(c) = spec_visit_field_values(sub, s, n - 1, cur) {
            lemma_visit_expr_passes(sub, s[n - 1].value, c);
        }
    }
}

pub proof fn lemma_visit_arm_passes(sub: Seq<Option<Ty>>, a: Arm, cur: Option<NodeId>)
    ensures
        (spec_visit_arm(sub, a, cur) is Ok) <==> arm_bound(sub, a),
    decreases a, 0int,
{
    lemma_visit_pat_passes(sub, a.pat, cur);
    lemma_visit_opt_expr_passes(sub, a.guard, cur);
    if let Ok(c) = spec_visit_opt_expr(sub, a.guard, cur) {
        lemma_visit_expr_passes(sub, *a.body, c);
    }
}

pub proof fn lemma_visit_arms_pass(sub: Seq<Option<Ty>>, s: Seq<Arm>, n: int, cur: Option<NodeId>)
    ensures
        (spec_visit_arms(sub, s, n, cur) is Ok) <==> arms_bound(sub, s, n),
    decreases s, n,
{
    if 0 < n <= s.len() {
        lemma_visit_arms_pass(sub, s, n - 1, cur);
        if let Ok(c) = spec_visit_arms(sub, s, n - 1, cur) {
            lemma_visit_arm_passes(sub, s[n - 1], c);
        }
    }
}

pub proof fn lemma_visit_local_passes(sub: Seq<Option<Ty>>, l: Local, cur: Option<NodeId>)
    ensures
        (spec_visit_local(sub, l, cur) is Ok) <==> local_bound(sub, l),
    decreases l, 0int,
{
    lemma_visit_pat_passes(sub, l.pat, cur);
    lemma_visit_opt_expr_passes(sub, l.init, cur);
}

pub proof fn lemma_visit_stmt_passes(sub: Seq<Option<Ty>>, st: Stmt, cur: Option<NodeId>)
    ensures
        (spec_visit_stmt(sub, st, cur) is Ok) <==> stmt_bound(sub, st),
    decreases st, 0int,
{
    match st.kind {
        StmtKind::Local(l) => lemma_visit_local_passes(sub, l, st.id),
        StmtKind::Expr(e) => lemma_visit_expr_passes(sub, e, st.id),
        StmtKind::Semi(e) => lemma_visit_expr_passes(sub, e, st.id),
    }
}

pub proof fn lemma_visit_stmts_pass(sub: Seq<Option<Ty>>, s: Seq<Stmt>, n: int, cur: Option<NodeId>)
    ensures
        (spec_visit_stmts(sub, s, n, cur) is Ok) <==> stmts_bound(sub, s, n),
    decreases s, n,
{
    if 0 < n <= s.len() {
        lemma_visit_stmts_pass(sub, s, n - 1, cur);
        if let Ok(c) = spec_visit_stmts(sub, s, n - 1, cur) {
            lemma_visit_stmt_passes(sub, s[n - 1], c);
        }
    }
}

pub proof fn lemma_visit_block_passes(sub: Seq<Option<Ty>>, b: Block, cur: Option<NodeId>)
    ensures
        (spec_visit_block(sub, b, cur) is Ok) <==> block_bound(sub, b),
    decreases b, 0int,
{
    lemma_visit_stmts_pass(sub, b.stmts@, b.stmts@.len() as int, cur);
}

/// The check of a kernel passes exactly when inference gave every
/// statement, block, `let`, pattern and assignment side of it a type
/// that is not a type variable.
pub proof fn lemma_check_inference_passes_iff_all_bound(k: Kernel, sub: Seq<Option<Ty>>)
    ensures
        (spec_check_inference(k, sub) is Ok) <==> kernel_bound(sub, k),
{
    lemma_visit_pats_pass(sub, k.ast.inputs@, k.ast.inputs@.len() as int, None);
    lemma_visit_block_passes(sub, k.ast.body, None);
}

} // verus!
