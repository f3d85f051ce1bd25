//! Types as inference sees them, and the substitution that inference
//! builds for type variables.
use vstd::prelude::*;

verus! {

/// A type: a type variable, or a known type.
#[derive(Clone, Copy, PartialEq, Eq, Structural, Debug)]
pub enum Ty {
    Var(usize),
    Bool,
    Integer,
    Empty,
    Bits(usize),
    Signed(usize),
}

/// The substitution of type variables found by inference: variable `v`
/// stands for `substitution[v]` when that is present, and is unbound
/// otherwise.  No variable is bound to a variable that is itself bound,
/// so one lookup resolves a variable.
#[derive(Debug)]
pub struct UnifyContext {
    substitution: Vec<Option<Ty>>,
}

/// Whether variable `v` is bound in `sub`.
pub open spec fn bound(sub: Seq<Option<Ty>>, v: usize) -> bool {
    v < sub.len() && sub[v as int] is Some
}

/// No binding refers to a bound variable.
pub open spec fn resolved(sub: Seq<Option<Ty>>) -> bool {
    forall|v: int|
        0 <= v < sub.len() ==> match #[trigger] sub[v] {
            Some(Ty::Var(w)) => !bound(sub, w),
            _ => true,
        }
}

/// `ty` with a bound variable replaced by its binding.
pub open spec fn spec_apply(sub: Seq<Option<Ty>>, ty: Ty) -> Ty {
    match ty {
        Ty::Var(v) => if bound(sub, v) {
            sub[v as int]->Some_0
        } else {
            ty
        },
        _ => ty,
    }
}

impl UnifyContext {
    /// The bindings, by variable.
    pub closed spec fn bindings(&self) -> Seq<Option<Ty>> {
        self.substitution@
    }

    /// Well-formed: the bindings are resolved.
    pub open spec fn wf(&self) -> bool {
        resolved(self.bindings())
    }

    /// A context with the given bindings, or `None` when some variable is
    /// bound to a variable that is itself bound.
    pub fn new(substitution: Vec<Option<Ty>>) -> (r: Option<UnifyContext>)
        ensures
            match r {
                Some(ctx) => ctx.bindings() == substitution@ && ctx.wf(),
                None => !resolved(substitution@),
            },
    {
        let n = substitution.len();
        let mut i: usize = 0;
        while i < n
            invariant
                n == substitution@.len(),
                i <= n,
                forall|v: int|
                    0 <= v < i ==> match #[trigger] substitution@[v] {
                        Some(Ty::Var(w)) => !bound(substitution@, w),
                        _ => true,
                    },
            decreases n - i,
        {
            match substitution[i] {
                Some(Ty::Var(w)) => {
                    if w < n && substitution[w].is_some() {
                        return None;
                    }
                },
                _ => {},
            }
            i = i + 1;
        }
        Some(UnifyContext { substitution })
    }

    /// `ty` with a bound variable replaced by its binding.
    pub fn apply(&self, ty: Ty) -> (r: Ty)
        ensures
            r == spec_apply(self.bindings(), ty),
    {
        match ty {
            Ty::Var(v) => {
                if v < self.substitution.len() {
                    match self.substitution[v] {
                        Some(t) => t,
                        None => ty,
                    }
                } else {
                    ty
                }
            },
            _ => ty,
        }
    }
}

/// Applying the substitution a second time changes nothing.
pub proof fn lemma_apply_idempotent(ctx: UnifyContext, ty: Ty)
    requires
        ctx.wf(),
    ensures
        spec_apply(ctx.bindings(), spec_apply(ctx.bindings(), ty)) == spec_apply(ctx.bindings(), ty),
{
    let sub = ctx.bindings();
    match ty {
        Ty::Var(v) => {
            if bound(sub, v) {
                assert(match sub[v as int] {
                    Some(Ty::Var(w)) => !bound(sub, w),
                    _ => true,
                });
            }
        },
        _ => {},
    }
}

} // verus!
