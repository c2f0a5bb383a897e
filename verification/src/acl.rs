//! The ACL engine: a pluggable authorization predicate over an arbitrary
//! context, composable as System (always allow), Forbidden (always deny), or
//! any user-supplied implementation.

use vstd::prelude::*;

verus! {

/// The error of a denied authorization check.
#[derive(Clone, Copy, Debug, PartialEq, Eq, Structural)]
pub struct UnauthorizedError;

/// Access control for repositories: decides whether the caller may perform
/// an operation on a context (a payload, or a row paired with an action).
///
/// The decision is pure: `allows` never changes the context and hands it
/// back, so a caller holding the context together with a connection keeps
/// both whatever the verdict.
pub trait AclEngine<Context> {
    /// The engine's decision, as a predicate over contexts.
    spec fn allows_spec(&self, ctx: &Context) -> bool;

    /// Decides `ctx` and returns it for reuse.
    fn allows(&self, ctx: Context) -> (r: (bool, Context))
        ensures
            r.0 == self.allows_spec(&ctx),
            r.1 == ctx,
    ;

    /// Turns a denial into `UnauthorizedError`. The context comes back on
    /// both outcomes.
    fn ensure_access(&self, ctx: Context) -> (r: Result<Context, (UnauthorizedError, Context)>)
        ensures
            self.allows_spec(&ctx) ==> (r matches Ok(c) && c == ctx),
            !self.allows_spec(&ctx) ==> (r matches Err(p) && p.0 == UnauthorizedError && p.1
                == ctx),
    {
        let (allowed, ctx) = self.allows(ctx);
        if allowed {
            Ok(ctx)
        } else {
            Err((UnauthorizedError, ctx))
        }
    }
}

/// Allows every operation on every context.
#[derive(Clone, Copy, Debug, Default, PartialEq, Eq, Structural)]
pub struct SystemACL;

impl<Context> AclEngine<Context> for SystemACL {
    open spec fn allows_spec(&self, ctx: &Context) -> bool {
        true
    }

    fn allows(&self, ctx: Context) -> (r: (bool, Context)) {
        (true, ctx)
    }
}

/// Denies every operation on every context.
#[derive(Clone, Copy, Debug, Default, PartialEq, Eq, Structural)]
pub struct ForbiddenACL;

impl<Context> AclEngine<Context> for ForbiddenACL {
    open spec fn allows_spec(&self, ctx: &Context) -> bool {
        false
    }

    fn allows(&self, ctx: Context) -> (r: (bool, Context)) {
        (false, ctx)
    }
}

/// `SystemACL` never rejects a context and `ForbiddenACL` always does.
pub proof fn lemma_acl_composition<Context>(ctx: Context)
    ensures
        (SystemACL).allows_spec(&ctx),
        !(ForbiddenACL).allows_spec(&ctx),
{
}

} // verus!
