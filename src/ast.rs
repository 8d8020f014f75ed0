use vstd::prelude::*;

use crate::context::Context;

verus! {

/// A native handle together with the environment that produced it.
///
/// `raw` is the engine's address for the handle; `0` stands for the null handle.
#[derive(Clone, Copy, PartialEq, Eq, Structural, Debug)]
pub struct Handle {
    pub ctx: Context,
    pub raw: u64,
}

/// The capability shared by every kind of term node.
///
/// A node is a non-null native term handle bound to its owning environment.
pub trait Ast: Sized {
    /// The handle this node wraps.
    spec fn node(&self) -> Handle;

    /// The environment that owns this node.
    fn get_ctx(&self) -> (r: Context)
        ensures
            r == self.node().ctx,
    ;

    /// The native handle, for handing to the engine.
    fn get_z3_ast(&self) -> (r: u64)
        ensures
            r == self.node().raw,
            r != 0,
    ;

    /// Adopts a handle that the engine produced in `ctx`.
    ///
    /// The caller attests that the handle belongs to `ctx` and has the sort this
    /// kind expects; only non-nullness can be stated here.
    fn wrap(ctx: &Context, raw: u64) -> (r: Self)
        requires
            raw != 0,
        ensures
            r.node() == (Handle { ctx: *ctx, raw }),
    ;
}

/// A request for the boolean term `lhs = rhs`, or `lhs != rhs` where `negated`, over two
/// terms of `ctx`. The term states structural equality as a formula; it is not a
/// comparison of the handles.
#[derive(Clone, Copy, PartialEq, Eq, Structural, Debug)]
pub struct EqualityCall {
    pub ctx: Context,
    pub lhs: u64,
    pub rhs: u64,
    pub negated: bool,
}

/// The request for the formula `a = b`; both must belong to one environment.
pub fn eq<A: Ast, B: Ast>(a: &A, b: &B) -> (r: EqualityCall)
    requires
        a.node().ctx == b.node().ctx,
    ensures
        r == (EqualityCall { ctx: a.node().ctx, lhs: a.node().raw, rhs: b.node().raw, negated: false }),
{
    EqualityCall { ctx: a.get_ctx(), lhs: a.get_z3_ast(), rhs: b.get_z3_ast(), negated: false }
}

/// The request for the formula `a != b`; both must belong to one environment.
pub fn ne<A: Ast, B: Ast>(a: &A, b: &B) -> (r: EqualityCall)
    requires
        a.node().ctx == b.node().ctx,
    ensures
        r == (EqualityCall { ctx: a.node().ctx, lhs: a.node().raw, rhs: b.node().raw, negated: true }),
{
    EqualityCall { negated: true, ..eq(a, b) }
}

/// A term of any sort.
#[derive(Clone, Copy, Debug)]
pub struct Dynamic {
    h: Handle,
}

/// A boolean-sorted term.
#[derive(Clone, Copy, Debug)]
pub struct Bool {
    h: Handle,
}

/// A real-sorted term.
#[derive(Clone, Copy, Debug)]
pub struct Real {
    h: Handle,
}

/// A model (an assignment of values to constants) produced by the engine.
#[derive(Clone, Copy, Debug)]
pub struct Model {
    h: Handle,
}

impl Dynamic {
    #[verifier::type_invariant]
    spec fn inv(&self) -> bool {
        self.h.raw != 0
    }
}

impl Bool {
    #[verifier::type_invariant]
    spec fn inv(&self) -> bool {
        self.h.raw != 0
    }
}

impl Real {
    #[verifier::type_invariant]
    spec fn inv(&self) -> bool {
        self.h.raw != 0
    }
}

impl Model {
    #[verifier::type_invariant]
    spec fn inv(&self) -> bool {
        self.h.raw != 0
    }

    /// The handle this model wraps.
    pub closed spec fn node(&self) -> Handle {
        self.h
    }

    /// Adopts a model handle that the engine produced in `ctx`.
    pub fn wrap(ctx: &Context, raw: u64) -> (r: Model)
        requires
            raw != 0,
        ensures
            r.node() == (Handle { ctx: *ctx, raw }),
    {
        Model { h: Handle { ctx: *ctx, raw } }
    }

    /// The environment that owns this model.
    pub fn get_ctx(&self) -> (r: Context)
        ensures
            r == self.node().ctx,
    {
        self.h.ctx
    }

    /// The native handle of this model.
    pub fn get_z3_model(&self) -> (r: u64)
        ensures
            r == self.node().raw,
            r != 0,
    {
        proof {
            use_type_invariant(self);
        }
        self.h.raw
    }
}

impl Ast for Dynamic {
    closed spec fn node(&self) -> Handle {
        self.h
    }

    fn get_ctx(&self) -> (r: Context) {
        self.h.ctx
    }

    fn get_z3_ast(&self) -> (r: u64) {
        proof {
            use_type_invariant(self);
        }
        self.h.raw
    }

    fn wrap(ctx: &Context, raw: u64) -> (r: Self) {
        Dynamic { h: Handle { ctx: *ctx, raw } }
    }
}

impl Ast for Bool {
    closed spec fn node(&self) -> Handle {
        self.h
    }

    fn get_ctx(&self) -> (r: Context) {
        self.h.ctx
    }

    fn get_z3_ast(&self) -> (r: u64) {
        proof {
            use_type_invariant(self);
        }
        self.h.raw
    }

    fn wrap(ctx: &Context, raw: u64) -> (r: Self) {
        Bool { h: Handle { ctx: *ctx, raw } }
    }
}

impl Ast for Real {
    closed spec fn node(&self) -> Handle {
        self.h
    }

    fn get_ctx(&self) -> (r: Context) {
        self.h.ctx
    }

    fn get_z3_ast(&self) -> (r: u64) {
        proof {
            use_type_invariant(self);
        }
        self.h.raw
    }

    fn wrap(ctx: &Context, raw: u64) -> (r: Self) {
        Real { h: Handle { ctx: *ctx, raw } }
    }
}

impl Dynamic {
    /// Views any node as a term of unknown sort, keeping its handle.
    pub fn from_ast<T: Ast>(a: &T) -> (r: Dynamic)
        ensures
            r.node() == a.node(),
    {
        let raw = a.get_z3_ast();
        Dynamic::wrap(&a.get_ctx(), raw)
    }
}

} // verus!
