use vstd::prelude::*;

use crate::ast::{Ast, Handle};
use crate::context::Context;

verus! {

/// A term that the caller knows to be a value of the real algebraic number package.
#[derive(Clone, Copy, Debug)]
pub struct Algebraic {
    h: Handle,
}

impl Algebraic {
    #[verifier::type_invariant]
    spec fn inv(&self) -> bool {
        self.h.raw != 0
    }
}

impl Ast for Algebraic {
    closed spec fn node(&self) -> Handle {
        self.h
    }

    fn get_ctx(&self) -> (r: Context) {
        self.h.ctx
    }

    fn get_z3_ast(&self) -> (r: u64) {
        proof {
            use_type_invariant(self);
        }
        self.h.raw
    }

    fn wrap(ctx: &Context, raw: u64) -> (r: Self) {
        Algebraic { h: Handle { ctx: *ctx, raw } }
    }
}

/// An operation of the algebraic number package.
#[derive(Clone, Copy, PartialEq, Eq, Structural, Debug)]
pub enum AlgebraicOp {
    Add,
    Sub,
    Mul,
    Div,
    /// The `k`-th root, `k > 0`.
    Root(u32),
    /// The `k`-th power, `k > 0`.
    Power(u32),
    Lt,
    Gt,
    Eq,
}

/// A request to the engine's algebraic number package, with operands that share `ctx`.
///
/// A binary operation has `rhs == Some(..)`; a root or power has `rhs == None`.
/// Arithmetic yields a real-sorted term of `ctx`; a comparison yields a `bool`.
#[derive(Clone, Copy, PartialEq, Eq, Structural, Debug)]
pub struct AlgebraicCall {
    pub ctx: Context,
    pub op: AlgebraicOp,
    pub lhs: u64,
    pub rhs: Option<u64>,
}

/// The request for `op` on `a` and `b`.
pub open spec fn binary_call(op: AlgebraicOp, a: Handle, b: Handle) -> AlgebraicCall {
    AlgebraicCall { ctx: a.ctx, op, lhs: a.raw, rhs: Some(b.raw) }
}

/// Builds the request for a binary operation, once both operands are known to share
/// one environment.
fn binary<A: Ast, B: Ast>(op: AlgebraicOp, a: &A, b: &B) -> (r: AlgebraicCall)
    requires
        a.node().ctx == b.node().ctx,
    ensures
        r == binary_call(op, a.node(), b.node()),
        r.lhs != 0,
        r.rhs.unwrap() != 0,
{
    let ctx = a.get_ctx();
    let lhs = a.get_z3_ast();
    let rhs = b.get_z3_ast();
    AlgebraicCall { ctx, op, lhs, rhs: Some(rhs) }
}

impl Algebraic {
    /// The request for `a + b`; both must belong to one environment.
    pub fn add<A: Ast, B: Ast>(a: &A, b: &B) -> (r: AlgebraicCall)
        requires
            a.node().ctx == b.node().ctx,
        ensures
            r == binary_call(AlgebraicOp::Add, a.node(), b.node()),
    {
        binary(AlgebraicOp::Add, a, b)
    }

    /// The request for `a - b`; both must belong to one environment.
    pub fn sub<A: Ast, B: Ast>(a: &A, b: &B) -> (r: AlgebraicCall)
        requires
            a.node().ctx == b.node().ctx,
        ensures
            r == binary_call(AlgebraicOp::Sub, a.node(), b.node()),
    {
        binary(AlgebraicOp::Sub, a, b)
    }

    /// The request for `a * b`; both must belong to one environment.
    pub fn mul<A: Ast, B: Ast>(a: &A, b: &B) -> (r: AlgebraicCall)
        requires
            a.node().ctx == b.node().ctx,
        ensures
            r == binary_call(AlgebraicOp::Mul, a.node(), b.node()),
    {
        binary(AlgebraicOp::Mul, a, b)
    }

    /// The request for `a / b`; both must belong to one environment.
    pub fn div<A: Ast, B: Ast>(a: &A, b: &B) -> (r: AlgebraicCall)
        requires
            a.node().ctx == b.node().ctx,
        ensures
            r == binary_call(AlgebraicOp::Div, a.node(), b.node()),
    {
        binary(AlgebraicOp::Div, a, b)
    }

    /// The request for `a < b`; both must belong to one environment.
    pub fn lt<A: Ast, B: Ast>(a: &A, b: &B) -> (r: AlgebraicCall)
        requires
            a.node().ctx == b.node().ctx,
        ensures
            r == binary_call(AlgebraicOp::Lt, a.node(), b.node()),
    {
        binary(AlgebraicOp::Lt, a, b)
    }

    /// The request for `a > b`; both must belong to one environment.
    pub fn gt<A: Ast, B: Ast>(a: &A, b: &B) -> (r: AlgebraicCall)
        requires
            a.node().ctx == b.node().ctx,
        ensures
            r == binary_call(AlgebraicOp::Gt, a.node(), b.node()),
    {
        binary(AlgebraicOp::Gt, a, b)
    }

    /// The request for `a == b` as numbers; both must belong to one environment.
    pub fn eq_algebraic<A: Ast, B: Ast>(a: &A, b: &B) -> (r: AlgebraicCall)
        requires
            a.node().ctx == b.node().ctx,
        ensures
            r == binary_call(AlgebraicOp::Eq, a.node(), b.node()),
    {
        binary(AlgebraicOp::Eq, a, b)
    }

    /// The request for the `k`-th root of this number; `k` must be positive.
    pub fn root(&self, k: u32) -> (r: AlgebraicCall)
        requires
            k > 0,
        ensures
            r == (AlgebraicCall {
                ctx: self.node().ctx,
                op: AlgebraicOp::Root(k),
                lhs: self.node().raw,
                rhs: None,
            }),
    {
        AlgebraicCall { ctx: self.get_ctx(), op: AlgebraicOp::Root(k), lhs: self.get_z3_ast(), rhs: None }
    }

    /// The request for the `k`-th power of this number; `k` must be positive.
    pub fn power(&self, k: u32) -> (r: AlgebraicCall)
        requires
            k > 0,
        ensures
            r == (AlgebraicCall {
                ctx: self.node().ctx,
                op: AlgebraicOp::Power(k),
                lhs: self.node().raw,
                rhs: None,
            }),
    {
        AlgebraicCall { ctx: self.get_ctx(), op: AlgebraicOp::Power(k), lhs: self.get_z3_ast(), rhs: None }
    }
}

} // verus!
