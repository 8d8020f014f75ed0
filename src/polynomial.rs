use vstd::prelude::*;

use crate::ast::Ast;
use crate::context::Context;

verus! {

/// Polynomial operations on arithmetic terms.
#[derive(Debug)]
pub struct Polynomial;

/// A request for the nonzero subresultants of `p` and `q` in the variable `x`, all of
/// `ctx`. The engine answers with a vector of terms of `ctx`, the first one first.
#[derive(Clone, Copy, PartialEq, Eq, Structural, Debug)]
pub struct SubresultantsCall {
    pub ctx: Context,
    pub p: u64,
    pub q: u64,
    pub x: u64,
}

impl Polynomial {
    /// The request for the nonzero subresultants of `p` and `q` with respect to `x`.
    ///
    /// A subterm that is not polynomial in shape counts as a variable of its own.
    /// The three terms must belong to one environment.
    pub fn subresultants<P: Ast, Q: Ast, X: Ast>(p: &P, q: &Q, x: &X) -> (r: SubresultantsCall)
        requires
            p.node().ctx == q.node().ctx,
            p.node().ctx == x.node().ctx,
        ensures
            r == (SubresultantsCall {
                ctx: p.node().ctx,
                p: p.node().raw,
                q: q.node().raw,
                x: x.node().raw,
            }),
            r.p != 0 && r.q != 0 && r.x != 0,
    {
        SubresultantsCall {
            ctx: p.get_ctx(),
            p: p.get_z3_ast(),
            q: q.get_z3_ast(),
            x: x.get_z3_ast(),
        }
    }
}

} // verus!
