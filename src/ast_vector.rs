use vstd::prelude::*;

use crate::ast::{Ast, Dynamic, Handle};
use crate::context::Context;

verus! {

/// The largest number of slots a vector may hold: the engine counts them in a `u32`.
pub const MAX_LEN: usize = 0xffff_ffff;

/// An ordered vector of term handles owned by one environment.
///
/// Slot `i` holds the raw handle of a term of that environment, or `0` for a slot that
/// `resize` created and that was not set since; such a slot must not be read.
pub struct AstVector {
    ctx: Context,
    raws: Vec<u64>,
}

impl View for AstVector {
    type V = Seq<u64>;

    closed spec fn view(&self) -> Seq<u64> {
        self.raws@
    }
}

impl AstVector {
    /// The environment that owns the vector and every term in it.
    pub closed spec fn ctx_spec(&self) -> Context {
        self.ctx
    }

    /// Whether every slot holds a term.
    pub open spec fn all_set(&self) -> bool {
        forall|i: int| 0 <= i < self@.len() ==> #[trigger] self@[i] != 0
    }

    /// Creates an empty vector in `ctx`.
    pub fn new(ctx: &Context) -> (r: AstVector)
        ensures
            r.ctx_spec() == *ctx,
            r@ == Seq::<u64>::empty(),
    {
        AstVector { ctx: *ctx, raws: Vec::new() }
    }

    /// Adopts the contents of a vector that the engine produced in `ctx`.
    pub fn wrap(ctx: &Context, raws: Vec<u64>) -> (r: AstVector)
        requires
            raws.len() <= MAX_LEN,
        ensures
            r.ctx_spec() == *ctx,
            r@ == raws@,
    {
        AstVector { ctx: *ctx, raws }
    }

    /// The environment that owns the vector.
    pub fn get_ctx(&self) -> (r: Context)
        ensures
            r == self.ctx_spec(),
    {
        self.ctx
    }

    /// The number of slots.
    pub fn len(&self) -> (r: usize)
        ensures
            r == self@.len(),
    {
        self.raws.len()
    }

    /// Whether the vector has no slots.
    pub fn is_empty(&self) -> (r: bool)
        ensures
            r == (self@.len() == 0),
    {
        self.len() == 0
    }

    /// The raw handles of the slots, for handing to the engine.
    pub fn raw_handles(&self) -> (r: &Vec<u64>)
        ensures
            r@ == self@,
    {
        &self.raws
    }

    /// The term at `index`.
    pub fn get(&self, index: usize) -> (r: Dynamic)
        requires
            index < self@.len(),
            self@[index as int] != 0,
        ensures
            r.node() == (Handle { ctx: self.ctx_spec(), raw: self@[index as int] }),
    {
        Dynamic::wrap(&self.ctx, self.raws[index])
    }

    /// Replaces the term at `index` by `ast`, which must belong to the vector's environment.
    pub fn set<T: Ast>(&mut self, index: usize, ast: &T)
        requires
            index < old(self)@.len(),
            ast.node().ctx == old(self).ctx_spec(),
        ensures
            final(self).ctx_spec() == old(self).ctx_spec(),
            final(self)@ == old(self)@.update(index as int, ast.node().raw),
    {
        let raw = ast.get_z3_ast();
        self.raws.set(index, raw);
    }

    /// Appends `ast`, which must belong to the vector's environment.
    pub fn push<T: Ast>(&mut self, ast: &T)
        requires
            old(self)@.len() < MAX_LEN,
            ast.node().ctx == old(self).ctx_spec(),
        ensures
            final(self).ctx_spec() == old(self).ctx_spec(),
            final(self)@ == old(self)@.push(ast.node().raw),
            ast.node().raw != 0,
    {
        let raw = ast.get_z3_ast();
        self.raws.push(raw);
    }

    /// Truncates to `new_size` slots, or extends with unset slots up to it.
    pub fn resize(&mut self, new_size: usize)
        requires
            new_size <= MAX_LEN,
        ensures
            final(self).ctx_spec() == old(self).ctx_spec(),
            final(self)@.len() == new_size,
            forall|i: int|
                0 <= i < new_size && i < old(self)@.len() ==> #[trigger] final(self)@[i]
                    == old(self)@[i],
            forall|i: int| old(self)@.len() <= i < new_size ==> #[trigger] final(self)@[i] == 0,
    {
        if new_size <= self.raws.len() {
            self.raws.truncate(new_size);
        } else {
            while self.raws.len() < new_size
                invariant
                    self.ctx == old(self).ctx,
                    old(self)@.len() <= self.raws.len() <= new_size,
                    forall|i: int| 0 <= i < old(self)@.len() ==> #[trigger] self.raws@[i] == old(self)@[i],
                    forall|i: int| old(self)@.len() <= i < self.raws.len() ==> #[trigger] self.raws@[i] == 0,
                decreases new_size - self.raws.len(),
            {
                self.raws.push(0);
            }
        }
    }

    /// Every term in order; every slot must be set.
    pub fn to_vec(&self) -> (r: Vec<Dynamic>)
        requires
            self.all_set(),
        ensures
            r.len() == self@.len(),
            forall|i: int|
                0 <= i < r.len() ==> #[trigger] r[i].node() == (Handle {
                    ctx: self.ctx_spec(),
                    raw: self@[i],
                }),
    {
        let mut out: Vec<Dynamic> = Vec::new();
        let n = self.len();
        let mut i: usize = 0;
        while i < n
            invariant
                n == self@.len(),
                i <= n,
                self.all_set(),
                out.len() == i,
                forall|j: int|
                    0 <= j < i ==> #[trigger] out[j].node() == (Handle {
                        ctx: self.ctx_spec(),
                        raw: self@[j],
                    }),
            decreases n - i,
        {
            out.push(self.get(i));
            i = i + 1;
        }
        out
    }

    /// Builds a vector in `ctx` holding the terms of `asts` in order.
    pub fn from_slice<T: Ast>(ctx: &Context, asts: &[T]) -> (r: AstVector)
        requires
            asts@.len() <= MAX_LEN,
            forall|i: int| 0 <= i < asts@.len() ==> (#[trigger] asts@[i]).node().ctx == *ctx,
        ensures
            r.ctx_spec() == *ctx,
            r@.len() == asts@.len(),
            forall|i: int| 0 <= i < asts@.len() ==> #[trigger] r@[i] == asts@[i].node().raw,
            r.all_set(),
    {
        let mut vector = AstVector::new(ctx);
        let mut i: usize = 0;
        while i < asts.len()
            invariant
                i <= asts@.len() <= MAX_LEN,
                forall|j: int| 0 <= j < asts@.len() ==> (#[trigger] asts@[j]).node().ctx == *ctx,
                vector.ctx_spec() == *ctx,
                vector@.len() == i,
                forall|j: int| 0 <= j < i ==> #[trigger] vector@[j] == asts@[j].node().raw,
                vector.all_set(),
            decreases asts@.len() - i,
        {
            vector.push(&asts[i]);
            i = i + 1;
        }
        vector
    }

    /// The vector carried over to `target`.
    ///
    /// Into its own environment the vector is copied as it is. Into another one, the
    /// slots are those the engine produced by translating each slot (`translated`).
    pub fn translate(&self, target: &Context, translated: Vec<u64>) -> (r: AstVector)
        requires
            *target != self.ctx_spec() ==> translated@.len() == self@.len(),
        ensures
            r.ctx_spec() == *target,
            r@.len() == self@.len(),
            *target == self.ctx_spec() ==> r@ == self@,
            *target != self.ctx_spec() ==> r@ == translated@,
    {
        if target.same_as(&self.ctx) {
            AstVector { ctx: *target, raws: self.raws.clone() }
        } else {
            AstVector { ctx: *target, raws: translated }
        }
    }

    /// A cursor over the terms, from the first.
    pub fn iter(&self) -> (r: AstVectorIter<'_>)
        ensures
            r.vector() == self,
            r.index() == 0,
    {
        AstVectorIter { vector: self, index: 0 }
    }
}

/// After `push(ast)` the last slot is set and holds `ast`, so `get(len() - 1)` is
/// defined and returns a node with `ast`'s handle in the vector's environment.
pub proof fn lemma_push_then_get_last<T: Ast>(before: AstVector, after: AstVector, ast: T)
    requires
        ast.node().ctx == before.ctx_spec(),
        ast.node().raw != 0,
        after.ctx_spec() == before.ctx_spec(),
        after@ == before@.push(ast.node().raw),
    ensures
        after@.len() == before@.len() + 1,
        after@[after@.len() - 1] != 0,
        (Handle { ctx: after.ctx_spec(), raw: after@[after@.len() - 1] }) == ast.node(),
{
}

/// Building a vector from a slice and reading it back with `to_vec` gives as many
/// nodes as the slice had, with the slice's handles in the slice's order.
pub proof fn lemma_from_slice_to_vec<T: Ast>(
    ctx: Context,
    asts: Seq<T>,
    v: AstVector,
    out: Seq<Dynamic>,
)
    requires
        v.ctx_spec() == ctx,
        v@.len() == asts.len(),
        forall|i: int| 0 <= i < asts.len() ==> #[trigger] v@[i] == asts[i].node().raw,
        forall|i: int| 0 <= i < asts.len() ==> (#[trigger] asts[i]).node().ctx == ctx,
        out.len() == v@.len(),
        forall|i: int|
            0 <= i < out.len() ==> #[trigger] out[i].node() == (Handle {
                ctx: v.ctx_spec(),
                raw: v@[i],
            }),
    ensures
        out.len() == asts.len(),
        forall|i: int| 0 <= i < out.len() ==> #[trigger] out[i].node() == asts[i].node(),
{
    assert forall|i: int| 0 <= i < out.len() implies #[trigger] out[i].node() == asts[i].node() by {
        assert(v@[i] == asts[i].node().raw);
    }
}

/// A cursor over the terms of a vector.
///
/// Each step re-reads the current length, so it sees the vector as it is then.
pub struct AstVectorIter<'a> {
    vector: &'a AstVector,
    index: usize,
}

impl<'a> AstVectorIter<'a> {
    /// The vector walked over.
    pub closed spec fn vector(&self) -> &'a AstVector {
        self.vector
    }

    /// The position of the next term.
    pub closed spec fn index(&self) -> usize {
        self.index
    }

    /// The next term, or `None` past the end; every slot must be set.
    pub fn next(&mut self) -> (r: Option<Dynamic>)
        requires
            old(self).vector().all_set(),
        ensures
            final(self).vector() == old(self).vector(),
            old(self).index() < old(self).vector()@.len() ==> {
                &&& r.is_some()
                &&& r.unwrap().node() == (Handle {
                    ctx: old(self).vector().ctx_spec(),
                    raw: old(self).vector()@[old(self).index() as int],
                })
                &&& final(self).index() == old(self).index() + 1
            },
            old(self).index() >= old(self).vector()@.len() ==> {
                &&& r.is_none()
                &&& final(self).index() == old(self).index()
            },
    {
        if self.index < self.vector.len() {
            let item = self.vector.get(self.index);
            self.index = self.index + 1;
            Some(item)
        } else {
            None
        }
    }
}

} // verus!
