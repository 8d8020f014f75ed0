use vstd::prelude::*;

use crate::ast::{Ast, Dynamic, Model};
use crate::ast_vector::{AstVector, MAX_LEN};
use crate::context::Context;

verus! {

/// Quantifier elimination on formulas.
///
/// Every request is sound but not complete: the engine may hand back a formula that
/// still has quantifiers, down to the input itself.
#[derive(Debug)]
pub struct QuantifierElimination;

/// A faster and weaker quantifier elimination.
#[derive(Debug)]
pub struct LightQuantifierElimination;

/// What the engine is asked to do with a formula.
#[derive(Clone, Debug)]
pub enum QeKind {
    /// Eliminate all quantifiers, or only the outermost block.
    Eliminate { eliminate_all: bool },
    /// Eliminate exactly `vars`, with witnesses taken from `model` where one is given.
    Project { model: Option<u64>, vars: Vec<u64> },
    /// Simplify by quantifier elimination.
    Simplify,
    /// The light-weight elimination.
    Light,
    /// The light-weight elimination of the variables in `vars`.
    Lite { vars: Vec<u64> },
}

/// A request for a quantifier elimination on `formula`, with all handles in `ctx`.
/// The engine answers with a boolean-sorted term of `ctx`.
#[derive(Clone, Debug)]
pub struct QeCall {
    pub ctx: Context,
    pub formula: u64,
    pub kind: QeKind,
}

/// The raw handles of `nodes`, in order.
pub open spec fn raws_of(nodes: Seq<Dynamic>) -> Seq<u64> {
    nodes.map_values(|d: Dynamic| d.node().raw)
}

/// The raw handles of `nodes`, each of which must belong to `ctx`.
fn raws_in<T: Ast>(ctx: &Context, nodes: &[T]) -> (r: Vec<u64>)
    requires
        forall|i: int| 0 <= i < nodes@.len() ==> (#[trigger] nodes@[i]).node().ctx == *ctx,
    ensures
        r@.len() == nodes@.len(),
        forall|i: int| 0 <= i < nodes@.len() ==> #[trigger] r@[i] == nodes@[i].node().raw,
{
    let mut out: Vec<u64> = Vec::new();
    let mut i: usize = 0;
    while i < nodes.len()
        invariant
            i <= nodes@.len(),
            out@.len() == i,
            forall|j: int| 0 <= j < i ==> #[trigger] out@[j] == nodes@[j].node().raw,
        decreases nodes@.len() - i,
    {
        out.push(nodes[i].get_z3_ast());
        i = i + 1;
    }
    out
}

impl QuantifierElimination {
    /// The request to eliminate the quantifiers of `formula`: all of them, or only the
    /// outermost block.
    pub fn eliminate_quantifiers<F: Ast>(formula: &F, eliminate_all: bool) -> (r: QeCall)
        ensures
            r.ctx == formula.node().ctx,
            r.formula == formula.node().raw,
            r.kind == (QeKind::Eliminate { eliminate_all }),
    {
        QeCall {
            ctx: formula.get_ctx(),
            formula: formula.get_z3_ast(),
            kind: QeKind::Eliminate { eliminate_all },
        }
    }

    /// The request to eliminate the outermost (existential) block of `formula`.
    pub fn eliminate_existential_quantifiers<F: Ast>(formula: &F) -> (r: QeCall)
        ensures
            r.ctx == formula.node().ctx,
            r.formula == formula.node().raw,
            r.kind == (QeKind::Eliminate { eliminate_all: false }),
    {
        Self::eliminate_quantifiers(formula, false)
    }

    /// The request for a model-guided projection of `formula` over no variables.
    ///
    /// With no model, the engine gets no guidance. `eliminate_all` is accepted for
    /// symmetry with `eliminate_quantifiers` and deliberately not forwarded: a projection
    /// over no variables has no outermost block to tell apart.
    pub fn eliminate_quantifiers_with_model<F: Ast>(
        formula: &F,
        model: Option<&Model>,
        eliminate_all: bool,
    ) -> (r: QeCall)
        requires
            model matches Some(m) ==> m.node().ctx == formula.node().ctx,
        ensures
            r.ctx == formula.node().ctx,
            r.formula == formula.node().raw,
            r.kind matches QeKind::Project { model: rm, vars } && vars@.len() == 0 && (
            match model {
                Some(m) => rm == Some(m.node().raw),
                None => rm is None,
            }),
    {
        let model_raw = match model {
            Some(m) => Some(m.get_z3_model()),
            None => None,
        };
        QeCall {
            ctx: formula.get_ctx(),
            formula: formula.get_z3_ast(),
            kind: QeKind::Project { model: model_raw, vars: Vec::new() },
        }
    }

    /// The request to eliminate exactly `variables` from `formula`, with witnesses from
    /// `model`. Every operand must belong to the model's environment.
    pub fn project_variables<F: Ast>(model: &Model, variables: &[Dynamic], formula: &F) -> (r:
        QeCall)
        requires
            formula.node().ctx == model.node().ctx,
            variables@.len() <= MAX_LEN,
            forall|i: int|
                0 <= i < variables@.len() ==> (#[trigger] variables@[i]).node().ctx
                    == model.node().ctx,
        ensures
            r.ctx == formula.node().ctx,
            r.formula == formula.node().raw,
            r.kind matches QeKind::Project { model: rm, vars } && rm == Some(model.node().raw)
                && vars@ == raws_of(variables@),
    {
        let ctx = model.get_ctx();
        let vars = raws_in(&ctx, variables);
        assert(vars@ =~= raws_of(variables@));
        QeCall {
            ctx: formula.get_ctx(),
            formula: formula.get_z3_ast(),
            kind: QeKind::Project { model: Some(model.get_z3_model()), vars },
        }
    }

    /// The request to simplify `formula` by quantifier elimination.
    pub fn simplify_with_qe<F: Ast>(formula: &F) -> (r: QeCall)
        ensures
            r.ctx == formula.node().ctx,
            r.formula == formula.node().raw,
            r.kind == QeKind::Simplify,
    {
        QeCall { ctx: formula.get_ctx(), formula: formula.get_z3_ast(), kind: QeKind::Simplify }
    }

    /// The request for the light-weight elimination of `vars` from `formula`; the vector
    /// must belong to the formula's environment and have every slot set.
    pub fn lite<F: Ast>(vars: &AstVector, formula: &F) -> (r: QeCall)
        requires
            vars.ctx_spec() == formula.node().ctx,
            vars.all_set(),
        ensures
            r.ctx == formula.node().ctx,
            r.formula == formula.node().raw,
            r.kind matches QeKind::Lite { vars: v } && v@ == vars@,
    {
        let v = vars.raw_handles().clone();
        QeCall {
            ctx: formula.get_ctx(),
            formula: formula.get_z3_ast(),
            kind: QeKind::Lite { vars: v },
        }
    }
}

impl LightQuantifierElimination {
    /// The request for the light-weight elimination on `formula`.
    pub fn eliminate<F: Ast>(formula: &F) -> (r: QeCall)
        ensures
            r.ctx == formula.node().ctx,
            r.formula == formula.node().raw,
            r.kind == QeKind::Light,
    {
        QeCall { ctx: formula.get_ctx(), formula: formula.get_z3_ast(), kind: QeKind::Light }
    }
}

} // verus!
