use vstd::prelude::*;
use vstd::string::StringSliceAdditionalSpecFns;

use crate::ast::{Ast, Bool, Dynamic, Handle};
use crate::ast_vector::MAX_LEN;
use crate::context::Context;

verus! {

/// What the engine answered to a query.
#[derive(Clone, Copy, PartialEq, Eq, Structural, Debug)]
pub enum QueryOutcome {
    /// The goal is derivable from the rules and facts.
    Derivable,
    /// The goal is not derivable.
    NotDerivable,
    /// The engine could not decide.
    Unknown,
}

impl QueryOutcome {
    /// The outcome that the engine's three-valued answer `v` stands for:
    /// `1` derivable, `-1` not derivable, anything else unknown.
    pub open spec fn spec_from_lbool(v: i32) -> QueryOutcome {
        if v == 1 {
            QueryOutcome::Derivable
        } else if v == -1 {
            QueryOutcome::NotDerivable
        } else {
            QueryOutcome::Unknown
        }
    }

    /// Reads the engine's three-valued answer.
    pub fn from_lbool(v: i32) -> (r: QueryOutcome)
        ensures
            r == Self::spec_from_lbool(v),
    {
        if v == 1 {
            QueryOutcome::Derivable
        } else if v == -1 {
            QueryOutcome::NotDerivable
        } else {
            QueryOutcome::Unknown
        }
    }
}

/// A request to a rule-solving engine. All term handles belong to the engine's
/// environment.
#[derive(Clone, Debug)]
pub enum FixedpointCall {
    /// Register the Horn clause `rule`, under `name` where one is given.
    AddRule { rule: u64, name: Option<String> },
    /// Assert the ground fact `pred(args)`.
    AddFact { pred: u64, args: Vec<u64> },
    /// Add the background formula `formula`.
    Assert { formula: u64 },
    /// Replace the rule registered under `rule_name` by `rule`.
    UpdateRule { rule: u64, rule_name: String },
    /// Strengthen the over-approximation of `predicate` at `level` by `property`.
    AddCover { level: i32, predicate: u64, property: u64 },
    /// Parse `text` in the rule language and add what it declares.
    FromString { text: String },
    /// Parse the file named `path` in the rule language and add what it declares.
    FromFile { path: String },
    /// Ask whether `goal` is derivable.
    Query { goal: u64 },
    /// Ask whether any of `relations` is derivable.
    QueryRelations { relations: Vec<u64> },
    /// Read the over-approximation of `predicate` at `level`.
    GetCoverDelta { level: i32, predicate: u64 },
}

/// Whether the bytes of `s` hold a zero byte, which a C string cannot carry.
pub open spec fn has_nul(s: &str) -> bool {
    exists|i: int| 0 <= i < s.spec_bytes().len() && s.spec_bytes()[i] == 0u8
}

/// Tells whether `s` holds a zero byte.
pub fn contains_nul(s: &str) -> (r: bool)
    ensures
        r == has_nul(s),
{
    let bytes = s.as_bytes();
    let mut i: usize = 0;
    while i < bytes.len()
        invariant
            bytes@ == s.spec_bytes(),
            i <= bytes@.len(),
            forall|j: int| 0 <= j < i ==> bytes@[j] != 0u8,
        decreases bytes@.len() - i,
    {
        if bytes[i] == 0u8 {
            return true;
        }
        i = i + 1;
    }
    false
}

/// A rule-solving (Horn clause) engine of one environment.
///
/// The library keeps, in order, every request that added to the engine's state; the
/// state only grows, and queries leave it as it is.
pub struct Fixedpoint {
    ctx: Context,
    raw: u64,
    added: Vec<FixedpointCall>,
}

impl Fixedpoint {
    /// The environment of the engine.
    pub closed spec fn ctx_spec(&self) -> Context {
        self.ctx
    }

    /// The native handle of the engine.
    pub closed spec fn raw_spec(&self) -> u64 {
        self.raw
    }

    /// The requests that added to the engine's state, oldest first.
    pub closed spec fn additions(&self) -> Seq<FixedpointCall> {
        self.added@
    }

    /// Whether nothing was added yet.
    pub open spec fn is_empty_state(&self) -> bool {
        self.additions().len() == 0
    }

    /// Adopts the fresh engine `raw` that was made in `ctx`.
    pub fn new(ctx: &Context, raw: u64) -> (r: Fixedpoint)
        requires
            raw != 0,
        ensures
            r.ctx_spec() == *ctx,
            r.raw_spec() == raw,
            r.is_empty_state(),
    {
        Fixedpoint { ctx: *ctx, raw, added: Vec::new() }
    }

    /// The environment of the engine.
    pub fn get_ctx(&self) -> (r: Context)
        ensures
            r == self.ctx_spec(),
    {
        self.ctx
    }

    /// The native handle of the engine.
    pub fn get_z3_fixedpoint(&self) -> (r: u64)
        ensures
            r == self.raw_spec(),
    {
        self.raw
    }

    /// The requests that added to the engine's state, oldest first.
    pub fn get_additions(&self) -> (r: &Vec<FixedpointCall>)
        ensures
            r@ == self.additions(),
    {
        &self.added
    }

    /// The latest request that added to the engine's state, for handing to the engine.
    pub fn last_addition(&self) -> (r: &FixedpointCall)
        requires
            !self.is_empty_state(),
        ensures
            *r == self.additions().last(),
    {
        &self.added[self.added.len() - 1]
    }

    /// Registers the Horn clause `rule`, under `name` where one is given.
    ///
    /// A name with a zero byte is refused, and nothing is added.
    pub fn add_rule<R: Ast>(&mut self, rule: &R, name: Option<&str>) -> (r: Result<(), String>)
        requires
            rule.node().ctx == old(self).ctx_spec(),
        ensures
            final(self).ctx_spec() == old(self).ctx_spec(),
            final(self).raw_spec() == old(self).raw_spec(),
            match name {
                Some(n) if has_nul(n) => {
                    &&& r matches Err(e) && e@ == NAME_ERROR@
                    &&& final(self).additions() == old(self).additions()
                },
                _ => {
                    &&& r is Ok
                    &&& final(self).additions().len() == old(self).additions().len() + 1
                    &&& final(self).additions().drop_last() == old(self).additions()
                    &&& final(self).additions().last() matches FixedpointCall::AddRule {
                        rule: x,
                        name: m,
                    } && x == rule.node().raw && match (m, name) {
                        (Some(a), Some(b)) => a@ == b@,
                        (None, None) => true,
                        _ => false,
                    }
                },
            },
    {
        let owned: Option<String> = match name {
            Some(n) => {
                if contains_nul(n) {
                    return Err(NAME_ERROR.to_owned());
                }
                Some(n.to_owned())
            },
            None => None,
        };
        let raw = rule.get_z3_ast();
        self.added.push(FixedpointCall::AddRule { rule: raw, name: owned });
        Ok(())
    }

    /// Replaces the rule registered under `name` by `rule`.
    ///
    /// A name with a zero byte is refused, and nothing is added.
    pub fn update_rule<R: Ast>(&mut self, rule: &R, name: &str) -> (r: Result<(), String>)
        requires
            rule.node().ctx == old(self).ctx_spec(),
        ensures
            final(self).ctx_spec() == old(self).ctx_spec(),
            final(self).raw_spec() == old(self).raw_spec(),
            has_nul(name) ==> {
                &&& r matches Err(e) && e@ == NAME_ERROR@
                &&& final(self).additions() == old(self).additions()
            },
            !has_nul(name) ==> {
                &&& r is Ok
                &&& final(self).additions().len() == old(self).additions().len() + 1
                &&& final(self).additions().drop_last() == old(self).additions()
                &&& final(self).additions().last() matches FixedpointCall::UpdateRule {
                    rule: x,
                    rule_name: m,
                } && x == rule.node().raw && m@ == name@
            },
    {
        if contains_nul(name) {
            return Err(NAME_ERROR.to_owned());
        }
        let raw = rule.get_z3_ast();
        self.added.push(FixedpointCall::UpdateRule { rule: raw, rule_name: name.to_owned() });
        Ok(())
    }

    /// Asserts the ground fact `pred(args)`; every term must belong to the engine's
    /// environment.
    pub fn add_fact<P: Ast>(&mut self, pred: &P, args: &[Dynamic])
        requires
            pred.node().ctx == old(self).ctx_spec(),
            args@.len() <= MAX_LEN,
            forall|i: int|
                0 <= i < args@.len() ==> (#[trigger] args@[i]).node().ctx == old(self).ctx_spec(),
        ensures
            final(self).ctx_spec() == old(self).ctx_spec(),
            final(self).raw_spec() == old(self).raw_spec(),
            final(self).additions().len() == old(self).additions().len() + 1,
            final(self).additions().drop_last() == old(self).additions(),
            final(self).additions().last() matches FixedpointCall::AddFact { pred: p, args: a }
                && p == pred.node().raw && a@.len() == args@.len() && forall|i: int|
                0 <= i < args@.len() ==> #[trigger] a@[i] == args@[i].node().raw,
    {
        let mut raws: Vec<u64> = Vec::new();
        let mut i: usize = 0;
        while i < args.len()
            invariant
                i <= args@.len(),
                raws@.len() == i,
                forall|j: int| 0 <= j < i ==> #[trigger] raws@[j] == args@[j].node().raw,
            decreases args@.len() - i,
        {
            raws.push(args[i].get_z3_ast());
            i = i + 1;
        }
        let p = pred.get_z3_ast();
        self.added.push(FixedpointCall::AddFact { pred: p, args: raws });
    }

    /// Adds the background formula `formula`, which must belong to the engine's environment.
    pub fn add_assertion<A: Ast>(&mut self, formula: &A)
        requires
            formula.node().ctx == old(self).ctx_spec(),
        ensures
            final(self).ctx_spec() == old(self).ctx_spec(),
            final(self).raw_spec() == old(self).raw_spec(),
            final(self).additions() == old(self).additions().push(
                FixedpointCall::Assert { formula: formula.node().raw },
            ),
    {
        let raw = formula.get_z3_ast();
        self.added.push(FixedpointCall::Assert { formula: raw });
    }

    /// Strengthens the over-approximation of `predicate` at `level` by `property`.
    pub fn add_cover<P: Ast, Q: Ast>(&mut self, level: i32, predicate: &P, property: &Q)
        requires
            predicate.node().ctx == old(self).ctx_spec(),
            property.node().ctx == old(self).ctx_spec(),
        ensures
            final(self).ctx_spec() == old(self).ctx_spec(),
            final(self).raw_spec() == old(self).raw_spec(),
            final(self).additions() == old(self).additions().push(
                FixedpointCall::AddCover {
                    level,
                    predicate: predicate.node().raw,
                    property: property.node().raw,
                },
            ),
    {
        let p = predicate.get_z3_ast();
        let q = property.get_z3_ast();
        self.added.push(FixedpointCall::AddCover { level, predicate: p, property: q });
    }

    /// Hands the rule-language program `s` to the engine.
    ///
    /// A program with a zero byte is refused, and nothing is added. Whether the engine
    /// could parse it is told by `parse_outcome` on its reply.
    pub fn from_string(&mut self, s: &str) -> (r: Result<(), String>)
        ensures
            final(self).ctx_spec() == old(self).ctx_spec(),
            final(self).raw_spec() == old(self).raw_spec(),
            has_nul(s) ==> {
                &&& r matches Err(e) && e@ == TEXT_NUL_ERROR@
                &&& final(self).additions() == old(self).additions()
            },
            !has_nul(s) ==> {
                &&& r is Ok
                &&& final(self).additions().len() == old(self).additions().len() + 1
                &&& final(self).additions().drop_last() == old(self).additions()
                &&& final(self).additions().last() matches FixedpointCall::FromString { text }
                    && text@ == s@
            },
    {
        if contains_nul(s) {
            return Err(TEXT_NUL_ERROR.to_owned());
        }
        self.added.push(FixedpointCall::FromString { text: s.to_owned() });
        Ok(())
    }

    /// Hands the file named `filename` to the engine, which reads and parses it.
    ///
    /// A name with a zero byte is refused, and nothing is added.
    pub fn from_file(&mut self, filename: &str) -> (r: Result<(), String>)
        ensures
            final(self).ctx_spec() == old(self).ctx_spec(),
            final(self).raw_spec() == old(self).raw_spec(),
            has_nul(filename) ==> {
                &&& r matches Err(e) && e@ == FILE_NUL_ERROR@
                &&& final(self).additions() == old(self).additions()
            },
            !has_nul(filename) ==> {
                &&& r is Ok
                &&& final(self).additions().len() == old(self).additions().len() + 1
                &&& final(self).additions().drop_last() == old(self).additions()
                &&& final(self).additions().last() matches FixedpointCall::FromFile { path }
                    && path@ == filename@
            },
    {
        if contains_nul(filename) {
            return Err(FILE_NUL_ERROR.to_owned());
        }
        self.added.push(FixedpointCall::FromFile { path: filename.to_owned() });
        Ok(())
    }

    /// The request to ask whether `goal` is derivable; it changes nothing.
    pub fn query<G: Ast>(&self, goal: &G) -> (r: FixedpointCall)
        requires
            goal.node().ctx == self.ctx_spec(),
        ensures
            r == (FixedpointCall::Query { goal: goal.node().raw }),
    {
        FixedpointCall::Query { goal: goal.get_z3_ast() }
    }

    /// The request to ask whether any of `relations` is derivable; it changes nothing.
    pub fn query_relations(&self, relations: &[Dynamic]) -> (r: FixedpointCall)
        requires
            relations@.len() <= MAX_LEN,
            forall|i: int|
                0 <= i < relations@.len() ==> (#[trigger] relations@[i]).node().ctx
                    == self.ctx_spec(),
        ensures
            r matches FixedpointCall::QueryRelations { relations: rs } && rs@.len()
                == relations@.len() && forall|i: int|
                0 <= i < relations@.len() ==> #[trigger] rs@[i] == relations@[i].node().raw,
    {
        let mut raws: Vec<u64> = Vec::new();
        let mut i: usize = 0;
        while i < relations.len()
            invariant
                i <= relations@.len(),
                raws@.len() == i,
                forall|j: int| 0 <= j < i ==> #[trigger] raws@[j] == relations@[j].node().raw,
            decreases relations@.len() - i,
        {
            raws.push(relations[i].get_z3_ast());
            i = i + 1;
        }
        FixedpointCall::QueryRelations { relations: raws }
    }

    /// The request to read the over-approximation of `predicate` at `level`.
    pub fn get_cover_delta<P: Ast>(&self, level: i32, predicate: &P) -> (r: FixedpointCall)
        requires
            predicate.node().ctx == self.ctx_spec(),
        ensures
            r == (FixedpointCall::GetCoverDelta { level, predicate: predicate.node().raw }),
    {
        FixedpointCall::GetCoverDelta { level, predicate: predicate.get_z3_ast() }
    }

    /// The boolean term of this engine's environment that a reply names, if any.
    fn optional_bool(&self, native: Option<u64>) -> (r: Option<Bool>)
        requires
            native matches Some(x) ==> x != 0,
        ensures
            r is Some <==> native is Some,
            r matches Some(b) ==> b.node() == (Handle { ctx: self.ctx_spec(), raw: native.unwrap() }),
    {
        match native {
            Some(raw) => Some(Bool::wrap(&self.ctx, raw)),
            None => None,
        }
    }

    /// The answer of the last query, from the engine's reply: absent where the engine
    /// has none, never a made-up term.
    pub fn get_answer(&self, native: Option<u64>) -> (r: Option<Bool>)
        requires
            native matches Some(x) ==> x != 0,
        ensures
            r is Some <==> native is Some,
            r matches Some(b) ==> b.node() == (Handle { ctx: self.ctx_spec(), raw: native.unwrap() }),
    {
        self.optional_bool(native)
    }

    /// The over-approximation asked for by `get_cover_delta`, from the engine's reply.
    pub fn read_cover_delta(&self, native: Option<u64>) -> (r: Option<Bool>)
        requires
            native matches Some(x) ==> x != 0,
        ensures
            r is Some <==> native is Some,
            r matches Some(b) ==> b.node() == (Handle { ctx: self.ctx_spec(), raw: native.unwrap() }),
    {
        self.optional_bool(native)
    }
}

impl FixedpointCall {
    /// What a program request comes to, from whether the engine could parse it.
    pub fn parse_outcome(&self, parsed: bool) -> (r: Result<(), String>)
        requires
            self matches FixedpointCall::FromString { .. } || self matches FixedpointCall::FromFile { .. },
        ensures
            parsed ==> r is Ok,
            !parsed && self is FromString ==> (r matches Err(e) && e@ == TEXT_PARSE_ERROR@),
            !parsed && self is FromFile ==> (r matches Err(e) && e@ == FILE_PARSE_ERROR@),
    {
        if parsed {
            Ok(())
        } else {
            match self {
                FixedpointCall::FromFile { .. } => Err(FILE_PARSE_ERROR.to_owned()),
                _ => Err(TEXT_PARSE_ERROR.to_owned()),
            }
        }
    }
}

/// The error for a rule name with a zero byte.
pub const NAME_ERROR: &'static str = "Name contains null byte";

/// The error for a program text with a zero byte.
pub const TEXT_NUL_ERROR: &'static str = "String contains null byte";

/// The error for a file name with a zero byte.
pub const FILE_NUL_ERROR: &'static str = "Filename contains null byte";

/// The error for a program text that the engine could not parse.
pub const TEXT_PARSE_ERROR: &'static str = "Failed to parse fixedpoint from string";

/// The error for a file that the engine could not read or parse.
pub const FILE_PARSE_ERROR: &'static str = "Failed to parse fixedpoint from file";

} // verus!
