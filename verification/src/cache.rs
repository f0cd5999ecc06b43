//! The process-wide memoized binding outcome.
//!
//! The library is resolved and its symbol table bound at most once per
//! process; the outcome — the bound table's shape, or the failure reason —
//! is recorded here and every later request is answered from the record
//! without touching the filesystem again.  The one-time probe itself is
//! driven from outside through a single-initialization primitive; this type
//! carries the memoization discipline that the driver must obey, with a
//! probe counter that the well-formedness invariant pins to at most one.

use vstd::prelude::*;
use crate::symbols::SymbolTableShape;

verus! {

/// A binding outcome as plain values: the table shape, or the resolution or
/// binding failure reason.
pub open spec fn binding_view(r: Result<SymbolTableShape, String>) -> Result<
    SymbolTableShape,
    Seq<char>,
> {
    match r {
        Ok(t) => Ok(t),
        Err(e) => Err(e@),
    }
}

/// The memoized outcome of the one-time probe-and-bind sequence.
pub struct BindingCache {
    outcome: Option<Result<SymbolTableShape, String>>,
    probes: u64,
}

impl BindingCache {
    /// The memoized outcome, if the probe has run.
    pub closed spec fn outcome_view(self) -> Option<Result<SymbolTableShape, Seq<char>>> {
        match self.outcome {
            Option::None => Option::None,
            Option::Some(r) => Option::Some(binding_view(r)),
        }
    }

    /// How many times the filesystem probe has run.
    pub closed spec fn probe_count_spec(self) -> nat {
        self.probes as nat
    }

    /// A cache is well formed when it has recorded exactly one probe if
    /// decided and none if not.
    pub open spec fn wf(self) -> bool {
        self.probe_count_spec() == if self.outcome_view() is Some {
            1nat
        } else {
            0nat
        }
    }

    /// An empty cache: no outcome, no probe yet.
    pub fn new() -> (r: BindingCache)
        ensures
            r.wf(),
            r.outcome_view() is None,
            r.probe_count_spec() == 0,
    {
        BindingCache { outcome: None, probes: 0 }
    }

    /// Whether the one-time probe still has to run.
    pub fn needs_probe(&self) -> (b: bool)
        ensures
            b == (self.outcome_view() is None),
    {
        self.outcome.is_none()
    }

    /// Records the outcome of the one probe-and-bind run.  Demands a cache
    /// that is still undecided: the memoized outcome is never overwritten.
    pub fn record(&mut self, r: Result<SymbolTableShape, String>)
        requires
            old(self).wf(),
            old(self).outcome_view() is None,
        ensures
            final (self).wf(),
            final (self).outcome_view() == Option::Some(binding_view(r)),
            final (self).probe_count_spec() == 1,
    {
        self.outcome = Some(r);
        self.probes = 1;
    }

    /// The memoized outcome, repeated verbatim on every call; reading never
    /// re-probes.
    pub fn cached(&self) -> (r: Option<Result<SymbolTableShape, String>>)
        ensures
            match r {
                Option::None => self.outcome_view() is None,
                Option::Some(o) => self.outcome_view() == Option::Some(binding_view(o)),
            },
    {
        match &self.outcome {
            None => None,
            Some(Ok(t)) => Some(Ok(*t)),
            Some(Err(e)) => Some(Err(e.clone())),
        }
    }

    /// How many times the filesystem probe has run.
    pub fn probe_count(&self) -> (n: u64)
        ensures
            n as nat == self.probe_count_spec(),
    {
        self.probes
    }
}

/// Single-initialization: in every well-formed cache state the filesystem
/// probe has run at most once, and it has run exactly once as soon as an
/// outcome — success or failure — is available to callers.
pub proof fn lemma_single_initialization(c: BindingCache)
    requires
        c.wf(),
    ensures
        c.probe_count_spec() <= 1,
        c.outcome_view() is Some ==> c.probe_count_spec() == 1,
{
}

} // verus!
