//! What can go wrong: interpreter failures, which the serf reports to the
//! king, and fatal conditions, which end the process.
use vstd::prelude::*;
use crate::noun::{Noun, NounV};

verus! {

/// How an interpretation failed. A deterministic or non-deterministic
/// failure carries the tang (the formatted stack) that was rendered from its
/// trace; a blocked or crashed scry carries the path it asked for.
#[derive(Debug, PartialEq, Eq)]
pub enum Fault {
    Deterministic(Noun),
    NonDeterministic(Noun),
    ScryBlocked(Noun),
    ScryCrashed(Noun),
}

pub enum FaultV {
    Deterministic(NounV),
    NonDeterministic(NounV),
    ScryBlocked(NounV),
    ScryCrashed(NounV),
}

impl View for Fault {
    type V = FaultV;

    open spec fn view(&self) -> FaultV {
        match self {
            Fault::Deterministic(t) => FaultV::Deterministic(t@),
            Fault::NonDeterministic(t) => FaultV::NonDeterministic(t@),
            Fault::ScryBlocked(p) => FaultV::ScryBlocked(p@),
            Fault::ScryCrashed(p) => FaultV::ScryCrashed(p@),
        }
    }
}

/// The view of an interpreter outcome.
pub open spec fn outcome_view(res: Result<Noun, Fault>) -> Result<NounV, FaultV> {
    match res {
        Ok(n) => Ok(n@),
        Err(f) => Err(f@),
    }
}

/// A condition that ends the serf.
#[derive(PartialEq, Eq, Structural, Debug, Clone, Copy)]
pub enum Fatal {
    /// The arena holds a snapshot version that this serf cannot read.
    UnsupportedVersion,
    /// The arena's snapshot handle names no record.
    CorruptSnapshot,
    /// A request lacks an axis it must have, or its tag is no atom.
    MalformedRequest,
    /// A request's tag is none of `live`, `peek`, `play`, `work`.
    UnknownTag,
    /// A scry was attempted outside virtual Nock.
    UnexpectedScry,
    /// A peek failed in the interpreter.
    PeekFailed,
    /// The kernel returned something other than the shape it must return.
    MalformedResult,
    /// A job is not a cell whose head is an atom.
    MalformedJob,
    /// An interpreter result arrived while none was awaited, or a request
    /// arrived while one was.
    OutOfOrder,
    /// The event counter would pass its largest value.
    EventOverflow,
    /// The arena can name no more snapshot records.
    ArenaFull,
}

} // verus!
