//! The boundary with the entropy backend, as plain data.
//!
//! The backend is foreign code that this library never calls. A step of the
//! generator names the call it needs as a [`Call`]; whoever drives the
//! generator performs that call and reports what came of it as an [`Event`].

use vstd::prelude::*;
use crate::seed::Seed;

verus! {

/// One call into the entropy backend.
#[derive(Debug, PartialEq, Eq, Copy, Clone)]
pub enum Call {
    /// Run the one-time setup and report its status.
    Setup,
    /// Draw one 32-bit word.
    Word,
    /// Draw a word below `bound`, without modulo bias.
    Uniform { bound: u32 },
    /// Produce `len` unpredictable bytes.
    Fill { len: usize },
    /// Produce the `len` bytes that `seed` determines.
    FillFromSeed { len: usize, seed: Seed },
    /// Advance the internal state from the entropy already gathered.
    Ratchet,
    /// Gather fresh entropy and rebuild the internal state from it.
    Reseed,
}

impl Call {
    /// Whether `event` is an outcome that the backend owes for this call: any
    /// status for the setup, any word for a draw, a word below the bound for a
    /// bounded draw, bytes of the length asked for a fill, and the plain end
    /// of a call that yields nothing.
    pub open spec fn answered_by(self, event: Event) -> bool {
        match self {
            Call::Setup => event is SetupReturned,
            Call::Word => event is Word,
            Call::Uniform { bound } => event matches Event::Word(word) && word < bound,
            Call::Fill { len } => event matches Event::Bytes(bytes) && bytes@.len() == len,
            Call::FillFromSeed { len, seed } => event matches Event::Bytes(bytes) && bytes@.len()
                == len,
            Call::Ratchet => event is Done,
            Call::Reseed => event is Done,
        }
    }
}

/// What a step of an operation is told.
#[derive(Debug, PartialEq, Eq)]
pub enum Event {
    /// The caller asks for the operation.
    Start,
    /// The backend's setup returned this status; zero means success.
    SetupReturned(i32),
    /// The backend drew this word.
    Word(u32),
    /// The backend produced these bytes.
    Bytes(Vec<u8>),
    /// The backend finished a call that yields nothing.
    Done,
}

/// Why a step gave up.
#[derive(Debug, PartialEq, Eq, Structural, Copy, Clone)]
pub enum Fault {
    /// The backend could not be set up. No randomness can be had from this
    /// generator, now or later.
    SetupFailed,
    /// The event is not one that the step can take: a reply or a setup status
    /// that nothing was waiting for, or a reply of another kind than the
    /// operation's call yields.
    OutOfTurn,
    /// The reply is of the kind that the operation's call yields, but not what
    /// the backend owes: bytes of another length, or a word that is not below
    /// the bound.
    BadReply,
}

/// What a step of an operation decides.
#[derive(Debug, PartialEq, Eq)]
pub enum Action<T> {
    /// Perform this call and hand its outcome to the next step.
    Call(Call),
    /// The setup that another operation asked for has not returned. Start
    /// again later.
    Wait,
    /// The operation is complete, with this result.
    Return(T),
    /// The operation cannot be completed.
    Abort(Fault),
}

impl<T> Action<T> {
    /// The decision without its result.
    pub open spec fn shape(self) -> Action<()> {
        match self {
            Action::Call(call) => Action::Call(call),
            Action::Wait => Action::Wait,
            Action::Return(_) => Action::Return(()),
            Action::Abort(fault) => Action::Abort(fault),
        }
    }
}

} // verus!
