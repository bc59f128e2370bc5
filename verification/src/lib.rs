//! A cryptographically secure random generator, as the decisions of its facade.
//!
//! The randomness itself comes from an entropy backend, which is foreign code
//! and is never called from here. What this library holds is everything the
//! facade decides: that the backend is set up once before anything is drawn
//! from it, what is asked of it for each operation, and what of its replies
//! is handed on.
//!
//! An operation is a step function over a [`Generator`]. It is called with
//! [`Event::Start`], and answers with an [`Action`]: a [`Call`] to perform on
//! the backend, whose outcome goes into the next step as an [`Event`]; a
//! request to wait and start again; the result; or a [`Fault`]. Whoever
//! drives the generator performs the calls and owns the waiting.
//!
//! - [`guard`]: the generator and the one-time setup of its backend.
//! - [`backend`]: calls, events, actions and faults.
//! - [`facade`]: the operations, and what holds of all of them.
//! - [`seed`]: seeds for deterministic output.

pub mod backend;
pub mod facade;
pub mod guard;
pub mod seed;

pub use backend::{Action, Call, Event, Fault};
pub use facade::{
    buf, buf_deterministic, buf_deterministic_into, buf_into, ratchet, reseed, u32, uniform,
};
pub use guard::{Generator, Phase, Turn};
pub use seed::{Seed, SEEDBYTES};
