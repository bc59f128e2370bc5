//! The operations of the generator.
//!
//! Each operation is one step function. It is called first with
//! [`Event::Start`], and again with the outcome of every call that it asked
//! for, until it returns or aborts; where it says to wait, it is started
//! again later. Every step passes the guard first, so no call but the setup
//! is ever asked of a backend that is not set up, and no reply is read before
//! it is.
//!
//! A step reads a reply on its face: it cannot tell whose call a reply
//! answers. Handing each operation the outcome of its own call is the
//! driver's part.

use vstd::prelude::*;
use crate::backend::{Action, Call, Event, Fault};
use crate::guard::{next_phase, turn, Generator, Phase, Turn};
use crate::seed::Seed;

verus! {

/// What a step of [`u32`] decides.
pub open spec fn word_step(turn: Turn, event: Event) -> Action<u32> {
    match turn {
        Turn::Setup => Action::Call(Call::Setup),
        Turn::Wait => Action::Wait,
        Turn::Begin => Action::Call(Call::Word),
        Turn::Reply => match event {
            Event::Word(word) => Action::Return(word),
            _ => Action::Abort(Fault::OutOfTurn),
        },
        Turn::Refuse(fault) => Action::Abort(fault),
    }
}

/// What a step of [`uniform`] decides.
///
/// With a bound of zero there is no value to draw: the operation returns zero
/// and asks nothing of the backend.
pub open spec fn uniform_step(turn: Turn, upper_bound: u32, event: Event) -> Action<u32> {
    match turn {
        Turn::Setup => Action::Call(Call::Setup),
        Turn::Wait => Action::Wait,
        Turn::Begin => if upper_bound == 0 {
            Action::Return(0)
        } else {
            Action::Call(Call::Uniform { bound: upper_bound })
        },
        Turn::Reply => match event {
            Event::Word(word) => if word < upper_bound {
                Action::Return(word)
            } else {
                Action::Abort(Fault::BadReply)
            },
            _ => Action::Abort(Fault::OutOfTurn),
        },
        Turn::Refuse(fault) => Action::Abort(fault),
    }
}

/// What a step of a fill of `len` bytes decides, where `call` is what it asks
/// of the backend. The step returns on a reply of exactly `len` bytes.
pub open spec fn fill_step(turn: Turn, call: Call, len: usize, event: Event) -> Action<()> {
    match turn {
        Turn::Setup => Action::Call(Call::Setup),
        Turn::Wait => Action::Wait,
        Turn::Begin => Action::Call(call),
        Turn::Reply => match event {
            Event::Bytes(bytes) => if bytes@.len() == len {
                Action::Return(())
            } else {
                Action::Abort(Fault::BadReply)
            },
            _ => Action::Abort(Fault::OutOfTurn),
        },
        Turn::Refuse(fault) => Action::Abort(fault),
    }
}

/// What a buffer holds after a step of a fill that decided `action`: the
/// bytes of the reply if the step returned, and what it held before if not.
pub open spec fn filled(before: Seq<u8>, action: Action<()>, event: Event) -> Seq<u8> {
    match (action, event) {
        (Action::Return(_), Event::Bytes(bytes)) => bytes@,
        _ => before,
    }
}

/// What a step of [`ratchet`] or [`reseed`] decides, where `call` is what it
/// asks of the backend.
pub open spec fn quiet_step(turn: Turn, call: Call, event: Event) -> Action<()> {
    match turn {
        Turn::Setup => Action::Call(Call::Setup),
        Turn::Wait => Action::Wait,
        Turn::Begin => Action::Call(call),
        Turn::Reply => match event {
            Event::Done => Action::Return(()),
            _ => Action::Abort(Fault::OutOfTurn),
        },
        Turn::Refuse(fault) => Action::Abort(fault),
    }
}

/// One step of drawing a 32-bit word.
pub fn u32(generator: &mut Generator, event: Event) -> (action: Action<u32>)
    ensures
        final(generator)@ == next_phase(old(generator)@, event),
        action == word_step(turn(old(generator)@, event), event),
{
    match generator.ensure_initialized(&event) {
        Turn::Setup => Action::Call(Call::Setup),
        Turn::Wait => Action::Wait,
        Turn::Begin => Action::Call(Call::Word),
        Turn::Reply => match event {
            Event::Word(word) => Action::Return(word),
            _ => Action::Abort(Fault::OutOfTurn),
        },
        Turn::Refuse(fault) => Action::Abort(fault),
    }
}

/// One step of drawing a word below `upper_bound`.
///
/// Whatever the backend replies, a word that is returned for a bound above
/// zero is below the bound. For a bound of zero the operation returns zero,
/// and the backend is never asked to draw below zero.
pub fn uniform(generator: &mut Generator, upper_bound: u32, event: Event) -> (action: Action<u32>)
    ensures
        final(generator)@ == next_phase(old(generator)@, event),
        action == uniform_step(turn(old(generator)@, event), upper_bound, event),
        action matches Action::Return(word) ==> word < upper_bound || (upper_bound == 0 && word
            == 0),
        action matches Action::Call(Call::Uniform { bound }) ==> bound == upper_bound && bound
            > 0,
{
    match generator.ensure_initialized(&event) {
        Turn::Setup => Action::Call(Call::Setup),
        Turn::Wait => Action::Wait,
        Turn::Begin => {
            if upper_bound == 0 {
                Action::Return(0)
            } else {
                Action::Call(Call::Uniform { bound: upper_bound })
            }
        },
        Turn::Reply => match event {
            Event::Word(word) => {
                if word < upper_bound {
                    Action::Return(word)
                } else {
                    Action::Abort(Fault::BadReply)
                }
            },
            _ => Action::Abort(Fault::OutOfTurn),
        },
        Turn::Refuse(fault) => Action::Abort(fault),
    }
}

/// Overwrites `out` with the bytes of `bytes`, which is as long.
fn overwrite(out: &mut [u8], bytes: &Vec<u8>)
    requires
        old(out)@.len() == bytes@.len(),
    ensures
        final(out)@ == bytes@,
{
    let n: usize = out.len();
    let mut i: usize = 0;
    while i < n
        invariant
            n == bytes@.len(),
            out@.len() == n,
            i <= n,
            forall|j: int| 0 <= j < i ==> out@[j] == bytes@[j],
        decreases n - i,
    {
        out[i] = bytes[i];
        i += 1;
    }
}

/// One step of a fill of `out` that asks `call` of the backend.
fn fill(generator: &mut Generator, out: &mut [u8], event: Event, call: Call) -> (action: Action<()>)
    ensures
        final(generator)@ == next_phase(old(generator)@, event),
        action == fill_step(turn(old(generator)@, event), call, old(out).len(), event),
        final(out)@ == filled(old(out)@, action, event),
{
    match generator.ensure_initialized(&event) {
        Turn::Setup => Action::Call(Call::Setup),
        Turn::Wait => Action::Wait,
        Turn::Begin => Action::Call(call),
        Turn::Reply => match event {
            Event::Bytes(bytes) => {
                if bytes.len() == out.len() {
                    overwrite(out, &bytes);
                    Action::Return(())
                } else {
                    Action::Abort(Fault::BadReply)
                }
            },
            _ => Action::Abort(Fault::OutOfTurn),
        },
        Turn::Refuse(fault) => Action::Abort(fault),
    }
}

/// One step of filling `out` with unpredictable bytes.
///
/// The call asked of the backend is for exactly as many bytes as `out` holds.
/// A reply of that length overwrites all of `out`; any other leaves every
/// byte of it as it was.
pub fn buf_into(generator: &mut Generator, out: &mut [u8], event: Event) -> (action: Action<()>)
    ensures
        final(generator)@ == next_phase(old(generator)@, event),
        action == fill_step(
            turn(old(generator)@, event),
            Call::Fill { len: old(out).len() },
            old(out).len(),
            event,
        ),
        final(out)@ == filled(old(out)@, action, event),
        final(out)@.len() == old(out)@.len(),
{
    let len: usize = out.len();
    fill(generator, out, event, Call::Fill { len })
}

/// One step of a fill that hands on the bytes of the reply, and asks `call`
/// of the backend.
fn produce(
    generator: &mut Generator,
    len: usize,
    event: Event,
    call: Call,
) -> (action: Action<Vec<u8>>)
    ensures
        final(generator)@ == next_phase(old(generator)@, event),
        action.shape() == fill_step(turn(old(generator)@, event), call, len, event),
        action matches Action::Return(bytes) ==> event matches Event::Bytes(reply) && bytes@
            == reply@,
{
    match generator.ensure_initialized(&event) {
        Turn::Setup => Action::Call(Call::Setup),
        Turn::Wait => Action::Wait,
        Turn::Begin => Action::Call(call),
        Turn::Reply => match event {
            Event::Bytes(bytes) => {
                if bytes.len() == len {
                    Action::Return(bytes)
                } else {
                    Action::Abort(Fault::BadReply)
                }
            },
            _ => Action::Abort(Fault::OutOfTurn),
        },
        Turn::Refuse(fault) => Action::Abort(fault),
    }
}

/// One step of producing `out_len` unpredictable bytes.
///
/// The call asked of the backend is for exactly `out_len` bytes. What is
/// returned has exactly `out_len` bytes, those of the reply; for a length of
/// zero that is the empty sequence.
pub fn buf(generator: &mut Generator, out_len: usize, event: Event) -> (action: Action<Vec<u8>>)
    ensures
        final(generator)@ == next_phase(old(generator)@, event),
        action.shape() == fill_step(
            turn(old(generator)@, event),
            Call::Fill { len: out_len },
            out_len,
            event,
        ),
        action matches Action::Return(bytes) ==> event matches Event::Bytes(reply) && bytes@
            == reply@,
        action matches Action::Return(bytes) ==> bytes@.len() == out_len,
{
    produce(generator, out_len, event, Call::Fill { len: out_len })
}

/// One step of filling `out` with the bytes that `seed` determines.
///
/// The call asked of the backend carries the length of `out` and `seed`, and
/// nothing else. A reply of that length overwrites all of `out`; any other
/// leaves every byte of it as it was.
pub fn buf_deterministic_into(
    generator: &mut Generator,
    out: &mut [u8],
    seed: &Seed,
    event: Event,
) -> (action: Action<()>)
    ensures
        final(generator)@ == next_phase(old(generator)@, event),
        action == fill_step(
            turn(old(generator)@, event),
            Call::FillFromSeed { len: old(out).len(), seed: *seed },
            old(out).len(),
            event,
        ),
        final(out)@ == filled(old(out)@, action, event),
        final(out)@.len() == old(out)@.len(),
{
    let len: usize = out.len();
    fill(generator, out, event, Call::FillFromSeed { len, seed: *seed })
}

/// One step of producing the `out_len` bytes that `seed` determines.
///
/// The call asked of the backend carries `out_len` and `seed`, and nothing
/// else. What is returned has exactly `out_len` bytes, those of the reply.
pub fn buf_deterministic(
    generator: &mut Generator,
    out_len: usize,
    seed: &Seed,
    event: Event,
) -> (action: Action<Vec<u8>>)
    ensures
        final(generator)@ == next_phase(old(generator)@, event),
        action.shape() == fill_step(
            turn(old(generator)@, event),
            Call::FillFromSeed { len: out_len, seed: *seed },
            out_len,
            event,
        ),
        action matches Action::Return(bytes) ==> event matches Event::Bytes(reply) && bytes@
            == reply@,
        action matches Action::Return(bytes) ==> bytes@.len() == out_len,
{
    produce(generator, out_len, event, Call::FillFromSeed { len: out_len, seed: *seed })
}

/// One step of a call that yields nothing.
fn quiet(generator: &mut Generator, event: Event, call: Call) -> (action: Action<()>)
    ensures
        final(generator)@ == next_phase(old(generator)@, event),
        action == quiet_step(turn(old(generator)@, event), call, event),
{
    match generator.ensure_initialized(&event) {
        Turn::Setup => Action::Call(Call::Setup),
        Turn::Wait => Action::Wait,
        Turn::Begin => Action::Call(call),
        Turn::Reply => match event {
            Event::Done => Action::Return(()),
            _ => Action::Abort(Fault::OutOfTurn),
        },
        Turn::Refuse(fault) => Action::Abort(fault),
    }
}

/// One step of advancing the backend's state from the entropy it has.
pub fn ratchet(generator: &mut Generator, event: Event) -> (action: Action<()>)
    ensures
        final(generator)@ == next_phase(old(generator)@, event),
        action == quiet_step(turn(old(generator)@, event), Call::Ratchet, event),
{
    quiet(generator, event, Call::Ratchet)
}

/// One step of rebuilding the backend's state from fresh entropy.
pub fn reseed(generator: &mut Generator, event: Event) -> (action: Action<()>)
    ensures
        final(generator)@ == next_phase(old(generator)@, event),
        action == quiet_step(turn(old(generator)@, event), Call::Reseed, event),
{
    quiet(generator, event, Call::Reseed)
}

/// Whichever operation takes the step, it asks nothing but the setup of a
/// backend that is not set up, and returns nothing before the setup has
/// succeeded.
pub proof fn lemma_setup_comes_first(
    phase: Phase,
    event: Event,
    call: Call,
    upper_bound: u32,
    len: usize,
)
    ensures
        ({
            let decided = turn(phase, event);
            let ready = next_phase(phase, event) == Phase::Ready;
            &&& word_step(decided, event) matches Action::Call(asked) ==> asked == Call::Setup
                || (ready && asked == Call::Word)
            &&& uniform_step(decided, upper_bound, event) matches Action::Call(asked) ==> asked
                == Call::Setup || (ready && asked == Call::Uniform { bound: upper_bound })
            &&& fill_step(decided, call, len, event) matches Action::Call(asked) ==> asked
                == Call::Setup || (ready && asked == call)
            &&& quiet_step(decided, call, event) matches Action::Call(asked) ==> asked
                == Call::Setup || (ready && asked == call)
            &&& word_step(decided, event) is Return ==> ready
            &&& uniform_step(decided, upper_bound, event) is Return ==> ready
            &&& fill_step(decided, call, len, event) is Return ==> ready
            &&& quiet_step(decided, call, event) is Return ==> ready
        }),
{
}

/// Whether an operation that decides `step(turn, event)` runs to its end as
/// it should: it asks for the setup on a new generator, waits while the setup
/// is awaited, begins with `begin` as soon as the generator is ready, and
/// returns on every outcome that the backend owes for `call`.
pub open spec fn runs_to_its_end<T>(
    step: spec_fn(Turn, Event) -> Action<T>,
    begin: Action<T>,
    call: Call,
    reply: Event,
) -> bool {
    let ok = Event::SetupReturned(0);
    &&& step(turn(Phase::Fresh, Event::Start), Event::Start) == Action::<T>::Call(Call::Setup)
    &&& step(turn(Phase::Pending, Event::Start), Event::Start) == Action::<T>::Wait
    &&& step(turn(Phase::Pending, ok), ok) == begin
    &&& step(turn(Phase::Ready, Event::Start), Event::Start) == begin
    &&& call.answered_by(reply) ==> step(turn(Phase::Ready, reply), reply) is Return
}

/// Against a backend that keeps its word, every operation runs to its end, in
/// three steps on a new generator and in two on one that is ready: it asks
/// for the setup if there was none, then for its own call, and returns on
/// the outcome that the backend owes for that call. A draw below a bound of
/// zero returns without a call of its own.
pub proof fn lemma_operations_complete(upper_bound: u32, len: usize, seed: Seed, reply: Event)
    ensures
        runs_to_its_end(
            |decided: Turn, event: Event| word_step(decided, event),
            Action::Call(Call::Word),
            Call::Word,
            reply,
        ),
        upper_bound > 0 ==> runs_to_its_end(
            |decided: Turn, event: Event| uniform_step(decided, upper_bound, event),
            Action::Call(Call::Uniform { bound: upper_bound }),
            Call::Uniform { bound: upper_bound },
            reply,
        ),
        uniform_step(turn(Phase::Ready, Event::Start), 0, Event::Start) == Action::Return(0u32),
        runs_to_its_end(
            |decided: Turn, event: Event| fill_step(decided, Call::Fill { len }, len, event),
            Action::Call(Call::Fill { len }),
            Call::Fill { len },
            reply,
        ),
        runs_to_its_end(
            |decided: Turn, event: Event|
                fill_step(decided, Call::FillFromSeed { len, seed }, len, event),
            Action::Call(Call::FillFromSeed { len, seed }),
            Call::FillFromSeed { len, seed },
            reply,
        ),
        runs_to_its_end(
            |decided: Turn, event: Event| quiet_step(decided, Call::Ratchet, event),
            Action::Call(Call::Ratchet),
            Call::Ratchet,
            reply,
        ),
        runs_to_its_end(
            |decided: Turn, event: Event| quiet_step(decided, Call::Reseed, event),
            Action::Call(Call::Reseed),
            Call::Reseed,
            reply,
        ),
{
}

/// A word that a draw below a bound above zero returns is below that bound,
/// whatever the generator has been through and whatever the backend replies.
pub proof fn lemma_uniform_below_bound(phase: Phase, upper_bound: u32, event: Event)
    requires
        upper_bound > 0,
    ensures
        uniform_step(turn(phase, event), upper_bound, event) matches Action::Return(word)
            ==> 0 <= word < upper_bound,
{
}

/// Deterministic fills add no chance of their own. Two fills of `len` bytes
/// from `seed`, by any generators in any phase, ask the same of the backend;
/// and against a backend that answers one call with one and the same bytes,
/// as `backend` does, both leave the same `len` bytes.
pub proof fn lemma_deterministic_fill(
    backend: spec_fn(Call) -> Seq<u8>,
    len: usize,
    seed: Seed,
    first_phase: Phase,
    first_event: Event,
    first_out: Seq<u8>,
    second_phase: Phase,
    second_event: Event,
    second_out: Seq<u8>,
)
    requires
        first_event matches Event::Bytes(reply) ==> reply@ == backend(
            Call::FillFromSeed { len, seed },
        ),
        second_event matches Event::Bytes(reply) ==> reply@ == backend(
            Call::FillFromSeed { len, seed },
        ),
    ensures
        ({
            let call = Call::FillFromSeed { len, seed };
            let first = fill_step(turn(first_phase, first_event), call, len, first_event);
            let second = fill_step(turn(second_phase, second_event), call, len, second_event);
            &&& first matches Action::Call(asked) ==> asked == Call::Setup || asked == call
            &&& second matches Action::Call(asked) ==> asked == Call::Setup || asked == call
            &&& first is Return && second is Return ==> {
                &&& filled(first_out, first, first_event) == filled(
                    second_out,
                    second,
                    second_event,
                )
                &&& filled(first_out, first, first_event) == backend(call)
                &&& filled(first_out, first, first_event).len() == len
            }
        }),
{
}

} // verus!
