//! The initialization guard.
//!
//! A [`Generator`] remembers how far the backend's one-time setup has come.
//! Every operation passes its event through
//! [`Generator::ensure_initialized`] before it does anything else.

use vstd::prelude::*;
use crate::backend::{Event, Fault};

verus! {

/// How far the backend's setup has come.
#[derive(Debug, PartialEq, Eq, Structural, Copy, Clone)]
pub enum Phase {
    /// Setup has not been asked for.
    Fresh,
    /// Setup has been asked for and its status is awaited.
    Pending,
    /// Setup succeeded.
    Ready,
    /// Setup failed.
    Failed,
}

/// What the guard makes of an event.
#[derive(Debug, PartialEq, Eq, Structural, Copy, Clone)]
pub enum Turn {
    /// The backend has to be set up before anything else.
    Setup,
    /// The setup has been asked for and has not returned: the operation has
    /// to start again later.
    Wait,
    /// The backend is set up and the operation begins.
    Begin,
    /// The backend is set up and the event is a reply for the operation to read.
    Reply,
    /// The event is turned away.
    Refuse(Fault),
}

/// The phase that follows `phase` on `event`.
pub open spec fn next_phase(phase: Phase, event: Event) -> Phase {
    match (phase, event) {
        (Phase::Fresh, Event::Start) => Phase::Pending,
        (Phase::Pending, Event::SetupReturned(status)) => if status == 0 {
            Phase::Ready
        } else {
            Phase::Failed
        },
        _ => phase,
    }
}

/// What the guard makes of `event` in `phase`.
pub open spec fn turn(phase: Phase, event: Event) -> Turn {
    match phase {
        Phase::Fresh => match event {
            Event::Start => Turn::Setup,
            _ => Turn::Refuse(Fault::OutOfTurn),
        },
        Phase::Pending => match event {
            Event::Start => Turn::Wait,
            Event::SetupReturned(status) => if status == 0 {
                Turn::Begin
            } else {
                Turn::Refuse(Fault::SetupFailed)
            },
            _ => Turn::Refuse(Fault::OutOfTurn),
        },
        Phase::Ready => match event {
            Event::Start => Turn::Begin,
            Event::SetupReturned(_) => Turn::Refuse(Fault::OutOfTurn),
            _ => Turn::Reply,
        },
        Phase::Failed => Turn::Refuse(Fault::SetupFailed),
    }
}

/// The phase reached from `phase` when the events of `events` arrive in order.
pub open spec fn run(phase: Phase, events: Seq<Event>) -> Phase
    decreases events.len(),
{
    if events.len() == 0 {
        phase
    } else {
        run(next_phase(phase, events[0]), events.drop_first())
    }
}

/// How often the guard asks for the setup when the events of `events` arrive
/// in order, starting in `phase`.
pub open spec fn setups(phase: Phase, events: Seq<Event>) -> nat
    decreases events.len(),
{
    if events.len() == 0 {
        0
    } else {
        let asked: nat = if turn(phase, events[0]) == Turn::Setup {
            1
        } else {
            0
        };
        asked + setups(next_phase(phase, events[0]), events.drop_first())
    }
}

/// The state of one generator: the phase of its backend's setup.
#[derive(Debug)]
pub struct Generator {
    phase: Phase,
}

impl View for Generator {
    type V = Phase;

    closed spec fn view(&self) -> Phase {
        self.phase
    }
}

impl Generator {
    /// A generator whose backend has not been set up.
    pub fn new() -> (generator: Generator)
        ensures
            generator@ == Phase::Fresh,
    {
        Generator { phase: Phase::Fresh }
    }

    /// The phase the generator is in.
    pub fn phase(&self) -> (phase: Phase)
        ensures
            phase == self@,
    {
        self.phase
    }

    /// Whether the backend's setup has succeeded.
    pub fn is_initialized(&self) -> (ready: bool)
        ensures
            ready <==> self@ == Phase::Ready,
    {
        match self.phase {
            Phase::Ready => true,
            _ => false,
        }
    }

    /// Passes `event` through the guard.
    ///
    /// Setup is asked for on the first start and never again; a start that
    /// comes while its status is awaited has to wait. Replies are let through
    /// only once setup has succeeded, and after a failed setup everything is
    /// refused.
    pub fn ensure_initialized(&mut self, event: &Event) -> (decided: Turn)
        ensures
            final(self)@ == next_phase(old(self)@, *event),
            decided == turn(old(self)@, *event),
    {
        match self.phase {
            Phase::Fresh => match event {
                Event::Start => {
                    self.phase = Phase::Pending;
                    Turn::Setup
                },
                _ => Turn::Refuse(Fault::OutOfTurn),
            },
            Phase::Pending => match event {
                Event::Start => Turn::Wait,
                Event::SetupReturned(status) => {
                    if *status == 0 {
                        self.phase = Phase::Ready;
                        Turn::Begin
                    } else {
                        self.phase = Phase::Failed;
                        Turn::Refuse(Fault::SetupFailed)
                    }
                },
                _ => Turn::Refuse(Fault::OutOfTurn),
            },
            Phase::Ready => match event {
                Event::Start => Turn::Begin,
                Event::SetupReturned(_) => Turn::Refuse(Fault::OutOfTurn),
                _ => Turn::Reply,
            },
            Phase::Failed => Turn::Refuse(Fault::SetupFailed),
        }
    }
}

/// No event takes a generator back to where its setup was not asked for.
pub proof fn lemma_no_way_back(phase: Phase, events: Seq<Event>)
    requires
        phase != Phase::Fresh,
    ensures
        run(phase, events) != Phase::Fresh,
    decreases events.len(),
{
    if events.len() > 0 {
        lemma_no_way_back(next_phase(phase, events[0]), events.drop_first());
    }
}

/// Whatever events arrive and in whatever order, the setup is asked for at
/// most once in the life of a generator: never once it has been asked for,
/// and exactly once by the time a new generator has left its first phase.
pub proof fn lemma_setup_once(phase: Phase, events: Seq<Event>)
    ensures
        setups(phase, events) <= 1,
        phase != Phase::Fresh ==> setups(phase, events) == 0,
        phase == Phase::Fresh ==> (setups(phase, events) == 1 <==> run(phase, events)
            != Phase::Fresh),
    decreases events.len(),
{
    if events.len() > 0 {
        let next = next_phase(phase, events[0]);
        lemma_setup_once(next, events.drop_first());
        if next != Phase::Fresh {
            lemma_no_way_back(next, events.drop_first());
        }
    }
}

/// A generator that gets ready along the way has seen a setup return zero.
proof fn lemma_ready_takes_a_status(phase: Phase, events: Seq<Event>)
    requires
        phase != Phase::Ready,
        run(phase, events) == Phase::Ready,
    ensures
        events.contains(Event::SetupReturned(0)),
    decreases events.len(),
{
    let next = next_phase(phase, events[0]);
    if next == Phase::Ready {
        assert(events[0] == Event::SetupReturned(0));
    } else {
        lemma_ready_takes_a_status(next, events.drop_first());
        let rest = events.drop_first();
        let i = choose|i: int| 0 <= i < rest.len() && rest[i] == Event::SetupReturned(0);
        assert(events[i + 1] == Event::SetupReturned(0));
    }
}

/// A generator is ready only after a setup that was asked for, once, and
/// returned zero.
pub proof fn lemma_ready_means_set_up(events: Seq<Event>)
    requires
        run(Phase::Fresh, events) == Phase::Ready,
    ensures
        setups(Phase::Fresh, events) == 1,
        events.contains(Event::SetupReturned(0)),
{
    lemma_setup_once(Phase::Fresh, events);
    lemma_ready_takes_a_status(Phase::Fresh, events);
}

/// Initialization is idempotent: a generator that is ready stays ready
/// whatever events arrive, every operation started on it begins at once, and
/// nothing is refused for want of a setup.
pub proof fn lemma_ready_is_stable(events: Seq<Event>, event: Event)
    ensures
        run(Phase::Ready, events) == Phase::Ready,
        turn(run(Phase::Ready, events), Event::Start) == Turn::Begin,
        turn(run(Phase::Ready, events), event) != Turn::Setup,
        turn(run(Phase::Ready, events), event) != Turn::Refuse(Fault::SetupFailed),
    decreases events.len(),
{
    if events.len() > 0 {
        lemma_ready_is_stable(events.drop_first(), event);
    }
}

/// A failed setup is final: the generator stays failed whatever events arrive,
/// and refuses each of them.
pub proof fn lemma_failure_is_final(events: Seq<Event>, event: Event)
    ensures
        run(Phase::Failed, events) == Phase::Failed,
        turn(run(Phase::Failed, events), event) == Turn::Refuse(Fault::SetupFailed),
    decreases events.len(),
{
    if events.len() > 0 {
        lemma_failure_is_final(events.drop_first(), event);
    }
}

/// An operation begins, and a reply is read, only on a generator whose setup
/// has succeeded; and a generator becomes ready only on a setup that was asked
/// for and returned zero.
pub proof fn lemma_ready_before_use(phase: Phase, event: Event)
    ensures
        turn(phase, event) == Turn::Begin ==> next_phase(phase, event) == Phase::Ready,
        turn(phase, event) == Turn::Reply ==> phase == Phase::Ready && next_phase(phase, event)
            == Phase::Ready,
        next_phase(phase, event) == Phase::Ready && phase != Phase::Ready ==> phase
            == Phase::Pending && event == Event::SetupReturned(0),
        turn(phase, event) == Turn::Setup <==> phase == Phase::Fresh && event == Event::Start,
        turn(phase, event) == Turn::Wait <==> phase == Phase::Pending && event == Event::Start,
{
}

} // verus!
