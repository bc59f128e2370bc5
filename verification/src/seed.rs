//! Seeds for deterministic output.

use vstd::prelude::*;
use vstd::std_specs::convert::FromSpec;
use crate::backend::{Action, Call, Event};
use crate::facade::{buf_into, fill_step};
use crate::guard::{next_phase, turn, Generator};

verus! {

/// Number of bytes in a seed.
pub const SEEDBYTES: usize = 32;

/// A fixed-length byte string that determines a byte stream.
///
/// A seed is made from an array of `SEEDBYTES` bytes or drawn by
/// [`Seed::gen`], and is never changed afterwards. Two seeds are equal when
/// their bytes are.
#[derive(Debug, Eq, Copy, Clone)]
pub struct Seed([u8; SEEDBYTES]);

impl Seed {
    /// The seed made of the given bytes.
    pub closed spec fn of_bytes(bytes: [u8; SEEDBYTES]) -> Seed {
        Seed(bytes)
    }

    /// The bytes of the seed.
    pub closed spec fn bytes(self) -> [u8; SEEDBYTES] {
        self.0
    }

    /// One step of drawing a fresh seed.
    ///
    /// The seed that is returned holds the bytes of the reply, which are asked
    /// for as a fill of `SEEDBYTES` bytes.
    pub fn gen(generator: &mut Generator, event: Event) -> (action: Action<Seed>)
        ensures
            final(generator)@ == next_phase(old(generator)@, event),
            action.shape() == fill_step(
                turn(old(generator)@, event),
                Call::Fill { len: SEEDBYTES },
                SEEDBYTES,
                event,
            ),
            action matches Action::Return(seed) ==> event matches Event::Bytes(reply) && seed@
                == reply@,
    {
        let mut seed_inner: [u8; SEEDBYTES] = [0u8; SEEDBYTES];
        match buf_into(generator, &mut seed_inner, event) {
            Action::Call(call) => Action::Call(call),
            Action::Wait => Action::Wait,
            Action::Return(_) => Action::Return(Seed(seed_inner)),
            Action::Abort(fault) => Action::Abort(fault),
        }
    }
}

impl View for Seed {
    type V = Seq<u8>;

    open spec fn view(&self) -> Seq<u8> {
        self.bytes()@
    }
}

impl PartialEq for Seed {
    /// Whether the two seeds hold the same bytes.
    fn eq(&self, other: &Seed) -> (equal: bool) {
        let mut i: usize = 0;
        while i < SEEDBYTES
            invariant
                i <= SEEDBYTES,
                forall|j: int| 0 <= j < i ==> self.0@[j] == other.0@[j],
            decreases SEEDBYTES - i,
        {
            if self.0[i] != other.0[i] {
                return false;
            }
            i += 1;
        }
        assert(self.0@ =~= other.0@);
        true
    }
}

impl vstd::std_specs::cmp::PartialEqSpecImpl for Seed {
    open spec fn obeys_eq_spec() -> bool {
        true
    }

    open spec fn eq_spec(&self, other: &Seed) -> bool {
        self@ == other@
    }
}

impl From<[u8; SEEDBYTES]> for Seed {
    /// The seed that holds `bytes`. No array of this length is turned away.
    fn from(bytes: [u8; SEEDBYTES]) -> (seed: Seed)
        ensures
            seed@ == bytes@,
    {
        Seed(bytes)
    }
}

impl vstd::std_specs::convert::FromSpecImpl<[u8; SEEDBYTES]> for Seed {
    open spec fn obeys_from_spec() -> bool {
        true
    }

    open spec fn from_spec(bytes: [u8; SEEDBYTES]) -> Seed {
        Seed::of_bytes(bytes)
    }
}

impl From<Seed> for [u8; SEEDBYTES] {
    /// The bytes that `seed` holds.
    fn from(seed: Seed) -> (bytes: [u8; SEEDBYTES])
        ensures
            bytes@ == seed@,
    {
        seed.0
    }
}

impl vstd::std_specs::convert::FromSpecImpl<Seed> for [u8; SEEDBYTES] {
    open spec fn obeys_from_spec() -> bool {
        true
    }

    open spec fn from_spec(seed: Seed) -> [u8; SEEDBYTES] {
        seed.bytes()
    }
}

/// A seed turned into its bytes and back is the seed it was, and bytes turned
/// into a seed and back are the bytes they were: the two conversions lose
/// nothing.
pub proof fn lemma_seed_round_trip(seed: Seed, bytes: [u8; SEEDBYTES])
    ensures
        Seed::from_spec(<[u8; SEEDBYTES]>::from_spec(seed)) == seed,
        <[u8; SEEDBYTES]>::from_spec(Seed::from_spec(bytes)) == bytes,
        <[u8; SEEDBYTES]>::from_spec(seed)@ == seed@,
        Seed::from_spec(bytes)@ == bytes@,
{
}

/// A seed has exactly `SEEDBYTES` bytes, and two seeds are equal exactly when
/// their bytes are.
pub proof fn lemma_seed_equality(a: Seed, b: Seed)
    ensures
        a@.len() == SEEDBYTES,
        a == b <==> a@ == b@,
{
    if a@ == b@ {
        assert(a.bytes() =~= b.bytes());
    }
}

} // verus!
