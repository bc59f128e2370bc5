//! Whole operations, driven to their end against a stand-in backend.

use randombytes::{
    buf, buf_deterministic, buf_deterministic_into, buf_into, ratchet, reseed, uniform, Action,
    Call, Event, Fault, Generator, Phase, Seed, Turn, SEEDBYTES,
};

/// A backend for tests: a small generator of its own, and a record of every
/// call that it was asked to perform.
struct Backend {
    state: u64,
    setup_status: i32,
    calls: Vec<Call>,
}

impl Backend {
    fn new() -> Backend {
        Backend { state: 0x9e37_79b9_7f4a_7c15, setup_status: 0, calls: Vec::new() }
    }

    fn failing() -> Backend {
        Backend { state: 1, setup_status: -1, calls: Vec::new() }
    }

    fn word(&mut self) -> u32 {
        self.state ^= self.state << 13;
        self.state ^= self.state >> 7;
        self.state ^= self.state << 17;
        (self.state >> 16) as u32
    }

    fn perform(&mut self, call: Call) -> Event {
        self.calls.push(call);
        match call {
            Call::Setup => Event::SetupReturned(self.setup_status),
            Call::Word => Event::Word(self.word()),
            Call::Uniform { bound } => Event::Word(self.word() % bound),
            Call::Fill { len } => {
                let mut bytes: Vec<u8> = Vec::with_capacity(len);
                for _ in 0..len {
                    bytes.push(self.word() as u8);
                }
                Event::Bytes(bytes)
            },
            Call::FillFromSeed { len, seed } => {
                let raw: [u8; SEEDBYTES] = seed.into();
                let mut bytes: Vec<u8> = Vec::with_capacity(len);
                for i in 0..len {
                    bytes.push(raw[i % SEEDBYTES] ^ (i as u8).wrapping_mul(31) ^ (len as u8));
                }
                Event::Bytes(bytes)
            },
            Call::Ratchet | Call::Reseed => Event::Done,
        }
    }

    fn setups(&self) -> usize {
        self.calls.iter().filter(|call| **call == Call::Setup).count()
    }
}

/// Runs one operation to its end: performs each call that a step asks for and
/// hands the outcome to the next step.
fn drive<T>(backend: &mut Backend, mut step: impl FnMut(Event) -> Action<T>) -> Result<T, Fault> {
    let mut event = Event::Start;
    loop {
        match step(event) {
            Action::Call(call) => event = backend.perform(call),
            Action::Wait => panic!("left waiting for a setup that nobody runs"),
            Action::Return(value) => return Ok(value),
            Action::Abort(fault) => return Err(fault),
        }
    }
}

#[test]
fn test_randombytes() {
    let mut generator = Generator::new();
    let mut backend = Backend::new();
    assert_eq!(generator.ensure_initialized(&Event::Start), Turn::Setup);
    let status = backend.perform(Call::Setup);
    assert_eq!(generator.ensure_initialized(&status), Turn::Begin);

    let a = drive(&mut backend, |event| randombytes::u32(&mut generator, event)).unwrap();
    let b = drive(&mut backend, |event| randombytes::u32(&mut generator, event)).unwrap();
    let c = drive(&mut backend, |event| randombytes::u32(&mut generator, event)).unwrap();
    assert_ne!(a | b | c, 0);

    for _ in 0..100 {
        let max = drive(&mut backend, |event| randombytes::u32(&mut generator, event)).unwrap();
        assert!(drive(&mut backend, |event| uniform(&mut generator, max, event)).unwrap() < max)
    }

    let len = drive(&mut backend, |event| uniform(&mut generator, 100, event)).unwrap() as usize + 1;
    let mut out = drive(&mut backend, |event| buf(&mut generator, len, event)).unwrap();
    drive(&mut backend, |event| buf_into(&mut generator, &mut out, event)).unwrap();

    let seed = drive(&mut backend, |event| Seed::gen(&mut generator, event)).unwrap();
    let out = drive(&mut backend, |event| buf_deterministic(&mut generator, len, &seed, event))
        .unwrap();
    let mut out2 = vec![0u8; len];
    drive(&mut backend, |event| buf_deterministic_into(&mut generator, &mut out2, &seed, event))
        .unwrap();
    assert_eq!(out, out2);

    let seedx: [u8; 32] = seed.into();
    let seedy: Seed = seedx.into();
    assert_eq!(seed, seedy);

    drive(&mut backend, |event| ratchet(&mut generator, event)).unwrap();

    drive(&mut backend, |event| reseed(&mut generator, event)).unwrap();

    assert_eq!(backend.setups(), 1);
}

#[test]
fn deterministic_output_repeats_and_fresh_output_does_not() {
    let mut generator = Generator::new();
    let mut backend = Backend::new();

    let seed = drive(&mut backend, |event| Seed::gen(&mut generator, event)).unwrap();
    let first = drive(&mut backend, |event| buf_deterministic(&mut generator, 16, &seed, event))
        .unwrap();
    let second = drive(&mut backend, |event| buf_deterministic(&mut generator, 16, &seed, event))
        .unwrap();
    assert_eq!(first.len(), 16);
    assert_eq!(first, second);

    let fresh = drive(&mut backend, |event| buf(&mut generator, 16, event)).unwrap();
    let fresher = drive(&mut backend, |event| buf(&mut generator, 16, event)).unwrap();
    assert_eq!(fresh.len(), 16);
    assert_eq!(fresher.len(), 16);
    assert_ne!(fresh, fresher);

    for _ in 0..1000 {
        let value = drive(&mut backend, |event| uniform(&mut generator, 7, event)).unwrap();
        assert!(value <= 6);
    }
}

#[test]
fn deterministic_output_is_the_same_from_any_generator() {
    let seed = Seed::from([0x5au8; SEEDBYTES]);

    let mut first = Generator::new();
    let mut backend = Backend::new();
    let a = drive(&mut backend, |event| buf_deterministic(&mut first, 40, &seed, event)).unwrap();

    let mut second = Generator::new();
    let mut other_backend = Backend::new();
    drive(&mut other_backend, |event| randombytes::u32(&mut second, event)).unwrap();
    drive(&mut other_backend, |event| reseed(&mut second, event)).unwrap();
    let mut b: Vec<u8> = vec![0xffu8; 40];
    drive(&mut other_backend, |event| buf_deterministic_into(&mut second, &mut b, &seed, event))
        .unwrap();

    assert_eq!(a, b);
    assert_eq!(backend.calls, vec![Call::Setup, Call::FillFromSeed { len: 40, seed }]);
    assert_eq!(other_backend.calls.last(), Some(&Call::FillFromSeed { len: 40, seed }));

    let other_seed = Seed::from([0x5bu8; SEEDBYTES]);
    let c = drive(&mut backend, |event| buf_deterministic(&mut first, 40, &other_seed, event))
        .unwrap();
    assert_ne!(a, c);
}

#[test]
fn several_words_are_not_all_zero() {
    let mut generator = Generator::new();
    let mut backend = Backend::new();
    let mut all: u32 = 0;
    for _ in 0..8 {
        all |= drive(&mut backend, |event| randombytes::u32(&mut generator, event)).unwrap();
    }
    assert_ne!(all, 0);
    assert_eq!(backend.calls.len(), 9);
}

#[test]
fn uniform_stays_below_every_bound() {
    let mut generator = Generator::new();
    let mut backend = Backend::new();
    let bounds: [u32; 10] = [1, 2, 3, 7, 10, 1000, 0x7fff_ffff, 0x8000_0000, 0x8000_0001, u32::MAX];
    for bound in bounds {
        for _ in 0..200 {
            let value = drive(&mut backend, |event| uniform(&mut generator, bound, event)).unwrap();
            assert!(value < bound);
        }
    }
    assert_eq!(drive(&mut backend, |event| uniform(&mut generator, 1, event)), Ok(0));
}

#[test]
fn uniform_of_zero_asks_nothing_of_the_backend() {
    let mut generator = Generator::new();
    let mut backend = Backend::new();
    assert_eq!(drive(&mut backend, |event| uniform(&mut generator, 0, event)), Ok(0));
    assert_eq!(backend.calls, vec![Call::Setup]);
    assert_eq!(drive(&mut backend, |event| uniform(&mut generator, 0, event)), Ok(0));
    assert_eq!(backend.calls, vec![Call::Setup]);
}

#[test]
fn generated_buffers_have_the_length_asked_for() {
    let mut generator = Generator::new();
    let mut backend = Backend::new();
    let seed = Seed::from([9u8; SEEDBYTES]);
    let lengths: [usize; 8] = [0, 1, 2, 15, 16, 17, 255, 4096];
    for len in lengths {
        let fresh = drive(&mut backend, |event| buf(&mut generator, len, event)).unwrap();
        assert_eq!(fresh.len(), len);
        let derived = drive(&mut backend, |event| buf_deterministic(&mut generator, len, &seed, event))
            .unwrap();
        assert_eq!(derived.len(), len);
    }
    let empty = drive(&mut backend, |event| buf(&mut generator, 0, event)).unwrap();
    assert_eq!(empty, Vec::<u8>::new());
    let empty = drive(&mut backend, |event| buf_deterministic(&mut generator, 0, &seed, event))
        .unwrap();
    assert!(empty.is_empty());
}

#[test]
fn buf_into_overwrites_the_whole_buffer() {
    let mut generator = Generator::new();
    let mut backend = Backend::new();
    let mut out: [u8; 64] = [0u8; 64];
    drive(&mut backend, |event| buf_into(&mut generator, &mut out, event)).unwrap();
    assert_eq!(backend.calls, vec![Call::Setup, Call::Fill { len: 64 }]);
    let mut expected: Vec<u8> = Vec::new();
    let mut twin = Backend::new();
    for _ in 0..64 {
        expected.push(twin.word() as u8);
    }
    assert_eq!(out.to_vec(), expected);
}

#[test]
fn seed_gen_draws_seed_bytes() {
    let mut generator = Generator::new();
    let mut backend = Backend::new();
    let seed = drive(&mut backend, |event| Seed::gen(&mut generator, event)).unwrap();
    assert_eq!(backend.calls, vec![Call::Setup, Call::Fill { len: 32 }]);
    let mut twin = Backend::new();
    let mut expected: [u8; 32] = [0u8; 32];
    for byte in expected.iter_mut() {
        *byte = twin.word() as u8;
    }
    let raw: [u8; 32] = seed.into();
    assert_eq!(raw, expected);
    let other = drive(&mut backend, |event| Seed::gen(&mut generator, event)).unwrap();
    assert_ne!(seed, other);
}

#[test]
fn initialization_is_idempotent() {
    let mut generator = Generator::new();
    let mut backend = Backend::new();
    for round in 0..200u32 {
        match round % 5 {
            0 => {
                drive(&mut backend, |event| randombytes::u32(&mut generator, event)).unwrap();
            },
            1 => {
                drive(&mut backend, |event| uniform(&mut generator, round + 1, event)).unwrap();
            },
            2 => {
                drive(&mut backend, |event| buf(&mut generator, 8, event)).unwrap();
            },
            3 => drive(&mut backend, |event| ratchet(&mut generator, event)).unwrap(),
            _ => drive(&mut backend, |event| reseed(&mut generator, event)).unwrap(),
        }
        assert_eq!(generator.phase(), Phase::Ready);
        assert!(generator.is_initialized());
    }
    assert_eq!(backend.setups(), 1);
    assert_eq!(backend.calls.len(), 201);
    assert_eq!(backend.calls[0], Call::Setup);
}

#[test]
fn failed_setup_stops_every_operation() {
    let mut generator = Generator::new();
    let mut backend = Backend::failing();
    assert_eq!(
        drive(&mut backend, |event| randombytes::u32(&mut generator, event)),
        Err(Fault::SetupFailed)
    );
    assert_eq!(generator.phase(), Phase::Failed);
    assert_eq!(
        drive(&mut backend, |event| uniform(&mut generator, 7, event)),
        Err(Fault::SetupFailed)
    );
    assert_eq!(drive(&mut backend, |event| buf(&mut generator, 7, event)), Err(Fault::SetupFailed));
    assert_eq!(drive(&mut backend, |event| ratchet(&mut generator, event)), Err(Fault::SetupFailed));
    assert_eq!(drive(&mut backend, |event| reseed(&mut generator, event)), Err(Fault::SetupFailed));
    assert_eq!(
        drive(&mut backend, |event| Seed::gen(&mut generator, event)),
        Err(Fault::SetupFailed)
    );
    assert_eq!(backend.calls, vec![Call::Setup]);
}

#[test]
fn ratchet_and_reseed_ask_their_own_calls() {
    let mut generator = Generator::new();
    let mut backend = Backend::new();
    drive(&mut backend, |event| ratchet(&mut generator, event)).unwrap();
    drive(&mut backend, |event| reseed(&mut generator, event)).unwrap();
    drive(&mut backend, |event| ratchet(&mut generator, event)).unwrap();
    assert_eq!(backend.calls, vec![Call::Setup, Call::Ratchet, Call::Reseed, Call::Ratchet]);
}
