//! The simulation context: the seeded random number generator and the
//! virtual clock that the interposed libc entry points consult while a
//! simulation runs, and what each of those entry points answers.
//!
//! Each method that stands for an entry point returns `None` when no
//! simulation is running: the caller then hands the call on to the real libc.

use vstd::prelude::*;

use rand::rngs::SmallRng;
use rand::{Rng, SeedableRng};

verus! {

/// rand's small seeded generator, held opaque.
#[verifier::external_type_specification]
#[verifier::external_body]
pub struct ExSmallRng(SmallRng);

/// The generator that `SmallRng::seed_from_u64` makes of a seed.
pub uninterp spec fn seeded_state(seed: u64) -> SmallRng;

/// The byte that `Rng::random::<u8>` draws from a generator in this state.
pub uninterp spec fn drawn_byte(g: SmallRng) -> u8;

/// The state of a generator after one byte is drawn from it.
pub uninterp spec fn after_draw(g: SmallRng) -> SmallRng;

/// Relies on `SeedableRng::seed_from_u64` of `SmallRng`: the generator is a
/// function of the seed alone.
#[verifier::external_body]
fn seeded_rng(seed: u64) -> (r: SmallRng)
    ensures
        r == seeded_state(seed),
{
    SmallRng::seed_from_u64(seed)
}

/// Relies on `Rng::random::<u8>` of `SmallRng`: the byte drawn and the state
/// after it are functions of the state before.
#[verifier::external_body]
fn next_byte(rng: &mut SmallRng) -> (r: u8)
    ensures
        r == drawn_byte(*old(rng)),
        *final(rng) == after_draw(*old(rng)),
{
    rng.random()
}

/// The state of a generator after `n` bytes are drawn from it.
pub open spec fn after_draws(g: SmallRng, n: nat) -> SmallRng
    decreases n,
{
    if n == 0 {
        g
    } else {
        after_draw(after_draws(g, (n - 1) as nat))
    }
}

/// The first `n` bytes drawn from a generator, in order.
pub open spec fn draws(g: SmallRng, n: nat) -> Seq<u8>
    decreases n,
{
    if n == 0 {
        Seq::empty()
    } else {
        draws(g, (n - 1) as nat).push(drawn_byte(after_draws(g, (n - 1) as nat)))
    }
}

/// Nanoseconds in a second.
pub const NANOS_PER_SEC: u32 = 1_000_000_000;

/// The process id that a simulated process reports.
pub const SIMULATED_PID: i32 = 12345;

/// The most bytes that one `getentropy` call may ask for.
pub const MAX_ENTROPY_LEN: usize = 256;

/// A span of virtual time: whole seconds and the nanoseconds beyond them.
#[derive(Clone, Copy, Debug, PartialEq, Eq, Structural)]
pub struct SimTime {
    pub secs: u64,
    pub nanos: u32,
}

impl SimTime {
    /// The nanoseconds are below a second.
    pub open spec fn wf(self) -> bool {
        self.nanos < NANOS_PER_SEC
    }

    /// The span in nanoseconds.
    pub open spec fn total(self) -> nat {
        self.secs as nat * 1_000_000_000 + self.nanos as nat
    }

    /// No time at all.
    pub fn zero() -> (r: SimTime)
        ensures
            r.wf(),
            r.total() == 0,
    {
        SimTime { secs: 0, nanos: 0 }
    }

    /// A span of `ms` milliseconds.
    pub fn from_millis(ms: u64) -> (r: SimTime)
        ensures
            r.wf(),
            r.total() == ms as nat * 1_000_000,
    {
        let secs = ms / 1000;
        let rest = ms % 1000;
        let nanos = (rest * 1_000_000) as u32;
        proof {
            assert(ms == secs * 1000 + rest);
            assert(ms as nat * 1_000_000 == secs as nat * 1_000_000_000 + rest as nat * 1_000_000)
                by (nonlinear_arith)
                requires
                    ms == secs * 1000 + rest,
            ;
        }
        SimTime { secs, nanos }
    }

    /// Whether this span is no longer than `other`.
    pub fn le(&self, other: &SimTime) -> (r: bool)
        requires
            self.wf(),
            other.wf(),
        ensures
            r == (self.total() <= other.total()),
    {
        proof {
            lemma_total_order(*self, *other);
        }
        self.secs < other.secs || (self.secs == other.secs && self.nanos <= other.nanos)
    }
}

proof fn lemma_total_order(a: SimTime, b: SimTime)
    requires
        a.wf(),
        b.wf(),
    ensures
        (a.total() <= b.total()) == (a.secs < b.secs || (a.secs == b.secs && a.nanos <= b.nanos)),
{
    if a.secs < b.secs {
        assert(a.secs as nat * 1_000_000_000 + 1_000_000_000 <= b.secs as nat * 1_000_000_000)
            by (nonlinear_arith)
            requires
                a.secs < b.secs,
        ;
    } else if a.secs > b.secs {
        assert(b.secs as nat * 1_000_000_000 + 1_000_000_000 <= a.secs as nat * 1_000_000_000)
            by (nonlinear_arith)
            requires
                b.secs < a.secs,
        ;
    }
}

/// The clock reading of `clock_gettime`.
#[derive(Clone, Copy, Debug, PartialEq, Eq, Structural)]
pub struct Timespec {
    pub tv_sec: i64,
    pub tv_nsec: i64,
}

/// What `pthread_create` answers inside a simulation.
#[derive(Clone, Copy, Debug, PartialEq, Eq, Structural)]
pub enum ThreadCreate {
    /// The thread is not created; the call fails with `EPERM`.
    Denied,
}

struct Active {
    rng: SmallRng,
    time: SimTime,
}

/// The per-thread state of a simulation: present while one runs.
pub struct Context {
    active: Option<Active>,
}

impl Context {
    /// Whether a simulation is running.
    pub closed spec fn is_present(&self) -> bool {
        self.active is Some
    }

    /// The virtual time elapsed since the epoch, while a simulation runs.
    pub closed spec fn time(&self) -> SimTime {
        self.active->Some_0.time
    }

    /// The state of the generator, while a simulation runs.
    pub closed spec fn rng_state(&self) -> SmallRng {
        self.active->Some_0.rng
    }

    /// The context's invariant: the virtual time is well formed.
    pub closed spec fn wf(&self) -> bool {
        self.is_present() ==> self.time().wf()
    }

    /// No simulation running.
    pub fn new() -> (r: Context)
        ensures
            r.wf(),
            !r.is_present(),
    {
        Context { active: None }
    }

    /// Starts a simulation: a generator seeded with `seed`, and the clock at
    /// `start_time`. A running simulation is replaced.
    pub fn enter(&mut self, seed: u64, start_time: SimTime)
        requires
            start_time.wf(),
        ensures
            final(self).wf(),
            final(self).is_present(),
            final(self).time() == start_time,
            final(self).rng_state() == seeded_state(seed),
    {
        self.active = Some(Active { rng: seeded_rng(seed), time: start_time });
    }

    /// Ends the simulation.
    pub fn exit(&mut self)
        ensures
            final(self).wf(),
            !final(self).is_present(),
    {
        self.active = None;
    }

    /// Whether a simulation is running.
    pub fn present(&self) -> (r: bool)
        ensures
            r == self.is_present(),
    {
        self.active.is_some()
    }

    /// The virtual time, while a simulation runs.
    pub fn now(&self) -> (r: Option<SimTime>)
        ensures
            self.is_present() ==> r == Some(self.time()),
            !self.is_present() ==> r is None,
    {
        match &self.active {
            Some(a) => Some(a.time),
            None => None,
        }
    }

    /// Whether the clock may be moved to `new_time`: a simulation runs and
    /// `new_time` is not before its clock.
    pub fn can_advance_to(&self, new_time: &SimTime) -> (r: bool)
        requires
            self.wf(),
            new_time.wf(),
        ensures
            r == (self.is_present() && self.time().total() <= new_time.total()),
    {
        match &self.active {
            Some(a) => a.time.le(new_time),
            None => false,
        }
    }

    /// Moves the virtual clock to `new_time`, which may not be before it.
    pub fn advance_time(&mut self, new_time: SimTime)
        requires
            old(self).wf(),
            new_time.wf(),
            old(self).is_present(),
            old(self).time().total() <= new_time.total(),
        ensures
            final(self).wf(),
            final(self).is_present(),
            final(self).time() == new_time,
            final(self).rng_state() == old(self).rng_state(),
    {
        match &mut self.active {
            Some(a) => {
                a.time = new_time;
            },
            None => {},
        }
    }

    /// `clock_gettime`: the virtual time, as seconds and nanoseconds.
    pub fn clock_gettime(&self) -> (r: Option<Timespec>)
        ensures
            self.is_present() ==> r == Some(
                Timespec { tv_sec: self.time().secs as i64, tv_nsec: self.time().nanos as i64 },
            ),
            !self.is_present() ==> r is None,
    {
        match &self.active {
            Some(a) => Some(Timespec { tv_sec: a.time.secs as i64, tv_nsec: a.time.nanos as i64 }),
            None => None,
        }
    }

    /// `getrandom`: fills `buf` with bytes drawn from the generator; the call
    /// returns the length of `buf`.
    pub fn getrandom(&mut self, buf: &mut [u8]) -> (r: Option<usize>)
        requires
            old(self).wf(),
        ensures
            final(self).wf(),
            final(self).is_present() == old(self).is_present(),
            final(buf)@.len() == old(buf)@.len(),
            old(self).is_present() ==> final(self).time() == old(self).time() && r == Some(
                old(buf)@.len() as usize,
            ),
            old(self).is_present() ==> final(buf)@ == draws(old(self).rng_state(), old(buf)@.len())
                && final(self).rng_state() == after_draws(old(self).rng_state(), old(buf)@.len()),
            !old(self).is_present() ==> r is None && *final(self) == *old(self) && final(buf)@ == old(
                buf,
            )@,
    {
        match &mut self.active {
            Some(a) => {
                let ghost t0 = a.time;
                let ghost g0 = a.rng;
                let ghost len0 = buf@.len();
                let mut i: usize = 0;
                while i < buf.len()
                    invariant
                        i <= buf@.len(),
                        buf@.len() == len0,
                        a.time == t0,
                        a.rng == after_draws(g0, i as nat),
                        buf@.subrange(0, i as int) == draws(g0, i as nat),
                    decreases buf@.len() - i,
                {
                    let ghost prev = buf@;
                    buf[i] = next_byte(&mut a.rng);
                    proof {
                        assert(buf@.subrange(0, i + 1) =~= prev.subrange(0, i as int).push(buf@[i as int]));
                    }
                    i = i + 1;
                }
                assert(buf@.subrange(0, buf@.len() as int) =~= buf@);
                Some(buf.len())
            },
            None => None,
        }
    }

    /// `getentropy`: fills `buf` from the generator and answers 0, where it
    /// holds at most 256 bytes; a longer buffer is left alone and the call
    /// answers -1.
    pub fn getentropy(&mut self, buf: &mut [u8]) -> (r: Option<i32>)
        requires
            old(self).wf(),
        ensures
            final(self).wf(),
            final(self).is_present() == old(self).is_present(),
            final(buf)@.len() == old(buf)@.len(),
            old(self).is_present() ==> final(self).time() == old(self).time(),
            old(self).is_present() && old(buf)@.len() <= MAX_ENTROPY_LEN ==> r == Some(0i32)
                && final(buf)@ == draws(old(self).rng_state(), old(buf)@.len())
                && final(self).rng_state() == after_draws(old(self).rng_state(), old(buf)@.len()),
            old(self).is_present() && old(buf)@.len() > MAX_ENTROPY_LEN ==> r == Some(-1i32)
                && *final(self) == *old(self) && final(buf)@ == old(buf)@,
            !old(self).is_present() ==> r is None && *final(self) == *old(self) && final(buf)@ == old(
                buf,
            )@,
    {
        if !self.present() {
            return None;
        }
        if buf.len() > MAX_ENTROPY_LEN {
            return Some(-1);
        }
        match self.getrandom(buf) {
            Some(_) => Some(0),
            None => None,
        }
    }

    /// `getpid`: a fixed process id.
    pub fn getpid(&self) -> (r: Option<i32>)
        ensures
            self.is_present() ==> r == Some(SIMULATED_PID),
            !self.is_present() ==> r is None,
    {
        if self.present() {
            Some(SIMULATED_PID)
        } else {
            None
        }
    }

    /// `pthread_create`: a simulation may not start threads.
    pub fn pthread_create(&self) -> (r: Option<ThreadCreate>)
        ensures
            self.is_present() ==> r == Some(ThreadCreate::Denied),
            !self.is_present() ==> r is None,
    {
        if self.present() {
            Some(ThreadCreate::Denied)
        } else {
            None
        }
    }
}

/// Seeds the context for a simulation: the generator with `rng_seed`, the
/// clock at `start_time`.
pub fn seed(ctx: &mut Context, rng_seed: u64, start_time: SimTime)
    requires
        start_time.wf(),
    ensures
        final(ctx).wf(),
        final(ctx).is_present(),
        final(ctx).time() == start_time,
        final(ctx).rng_state() == seeded_state(rng_seed),
{
    ctx.enter(rng_seed, start_time);
}

/// The seed and start time of a simulation.
#[derive(Clone, Copy, Debug)]
pub struct Config {
    pub rng_seed: u64,
    pub start_time: SimTime,
}

impl Default for Config {
    fn default() -> (r: Config)
        ensures
            r.rng_seed == 0,
            r.start_time.total() == 0,
            r.start_time.wf(),
    {
        Config { rng_seed: 0, start_time: SimTime::zero() }
    }
}

} // verus!
