//! The repeating countdown that paces enemy spawns.

use vstd::prelude::*;
use bevy::time::{Timer, TimerMode};
use std::time::Duration;

verus! {

/// The time between two spawns, in nanoseconds: one second.
pub const SPAWN_PERIOD: u64 = 1_000_000_000;

/// Where the countdown stands after `delta` more nanoseconds, having stood at `elapsed`:
/// the time into the period that is then running.
pub open spec fn elapsed_after(elapsed: nat, delta: nat) -> nat {
    (elapsed + delta) % (SPAWN_PERIOD as nat)
}

/// Whether that advance reaches the end of a period.
pub open spec fn fires(elapsed: nat, delta: nat) -> bool {
    elapsed + delta >= SPAWN_PERIOD
}

/// The periods that end while a countdown standing at `elapsed` is advanced by each of
/// `deltas` in turn, counting one for every frame in which it fires.
pub open spec fn frames_fired(elapsed: nat, deltas: Seq<nat>) -> nat
    decreases deltas.len(),
{
    if deltas.len() == 0 {
        0
    } else {
        let now: nat = if fires(elapsed, deltas[0]) { 1 } else { 0 };
        now + frames_fired(elapsed_after(elapsed, deltas[0]), deltas.drop_first())
    }
}

/// Where the countdown stands after it is advanced by each of `deltas` in turn.
pub open spec fn elapsed_after_all(elapsed: nat, deltas: Seq<nat>) -> nat
    decreases deltas.len(),
{
    if deltas.len() == 0 {
        elapsed
    } else {
        elapsed_after_all(elapsed_after(elapsed, deltas[0]), deltas.drop_first())
    }
}

/// The sum of the frame times.
pub open spec fn total_time(deltas: Seq<nat>) -> nat
    decreases deltas.len(),
{
    if deltas.len() == 0 {
        0
    } else {
        deltas[0] + total_time(deltas.drop_first())
    }
}

/// No frame of `deltas` takes the countdown over more than one period boundary.
pub open spec fn one_boundary_per_frame(elapsed: nat, deltas: Seq<nat>) -> bool
    decreases deltas.len(),
{
    deltas.len() > 0 ==> {
        &&& elapsed + deltas[0] < 2 * SPAWN_PERIOD
        &&& one_boundary_per_frame(elapsed_after(elapsed, deltas[0]), deltas.drop_first())
    }
}

proof fn lemma_split_quotient(period: nat, a: nat, b: nat)
    requires
        period > 0,
    ensures
        (a + b) / period == a / period + (a % period + b) / period,
        (a + b) % period == (a % period + b) % period,
{
    let q = a / period;
    let r = a % period;
    assert(a == period * q + r) by (nonlinear_arith)
        requires
            period > 0,
            q == a / period,
            r == a % period,
    ;
    assert((period * q + (r + b)) / period == q + (r + b) / period && (period * q + (r + b))
        % period == (r + b) % period) by (nonlinear_arith)
        requires
            period > 0,
            q >= 0,
            r + b >= 0,
    ;
}

/// While no frame crosses more than one period boundary, the frames that fire are as many
/// as the whole periods in the time gone by: the time that stood on the countdown plus the
/// sum of the frame times, divided by the period and rounded down.
pub proof fn lemma_fired_once_per_period(elapsed: nat, deltas: Seq<nat>)
    requires
        elapsed < SPAWN_PERIOD,
        one_boundary_per_frame(elapsed, deltas),
    ensures
        frames_fired(elapsed, deltas) == (elapsed + total_time(deltas)) / (SPAWN_PERIOD as nat),
    decreases deltas.len(),
{
    if deltas.len() > 0 {
        let d = deltas[0];
        let rest = deltas.drop_first();
        lemma_fired_once_per_period(elapsed_after(elapsed, d), rest);
        lemma_split_quotient(SPAWN_PERIOD as nat, elapsed + d, total_time(rest));
    }
}

/// However long the frames are, what stands on the countdown after them is what the time
/// gone by leaves over when it is divided by the period. No time is lost by firing.
pub proof fn lemma_countdown_keeps_the_remainder(elapsed: nat, deltas: Seq<nat>)
    ensures
        elapsed_after_all(elapsed, deltas) == if deltas.len() == 0 {
            elapsed
        } else {
            (elapsed + total_time(deltas)) % (SPAWN_PERIOD as nat)
        },
    decreases deltas.len(),
{
    if deltas.len() > 0 {
        let d = deltas[0];
        let rest = deltas.drop_first();
        lemma_countdown_keeps_the_remainder(elapsed_after(elapsed, d), rest);
        lemma_split_quotient(SPAWN_PERIOD as nat, elapsed + d, total_time(rest));
    }
}

/// One `Timer::tick` of a bevy timer in `TimerMode::Repeating`. The timer is made from
/// plain values with `Timer::new` and `Timer::set_elapsed`, all times in nanoseconds, and
/// read back with `Timer::elapsed` and `Timer::finished`. A tick adds `delta` to the
/// elapsed time. If the sum reaches the timer's duration, the timer is finished and keeps
/// as elapsed time the remainder of the sum divided by the duration; if not, it is not
/// finished and keeps the sum.
#[verifier::external_body]
fn repeating_tick(period: u64, elapsed: u64, delta: u64) -> (r: (u64, bool))
    requires
        period > 0,
        elapsed < period,
    ensures
        r.0 == (elapsed + delta) % (period as int),
        r.1 == (elapsed + delta >= period),
{
    let mut timer = Timer::new(Duration::from_nanos(period), TimerMode::Repeating);
    timer.set_elapsed(Duration::from_nanos(elapsed));
    timer.tick(Duration::from_nanos(delta));
    (timer.elapsed().as_nanos() as u64, timer.finished())
}

/// The spawn countdown: the nanoseconds gone since the last period boundary.
#[derive(Debug)]
pub struct SpawnTimer {
    elapsed: u64,
}

impl SpawnTimer {
    #[verifier::type_invariant]
    spec fn inv(self) -> bool {
        self.elapsed < SPAWN_PERIOD
    }

    /// Nanoseconds into the current period.
    pub closed spec fn elapsed(&self) -> nat {
        self.elapsed as nat
    }

    /// A countdown at the start of its first period.
    pub fn new() -> (timer: Self)
        ensures
            timer.elapsed() == 0,
    {
        SpawnTimer { elapsed: 0 }
    }

    /// Nanoseconds into the current period, always below [`SPAWN_PERIOD`].
    pub fn elapsed_nanos(&self) -> (e: u64)
        ensures
            e == self.elapsed(),
            e < SPAWN_PERIOD,
    {
        proof {
            use_type_invariant(self);
        }
        self.elapsed
    }

    /// Advances the countdown by one frame of `delta` nanoseconds. Reports whether a period
    /// ended in this frame; however many ended, the answer is one `true`.
    pub fn tick(&mut self, delta: u64) -> (fired: bool)
        ensures
            final(self).elapsed() == elapsed_after(old(self).elapsed(), delta as nat),
            fired == fires(old(self).elapsed(), delta as nat),
    {
        proof {
            use_type_invariant(&*self);
        }
        let (elapsed, fired) = repeating_tick(SPAWN_PERIOD, self.elapsed, delta);
        self.elapsed = elapsed;
        fired
    }
}

} // verus!
