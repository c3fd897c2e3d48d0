//! The software PWM driver: per channel step, a channel is held high for
//! `level` ticks and low for `LEVELS - level` ticks.
//!
//! The driver decides; whoever runs it drives the pins and waits. Each cycle
//! starts by copying the shared levels into the driver's shadow copy, so a
//! change made mid-cycle shows from the next cycle on.

use vstd::prelude::*;

use crate::shared::{lemma_store_then_read, SharedState};
use crate::{valid_levels, RgbLevels, LEVELS};

verus! {

/// Microseconds in one second.
pub const MICROS_PER_SECOND: u64 = 1_000_000;

/// Largest tick length that any frame rate gives: that of 1 hertz.
pub const MAX_TICK_TIME: u64 = 20_833;

/// The tick length, in microseconds, for which three full channel steps of
/// `LEVELS` ticks each take one period of `frame_rate` hertz (truncated).
pub open spec fn tick_time_of(frame_rate: nat) -> nat {
    MICROS_PER_SECOND as nat / (3 * frame_rate * LEVELS as nat)
}

/// How long a channel at `level` is held high in one step.
pub open spec fn on_time_of(level: nat, tick: nat) -> nat {
    level * tick
}

/// How long a channel at `level` is held low in one step.
pub open spec fn off_time_of(level: nat, tick: nat) -> nat {
    (LEVELS - level) as nat * tick
}

/// What one channel step does: if `drive_high`, set the pin high, wait
/// `on_time` microseconds and set it low; then, if `wait_low`, wait
/// `off_time` microseconds.
#[derive(Clone, Copy, Debug, PartialEq, Eq)]
pub struct StepTiming {
    pub drive_high: bool,
    pub on_time: u64,
    pub wait_low: bool,
    pub off_time: u64,
}

impl StepTiming {
    /// This is the step for a channel at `level` with ticks of `tick`.
    pub open spec fn is_step_of(self, level: nat, tick: nat) -> bool {
        &&& self.drive_high == (level > 0)
        &&& self.on_time as nat == on_time_of(level, tick)
        &&& self.wait_low == (level < LEVELS)
        &&& self.off_time as nat == off_time_of(level, tick)
    }

    /// Time the pin is held high during this step.
    pub open spec fn high_time(self) -> nat {
        if self.drive_high {
            self.on_time as nat
        } else {
            0
        }
    }

    /// Time the pin is held low during this step.
    pub open spec fn low_time(self) -> nat {
        if self.wait_low {
            self.off_time as nat
        } else {
            0
        }
    }

    /// Total time this step takes.
    pub open spec fn duration(self) -> nat {
        self.high_time() + self.low_time()
    }
}

/// The PWM driver for three output pins of type `P` (`[red, green, blue]`).
pub struct Rgb<P> {
    pub rgb: [P; 3],
    /// Shadow copy of the shared levels, refreshed once per cycle.
    levels: RgbLevels,
    tick_time: u64,
}

impl<P> Rgb<P> {
    /// The shadow copy of the levels.
    pub closed spec fn shadow_view(&self) -> RgbLevels {
        self.levels
    }

    /// The output pins.
    pub closed spec fn pins_view(&self) -> [P; 3] {
        self.rgb
    }

    /// The tick length in microseconds.
    pub closed spec fn tick_view(&self) -> nat {
        self.tick_time as nat
    }

    /// The shadow levels are valid and the tick is no longer than any frame
    /// rate gives.
    pub open spec fn wf(&self) -> bool {
        &&& valid_levels(self.shadow_view())
        &&& self.tick_view() <= MAX_TICK_TIME
    }

    /// This driver with its shadow copy replaced by `l`.
    pub closed spec fn with_shadow(self, l: RgbLevels) -> Self {
        Rgb { levels: l, ..self }
    }

    /// The duration of a tick, in microseconds, such that complete cycles
    /// through the three channels happen at `frame_rate` hertz.
    pub fn frame_tick_time(frame_rate: u64) -> (r: u64)
        requires
            frame_rate > 0,
        ensures
            r as nat == tick_time_of(frame_rate as nat),
            r <= MAX_TICK_TIME,
    {
        let r = if frame_rate > MICROS_PER_SECOND {
            0
        } else {
            assert(3 * frame_rate * 16 <= 48 * MICROS_PER_SECOND) by (nonlinear_arith)
                requires
                    frame_rate <= MICROS_PER_SECOND,
            ;
            MICROS_PER_SECOND / (3 * frame_rate * LEVELS as u64)
        };
        proof {
            lemma_tick_time_bounds(frame_rate as nat);
        }
        r
    }

    /// A dark driver on pins `rgb`, cycling at `frame_rate` hertz.
    pub fn new(rgb: [P; 3], frame_rate: u64) -> (r: Self)
        requires
            frame_rate > 0,
        ensures
            r.wf(),
            r.pins_view() == rgb,
            r.shadow_view() == [0u32, 0u32, 0u32],
            r.tick_view() == tick_time_of(frame_rate as nat),
    {
        let tick_time = Self::frame_tick_time(frame_rate);
        Rgb { rgb, levels: [0; 3], tick_time }
    }

    /// The shadow copy of the levels.
    pub fn levels(&self) -> (r: RgbLevels)
        ensures
            r == self.shadow_view(),
    {
        self.levels
    }

    /// The tick length in microseconds.
    pub fn tick_time(&self) -> (r: u64)
        ensures
            r as nat == self.tick_view(),
    {
        self.tick_time
    }

    /// Copies the current shared levels into the shadow copy.
    pub fn refresh(&mut self, shared: &SharedState)
        requires
            old(self).wf(),
            shared.wf(),
        ensures
            final(self).wf(),
            final(self).shadow_view() == shared.rgb_view(),
            final(self).tick_view() == old(self).tick_view(),
            final(self).pins_view() == old(self).pins_view(),
            *final(self) == old(self).with_shadow(shared.rgb_view()),
    {
        self.levels = shared.get_rgb_levels();
    }

    /// The step of channel `led` (0 red, 1 green, 2 blue) at its shadow level.
    pub fn step(&self, led: usize) -> (r: StepTiming)
        requires
            self.wf(),
            led < 3,
        ensures
            r.is_step_of(self.shadow_view()@[led as int] as nat, self.tick_view()),
    {
        let level = self.levels[led];
        proof {
            lemma_step_fits(level as nat, self.tick_view());
        }
        let on_time = level as u64 * self.tick_time;
        let inverse_level = LEVELS - level;
        let off_time = inverse_level as u64 * self.tick_time;
        StepTiming { drive_high: level > 0, on_time, wait_low: inverse_level > 0, off_time }
    }

    /// One cycle: refresh the shadow copy from `shared`, then the steps of
    /// channels 0, 1 and 2 at the refreshed levels.
    pub fn cycle(&mut self, shared: &SharedState) -> (r: [StepTiming; 3])
        requires
            old(self).wf(),
            shared.wf(),
        ensures
            final(self).wf(),
            final(self).shadow_view() == shared.rgb_view(),
            final(self).tick_view() == old(self).tick_view(),
            final(self).pins_view() == old(self).pins_view(),
            *final(self) == old(self).with_shadow(shared.rgb_view()),
            forall|i: int|
                0 <= i < 3 ==> (#[trigger] r@[i]).is_step_of(
                    shared.rgb_view()@[i] as nat,
                    final(self).tick_view(),
                ),
    {
        self.refresh(shared);
        let red = self.step(0);
        let green = self.step(1);
        let blue = self.step(2);
        [red, green, blue]
    }
}

proof fn lemma_tick_time_bounds(frame_rate: nat)
    requires
        frame_rate > 0,
    ensures
        tick_time_of(frame_rate) <= MAX_TICK_TIME,
        frame_rate > MICROS_PER_SECOND ==> tick_time_of(frame_rate) == 0,
{
    let d = 3 * frame_rate * LEVELS as nat;
    assert(d >= 48) by (nonlinear_arith)
        requires
            d == 3 * frame_rate * 16,
            frame_rate > 0,
    ;
    vstd::arithmetic::div_mod::lemma_div_is_ordered_by_denominator(
        MICROS_PER_SECOND as int,
        48,
        d as int,
    );
    if frame_rate > MICROS_PER_SECOND {
        assert(d > MICROS_PER_SECOND);
        vstd::arithmetic::div_mod::lemma_basic_div(MICROS_PER_SECOND as int, d as int);
    }
}

proof fn lemma_step_fits(level: nat, tick: nat)
    requires
        level < LEVELS,
        tick <= MAX_TICK_TIME,
    ensures
        level * tick <= LEVELS * MAX_TICK_TIME,
        (LEVELS - level) * tick <= LEVELS * MAX_TICK_TIME,
{
    assert(level * tick <= LEVELS * MAX_TICK_TIME) by (nonlinear_arith)
        requires
            level < 16,
            tick <= 20_833,
    ;
    assert((LEVELS - level) * tick <= LEVELS * MAX_TICK_TIME) by (nonlinear_arith)
        requires
            level < 16,
            tick <= 20_833,
    ;
}

/// For a frame rate of `frame_rate` hertz, the tick is `frame_rate`'s share
/// of a second over three channels of `LEVELS` ticks each, truncated; and a
/// full cycle of three steps never takes longer than one frame period.
pub proof fn lemma_tick_time(frame_rate: nat)
    requires
        frame_rate > 0,
    ensures
        tick_time_of(frame_rate) == MICROS_PER_SECOND as nat / (3 * frame_rate * LEVELS as nat),
        3 * LEVELS * tick_time_of(frame_rate) * frame_rate <= MICROS_PER_SECOND,
{
    let d = 3 * frame_rate * LEVELS as nat;
    assert(d > 0) by (nonlinear_arith)
        requires
            d == 3 * frame_rate * 16,
            frame_rate > 0,
    ;
    vstd::arithmetic::div_mod::lemma_fundamental_div_mod(MICROS_PER_SECOND as int, d as int);
    let q = tick_time_of(frame_rate);
    assert(3 * LEVELS * q * frame_rate == d * q) by (nonlinear_arith)
        requires
            d == 3 * frame_rate * 16,
    ;
}

/// Whatever the level in `[0, LEVELS)`, a step takes exactly `LEVELS` ticks:
/// `level` ticks high and `LEVELS - level` ticks low.
pub proof fn lemma_step_duration(t: StepTiming, level: nat, tick: nat)
    requires
        level < LEVELS,
        t.is_step_of(level, tick),
    ensures
        t.high_time() == level * tick,
        t.low_time() == (LEVELS - level) * tick,
        t.duration() == LEVELS * tick,
{
    assert(level * tick + (LEVELS - level) * tick == LEVELS * tick) by (nonlinear_arith);
}

/// At level 0 a step never drives the pin high and stays low for all
/// `LEVELS` ticks.
pub proof fn lemma_step_dark(t: StepTiming, tick: nat)
    requires
        t.is_step_of(0, tick),
    ensures
        !t.drive_high,
        t.high_time() == 0,
        t.low_time() == LEVELS * tick,
{
    lemma_step_duration(t, 0, tick);
}

/// At the highest level a step is high for `LEVELS - 1` ticks and low for
/// one tick.
pub proof fn lemma_step_brightest(t: StepTiming, tick: nat)
    requires
        t.is_step_of((LEVELS - 1) as nat, tick),
    ensures
        t.drive_high,
        t.high_time() == (LEVELS - 1) * tick,
        t.low_time() == tick,
{
    lemma_step_duration(t, (LEVELS - 1) as nat, tick);
    assert((LEVELS - (LEVELS - 1) as nat) * tick == tick);
}

/// When the driver refreshes after two writes, its shadow copy holds the
/// second write's levels: the first is never observed.
pub proof fn lemma_coalescing<P>(s: SharedState, d: Rgb<P>, first: RgbLevels, second: RgbLevels)
    requires
        s.wf(),
        d.wf(),
        valid_levels(first),
        valid_levels(second),
    ensures
        d.with_shadow(s.with_levels(first).with_levels(second).rgb_view()).shadow_view()
            == second,
        d.with_shadow(s.with_levels(first).with_levels(second).rgb_view()).wf(),
        d.with_shadow(s.with_levels(first).with_levels(second).rgb_view()).tick_view()
            == d.tick_view(),
{
    lemma_store_then_read(s, first);
    lemma_store_then_read(s.with_levels(first), second);
}

/// A frame rate so high that a tick truncates to zero gives a driver whose
/// every step takes no time at all and never lights its channel for a
/// measurable time; the driver is still well formed.
pub proof fn lemma_degenerate_rate(frame_rate: nat, t: StepTiming, level: nat)
    requires
        frame_rate > 0,
        3 * frame_rate * LEVELS > MICROS_PER_SECOND,
        level < LEVELS,
        t.is_step_of(level, tick_time_of(frame_rate)),
    ensures
        tick_time_of(frame_rate) == 0,
        t.on_time == 0,
        t.off_time == 0,
        t.duration() == 0,
{
    let d = 3 * frame_rate * LEVELS as nat;
    vstd::arithmetic::div_mod::lemma_basic_div(MICROS_PER_SECOND as int, d as int);
    lemma_step_duration(t, level, 0);
}

} // verus!
