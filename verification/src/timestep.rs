//! Fixed-timestep scheduler: a residual-time accumulator that converts
//! irregular wall-clock frames into a deterministic sequence of logical
//! ticks at a fixed target rate. Each rendered frame the host calls `tick`
//! once with its monotonic clock reading, then runs one logical update per
//! `true` returned by `check_update_time` (or calls `drain_updates` once),
//! so that ticks are neither dropped nor duplicated under frame-rate jitter.
//!
//! All durations are held in nanoseconds, so no rounding error compounds
//! over long runs; `lemma_scheduler_no_drift` states the resulting accuracy.

use vstd::arithmetic::div_mod::{
    lemma_div_non_zero, lemma_fundamental_div_mod, lemma_fundamental_div_mod_converse,
    lemma_mod_pos_bound,
};
use vstd::arithmetic::mul::lemma_mul_is_distributive_add_other_way;
use vstd::pervasive::VecAdditionalExecFns;
use vstd::prelude::*;

verus! {

/// Nanoseconds in one second.
pub const NANOS_PER_SEC: u64 = 1_000_000_000;

/// How many frames the context logs durations for.
pub const TIME_LOG_FRAMES: usize = 200;

/// The frame duration the log is seeded with (16 ms, one 60 Hz frame).
pub const INITIAL_FRAME_NANOS: u64 = 16_000_000;

/// Nanoseconds in one logical tick at `fps` ticks per second.
pub open spec fn tick_nanos(fps: int) -> int {
    (NANOS_PER_SEC as int) / fps
}

/// One tick's duration at `fps` ticks per second, in nanoseconds.
pub fn fps_as_duration(fps: u32) -> (dt: u64)
    requires
        1 <= fps,
    ensures
        dt == tick_nanos(fps as int),
{
    NANOS_PER_SEC / (fps as u64)
}

/// A buffer that fills up to a limit and then holds the last items pushed
/// into it, overwriting old ones in round-robin fashion. Items can never be
/// removed; the buffer just remembers the most recent ones.
#[derive(Debug, Clone)]
pub struct LogBuffer<T> {
    pub head: usize,
    pub size: usize,
    /// The number of samples inserted (starting at one, so that an average
    /// over the contents never divides by zero).
    pub samples: usize,
    pub contents: Vec<T>,
}

impl<T: Copy> LogBuffer<T> {
    /// The shape every buffer keeps: at least one slot, the cursor inside
    /// the slots, the recorded size equal to the slot count, and at least
    /// the seed sample counted.
    pub open spec fn wf(self) -> bool {
        &&& 1 <= self.contents.len()
        &&& self.head < self.contents.len()
        &&& self.size == self.contents.len()
        &&& 1 <= self.samples
    }

    /// A buffer of `size` slots, each holding `init_val`.
    pub fn new(size: usize, init_val: T) -> (buf: LogBuffer<T>)
        requires
            1 <= size,
        ensures
            buf.wf(),
            buf.head == 0,
            buf.samples == 1,
            buf.contents@.len() == size,
            forall|j: int| 0 <= j < size ==> buf.contents@[j] == init_val,
    {
        let mut contents: Vec<T> = Vec::new();
        let mut i: usize = 0;
        while i < size
            invariant
                i <= size,
                contents@.len() == i,
                forall|j: int| 0 <= j < i ==> contents@[j] == init_val,
            decreases size - i,
        {
            contents.push(init_val);
            i = i + 1;
        }
        LogBuffer { head: 0, size, samples: 1, contents }
    }

    /// Pushes a new item, overwriting the oldest slot.
    pub fn push(&mut self, item: T)
        requires
            old(self).wf(),
            old(self).samples < usize::MAX,
        ensures
            final(self).wf(),
            final(self).head == (old(self).head + 1) % (old(self).contents.len() as int),
            final(self).contents@ == old(self).contents@.update(final(self).head as int, item),
            final(self).size == old(self).size,
            final(self).samples == old(self).samples + 1,
    {
        self.head = (self.head + 1) % self.contents.len();
        self.contents.set(self.head, item);
        let slots = self.contents.len();
        self.size = if self.size < slots {
            self.size + 1
        } else {
            slots
        };
        self.samples = self.samples + 1;
    }

    /// The recorded samples: the whole buffer once it has wrapped, otherwise
    /// the first `samples` slots (unwritten slots hold the initial value, in
    /// no particular order once wrapped).
    pub fn contents(&self) -> (items: Vec<T>)
        requires
            self.wf(),
        ensures
            items@ == if self.samples > self.size {
                self.contents@
            } else {
                self.contents@.subrange(0, self.samples as int)
            },
    {
        let n = if self.samples > self.size {
            self.contents.len()
        } else {
            self.samples
        };
        let mut items: Vec<T> = Vec::new();
        let mut i: usize = 0;
        while i < n
            invariant
                i <= n <= self.contents.len(),
                items@.len() == i,
                forall|j: int| 0 <= j < i ==> items@[j] == self.contents@[j],
            decreases n - i,
        {
            items.push(self.contents[i]);
            i = i + 1;
        }
        proof {
            if self.samples > self.size {
                assert(items@ =~= self.contents@);
            } else {
                assert(items@ =~= self.contents@.subrange(0, self.samples as int));
            }
        }
        items
    }

    /// The most recently pushed item (the seed value if none was pushed).
    pub fn latest(&self) -> (item: T)
        requires
            self.wf(),
        ensures
            item == self.contents@[self.head as int],
    {
        self.contents[self.head]
    }
}

/// The time-tracking state: the last clock reading seen, a log of recent
/// frame durations, the residual accumulator of wall-clock time not yet
/// converted into logical ticks, and a frame counter. Clock readings are
/// nanoseconds on a monotonic clock whose zero is where the host starts
/// counting, ordinarily the moment this context is created.
#[derive(Debug)]
pub struct TimeContext {
    pub last_nanos: u64,
    pub frame_durations: LogBuffer<u64>,
    pub residual_update_dt: u64,
    pub frame_count: usize,
}

impl TimeContext {
    /// The shape every context keeps: a well-formed log whose sample count
    /// stays one ahead of the frame counter.
    pub open spec fn wf(self) -> bool {
        &&& self.frame_durations.wf()
        &&& self.frame_durations.samples == self.frame_count + 1
    }

    /// A fresh context: no residual time, no frames counted, the clock at
    /// its zero, and the duration log seeded — its cursor at the first
    /// slot and every one of its `TIME_LOG_FRAMES` slots holding the
    /// default frame duration.
    pub fn new() -> (t: TimeContext)
        ensures
            t.wf(),
            t.last_nanos == 0,
            t.residual_update_dt == 0,
            t.frame_count == 0,
            t.frame_durations.head == 0,
            t.frame_durations.contents@.len() == TIME_LOG_FRAMES,
            forall|j: int|
                0 <= j < TIME_LOG_FRAMES ==> t.frame_durations.contents@[j] == INITIAL_FRAME_NANOS,
    {
        TimeContext {
            last_nanos: 0,
            frame_durations: LogBuffer::new(TIME_LOG_FRAMES, INITIAL_FRAME_NANOS),
            residual_update_dt: 0,
            frame_count: 0,
        }
    }

    /// Records that another frame has taken place, at clock reading
    /// `now_nanos`: the time elapsed since the previous frame is logged and
    /// added, in full, to the residual accumulator. Call once per rendered
    /// frame, before polling for logical ticks.
    pub fn tick(&mut self, now_nanos: u64)
        requires
            old(self).wf(),
            old(self).last_nanos <= now_nanos,
            old(self).residual_update_dt + (now_nanos - old(self).last_nanos) <= u64::MAX,
            old(self).frame_count + 1 < usize::MAX,
        ensures
            final(self).wf(),
            final(self).last_nanos == now_nanos,
            final(self).residual_update_dt == old(self).residual_update_dt + (now_nanos
                - old(self).last_nanos),
            final(self).frame_count == old(self).frame_count + 1,
            final(self).frame_durations.head == (old(self).frame_durations.head + 1) % (old(
                self,
            ).frame_durations.contents.len() as int),
            final(self).frame_durations.contents@ == old(self).frame_durations.contents@.update(
                final(self).frame_durations.head as int,
                (now_nanos - old(self).last_nanos) as u64,
            ),
    {
        let time_since_last = now_nanos - self.last_nanos;
        self.frame_durations.push(time_since_last);
        self.last_nanos = now_nanos;
        self.frame_count = self.frame_count + 1;
        self.residual_update_dt = self.residual_update_dt + time_since_last;
    }
}

impl Default for TimeContext {
    /// Same as `TimeContext::new`.
    fn default() -> (t: TimeContext)
        ensures
            t.wf(),
            t.last_nanos == 0,
            t.residual_update_dt == 0,
            t.frame_count == 0,
            t.frame_durations.head == 0,
            t.frame_durations.contents@.len() == TIME_LOG_FRAMES,
            forall|j: int|
                0 <= j < TIME_LOG_FRAMES ==> t.frame_durations.contents@[j] == INITIAL_FRAME_NANOS,
    {
        TimeContext::new()
    }
}

/// One scheduler poll: if the residual accumulator holds at least one tick's
/// duration at `target_fps`, subtracts that duration and returns true,
/// signalling that one more logical update should run now. The host loops
/// calling this until it returns false.
///
/// The first clause is the accumulator guarantee: this never returns true
/// unless at least one full tick-duration of residual time has built up.
pub fn check_update_time(timedata: &mut TimeContext, target_fps: u32) -> (run: bool)
    requires
        1 <= target_fps <= NANOS_PER_SEC,
    ensures
        run == (old(timedata).residual_update_dt >= tick_nanos(target_fps as int)),
        run ==> final(timedata).residual_update_dt == old(timedata).residual_update_dt
            - tick_nanos(target_fps as int),
        !run ==> final(timedata).residual_update_dt == old(timedata).residual_update_dt,
        final(timedata).last_nanos == old(timedata).last_nanos,
        final(timedata).frame_count == old(timedata).frame_count,
        final(timedata).frame_durations == old(timedata).frame_durations,
{
    let target_dt = fps_as_duration(target_fps);
    if timedata.residual_update_dt >= target_dt {
        timedata.residual_update_dt = timedata.residual_update_dt - target_dt;
        true
    } else {
        false
    }
}

/// Polls `check_update_time` until the accumulator holds less than one tick,
/// returning how many logical updates the host must run for this frame: the
/// accumulator is left holding exactly the division remainder, so no time is
/// ever dropped or counted twice.
pub fn drain_updates(timedata: &mut TimeContext, target_fps: u32) -> (n: u64)
    requires
        1 <= target_fps <= NANOS_PER_SEC,
    ensures
        n == old(timedata).residual_update_dt as int / tick_nanos(target_fps as int),
        final(timedata).residual_update_dt == old(timedata).residual_update_dt as int % tick_nanos(
            target_fps as int,
        ),
        final(timedata).last_nanos == old(timedata).last_nanos,
        final(timedata).frame_count == old(timedata).frame_count,
        final(timedata).frame_durations == old(timedata).frame_durations,
{
    let ghost dt: int = tick_nanos(target_fps as int);
    let ghost r0: int = timedata.residual_update_dt as int;
    proof {
        lemma_div_non_zero(NANOS_PER_SEC as int, target_fps as int);
    }
    let mut n: u64 = 0;
    loop
        invariant
            1 <= target_fps <= NANOS_PER_SEC,
            dt == tick_nanos(target_fps as int),
            1 <= dt,
            n as int * dt + timedata.residual_update_dt as int == r0,
            r0 == old(timedata).residual_update_dt as int,
            timedata.last_nanos == old(timedata).last_nanos,
            timedata.frame_count == old(timedata).frame_count,
            timedata.frame_durations == old(timedata).frame_durations,
        decreases timedata.residual_update_dt,
    {
        if !check_update_time(timedata, target_fps) {
            proof {
                lemma_fundamental_div_mod_converse(
                    r0,
                    dt,
                    n as int,
                    timedata.residual_update_dt as int,
                );
            }
            return n;
        }
        proof {
            lemma_mul_is_distributive_add_other_way(dt, n as int, 1);
            assert(n as int + 1 <= (n as int + 1) * dt) by (nonlinear_arith)
                requires
                    1 <= dt,
                    0 <= n as int,
            ;
        }
        n = n + 1;
    }
}

/// The wall-clock total of a sequence of per-frame elapsed durations.
pub open spec fn total_nanos(s: Seq<int>) -> int
    decreases s.len(),
{
    if s.len() == 0 {
        0
    } else {
        total_nanos(s.drop_last()) + s.last()
    }
}

/// The residual left in the accumulator after feeding the scheduler the
/// elapsed durations `s`, one `tick` and one full drain per frame, with a
/// tick duration of `dt` nanoseconds.
pub open spec fn run_residual(s: Seq<int>, dt: int) -> int
    decreases s.len(),
{
    if s.len() == 0 {
        0
    } else {
        (run_residual(s.drop_last(), dt) + s.last()) % dt
    }
}

/// The total number of logical ticks emitted over the same run.
pub open spec fn run_ticks(s: Seq<int>, dt: int) -> int
    decreases s.len(),
{
    if s.len() == 0 {
        0
    } else {
        run_ticks(s.drop_last(), dt) + (run_residual(s.drop_last(), dt) + s.last()) / dt
    }
}

/// Law: the scheduler does not drift. For every sequence of elapsed
/// wall-clock durations fed to it — however long and however irregular —
/// the total number of logical ticks emitted is exactly the elapsed total
/// divided by the tick duration, rounded down, and the accumulator holds
/// exactly the remainder: the tick count is always within one tick of
/// `elapsed_time * target_rate`, with no error accumulating across frames.
pub proof fn lemma_scheduler_no_drift(s: Seq<int>, dt: int)
    requires
        0 < dt,
        forall|i: int| 0 <= i < s.len() ==> 0 <= s[i],
    ensures
        run_ticks(s, dt) == total_nanos(s) / dt,
        run_residual(s, dt) == total_nanos(s) % dt,
        0 <= total_nanos(s),
    decreases s.len(),
{
    if s.len() == 0 {
        lemma_fundamental_div_mod_converse(0, dt, 0, 0);
    } else {
        let s0 = s.drop_last();
        let e = s.last();
        assert(forall|i: int| 0 <= i < s0.len() ==> 0 <= s0[i]);
        lemma_scheduler_no_drift(s0, dt);
        let t0 = total_nanos(s0);
        let q0 = t0 / dt;
        let r0 = run_residual(s0, dt);
        let q = (r0 + e) / dt;
        lemma_mod_pos_bound(t0, dt);
        lemma_fundamental_div_mod(t0, dt);
        lemma_fundamental_div_mod(r0 + e, dt);
        lemma_mod_pos_bound(r0 + e, dt);
        lemma_mul_is_distributive_add_other_way(dt, q0, q);
        lemma_fundamental_div_mod_converse(t0 + e, dt, q0 + q, (r0 + e) % dt);
    }
}

} // verus!
