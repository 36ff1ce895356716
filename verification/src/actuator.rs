//! Debounced volume actuator.
//!
//! A [`VolumeActuator`] holds the most recently requested volume level and a
//! minimum interval between writes to the operating system's volume. A burst
//! of requests inside one interval is coalesced: every request records its
//! level, but only a request that arrives once the interval has elapsed
//! produces a write — and that write carries the requesting call's own,
//! latest, level. The write itself is a platform call made by the caller;
//! the actuator only decides whether one is due and with which level.

use vstd::prelude::*;

verus! {

/// Largest level the actuator accepts, in tenths: 10.0 on the operating
/// system's 0–10 scale.
pub const MAX_SCALE_TENTHS: u32 = 100;

/// The most-recent-value slot and debounce clock of the volume path.
///
/// Levels are tenths of a volume unit; times are milliseconds on a
/// monotonic clock supplied by the caller.
pub struct VolumeActuator {
    /// Most recently requested level, in tenths of a volume unit.
    pub current_level: u32,
    /// Minimum interval between two writes to the OS volume, in milliseconds.
    pub sample_interval_ms: u64,
    /// Time of the last write issued to the OS volume, in milliseconds.
    pub last_write_time_ms: u64,
}

impl VolumeActuator {
    /// Well-formedness: the debounce interval is positive and the level is
    /// on the operating system's scale.
    pub open spec fn wf(self) -> bool {
        &&& self.sample_interval_ms >= 1
        &&& self.current_level <= MAX_SCALE_TENTHS
    }

    /// What one `set` call does: the level is always recorded; a write is
    /// emitted, and the write clock advanced, exactly when the debounce
    /// interval has elapsed since the last write.
    pub open spec fn set_spec(self, level: u32, now_ms: u64) -> (VolumeActuator, Option<u32>) {
        if now_ms - self.last_write_time_ms >= self.sample_interval_ms {
            (
                VolumeActuator {
                    current_level: level,
                    last_write_time_ms: now_ms,
                    ..self
                },
                Some(level),
            )
        } else {
            (VolumeActuator { current_level: level, ..self }, None)
        }
    }

    /// Creates an actuator holding `initial_level`, with its write clock
    /// starting at `now_ms`.
    pub fn new(initial_level: u32, sample_interval_ms: u64, now_ms: u64) -> (a: VolumeActuator)
        requires
            initial_level <= MAX_SCALE_TENTHS,
            sample_interval_ms >= 1,
        ensures
            a.wf(),
            a.current_level == initial_level,
            a.sample_interval_ms == sample_interval_ms,
            a.last_write_time_ms == now_ms,
    {
        VolumeActuator { current_level: initial_level, sample_interval_ms, last_write_time_ms: now_ms }
    }

    /// Records `level` as the current target and returns `Some(level)` when
    /// the caller must write it to the OS volume now, `None` when the write
    /// is suppressed by the debounce window. No write is ever queued: a
    /// suppressed write is superseded by whatever level the next due call
    /// carries.
    pub fn set(&mut self, level: u32, now_ms: u64) -> (write: Option<u32>)
        requires
            old(self).wf(),
            level <= MAX_SCALE_TENTHS,
            now_ms >= old(self).last_write_time_ms,
        ensures
            final(self).wf(),
            (*final(self), write) == old(self).set_spec(level, now_ms),
            final(self).current_level == level,
            final(self).sample_interval_ms == old(self).sample_interval_ms,
    {
        self.current_level = level;
        if now_ms - self.last_write_time_ms >= self.sample_interval_ms {
            self.last_write_time_ms = now_ms;
            Some(level)
        } else {
            None
        }
    }

    /// Reads the debounce interval, in milliseconds.
    pub fn get_sleep_time(&self) -> (ms: u64)
        ensures
            ms == self.sample_interval_ms,
    {
        self.sample_interval_ms
    }

    /// Replaces the debounce interval. An already open debounce window is
    /// judged against the new interval on the next `set`.
    pub fn set_sleep_time(&mut self, sample_interval_ms: u64)
        requires
            old(self).wf(),
            sample_interval_ms >= 1,
        ensures
            final(self).wf(),
            final(self).sample_interval_ms == sample_interval_ms,
            final(self).current_level == old(self).current_level,
            final(self).last_write_time_ms == old(self).last_write_time_ms,
    {
        self.sample_interval_ms = sample_interval_ms;
    }
}

/// The actuator state after a sequence of `set` calls, each a pair of
/// requested level and call time.
pub open spec fn apply_sets(a: VolumeActuator, calls: Seq<(u32, u64)>) -> VolumeActuator
    decreases calls.len(),
{
    if calls.len() == 0 {
        a
    } else {
        apply_sets(a.set_spec(calls[0].0, calls[0].1).0, calls.drop_first())
    }
}

/// The writes that a sequence of `set` calls asks the caller to issue, in
/// order.
pub open spec fn writes_of_sets(a: VolumeActuator, calls: Seq<(u32, u64)>) -> Seq<u32>
    decreases calls.len(),
{
    if calls.len() == 0 {
        Seq::empty()
    } else {
        let (a2, w) = a.set_spec(calls[0].0, calls[0].1);
        (match w {
            Some(l) => seq![l],
            None => Seq::empty(),
        }) + writes_of_sets(a2, calls.drop_first())
    }
}

/// Law: a burst of `set` calls that all fall inside one debounce window
/// issues no write at all, yet leaves the latest requested level in place
/// and the write clock untouched; the first call at or after the close of
/// the window then writes exactly its own level.
pub proof fn lemma_burst_coalesced(a: VolumeActuator, calls: Seq<(u32, u64)>, level: u32, t: u64)
    requires
        a.wf(),
        forall|i: int|
            0 <= i < calls.len() ==> (#[trigger] calls[i]).0 <= MAX_SCALE_TENTHS
                && a.last_write_time_ms <= calls[i].1
                && calls[i].1 - a.last_write_time_ms < a.sample_interval_ms,
        t - a.last_write_time_ms >= a.sample_interval_ms,
    ensures
        writes_of_sets(a, calls) == Seq::<u32>::empty(),
        apply_sets(a, calls).last_write_time_ms == a.last_write_time_ms,
        apply_sets(a, calls).sample_interval_ms == a.sample_interval_ms,
        calls.len() > 0 ==> apply_sets(a, calls).current_level == calls.last().0,
        apply_sets(a, calls).set_spec(level, t).1 == Some(level),
    decreases calls.len(),
{
    if calls.len() == 0 {
    } else {
        let (a2, w) = a.set_spec(calls[0].0, calls[0].1);
        assert(w is None);
        lemma_burst_coalesced(a2, calls.drop_first(), level, t);
        assert(writes_of_sets(a, calls) =~= Seq::<u32>::empty());
        if calls.len() > 1 {
            assert(calls.drop_first().last() == calls.last());
        }
    }
}

} // verus!
