//! Pipeline bookkeeping: the trailing-throughput rate window, the
//! reporting loop's counters, and the startup decisions (resume point,
//! chain identity).

use vstd::prelude::*;

use std::collections::VecDeque;

verus! {

broadcast use vstd::std_specs::vecdeque::group_vec_dequeue_axioms;

/// The sum of the sample values of a window.
pub open spec fn spec_window_sum(s: Seq<(u64, u64)>) -> int
    decreases s.len(),
{
    if s.len() == 0 {
        0
    } else {
        spec_window_sum(s.drop_last()) + s.last().1
    }
}

/// Sample timestamps in arrival order never decrease.
pub open spec fn timestamps_sorted(s: Seq<(u64, u64)>) -> bool {
    forall|i: int, j: int| 0 <= i < j < s.len() ==> (#[trigger] s[i]).0 <= (#[trigger] s[j]).0
}

/// A window after eviction: the longest prefix of samples older than the
/// window, measured from `now`, is dropped.
pub open spec fn spec_evicted(s: Seq<(u64, u64)>, now: int, window: int) -> Seq<(u64, u64)>
    decreases s.len(),
{
    if s.len() > 0 && now - s[0].0 > window {
        spec_evicted(s.drop_first(), now, window)
    } else {
        s
    }
}

/// A time-windowed sum of processed counts, yielding a trailing
/// throughput estimate. Purely in memory; rebuilt on restart.
#[derive(Debug)]
pub struct MovingAverage {
    pub window_millis: u64,
    pub values: VecDeque<(u64, u64)>,
    pub sum: u64,
}

impl MovingAverage {
    /// Samples are kept in arrival order with non-decreasing timestamps,
    /// and `sum` is the sum of their values.
    pub open spec fn spec_well_formed(&self) -> bool {
        &&& self.sum == spec_window_sum(self.values@)
        &&& timestamps_sorted(self.values@)
    }

    pub open spec fn spec_window_millis(&self) -> u64 {
        self.window_millis
    }

    pub open spec fn spec_values(&self) -> Seq<(u64, u64)> {
        self.values@
    }

    pub open spec fn spec_sum(&self) -> u64 {
        self.sum
    }

    pub fn new(window_millis: u64) -> (r: Self)
        ensures
            r.spec_well_formed(),
            r.spec_window_millis() == window_millis,
            r.spec_values() == Seq::<(u64, u64)>::empty(),
    {
        let r = MovingAverage { window_millis, values: VecDeque::new(), sum: 0 };
        proof {
            assert(r.values@ =~= Seq::<(u64, u64)>::empty());
        }
        r
    }

    /// Appends a sample and evicts every sample older than the window,
    /// measured from the new sample's timestamp.
    #[verifier::loop_isolation(false)]
    pub fn tick(&mut self, timestamp_millis: u64, value: u64)
        requires
            old(self).spec_well_formed(),
            old(self).spec_values().len() > 0 ==> old(self).spec_values().last().0
                <= timestamp_millis,
            old(self).spec_sum() + value <= u64::MAX,
        ensures
            final (self).spec_well_formed(),
            final (self).spec_window_millis() == old(self).spec_window_millis(),
            final (self).spec_values() == spec_evicted(
                old(self).spec_values().push((timestamp_millis, value)),
                timestamp_millis as int,
                old(self).spec_window_millis() as int,
            ),
    {
        proof {
            lemma_window_sum_bounds(self.values@);
        }
        self.values.push_back((timestamp_millis, value));
        self.sum = self.sum + value;
        let ghost pushed = self.values@;
        proof {
            assert(pushed.drop_last() =~= old(self).values@);
            assert(self.sum == spec_window_sum(pushed));
        }
        loop
            invariant
                self.window_millis == old(self).spec_window_millis(),
                self.sum == spec_window_sum(self.values@),
                self.values@.len() > 0,
                self.values@.last() == (timestamp_millis, value),
                timestamps_sorted(self.values@),
                spec_evicted(pushed, timestamp_millis as int, self.window_millis as int)
                    == spec_evicted(
                    self.values@,
                    timestamp_millis as int,
                    self.window_millis as int,
                ),
            decreases self.values@.len(),
        {
            let front = self.values[0];
            if timestamp_millis - front.0 > self.window_millis {
                let ghost pre = self.values@;
                let popped = self.values.pop_front();
                proof {
                    lemma_window_sum_first(pre);
                    assert(pre.drop_first() =~= self.values@);
                }
                self.sum = self.sum - popped.unwrap().1;
            } else {
                break ;
            }
        }
    }

    /// Appends a sample stamped with the wall clock; a clock that ran
    /// backwards is clamped to the newest sample's timestamp, so the
    /// window stays ordered.
    pub fn tick_now(&mut self, value: u64)
        requires
            old(self).spec_well_formed(),
            old(self).spec_sum() + value <= u64::MAX,
        ensures
            final (self).spec_well_formed(),
            final (self).spec_window_millis() == old(self).spec_window_millis(),
            exists|t: u64|
                final (self).spec_values() == spec_evicted(
                    old(self).spec_values().push((t, value)),
                    t as int,
                    old(self).spec_window_millis() as int,
                ),
    {
        let now = now_millis();
        let t = if self.values.len() > 0 {
            let last = self.values[self.values.len() - 1];
            if now < last.0 {
                last.0
            } else {
                now
            }
        } else {
            now
        };
        self.tick(t, value);
    }

    /// The trailing throughput in values per second: the windowed sum
    /// over the elapsed span between the oldest and newest samples,
    /// scaled to seconds; zero until two samples are in the window, and
    /// clamped to what a `u64` holds.
    pub fn rate_per_second(&self) -> (r: u64)
        requires
            self.spec_well_formed(),
        ensures
            r as int == spec_rate_per_second(self.spec_values(), self.spec_sum() as int),
    {
        let n = self.values.len();
        if n < 2 {
            return 0;
        }
        let first = self.values[0];
        let last = self.values[n - 1];
        let elapsed = last.0 - first.0;
        if elapsed == 0 {
            return 0;
        }
        let scaled = (self.sum as u128) * 1000u128 / (elapsed as u128);
        if scaled > u64::MAX as u128 {
            u64::MAX
        } else {
            scaled as u64
        }
    }

    /// How many samples the window holds.
    pub fn sample_count(&self) -> (r: usize)
        ensures
            r == self.spec_values().len(),
    {
        self.values.len()
    }

    /// The windowed sum.
    pub fn sum(&self) -> (r: u64)
        ensures
            r == self.spec_sum(),
    {
        self.sum
    }

    /// The span in milliseconds between the oldest and newest samples;
    /// zero until two samples are in the window.
    pub fn elapsed_millis(&self) -> (r: u64)
        requires
            self.spec_well_formed(),
        ensures
            r as int == if self.spec_values().len() < 2 {
                0
            } else {
                self.spec_values().last().0 - self.spec_values()[0].0
            },
    {
        let n = self.values.len();
        if n < 2 {
            0
        } else {
            self.values[n - 1].0 - self.values[0].0
        }
    }
}

/// The throughput a window reports: sum over elapsed milliseconds,
/// scaled to seconds, zero below two samples or zero elapsed time,
/// clamped to a `u64`.
pub open spec fn spec_rate_per_second(s: Seq<(u64, u64)>, sum: int) -> int {
    if s.len() < 2 {
        0
    } else {
        let elapsed = s.last().0 - s[0].0;
        if elapsed == 0 {
            0
        } else {
            let scaled = sum * 1000 / elapsed;
            if scaled > u64::MAX as int {
                u64::MAX as int
            } else {
                scaled
            }
        }
    }
}

/// Only fresh samples survive eviction: with timestamps in order, every
/// sample left in the window lies within the window span of `now`.
pub proof fn lemma_window_contents(s: Seq<(u64, u64)>, now: int, window: int)
    requires
        timestamps_sorted(s),
    ensures
        forall|i: int|
            0 <= i < spec_evicted(s, now, window).len() ==> now - (#[trigger] spec_evicted(
                s,
                now,
                window,
            )[i]).0 <= window,
    decreases s.len(),
{
    if s.len() > 0 && now - s[0].0 > window {
        assert(timestamps_sorted(s.drop_first())) by {
            assert forall|i: int, j: int|
                0 <= i < j < s.drop_first().len() implies (#[trigger] s.drop_first()[i]).0 <= (
            #[trigger] s.drop_first()[j]).0 by {
                assert(s.drop_first()[i] == s[i + 1]);
                assert(s.drop_first()[j] == s[j + 1]);
            }
        }
        lemma_window_contents(s.drop_first(), now, window);
        assert(spec_evicted(s, now, window) == spec_evicted(s.drop_first(), now, window));
    } else if s.len() > 0 {
        assert(spec_evicted(s, now, window) == s);
        assert forall|i: int| 0 <= i < s.len() implies now - (#[trigger] s[i]).0 <= window by {
            assert(s[0].0 <= s[i].0);
        }
    }
}

proof fn lemma_window_sum_bounds(s: Seq<(u64, u64)>)
    ensures
        spec_window_sum(s) >= 0,
    decreases s.len(),
{
    if s.len() > 0 {
        lemma_window_sum_bounds(s.drop_last());
    }
}

/// The windowed sum splits off the first sample.
proof fn lemma_window_sum_first(s: Seq<(u64, u64)>)
    requires
        s.len() > 0,
    ensures
        spec_window_sum(s) == s[0].1 + spec_window_sum(s.drop_first()),
        spec_window_sum(s.drop_first()) >= 0,
    decreases s.len(),
{
    lemma_window_sum_bounds(s.drop_first());
    if s.len() == 1 {
        assert(s.drop_first() =~= Seq::<(u64, u64)>::empty());
        assert(s.drop_last() =~= Seq::<(u64, u64)>::empty());
    } else {
        lemma_window_sum_first(s.drop_last());
        assert(s.drop_last().drop_first() =~= s.drop_first().drop_last());
        assert(s.drop_last()[0] == s[0]);
        assert(s.drop_first().last() == s.last());
    }
}

/// Relies on chrono's `Utc::now`: the wall clock, of which nothing can
/// be promised.
#[verifier::external_body]
fn now_millis() -> u64 {
    chrono::Utc::now().timestamp_millis() as u64
}

/// The reporting loop's counters: total versions processed and the last
/// emission bucket.
#[derive(Debug)]
pub struct ReportingState {
    pub versions_processed: u64,
    pub base: u64,
}

impl ReportingState {
    pub fn new() -> (r: Self)
        ensures
            r.versions_processed == 0,
            r.base == 0,
    {
        ReportingState { versions_processed: 0, base: 0 }
    }

    /// Accounts one batch and decides whether a progress line is due:
    /// one is emitted whenever the running total crosses into a new
    /// `emit_every` bucket, and never when `emit_every` is zero.
    pub fn on_batch(&mut self, num_res: u64, emit_every: u64) -> (emit: bool)
        requires
            old(self).versions_processed + num_res <= u64::MAX,
        ensures
            final (self).versions_processed == old(self).versions_processed + num_res,
            emit == (emit_every != 0 && final (self).versions_processed / emit_every != old(
                self,
            ).base),
            final (self).base == if emit {
                final (self).versions_processed / emit_every
            } else {
                old(self).base
            },
    {
        self.versions_processed = self.versions_processed + num_res;
        if emit_every != 0 {
            let new_base = self.versions_processed / emit_every;
            if new_base != self.base {
                self.base = new_base;
                return true;
            }
        }
        false
    }
}

/// The version the pipeline starts fetching at: an explicit override
/// wins; otherwise the persisted cursor less the lookback window,
/// floored at zero; with no cursor, zero.
pub open spec fn spec_start_version(
    override_version: Option<u64>,
    cursor: Option<i64>,
    lookback_versions: i64,
) -> int {
    match override_version {
        Some(v) => v as int,
        None => match cursor {
            None => 0,
            Some(c) => {
                if c - lookback_versions > 0 {
                    c - lookback_versions
                } else {
                    0
                }
            },
        },
    }
}

/// Resolves the resume point at startup.
pub fn resolve_start_version(
    override_version: Option<u64>,
    cursor: Option<i64>,
    lookback_versions: i64,
) -> (r: u64)
    ensures
        r as int == spec_start_version(override_version, cursor, lookback_versions),
{
    match override_version {
        Some(v) => v,
        None => match cursor {
            None => 0,
            Some(c) => {
                let wide = (c as i128) - (lookback_versions as i128);
                if wide > 0 {
                    wide as u64
                } else {
                    0
                }
            },
        },
    }
}

/// What startup does about the persisted chain identity.
#[derive(Debug, Clone, Copy, PartialEq, Eq, Structural)]
pub enum ChainIdCheck {
    Matches,
    StoreNew,
}

/// Compares the node's chain identity against the persisted one: a match
/// proceeds, an absent record is stored, a mismatch is fatal (the wrong
/// network).
pub fn check_or_update_chain_id(stored: Option<u64>, node_chain_id: u64) -> (r: Result<
    ChainIdCheck,
    u64,
>)
    ensures
        match r {
            Ok(ChainIdCheck::Matches) => stored == Some(node_chain_id),
            Ok(ChainIdCheck::StoreNew) => stored is None,
            Err(found) => stored == Some(found) && found != node_chain_id,
        },
{
    match stored {
        None => Ok(ChainIdCheck::StoreNew),
        Some(s) => {
            if s == node_chain_id {
                Ok(ChainIdCheck::Matches)
            } else {
                Err(s)
            }
        },
    }
}

} // verus!
