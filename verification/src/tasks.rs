//! Decisions of the platform's periodic tasks.

use vstd::prelude::*;

verus! {

/// Number of low-acceleration readings in a row that count as a fall.
pub const FALL_READINGS: i32 = 4;

/// The number of readings at the end of `readings` that are all low (`true`):
/// the run of low readings that a fall detector has counted after seeing
/// them in order.
pub open spec fn fall_count(readings: Seq<bool>) -> nat
    decreases readings.len(),
{
    if readings.len() == 0 {
        0
    } else if readings.last() {
        fall_count(readings.drop_last()) + 1
    } else {
        0
    }
}

/// Whether the last `FALL_READINGS` of `readings` are all low.
pub open spec fn ends_in_fall(readings: Seq<bool>) -> bool {
    &&& readings.len() >= FALL_READINGS
    &&& forall|i: int| readings.len() - FALL_READINGS <= i < readings.len() ==> #[trigger] readings[i]
}

/// Whether some `FALL_READINGS` readings in a row of `readings` are all low.
pub open spec fn has_fall(readings: Seq<bool>) -> bool {
    exists|j: int|
        0 <= j && j + FALL_READINGS <= readings.len() && #[trigger] all_low(readings, j)
}

/// Whether the `FALL_READINGS` readings from index `j` on are all low.
pub open spec fn all_low(readings: Seq<bool>, j: int) -> bool {
    forall|i: int| j <= i < j + FALL_READINGS ==> #[trigger] readings[i]
}

/// Counts readings in a row whose acceleration is below the fall threshold.
pub struct FallDetector {
    low_readings: i32,
}

impl FallDetector {
    /// The count is never negative.
    #[verifier::type_invariant]
    spec fn count_is_natural(&self) -> bool {
        self.low_readings >= 0
    }

    /// The number of low readings in a row so far.
    pub closed spec fn run_length(&self) -> int {
        self.low_readings as int
    }

    /// No reading yet.
    pub fn new() -> (d: Self)
        ensures
            d.run_length() == 0,
            d.run_length() == fall_count(Seq::empty()),
    {
        Self { low_readings: 0 }
    }

    /// The number of low readings in a row so far.
    pub fn low_readings(&self) -> (n: i32)
        ensures
            n == self.run_length(),
            n >= 0,
    {
        proof {
            use_type_invariant(self);
        }
        self.low_readings
    }

    /// Records one reading, `below_threshold` telling whether its
    /// acceleration was below the threshold; the result tells whether the
    /// last four or more readings were all low, that is, whether the platform
    /// is falling.
    pub fn observe(&mut self, below_threshold: bool) -> (fall: bool)
        requires
            below_threshold ==> old(self).run_length() < i32::MAX,
        ensures
            final(self).run_length() == if below_threshold {
                old(self).run_length() + 1
            } else {
                0
            },
            fall == (final(self).run_length() >= FALL_READINGS),
            forall|readings: Seq<bool>|
                old(self).run_length() == fall_count(readings) ==> final(self).run_length()
                    == #[trigger] fall_count(readings.push(below_threshold)),
    {
        proof {
            use_type_invariant(&*self);
            assert forall|readings: Seq<bool>|
                old(self).run_length() == fall_count(readings) implies #[trigger] fall_count(
                readings.push(below_threshold)) == if below_threshold {
                old(self).run_length() + 1
            } else {
                0
            } by {
                assert(readings.push(below_threshold).drop_last() =~= readings);
            }
        }
        if below_threshold {
            self.low_readings = self.low_readings + 1;
        } else {
            self.low_readings = 0;
        }
        FALL_READINGS <= self.low_readings
    }
}

/// A fall detector that has seen `readings` reports a fall exactly when the
/// last four of them were all low.
pub proof fn lemma_fall_iff_last_four_low(readings: Seq<bool>)
    ensures
        fall_count(readings) >= FALL_READINGS <==> ends_in_fall(readings),
    decreases readings.len(),
{
    let n = readings.len() as int;
    if n == 0 {
    } else {
        let init = readings.drop_last();
        assert forall|i: int| 0 <= i < n - 1 implies #[trigger] init[i] == readings[i] by {}
        lemma_fall_iff_last_four_low(init);
        if readings.last() {
            lemma_run_is_low(init);
            if fall_count(readings) >= FALL_READINGS {
                assert forall|i: int| n - FALL_READINGS <= i < n implies #[trigger] readings[i] by {
                    if i < n - 1 {
                        assert(init[i]);
                    }
                }
            } else if ends_in_fall(readings) {
                lemma_low_run_is_counted(readings, n - FALL_READINGS);
            }
        } else {
            assert(!readings[n - 1]);
        }
    }
}

/// The readings that a fall detector counts as a run are all low.
proof fn lemma_run_is_low(readings: Seq<bool>)
    ensures
        fall_count(readings) <= readings.len(),
        forall|i: int|
            readings.len() - fall_count(readings) <= i < readings.len() ==> #[trigger] readings[i],
    decreases readings.len(),
{
    if readings.len() > 0 && readings.last() {
        let init = readings.drop_last();
        lemma_run_is_low(init);
        assert forall|i: int|
            readings.len() - fall_count(readings) <= i < readings.len() implies #[trigger] readings[i] by {
            if i < readings.len() - 1 {
                assert(init[i] == readings[i]);
            }
        }
    }
}

/// A run of low readings from index `j` to the end is counted in full.
proof fn lemma_low_run_is_counted(readings: Seq<bool>, j: int)
    requires
        0 <= j <= readings.len(),
        forall|i: int| j <= i < readings.len() ==> #[trigger] readings[i],
    ensures
        fall_count(readings) >= readings.len() - j,
    decreases readings.len(),
{
    if j < readings.len() {
        let init = readings.drop_last();
        assert(readings[readings.len() - 1]);
        assert forall|i: int| j <= i < init.len() implies #[trigger] init[i] by {
            assert(init[i] == readings[i]);
        }
        lemma_low_run_is_counted(init, j);
    }
}

/// Fed `readings` one by one, a fall detector reports a fall after some
/// reading exactly when four readings in a row among them are all low, and
/// the first report comes with the fourth of those readings.
pub proof fn lemma_fall_reported_iff_four_low_in_a_row(readings: Seq<bool>)
    ensures
        (exists|k: int|
            FALL_READINGS <= k <= readings.len() && #[trigger] fall_count(readings.take(k))
                >= FALL_READINGS) <==> has_fall(readings),
        forall|k: int|
            0 <= k < FALL_READINGS && k <= readings.len() ==> #[trigger] fall_count(
                readings.take(k),
            ) < FALL_READINGS,
{
    assert forall|k: int|
        0 <= k < FALL_READINGS && k <= readings.len() implies #[trigger] fall_count(
        readings.take(k),
    ) < FALL_READINGS by {
        lemma_run_is_low(readings.take(k));
    }
    if has_fall(readings) {
        let j = choose|j: int|
            0 <= j && j + FALL_READINGS <= readings.len() && #[trigger] all_low(readings, j);
        let k = j + FALL_READINGS;
        let prefix = readings.take(k);
        assert forall|i: int|
            prefix.len() - FALL_READINGS <= i < prefix.len() implies #[trigger] prefix[i] by {
            assert(all_low(readings, j));
            assert(prefix[i] == readings[i]);
        }
        lemma_fall_iff_last_four_low(prefix);
        assert(fall_count(readings.take(k)) >= FALL_READINGS);
    }
    if exists|k: int|
        FALL_READINGS <= k <= readings.len() && #[trigger] fall_count(readings.take(k))
            >= FALL_READINGS {
        let k = choose|k: int|
            FALL_READINGS <= k <= readings.len() && #[trigger] fall_count(readings.take(k))
                >= FALL_READINGS;
        let prefix = readings.take(k);
        lemma_fall_iff_last_four_low(prefix);
        let j = k - FALL_READINGS;
        assert forall|i: int| j <= i < j + FALL_READINGS implies #[trigger] readings[i] by {
            assert(prefix[i] == readings[i]);
            assert(prefix[i]);
        }
        assert(all_low(readings, j));
    }
}

/// Whether beat number `ticks` (counting from zero) is sent to the
/// subscribers that want every `every`-th beat.
pub fn beat_is_due(ticks: usize, every: usize) -> (due: bool)
    requires
        every > 0,
    ensures
        due == (ticks % every == 0),
{
    ticks % every == 0
}

} // verus!
