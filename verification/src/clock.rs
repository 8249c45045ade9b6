//! Advancing the simulated clock. A slot's timestamp cannot be predicted,
//! so the controller warps ahead by a fixed number of slots, looks at the
//! clock again, and repeats until the clock has reached its target.
//!
//! The controller only decides; its driver warps the ledger and reads
//! the clock. It sets no limit on the number of warps: it ends on every
//! clock that advances with each warp, and on one that stands still it
//! asks for warps for ever.

use vstd::prelude::*;

verus! {

/// How many slots past the observed slot each warp asks for.
pub const WARP_SLOTS: u64 = 800;

/// Seconds in a minute.
pub const SECONDS_PER_MINUTE: u64 = 60;

/// What the harness reads of the ledger's clock.
#[derive(Clone, Copy, Debug, PartialEq, Eq, Structural)]
pub struct Clock {
    pub slot: u64,
    pub unix_timestamp: i64,
}

/// What the controller asks of its driver next.
#[derive(Clone, Copy, Debug, PartialEq, Eq, Structural)]
pub enum Step {
    /// Warp the ledger to `slot`, read the clock and report it.
    Warp { slot: u64 },
    /// The clock has reached the target.
    Done,
}

/// A fast-forward under way: the timestamp that the clock is to reach.
#[derive(Clone, Copy, Debug, PartialEq, Eq, Structural)]
pub struct FastForward {
    pub target: i64,
}

/// A fast-forward played against recorded clock readings: the slots it
/// asked to warp to, in order, and the reading at which it finished, if
/// it did.
#[derive(Clone, Debug, PartialEq, Eq)]
pub struct Run {
    pub warps: Vec<u64>,
    pub end: Option<Clock>,
}

/// The timestamp that a fast-forward of `seconds` from `start` is to
/// reach.
pub open spec fn deadline(start: Clock, seconds: int) -> int {
    start.unix_timestamp + seconds
}

/// The clock shows `target` or later.
pub open spec fn reached(target: int, clock: Clock) -> bool {
    clock.unix_timestamp >= target
}

/// The slot that a warp asks for when the clock shows `clock`.
pub open spec fn warp_slot(clock: Clock) -> int {
    clock.slot + WARP_SLOTS
}

/// The controller's answer to a clock reading.
pub open spec fn step_after(target: int, clock: Clock) -> Step {
    if reached(target, clock) {
        Step::Done
    } else {
        Step::Warp { slot: warp_slot(clock) as u64 }
    }
}

/// `readings[k]` is the first reading that has reached `target`.
pub open spec fn stops_at(target: int, readings: Seq<Clock>, k: int) -> bool {
    &&& 0 <= k < readings.len()
    &&& reached(target, readings[k])
    &&& forall|j: int| 0 <= j < k ==> !reached(target, #[trigger] readings[j])
}

/// No reading has reached `target`.
pub open spec fn never_reached(target: int, readings: Seq<Clock>) -> bool {
    forall|j: int| 0 <= j < readings.len() ==> !reached(target, #[trigger] readings[j])
}

/// The slots of the first `count` warps: the first one is asked for at
/// `start`, each later one at the reading before it.
pub open spec fn requested_slots(start: Clock, readings: Seq<Clock>, count: int) -> Seq<u64> {
    Seq::new(
        count as nat,
        |i: int|
            if i == 0 {
                warp_slot(start) as u64
            } else {
                warp_slot(readings[i - 1]) as u64
            },
    )
}

/// What a fast-forward from `start` to `target` does against `readings`:
/// if some reading has reached the target, it ends at the first one
/// that has, having asked for one warp per reading up to it; if none
/// has, it has asked for one warp more than there are readings.
pub open spec fn is_run(
    start: Clock,
    target: int,
    readings: Seq<Clock>,
    warps: Seq<u64>,
    end: Option<Clock>,
) -> bool {
    match end {
        Some(clock) => exists|k: int|
            {
                &&& #[trigger] stops_at(target, readings, k)
                &&& clock == readings[k]
                &&& warps == requested_slots(start, readings, k + 1)
            },
        None => {
            &&& never_reached(target, readings)
            &&& warps == requested_slots(start, readings, (readings.len() + 1) as int)
        },
    }
}

/// Every warp moves the clock's timestamp strictly forward.
pub open spec fn strictly_advancing(start: Clock, readings: Seq<Clock>) -> bool {
    &&& readings.len() > 0 ==> readings[0].unix_timestamp > start.unix_timestamp
    &&& forall|i: int|
        0 < i < readings.len() ==> (#[trigger] readings[i]).unix_timestamp > readings[i
            - 1].unix_timestamp
}

/// The most warps a fast-forward of `seconds` needs on a clock that
/// advances with every warp: one per second, and one in any case.
pub open spec fn warp_bound(seconds: int) -> int {
    if seconds < 1 {
        1
    } else {
        seconds
    }
}

/// A timestamp read as an unsigned number, with negative values wrapping
/// around as a cast does.
pub open spec fn timestamp_as_u64(unix_timestamp: i64) -> int {
    if unix_timestamp >= 0 {
        unix_timestamp as int
    } else {
        unix_timestamp + 0x1_0000_0000_0000_0000
    }
}

impl Clock {
    /// The clock's timestamp as an unsigned number of seconds.
    pub fn get_now_timestamp(&self) -> (now: u64)
        ensures
            now == timestamp_as_u64(self.unix_timestamp),
    {
        if self.unix_timestamp >= 0 {
            self.unix_timestamp as u64
        } else {
            let below: i64 = -(self.unix_timestamp + 1);
            u64::MAX - (below as u64)
        }
    }
}

impl FastForward {
    /// Starts a fast-forward of `seconds` from the reading `now`. The
    /// first warp is asked for whatever the duration.
    pub fn fast_forward_seconds(now: &Clock, seconds: u64) -> (started: (FastForward, Step))
        requires
            deadline(*now, seconds as int) <= i64::MAX,
            warp_slot(*now) <= u64::MAX,
        ensures
            started.0.target == deadline(*now, seconds as int),
            started.1 == (Step::Warp { slot: warp_slot(*now) as u64 }),
    {
        let target: i64 = (now.unix_timestamp as i128 + seconds as i128) as i64;
        (FastForward { target }, Step::Warp { slot: now.slot + WARP_SLOTS })
    }

    /// Starts a fast-forward of `minutes` from the reading `now`.
    pub fn fast_forward_minutes(now: &Clock, minutes: u64) -> (started: (FastForward, Step))
        requires
            deadline(*now, minutes * SECONDS_PER_MINUTE) <= i64::MAX,
            warp_slot(*now) <= u64::MAX,
        ensures
            started.0.target == deadline(*now, minutes * SECONDS_PER_MINUTE),
            started.1 == (Step::Warp { slot: warp_slot(*now) as u64 }),
    {
        FastForward::fast_forward_seconds(now, minutes * SECONDS_PER_MINUTE)
    }

    /// Decides what follows the reading `clock`: nothing more once the
    /// clock has reached the target, else another warp past the slot it
    /// shows.
    pub fn observe(&self, clock: &Clock) -> (step: Step)
        requires
            !reached(self.target as int, *clock) ==> warp_slot(*clock) <= u64::MAX,
        ensures
            step == step_after(self.target as int, *clock),
    {
        if clock.unix_timestamp >= self.target {
            Step::Done
        } else {
            Step::Warp { slot: clock.slot + WARP_SLOTS }
        }
    }
}

/// Plays a fast-forward of `seconds` from `start` against `readings`,
/// the clock as it is read after each warp in turn. The run ends at the
/// first reading that has reached the target, or when the readings run
/// out.
pub fn replay(start: &Clock, seconds: u64, readings: &[Clock]) -> (run: Run)
    requires
        deadline(*start, seconds as int) <= i64::MAX,
        warp_slot(*start) <= u64::MAX,
        forall|i: int|
            0 <= i < readings.len() && !reached(
                deadline(*start, seconds as int),
                #[trigger] readings[i],
            ) ==> warp_slot(readings[i]) <= u64::MAX,
    ensures
        is_run(*start, deadline(*start, seconds as int), readings@, run.warps@, run.end),
{
    let (controller, first) = FastForward::fast_forward_seconds(start, seconds);
    let ghost target: int = deadline(*start, seconds as int);
    let mut warps: Vec<u64> = Vec::new();
    match first {
        Step::Warp { slot } => warps.push(slot),
        Step::Done => {},
    }
    assert(warps@ =~= requested_slots(*start, readings@, 1));
    let mut i: usize = 0;
    while i < readings.len()
        invariant
            i <= readings.len(),
            controller.target == target,
            target == deadline(*start, seconds as int),
            warps@ == requested_slots(*start, readings@, i + 1),
            forall|j: int| 0 <= j < i ==> !reached(target, #[trigger] readings[j]),
            forall|j: int|
                0 <= j < readings.len() && !reached(target, #[trigger] readings[j]) ==> warp_slot(
                    readings[j],
                ) <= u64::MAX,
        decreases readings.len() - i,
    {
        let clock = readings[i];
        match controller.observe(&clock) {
            Step::Done => {
                assert(stops_at(target, readings@, i as int));
                return Run { warps, end: Some(clock) };
            },
            Step::Warp { slot } => {
                warps.push(slot);
                assert(warps@ =~= requested_slots(*start, readings@, i + 2));
            },
        }
        i += 1;
    }
    Run { warps, end: None }
}

/// On a clock that advances with every warp, the reading after the
/// `n`-th warp is more than `n` seconds past the start.
pub proof fn lemma_readings_advance(start: Clock, readings: Seq<Clock>, n: int)
    requires
        strictly_advancing(start, readings),
        0 <= n < readings.len(),
    ensures
        readings[n].unix_timestamp >= start.unix_timestamp + n + 1,
    decreases n,
{
    if n > 0 {
        lemma_readings_advance(start, readings, n - 1);
    }
}

/// If some reading up to `n` has reached the target, there is a first
/// one that has.
pub proof fn lemma_first_reached(target: int, readings: Seq<Clock>, n: int)
    requires
        0 <= n < readings.len(),
        reached(target, readings[n]),
    ensures
        exists|k: int| 0 <= k <= n && #[trigger] stops_at(target, readings, k),
    decreases n,
{
    if forall|j: int| 0 <= j < n ==> !reached(target, #[trigger] readings[j]) {
        assert(stops_at(target, readings, n));
    } else {
        let j = choose|j: int| 0 <= j < n && reached(target, #[trigger] readings[j]);
        lemma_first_reached(target, readings, j);
    }
}

/// At most one reading is the first to have reached the target.
pub proof fn lemma_stop_unique(target: int, readings: Seq<Clock>, k: int, m: int)
    requires
        stops_at(target, readings, k),
        stops_at(target, readings, m),
    ensures
        k == m,
{
    if k < m {
        assert(!reached(target, readings[k]));
    } else if m < k {
        assert(!reached(target, readings[m]));
    }
}

/// On a clock that advances with every warp, one of the first
/// [`warp_bound`] readings is the first to show the start's timestamp
/// plus the duration, or later.
pub proof fn lemma_advancing_clock_arrives(start: Clock, seconds: nat, readings: Seq<Clock>)
    requires
        strictly_advancing(start, readings),
        readings.len() >= warp_bound(seconds as int),
    ensures
        exists|k: int|
            {
                &&& #[trigger] stops_at(deadline(start, seconds as int), readings, k)
                &&& k < warp_bound(seconds as int)
            },
{
    let last = warp_bound(seconds as int) - 1;
    lemma_readings_advance(start, readings, last);
    lemma_first_reached(deadline(start, seconds as int), readings, last);
}

/// A fast-forward ends, and within its bound: on a clock that advances
/// with every warp, a run over at least [`warp_bound`] readings finishes
/// with the clock at the start's timestamp plus the duration, or later,
/// after no more than [`warp_bound`] warps.
pub proof fn lemma_fast_forward_terminates(
    start: Clock,
    seconds: nat,
    readings: Seq<Clock>,
    warps: Seq<u64>,
    end: Option<Clock>,
)
    requires
        strictly_advancing(start, readings),
        readings.len() >= warp_bound(seconds as int),
        is_run(start, deadline(start, seconds as int), readings, warps, end),
    ensures
        end is Some,
        end->0.unix_timestamp >= start.unix_timestamp + seconds,
        1 <= warps.len() <= warp_bound(seconds as int),
{
    let target = deadline(start, seconds as int);
    lemma_advancing_clock_arrives(start, seconds, readings);
    let first = choose|k: int| #[trigger]
        stops_at(target, readings, k) && k < warp_bound(seconds as int);
    match end {
        Some(clock) => {
            let k = choose|k: int|
                {
                    &&& #[trigger] stops_at(target, readings, k)
                    &&& clock == readings[k]
                    &&& warps == requested_slots(start, readings, k + 1)
                };
            lemma_stop_unique(target, readings, k, first);
        },
        None => {
            assert(!reached(target, readings[first]));
        },
    }
}

/// Whatever the clock does, a run that finishes leaves the clock at the
/// target or later.
pub proof fn lemma_finished_run_reached(
    start: Clock,
    target: int,
    readings: Seq<Clock>,
    warps: Seq<u64>,
    end: Clock,
)
    requires
        is_run(start, target, readings, warps, Some(end)),
    ensures
        end.unix_timestamp >= target,
        1 <= warps.len() <= readings.len(),
{
}

} // verus!
