use vstd::prelude::*;
use crate::types::Schedule;

verus! {

/// Whether entry `s` is claimable at time `now` by a record whose last
/// successful claim happened at `last`: the claim window `(airdrop_time,
/// airdrop_time + period)` is open and the entry has not been consumed by an
/// earlier claim.
pub open spec fn eligible(s: Schedule, period: u64, last: u64, now: u64) -> bool {
    &&& s.airdrop_time < now
    &&& now < s.airdrop_time + period
    &&& last < s.airdrop_time
}

/// Index of the first eligible entry at or after position `i`, if any.
pub open spec fn first_match_from(
    schedule: Seq<Schedule>,
    period: u64,
    last: u64,
    now: u64,
    i: int,
) -> Option<int>
    decreases schedule.len() - i,
{
    if i < 0 || i >= schedule.len() {
        None
    } else if eligible(schedule[i], period, last, now) {
        Some(i)
    } else {
        first_match_from(schedule, period, last, now, i + 1)
    }
}

/// Index of the first eligible entry of the whole schedule, if any.
pub open spec fn first_match(schedule: Seq<Schedule>, period: u64, last: u64, now: u64) -> Option<
    int,
> {
    first_match_from(schedule, period, last, now, 0)
}

/// What `first_match_from` returns, characterised without recursion: a found
/// index is the least eligible one at or after `i`, and `None` means no entry
/// from `i` on is eligible.
pub proof fn lemma_first_match_from(schedule: Seq<Schedule>, period: u64, last: u64, now: u64, i: int)
    requires
        0 <= i <= schedule.len(),
    ensures
        match first_match_from(schedule, period, last, now, i) {
            Some(k) => {
                &&& i <= k < schedule.len()
                &&& eligible(schedule[k], period, last, now)
                &&& forall|j: int| i <= j < k ==> !eligible(schedule[j], period, last, now)
            },
            None => forall|j: int| i <= j < schedule.len() ==> !eligible(
                schedule[j],
                period,
                last,
                now,
            ),
        },
    decreases schedule.len() - i,
{
    if i < schedule.len() && !eligible(schedule[i], period, last, now) {
        lemma_first_match_from(schedule, period, last, now, i + 1);
    }
}

/// What `first_match` returns: the least eligible index, or `None` when no
/// entry is eligible.
pub proof fn lemma_first_match(schedule: Seq<Schedule>, period: u64, last: u64, now: u64)
    ensures
        match first_match(schedule, period, last, now) {
            Some(k) => {
                &&& 0 <= k < schedule.len()
                &&& eligible(schedule[k], period, last, now)
                &&& forall|j: int| 0 <= j < k ==> !eligible(schedule[j], period, last, now)
            },
            None => forall|j: int| 0 <= j < schedule.len() ==> !eligible(
                schedule[j],
                period,
                last,
                now,
            ),
        },
{
    lemma_first_match_from(schedule, period, last, now, 0);
}

/// Scans the schedule in stored order and returns the index of the first
/// entry whose claim window is open at `now` and not yet consumed; `None`
/// when no entry qualifies. This is a deliberate first-match policy: with
/// overlapping windows, only the earliest-declared entry is honoured.
pub fn match_schedule(schedule: &Vec<Schedule>, period: u64, last: u64, now: u64) -> (r: Option<
    usize,
>)
    ensures
        match r {
            Some(k) => first_match(schedule@, period, last, now) == Some(k as int),
            None => first_match(schedule@, period, last, now) is None,
        },
{
    let ghost gs = schedule@;
    let n = schedule.len();
    let mut i: usize = 0;
    while i < n
        invariant
            0 <= i <= n,
            n == gs.len(),
            gs == schedule@,
            first_match_from(gs, period, last, now, 0) == first_match_from(
                gs,
                period,
                last,
                now,
                i as int,
            ),
        decreases n - i,
    {
        let s = schedule[i];
        if s.airdrop_time < now && now - s.airdrop_time < period && last < s.airdrop_time {
            assert(eligible(gs[i as int], period, last, now));
            return Some(i);
        }
        assert(!eligible(gs[i as int], period, last, now));
        i = i + 1;
    }
    None
}

} // verus!
