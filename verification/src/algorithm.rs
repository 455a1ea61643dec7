//! The selection/combining controller: filters the current peer
//! snapshots, discards falsetickers by interval clustering, combines the
//! survivors into one offset estimate, updates the frequency-error
//! estimate, decides between stepping and slewing the clock, and feeds a
//! polling-cadence hint back to the peers.

use vstd::arithmetic::div_mod::lemma_div_by_self;
use vstd::arithmetic::div_mod::lemma_div_is_ordered_by_denominator;
use vstd::arithmetic::div_mod::lemma_div_nonincreasing;
use vstd::prelude::*;

use crate::config::SystemConfig;
use crate::peer::sanitize_nonneg;
use crate::peer::PeerSnapshot;
use crate::system::SystemSnapshot;
use crate::system::TimeSnapshot;
use crate::time_types::clamp_int;
use crate::time_types::dec_exponent;
use crate::time_types::div_trunc;
use crate::time_types::inc_exponent;
use crate::time_types::NtpDuration;
use crate::time_types::NtpInstant;
use crate::time_types::PollInterval;

verus! {

/// The most peers one evaluation cycle accepts; keeps every accumulated
/// sum comfortably inside 128 bits.
pub const MAX_PEERS: usize = 65536;

/// The magnitude of a mathematical integer.
pub open spec fn abs_int(x: int) -> int {
    if x < 0 {
        -x
    } else {
        x
    }
}

/// Whether a snapshot takes part in selection: it must be flagged usable,
/// reachable, synchronized, carry a sane root distance, and its last
/// measurement must fall inside the staleness window.
pub open spec fn is_eligible(s: PeerSnapshot, now: NtpInstant, window: int) -> bool {
    &&& s.usable
    &&& s.reach.bits != 0
    &&& s.leap.spec_is_synchronized()
    &&& s.root_distance.duration >= 0
    &&& clamp_int(now.monotonic - s.last_update.monotonic, 0, i64::MAX as int) <= window
}

/// The indices below `n` of the snapshots that take part in selection, in
/// order.
pub open spec fn eligible_upto(
    s: Seq<PeerSnapshot>,
    now: NtpInstant,
    window: int,
    n: int,
) -> Seq<usize>
    decreases n,
{
    if n <= 0 {
        Seq::empty()
    } else if is_eligible(s[n - 1], now, window) {
        eligible_upto(s, now, window, n - 1).push((n - 1) as usize)
    } else {
        eligible_upto(s, now, window, n - 1)
    }
}

/// The indices of all snapshots that take part in selection.
pub open spec fn eligible_peers(s: Seq<PeerSnapshot>, now: NtpInstant, window: int) -> Seq<usize> {
    eligible_upto(s, now, window, s.len() as int)
}

/// Every index the filter keeps points below `n` at an eligible snapshot.
pub proof fn lemma_eligible_upto_bounds(s: Seq<PeerSnapshot>, now: NtpInstant, window: int, n: int)
    requires
        0 <= n <= s.len(),
        n <= usize::MAX,
    ensures
        eligible_upto(s, now, window, n).len() <= n,
        forall|j: int|
            0 <= j < eligible_upto(s, now, window, n).len() ==> (
            #[trigger] eligible_upto(s, now, window, n)[j] as int) < n && is_eligible(
                s[eligible_upto(s, now, window, n)[j] as int],
                now,
                window,
            ),
    decreases n,
{
    if n > 0 {
        lemma_eligible_upto_bounds(s, now, window, n - 1);
        let prev = eligible_upto(s, now, window, n - 1);
        let cur = eligible_upto(s, now, window, n);
        assert forall|j: int| 0 <= j < cur.len() implies (cur[j] as int) < n && is_eligible(
            s[cur[j] as int],
            now,
            window,
        ) by {
            if is_eligible(s[n - 1], now, window) {
                assert(cur == prev.push((n - 1) as usize));
                assert((n - 1) as usize as int == n - 1);
                if j < prev.len() {
                    assert(cur[j] == prev[j]);
                } else {
                    assert(cur[j] == (n - 1) as usize);
                }
            } else {
                assert(cur == prev);
            }
        }
    }
}

/// With not one snapshot reachable, the filter keeps nothing: this is the
/// degraded case in which the controller must leave the system state
/// alone.
pub proof fn lemma_no_reachable_no_candidates(
    s: Seq<PeerSnapshot>,
    now: NtpInstant,
    window: int,
    n: int,
)
    requires
        0 <= n <= s.len(),
        forall|i: int| 0 <= i < s.len() ==> #[trigger] s[i].reach.bits == 0,
    ensures
        eligible_upto(s, now, window, n).len() == 0,
    decreases n,
{
    if n > 0 {
        lemma_no_reachable_no_candidates(s, now, window, n - 1);
    }
}

/// Whether the correctness interval `[offset - root_distance,
/// offset + root_distance]` of a snapshot contains the point `x`.
pub open spec fn covers(s: PeerSnapshot, x: int) -> bool {
    s.offset.duration - s.root_distance.duration <= x <= s.offset.duration
        + s.root_distance.duration
}

/// The lower endpoint of the `j`-th eligible snapshot's interval: the
/// candidate points of the cluster search.
pub open spec fn left_edge(s: Seq<PeerSnapshot>, elig: Seq<usize>, j: int) -> int {
    s[elig[j] as int].offset.duration - s[elig[j] as int].root_distance.duration
}

/// How many of the first `k` eligible snapshots cover the point `x`.
pub open spec fn cover_count(s: Seq<PeerSnapshot>, elig: Seq<usize>, x: int, k: int) -> int
    decreases k,
{
    if k <= 0 {
        0
    } else {
        cover_count(s, elig, x, k - 1) + if covers(s[elig[k - 1] as int], x) {
            1int
        } else {
            0int
        }
    }
}

/// The total root distance of the first `k` eligible snapshots that cover
/// the point `x`: the tie-break between equally large clusters.
pub open spec fn cover_dist(s: Seq<PeerSnapshot>, elig: Seq<usize>, x: int, k: int) -> int
    decreases k,
{
    if k <= 0 {
        0
    } else {
        cover_dist(s, elig, x, k - 1) + if covers(s[elig[k - 1] as int], x) {
            s[elig[k - 1] as int].root_distance.duration as int
        } else {
            0int
        }
    }
}

/// Whether candidate point `j` beats candidate point `b`: it is covered
/// by strictly more intervals, or by as many at a smaller total root
/// distance.
pub open spec fn candidate_better(s: Seq<PeerSnapshot>, elig: Seq<usize>, j: int, b: int) -> bool {
    let n = elig.len() as int;
    let cj = cover_count(s, elig, left_edge(s, elig, j), n);
    let cb = cover_count(s, elig, left_edge(s, elig, b), n);
    let dj = cover_dist(s, elig, left_edge(s, elig, j), n);
    let db = cover_dist(s, elig, left_edge(s, elig, b), n);
    cj > cb || (cj == cb && dj < db)
}

/// Among the first `k` candidate points, the one the search settles on:
/// most intervals covering it, then smallest total root distance, then
/// earliest position.  A deterministic, documented tie-break.
pub open spec fn best_candidate_upto(s: Seq<PeerSnapshot>, elig: Seq<usize>, k: int) -> int
    decreases k,
{
    if k <= 1 {
        0
    } else {
        let prev = best_candidate_upto(s, elig, k - 1);
        if candidate_better(s, elig, k - 1, prev) {
            k - 1
        } else {
            prev
        }
    }
}

/// The search's result always names one of the candidates.
pub proof fn lemma_best_candidate_in_range(s: Seq<PeerSnapshot>, elig: Seq<usize>, k: int)
    requires
        k >= 1,
    ensures
        0 <= best_candidate_upto(s, elig, k) < k,
    decreases k,
{
    if k > 1 {
        lemma_best_candidate_in_range(s, elig, k - 1);
    }
}

/// The search's result is optimal: no candidate point is covered by more
/// intervals than the selected one, nor by as many at a smaller total
/// root distance.
pub proof fn lemma_best_candidate_is_optimal(s: Seq<PeerSnapshot>, elig: Seq<usize>, k: int)
    requires
        1 <= k,
    ensures
        forall|j: int|
            0 <= j < k ==> !candidate_better(s, elig, j, best_candidate_upto(s, elig, k)),
    decreases k,
{
    if k > 1 {
        lemma_best_candidate_is_optimal(s, elig, k - 1);
        let p = best_candidate_upto(s, elig, k - 1);
        let b = best_candidate_upto(s, elig, k);
        assert forall|j: int| 0 <= j < k implies !candidate_better(s, elig, j, b) by {
            if j < k - 1 {
                assert(!candidate_better(s, elig, j, p));
            }
        }
    }
}

/// Among the first `k` eligible snapshots covering `x`, the position of
/// the one with the greatest lower endpoint; -1 if none covers `x`.
pub open spec fn max_covering_edge(s: Seq<PeerSnapshot>, elig: Seq<usize>, x: int, k: int) -> int
    decreases k,
{
    if k <= 0 {
        -1
    } else {
        let p = max_covering_edge(s, elig, x, k - 1);
        if covers(s[elig[k - 1] as int], x) {
            if p == -1 || left_edge(s, elig, k - 1) >= left_edge(s, elig, p) {
                k - 1
            } else {
                p
            }
        } else {
            p
        }
    }
}

/// What `max_covering_edge` finds: nothing exactly when nothing covers
/// `x`, else a covering member whose lower endpoint dominates every other
/// covering member's.
pub proof fn lemma_max_covering_edge(s: Seq<PeerSnapshot>, elig: Seq<usize>, x: int, k: int)
    requires
        0 <= k,
    ensures
        max_covering_edge(s, elig, x, k) == -1 ==> cover_count(s, elig, x, k) == 0,
        max_covering_edge(s, elig, x, k) != -1 ==> 0 <= max_covering_edge(s, elig, x, k) < k
            && covers(s[elig[max_covering_edge(s, elig, x, k)] as int], x),
        forall|i: int|
            0 <= i < k && covers(s[#[trigger] elig[i] as int], x) ==> max_covering_edge(
                s,
                elig,
                x,
                k,
            ) != -1 && left_edge(s, elig, i) <= left_edge(
                s,
                elig,
                max_covering_edge(s, elig, x, k),
            ),
    decreases k,
{
    if k > 0 {
        lemma_max_covering_edge(s, elig, x, k - 1);
    }
}

/// Counting is monotone: a point covered by every interval that covers
/// `x` is covered at least as often as `x`.
pub proof fn lemma_cover_count_monotone(
    s: Seq<PeerSnapshot>,
    elig: Seq<usize>,
    x: int,
    y: int,
    k: int,
)
    requires
        0 <= k,
        forall|i: int|
            0 <= i < k && covers(s[#[trigger] elig[i] as int], x) ==> covers(s[elig[i] as int], y),
    ensures
        cover_count(s, elig, y, k) >= cover_count(s, elig, x, k),
    decreases k,
{
    if k > 0 {
        lemma_cover_count_monotone(s, elig, x, y, k - 1);
    }
}

/// Searching the lower endpoints alone loses nothing: whatever point one
/// picks, some eligible lower endpoint is covered by at least as many
/// intervals.  Together with `lemma_best_candidate_is_optimal` this makes
/// the surviving cluster as large as any mutually overlapping cluster.
pub proof fn lemma_candidate_points_suffice(s: Seq<PeerSnapshot>, elig: Seq<usize>, x: int)
    requires
        cover_count(s, elig, x, elig.len() as int) >= 1,
    ensures
        exists|j: int|
            0 <= j < elig.len() && cover_count(
                s,
                elig,
                #[trigger] left_edge(s, elig, j),
                elig.len() as int,
            ) >= cover_count(s, elig, x, elig.len() as int),
{
    let n = elig.len() as int;
    lemma_max_covering_edge(s, elig, x, n);
    let j = max_covering_edge(s, elig, x, n);
    assert(j != -1) by {
        if j == -1 {
            assert(cover_count(s, elig, x, n) == 0);
        }
    }
    let y = left_edge(s, elig, j);
    assert forall|i: int| 0 <= i < n && covers(s[#[trigger] elig[i] as int], x) implies covers(
        s[elig[i] as int],
        y,
    ) by {
        // the lower endpoint of the dominating member lies between this
        // member's own lower endpoint and the point it covers
        assert(left_edge(s, elig, i) <= y);
        assert(y <= x);
    }
    lemma_cover_count_monotone(s, elig, x, y, n);
    assert(cover_count(s, elig, left_edge(s, elig, j), n) >= cover_count(s, elig, x, n));
}

/// The surviving cluster holds exactly the intervals that cover the
/// selected point.
pub proof fn lemma_survivor_count_is_coverage(
    s: Seq<PeerSnapshot>,
    elig: Seq<usize>,
    x: int,
    k: int,
)
    requires
        0 <= k,
    ensures
        survivors_upto(s, elig, x, k).len() == cover_count(s, elig, x, k),
    decreases k,
{
    if k > 0 {
        lemma_survivor_count_is_coverage(s, elig, x, k - 1);
    }
}

/// Of the first `k` eligible snapshots, those whose interval covers the
/// selected point: the surviving cluster.
pub open spec fn survivors_upto(s: Seq<PeerSnapshot>, elig: Seq<usize>, x: int, k: int) -> Seq<
    usize,
>
    decreases k,
{
    if k <= 0 {
        Seq::empty()
    } else if covers(s[elig[k - 1] as int], x) {
        survivors_upto(s, elig, x, k - 1).push(elig[k - 1])
    } else {
        survivors_upto(s, elig, x, k - 1)
    }
}

/// Of the first `k` eligible snapshots, those whose interval misses the
/// selected point: the falsetickers, excluded but reported.
pub open spec fn falsetickers_upto(s: Seq<PeerSnapshot>, elig: Seq<usize>, x: int, k: int) -> Seq<
    usize,
>
    decreases k,
{
    if k <= 0 {
        Seq::empty()
    } else if covers(s[elig[k - 1] as int], x) {
        falsetickers_upto(s, elig, x, k - 1)
    } else {
        falsetickers_upto(s, elig, x, k - 1).push(elig[k - 1])
    }
}

/// Any bound holding of every eligible index holds of every survivor.
pub proof fn lemma_survivors_upto_bounds(
    s: Seq<PeerSnapshot>,
    elig: Seq<usize>,
    x: int,
    k: int,
    bound: int,
)
    requires
        0 <= k <= elig.len(),
        forall|j: int| 0 <= j < elig.len() ==> (#[trigger] elig[j] as int) < bound,
    ensures
        survivors_upto(s, elig, x, k).len() <= k,
        forall|j: int|
            0 <= j < survivors_upto(s, elig, x, k).len() ==> (#[trigger] survivors_upto(
                s,
                elig,
                x,
                k,
            )[j] as int) < bound,
    decreases k,
{
    if k > 0 {
        lemma_survivors_upto_bounds(s, elig, x, k - 1, bound);
        let prev = survivors_upto(s, elig, x, k - 1);
        let cur = survivors_upto(s, elig, x, k);
        assert forall|j: int| 0 <= j < cur.len() implies (cur[j] as int) < bound by {
            if covers(s[elig[k - 1] as int], x) {
                if j < prev.len() {
                    assert(cur[j] == prev[j]);
                } else {
                    assert(cur[j] == elig[k - 1]);
                }
            } else {
                assert(cur[j] == prev[j]);
            }
        }
    }
}

/// The controller never combines a snapshot that is unreachable, flagged
/// unusable (its latest measurement was rejected), unsynchronized or
/// stale: every survivor of the cluster search, whatever point it was run
/// at, is an eligible peer.
pub proof fn lemma_survivors_are_eligible(
    s: Seq<PeerSnapshot>,
    now: NtpInstant,
    window: int,
    x: int,
    k: int,
)
    requires
        s.len() <= usize::MAX,
        0 <= k <= eligible_peers(s, now, window).len(),
    ensures
        forall|j: int|
            0 <= j < survivors_upto(s, eligible_peers(s, now, window), x, k).len()
                ==> is_eligible(
                s[#[trigger] survivors_upto(s, eligible_peers(s, now, window), x, k)[j] as int],
                now,
                window,
            ),
    decreases k,
{
    let elig = eligible_peers(s, now, window);
    lemma_eligible_upto_bounds(s, now, window, s.len() as int);
    if k > 0 {
        lemma_survivors_are_eligible(s, now, window, x, k - 1);
        let prev = survivors_upto(s, elig, x, k - 1);
        let cur = survivors_upto(s, elig, x, k);
        assert forall|j: int| 0 <= j < cur.len() implies is_eligible(
            s[cur[j] as int],
            now,
            window,
        ) by {
            if covers(s[elig[k - 1] as int], x) {
                if j < prev.len() {
                    assert(cur[j] == prev[j]);
                } else {
                    assert(cur[j] == elig[k - 1]);
                }
            } else {
                assert(cur == prev);
            }
        }
    }
}

/// A root distance enters the weighting clamped into
/// `[2^16, 2^48]` fixed-point units, so every weight is meaningful and
/// bounded.
pub open spec fn clamped_distance(rd: int) -> int {
    clamp_int(rd, 0x1_0000, 0x1_0000_0000_0000)
}

/// The combining weight of a snapshot: inversely proportional to its root
/// distance, `2^48 / clamped_distance`, always in `[1, 2^32]`.
pub open spec fn weight_of(rd: int) -> int {
    0x1_0000_0000_0000int / clamped_distance(rd)
}

/// The total weight of the first `k` survivors.
pub open spec fn weight_total(s: Seq<PeerSnapshot>, surv: Seq<usize>, k: int) -> int
    decreases k,
{
    if k <= 0 {
        0
    } else {
        weight_total(s, surv, k - 1) + weight_of(s[surv[k - 1] as int].root_distance.duration as int)
    }
}

/// The weighted sum of the first `k` survivors' offsets.
pub open spec fn weighted_offset_total(s: Seq<PeerSnapshot>, surv: Seq<usize>, k: int) -> int
    decreases k,
{
    if k <= 0 {
        0
    } else {
        weighted_offset_total(s, surv, k - 1) + weight_of(
            s[surv[k - 1] as int].root_distance.duration as int,
        ) * (s[surv[k - 1] as int].offset.duration as int)
    }
}

/// The combined offset of the surviving cluster: the distance-weighted
/// average of the survivors' offsets, truncated toward zero and clamped
/// into the representable range.
pub open spec fn combined_offset_spec(s: Seq<PeerSnapshot>, surv: Seq<usize>) -> int {
    clamp_int(
        div_trunc(
            weighted_offset_total(s, surv, surv.len() as int),
            weight_total(s, surv, surv.len() as int),
        ),
        i64::MIN as int,
        i64::MAX as int,
    )
}

/// The largest deviation of a survivor's offset from the combined offset:
/// the cluster's jitter measure.
pub open spec fn max_deviation_upto(s: Seq<PeerSnapshot>, surv: Seq<usize>, c: int, k: int) -> int
    decreases k,
{
    if k <= 0 {
        0
    } else {
        let rest = max_deviation_upto(s, surv, c, k - 1);
        let d = abs_int(s[surv[k - 1] as int].offset.duration as int - c);
        if d > rest {
            d
        } else {
            rest
        }
    }
}

/// Among the first `k` survivors, the position of the one with the
/// smallest root distance (earliest on ties): the system peer whose
/// metadata the published snapshot carries.
pub open spec fn best_source_upto(s: Seq<PeerSnapshot>, surv: Seq<usize>, k: int) -> int
    decreases k,
{
    if k <= 1 {
        0
    } else {
        let p = best_source_upto(s, surv, k - 1);
        if (s[surv[k - 1] as int].root_distance.duration as int) < (
        s[surv[p] as int].root_distance.duration as int) {
            k - 1
        } else {
            p
        }
    }
}

/// The next frequency-error estimate: the previous estimate corrected
/// proportionally by the new combined offset (gain 1/16) and by its change
/// against the previous belief (gain 1/64), clamped to the configured
/// tolerance.
pub open spec fn next_frequency_spec(
    prev_offset: int,
    prev_freq: int,
    combined: int,
    tol: int,
) -> int {
    clamp_int(
        prev_freq + div_trunc(combined, 16) + div_trunc(combined - prev_offset, 64),
        -tol,
        tol,
    )
}

/// The published root delay: the system peer's own root delay plus the
/// round trip to it, negatives sanitized, saturating.
pub open spec fn system_root_delay_spec(sp: PeerSnapshot) -> int {
    clamp_int(
        sanitize_nonneg(sp.root_delay.duration as int) + sanitize_nonneg(sp.delay.duration as int),
        0,
        i64::MAX as int,
    )
}

/// The published root dispersion: the system peer's own root dispersion
/// plus its whole root distance, negatives sanitized, saturating.
pub open spec fn system_root_dispersion_spec(sp: PeerSnapshot) -> int {
    clamp_int(
        sanitize_nonneg(sp.root_dispersion.duration as int) + sanitize_nonneg(
            sp.root_distance.duration as int,
        ),
        0,
        i64::MAX as int,
    )
}

/// How the clock is to be corrected: an instantaneous jump for large
/// discontinuities, a gradual frequency-based slew for everything else.
/// Both carry the combined offset magnitude.
#[derive(Clone, Copy, Debug, PartialEq, Eq, Structural)]
pub enum ClockCorrection {
    Step(NtpDuration),
    Slew(NtpDuration),
}

/// One evaluation cycle's output: the correction decision, the new system
/// snapshot, the recommended polling cadence, and which peers were
/// combined or excluded as falsetickers.
#[derive(Debug)]
pub struct StateUpdate {
    pub decision: ClockCorrection,
    pub system: SystemSnapshot,
    pub poll_hint: PollInterval,
    /// Indices (into the snapshot list) of the combined peers.
    pub survivors: Vec<usize>,
    /// Indices of eligible peers excluded as falsetickers.
    pub falsetickers: Vec<usize>,
}

/// Truncating signed division on machine integers.
fn div_trunc_i128(a: i128, b: i128) -> (r: i128)
    requires
        b > 0,
        a != i128::MIN,
    ensures
        r as int == div_trunc(a as int, b as int),
{
    if a >= 0 {
        let q: u128 = (a as u128) / (b as u128);
        proof {
            lemma_div_nonincreasing(a as int, b as int);
        }
        q as i128
    } else {
        let m: u128 = (-a) as u128;
        let q: u128 = m / (b as u128);
        proof {
            lemma_div_nonincreasing(m as int, b as int);
        }
        -(q as i128)
    }
}

/// Saturate a wide intermediate value into a duration's range.
fn clamp_i128_to_i64(x: i128) -> (r: i64)
    ensures
        r as int == clamp_int(x as int, i64::MIN as int, i64::MAX as int),
{
    if x < i64::MIN as i128 {
        i64::MIN
    } else if x > i64::MAX as i128 {
        i64::MAX
    } else {
        x as i64
    }
}

/// Filter the snapshot list down to the indices that take part in
/// selection.
fn eligible_indices(snapshots: &Vec<PeerSnapshot>, now: NtpInstant, window: NtpDuration) -> (r: Vec<
    usize,
>)
    ensures
        r@ == eligible_upto(snapshots@, now, window.duration as int, snapshots@.len() as int),
{
    let mut r: Vec<usize> = Vec::new();
    let mut i: usize = 0;
    while i < snapshots.len()
        invariant
            i <= snapshots@.len(),
            r@ == eligible_upto(snapshots@, now, window.duration as int, i as int),
        decreases snapshots@.len() - i,
    {
        let s: PeerSnapshot = snapshots[i];
        let age: NtpDuration = now.elapsed_since(s.last_update);
        if s.usable && s.reach.bits != 0 && s.leap.is_synchronized() && s.root_distance.duration
            >= 0 && age.duration <= window.duration {
            r.push(i);
        }
        i = i + 1;
    }
    r
}

/// The candidate point contributed by the `j`-th eligible snapshot.
fn edge_of(snapshots: &Vec<PeerSnapshot>, elig: &Vec<usize>, j: usize) -> (r: i128)
    requires
        j < elig@.len(),
        forall|t: int| 0 <= t < elig@.len() ==> (#[trigger] elig@[t] as int) < snapshots@.len(),
    ensures
        r as int == left_edge(snapshots@, elig@, j as int),
{
    let idx: usize = elig[j];
    let sp: PeerSnapshot = snapshots[idx];
    (sp.offset.duration as i128) - (sp.root_distance.duration as i128)
}

/// Count the eligible intervals covering `x` and their total root
/// distance.
fn cover_stats(snapshots: &Vec<PeerSnapshot>, elig: &Vec<usize>, x: i128) -> (r: (usize, i128))
    requires
        elig@.len() <= MAX_PEERS,
        forall|t: int| 0 <= t < elig@.len() ==> (#[trigger] elig@[t] as int) < snapshots@.len(),
    ensures
        r.0 as int == cover_count(snapshots@, elig@, x as int, elig@.len() as int),
        r.1 as int == cover_dist(snapshots@, elig@, x as int, elig@.len() as int),
{
    let mut count: usize = 0;
    let mut dist: i128 = 0;
    let mut k: usize = 0;
    while k < elig.len()
        invariant
            k <= elig@.len(),
            elig@.len() <= MAX_PEERS,
            forall|t: int| 0 <= t < elig@.len() ==> (#[trigger] elig@[t] as int) < snapshots@.len(),
            count <= k,
            count as int == cover_count(snapshots@, elig@, x as int, k as int),
            dist as int == cover_dist(snapshots@, elig@, x as int, k as int),
            -((k as int) * (i64::MAX as int)) <= dist as int <= (k as int) * (i64::MAX as int),
        decreases elig@.len() - k,
    {
        let idx: usize = elig[k];
        let sp: PeerSnapshot = snapshots[idx];
        let lo: i128 = (sp.offset.duration as i128) - (sp.root_distance.duration as i128);
        let hi: i128 = (sp.offset.duration as i128) + (sp.root_distance.duration as i128);
        if lo <= x && x <= hi {
            count = count + 1;
            dist = dist + (sp.root_distance.duration as i128);
        }
        k = k + 1;
    }
    (count, dist)
}

/// Run the cluster search: pick the candidate point covered by the most
/// intervals (smallest total root distance, then earliest position, as
/// tie-breaks) and split the eligible peers into survivors and
/// falsetickers around it.
fn select_survivors(snapshots: &Vec<PeerSnapshot>, elig: &Vec<usize>) -> (r: (Vec<usize>, Vec<
    usize,
>))
    requires
        1 <= elig@.len() <= MAX_PEERS,
        forall|t: int| 0 <= t < elig@.len() ==> (#[trigger] elig@[t] as int) < snapshots@.len(),
    ensures
        ({
            let n = elig@.len() as int;
            let b = best_candidate_upto(snapshots@, elig@, n);
            let x = left_edge(snapshots@, elig@, b);
            r.0@ == survivors_upto(snapshots@, elig@, x, n) && r.1@ == falsetickers_upto(
                snapshots@,
                elig@,
                x,
                n,
            )
        }),
{
    let x0: i128 = edge_of(snapshots, elig, 0);
    let stats0: (usize, i128) = cover_stats(snapshots, elig, x0);
    let mut best: usize = 0;
    let mut bc: usize = stats0.0;
    let mut bd: i128 = stats0.1;
    let mut j: usize = 1;
    while j < elig.len()
        invariant
            1 <= j <= elig@.len(),
            elig@.len() <= MAX_PEERS,
            forall|t: int| 0 <= t < elig@.len() ==> (#[trigger] elig@[t] as int) < snapshots@.len(),
            best < j,
            best as int == best_candidate_upto(snapshots@, elig@, j as int),
            bc as int == cover_count(
                snapshots@,
                elig@,
                left_edge(snapshots@, elig@, best as int),
                elig@.len() as int,
            ),
            bd as int == cover_dist(
                snapshots@,
                elig@,
                left_edge(snapshots@, elig@, best as int),
                elig@.len() as int,
            ),
        decreases elig@.len() - j,
    {
        let xj: i128 = edge_of(snapshots, elig, j);
        let stats: (usize, i128) = cover_stats(snapshots, elig, xj);
        if stats.0 > bc || (stats.0 == bc && stats.1 < bd) {
            best = j;
            bc = stats.0;
            bd = stats.1;
        }
        j = j + 1;
    }

    let x: i128 = edge_of(snapshots, elig, best);
    let mut surv: Vec<usize> = Vec::new();
    let mut false_t: Vec<usize> = Vec::new();
    let mut k: usize = 0;
    while k < elig.len()
        invariant
            k <= elig@.len(),
            forall|t: int| 0 <= t < elig@.len() ==> (#[trigger] elig@[t] as int) < snapshots@.len(),
            x as int == left_edge(
                snapshots@,
                elig@,
                best_candidate_upto(snapshots@, elig@, elig@.len() as int),
            ),
            surv@ == survivors_upto(snapshots@, elig@, x as int, k as int),
            false_t@ == falsetickers_upto(snapshots@, elig@, x as int, k as int),
        decreases elig@.len() - k,
    {
        let idx: usize = elig[k];
        let sp: PeerSnapshot = snapshots[idx];
        let lo: i128 = (sp.offset.duration as i128) - (sp.root_distance.duration as i128);
        let hi: i128 = (sp.offset.duration as i128) + (sp.root_distance.duration as i128);
        if lo <= x && x <= hi {
            surv.push(idx);
        } else {
            false_t.push(idx);
        }
        k = k + 1;
    }
    (surv, false_t)
}

/// Combine the surviving cluster into one offset: the distance-weighted
/// average of the survivors' offsets.
fn combine_offset(snapshots: &Vec<PeerSnapshot>, surv: &Vec<usize>) -> (r: i64)
    requires
        1 <= surv@.len() <= MAX_PEERS,
        forall|t: int| 0 <= t < surv@.len() ==> (#[trigger] surv@[t] as int) < snapshots@.len(),
    ensures
        r as int == combined_offset_spec(snapshots@, surv@),
{
    let mut wsum: i128 = 0;
    let mut wosum: i128 = 0;
    let mut k: usize = 0;
    while k < surv.len()
        invariant
            k <= surv@.len(),
            surv@.len() <= MAX_PEERS,
            forall|t: int| 0 <= t < surv@.len() ==> (#[trigger] surv@[t] as int) < snapshots@.len(),
            wsum as int == weight_total(snapshots@, surv@, k as int),
            wosum as int == weighted_offset_total(snapshots@, surv@, k as int),
            k as int <= wsum as int <= (k as int) * 0x1_0000_0000,
            -((k as int) * 0x8000_0000_0000_0000_0000_0000) <= wosum as int <= (k as int)
                * 0x8000_0000_0000_0000_0000_0000,
        decreases surv@.len() - k,
    {
        let idx: usize = surv[k];
        let sp: PeerSnapshot = snapshots[idx];
        let rd: i64 = sp.root_distance.duration;
        let rdw: u64 = if rd < 0x1_0000i64 {
            0x1_0000u64
        } else if rd > 0x1_0000_0000_0000i64 {
            0x1_0000_0000_0000u64
        } else {
            rd as u64
        };
        let w: u64 = 0x1_0000_0000_0000u64 / rdw;
        proof {
            assert(rdw as int == clamped_distance(rd as int));
            lemma_div_is_ordered_by_denominator(0x1_0000_0000_0000, 0x1_0000, rdw as int);
            lemma_div_is_ordered_by_denominator(0x1_0000_0000_0000, rdw as int, 0x1_0000_0000_0000);
            lemma_div_by_self(0x1_0000_0000_0000);
            assert(1 <= w as int <= 0x1_0000_0000);
            assert((w as int) * (sp.offset.duration as int) <= 0x8000_0000_0000_0000_0000_0000
                && (w as int) * (sp.offset.duration as int)
                >= -0x8000_0000_0000_0000_0000_0000) by (nonlinear_arith)
                requires
                    1 <= w as int <= 0x1_0000_0000,
                    -0x8000_0000_0000_0000 <= sp.offset.duration as int <= 0x7FFF_FFFF_FFFF_FFFF,
            ;
        }
        let prod: i128 = (w as i128) * (sp.offset.duration as i128);
        wsum = wsum + (w as i128);
        wosum = wosum + prod;
        k = k + 1;
    }
    let q: i128 = div_trunc_i128(wosum, wsum);
    clamp_i128_to_i64(q)
}

/// The cluster's jitter: the largest deviation of a survivor's offset
/// from the combined offset.
fn max_deviation(snapshots: &Vec<PeerSnapshot>, surv: &Vec<usize>, c: i64) -> (r: i128)
    requires
        forall|t: int| 0 <= t < surv@.len() ==> (#[trigger] surv@[t] as int) < snapshots@.len(),
    ensures
        r as int == max_deviation_upto(snapshots@, surv@, c as int, surv@.len() as int),
{
    let mut maxd: i128 = 0;
    let mut k: usize = 0;
    while k < surv.len()
        invariant
            k <= surv@.len(),
            forall|t: int| 0 <= t < surv@.len() ==> (#[trigger] surv@[t] as int) < snapshots@.len(),
            maxd as int == max_deviation_upto(snapshots@, surv@, c as int, k as int),
        decreases surv@.len() - k,
    {
        let idx: usize = surv[k];
        let sp: PeerSnapshot = snapshots[idx];
        let diff: i128 = (sp.offset.duration as i128) - (c as i128);
        let ad: i128 = if diff < 0 {
            -diff
        } else {
            diff
        };
        if ad > maxd {
            maxd = ad;
        }
        k = k + 1;
    }
    maxd
}

/// The position (among the survivors) of the system peer: smallest root
/// distance, earliest on ties.
fn best_source_index(snapshots: &Vec<PeerSnapshot>, surv: &Vec<usize>) -> (r: usize)
    requires
        1 <= surv@.len(),
        forall|t: int| 0 <= t < surv@.len() ==> (#[trigger] surv@[t] as int) < snapshots@.len(),
    ensures
        r < surv@.len(),
        r as int == best_source_upto(snapshots@, surv@, surv@.len() as int),
{
    let mut p: usize = 0;
    let mut k: usize = 1;
    while k < surv.len()
        invariant
            1 <= k <= surv@.len(),
            forall|t: int| 0 <= t < surv@.len() ==> (#[trigger] surv@[t] as int) < snapshots@.len(),
            p < k,
            p as int == best_source_upto(snapshots@, surv@, k as int),
        decreases surv@.len() - k,
    {
        let cand: usize = surv[k];
        let cur: usize = surv[p];
        if snapshots[cand].root_distance.duration < snapshots[cur].root_distance.duration {
            p = k;
        }
        k = k + 1;
    }
    p
}

/// The next frequency-error estimate, clamped to the tolerance.
fn next_frequency(prev_offset: i64, prev_freq: i64, combined: i64, tol: i64) -> (r: i64)
    requires
        tol >= 0,
    ensures
        r as int == next_frequency_spec(
            prev_offset as int,
            prev_freq as int,
            combined as int,
            tol as int,
        ),
{
    let q1: i128 = div_trunc_i128(combined as i128, 16);
    let delta: i128 = (combined as i128) - (prev_offset as i128);
    let q2: i128 = div_trunc_i128(delta, 64);
    let s: i128 = (prev_freq as i128) + q1 + q2;
    if s < -(tol as i128) {
        -tol
    } else if s > tol as i128 {
        tol
    } else {
        s as i64
    }
}

/// Saturating non-negative sum of two (sanitized) durations.
fn sat_add_sanitized(a: i64, b: i64) -> (r: i64)
    ensures
        r as int == clamp_int(
            sanitize_nonneg(a as int) + sanitize_nonneg(b as int),
            0,
            i64::MAX as int,
        ),
{
    let aa: u128 = if a < 0 {
        0
    } else {
        a as u128
    };
    let bb: u128 = if b < 0 {
        0
    } else {
        b as u128
    };
    let s: u128 = aa + bb;
    if s > i64::MAX as u128 {
        i64::MAX
    } else {
        s as i64
    }
}

/// The combining/selection controller: owns the system's believed state
/// and the polling-cadence hint, and is the sole mutator of both.
#[derive(Clone, Copy, Debug)]
pub struct DefaultTimeSyncController {
    pub config: SystemConfig,
    pub system: SystemSnapshot,
    /// The cadence recommended to every peer after the last cycle.
    pub poll_hint: PollInterval,
}

impl DefaultTimeSyncController {
    /// A well-formed controller: valid configuration and an in-range
    /// cadence hint.
    pub open spec fn wf(&self) -> bool {
        &&& self.config.wf()
        &&& self.poll_hint.in_limits(self.config.poll_limits)
    }

    /// A fresh controller with the initial system belief.
    pub fn new(config: SystemConfig) -> (r: DefaultTimeSyncController)
        requires
            config.wf(),
        ensures
            r.wf(),
            r.config == config,
            r.system == SystemSnapshot::spec_initial(),
            r.poll_hint == config.poll_limits.min,
    {
        let system: SystemSnapshot = SystemSnapshot::initial();
        DefaultTimeSyncController { config, system, poll_hint: config.poll_limits.min }
    }

    /// Run one evaluation cycle over the current snapshot of every
    /// configured peer.
    ///
    /// With no eligible peer, or a surviving cluster below the configured
    /// floor, nothing is emitted and the controller — its system snapshot
    /// included — is left exactly as it was.  Otherwise the survivors are
    /// combined, the clock correction is a step exactly when the combined
    /// offset's magnitude strictly exceeds the step threshold (a slew
    /// resets nothing; a step resets the frequency estimate), and the new
    /// system snapshot, one version up, is published.
    pub fn update(&mut self, snapshots: &Vec<PeerSnapshot>, now: NtpInstant) -> (r: Option<
        StateUpdate,
    >)
        requires
            old(self).wf(),
            snapshots@.len() <= MAX_PEERS,
        ensures
            final(self).wf(),
            final(self).config == old(self).config,
            ({
                let cfg = old(self).config;
                let elig = eligible_peers(snapshots@, now, cfg.staleness_window.duration as int);
                if elig.len() == 0 {
                    r is None && *final(self) == *old(self)
                } else {
                    let b = best_candidate_upto(snapshots@, elig, elig.len() as int);
                    let x = left_edge(snapshots@, elig, b);
                    let surv = survivors_upto(snapshots@, elig, x, elig.len() as int);
                    if surv.len() < cfg.min_cluster_size {
                        r is None && *final(self) == *old(self)
                    } else {
                        let c = combined_offset_spec(snapshots@, surv);
                        let step = abs_int(c) > cfg.step_threshold.duration.duration;
                        let f = next_frequency_spec(
                            old(self).system.time.offset.duration as int,
                            old(self).system.time.frequency_ppb as int,
                            c,
                            cfg.frequency_tolerance.ppb as int,
                        );
                        let spi = surv[best_source_upto(snapshots@, surv, surv.len() as int)] as int;
                        let sp = snapshots@[spi];
                        let stable = max_deviation_upto(snapshots@, surv, c, surv.len() as int)
                            <= cfg.stability_bound.duration;
                        let hint_e = if stable {
                            dec_exponent(old(self).poll_hint.exponent, cfg.poll_limits)
                        } else {
                            inc_exponent(old(self).poll_hint.exponent, cfg.poll_limits)
                        };
                        match r {
                            Some(u) => {
                                &&& u.decision == (if step {
                                    ClockCorrection::Step(NtpDuration { duration: c as i64 })
                                } else {
                                    ClockCorrection::Slew(NtpDuration { duration: c as i64 })
                                })
                                &&& u.system == final(self).system
                                &&& final(self).system.version
                                    == vstd::wrapping::u64_specs::wrapping_add(
                                    old(self).system.version,
                                    1,
                                )
                                &&& final(self).system.time.offset.duration == c
                                &&& final(self).system.time.frequency_ppb == (if step {
                                    0int
                                } else {
                                    f
                                })
                                &&& final(self).system.time.root_delay.duration
                                    == system_root_delay_spec(sp)
                                &&& final(self).system.time.root_dispersion.duration
                                    == system_root_dispersion_spec(sp)
                                &&& final(self).system.time.leap == sp.leap
                                &&& u.poll_hint == final(self).poll_hint
                                &&& final(self).poll_hint.exponent == hint_e
                                &&& u.survivors@ == surv
                                &&& u.falsetickers@ == falsetickers_upto(
                                    snapshots@,
                                    elig,
                                    x,
                                    elig.len() as int,
                                )
                            },
                            None => false,
                        }
                    }
                }
            }),
    {
        let window: NtpDuration = self.config.staleness_window;
        let elig: Vec<usize> = eligible_indices(snapshots, now, window);
        if elig.len() == 0 {
            return None;
        }
        proof {
            lemma_eligible_upto_bounds(
                snapshots@,
                now,
                window.duration as int,
                snapshots@.len() as int,
            );
            lemma_best_candidate_in_range(snapshots@, elig@, elig@.len() as int);
        }
        let pair: (Vec<usize>, Vec<usize>) = select_survivors(snapshots, &elig);
        let surv: Vec<usize> = pair.0;
        let falsetickers: Vec<usize> = pair.1;
        if surv.len() < self.config.min_cluster_size {
            return None;
        }
        proof {
            lemma_survivors_upto_bounds(
                snapshots@,
                elig@,
                left_edge(
                    snapshots@,
                    elig@,
                    best_candidate_upto(snapshots@, elig@, elig@.len() as int),
                ),
                elig@.len() as int,
                snapshots@.len() as int,
            );
        }
        let c: i64 = combine_offset(snapshots, &surv);
        let freq: i64 = next_frequency(
            self.system.time.offset.duration,
            self.system.time.frequency_ppb,
            c,
            self.config.frequency_tolerance.ppb,
        );
        let abs_c: i128 = if c < 0 {
            -(c as i128)
        } else {
            c as i128
        };
        let step: bool = abs_c > self.config.step_threshold.duration.duration as i128;
        let sp_pos: usize = best_source_index(snapshots, &surv);
        let sp_idx: usize = surv[sp_pos];
        let sp: PeerSnapshot = snapshots[sp_idx];
        let maxdev: i128 = max_deviation(snapshots, &surv, c);
        let stable: bool = maxdev <= self.config.stability_bound.duration as i128;
        let hint: PollInterval = if stable {
            self.poll_hint.dec(self.config.poll_limits)
        } else {
            self.poll_hint.inc(self.config.poll_limits)
        };
        let decision: ClockCorrection = if step {
            ClockCorrection::Step(NtpDuration { duration: c })
        } else {
            ClockCorrection::Slew(NtpDuration { duration: c })
        };
        let new_system: SystemSnapshot = SystemSnapshot {
            version: self.system.version.wrapping_add(1),
            time: TimeSnapshot {
                offset: NtpDuration { duration: c },
                frequency_ppb: if step {
                    0
                } else {
                    freq
                },
                root_delay: NtpDuration {
                    duration: sat_add_sanitized(sp.root_delay.duration, sp.delay.duration),
                },
                root_dispersion: NtpDuration {
                    duration: sat_add_sanitized(
                        sp.root_dispersion.duration,
                        sp.root_distance.duration,
                    ),
                },
                leap: sp.leap,
            },
        };
        self.system = new_system;
        self.poll_hint = hint;
        Some(
            StateUpdate {
                decision,
                system: new_system,
                poll_hint: hint,
                survivors: surv,
                falsetickers,
            },
        )
    }
}

} // verus!
