//! Time-range index transform: bucketing a timestamp into fixed-length,
//! regularly spaced and possibly overlapping ranges.

use vstd::prelude::*;
use vstd::arithmetic::div_mod::{
    lemma_div_is_ordered, lemma_fundamental_div_mod, lemma_fundamental_div_mod_converse,
};
use vstd::arithmetic::mul::{lemma_mul_inequality, lemma_mul_is_distributive_sub_other_way};

verus! {

/// Maximum allowed overlap factor (`range_ms / step_ms`) for a time-range
/// transform. This bounds the number of index entries a single document
/// produces, preventing a contract from inflating storage and processing
/// cost by declaring a huge window over a tiny step.
pub const MAX_TIME_RANGE_OVERLAP_FACTOR: u64 = 256;

/// An index-level transform that buckets a timestamp index property into
/// fixed-length, regularly spaced time ranges.
///
/// A range is identified by its start time in milliseconds and covers
/// `[start, start + range_ms)`. A new range starts every `step_ms`. When
/// `range_ms > step_ms` the ranges overlap, so one timestamp falls into
/// `range_ms / step_ms` of them and a document is indexed under that many
/// bucket starts.
#[derive(Clone, Debug, PartialEq, Eq, PartialOrd, Ord, Hash)]
pub struct TimeRangeTransform {
    /// The source timestamp index property this transform buckets, for
    /// example `$createdAt`. Must be the first property of the index and
    /// must refer to a millisecond timestamp.
    pub source: String,
    /// Length of each range window, in milliseconds. Must be a positive
    /// multiple of `step_ms`.
    pub range_ms: u64,
    /// Interval between successive range starts, in milliseconds. Must be
    /// greater than zero.
    pub step_ms: u64,
    /// Reference origin for range alignment, in milliseconds. Range starts
    /// are `origin_ms + k * step_ms` for `k = 0, 1, 2, ...`.
    pub origin_ms: u64,
}

impl TimeRangeTransform {
    /// What a validated contract guarantees of a transform: a positive step,
    /// and a window that is a positive multiple of it.
    pub open spec fn well_formed(&self) -> bool {
        &&& self.step_ms > 0
        &&& self.range_ms > 0
        &&& self.range_ms % self.step_ms == 0
    }

    /// `start` is one of the range starts `origin_ms + k * step_ms`.
    pub open spec fn is_range_start(&self, start: int) -> bool {
        &&& self.step_ms > 0
        &&& start >= self.origin_ms
        &&& (start - self.origin_ms) % (self.step_ms as int) == 0
    }

    /// `start` begins a range, and that range contains the instant `t`.
    pub open spec fn range_contains(&self, start: int, t: int) -> bool {
        &&& self.is_range_start(start)
        &&& start <= t < start + self.range_ms
    }

    /// The number of overlapping ranges around an instant far from the origin.
    pub open spec fn spec_overlap_factor(&self) -> nat {
        if self.step_ms == 0 {
            0
        } else {
            (self.range_ms / self.step_ms) as nat
        }
    }

    /// The latest range start that is not after `t`, or the origin where no
    /// range has started yet.
    pub open spec fn spec_most_recent_start(&self, t: int) -> int {
        if self.step_ms == 0 || t < self.origin_ms {
            self.origin_ms as int
        } else {
            t - (t - self.origin_ms) % (self.step_ms as int)
        }
    }

    /// How many ranges have started at or before `t`.
    pub open spec fn started_ranges(&self, t: int) -> nat {
        if self.step_ms == 0 || t < self.origin_ms {
            0
        } else {
            ((t - self.origin_ms) / (self.step_ms as int) + 1) as nat
        }
    }

    /// How many ranges an instant `t` is indexed under: the overlap factor,
    /// cut down to the ranges that have started.
    pub open spec fn bucket_count(&self, t: int) -> nat {
        if self.started_ranges(t) < self.spec_overlap_factor() {
            self.started_ranges(t)
        } else {
            self.spec_overlap_factor()
        }
    }

    /// The bucket starts of `t`, newest first, one step apart.
    pub open spec fn spec_containing_buckets(&self, t: int) -> Seq<u64> {
        Seq::new(
            self.bucket_count(t),
            |j: int| (self.spec_most_recent_start(t) - j * self.step_ms) as u64,
        )
    }

    /// The oldest bucket start of `now`, or the origin where there is none.
    pub open spec fn spec_oldest_active_start(&self, now: int) -> int {
        if self.bucket_count(now) == 0 {
            self.origin_ms as int
        } else {
            self.spec_most_recent_start(now) - (self.bucket_count(now) - 1) * self.step_ms
        }
    }

    /// The number of overlapping ranges that contain any given instant, that
    /// is the number of bucket starts a single document is indexed under.
    /// Equal to `range_ms / step_ms`; `0` for a malformed transform with
    /// `step_ms == 0`.
    pub fn overlap_factor(&self) -> (factor: u64)
        ensures
            factor == self.spec_overlap_factor(),
    {
        if self.step_ms == 0 {
            return 0;
        }
        self.range_ms / self.step_ms
    }

    /// The start of the most recent range that has begun at or before `t`,
    /// that is the largest `origin_ms + k * step_ms` that is `<= t`.
    ///
    /// For `t < origin_ms` (no range has started yet) this saturates to
    /// `origin_ms`.
    pub fn most_recent_start(&self, t: u64) -> (start: u64)
        ensures
            start == self.spec_most_recent_start(t as int),
            self.step_ms > 0 ==> self.is_range_start(start as int),
            self.step_ms > 0 && t >= self.origin_ms ==> start <= t < start + self.step_ms,
            forall|s: int| #[trigger] self.is_range_start(s) && s <= t ==> s <= start,
    {
        if self.step_ms == 0 {
            return self.origin_ms;
        }
        let elapsed: u64 = t.saturating_sub(self.origin_ms);
        proof {
            lemma_most_recent_start(*self, t as int);
            lemma_fundamental_div_mod(elapsed as int, self.step_ms as int);
            assert((elapsed / self.step_ms) * self.step_ms == self.step_ms * (elapsed
                / self.step_ms)) by (nonlinear_arith);
        }
        self.origin_ms + (elapsed / self.step_ms) * self.step_ms
    }

    /// All bucket starts whose range `[start, start + range_ms)` contains the
    /// timestamp `t`. This is the set of index entries a document with
    /// timestamp `t` must be written under.
    ///
    /// The result is sorted in descending order (newest range first) and has
    /// exactly `overlap_factor` elements, except near `origin_ms` where fewer
    /// ranges have started; before `origin_ms` there is none.
    pub fn containing_buckets(&self, t: u64) -> (starts: Vec<u64>)
        ensures
            starts@ == self.spec_containing_buckets(t as int),
            forall|i: int, j: int| 0 <= i < j < starts@.len() ==> starts@[i] > starts@[j],
            self.well_formed() ==> forall|s: u64| #[trigger]
                starts@.contains(s) <==> self.range_contains(s as int, t as int),
    {
        let overlap: u64 = self.overlap_factor();
        let mut starts: Vec<u64> = Vec::new();
        if overlap == 0 || t < self.origin_ms {
            proof {
                lemma_containing_buckets(*self, t as int);
            }
            return starts;
        }
        let newest: u64 = self.most_recent_start(t);
        let last: u64 = (t - self.origin_ms) / self.step_ms;
        let mut j: u64 = 0;
        while j < overlap && j <= last
            invariant
                self.step_ms > 0,
                t >= self.origin_ms,
                overlap == self.spec_overlap_factor(),
                newest == self.spec_most_recent_start(t as int),
                last == (t - self.origin_ms) / (self.step_ms as int),
                j <= overlap,
                j <= last + 1,
                starts@ =~= Seq::new(j as nat, |i: int| (newest - i * self.step_ms) as u64),
            decreases overlap - j,
        {
            proof {
                lemma_bucket(*self, t as int, j as int);
            }
            starts.push(newest - j * self.step_ms);
            j = j + 1;
        }
        proof {
            lemma_containing_buckets(*self, t as int);
        }
        starts
    }

    /// The start of the newest range that is active at `now` (the freshest
    /// started range). Querying this bucket returns documents from the latest
    /// partial slice, between `0` and `step_ms` of history.
    pub fn newest_active_start(&self, now: u64) -> (start: u64)
        ensures
            start == self.spec_most_recent_start(now as int),
            self.step_ms > 0 && now >= self.origin_ms ==> 0 <= now - start < self.step_ms,
    {
        self.most_recent_start(now)
    }

    /// The start of the oldest range still active at `now`. Its window
    /// `[start, start + range_ms)` still contains `now`, so querying this
    /// bucket returns a near-full trailing window of history (between
    /// `range_ms - step_ms` and `range_ms` once enough ranges have started).
    /// Saturates to `origin_ms` where no range is active.
    pub fn oldest_active_start(&self, now: u64) -> (start: u64)
        ensures
            start == self.spec_oldest_active_start(now as int),
            self.well_formed() && now >= self.origin_ms ==> self.range_contains(
                start as int,
                now as int,
            ),
            self.well_formed() ==> forall|s: int| #[trigger]
                self.range_contains(s, now as int) ==> start <= s,
    {
        let overlap: u64 = self.overlap_factor();
        proof {
            lemma_oldest_active_start(*self, now as int);
        }
        if overlap == 0 {
            return self.origin_ms;
        }
        let newest: u64 = self.most_recent_start(now);
        let back: u64 = (overlap - 1) * self.step_ms;
        let start: u64 = newest.saturating_sub(back);
        if start < self.origin_ms {
            self.origin_ms
        } else {
            start
        }
    }
}

/// The most recent start is a range start within one step of `t`, and no
/// other range start lies between the two.
proof fn lemma_most_recent_start(transform: TimeRangeTransform, t: int)
    requires
        transform.step_ms > 0,
    ensures
        transform.is_range_start(transform.spec_most_recent_start(t)),
        t >= transform.origin_ms ==> transform.spec_most_recent_start(t) <= t
            < transform.spec_most_recent_start(t) + transform.step_ms,
        forall|s: int| #[trigger]
            transform.is_range_start(s) && s <= t ==> s <= transform.spec_most_recent_start(t),
{
    let step = transform.step_ms as int;
    let origin = transform.origin_ms as int;
    if t >= origin {
        let q = (t - origin) / step;
        lemma_fundamental_div_mod(t - origin, step);
        assert(q * step == step * q) by (nonlinear_arith);
        assert(q >= 0) by {
            lemma_div_is_ordered(0, t - origin, step);
            lemma_fundamental_div_mod_converse(0, step, 0, 0);
        }
        lemma_mul_inequality(0, q, step);
        lemma_fundamental_div_mod_converse(
            transform.spec_most_recent_start(t) - origin,
            step,
            q,
            0,
        );
        assert forall|s: int| #[trigger] transform.is_range_start(s) && s <= t implies s
            <= transform.spec_most_recent_start(t) by {
            let k = (s - origin) / step;
            lemma_fundamental_div_mod(s - origin, step);
            lemma_div_is_ordered(s - origin, t - origin, step);
            lemma_mul_inequality(k, q, step);
            assert(k * step == step * k) by (nonlinear_arith);
        }
    } else {
        lemma_fundamental_div_mod_converse(0, step, 0, 0);
    }
}

/// The range start `j` steps before the most recent one.
proof fn lemma_bucket(transform: TimeRangeTransform, t: int, j: int)
    requires
        transform.step_ms > 0,
        t >= transform.origin_ms,
        0 <= j < transform.started_ranges(t),
    ensures
        transform.origin_ms <= transform.spec_most_recent_start(t) - j * transform.step_ms <= t,
        0 <= j * transform.step_ms <= transform.spec_most_recent_start(t),
        transform.is_range_start(transform.spec_most_recent_start(t) - j * transform.step_ms),
{
    let step = transform.step_ms as int;
    let origin = transform.origin_ms as int;
    let q = (t - origin) / step;
    lemma_fundamental_div_mod(t - origin, step);
    lemma_most_recent_start(transform, t);
    assert(q * step == step * q) by (nonlinear_arith);
    lemma_mul_is_distributive_sub_other_way(step, q, j);
    lemma_mul_inequality(0, j, step);
    lemma_mul_inequality(0, q - j, step);
    lemma_fundamental_div_mod_converse((q - j) * step, step, q - j, 0);
}

/// Where the bucket starts lie, and which range starts they are.
proof fn lemma_containing_buckets(transform: TimeRangeTransform, t: int)
    requires
        0 <= t <= u64::MAX,
    ensures
        transform.bucket_count(t) == transform.spec_containing_buckets(t).len(),
        forall|j: int|
            0 <= j < transform.bucket_count(t) ==> #[trigger] transform.spec_containing_buckets(t)[j]
                == transform.spec_most_recent_start(t) - j * transform.step_ms,
        forall|i: int, j: int|
            0 <= i < j < transform.bucket_count(t) ==> #[trigger] transform.spec_containing_buckets(
                t,
            )[i] > #[trigger] transform.spec_containing_buckets(t)[j],
        transform.well_formed() ==> forall|s: u64| #[trigger]
            transform.spec_containing_buckets(t).contains(s) <==> transform.range_contains(
                s as int,
                t,
            ),
{
    let starts = transform.spec_containing_buckets(t);
    let newest = transform.spec_most_recent_start(t);
    let step = transform.step_ms as int;
    assert forall|j: int| 0 <= j < transform.bucket_count(t) implies #[trigger] starts[j] == newest
        - j * step by {
        lemma_bucket(transform, t, j);
    }
    assert forall|i: int, j: int| 0 <= i < j < transform.bucket_count(t) implies #[trigger] starts[i]
        > #[trigger] starts[j] by {
        assert(i * step < j * step) by (nonlinear_arith)
            requires
                i < j,
                step > 0,
        ;
    }
    if transform.well_formed() {
        assert forall|s: u64| #[trigger] starts.contains(s) <==> transform.range_contains(
            s as int,
            t,
        ) by {
            if starts.contains(s) {
                let j = choose|j: int| 0 <= j < starts.len() && starts[j] == s;
                lemma_bucket(transform, t, j);
                lemma_bucket_window(transform, t, j);
            }
            if transform.range_contains(s as int, t) {
                let j = lemma_containing_range(transform, s as int, t);
                assert(starts[j] == s);
            }
        }
    }
}

/// The window that starts `j` steps before the most recent start contains
/// `t` exactly while `j` is below the overlap factor.
proof fn lemma_bucket_window(transform: TimeRangeTransform, t: int, j: int)
    requires
        transform.well_formed(),
        t >= transform.origin_ms,
        0 <= j,
    ensures
        (t < transform.spec_most_recent_start(t) - j * transform.step_ms + transform.range_ms) <==> j
            < transform.spec_overlap_factor(),
{
    let step = transform.step_ms as int;
    let range = transform.range_ms as int;
    let factor = range / step;
    let rest = t - transform.spec_most_recent_start(t);
    lemma_most_recent_start(transform, t);
    lemma_fundamental_div_mod(range, step);
    assert((rest + j * step < step * factor) <==> j < factor) by (nonlinear_arith)
        requires
            0 <= rest < step,
    ;
}

/// A range that contains `t` starts a whole number of steps before the most
/// recent start, and is among the ranges `t` is indexed under.
proof fn lemma_containing_range(transform: TimeRangeTransform, start: int, t: int) -> (j: int)
    requires
        transform.well_formed(),
        transform.range_contains(start, t),
    ensures
        0 <= j < transform.bucket_count(t),
        start == transform.spec_most_recent_start(t) - j * transform.step_ms,
{
    let step = transform.step_ms as int;
    let origin = transform.origin_ms as int;
    let q = (t - origin) / step;
    let k = (start - origin) / step;
    lemma_fundamental_div_mod(t - origin, step);
    lemma_fundamental_div_mod(start - origin, step);
    lemma_div_is_ordered(start - origin, t - origin, step);
    lemma_div_is_ordered(0, start - origin, step);
    lemma_fundamental_div_mod_converse(0, step, 0, 0);
    assert((q - k) * step == step * q - step * k) by (nonlinear_arith);
    lemma_bucket_window(transform, t, q - k);
    q - k
}

/// The oldest bucket start lies `overlap_factor - 1` steps before the most
/// recent one, or at the origin, and no range containing `now` is older.
proof fn lemma_oldest_active_start(transform: TimeRangeTransform, now: int)
    requires
        0 <= now <= u64::MAX,
    ensures
        transform.spec_overlap_factor() > 0 ==> 0 <= (transform.spec_overlap_factor() - 1)
            * transform.step_ms <= u64::MAX,
        transform.spec_overlap_factor() > 0 ==> transform.spec_oldest_active_start(now) == ({
            let start = transform.spec_most_recent_start(now) - (transform.spec_overlap_factor()
                - 1) * transform.step_ms;
            if start < transform.origin_ms {
                transform.origin_ms as int
            } else {
                start
            }
        }),
        transform.origin_ms <= transform.spec_oldest_active_start(now) <= u64::MAX,
        transform.well_formed() && now >= transform.origin_ms ==> transform.range_contains(
            transform.spec_oldest_active_start(now),
            now,
        ),
        transform.well_formed() ==> forall|s: int| #[trigger]
            transform.range_contains(s, now) ==> transform.spec_oldest_active_start(now) <= s,
{
    let step = transform.step_ms as int;
    let origin = transform.origin_ms as int;
    let factor = transform.spec_overlap_factor() as int;
    let count = transform.bucket_count(now) as int;
    if factor > 0 {
        lemma_fundamental_div_mod(transform.range_ms as int, step);
        assert(0 <= (factor - 1) * step <= step * factor) by (nonlinear_arith)
            requires
                factor > 0,
                step > 0,
        ;
        if now >= origin {
            let q = (now - origin) / step;
            lemma_fundamental_div_mod(now - origin, step);
            lemma_div_is_ordered(0, now - origin, step);
            lemma_fundamental_div_mod_converse(0, step, 0, 0);
            lemma_bucket(transform, now, count - 1);
            assert(step * q - q * step == 0) by (nonlinear_arith);
            if q + 1 < factor {
                assert(q * step < (factor - 1) * step) by (nonlinear_arith)
                    requires
                        q + 1 < factor,
                        step > 0,
                ;
            }
        }
    }
    if transform.well_formed() {
        if now >= origin {
            assert(factor > 0) by {
                lemma_fundamental_div_mod(transform.range_ms as int, step);
                assert(step * factor > 0 ==> factor > 0) by (nonlinear_arith)
                    requires
                        step > 0,
                ;
            }
            lemma_bucket_window(transform, now, count - 1);
        }
        assert forall|s: int| #[trigger] transform.range_contains(s, now) implies
            transform.spec_oldest_active_start(now) <= s by {
            let j = lemma_containing_range(transform, s, now);
            lemma_mul_inequality(j, count - 1, step);
        }
    }
}

impl TimeRangeTransform {
    /// The entries of an index after a document with timestamp `t` was written
    /// under each of its bucket starts.
    pub open spec fn with_document<D>(
        &self,
        entries: Set<(u64, D)>,
        t: u64,
        document: D,
    ) -> Set<(u64, D)> {
        entries.union(self.document_entries(t, document))
    }

    /// The entries of an index after a document with timestamp `t` was removed
    /// from under each of its bucket starts.
    pub open spec fn without_document<D>(
        &self,
        entries: Set<(u64, D)>,
        t: u64,
        document: D,
    ) -> Set<(u64, D)> {
        entries.difference(self.document_entries(t, document))
    }

    /// One entry per bucket start of `t`.
    pub open spec fn document_entries<D>(&self, t: u64, document: D) -> Set<(u64, D)> {
        self.spec_containing_buckets(t as int).map_values(|start: u64| (start, document)).to_set()
    }
}

/// A transform within the allowed overlap factor never produces more index
/// entries for one document than that factor allows, whatever its timestamp.
pub proof fn law_overlap_bounds_entries(transform: TimeRangeTransform, t: u64)
    requires
        transform.spec_overlap_factor() <= MAX_TIME_RANGE_OVERLAP_FACTOR,
    ensures
        transform.spec_containing_buckets(t as int).len() <= MAX_TIME_RANGE_OVERLAP_FACTOR,
        transform.spec_containing_buckets(t as int).len() <= 256,
{
}

/// A document is indexed under exactly `overlap_factor` buckets, except where
/// fewer than that many ranges have started: there, under all that have.
pub proof fn law_entry_count(transform: TimeRangeTransform, t: u64)
    requires
        transform.well_formed(),
    ensures
        t >= transform.origin_ms + transform.range_ms - transform.step_ms <==> (
        transform.spec_containing_buckets(t as int).len() == transform.spec_overlap_factor()),
        t < transform.origin_ms + transform.range_ms - transform.step_ms ==> (
        transform.spec_containing_buckets(t as int).len() == transform.started_ranges(t as int)),
{
    let step = transform.step_ms as int;
    let origin = transform.origin_ms as int;
    let factor = transform.spec_overlap_factor() as int;
    lemma_fundamental_div_mod(transform.range_ms as int, step);
    assert(step * factor > 0 ==> factor > 0) by (nonlinear_arith)
        requires
            step > 0,
    ;
    assert(step * factor - step == step * (factor - 1)) by (nonlinear_arith);
    if t >= origin {
        let q = (t - origin) / step;
        let rest = (t - origin) % step;
        lemma_fundamental_div_mod(t - origin, step);
        assert((step * q + rest >= step * (factor - 1)) <==> q + 1 >= factor) by (nonlinear_arith)
            requires
                0 <= rest < step,
        ;
    } else {
        assert(step * (factor - 1) >= 0) by (nonlinear_arith)
            requires
                step > 0,
                factor > 0,
        ;
    }
}

/// The newest and the oldest active start are the first and the last bucket
/// of the same instant.
pub proof fn law_active_starts_are_the_outer_buckets(transform: TimeRangeTransform, now: u64)
    requires
        transform.spec_containing_buckets(now as int).len() > 0,
    ensures
        transform.spec_containing_buckets(now as int).first() == transform.spec_most_recent_start(
            now as int,
        ),
        transform.spec_containing_buckets(now as int).last() == transform.spec_oldest_active_start(
            now as int,
        ),
{
    lemma_containing_buckets(transform, now as int);
}

/// Once enough ranges have started, there is at every instant an active range
/// that reaches back a near-full window: at least `range_ms - step_ms`, and
/// less than `range_ms`, of history.
pub proof fn law_oldest_active_range_spans_a_near_full_window(
    transform: TimeRangeTransform,
    now: u64,
)
    requires
        transform.well_formed(),
        now >= transform.origin_ms + transform.range_ms - transform.step_ms,
    ensures
        transform.range_contains(transform.spec_oldest_active_start(now as int), now as int),
        transform.range_ms - transform.step_ms <= now - transform.spec_oldest_active_start(
            now as int,
        ) < transform.range_ms,
{
    let step = transform.step_ms as int;
    let factor = transform.spec_overlap_factor() as int;
    law_entry_count(transform, now);
    lemma_oldest_active_start(transform, now as int);
    lemma_most_recent_start(transform, now as int);
    lemma_fundamental_div_mod(transform.range_ms as int, step);
    assert(step * factor - step == (factor - 1) * step) by (nonlinear_arith);
    assert(step * factor > 0 ==> step * factor >= step) by (nonlinear_arith)
        requires
            step > 0,
    ;
}

/// After a document is written under its buckets, looking it up under an exact
/// key finds it exactly where the key starts a range containing its timestamp.
/// In particular it is not found under the raw timestamp, unless a range
/// starts there. Other documents are found where they were.
pub proof fn law_lookup_finds_document_under_its_ranges<D>(
    transform: TimeRangeTransform,
    entries: Set<(u64, D)>,
    t: u64,
    document: D,
    key: u64,
    other: D,
)
    requires
        transform.well_formed(),
        forall|k: u64| !entries.contains((k, document)),
        other != document,
    ensures
        transform.with_document(entries, t, document).contains((key, document))
            <==> transform.range_contains(key as int, t as int),
        transform.with_document(entries, t, document).contains((t, document))
            <==> transform.is_range_start(t as int),
        transform.with_document(entries, t, document).contains((key, other)) <==> entries.contains(
            (key, other),
        ),
{
    lemma_document_entries(transform, t, document);
    lemma_containing_buckets(transform, t as int);
}

/// Deleting a document removes every entry that writing it made, and nothing
/// else: the index is what it was before.
pub proof fn law_delete_undoes_insert<D>(
    transform: TimeRangeTransform,
    entries: Set<(u64, D)>,
    t: u64,
    document: D,
)
    requires
        forall|k: u64| !entries.contains((k, document)),
    ensures
        transform.without_document(transform.with_document(entries, t, document), t, document)
            == entries,
        forall|k: u64|
            !transform.without_document(
                transform.with_document(entries, t, document),
                t,
                document,
            ).contains((k, document)),
{
    lemma_document_entries(transform, t, document);
    assert(transform.without_document(
        transform.with_document(entries, t, document),
        t,
        document,
    ) =~= entries) by {
        assert forall|e: (u64, D)|
            transform.document_entries(t, document).contains(e) implies !entries.contains(e) by {
            assert(e == (e.0, document));
        }
    }
}

/// The entries of a document pair each of its bucket starts with it.
proof fn lemma_document_entries<D>(transform: TimeRangeTransform, t: u64, document: D)
    ensures
        forall|e: (u64, D)| #[trigger]
            transform.document_entries(t, document).contains(e) <==> e.1 == document
                && transform.spec_containing_buckets(t as int).contains(e.0),
{
    let starts = transform.spec_containing_buckets(t as int);
    let paired = starts.map_values(|start: u64| (start, document));
    assert forall|e: (u64, D)| #[trigger]
        transform.document_entries(t, document).contains(e) <==> e.1 == document
            && starts.contains(e.0) by {
        if paired.contains(e) {
            let i = choose|i: int| 0 <= i < paired.len() && paired[i] == e;
            assert(starts[i] == e.0);
        }
        if e.1 == document && starts.contains(e.0) {
            let i = choose|i: int| 0 <= i < starts.len() && starts[i] == e.0;
            assert(paired[i] == e);
        }
    }
}

/// The overlap factor is how often a whole step fits into the window. Where
/// the window is a multiple of the step, that many steps make up the window.
pub proof fn law_overlap_factor_counts_the_steps_of_a_window(transform: TimeRangeTransform)
    ensures
        transform.step_ms == 0 ==> transform.spec_overlap_factor() == 0,
        transform.step_ms > 0 ==> transform.spec_overlap_factor() * transform.step_ms
            <= transform.range_ms < (transform.spec_overlap_factor() + 1) * transform.step_ms,
        transform.step_ms > 0 && transform.range_ms % transform.step_ms == 0
            ==> transform.spec_overlap_factor() * transform.step_ms == transform.range_ms,
{
    if transform.step_ms > 0 {
        let step = transform.step_ms as int;
        let factor = transform.spec_overlap_factor() as int;
        lemma_fundamental_div_mod(transform.range_ms as int, step);
        assert(step * factor == factor * step && (factor + 1) * step == factor * step + step)
            by (nonlinear_arith);
    }
}

/// The most recent start lies a whole number of steps after the origin, and at
/// most one step before the instant. Before the origin, and where there is no
/// step, it is the origin.
pub proof fn law_most_recent_start_is_the_last_step_before(transform: TimeRangeTransform, t: u64)
    ensures
        transform.step_ms == 0 || t < transform.origin_ms ==> transform.spec_most_recent_start(
            t as int,
        ) == transform.origin_ms,
        transform.step_ms > 0 && t >= transform.origin_ms ==> {
            let start = transform.spec_most_recent_start(t as int);
            &&& transform.origin_ms <= start <= t
            &&& t < start + transform.step_ms
            &&& (start - transform.origin_ms) % (transform.step_ms as int) == 0
        },
{
    if transform.step_ms > 0 {
        lemma_most_recent_start(transform, t as int);
    }
}

/// For a window that is a multiple of the step, an instant is indexed under a
/// key exactly where the key lies a whole number of steps after the origin,
/// not after the instant, and less than a window before it.
pub proof fn law_buckets_are_the_ranges_around_an_instant(
    transform: TimeRangeTransform,
    t: u64,
    key: u64,
)
    requires
        transform.step_ms > 0,
        transform.range_ms > 0,
        transform.range_ms % transform.step_ms == 0,
    ensures
        transform.spec_containing_buckets(t as int).contains(key) <==> {
            &&& key >= transform.origin_ms
            &&& (key - transform.origin_ms) % (transform.step_ms as int) == 0
            &&& key <= t
            &&& t < key + transform.range_ms
        },
{
    lemma_containing_buckets(transform, t as int);
    assert(transform.spec_containing_buckets(t as int).contains(key)
        <==> transform.range_contains(key as int, t as int));
}

/// Whatever the window, the buckets of an instant lie exactly one step apart,
/// newest first. The newest is the last step before the instant, none lies
/// before the origin, they do not reach back further than a window, and no
/// further one would fit. Before the origin, and where a step does not fit
/// into the window, there is none.
pub proof fn law_buckets_lie_one_step_apart(transform: TimeRangeTransform, t: u64)
    ensures
        ({
            let buckets = transform.spec_containing_buckets(t as int);
            let step = transform.step_ms as int;
            let origin = transform.origin_ms as int;
            if step == 0 || t < origin || transform.range_ms < step {
                buckets.len() == 0
            } else {
                &&& buckets.len() > 0
                &&& origin <= buckets[0] <= t < buckets[0] + step
                &&& (buckets[0] - origin) % step == 0
                &&& forall|j: int|
                    0 <= j < buckets.len() ==> #[trigger] buckets[j] == buckets[0] - j * step
                &&& buckets[buckets.len() - 1] >= origin
                &&& buckets.len() * step <= transform.range_ms
                &&& buckets[buckets.len() - 1] >= origin + step ==> (buckets.len() + 1) * step
                    > transform.range_ms
            }
        }),
{
    let buckets = transform.spec_containing_buckets(t as int);
    let step = transform.step_ms as int;
    let origin = transform.origin_ms as int;
    let factor = transform.spec_overlap_factor() as int;
    lemma_containing_buckets(transform, t as int);
    if step > 0 {
        law_overlap_factor_counts_the_steps_of_a_window(transform);
        assert(factor > 0 <==> transform.range_ms >= step) by (nonlinear_arith)
            requires
                factor * step <= transform.range_ms < (factor + 1) * step,
                step > 0,
                factor >= 0,
        ;
        if t >= origin && factor > 0 {
            let q = (t - origin) / step;
            let count = transform.bucket_count(t as int) as int;
            lemma_fundamental_div_mod(t - origin, step);
            lemma_div_is_ordered(0, t - origin, step);
            lemma_fundamental_div_mod_converse(0, step, 0, 0);
            lemma_most_recent_start(transform, t as int);
            lemma_bucket(transform, t as int, count - 1);
            assert(count * step <= factor * step) by (nonlinear_arith)
                requires
                    count <= factor,
                    step > 0,
            ;
            if count < factor {
                assert(step * q - (count - 1) * step == 0) by (nonlinear_arith)
                    requires
                        count == q + 1,
                ;
            }
        }
    }
}

/// The oldest active start lies a whole number of steps after the origin. Its
/// window, cut down to whole steps, still contains the instant, and that of
/// the start before it does not, unless there is none before it. Where no
/// range is active it is the origin.
pub proof fn law_oldest_active_start_is_the_last_that_reaches(
    transform: TimeRangeTransform,
    now: u64,
)
    ensures
        ({
            let start = transform.spec_oldest_active_start(now as int);
            let step = transform.step_ms as int;
            let origin = transform.origin_ms as int;
            if step == 0 || now < origin || transform.range_ms < step {
                start == origin
            } else {
                let window = transform.range_ms - (transform.range_ms as int) % step;
                &&& origin <= start <= now
                &&& (start - origin) % step == 0
                &&& now < start + window
                &&& start - step >= origin ==> now >= start - step + window
            }
        }),
{
    let buckets = transform.spec_containing_buckets(now as int);
    let step = transform.step_ms as int;
    let origin = transform.origin_ms as int;
    let factor = transform.spec_overlap_factor() as int;
    law_buckets_lie_one_step_apart(transform, now);
    if step > 0 && now >= origin && transform.range_ms >= step {
        let count = buckets.len() as int;
        law_active_starts_are_the_outer_buckets(transform, now);
        lemma_fundamental_div_mod(transform.range_ms as int, step);
        lemma_bucket(transform, now as int, count - 1);
        assert(factor * step == step * factor) by (nonlinear_arith);
        assert(count * step == (count - 1) * step + step) by (nonlinear_arith);
        assert(count * step <= factor * step) by (nonlinear_arith)
            requires
                count <= factor,
                step > 0,
        ;
        if buckets[count - 1] - step >= origin {
            assert(count == factor) by (nonlinear_arith)
                requires
                    count <= factor,
                    (count + 1) * step > transform.range_ms,
                    factor * step <= transform.range_ms,
                    step > 0,
            ;
        }
    }
}

/// Writing a document adds it under the keys of its ranges, and under no
/// others; removing it takes it away from there, and from nowhere else. Other
/// documents stay where they are.
pub proof fn law_writing_and_removing_touch_the_ranges_alone<D>(
    transform: TimeRangeTransform,
    entries: Set<(u64, D)>,
    t: u64,
    document: D,
    key: u64,
    other: D,
)
    requires
        transform.step_ms > 0,
        transform.range_ms > 0,
        transform.range_ms % transform.step_ms == 0,
        other != document,
    ensures
        ({
            let in_range = key >= transform.origin_ms && (key - transform.origin_ms) % (
            transform.step_ms as int) == 0 && key <= t && t < key + transform.range_ms;
            &&& transform.with_document(entries, t, document).contains((key, document)) <==> (
            in_range || entries.contains((key, document)))
            &&& transform.without_document(entries, t, document).contains((key, document)) <==> (
            !in_range && entries.contains((key, document)))
            &&& transform.with_document(entries, t, document).contains((key, other))
                <==> entries.contains((key, other))
            &&& transform.without_document(entries, t, document).contains((key, other))
                <==> entries.contains((key, other))
        }),
{
    lemma_document_entries(transform, t, document);
    law_buckets_are_the_ranges_around_an_instant(transform, t, key);
    assert(transform.document_entries(t, document).contains((key, document))
        <==> transform.spec_containing_buckets(t as int).contains(key));
    assert(!transform.document_entries(t, document).contains((key, other)));
}

/// What the functions themselves return for an instant at or after the origin,
/// where the window is a multiple of the step: the factor measures the window
/// in steps, the newest active start is the last step before the instant, the
/// oldest is the first of the ranges that contain it, and a document is
/// written under exactly those ranges, newest first.
pub proof fn law_functions_agree_on_the_active_ranges(
    transform: TimeRangeTransform,
    now: u64,
    factor: u64,
    newest: u64,
    recent: u64,
    oldest: u64,
    starts: Vec<u64>,
    key: u64,
)
    requires
        transform.step_ms > 0,
        transform.range_ms > 0,
        transform.range_ms % transform.step_ms == 0,
        now >= transform.origin_ms,
        call_ensures(TimeRangeTransform::overlap_factor, (&transform,), factor),
        call_ensures(TimeRangeTransform::newest_active_start, (&transform, now), newest),
        call_ensures(TimeRangeTransform::most_recent_start, (&transform, now), recent),
        call_ensures(TimeRangeTransform::oldest_active_start, (&transform, now), oldest),
        call_ensures(TimeRangeTransform::containing_buckets, (&transform, now), starts),
    ensures
        factor * transform.step_ms == transform.range_ms,
        newest == recent,
        newest <= now < newest + transform.step_ms,
        (newest - transform.origin_ms) % (transform.step_ms as int) == 0,
        newest >= transform.origin_ms,
        oldest >= transform.origin_ms,
        (oldest - transform.origin_ms) % (transform.step_ms as int) == 0,
        oldest <= now < oldest + transform.range_ms,
        oldest - transform.step_ms < transform.origin_ms || now >= oldest - transform.step_ms
            + transform.range_ms,
        0 < starts@.len() <= factor,
        starts@[0] == newest,
        starts@[starts@.len() - 1] == oldest,
        forall|j: int|
            0 <= j < starts@.len() ==> #[trigger] starts@[j] == newest - j * transform.step_ms,
        starts@.contains(key) <==> {
            &&& key >= transform.origin_ms
            &&& (key - transform.origin_ms) % (transform.step_ms as int) == 0
            &&& key <= now
            &&& now < key + transform.range_ms
        },
{
    let step = transform.step_ms as int;
    law_overlap_factor_counts_the_steps_of_a_window(transform);
    law_most_recent_start_is_the_last_step_before(transform, now);
    assert(transform.range_ms >= step) by {
        lemma_fundamental_div_mod(transform.range_ms as int, step);
        let q = transform.range_ms as int / step;
        assert(step * q > 0 ==> step * q >= step) by (nonlinear_arith)
            requires
                step > 0,
        ;
    }
    law_buckets_lie_one_step_apart(transform, now);
    law_oldest_active_start_is_the_last_that_reaches(transform, now);
    law_active_starts_are_the_outer_buckets(transform, now);
    law_buckets_are_the_ranges_around_an_instant(transform, now, key);
    assert(transform.bucket_count(now as int) <= transform.spec_overlap_factor());
}

/// What the functions themselves return before the origin, and for a transform
/// without a step or with a window shorter than one: no bucket, and the origin
/// for the oldest active start.
pub proof fn law_functions_where_no_range_is_active(
    transform: TimeRangeTransform,
    now: u64,
    factor: u64,
    newest: u64,
    oldest: u64,
    starts: Vec<u64>,
)
    requires
        transform.step_ms == 0 || now < transform.origin_ms || transform.range_ms
            < transform.step_ms,
        call_ensures(TimeRangeTransform::overlap_factor, (&transform,), factor),
        call_ensures(TimeRangeTransform::newest_active_start, (&transform, now), newest),
        call_ensures(TimeRangeTransform::oldest_active_start, (&transform, now), oldest),
        call_ensures(TimeRangeTransform::containing_buckets, (&transform, now), starts),
    ensures
        starts@.len() == 0,
        oldest == transform.origin_ms,
        transform.step_ms == 0 ==> factor == 0,
        transform.range_ms < transform.step_ms ==> factor == 0,
        transform.step_ms == 0 || now < transform.origin_ms ==> newest == transform.origin_ms,
{
    law_overlap_factor_counts_the_steps_of_a_window(transform);
    law_most_recent_start_is_the_last_step_before(transform, now);
    law_buckets_lie_one_step_apart(transform, now);
    law_oldest_active_start_is_the_last_that_reaches(transform, now);
    if transform.range_ms < transform.step_ms {
        let step = transform.step_ms as int;
        let f = transform.spec_overlap_factor() as int;
        assert(f == 0) by (nonlinear_arith)
            requires
                f * step <= transform.range_ms,
                transform.range_ms < step,
                f >= 0,
        ;
    }
}

/// What the functions themselves return for any window: the buckets lie one
/// step apart, from the last step before the instant down to the oldest active
/// start, and reach back no further than a window.
pub proof fn law_functions_for_any_window(
    transform: TimeRangeTransform,
    now: u64,
    factor: u64,
    newest: u64,
    oldest: u64,
    starts: Vec<u64>,
)
    requires
        0 < transform.step_ms <= transform.range_ms,
        now >= transform.origin_ms,
        call_ensures(TimeRangeTransform::overlap_factor, (&transform,), factor),
        call_ensures(TimeRangeTransform::newest_active_start, (&transform, now), newest),
        call_ensures(TimeRangeTransform::oldest_active_start, (&transform, now), oldest),
        call_ensures(TimeRangeTransform::containing_buckets, (&transform, now), starts),
    ensures
        factor * transform.step_ms <= transform.range_ms < (factor + 1) * transform.step_ms,
        transform.origin_ms <= newest <= now < newest + transform.step_ms,
        (newest - transform.origin_ms) % (transform.step_ms as int) == 0,
        starts@.len() > 0,
        starts@.len() * transform.step_ms <= transform.range_ms,
        forall|j: int|
            0 <= j < starts@.len() ==> #[trigger] starts@[j] == newest - j * transform.step_ms,
        starts@[starts@.len() - 1] == oldest,
        oldest >= transform.origin_ms,
        oldest >= transform.origin_ms + transform.step_ms ==> (starts@.len() + 1)
            * transform.step_ms > transform.range_ms,
{
    law_overlap_factor_counts_the_steps_of_a_window(transform);
    law_most_recent_start_is_the_last_step_before(transform, now);
    law_buckets_lie_one_step_apart(transform, now);
    law_active_starts_are_the_outer_buckets(transform, now);
}

} // verus!
