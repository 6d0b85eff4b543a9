//! The search for a gas limit that is safe to declare for a transaction.
//!
//! The engine reports the exact gas that a call consumed. Declared as the
//! limit of the same call on a live network, that figure is too tight, so the
//! search tries limits between the reported figure and three times as much,
//! halving the range with every probe, and settles on a limit that sufficed.

use vstd::arithmetic::power2::{lemma2_to64, lemma_pow2_unfold, pow2};
use vstd::prelude::*;

verus! {

/// How far a search has come.
pub enum Search<T> {
    /// The search wants the call probed under the limit that `T` gives.
    Probing(T),
    /// The search has settled on this limit.
    Settled(u64),
}

impl<T: View> View for Search<T> {
    type V = Search<T::V>;

    open spec fn view(&self) -> Search<T::V> {
        match *self {
            Search::Probing(search) => Search::Probing(search@),
            Search::Settled(gas) => Search::Settled(gas),
        }
    }
}

/// The range that a search still has to decide: `low` is the baseline or a
/// limit that proved too low, `high` the upper bound or a limit that sufficed,
/// `last_high` the value of `high` before the last limit that sufficed.
pub struct GasBounds {
    pub low: u64,
    pub high: u64,
    pub last_high: u64,
}

impl GasBounds {
    /// A range with something left to decide.
    pub open spec fn wf(self) -> bool {
        self.low + 1 < self.high && self.high <= self.last_high
    }

    /// The limit to probe next: the middle of the range, rounded down.
    pub open spec fn limit(self) -> u64 {
        ((self.high + self.low) / 2) as u64
    }

    /// Two successive sufficient limits that differ by less than a tenth of
    /// the greater.
    pub open spec fn converged(last_high: u64, high: u64) -> bool {
        (last_high - high) * 10 / (last_high as int) < 1
    }

    /// The search over the given range: settled on `high` once `high` and
    /// `low` are at most one apart.
    pub open spec fn narrowed(low: u64, high: u64, last_high: u64) -> Search<GasBounds> {
        if high - low > 1 {
            Search::Probing(GasBounds { low, high, last_high })
        } else {
            Search::Settled(high)
        }
    }

    /// The search for a call that consumed `baseline`.
    pub open spec fn start(baseline: u64) -> Search<GasBounds> {
        GasBounds::narrowed(baseline, (3 * baseline) as u64, (3 * baseline) as u64)
    }

    /// The search after the probe under `self.limit()` has told whether that
    /// limit sufficed.
    pub open spec fn record(self, sufficient: bool) -> Search<GasBounds> {
        let mid = self.limit();
        if !sufficient {
            GasBounds::narrowed(mid, self.high, self.last_high)
        } else if GasBounds::converged(self.last_high, mid) {
            Search::Settled(mid)
        } else {
            GasBounds::narrowed(self.low, mid, mid)
        }
    }
}

/// What is left of the range of a search.
pub open spec fn span(search: Search<GasBounds>) -> int {
    match search {
        Search::Probing(bounds) => bounds.high - bounds.low,
        Search::Settled(_) => 0,
    }
}

/// The limit on which `search` settles when `enough` tells of every limit
/// whether the call gets through under it.
pub open spec fn settle(search: Search<GasBounds>, enough: spec_fn(u64) -> bool) -> u64
    decreases span(search),
{
    match search {
        Search::Settled(gas) => gas,
        Search::Probing(bounds) => if bounds.wf() {
            settle(bounds.record(enough(bounds.limit())), enough)
        } else {
            bounds.high
        },
    }
}

/// The number of probes that `search` makes before it settles.
pub open spec fn probes(search: Search<GasBounds>, enough: spec_fn(u64) -> bool) -> nat
    decreases span(search),
{
    match search {
        Search::Settled(_) => 0,
        Search::Probing(bounds) => if bounds.wf() {
            1 + probes(bounds.record(enough(bounds.limit())), enough)
        } else {
            0
        },
    }
}

/// The gas estimate for a call that consumed `baseline`.
pub open spec fn estimate(baseline: u64, enough: spec_fn(u64) -> bool) -> u64 {
    settle(GasBounds::start(baseline), enough)
}

/// A search in progress.
pub struct GasSearch {
    low: u64,
    high: u64,
    last_high: u64,
}

impl View for GasSearch {
    type V = GasBounds;

    closed spec fn view(&self) -> GasBounds {
        GasBounds { low: self.low, high: self.high, last_high: self.last_high }
    }
}

impl GasSearch {
    #[verifier::type_invariant]
    spec fn inv(self) -> bool {
        self@.wf()
    }

    fn narrowed(low: u64, high: u64, last_high: u64) -> (search: Search<GasSearch>)
        requires
            low <= high <= last_high,
        ensures
            search@ == GasBounds::narrowed(low, high, last_high),
    {
        if high - low > 1 {
            Search::Probing(GasSearch { low, high, last_high })
        } else {
            Search::Settled(high)
        }
    }

    /// Begins the search for a call that consumed `baseline`.
    pub fn start(baseline: u64) -> (search: Search<GasSearch>)
        requires
            3 * baseline <= u64::MAX,
        ensures
            search@ == GasBounds::start(baseline),
    {
        let high: u64 = baseline * 3;
        GasSearch::narrowed(baseline, high, high)
    }

    /// The gas limit under which the call is to be probed next.
    pub fn limit(&self) -> (mid: u64)
        ensures
            self@.wf(),
            mid == self@.limit(),
            self@.low < mid < self@.high,
    {
        proof {
            use_type_invariant(self);
        }
        self.low + (self.high - self.low) / 2
    }

    /// Takes note of whether the call got through under `self.limit()`.
    pub fn record(self, sufficient: bool) -> (search: Search<GasSearch>)
        ensures
            search@ == self@.record(sufficient),
    {
        proof {
            use_type_invariant(&self);
        }
        let mid: u64 = self.limit();
        if !sufficient {
            GasSearch::narrowed(mid, self.high, self.last_high)
        } else {
            let gap: u128 = (self.last_high - mid) as u128;
            if gap * 10 / (self.last_high as u128) < 1 {
                Search::Settled(mid)
            } else {
                GasSearch::narrowed(self.low, mid, mid)
            }
        }
    }
}

/// Two oracles that tell the same of every limit strictly between `low` and
/// `high`.
pub open spec fn agree(
    first: spec_fn(u64) -> bool,
    second: spec_fn(u64) -> bool,
    low: u64,
    high: u64,
) -> bool {
    forall|gas: u64| low < gas < high ==> #[trigger] first(gas) == second(gas)
}

/// A search settles within its range, above `low`.
pub proof fn lemma_settle_within(bounds: GasBounds, enough: spec_fn(u64) -> bool)
    requires
        bounds.wf(),
    ensures
        bounds.low < settle(Search::Probing(bounds), enough) <= bounds.high,
    decreases bounds.high - bounds.low,
{
    reveal_with_fuel(settle, 2);
    match bounds.record(enough(bounds.limit())) {
        Search::Probing(next) => {
            lemma_settle_within(next, enough);
        },
        Search::Settled(_) => {},
    }
}

/// A search settles on its upper bound as it stood at the start, or on a
/// limit that it probed and that sufficed.
pub proof fn lemma_settle_probed(bounds: GasBounds, enough: spec_fn(u64) -> bool)
    requires
        bounds.wf(),
    ensures
        settle(Search::Probing(bounds), enough) == bounds.high || enough(
            settle(Search::Probing(bounds), enough),
        ),
    decreases bounds.high - bounds.low,
{
    reveal_with_fuel(settle, 2);
    match bounds.record(enough(bounds.limit())) {
        Search::Probing(next) => {
            lemma_settle_probed(next, enough);
        },
        Search::Settled(_) => {},
    }
}

/// A search with `probes` probes has a range wider than two to the power of
/// `probes - 1`: the number of probes is at most the binary logarithm of the
/// width of the range, rounded up.
pub proof fn lemma_probes_logarithmic(bounds: GasBounds, enough: spec_fn(u64) -> bool)
    requires
        bounds.wf(),
    ensures
        probes(Search::Probing(bounds), enough) >= 1,
        pow2((probes(Search::Probing(bounds), enough) - 1) as nat) < bounds.high - bounds.low,
    decreases bounds.high - bounds.low,
{
    lemma2_to64();
    reveal_with_fuel(probes, 2);
    match bounds.record(enough(bounds.limit())) {
        Search::Probing(next) => {
            lemma_probes_logarithmic(next, enough);
            let rest = probes(Search::Probing(next), enough);
            lemma_pow2_unfold(rest);
        },
        Search::Settled(_) => {},
    }
}

/// What a search settles on, and after how many probes, depends on the
/// oracle's answers for the limits inside the range alone.
pub proof fn lemma_settle_deterministic(
    bounds: GasBounds,
    first: spec_fn(u64) -> bool,
    second: spec_fn(u64) -> bool,
)
    requires
        bounds.wf(),
        agree(first, second, bounds.low, bounds.high),
    ensures
        settle(Search::Probing(bounds), first) == settle(Search::Probing(bounds), second),
        probes(Search::Probing(bounds), first) == probes(Search::Probing(bounds), second),
    decreases bounds.high - bounds.low,
{
    reveal_with_fuel(settle, 2);
    reveal_with_fuel(probes, 2);
    assert(first(bounds.limit()) == second(bounds.limit()));
    match bounds.record(first(bounds.limit())) {
        Search::Probing(next) => {
            lemma_settle_deterministic(next, first, second);
        },
        Search::Settled(_) => {},
    }
}

/// The estimate is at least the gas that the call consumed, and at most
/// three times as much.
pub proof fn lemma_estimate_bounds(baseline: u64, enough: spec_fn(u64) -> bool)
    requires
        3 * baseline <= u64::MAX,
    ensures
        baseline <= estimate(baseline, enough) <= 3 * baseline,
{
    match GasBounds::start(baseline) {
        Search::Probing(bounds) => {
            lemma_settle_within(bounds, enough);
        },
        Search::Settled(_) => {},
    }
}

/// The call gets through under the estimate, unless the estimate is the
/// upper bound of the search, three times the baseline, and the call does
/// not get through under that: the search never probes its upper bound.
pub proof fn lemma_estimate_suffices(baseline: u64, enough: spec_fn(u64) -> bool)
    requires
        3 * baseline <= u64::MAX,
        estimate(baseline, enough) != 3 * baseline || enough((3 * baseline) as u64),
    ensures
        enough(estimate(baseline, enough)),
{
    match GasBounds::start(baseline) {
        Search::Probing(bounds) => {
            lemma_settle_probed(bounds, enough);
        },
        Search::Settled(_) => {},
    }
}

/// The search ends after at most as many probes as the binary logarithm of
/// twice the baseline, rounded up: after none, or after `n` with two to the
/// power of `n - 1` below twice the baseline.
pub proof fn lemma_estimate_terminates(baseline: u64, enough: spec_fn(u64) -> bool)
    requires
        3 * baseline <= u64::MAX,
    ensures
        ({
            let n = probes(GasBounds::start(baseline), enough);
            n == 0 || pow2((n - 1) as nat) < 2 * baseline
        }),
{
    match GasBounds::start(baseline) {
        Search::Probing(bounds) => {
            lemma_probes_logarithmic(bounds, enough);
        },
        Search::Settled(_) => {},
    }
}

/// Two searches for the same baseline, against engines that answer alike
/// for every limit between the baseline and three times the baseline, settle
/// on the same estimate after the same number of probes.
pub proof fn lemma_estimate_deterministic(
    baseline: u64,
    first: spec_fn(u64) -> bool,
    second: spec_fn(u64) -> bool,
)
    requires
        3 * baseline <= u64::MAX,
        agree(first, second, baseline, (3 * baseline) as u64),
    ensures
        estimate(baseline, first) == estimate(baseline, second),
        probes(GasBounds::start(baseline), first) == probes(GasBounds::start(baseline), second),
{
    match GasBounds::start(baseline) {
        Search::Probing(bounds) => {
            lemma_settle_deterministic(bounds, first, second);
        },
        Search::Settled(_) => {},
    }
}

} // verus!
