//! The bounded binary search over the scale factor: a fixed number of
//! resize-and-encode trials narrows an interval of fixed-point scale
//! factors, keeping the best encoding found under the budget and stopping
//! early once a result lands close enough to it.

use vstd::prelude::*;
use vstd::arithmetic::div_mod::{lemma_div_is_ordered, lemma_div_multiples_vanish};
use vstd::arithmetic::mul::lemma_mul_inequality;
use crate::codec::spec_trial;
use crate::codec::try_compress_size;
use crate::raster::{RasterImage, RasterView, SCALE_MIN, SCALE_ONE};

verus! {

/// How many trials the search may spend.
pub const SEARCH_STEPS: u32 = 3;

/// A trial is "passable" — good enough to stop the search early — when its
/// length exceeds `PASSABLE_NUM / PASSABLE_DEN` of the budget.
pub const PASSABLE_NUM: u32 = 9;

/// See `PASSABLE_NUM`.
pub const PASSABLE_DEN: u32 = 10;

/// The passable threshold: nine tenths of the budget, rounded down.
pub open spec fn spec_passable(budget: int) -> int {
    budget * (PASSABLE_NUM as int) / (PASSABLE_DEN as int)
}

/// Computes the passable threshold for a byte budget.
pub fn passable_size(budget: usize) -> (r: usize)
    ensures
        r == spec_passable(budget as int),
{
    proof {
        assert((budget as int) * (PASSABLE_NUM as int) <= (usize::MAX as int) * (PASSABLE_NUM
            as int)) by (nonlinear_arith)
            requires
                budget <= usize::MAX,
        ;
        lemma_mul_inequality(PASSABLE_NUM as int, PASSABLE_DEN as int, budget as int);
        assert(budget * PASSABLE_NUM == PASSABLE_NUM * budget) by (nonlinear_arith);
        assert(budget * PASSABLE_DEN == PASSABLE_DEN * budget) by (nonlinear_arith);
        lemma_div_is_ordered(
            (budget as int) * (PASSABLE_NUM as int),
            (budget as int) * (PASSABLE_DEN as int),
            PASSABLE_DEN as int,
        );
        lemma_div_multiples_vanish(budget as int, PASSABLE_DEN as int);
        assert((budget as int) * (PASSABLE_NUM as int) >= 0) by (nonlinear_arith);
    }
    let wide: u128 = (budget as u128) * (PASSABLE_NUM as u128);
    let q: u128 = wide / (PASSABLE_DEN as u128);
    q as usize
}

/// The mathematical value of the search state's best result so far.
pub open spec fn opt_bytes_view(o: Option<Vec<u8>>) -> Option<Seq<u8>> {
    match o {
        Some(v) => Some(v@),
        None => None,
    }
}

/// The mathematical value of a finished search: `Err` when a trial failed,
/// `Ok(None)` when no trial ever fit the budget, `Ok(Some(bytes))` for the
/// accepted encoding.
pub open spec fn search_view(r: Result<Option<Vec<u8>>, String>) -> Result<
    Option<Seq<u8>>,
    Seq<char>,
> {
    match r {
        Ok(o) => Ok(opt_bytes_view(o)),
        Err(e) => Err(e@),
    }
}

/// The bounded search itself, over the named trial results: each step probes
/// the midpoint of `[low, high]`. A trial under the budget becomes the new
/// best and raises `low`; one over it lowers `high`; a trial under the
/// budget but over the passable threshold is accepted at once. When the
/// steps run out, the best trial recorded so far — if any — is the result.
pub open spec fn spec_search(
    img: RasterView,
    budget: int,
    low: u32,
    high: u32,
    best: Option<Seq<u8>>,
    fuel: nat,
) -> Result<Option<Seq<u8>>, Seq<char>>
    decreases fuel,
{
    if fuel == 0 {
        Ok(best)
    } else {
        let guess = (((low + high) as int) / 2) as u32;
        match spec_trial(img, guess) {
            Err(e) => Err(e),
            Ok(trial) => if trial.len() < budget {
                if trial.len() > spec_passable(budget) {
                    Ok(Some(trial))
                } else {
                    spec_search(img, budget, guess, high, Some(trial), (fuel - 1) as nat)
                }
            } else {
                spec_search(img, budget, low, guess, best, (fuel - 1) as nat)
            },
        }
    }
}

/// The interval held at the start of each iteration the search actually
/// performs, the state it stops in included: the trace that `spec_search`
/// walks through.
pub open spec fn spec_intervals(
    img: RasterView,
    budget: int,
    low: u32,
    high: u32,
    fuel: nat,
) -> Seq<(u32, u32)>
    decreases fuel,
{
    if fuel == 0 {
        seq![(low, high)]
    } else {
        let guess = (((low + high) as int) / 2) as u32;
        match spec_trial(img, guess) {
            Err(_) => seq![(low, high)],
            Ok(trial) => if trial.len() < budget {
                if trial.len() > spec_passable(budget) {
                    seq![(low, high)]
                } else {
                    seq![(low, high)] + spec_intervals(img, budget, guess, high, (fuel - 1) as nat)
                }
            } else {
                seq![(low, high)] + spec_intervals(img, budget, low, guess, (fuel - 1) as nat)
            },
        }
    }
}

/// Along the whole search trace the lower bound never decreases and the
/// upper bound never increases — every iteration's interval is nested in
/// the one before it — and the trace holds at most one interval per
/// allowed step beyond the starting one, so the loop runs a bounded number
/// of iterations.
pub proof fn lemma_intervals_narrow(img: RasterView, budget: int, low: u32, high: u32, fuel: nat)
    requires
        low <= high,
    ensures
        spec_intervals(img, budget, low, high, fuel).len() >= 1,
        spec_intervals(img, budget, low, high, fuel).len() <= fuel + 1,
        spec_intervals(img, budget, low, high, fuel)[0] == (low, high),
        forall|i: int|
            0 <= i < spec_intervals(img, budget, low, high, fuel).len() - 1 ==> (#[trigger] spec_intervals(
                img,
                budget,
                low,
                high,
                fuel,
            )[i]).0 <= spec_intervals(img, budget, low, high, fuel)[i + 1].0 && spec_intervals(
                img,
                budget,
                low,
                high,
                fuel,
            )[i + 1].1 <= spec_intervals(img, budget, low, high, fuel)[i].1 && spec_intervals(
                img,
                budget,
                low,
                high,
                fuel,
            )[i + 1].0 <= spec_intervals(img, budget, low, high, fuel)[i + 1].1,
    decreases fuel,
{
    let ivs = spec_intervals(img, budget, low, high, fuel);
    if fuel > 0 {
        lemma_search_narrows(low, high);
        let guess = (((low + high) as int) / 2) as u32;
        match spec_trial(img, guess) {
            Err(_) => {},
            Ok(trial) => {
                if trial.len() < budget && trial.len() <= spec_passable(budget) {
                    lemma_intervals_narrow(img, budget, guess, high, (fuel - 1) as nat);
                    let rest = spec_intervals(img, budget, guess, high, (fuel - 1) as nat);
                    assert forall|i: int| 0 <= i < ivs.len() - 1 implies #[trigger] ivs[i].0 <= ivs[
                        i + 1
                    ].0 && ivs[i + 1].1 <= ivs[i].1 && ivs[i + 1].0 <= ivs[i + 1].1 by {
                        if i > 0 {
                            assert(ivs[i] == rest[i - 1]);
                            assert(ivs[i + 1] == rest[i]);
                        }
                    }
                } else if trial.len() >= budget {
                    lemma_intervals_narrow(img, budget, low, guess, (fuel - 1) as nat);
                    let rest = spec_intervals(img, budget, low, guess, (fuel - 1) as nat);
                    assert forall|i: int| 0 <= i < ivs.len() - 1 implies #[trigger] ivs[i].0 <= ivs[
                        i + 1
                    ].0 && ivs[i + 1].1 <= ivs[i].1 && ivs[i + 1].0 <= ivs[i + 1].1 by {
                        if i > 0 {
                            assert(ivs[i] == rest[i - 1]);
                            assert(ivs[i + 1] == rest[i]);
                        }
                    }
                }
            },
        }
    }
}

/// The midpoint probed in a search step lies inside the current interval;
/// since a step only ever moves `low` or `high` to that midpoint, the lower
/// bound never decreases and the upper bound never increases across
/// iterations: the interval only narrows.
pub proof fn lemma_search_narrows(low: u32, high: u32)
    requires
        low <= high,
    ensures
        low <= ((low + high) as int) / 2 <= high,
{
}

/// Whatever buffer the search accepts fits the budget strictly, provided
/// the best result carried in does.
pub proof fn lemma_search_result_fits(
    img: RasterView,
    budget: int,
    low: u32,
    high: u32,
    best: Option<Seq<u8>>,
    fuel: nat,
)
    requires
        best matches Some(b) ==> b.len() < budget,
    ensures
        spec_search(img, budget, low, high, best, fuel) matches Ok(Some(out)) ==> out.len()
            < budget,
    decreases fuel,
{
    if fuel > 0 {
        let guess = (((low + high) as int) / 2) as u32;
        match spec_trial(img, guess) {
            Err(_) => {},
            Ok(trial) => {
                if trial.len() < budget {
                    lemma_search_result_fits(img, budget, guess, high, Some(trial), (fuel - 1) as nat);
                } else {
                    lemma_search_result_fits(img, budget, low, guess, best, (fuel - 1) as nat);
                }
            },
        }
    }
}

/// When every scale factor in the probe range encodes to at least the
/// budget, the search ends with no accepted buffer, whatever interval
/// inside the range it starts from and however many steps it is given.
pub proof fn lemma_search_exhaustion(
    img: RasterView,
    budget: int,
    low: u32,
    high: u32,
    fuel: nat,
)
    requires
        forall|s: u32|
            SCALE_MIN <= s <= SCALE_ONE ==> ((#[trigger] spec_trial(img, s)) matches Ok(b)
                && b.len() >= budget),
        SCALE_MIN <= low <= high <= SCALE_ONE,
    ensures
        spec_search(img, budget, low, high, None, fuel) == Ok::<Option<Seq<u8>>, Seq<char>>(
            None,
        ),
    decreases fuel,
{
    if fuel > 0 {
        lemma_search_narrows(low, high);
        let guess = (((low + high) as int) / 2) as u32;
        assert(SCALE_MIN <= guess <= SCALE_ONE);
        lemma_search_exhaustion(img, budget, low, guess, (fuel - 1) as nat);
    }
}

/// Runs the bounded search: probes at most `SEARCH_STEPS` scale factors
/// between `SCALE_MIN` and `SCALE_ONE` and returns the accepted encoding,
/// `Ok(None)` when nothing fit, or the first trial error.
pub fn run_search(img: &RasterImage, budget: usize) -> (r: Result<Option<Vec<u8>>, String>)
    requires
        img@.wf(),
    ensures
        search_view(r) == spec_search(
            img@,
            budget as int,
            SCALE_MIN,
            SCALE_ONE,
            None,
            SEARCH_STEPS as nat,
        ),
{
    let passable = passable_size(budget);
    let mut low: u32 = SCALE_MIN;
    let mut high: u32 = SCALE_ONE;
    let mut last_ok: Option<Vec<u8>> = None;
    let mut steps: u32 = 0;
    while steps < SEARCH_STEPS
        invariant
            img@.wf(),
            SCALE_MIN <= low <= high <= SCALE_ONE,
            steps <= SEARCH_STEPS,
            passable == spec_passable(budget as int),
            spec_search(img@, budget as int, SCALE_MIN, SCALE_ONE, None, SEARCH_STEPS as nat)
                == spec_search(
                img@,
                budget as int,
                low,
                high,
                opt_bytes_view(last_ok),
                (SEARCH_STEPS - steps) as nat,
            ),
        decreases SEARCH_STEPS - steps,
    {
        let guess = (low + high) / 2;
        proof {
            lemma_search_narrows(low, high);
        }
        match try_compress_size(img, guess) {
            Err(e) => {
                return Err(e);
            },
            Ok(trial) => {
                let len = trial.len();
                if len < budget {
                    low = guess;
                    if len > passable {
                        return Ok(Some(trial));
                    }
                    last_ok = Some(trial);
                } else {
                    high = guess;
                }
            },
        }
        steps = steps + 1;
    }
    Ok(last_ok)
}

} // verus!
