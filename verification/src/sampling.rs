//! Sampling parameters and the strategy they select.

use vstd::prelude::*;
use crate::decimal::Decimal;
use crate::request::{GenerationRequest, RequestView};

verus! {

/// Seed used when a request brings none.
pub const DEFAULT_SEED: u64 = 0;

/// Hard upper bound on the number of generation steps.
pub const DEFAULT_MAX_STEPS: usize = 512;

/// How the next code is chosen from the model's scores.
#[derive(Clone, Copy, Debug, PartialEq, Eq, Structural)]
pub enum Strategy {
    /// Take the highest-scoring code.
    Greedy,
    /// Scale the scores by `1 / temperature` and sample from all codes.
    Full { temperature: Decimal },
    /// Scale the scores by `1 / temperature` and sample from the smallest
    /// set of codes whose cumulative probability reaches `top_p`.
    Nucleus { temperature: Decimal, top_p: Decimal },
}

/// The sampling parameters of one generation call.
#[derive(Clone, Copy, Debug, PartialEq, Eq, Structural)]
pub struct SamplingConfig {
    pub seed: u64,
    pub temperature: Decimal,
    pub top_p: Option<Decimal>,
}

impl SamplingConfig {
    /// The temperature is at least zero and the nucleus threshold, if any,
    /// lies in (0, 1].
    pub open spec fn is_valid(self) -> bool {
        &&& self.temperature.is_non_negative()
        &&& self.top_p matches Some(p) ==> p.is_unit_fraction()
    }

    /// The parameters that a request asks for, with the defaults filled in:
    /// seed 0 and temperature zero.
    pub open spec fn of(request: RequestView) -> SamplingConfig {
        SamplingConfig {
            seed: match request.seed {
                Some(s) => s,
                None => DEFAULT_SEED,
            },
            temperature: match request.temperature {
                Some(t) => t,
                None => Decimal { bits: 0 },
            },
            top_p: request.top_p,
        }
    }

    /// The strategy that the parameters select: greedy when the temperature
    /// is zero; otherwise sampling, restricted to the nucleus when a
    /// threshold is given.
    pub open spec fn strategy_spec(self) -> Strategy {
        if self.temperature.is_zero() {
            Strategy::Greedy
        } else {
            match self.top_p {
                Some(p) => Strategy::Nucleus { temperature: self.temperature, top_p: p },
                None => Strategy::Full { temperature: self.temperature },
            }
        }
    }

    /// Derives the parameters from a request.
    pub fn from_request(request: &GenerationRequest) -> (config: SamplingConfig)
        ensures
            config == SamplingConfig::of(request@),
            config.is_valid(),
    {
        let seed = match request.seed() {
            Some(s) => s,
            None => DEFAULT_SEED,
        };
        let temperature = match request.temperature() {
            Some(t) => t,
            None => Decimal::zero(),
        };
        SamplingConfig { seed, temperature, top_p: request.top_p() }
    }

    /// The strategy that the parameters select.
    pub fn strategy(&self) -> (s: Strategy)
        ensures
            s == self.strategy_spec(),
            s is Greedy <==> self.temperature.is_zero(),
    {
        if self.temperature.zero_valued() {
            Strategy::Greedy
        } else {
            match self.top_p {
                Some(p) => Strategy::Nucleus { temperature: self.temperature, top_p: p },
                None => Strategy::Full { temperature: self.temperature },
            }
        }
    }
}

/// A request without a temperature is served greedily, whatever else it
/// asks for.
pub proof fn lemma_default_is_greedy(request: RequestView)
    requires
        request.temperature is None,
    ensures
        SamplingConfig::of(request).strategy_spec() == Strategy::Greedy,
{
}

/// Requests that agree on seed, temperature and nucleus threshold get the
/// same parameters and the same strategy.
pub proof fn lemma_config_is_determined(a: RequestView, b: RequestView)
    requires
        a.seed == b.seed,
        a.temperature == b.temperature,
        a.top_p == b.top_p,
    ensures
        SamplingConfig::of(a) == SamplingConfig::of(b),
        SamplingConfig::of(a).strategy_spec() == SamplingConfig::of(b).strategy_spec(),
{
}

/// The parameters of a well-formed request are valid.
pub proof fn lemma_config_is_valid(request: RequestView)
    requires
        request.is_well_formed(),
    ensures
        SamplingConfig::of(request).is_valid(),
{
}

} // verus!
