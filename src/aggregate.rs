use crate::coin::WeightedCoin;
use crate::config::Config;
use crate::models::{Herb, HerbPatch};
use crate::state::{HerbPatchState, Status};
use vstd::prelude::*;

verus! {

/// Addition of counters that stops at `u64::MAX` instead of overflowing.
pub open spec fn sat_add(a: int, b: int) -> int {
    if a + b > u64::MAX {
        u64::MAX as int
    } else {
        a + b
    }
}

/// Totals over many trials of one or more patches.
#[derive(Copy, Clone, Debug, PartialEq, Eq, Structural)]
pub struct AggregateResult {
    pub num_trials: u64,
    pub num_patches: u64,
    pub herbs_harvested: u64,
    /// Experience gained, in tenths of a point.
    pub xp_gained: u64,
    pub num_survived: u64,
    pub num_resurrected: u64,
}

/// Field-wise sum of two aggregates.
pub open spec fn combined(a: AggregateResult, b: AggregateResult) -> AggregateResult {
    AggregateResult {
        num_trials: sat_add(a.num_trials as int, b.num_trials as int) as u64,
        num_patches: sat_add(a.num_patches as int, b.num_patches as int) as u64,
        herbs_harvested: sat_add(a.herbs_harvested as int, b.herbs_harvested as int) as u64,
        xp_gained: sat_add(a.xp_gained as int, b.xp_gained as int) as u64,
        num_survived: sat_add(a.num_survived as int, b.num_survived as int) as u64,
        num_resurrected: sat_add(a.num_resurrected as int, b.num_resurrected as int) as u64,
    }
}

/// The aggregate after folding in one finished trial.
pub open spec fn with_trial(a: AggregateResult, s: HerbPatchState) -> AggregateResult {
    AggregateResult {
        num_trials: sat_add(a.num_trials as int, 1) as u64,
        num_patches: if a.num_patches == 0 {
            1
        } else {
            a.num_patches
        },
        herbs_harvested: sat_add(a.herbs_harvested as int, s.herbs_harvested as int) as u64,
        xp_gained: sat_add(a.xp_gained as int, s.xp_gained as int) as u64,
        num_survived: sat_add(a.num_survived as int, if s.status == Status::Healthy { 1 } else { 0 }) as u64,
        num_resurrected: sat_add(a.num_resurrected as int, if s.has_resurrected { 1 } else { 0 }) as u64,
    }
}

/// Combining aggregates is associative: the grouping of a sum does not matter.
pub proof fn lemma_combine_associative(a: AggregateResult, b: AggregateResult, c: AggregateResult)
    ensures
        combined(combined(a, b), c) == combined(a, combined(b, c)),
{
}

/// Combining aggregates is commutative: the order of a sum does not matter.
pub proof fn lemma_combine_commutative(a: AggregateResult, b: AggregateResult)
    ensures
        combined(a, b) == combined(b, a),
{
}

impl AggregateResult {
    /// The aggregate of no trials at all.
    pub fn new() -> (r: AggregateResult)
        ensures
            r == (AggregateResult {
                num_trials: 0,
                num_patches: 0,
                herbs_harvested: 0,
                xp_gained: 0,
                num_survived: 0,
                num_resurrected: 0,
            }),
    {
        AggregateResult {
            num_trials: 0,
            num_patches: 0,
            herbs_harvested: 0,
            xp_gained: 0,
            num_survived: 0,
            num_resurrected: 0,
        }
    }

    /// Fold one finished trial into the totals.
    pub fn add_trial(&mut self, state: HerbPatchState)
        ensures
            *final(self) == with_trial(*old(self), state),
    {
        if self.num_patches == 0 {
            self.num_patches = 1;
        }
        self.num_trials = self.num_trials.saturating_add(1);
        self.herbs_harvested = self.herbs_harvested.saturating_add(state.herbs_harvested() as u64);
        self.xp_gained = self.xp_gained.saturating_add(state.xp_gained());
        if state.survived() {
            self.num_survived = self.num_survived.saturating_add(1);
        }
        if state.resurrected() {
            self.num_resurrected = self.num_resurrected.saturating_add(1);
        }
    }

    /// Field-wise sum of two aggregates, used to total several patches.
    pub fn combine(self, other: AggregateResult) -> (r: AggregateResult)
        ensures
            r == combined(self, other),
    {
        AggregateResult {
            num_trials: self.num_trials.saturating_add(other.num_trials),
            num_patches: self.num_patches.saturating_add(other.num_patches),
            herbs_harvested: self.herbs_harvested.saturating_add(other.herbs_harvested),
            xp_gained: self.xp_gained.saturating_add(other.xp_gained),
            num_survived: self.num_survived.saturating_add(other.num_survived),
            num_resurrected: self.num_resurrected.saturating_add(other.num_resurrected),
        }
    }

    /// Herbs harvested per run over all patches, as numerator and denominator.
    pub fn herbs_per_run(&self) -> (r: (u128, u64))
        ensures
            r.0 == self.herbs_harvested as int * self.num_patches as int,
            r.1 == self.num_trials,
    {
        let ghost a = self.herbs_harvested as int;
        let ghost b = self.num_patches as int;
        assert(a * b <= u128::MAX) by (nonlinear_arith)
            requires
                0 <= a <= 0xffff_ffff_ffff_ffff,
                0 <= b <= 0xffff_ffff_ffff_ffff,
        ;
        (self.herbs_harvested as u128 * self.num_patches as u128, self.num_trials)
    }

    /// Experience per run over all patches, in tenths of a point, as
    /// numerator and denominator.
    pub fn xp_per_run(&self) -> (r: (u128, u64))
        ensures
            r.0 == self.xp_gained as int * self.num_patches as int,
            r.1 == self.num_trials,
    {
        let ghost a = self.xp_gained as int;
        let ghost b = self.num_patches as int;
        assert(a * b <= u128::MAX) by (nonlinear_arith)
            requires
                0 <= a <= 0xffff_ffff_ffff_ffff,
                0 <= b <= 0xffff_ffff_ffff_ffff,
        ;
        (self.xp_gained as u128 * self.num_patches as u128, self.num_trials)
    }

    /// Survival rate in percent, as numerator and denominator. It is a
    /// probability, so it is not scaled by the number of patches.
    pub fn survival_percent(&self) -> (r: (u128, u64))
        ensures
            r.0 == self.num_survived as int * 100,
            r.1 == self.num_trials,
    {
        (self.num_survived as u128 * 100, self.num_trials)
    }
}

/// Run one trial of `herb` in `patch`: plant, grow, harvest if the crop
/// survived.
pub fn run_trial<C: WeightedCoin>(config: &Config, herb: Herb, patch: HerbPatch, coin: &mut C) -> (r:
    HerbPatchState)
    ensures
        r.patch == patch,
        r.herb == herb,
        r.status == Status::Healthy || r.status == Status::Dead,
        !r.has_resurrected,
        r.xp_gained == 0,
        patch.immune(config) ==> r.status == Status::Healthy,
        r.status == Status::Healthy ==> r.lives == 0 || r.herbs_harvested == usize::MAX,
        r.status == Status::Healthy ==> r.herbs_harvested >= config.compost.lives(),
        r.status == Status::Dead ==> r.herbs_harvested == 0,
{
    let mut state = HerbPatchState::new(config, patch, herb);
    if state.grow(config, coin) {
        state.harvest(config, coin);
    }
    state
}

/// Run one trial of `herb` in `patch` and fold it into `result`.
pub fn simulate_patch<C: WeightedCoin>(
    config: &Config,
    herb: Herb,
    patch: HerbPatch,
    result: &mut AggregateResult,
    coin: &mut C,
)
    ensures
        exists|s: HerbPatchState|
            #![auto]
            {
                &&& s.patch == patch
                &&& s.herb == herb
                &&& !s.has_resurrected
                &&& s.xp_gained == 0
                &&& s.status == Status::Healthy || s.status == Status::Dead
                &&& patch.immune(config) ==> s.status == Status::Healthy
                &&& s.status == Status::Healthy ==> s.herbs_harvested >= config.compost.lives()
                &&& s.status == Status::Dead ==> s.herbs_harvested == 0
                &&& *final(result) == with_trial(*old(result), s)
            },
{
    let state = run_trial(config, herb, patch, coin);
    result.add_trial(state);
}

} // verus!
