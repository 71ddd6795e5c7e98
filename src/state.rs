use crate::coin::{misses, Draw, WeightedCoin};
use crate::config::Config;
use crate::models::{Herb, HerbPatch, DISEASE_DENOMINATOR, SAVE_DENOMINATOR};
use vstd::prelude::*;

verus! {

/// Growth stages run from 0 to 4; stage 4 is fully grown.
pub const FINAL_GROWTH_STAGE: usize = 4;

/// Chance, as a numerator over 128, that Resurrect Crops brings a dead crop
/// back. The real value is not known yet, so it is deliberately zero.
pub const RESURRECT_NUMERATOR: u32 = 0;

/// Health of the crop in a patch.
#[derive(Copy, Clone, Debug, PartialEq, Eq, Structural)]
pub enum Status {
    Healthy,
    Diseased,
    Dead,
}

/// Rank of a status in the one-way order Healthy > Diseased > Dead.
pub open spec fn status_rank(s: Status) -> int {
    match s {
        Status::Healthy => 2,
        Status::Diseased => 1,
        Status::Dead => 0,
    }
}

/// Health after the disease step of a cycle: a healthy crop falls ill when
/// the disease draw hits, and a diseased one dies.
pub open spec fn status_after_disease(status: Status, disease_hit: bool) -> Status {
    match status {
        Status::Healthy => if disease_hit {
            Status::Diseased
        } else {
            Status::Healthy
        },
        Status::Diseased => Status::Dead,
        Status::Dead => Status::Dead,
    }
}

/// The state after one growth cycle, given the outcome of the disease draw
/// and of the resurrection draw. A crop that has just died comes back healthy
/// if resurrection is enabled, has not been used yet and the draw succeeds;
/// the stage does not move then. Otherwise a crop still healthy grows one
/// stage.
pub open spec fn next_state(
    s: HerbPatchState,
    config: &Config,
    disease_hit: bool,
    revived: bool,
) -> HerbPatchState {
    let status = status_after_disease(s.status, disease_hit);
    if status == Status::Dead && config.resurrect_crops && !s.has_resurrected && revived {
        HerbPatchState { status: Status::Healthy, has_resurrected: true, ..s }
    } else if status == Status::Healthy {
        HerbPatchState { growth_stage: (s.growth_stage + 1) as usize, ..s }
    } else {
        HerbPatchState { status, ..s }
    }
}

/// The state after picking one herb: one more herb, and one life fewer unless
/// the save draw succeeded.
pub open spec fn after_pick(s: HerbPatchState, saved: bool) -> HerbPatchState {
    HerbPatchState {
        herbs_harvested: (s.herbs_harvested + 1) as usize,
        lives: if saved {
            s.lives
        } else {
            (s.lives - 1) as usize
        },
        ..s
    }
}

/// One growth cycle never lowers the stage. It raises it by one exactly when
/// a healthy crop's disease draw misses; falling ill, dying and resurrection
/// leave it as it was.
pub proof fn lemma_cycle_stage(s: HerbPatchState, config: &Config, disease_hit: bool, revived: bool)
    requires
        s.growth_stage < FINAL_GROWTH_STAGE,
    ensures
        next_state(s, config, disease_hit, revived).growth_stage == s.growth_stage + if s.status
            == Status::Healthy && !disease_hit {
            1int
        } else {
            0int
        },
        next_state(s, config, disease_hit, revived).has_resurrected ==> s.has_resurrected || (
        config.resurrect_crops && revived && s.status != Status::Healthy),
        s.has_resurrected ==> next_state(s, config, disease_hit, revived).status
            != Status::Healthy || s.status == Status::Healthy && !disease_hit,
{
}

/// Whether no growth cycle is left to run: the crop is dead, or fully grown
/// and healthy.
pub open spec fn is_settled(s: HerbPatchState) -> bool {
    s.status == Status::Dead || (s.status == Status::Healthy && s.growth_stage
        == FINAL_GROWTH_STAGE)
}

/// The state of one patch during one trial: planted, grown, then harvested.
#[derive(Copy, Clone, Debug)]
pub struct HerbPatchState {
    pub patch: HerbPatch,
    pub herb: Herb,
    pub growth_stage: usize,
    pub status: Status,
    pub has_resurrected: bool,
    pub lives: usize,
    pub herbs_harvested: usize,
    /// Experience gained, in tenths of a point.
    pub xp_gained: u64,
}

impl HerbPatchState {
    /// The stage is at most the final one, and disease only strikes a crop
    /// that is still growing.
    pub open spec fn wf(&self) -> bool {
        &&& self.growth_stage <= FINAL_GROWTH_STAGE
        &&& self.status == Status::Diseased ==> self.growth_stage < FINAL_GROWTH_STAGE
    }

    /// Measure that every growth cycle strictly lowers.
    pub open spec fn growth_measure(&self) -> int {
        (if self.has_resurrected { 0int } else { 20int }) + 3 * (FINAL_GROWTH_STAGE - self.growth_stage)
            + status_rank(self.status)
    }

    /// A freshly planted patch.
    pub fn new(config: &Config, patch: HerbPatch, herb: Herb) -> (r: HerbPatchState)
        ensures
            r.wf(),
            r.patch == patch,
            r.herb == herb,
            r.growth_stage == 0,
            r.status == Status::Healthy,
            !r.has_resurrected,
            r.lives as int == config.compost.lives(),
            r.herbs_harvested == 0,
            r.xp_gained == 0,
    {
        HerbPatchState {
            patch,
            herb,
            growth_stage: 0,
            status: Status::Healthy,
            has_resurrected: false,
            lives: config.compost.initial_lives(),
            herbs_harvested: 0,
            xp_gained: 0,
        }
    }

    /// Run one growth cycle with the given draw outcomes.
    pub fn cycle(&mut self, config: &Config, disease_hit: bool, revived: bool)
        requires
            old(self).growth_stage < FINAL_GROWTH_STAGE,
        ensures
            *final(self) == next_state(*old(self), config, disease_hit, revived),
    {
        if self.status == Status::Healthy {
            if disease_hit {
                // Disease stops growth for this cycle.
                self.status = Status::Diseased;
            }
        } else if self.status == Status::Diseased {
            self.status = Status::Dead;
        }
        if self.status == Status::Dead && config.resurrect_crops && !self.has_resurrected
            && revived {
            // A resurrected crop must pass the disease check again before it
            // grows.
            self.status = Status::Healthy;
            self.has_resurrected = true;
        } else if self.status == Status::Healthy {
            self.growth_stage = self.growth_stage + 1;
        }
    }

    /// Pick one herb, given whether the save draw succeeded.
    pub fn pick(&mut self, saved: bool)
        requires
            old(self).lives > 0,
            old(self).herbs_harvested < usize::MAX,
        ensures
            *final(self) == after_pick(*old(self), saved),
    {
        self.herbs_harvested = self.herbs_harvested + 1;
        if !saved {
            self.lives = self.lives - 1;
        }
    }

    /// Grow the crop until it is fully grown or dead, with the patch's own
    /// disease chance and the fixed resurrection chance. Returns whether it
    /// survived.
    pub fn grow<C: WeightedCoin>(&mut self, config: &Config, coin: &mut C) -> (r: bool)
        requires
            old(self).wf(),
        ensures
            final(self).wf(),
            final(self).patch == old(self).patch,
            final(self).herb == old(self).herb,
            final(self).lives == old(self).lives,
            final(self).herbs_harvested == old(self).herbs_harvested,
            final(self).xp_gained == old(self).xp_gained,
            old(self).growth_stage <= final(self).growth_stage <= FINAL_GROWTH_STAGE,
            r == (final(self).status == Status::Healthy),
            r ==> final(self).growth_stage == FINAL_GROWTH_STAGE,
            !r ==> final(self).status == Status::Dead,
            final(self).has_resurrected == old(self).has_resurrected,
            old(self).patch.immune(config) && old(self).status == Status::Healthy ==> r,
            is_settled(*old(self)) ==> *final(self) == *old(self) && r == (old(self).status
                == Status::Healthy),
            final(coin).draws().len() >= old(coin).draws().len(),
            final(coin).draws().subrange(0, old(coin).draws().len() as int) == old(coin).draws(),
            forall|i: int|
                old(coin).draws().len() <= i < final(coin).draws().len()
                    ==> #[trigger] final(coin).draws()[i].denominator == DISEASE_DENOMINATOR
                    && (final(coin).draws()[i].numerator == old(self).patch.disease_numerator(config) as u32
                    || final(coin).draws()[i].numerator == RESURRECT_NUMERATOR),
            !config.resurrect_crops || old(self).has_resurrected ==> final(self).growth_stage
                == old(self).growth_stage + misses(
                final(coin).draws().subrange(
                    old(coin).draws().len() as int,
                    final(coin).draws().len() as int,
                ),
            ),
    {
        let disease = self.patch.calc_disease_chance_per_cycle(config);
        self.grow_with_chances(config, disease, RESURRECT_NUMERATOR, coin)
    }

    /// One growth run with the given chances, as numerators over 128: each
    /// cycle a healthy crop may catch disease, a diseased one dies, a dead
    /// one may be resurrected once, and a crop still healthy grows a stage.
    pub fn grow_with_chances<C: WeightedCoin>(
        &mut self,
        config: &Config,
        disease: u32,
        resurrect: u32,
        coin: &mut C,
    ) -> (r: bool)
        requires
            old(self).wf(),
            disease <= DISEASE_DENOMINATOR,
            resurrect <= DISEASE_DENOMINATOR,
        ensures
            final(self).wf(),
            final(self).patch == old(self).patch,
            final(self).herb == old(self).herb,
            final(self).lives == old(self).lives,
            final(self).herbs_harvested == old(self).herbs_harvested,
            final(self).xp_gained == old(self).xp_gained,
            old(self).growth_stage <= final(self).growth_stage <= FINAL_GROWTH_STAGE,
            r == (final(self).status == Status::Healthy),
            r ==> final(self).growth_stage == FINAL_GROWTH_STAGE,
            !r ==> final(self).status == Status::Dead,
            old(self).has_resurrected ==> final(self).has_resurrected,
            final(self).has_resurrected && !old(self).has_resurrected ==> config.resurrect_crops
                && resurrect > 0,
            disease == 0 && old(self).status == Status::Healthy ==> r,
            disease == DISEASE_DENOMINATOR && old(self).growth_stage < FINAL_GROWTH_STAGE
                && old(self).status != Status::Dead && (resurrect == 0
                || !config.resurrect_crops || old(self).has_resurrected) ==> !r
                && final(self).growth_stage == old(self).growth_stage,
            disease == DISEASE_DENOMINATOR && resurrect == DISEASE_DENOMINATOR
                && config.resurrect_crops && old(self).growth_stage < FINAL_GROWTH_STAGE
                && old(self).status != Status::Dead && !old(self).has_resurrected
                ==> !r && final(self).has_resurrected
                && final(self).growth_stage == old(self).growth_stage,
            is_settled(*old(self)) ==> *final(self) == *old(self) && r == (old(self).status
                == Status::Healthy),
            final(coin).draws().len() >= old(coin).draws().len(),
            final(coin).draws().subrange(0, old(coin).draws().len() as int) == old(coin).draws(),
            forall|i: int|
                old(coin).draws().len() <= i < final(coin).draws().len()
                    ==> #[trigger] final(coin).draws()[i].denominator == DISEASE_DENOMINATOR
                    && (final(coin).draws()[i].numerator == disease
                    || final(coin).draws()[i].numerator == resurrect),
            !config.resurrect_crops || old(self).has_resurrected ==> final(self).growth_stage
                == old(self).growth_stage + misses(
                final(coin).draws().subrange(
                    old(coin).draws().len() as int,
                    final(coin).draws().len() as int,
                ),
            ),
    {
        let ghost start = *self;
        let ghost before = coin.draws();
        let ghost doomed = disease == DISEASE_DENOMINATOR && start.status != Status::Dead && (
        resurrect == 0 || !config.resurrect_crops || start.has_resurrected);
        let ghost revived_once = disease == DISEASE_DENOMINATOR && resurrect == DISEASE_DENOMINATOR
            && config.resurrect_crops && start.status != Status::Dead && !start.has_resurrected;
        while self.growth_stage < FINAL_GROWTH_STAGE && self.status != Status::Dead
            invariant
                revived_once == (disease == DISEASE_DENOMINATOR && resurrect == DISEASE_DENOMINATOR
                    && config.resurrect_crops && start.status != Status::Dead
                    && !start.has_resurrected),
                revived_once ==> self.growth_stage == start.growth_stage && (self.status
                    == Status::Dead ==> self.has_resurrected),
                self.wf(),
                is_settled(start) ==> *self == start,
                coin.draws().len() >= before.len(),
                coin.draws().subrange(0, before.len() as int) == before,
                forall|i: int|
                    before.len() <= i < coin.draws().len()
                        ==> #[trigger] coin.draws()[i].denominator == DISEASE_DENOMINATOR
                        && (coin.draws()[i].numerator == disease
                        || coin.draws()[i].numerator == resurrect),
                !config.resurrect_crops || start.has_resurrected ==> self.growth_stage
                    == start.growth_stage + misses(
                    coin.draws().subrange(before.len() as int, coin.draws().len() as int),
                ),
                self.patch == start.patch,
                self.herb == start.herb,
                self.lives == start.lives,
                self.herbs_harvested == start.herbs_harvested,
                self.xp_gained == start.xp_gained,
                start.growth_stage <= self.growth_stage,
                start.has_resurrected ==> self.has_resurrected,
                self.has_resurrected && !start.has_resurrected ==> config.resurrect_crops
                    && resurrect > 0,
                disease == 0 && start.status == Status::Healthy ==> self.status == Status::Healthy,
                doomed == (disease == DISEASE_DENOMINATOR && start.status != Status::Dead && (
                resurrect == 0 || !config.resurrect_crops || start.has_resurrected)),
                doomed ==> self.growth_stage == start.growth_stage && self.has_resurrected
                    == start.has_resurrected,
                disease <= DISEASE_DENOMINATOR,
                resurrect <= DISEASE_DENOMINATOR,
            decreases self.growth_measure(),
        {
            let ghost prior = *self;
            let ghost prev = coin.draws();
            let disease_hit = if self.status == Status::Healthy {
                coin.flip(disease, DISEASE_DENOMINATOR)
            } else {
                false
            };
            proof {
                let now = coin.draws();
                assert(now.subrange(0, before.len() as int) =~= prev.subrange(
                    0,
                    before.len() as int,
                ));
                if prior.status == Status::Healthy {
                    assert(now.subrange(before.len() as int, now.len() as int).drop_last()
                        =~= prev.subrange(before.len() as int, prev.len() as int));
                }
            }
            let ghost mid = coin.draws();
            let revived = if self.status == Status::Diseased && config.resurrect_crops
                && !self.has_resurrected {
                coin.flip(resurrect, DISEASE_DENOMINATOR)
            } else {
                false
            };
            proof {
                let now = coin.draws();
                assert(now.subrange(0, before.len() as int) =~= mid.subrange(
                    0,
                    before.len() as int,
                ));
            }
            self.cycle(config, disease_hit, revived);
            assert(self.growth_measure() < prior.growth_measure());
        }
        self.status == Status::Healthy
    }

    /// Harvest a fully grown, healthy crop with the patch's own chance to save
    /// a life.
    pub fn harvest<C: WeightedCoin>(&mut self, config: &Config, coin: &mut C)
        requires
            old(self).status == Status::Healthy,
            old(self).growth_stage == FINAL_GROWTH_STAGE,
        ensures
            final(self).patch == old(self).patch,
            final(self).herb == old(self).herb,
            final(self).status == old(self).status,
            final(self).growth_stage == old(self).growth_stage,
            final(self).has_resurrected == old(self).has_resurrected,
            final(self).xp_gained == old(self).xp_gained,
            final(self).lives <= old(self).lives,
            final(self).lives == 0 || final(self).herbs_harvested == usize::MAX,
            final(self).herbs_harvested - old(self).herbs_harvested >= old(self).lives
                - final(self).lives,
            final(coin).draws().len() >= old(coin).draws().len(),
            final(coin).draws().subrange(0, old(coin).draws().len() as int) == old(coin).draws(),
            forall|i: int|
                old(coin).draws().len() <= i < final(coin).draws().len()
                    ==> #[trigger] final(coin).draws()[i].numerator == old(self).patch.save_numerator(config, old(self).herb) as u32 && final(coin).draws()[i].denominator
                    == SAVE_DENOMINATOR,
            final(self).herbs_harvested == old(self).herbs_harvested + final(coin).draws().len()
                - old(coin).draws().len(),
            final(self).lives == old(self).lives - misses(
                final(coin).draws().subrange(
                    old(coin).draws().len() as int,
                    final(coin).draws().len() as int,
                ),
            ),
    {
        let save = self.patch.calc_chance_to_save(config, self.herb);
        self.harvest_with_chance(save, coin);
    }

    /// Pick herbs until no life is left: each pick yields one herb and costs a
    /// life unless the save, a chance of `save` over 256, succeeds. The count
    /// stops at `usize::MAX`.
    pub fn harvest_with_chance<C: WeightedCoin>(&mut self, save: u32, coin: &mut C)
        requires
            old(self).status == Status::Healthy,
            old(self).growth_stage == FINAL_GROWTH_STAGE,
            save < SAVE_DENOMINATOR,
        ensures
            final(self).patch == old(self).patch,
            final(self).herb == old(self).herb,
            final(self).status == old(self).status,
            final(self).growth_stage == old(self).growth_stage,
            final(self).has_resurrected == old(self).has_resurrected,
            final(self).xp_gained == old(self).xp_gained,
            final(self).lives <= old(self).lives,
            final(self).lives == 0 || final(self).herbs_harvested == usize::MAX,
            final(self).herbs_harvested - old(self).herbs_harvested >= old(self).lives
                - final(self).lives,
            save == 0 && old(self).herbs_harvested + old(self).lives <= usize::MAX
                ==> final(self).lives == 0 && final(self).herbs_harvested
                == old(self).herbs_harvested + old(self).lives,
            final(coin).draws().len() >= old(coin).draws().len(),
            final(coin).draws().subrange(0, old(coin).draws().len() as int) == old(coin).draws(),
            forall|i: int|
                old(coin).draws().len() <= i < final(coin).draws().len()
                    ==> #[trigger] final(coin).draws()[i].numerator == save && final(coin).draws()[i].denominator
                    == SAVE_DENOMINATOR,
            final(self).herbs_harvested == old(self).herbs_harvested + final(coin).draws().len()
                - old(coin).draws().len(),
            final(self).lives == old(self).lives - misses(
                final(coin).draws().subrange(
                    old(coin).draws().len() as int,
                    final(coin).draws().len() as int,
                ),
            ),
    {
        let ghost start = *self;
        let ghost before = coin.draws();
        while self.lives > 0 && self.herbs_harvested < usize::MAX
            invariant
                coin.draws().len() >= before.len(),
                coin.draws().subrange(0, before.len() as int) == before,
                forall|i: int|
                    before.len() <= i < coin.draws().len() ==> #[trigger] coin.draws()[i].numerator
                        == save && coin.draws()[i].denominator == SAVE_DENOMINATOR,
                self.herbs_harvested == start.herbs_harvested + coin.draws().len() - before.len(),
                self.lives == start.lives - misses(
                    coin.draws().subrange(before.len() as int, coin.draws().len() as int),
                ),
                self.patch == start.patch,
                self.herb == start.herb,
                self.status == start.status,
                self.growth_stage == start.growth_stage,
                self.has_resurrected == start.has_resurrected,
                self.xp_gained == start.xp_gained,
                self.lives <= start.lives,
                self.herbs_harvested - start.herbs_harvested >= start.lives - self.lives,
                save == 0 ==> self.herbs_harvested - start.herbs_harvested == start.lives
                    - self.lives,
                save < SAVE_DENOMINATOR,
            decreases usize::MAX - self.herbs_harvested,
        {
            let ghost prev = coin.draws();
            let saved = coin.flip(save, SAVE_DENOMINATOR);
            self.pick(saved);
            proof {
                let now = coin.draws();
                assert(now.subrange(0, before.len() as int) =~= prev.subrange(
                    0,
                    before.len() as int,
                ));
                assert(now.subrange(before.len() as int, now.len() as int).drop_last()
                    =~= prev.subrange(before.len() as int, prev.len() as int));
            }
        }
    }

    pub fn herbs_harvested(self) -> (r: usize)
        ensures
            r == self.herbs_harvested,
    {
        self.herbs_harvested
    }

    /// Experience gained, in tenths of a point.
    pub fn xp_gained(self) -> (r: u64)
        ensures
            r == self.xp_gained,
    {
        self.xp_gained
    }

    pub fn survived(self) -> (r: bool)
        ensures
            r == (self.status == Status::Healthy),
    {
        self.status == Status::Healthy
    }

    pub fn resurrected(self) -> (r: bool)
        ensures
            r == self.has_resurrected,
    {
        self.has_resurrected
    }
}

} // verus!
