use herb_sim::aggregate::{run_trial, simulate_patch, AggregateResult};
use herb_sim::coin::{RandomCoin, ScriptedCoin};
use herb_sim::config::Config;
use herb_sim::models::{Herb, HerbPatch};
use herb_sim::state::{HerbPatchState, Status, FINAL_GROWTH_STAGE};

fn grown(config: &Config, patch: HerbPatch) -> HerbPatchState {
    let mut state = HerbPatchState::new(config, patch, Herb::Guam);
    state.growth_stage = FINAL_GROWTH_STAGE;
    state
}

#[test]
fn new_state_starts_healthy() {
    let config = Config::default();
    let state = HerbPatchState::new(&config, HerbPatch::Ardougne, Herb::Guam);
    assert_eq!(state.growth_stage, 0);
    assert_eq!(state.status, Status::Healthy);
    assert_eq!(state.lives, 3);
    assert_eq!(state.herbs_harvested(), 0);
    assert!(!state.resurrected());
}

#[test]
fn immune_patch_always_survives() {
    let config = Config::default();
    for _ in 0..1000 {
        let mut state = HerbPatchState::new(&config, HerbPatch::TrollStronghold, Herb::Guam);
        assert!(state.grow(&config, &mut RandomCoin::new()));
        assert_eq!(state.growth_stage, FINAL_GROWTH_STAGE);
    }
}

#[test]
fn certain_disease_kills_on_first_cycle() {
    let config = Config::default();
    let mut state = HerbPatchState::new(&config, HerbPatch::Ardougne, Herb::Guam);
    let survived = state.grow_with_chances(&config, 128, 0, &mut RandomCoin::new());
    assert!(!survived);
    assert!(!state.survived());
    assert!(!state.resurrected());
    assert_eq!(state.growth_stage, 0);
    assert_eq!(state.status, Status::Dead);
}

#[test]
fn resurrection_happens_at_most_once() {
    let mut config = Config::default();
    config.resurrect_crops = true;
    let mut state = HerbPatchState::new(&config, HerbPatch::Ardougne, Herb::Guam);
    let survived = state.grow_with_chances(&config, 128, 128, &mut RandomCoin::new());
    assert!(!survived);
    assert!(state.resurrected());
    assert_eq!(state.status, Status::Dead);
    assert_eq!(state.growth_stage, 0);
}

#[test]
fn scripted_growth_stops_at_disease() {
    let config = Config::default();
    let mut state = HerbPatchState::new(&config, HerbPatch::Ardougne, Herb::Guam);
    let mut coin = ScriptedCoin::new(vec![false, false, true]);
    assert!(!state.grow_with_chances(&config, 27, 0, &mut coin));
    assert_eq!(state.growth_stage, 2);
    assert_eq!(state.status, Status::Dead);
}

#[test]
fn harvest_without_saves_costs_a_life_per_herb() {
    let config = Config::default();
    let mut state = grown(&config, HerbPatch::Ardougne);
    state.harvest_with_chance(0, &mut RandomCoin::new());
    assert_eq!(state.herbs_harvested(), 3);
    assert_eq!(state.lives, 0);
}

#[test]
fn scripted_harvest_counts_saves() {
    let config = Config::default();
    let mut state = grown(&config, HerbPatch::Ardougne);
    let mut coin = ScriptedCoin::new(vec![true, true, false, false, false]);
    state.harvest_with_chance(100, &mut coin);
    assert_eq!(state.herbs_harvested(), 5);
    assert_eq!(state.lives, 0);
}

#[test]
fn harvest_uses_patch_chance() {
    let config = Config::default();
    let mut state = grown(&config, HerbPatch::Ardougne);
    state.harvest(&config, &mut RandomCoin::new());
    assert!(state.herbs_harvested() >= 3);
    assert_eq!(state.lives, 0);
}

#[test]
fn immune_torstol_mean_yield() {
    let mut config = Config::default();
    config.farming_level = 99;
    let mut result = AggregateResult::new();
    let trials = 100_000;
    for _ in 0..trials {
        simulate_patch(&config, Herb::Torstol, HerbPatch::Weiss, &mut result, &mut RandomCoin::new());
    }
    assert_eq!(result.num_trials, trials);
    assert_eq!(result.num_survived, trials);
    let (herbs, runs) = result.herbs_per_run();
    let mean = herbs as f64 / runs as f64;
    let expected = 3.0 / (1.0 - 81.0 / 256.0);
    assert!((mean - expected).abs() / expected < 0.03, "mean {}", mean);
}

#[test]
fn dead_trial_harvests_nothing() {
    let config = Config::default();
    for _ in 0..200 {
        let state = run_trial(&config, Herb::Guam, HerbPatch::Ardougne, &mut RandomCoin::new());
        if state.survived() {
            assert!(state.herbs_harvested() >= 3);
        } else {
            assert_eq!(state.herbs_harvested(), 0);
        }
    }
}

fn sample(n: u64) -> AggregateResult {
    AggregateResult {
        num_trials: n,
        num_patches: 1,
        herbs_harvested: 4 * n + 1,
        xp_gained: 7 * n,
        num_survived: n / 2,
        num_resurrected: n / 3,
    }
}

#[test]
fn combine_is_associative_and_commutative() {
    let (a, b, c) = (sample(10), sample(25), sample(7));
    assert_eq!(a.combine(b).combine(c), a.combine(b.combine(c)));
    assert_eq!(a.combine(b), b.combine(a));
    let sum = a.combine(b);
    assert_eq!(sum.num_trials, 35);
    assert_eq!(sum.num_patches, 2);
    assert_eq!(sum.herbs_harvested, 41 + 101);
}

#[test]
fn combine_saturates() {
    let mut big = sample(1);
    big.herbs_harvested = u64::MAX - 1;
    let sum = big.combine(sample(1));
    assert_eq!(sum.herbs_harvested, u64::MAX);
    assert_eq!(sum.combine(sample(3)), sample(3).combine(sum));
}

#[test]
fn add_trial_and_report() {
    let config = Config::default();
    let mut result = AggregateResult::new();
    let mut alive = grown(&config, HerbPatch::Ardougne);
    alive.herbs_harvested = 6;
    result.add_trial(alive);
    let mut dead = HerbPatchState::new(&config, HerbPatch::Ardougne, Herb::Guam);
    dead.status = Status::Dead;
    dead.has_resurrected = true;
    result.add_trial(dead);
    assert_eq!(result.num_trials, 2);
    assert_eq!(result.num_patches, 1);
    assert_eq!(result.herbs_harvested, 6);
    assert_eq!(result.num_survived, 1);
    assert_eq!(result.num_resurrected, 1);
    let total = result.combine(result);
    assert_eq!(total.herbs_per_run(), (24, 4));
    assert_eq!(total.survival_percent(), (200, 4));
    assert_eq!(total.xp_per_run(), (0, 4));
}

#[test]
fn cycle_steps() {
    let mut config = Config::default();
    config.resurrect_crops = true;
    let mut state = HerbPatchState::new(&config, HerbPatch::Ardougne, Herb::Guam);
    state.cycle(&config, false, false);
    assert_eq!((state.growth_stage, state.status), (1, Status::Healthy));
    state.cycle(&config, true, false);
    assert_eq!((state.growth_stage, state.status), (1, Status::Diseased));
    state.cycle(&config, false, true);
    assert_eq!((state.growth_stage, state.status), (1, Status::Healthy));
    assert!(state.resurrected());
    state.cycle(&config, true, false);
    state.cycle(&config, false, true);
    assert_eq!((state.growth_stage, state.status), (1, Status::Dead));
}

#[test]
fn pick_steps() {
    let config = Config::default();
    let mut state = grown(&config, HerbPatch::Ardougne);
    state.pick(true);
    assert_eq!((state.herbs_harvested, state.lives), (1, 3));
    state.pick(false);
    assert_eq!((state.herbs_harvested, state.lives), (2, 2));
}

#[test]
fn settled_crop_grows_no_further() {
    let config = Config::default();
    let mut state = HerbPatchState::new(&config, HerbPatch::Weiss, Herb::Guam);
    assert!(state.grow(&config, &mut RandomCoin::new()));
    let mut coin = ScriptedCoin::new(vec![false]);
    assert!(state.grow_with_chances(&config, 64, 0, &mut coin));
    assert_eq!(coin.next, 0);
    assert_eq!(state.growth_stage, FINAL_GROWTH_STAGE);
}
