use crate::models::{AchievementDiaryLevel, AnimaPlant, Compost, HerbPatch};
use vstd::prelude::*;

verus! {

/// Bonus to the chance to save a life from magic secateurs, in percent.
pub const SECATEURS_BONUS_PERCENT: u32 = 10;

/// Bonus to the chance to save a life from a farming cape, in percent.
pub const CAPE_BONUS_PERCENT: u32 = 5;

/// Configuration related to a player's herb patches.
#[derive(Clone, Debug)]
pub struct Config {
    /// The herb patches being farmed.
    pub patches: Vec<HerbPatch>,
    /// Player farming level.
    pub farming_level: usize,
    /// Player magic level (for resurrection).
    pub magic_level: usize,
    /// Magic secateurs equipped (10% yield bonus).
    pub magic_secateurs: bool,
    /// Farming cape equipped (5% yield bonus).
    pub farming_cape: bool,
    /// Bottomless bucket owned; affects the cost of compost per patch.
    pub bottomless_bucket: bool,
    /// Whether Resurrect Crops is cast on patches that die.
    pub resurrect_crops: bool,
    /// The compost applied to every patch.
    pub compost: Compost,
    /// The Anima plant alive at the Farming Guild, if any.
    pub anima_plant: Option<AnimaPlant>,
    /// Falador diary tier; Medium gives +10% XP on the Falador patch.
    pub falador_diary: Option<AchievementDiaryLevel>,
    /// At least 50% Hosidius favour: the Hosidius patch is disease-free.
    pub hosidius_fifty_favor: bool,
    /// Kandarin diary tier; raises the Catherby patch's chance to save a life.
    pub kandarin_diary: Option<AchievementDiaryLevel>,
    /// Kourend diary tier; Hard raises the Farming Guild and Hosidius yield.
    pub kourend_diary: Option<AchievementDiaryLevel>,
}

/// The item bonus to the chance to save a life, in percent.
pub open spec fn item_bonus_percent(config: &Config) -> int {
    (if config.magic_secateurs { SECATEURS_BONUS_PERCENT as int } else { 0 })
        + (if config.farming_cape { CAPE_BONUS_PERCENT as int } else { 0 })
}

impl Config {
    /// Calculate the chance-to-save bonus from equipped items only, in percent.
    pub fn calc_item_chance_to_save(&self) -> (r: u32)
        ensures
            r as int == item_bonus_percent(self),
            r <= 15,
    {
        let mut bonus: u32 = 0;
        if self.magic_secateurs {
            bonus = bonus + SECATEURS_BONUS_PERCENT;
        }
        if self.farming_cape {
            bonus = bonus + CAPE_BONUS_PERCENT;
        }
        bonus
    }
}

impl Default for Config {
    fn default() -> (r: Config)
        ensures
            r.patches@.len() == 0,
            r.farming_level == 0,
            r.magic_level == 0,
            !r.magic_secateurs,
            !r.farming_cape,
            !r.bottomless_bucket,
            !r.resurrect_crops,
            r.compost == Compost::NoCompost,
            r.anima_plant.is_none(),
            r.falador_diary.is_none(),
            !r.hosidius_fifty_favor,
            r.kandarin_diary.is_none(),
            r.kourend_diary.is_none(),
    {
        Config {
            patches: Vec::new(),
            farming_level: 0,
            magic_level: 0,
            magic_secateurs: false,
            farming_cape: false,
            bottomless_bucket: false,
            resurrect_crops: false,
            compost: Compost::NoCompost,
            anima_plant: None,
            falador_diary: None,
            hosidius_fifty_favor: false,
            kandarin_diary: None,
            kourend_diary: None,
        }
    }
}

} // verus!
