use crate::config::{item_bonus_percent, Config};
use vstd::arithmetic::div_mod::lemma_div_is_ordered;
use vstd::arithmetic::mul::lemma_mul_inequality;
use vstd::prelude::*;
use vstd::string::{StrSliceExecFns, StringExecFns};

verus! {

/// Disease chances are fractions with this denominator.
pub const DISEASE_DENOMINATOR: u32 = 128;

/// Chances to save a life are fractions with this denominator.
pub const SAVE_DENOMINATOR: u32 = 256;

/// Lowest farming level the yield formula is defined on.
pub const MIN_LEVEL: u32 = 1;

/// Highest farming level the yield formula is defined on.
pub const MAX_LEVEL: u32 = 99;

/// Yield bonus from an Attas plant, in percent.
pub const ATTAS_BONUS_PERCENT: u32 = 5;

/// The different tiers of achievement diaries, in increasing order.
#[derive(Copy, Clone, Debug, PartialEq, Eq, Structural, PartialOrd, Ord)]
pub enum AchievementDiaryLevel {
    Easy,
    Medium,
    Hard,
    Elite,
}

impl AchievementDiaryLevel {
    /// Position of the tier in the order Easy < Medium < Hard < Elite.
    pub open spec fn tier(self) -> int {
        match self {
            AchievementDiaryLevel::Easy => 0,
            AchievementDiaryLevel::Medium => 1,
            AchievementDiaryLevel::Hard => 2,
            AchievementDiaryLevel::Elite => 3,
        }
    }

    /// Executable form of `tier`.
    pub fn rank(self) -> (r: u8)
        ensures
            r as int == self.tier(),
    {
        match self {
            AchievementDiaryLevel::Easy => 0,
            AchievementDiaryLevel::Medium => 1,
            AchievementDiaryLevel::Hard => 2,
            AchievementDiaryLevel::Elite => 3,
        }
    }

    /// The tier's display name.
    pub fn name(self) -> &'static str {
        match self {
            AchievementDiaryLevel::Easy => "Easy",
            AchievementDiaryLevel::Medium => "Medium",
            AchievementDiaryLevel::Hard => "Hard",
            AchievementDiaryLevel::Elite => "Elite",
        }
    }
}

/// Different types of compost that can be applied to a farming patch.
#[derive(Copy, Clone, Debug, PartialEq, Eq, Structural)]
pub enum Compost {
    NoCompost,
    Normal,
    Supercompost,
    Ultracompost,
}

impl Compost {
    /// Quality order of composts: None < Normal < Supercompost < Ultracompost.
    pub open spec fn grade(self) -> int {
        match self {
            Compost::NoCompost => 0,
            Compost::Normal => 1,
            Compost::Supercompost => 2,
            Compost::Ultracompost => 3,
        }
    }

    /// Base disease chance, as a numerator over 128.
    pub open spec fn base_disease(self) -> int {
        match self {
            Compost::NoCompost => 27,
            Compost::Normal => 14,
            Compost::Supercompost => 6,
            Compost::Ultracompost => 3,
        }
    }

    /// Number of harvest lives a patch starts with.
    pub open spec fn lives(self) -> int {
        match self {
            Compost::NoCompost => 3,
            Compost::Normal => 4,
            Compost::Supercompost => 5,
            Compost::Ultracompost => 6,
        }
    }

    /// Get the disease chance as a numerator over 128.
    pub fn disease_base_chance(self) -> (r: u32)
        ensures
            r as int == self.base_disease(),
    {
        match self {
            Compost::NoCompost => 27,
            Compost::Normal => 14,
            Compost::Supercompost => 6,
            Compost::Ultracompost => 3,
        }
    }

    /// Get the number of lives a patch starts with under this compost.
    pub fn initial_lives(self) -> (r: usize)
        ensures
            r as int == self.lives(),
    {
        match self {
            Compost::NoCompost => 3,
            Compost::Normal => 4,
            Compost::Supercompost => 5,
            Compost::Ultracompost => 6,
        }
    }

    /// The compost's display name.
    pub fn name(self) -> &'static str {
        match self {
            Compost::NoCompost => "None",
            Compost::Normal => "Normal",
            Compost::Supercompost => "Supercompost",
            Compost::Ultracompost => "Ultracompost",
        }
    }
}

/// A type of plant that has global impact on how other crops grow.
#[derive(Copy, Clone, Debug, PartialEq, Eq, Structural)]
pub enum AnimaPlant {
    Kronos,
    /// Increases yield.
    Attas,
    /// Lowers disease chance.
    Iasor,
}

impl AnimaPlant {
    /// The plant's display name.
    pub fn name(self) -> &'static str {
        match self {
            AnimaPlant::Kronos => "Kronos",
            AnimaPlant::Attas => "Attas",
            AnimaPlant::Iasor => "Iasor",
        }
    }
}


/// The different types of herbs that a player can grow in an herb patch.
#[derive(Copy, Clone, Debug, PartialEq, Eq, Structural)]
pub enum Herb {
    Guam,
    Marrentill,
    Tarromin,
    Harralander,
    Goutweed,
    Ranarr,
    Toadflax,
    Irit,
    Avantoe,
    Kwuarm,
    Snapdragon,
    Cadantine,
    Lantadyme,
    Dwarf,
    Torstol,
}

impl Herb {
    /// Chance-to-save numerator (over 256) at farming level 1.
    pub open spec fn low_anchor(self) -> int {
        match self {
            Herb::Guam => 25,
            Herb::Marrentill => 28,
            Herb::Tarromin => 31,
            Herb::Harralander => 36,
            Herb::Goutweed => 39,
            Herb::Ranarr => 39,
            Herb::Toadflax => 43,
            Herb::Irit => 46,
            Herb::Avantoe => 50,
            Herb::Kwuarm => 54,
            Herb::Snapdragon => 57,
            Herb::Cadantine => 60,
            Herb::Lantadyme => 64,
            Herb::Dwarf => 67,
            Herb::Torstol => 71,
        }
    }

    /// Chance-to-save numerator (over 256) at farming level 99.
    pub open spec fn high_anchor(self) -> int {
        80
    }

    /// Every herb, from the lowest level requirement to the highest.
    pub fn all() -> (r: Vec<Herb>)
        ensures
            r@.len() == 15,
    {
        vec![
            Herb::Guam,
            Herb::Marrentill,
            Herb::Tarromin,
            Herb::Harralander,
            Herb::Goutweed,
            Herb::Ranarr,
            Herb::Toadflax,
            Herb::Irit,
            Herb::Avantoe,
            Herb::Kwuarm,
            Herb::Snapdragon,
            Herb::Cadantine,
            Herb::Lantadyme,
            Herb::Dwarf,
            Herb::Torstol,
        ]
    }

    /// Farming level required to plant this herb.
    pub open spec fn required_level(self) -> int {
        match self {
            Herb::Guam => 9,
            Herb::Marrentill => 14,
            Herb::Tarromin => 19,
            Herb::Harralander => 26,
            Herb::Goutweed => 29,
            Herb::Ranarr => 32,
            Herb::Toadflax => 38,
            Herb::Irit => 44,
            Herb::Avantoe => 50,
            Herb::Kwuarm => 56,
            Herb::Snapdragon => 62,
            Herb::Cadantine => 67,
            Herb::Lantadyme => 73,
            Herb::Dwarf => 79,
            Herb::Torstol => 85,
        }
    }

    /// Get the farming level required to plant this herb.
    pub fn farming_level(self) -> (r: usize)
        ensures
            r as int == self.required_level(),
    {
        match self {
            Herb::Guam => 9,
            Herb::Marrentill => 14,
            Herb::Tarromin => 19,
            Herb::Harralander => 26,
            Herb::Goutweed => 29,
            Herb::Ranarr => 32,
            Herb::Toadflax => 38,
            Herb::Irit => 44,
            Herb::Avantoe => 50,
            Herb::Kwuarm => 56,
            Herb::Snapdragon => 62,
            Herb::Cadantine => 67,
            Herb::Lantadyme => 73,
            Herb::Dwarf => 79,
            Herb::Torstol => 85,
        }
    }

    /// Get the chance to save (numerators over 256) at level 1 and at level 99;
    /// other levels are interpolated linearly between the two.
    pub fn chance_to_save(self) -> (r: (u32, u32))
        ensures
            r.0 as int == self.low_anchor(),
            r.1 as int == self.high_anchor(),
    {
        match self {
            Herb::Guam => (25, 80),
            Herb::Marrentill => (28, 80),
            Herb::Tarromin => (31, 80),
            Herb::Harralander => (36, 80),
            Herb::Goutweed => (39, 80),
            Herb::Ranarr => (39, 80),
            Herb::Toadflax => (43, 80),
            Herb::Irit => (46, 80),
            Herb::Avantoe => (50, 80),
            Herb::Kwuarm => (54, 80),
            Herb::Snapdragon => (57, 80),
            Herb::Cadantine => (60, 80),
            Herb::Lantadyme => (64, 80),
            Herb::Dwarf => (67, 80),
            Herb::Torstol => (71, 80),
        }
    }

    /// Farming XP, in tenths of a point, for planting one seed of this herb.
    pub open spec fn plant_xp(self) -> int {
        match self {
            Herb::Guam => 110,
            Herb::Marrentill => 135,
            Herb::Tarromin => 160,
            Herb::Harralander => 215,
            Herb::Goutweed => 1050,
            Herb::Ranarr => 270,
            Herb::Toadflax => 340,
            Herb::Irit => 430,
            Herb::Avantoe => 545,
            Herb::Kwuarm => 690,
            Herb::Snapdragon => 875,
            Herb::Cadantine => 1065,
            Herb::Lantadyme => 1345,
            Herb::Dwarf => 1705,
            Herb::Torstol => 1995,
        }
    }

    /// Farming XP, in tenths of a point, for planting one seed of this herb.
    pub fn xp_per_plant(self) -> (r: u32)
        ensures
            r as int == self.plant_xp(),
    {
        match self {
            Herb::Guam => 110,
            Herb::Marrentill => 135,
            Herb::Tarromin => 160,
            Herb::Harralander => 215,
            Herb::Goutweed => 1050,
            Herb::Ranarr => 270,
            Herb::Toadflax => 340,
            Herb::Irit => 430,
            Herb::Avantoe => 545,
            Herb::Kwuarm => 690,
            Herb::Snapdragon => 875,
            Herb::Cadantine => 1065,
            Herb::Lantadyme => 1345,
            Herb::Dwarf => 1705,
            Herb::Torstol => 1995,
        }
    }

    /// Farming XP, in tenths of a point, for harvesting one herb.
    pub open spec fn harvest_xp(self) -> int {
        match self {
            Herb::Guam => 125,
            Herb::Marrentill => 150,
            Herb::Tarromin => 180,
            Herb::Harralander => 240,
            Herb::Goutweed => 450,
            Herb::Ranarr => 305,
            Herb::Toadflax => 385,
            Herb::Irit => 485,
            Herb::Avantoe => 615,
            Herb::Kwuarm => 780,
            Herb::Snapdragon => 985,
            Herb::Cadantine => 1200,
            Herb::Lantadyme => 1515,
            Herb::Dwarf => 1920,
            Herb::Torstol => 2245,
        }
    }

    /// Farming XP, in tenths of a point, for harvesting one herb.
    pub fn xp_per_harvest(self) -> (r: u32)
        ensures
            r as int == self.harvest_xp(),
    {
        match self {
            Herb::Guam => 125,
            Herb::Marrentill => 150,
            Herb::Tarromin => 180,
            Herb::Harralander => 240,
            Herb::Goutweed => 450,
            Herb::Ranarr => 305,
            Herb::Toadflax => 385,
            Herb::Irit => 485,
            Herb::Avantoe => 615,
            Herb::Kwuarm => 780,
            Herb::Snapdragon => 985,
            Herb::Cadantine => 1200,
            Herb::Lantadyme => 1515,
            Herb::Dwarf => 1920,
            Herb::Torstol => 2245,
        }
    }

    /// The herb's display name.
    pub fn name(self) -> &'static str {
        match self {
            Herb::Guam => "Guam leaf",
            Herb::Marrentill => "Marrentill",
            Herb::Tarromin => "Tarromin",
            Herb::Harralander => "Harralander",
            Herb::Goutweed => "Goutweed",
            Herb::Ranarr => "Ranarr weed",
            Herb::Toadflax => "Toadflax",
            Herb::Irit => "Irit leaf",
            Herb::Avantoe => "Avantoe",
            Herb::Kwuarm => "Kwuarm",
            Herb::Snapdragon => "Snapdragon",
            Herb::Cadantine => "Cadantine",
            Herb::Lantadyme => "Lantadyme",
            Herb::Dwarf => "Dwarf weed",
            Herb::Torstol => "Torstol",
        }
    }
}

/// Farming level clamped into the range the yield formula is defined on.
pub open spec fn clamp_level(level: int) -> int {
    if level < MIN_LEVEL {
        MIN_LEVEL as int
    } else if level > MAX_LEVEL {
        MAX_LEVEL as int
    } else {
        level
    }
}

/// Chance-to-save numerator interpolated linearly between its anchors at
/// levels 1 and 99, rounded down.
pub open spec fn interpolate(low: int, high: int, level: int) -> int {
    let l = clamp_level(level);
    (low * (99 - l) + high * (l - 1)) / 98
}

/// Numerator over 256 of the chance to save a life: the interpolated value,
/// then the item bonus, then the patch and environment bonus, each step
/// rounded down, plus one. Bonuses are in percent.
pub open spec fn save_formula(low: int, high: int, level: int, item: int, bonus: int) -> int {
    interpolate(low, high, level) * (100 + item) / 100 * (100 + bonus) / 100 + 1
}

/// Yield bonus from the Anima plant, in percent.
pub open spec fn anima_yield_bonus(config: &Config) -> int {
    if config.anima_plant == Some(AnimaPlant::Attas) {
        ATTAS_BONUS_PERCENT as int
    } else {
        0
    }
}

/// A signed percentage as text; bonuses only take these values.
pub open spec fn percent_text(p: int) -> Seq<char> {
    if p == 5 {
        "+5"@
    } else if p == 10 {
        "+10"@
    } else {
        "+15"@
    }
}

/// Executable form of `percent_text`.
pub fn percent_label(p: u32) -> (r: &'static str)
    ensures
        r@ == percent_text(p as int),
{
    if p == 5 {
        "+5"
    } else if p == 10 {
        "+10"
    } else {
        "+15"
    }
}

/// Append one modifier to a comma-separated list.
pub open spec fn join_modifier(list: Seq<char>, part: Seq<char>) -> Seq<char> {
    if list.len() == 0 {
        part
    } else {
        list + ", "@ + part
    }
}

/// An herb farming patch.
#[derive(Copy, Clone, Debug, PartialEq, Eq, Structural)]
pub enum HerbPatch {
    Ardougne,
    Catherby,
    Falador,
    FarmingGuild,
    HarmonyIsland,
    Hosidius,
    PortPhasmatys,
    TrollStronghold,
    Weiss,
}

impl HerbPatch {
    /// Whether crops in this patch can never catch disease.
    pub open spec fn immune(self, config: &Config) -> bool {
        match self {
            HerbPatch::TrollStronghold | HerbPatch::Weiss => true,
            HerbPatch::Hosidius => config.hosidius_fifty_favor,
            _ => false,
        }
    }

    /// Chance-to-save bonus of the patch under the configured diaries, in percent.
    pub open spec fn save_bonus(self, config: &Config) -> int {
        match self {
            HerbPatch::Catherby => match config.kandarin_diary {
                Some(d) => 5 * d.tier(),
                None => 0,
            },
            HerbPatch::FarmingGuild | HerbPatch::Hosidius => match config.kourend_diary {
                Some(d) => if d.tier() >= AchievementDiaryLevel::Hard.tier() {
                    5
                } else {
                    0
                },
                None => 0,
            },
            _ => 0,
        }
    }

    /// XP bonus of the patch under the configured diaries, in percent.
    pub open spec fn xp_percent(self, config: &Config) -> int {
        match (self, config.falador_diary) {
            (HerbPatch::Falador, Some(d)) => if d.tier() >= AchievementDiaryLevel::Medium.tier() {
                10
            } else {
                0
            },
            _ => 0,
        }
    }

    /// Disease chance per growth cycle, as a numerator over 128.
    pub open spec fn disease_numerator(self, config: &Config) -> int {
        if self.immune(config) {
            0
        } else {
            let base = config.compost.base_disease();
            let reduced = if config.anima_plant == Some(AnimaPlant::Iasor) {
                base / 5
            } else {
                base
            };
            if reduced < 1 {
                1
            } else {
                reduced
            }
        }
    }

    /// Chance to save a life when picking a herb, as a numerator over 256.
    pub open spec fn save_numerator(self, config: &Config, herb: Herb) -> int {
        save_formula(
            herb.low_anchor(),
            herb.high_anchor(),
            config.farming_level as int,
            item_bonus_percent(config),
            self.save_bonus(config) + anima_yield_bonus(config),
        )
    }

    /// The patch's display name.
    pub open spec fn name_text(self) -> Seq<char> {
        match self {
            HerbPatch::Ardougne => "Ardougne"@,
            HerbPatch::Catherby => "Catherby"@,
            HerbPatch::Falador => "Falador"@,
            HerbPatch::FarmingGuild => "FarmingGuild"@,
            HerbPatch::HarmonyIsland => "HarmonyIsland"@,
            HerbPatch::Hosidius => "Hosidius"@,
            HerbPatch::PortPhasmatys => "PortPhasmatys"@,
            HerbPatch::TrollStronghold => "TrollStronghold"@,
            HerbPatch::Weiss => "Weiss"@,
        }
    }

    /// The patch's display name.
    pub fn name(self) -> (r: &'static str)
        ensures
            r@ == self.name_text(),
    {
        match self {
            HerbPatch::Ardougne => "Ardougne",
            HerbPatch::Catherby => "Catherby",
            HerbPatch::Falador => "Falador",
            HerbPatch::FarmingGuild => "FarmingGuild",
            HerbPatch::HarmonyIsland => "HarmonyIsland",
            HerbPatch::Hosidius => "Hosidius",
            HerbPatch::PortPhasmatys => "PortPhasmatys",
            HerbPatch::TrollStronghold => "TrollStronghold",
            HerbPatch::Weiss => "Weiss",
        }
    }

    /// The patch's modifiers under the configuration, separated by commas.
    pub open spec fn modifiers_text(self, config: &Config) -> Seq<char> {
        let free = if self.immune(config) {
            "disease-free"@
        } else {
            Seq::empty()
        };
        let bonus = self.save_bonus(config);
        let with_yield = if bonus > 0 {
            join_modifier(free, percent_text(bonus) + "% yield"@)
        } else {
            free
        };
        if self.xp_percent(config) > 0 {
            join_modifier(with_yield, percent_text(self.xp_percent(config)) + "% XP"@)
        } else {
            with_yield
        }
    }

    /// The patch's name, followed by its modifiers in parentheses if it has any.
    pub open spec fn description_text(self, config: &Config) -> Seq<char> {
        let m = self.modifiers_text(config);
        if m.len() == 0 {
            self.name_text()
        } else {
            self.name_text() + " ("@ + m + ")"@
        }
    }

    /// Get a descriptive string that holds this patch's name and all of its
    /// buffs.
    pub fn description(self, config: &Config) -> (r: String)
        ensures
            r@ == self.description_text(config),
    {
        let mut modifiers = String::new();
        if self.disease_free(config) {
            modifiers.append("disease-free");
        }
        let bonus = self.chance_to_save_bonus(config);
        if bonus > 0 {
            if modifiers.as_str().unicode_len() > 0 {
                modifiers.append(", ");
            }
            modifiers.append(percent_label(bonus));
            modifiers.append("% yield");
        }
        let xp = self.xp_bonus(config);
        if xp > 0 {
            if modifiers.as_str().unicode_len() > 0 {
                modifiers.append(", ");
            }
            modifiers.append(percent_label(xp));
            modifiers.append("% XP");
        }
        let mut description = String::from_str(self.name());
        if modifiers.as_str().unicode_len() > 0 {
            description.append(" (");
            description.append(modifiers.as_str());
            description.append(")");
        }
        description
    }

    /// Is this patch certified disease-free under the given configuration?
    pub fn disease_free(self, config: &Config) -> (r: bool)
        ensures
            r == self.immune(config),
    {
        match self {
            HerbPatch::TrollStronghold | HerbPatch::Weiss => true,
            HerbPatch::Hosidius => config.hosidius_fifty_favor,
            _ => false,
        }
    }

    /// The chance-to-save bonus, in percent, that this patch gives under the
    /// configured diaries. It stacks with the item bonus.
    pub fn chance_to_save_bonus(self, config: &Config) -> (r: u32)
        ensures
            r as int == self.save_bonus(config),
            r <= 15,
    {
        match self {
            HerbPatch::Catherby => match config.kandarin_diary {
                Some(AchievementDiaryLevel::Easy) => 0,
                Some(AchievementDiaryLevel::Medium) => 5,
                Some(AchievementDiaryLevel::Hard) => 10,
                Some(AchievementDiaryLevel::Elite) => 15,
                None => 0,
            },
            HerbPatch::FarmingGuild | HerbPatch::Hosidius => match config.kourend_diary {
                Some(d) => if d.rank() >= AchievementDiaryLevel::Hard.rank() {
                    5
                } else {
                    0
                },
                None => 0,
            },
            _ => 0,
        }
    }

    /// The XP bonus, in percent, that this patch gives for all actions on it.
    pub fn xp_bonus(self, config: &Config) -> (r: u32)
        ensures
            r as int == self.xp_percent(config),
    {
        match (self, config.falador_diary) {
            (HerbPatch::Falador, Some(d)) => if d.rank() >= AchievementDiaryLevel::Medium.rank() {
                10
            } else {
                0
            },
            _ => 0,
        }
    }

    /// The chance, as a numerator over 128, that a healthy herb in this patch
    /// catches disease at one growth cycle. Rounded down, but never to zero
    /// unless the patch is disease-free.
    pub fn calc_disease_chance_per_cycle(self, config: &Config) -> (r: u32)
        ensures
            r as int == self.disease_numerator(config),
            r <= DISEASE_DENOMINATOR,
    {
        if self.disease_free(config) {
            0
        } else {
            let base = config.compost.disease_base_chance();
            let reduced = match config.anima_plant {
                Some(AnimaPlant::Iasor) => base / 5,
                _ => base,
            };
            if reduced < 1 {
                1
            } else {
                reduced
            }
        }
    }

    /// The chance, as a numerator over 256, to save a life when picking a herb
    /// in this patch.
    pub fn calc_chance_to_save(self, config: &Config, herb: Herb) -> (r: u32)
        ensures
            r as int == self.save_numerator(config, herb),
            1 <= r < SAVE_DENOMINATOR,
    {
        let item = config.calc_item_chance_to_save();
        let diary = self.chance_to_save_bonus(config);
        let attas: u32 = match config.anima_plant {
            Some(AnimaPlant::Attas) => ATTAS_BONUS_PERCENT,
            _ => 0,
        };
        let (low, high) = herb.chance_to_save();
        let level: u32 = if config.farming_level < 1 {
            MIN_LEVEL
        } else if config.farming_level > 99 {
            MAX_LEVEL
        } else {
            config.farming_level as u32
        };
        assert(low * (99 - level) <= 80 * (99 - level)) by (nonlinear_arith)
            requires low <= 80, level <= 99;
        assert(high * (level - 1) <= 80 * (level - 1)) by (nonlinear_arith)
            requires high <= 80, level >= 1;
        let base = (low * (99 - level) + high * (level - 1)) / 98;
        assert(base <= 80);
        assert(base * (100 + item) <= 80 * 115) by (nonlinear_arith)
            requires base <= 80, item <= 15;
        let with_items = base * (100 + item) / 100;
        assert(with_items * (100 + diary + attas) <= 92 * 135) by (nonlinear_arith)
            requires with_items <= 92, diary + attas <= 35;
        let total = with_items * (100 + diary + attas) / 100;
        total + 1
    }
}

/// Scaling by a non-negative factor and dividing, rounded down, keeps order.
proof fn lemma_scale_ordered(x: int, y: int, k: int, d: int)
    requires
        x <= y,
        k >= 0,
        d > 0,
    ensures
        x * k / d <= y * k / d,
{
    lemma_mul_inequality(x, y, k);
    lemma_div_is_ordered(x * k, y * k, d);
}

/// A larger non-negative factor gives a result at least as large.
proof fn lemma_factor_ordered(x: int, k1: int, k2: int, d: int)
    requires
        x >= 0,
        k1 <= k2,
        d > 0,
    ensures
        x * k1 / d <= x * k2 / d,
{
    lemma_mul_inequality(k1, k2, x);
    assert(x * k1 <= x * k2) by (nonlinear_arith)
        requires
            k1 * x <= k2 * x,
    ;
    lemma_div_is_ordered(x * k1, x * k2, d);
}

/// The interpolated value lies between the anchors and never falls as the
/// level rises.
proof fn lemma_interpolate_ordered(low: int, high: int, l1: int, l2: int)
    requires
        0 <= low <= high,
        l1 <= l2,
    ensures
        interpolate(low, high, l1) <= interpolate(low, high, l2),
        low <= interpolate(low, high, l1) <= high,
{
    let a = clamp_level(l1);
    let b = clamp_level(l2);
    assert(low * (99 - a) + high * (a - 1) == 98 * low + (high - low) * (a - 1)) by (nonlinear_arith);
    assert(low * (99 - b) + high * (b - 1) == 98 * low + (high - low) * (b - 1)) by (nonlinear_arith);
    assert((high - low) * (a - 1) <= (high - low) * (b - 1)) by (nonlinear_arith)
        requires
            high - low >= 0,
            a <= b,
    ;
    assert(0 <= (high - low) * (a - 1) <= (high - low) * 98) by (nonlinear_arith)
        requires
            high - low >= 0,
            1 <= a <= 99,
    ;
    lemma_div_is_ordered(
        98 * low + (high - low) * (a - 1),
        98 * low + (high - low) * (b - 1),
        98,
    );
    lemma_div_is_ordered(98 * low, 98 * low + (high - low) * (a - 1), 98);
    lemma_div_is_ordered(98 * low + (high - low) * (a - 1), 98 * high, 98);
}

/// A disease-free patch never catches disease, whatever the compost and the
/// Anima plant.
pub proof fn lemma_immune_never_diseased(patch: HerbPatch, config: &Config)
    requires
        patch.immune(config),
    ensures
        patch.disease_numerator(config) == 0,
{
}

/// A patch that is not disease-free catches disease with a chance between
/// 1/128 and 27/128: the compost's base chance, or under Iasor a fifth of it
/// rounded down, but never below 1/128.
pub proof fn lemma_disease_chance_bounds(patch: HerbPatch, config: &Config)
    requires
        !patch.immune(config),
    ensures
        1 <= patch.disease_numerator(config) <= 27,
        config.anima_plant == Some(AnimaPlant::Iasor) ==> patch.disease_numerator(config) == if config.compost.base_disease() / 5 < 1 {
            1
        } else {
            config.compost.base_disease() / 5
        },
        config.anima_plant != Some(AnimaPlant::Iasor) ==> patch.disease_numerator(config)
            == config.compost.base_disease(),
{
}

/// Better compost never raises the disease chance of a patch.
pub proof fn lemma_disease_chance_falls_with_compost(
    patch: HerbPatch,
    config: &Config,
    better: &Config,
)
    requires
        config.compost.grade() <= better.compost.grade(),
        config.anima_plant == better.anima_plant,
        config.hosidius_fifty_favor == better.hosidius_fifty_favor,
    ensures
        patch.disease_numerator(better) <= patch.disease_numerator(config),
{
}

/// The chance to save a life never falls as the farming level rises.
pub proof fn lemma_save_chance_rises_with_level(
    herb: Herb,
    level: int,
    higher: int,
    item: int,
    bonus: int,
)
    requires
        level <= higher,
        item >= 0,
        bonus >= 0,
    ensures
        save_formula(herb.low_anchor(), herb.high_anchor(), level, item, bonus) <= save_formula(
            herb.low_anchor(),
            herb.high_anchor(),
            higher,
            item,
            bonus,
        ),
{
    let low = herb.low_anchor();
    let high = herb.high_anchor();
    lemma_interpolate_ordered(low, high, level, higher);
    lemma_interpolate_ordered(low, high, higher, higher);
    let a = interpolate(low, high, level);
    let b = interpolate(low, high, higher);
    lemma_scale_ordered(a, b, 100 + item, 100);
    assert(a * (100 + item) / 100 >= 0) by (nonlinear_arith)
        requires
            a >= 0,
            item >= 0,
    ;
    lemma_scale_ordered(a * (100 + item) / 100, b * (100 + item) / 100, 100 + bonus, 100);
}

/// The chance to save a life never falls as the item bonus or the patch and
/// environment bonus rises.
pub proof fn lemma_save_chance_rises_with_bonuses(
    herb: Herb,
    level: int,
    item: int,
    more_item: int,
    bonus: int,
    more_bonus: int,
)
    requires
        0 <= item <= more_item,
        0 <= bonus <= more_bonus,
    ensures
        save_formula(herb.low_anchor(), herb.high_anchor(), level, item, bonus) <= save_formula(
            herb.low_anchor(),
            herb.high_anchor(),
            level,
            more_item,
            more_bonus,
        ),
{
    let low = herb.low_anchor();
    let high = herb.high_anchor();
    lemma_interpolate_ordered(low, high, level, level);
    let a = interpolate(low, high, level);
    lemma_factor_ordered(a, 100 + item, 100 + more_item, 100);
    let x = a * (100 + item) / 100;
    let y = a * (100 + more_item) / 100;
    assert(x >= 0) by (nonlinear_arith)
        requires
            a >= 0,
            item >= 0,
            x == a * (100 + item) / 100,
    ;
    lemma_scale_ordered(x, y, 100 + bonus, 100);
    assert(y >= 0);
    lemma_factor_ordered(y, 100 + bonus, 100 + more_bonus, 100);
}

/// The chance to save a life is always between 1/256 and 1.
pub proof fn lemma_save_chance_range(patch: HerbPatch, config: &Config, herb: Herb)
    ensures
        1 <= patch.save_numerator(config, herb) <= SAVE_DENOMINATOR,
{
    let low = herb.low_anchor();
    let high = herb.high_anchor();
    lemma_interpolate_ordered(low, high, config.farming_level as int, config.farming_level as int);
    let a = interpolate(low, high, config.farming_level as int);
    let item = item_bonus_percent(config);
    let bonus = patch.save_bonus(config) + anima_yield_bonus(config);
    assert(0 <= item <= 15);
    assert(0 <= bonus <= 20);
    assert(0 <= a * (100 + item) / 100 <= 92) by (nonlinear_arith)
        requires
            0 <= a <= 80,
            0 <= item <= 15,
    ;
    let x = a * (100 + item) / 100;
    assert(0 <= x * (100 + bonus) / 100 <= 111) by (nonlinear_arith)
        requires
            0 <= x <= 92,
            0 <= bonus <= 20,
    ;
}

} // verus!
