use herb_sim::config::Config;
use herb_sim::models::{AchievementDiaryLevel, AnimaPlant, Compost, Herb, HerbPatch};

fn level_99() -> Config {
    let mut config = Config::default();
    config.farming_level = 99;
    config
}

#[test]
fn initial_lives_follow_compost() {
    assert_eq!(Compost::NoCompost.initial_lives(), 3);
    assert_eq!(Compost::Normal.initial_lives(), 4);
    assert_eq!(Compost::Supercompost.initial_lives(), 5);
    assert_eq!(Compost::Ultracompost.initial_lives(), 6);
}

#[test]
fn farming_levels() {
    assert_eq!(Herb::Guam.farming_level(), 9);
    assert_eq!(Herb::Ranarr.farming_level(), 32);
    assert_eq!(Herb::Torstol.farming_level(), 85);
}

#[test]
fn disease_free_patches() {
    let mut config = Config::default();
    assert!(HerbPatch::TrollStronghold.disease_free(&config));
    assert!(HerbPatch::Weiss.disease_free(&config));
    assert!(!HerbPatch::Hosidius.disease_free(&config));
    assert!(!HerbPatch::Ardougne.disease_free(&config));
    config.hosidius_fifty_favor = true;
    assert!(HerbPatch::Hosidius.disease_free(&config));
}

#[test]
fn immune_patch_has_no_disease_chance() {
    for compost in [Compost::NoCompost, Compost::Normal, Compost::Supercompost, Compost::Ultracompost] {
        for anima in [None, Some(AnimaPlant::Kronos), Some(AnimaPlant::Attas), Some(AnimaPlant::Iasor)] {
            let mut config = Config::default();
            config.compost = compost;
            config.anima_plant = anima;
            assert_eq!(HerbPatch::Weiss.calc_disease_chance_per_cycle(&config), 0);
        }
    }
}

#[test]
fn disease_chance_per_compost() {
    let mut config = Config::default();
    let expected = [
        (Compost::NoCompost, 27, 5),
        (Compost::Normal, 14, 2),
        (Compost::Supercompost, 6, 1),
        (Compost::Ultracompost, 3, 1),
    ];
    let mut previous = u32::MAX;
    for (compost, plain, iasor) in expected {
        config.compost = compost;
        config.anima_plant = None;
        let chance = HerbPatch::Ardougne.calc_disease_chance_per_cycle(&config);
        assert_eq!(chance, plain);
        assert!(chance <= previous);
        assert!((1..=27).contains(&chance));
        previous = chance;
        config.anima_plant = Some(AnimaPlant::Iasor);
        assert_eq!(HerbPatch::Ardougne.calc_disease_chance_per_cycle(&config), iasor);
    }
}

#[test]
fn item_bonus_stacks() {
    let mut config = Config::default();
    assert_eq!(config.calc_item_chance_to_save(), 0);
    config.magic_secateurs = true;
    assert_eq!(config.calc_item_chance_to_save(), 10);
    config.farming_cape = true;
    assert_eq!(config.calc_item_chance_to_save(), 15);
}

#[test]
fn patch_bonuses() {
    let mut config = Config::default();
    for (level, bonus) in [
        (AchievementDiaryLevel::Easy, 0),
        (AchievementDiaryLevel::Medium, 5),
        (AchievementDiaryLevel::Hard, 10),
        (AchievementDiaryLevel::Elite, 15),
    ] {
        config.kandarin_diary = Some(level);
        assert_eq!(HerbPatch::Catherby.chance_to_save_bonus(&config), bonus);
        assert_eq!(HerbPatch::Ardougne.chance_to_save_bonus(&config), 0);
    }
    config.kourend_diary = Some(AchievementDiaryLevel::Medium);
    assert_eq!(HerbPatch::Hosidius.chance_to_save_bonus(&config), 0);
    config.kourend_diary = Some(AchievementDiaryLevel::Hard);
    assert_eq!(HerbPatch::Hosidius.chance_to_save_bonus(&config), 5);
    assert_eq!(HerbPatch::FarmingGuild.chance_to_save_bonus(&config), 5);
    assert_eq!(HerbPatch::Catherby.xp_bonus(&config), 0);
    config.falador_diary = Some(AchievementDiaryLevel::Easy);
    assert_eq!(HerbPatch::Falador.xp_bonus(&config), 0);
    config.falador_diary = Some(AchievementDiaryLevel::Medium);
    assert_eq!(HerbPatch::Falador.xp_bonus(&config), 10);
}

#[test]
fn save_chance_at_anchors() {
    let mut config = level_99();
    assert_eq!(HerbPatch::Weiss.calc_chance_to_save(&config, Herb::Torstol), 81);
    config.farming_level = 1;
    assert_eq!(HerbPatch::Weiss.calc_chance_to_save(&config, Herb::Guam), 26);
    config.farming_level = 50;
    // (25 * 49 + 80 * 49) / 98 = 52.5, rounded down
    assert_eq!(HerbPatch::Weiss.calc_chance_to_save(&config, Herb::Guam), 53);
}

#[test]
fn save_chance_clamps_level() {
    let mut config = Config::default();
    config.farming_level = 0;
    let low = HerbPatch::Ardougne.calc_chance_to_save(&config, Herb::Guam);
    config.farming_level = 1;
    assert_eq!(HerbPatch::Ardougne.calc_chance_to_save(&config, Herb::Guam), low);
    config.farming_level = 150;
    let high = HerbPatch::Ardougne.calc_chance_to_save(&config, Herb::Guam);
    config.farming_level = 99;
    assert_eq!(HerbPatch::Ardougne.calc_chance_to_save(&config, Herb::Guam), high);
}

#[test]
fn save_chance_floors_each_stage() {
    let mut config = level_99();
    config.magic_secateurs = true;
    // floor(80 * 1.1) = 88
    assert_eq!(HerbPatch::Ardougne.calc_chance_to_save(&config, Herb::Guam), 89);
    config.farming_cape = true;
    config.kandarin_diary = Some(AchievementDiaryLevel::Elite);
    config.anima_plant = Some(AnimaPlant::Attas);
    // floor(80 * 1.15) = 92, floor(92 * 1.2) = 110
    assert_eq!(HerbPatch::Catherby.calc_chance_to_save(&config, Herb::Guam), 111);
}

#[test]
fn save_chance_rises_with_level_and_bonuses() {
    let mut config = Config::default();
    let mut previous = 0;
    for level in 0..=120 {
        config.farming_level = level;
        let chance = HerbPatch::Catherby.calc_chance_to_save(&config, Herb::Ranarr);
        assert!(chance >= previous);
        assert!((1..=256).contains(&chance));
        previous = chance;
    }
    let base = HerbPatch::Catherby.calc_chance_to_save(&config, Herb::Ranarr);
    config.magic_secateurs = true;
    let with_item = HerbPatch::Catherby.calc_chance_to_save(&config, Herb::Ranarr);
    assert!(with_item >= base);
    config.kandarin_diary = Some(AchievementDiaryLevel::Hard);
    assert!(HerbPatch::Catherby.calc_chance_to_save(&config, Herb::Ranarr) >= with_item);
}

#[test]
fn descriptions() {
    let mut config = Config::default();
    assert_eq!(HerbPatch::Ardougne.description(&config), "Ardougne");
    assert_eq!(HerbPatch::Weiss.description(&config), "Weiss (disease-free)");
    config.kandarin_diary = Some(AchievementDiaryLevel::Hard);
    assert_eq!(HerbPatch::Catherby.description(&config), "Catherby (+10% yield)");
    config.hosidius_fifty_favor = true;
    config.kourend_diary = Some(AchievementDiaryLevel::Elite);
    assert_eq!(HerbPatch::Hosidius.description(&config), "Hosidius (disease-free, +5% yield)");
    config.falador_diary = Some(AchievementDiaryLevel::Elite);
    assert_eq!(HerbPatch::Falador.description(&config), "Falador (+10% XP)");
}

#[test]
fn all_herbs_listed_by_level() {
    let herbs = Herb::all();
    assert_eq!(herbs.len(), 15);
    assert_eq!(herbs[0], Herb::Guam);
    assert_eq!(herbs[14], Herb::Torstol);
    for pair in herbs.windows(2) {
        assert!(pair[0].farming_level() < pair[1].farming_level());
    }
}

#[test]
fn xp_tables_in_tenths() {
    assert_eq!(Herb::Guam.xp_per_plant(), 110);
    assert_eq!(Herb::Goutweed.xp_per_plant(), 1050);
    assert_eq!(Herb::Torstol.xp_per_plant(), 1995);
    assert_eq!(Herb::Guam.xp_per_harvest(), 125);
    assert_eq!(Herb::Goutweed.xp_per_harvest(), 450);
    assert_eq!(Herb::Torstol.xp_per_harvest(), 2245);
    for herb in Herb::all() {
        assert!(herb.xp_per_plant() > 0);
        assert!(herb.xp_per_harvest() > 0);
        assert!((1..=99).contains(&herb.farming_level()));
    }
}
