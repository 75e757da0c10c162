use statblock::basetraits::{ACKind, Abilities, Ability, AMods, AScores, Size, AC, CR, HP,
    ProfBonus};
use statblock::dice::Die;
use statblock::rational::Ratio;
use statblock::util::clamp_isize;

#[test]
fn proficiency_bonus_boundaries() {
    assert_eq!(ProfBonus::from(CR::CR4).0, 2);
    assert_eq!(ProfBonus::from(CR::CR5).0, 3);
    assert_eq!(ProfBonus::from(CR::CR30).0, 9);
    assert_eq!(ProfBonus::from(CR::CR0).0, 2);
    assert_eq!(ProfBonus::from(CR::CR8).0, 3);
    assert_eq!(ProfBonus::from(CR::CR9).0, 4);
    assert_eq!(ProfBonus::from(CR::CR28).0, 8);
    assert_eq!(ProfBonus::from(CR::CR29).0, 9);
}

#[test]
fn cr_from_hit_points_boundaries() {
    assert_eq!(CR::from(HP(6)), CR::CR0);
    assert_eq!(CR::from(HP(7)), CR::CROneEighth);
    assert_eq!(CR::from(HP(900)), CR::CR30);
    assert_eq!(CR::from(HP(0)), CR::CR0);
    assert_eq!(CR::from(HP(35)), CR::CROneEighth);
    assert_eq!(CR::from(HP(36)), CR::CROneQuarter);
    assert_eq!(CR::from(HP(70)), CR::CROneHalf);
    assert_eq!(CR::from(HP(71)), CR::CR1);
    assert_eq!(CR::from(HP(355)), CR::CR19);
    assert_eq!(CR::from(HP(356)), CR::CR20);
    assert_eq!(CR::from(HP(805)), CR::CR29);
    assert_eq!(CR::from(HP(806)), CR::CR30);
}

#[test]
fn cr_for_expected_damage_boundaries() {
    assert_eq!(CR::for_expected_damage(0), CR::CR0);
    assert_eq!(CR::for_expected_damage(1), CR::CR0);
    assert_eq!(CR::for_expected_damage(2), CR::CROneEighth);
    assert_eq!(CR::for_expected_damage(8), CR::CROneHalf);
    assert_eq!(CR::for_expected_damage(9), CR::CR1);
    assert_eq!(CR::for_expected_damage(122), CR::CR19);
    assert_eq!(CR::for_expected_damage(123), CR::CR20);
    assert_eq!(CR::for_expected_damage(302), CR::CR29);
    assert_eq!(CR::for_expected_damage(303), CR::CR30);
}

#[test]
fn to_hit_bonus_table() {
    assert_eq!(CR::CR0.to_hit_bonus(), 3);
    assert_eq!(CR::CR2.to_hit_bonus(), 3);
    assert_eq!(CR::CR3.to_hit_bonus(), 4);
    assert_eq!(CR::CR4.to_hit_bonus(), 5);
    assert_eq!(CR::CR5.to_hit_bonus(), 6);
    assert_eq!(CR::CR10.to_hit_bonus(), 7);
    assert_eq!(CR::CR15.to_hit_bonus(), 8);
    assert_eq!(CR::CR16.to_hit_bonus(), 9);
    assert_eq!(CR::CR20.to_hit_bonus(), 10);
    assert_eq!(CR::CR23.to_hit_bonus(), 11);
    assert_eq!(CR::CR26.to_hit_bonus(), 12);
    assert_eq!(CR::CR29.to_hit_bonus(), 13);
    assert_eq!(CR::CR30.to_hit_bonus(), 14);
}

#[test]
fn save_dc_table() {
    assert_eq!(CR::CR0.save_dc(), 13);
    assert_eq!(CR::CR3.save_dc(), 13);
    assert_eq!(CR::CR4.save_dc(), 14);
    assert_eq!(CR::CR7.save_dc(), 15);
    assert_eq!(CR::CR10.save_dc(), 16);
    assert_eq!(CR::CR12.save_dc(), 17);
    assert_eq!(CR::CR16.save_dc(), 18);
    assert_eq!(CR::CR20.save_dc(), 19);
    assert_eq!(CR::CR23.save_dc(), 20);
    assert_eq!(CR::CR26.save_dc(), 21);
    assert_eq!(CR::CR29.save_dc(), 22);
    assert_eq!(CR::CR30.save_dc(), 23);
}

#[test]
fn expected_ac_table() {
    assert_eq!(AC::from(CR::CR0).0, 13);
    assert_eq!(AC::from(CR::CR3).0, 13);
    assert_eq!(AC::from(CR::CR4).0, 14);
    assert_eq!(AC::from(CR::CR7).0, 15);
    assert_eq!(AC::from(CR::CR9).0, 16);
    assert_eq!(AC::from(CR::CR12).0, 17);
    assert_eq!(AC::from(CR::CR16).0, 18);
    assert_eq!(AC::from(CR::CR17).0, 19);
    assert_eq!(AC::from(CR::CR30).0, 19);
}

#[test]
fn cr_real_values_and_rounding() {
    assert!(CR::CR0.real_value().same(&Ratio::new(0, 1)));
    assert!(CR::CROneEighth.real_value().same(&Ratio::new(1, 8)));
    assert!(CR::CROneQuarter.real_value().same(&Ratio::new(1, 4)));
    assert!(CR::CROneHalf.real_value().same(&Ratio::new(1, 2)));
    assert!(CR::CR17.real_value().same(&Ratio::new(17, 1)));

    assert_eq!(CR::from_real(Ratio::new(0, 1)), CR::CR0);
    assert_eq!(CR::from_real(Ratio::new(-3, 1)), CR::CR0);
    assert_eq!(CR::from_real(Ratio::new(1, 8)), CR::CROneEighth);
    assert_eq!(CR::from_real(Ratio::new(1, 2)), CR::CROneHalf);
    // Values between levels round up to the next defined level.
    assert_eq!(CR::from_real(Ratio::new(3, 8)), CR::CROneHalf);
    assert_eq!(CR::from_real(Ratio::new(3, 2)), CR::CR2);
    assert_eq!(CR::from_real(Ratio::new(29, 1)), CR::CR29);
    assert_eq!(CR::from_real(Ratio::new(59, 2)), CR::CR30);
    assert_eq!(CR::from_real(Ratio::new(1000, 1)), CR::CR30);
}

#[test]
fn hit_dice_by_size() {
    assert_eq!(Size::Tiny.hit_die(), Die(4));
    assert_eq!(Size::Small.hit_die(), Die(6));
    assert_eq!(Size::Medium.hit_die(), Die(8));
    assert_eq!(Size::Large.hit_die(), Die(10));
    assert_eq!(Size::Huge.hit_die(), Die(12));
    assert_eq!(Size::Gargantuan.hit_die(), Die(20));
}

#[test]
fn modifiers_follow_the_linear_map() {
    let scores = AScores(Abilities {
        strength: 14,
        dexterity: 15,
        constitution: 9,
        intelligence: 7,
        wisdom: 10,
        charisma: 30,
    });
    let mods = AMods::from_scores(&scores);
    assert_eq!(mods.0.strength, 2);
    assert_eq!(mods.0.dexterity, 2);
    // floor((9 - 10) / 2) = -1, the spec's floor, not truncation toward zero
    assert_eq!(mods.0.constitution, -1);
    assert_eq!(mods.0.intelligence, -2);
    assert_eq!(mods.0.wisdom, 0);
    assert_eq!(mods.0.charisma, 10);
}

#[test]
fn default_scores_and_mods() {
    let scores = AScores::default();
    assert_eq!(scores.0.strength, 10);
    let mods = AMods::default();
    assert_eq!(mods.0.charisma, 0);
}

#[test]
fn abilities_map_and_get() {
    let a = Abilities {
        strength: 1,
        dexterity: 2,
        constitution: 3,
        intelligence: 4,
        wisdom: 5,
        charisma: 6,
    };
    let doubled = a.map(|x| x * 2);
    assert_eq!(doubled.strength, 2);
    assert_eq!(doubled.charisma, 12);
    assert_eq!(a.get(Ability::Str), 1);
    assert_eq!(a.get(Ability::Dex), 2);
    assert_eq!(a.get(Ability::Con), 3);
    assert_eq!(a.get(Ability::Int), 4);
    assert_eq!(a.get(Ability::Wis), 5);
    assert_eq!(a.get(Ability::Cha), 6);
}

#[test]
fn armor_class_policies() {
    let mods = AMods(Abilities {
        strength: 0,
        dexterity: 3,
        constitution: 2,
        intelligence: 0,
        wisdom: 0,
        charisma: 0,
    });
    assert_eq!(ACKind::Normal.armor_class(&mods), AC(13));
    assert_eq!(ACKind::UnarmoredDefense.armor_class(&mods), AC(15));
    assert_eq!(ACKind::Armor(16).armor_class(&mods), AC(16));
    assert_eq!(ACKind::Natural(12).armor_class(&mods), AC(12));
    assert_eq!(ACKind::ArmorDex(12).armor_class(&mods), AC(15));

    let clumsy = AMods(Abilities {
        strength: 0,
        dexterity: -20,
        constitution: 0,
        intelligence: 0,
        wisdom: 0,
        charisma: 0,
    });
    assert_eq!(ACKind::Normal.armor_class(&clumsy), AC(0));
}

#[test]
fn clamp_floors_negatives_at_zero() {
    assert_eq!(clamp_isize(-3), 0);
    assert_eq!(clamp_isize(0), 0);
    assert_eq!(clamp_isize(7), 7);
    assert_eq!(clamp_isize(isize::MIN), 0);
}
