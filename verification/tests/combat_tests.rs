use std::rc::Rc;

use statblock::action::{Attack, AttackKind, DamageRoll, Save, SaveEffect, SaveKind, SavingDC,
    Target};
use statblock::basetraits::{ACKind, Abilities, Ability, AMods, AScores, Size, AC, CR, HP,
    ProfBonus};
use statblock::combat::{AreaEffectDensity, CombatPair, CombatSettings, RechargeModel};
use statblock::creature::{BaseCreature, Creature};
use statblock::damage::{Damage, DamageKind};
use statblock::dice::{Die, DiceExpr, EntropySource};
use statblock::rational::Ratio;

fn scores(str_: isize, dex: isize, con: isize) -> AScores {
    AScores(Abilities {
        strength: str_,
        dexterity: dex,
        constitution: con,
        intelligence: 10,
        wisdom: 10,
        charisma: 10,
    })
}

fn creature(ascores: AScores, cr: CR) -> Creature {
    BaseCreature {
        ascores,
        ac_kind: ACKind::Normal,
        actions: Vec::new(),
        size: Size::Medium,
        hit_dice: 8,
        immunities: Vec::new(),
        resistances: Vec::new(),
        vulnerabilities: Vec::new(),
    }
    .with_cr(cr)
}

fn two_d6_slashing_attack() -> Attack {
    Attack {
        kind: AttackKind::Melee,
        save: None,
        target: Target::Exactly(1),
        dmg_rolls: vec![
            DamageRoll(
                DiceExpr::Times(2, Rc::new(DiceExpr::Die(Die(6)))),
                DamageKind::Slashing,
            ),
        ],
        dmg_bonus: 3,
        to_hit_bonus: 0,
        finesse: false,
        proficient: true,
        range: 5,
    }
}

#[test]
fn damage_factor_cases() {
    let mut base = BaseCreature {
        ascores: AScores::default(),
        ac_kind: ACKind::Normal,
        actions: Vec::new(),
        size: Size::Medium,
        hit_dice: 1,
        immunities: vec![DamageKind::Fire],
        resistances: vec![DamageKind::Cold, DamageKind::Fire],
        vulnerabilities: vec![DamageKind::Acid, DamageKind::Fire],
    };
    // Immunity wins unconditionally, whatever else the kind belongs to.
    assert!(base.damage_factor(DamageKind::Fire).same(&Ratio::new(0, 1)));
    // Only resistant: one half.
    assert!(base.damage_factor(DamageKind::Cold).same(&Ratio::new(1, 2)));
    // Only vulnerable: two.
    assert!(base.damage_factor(DamageKind::Acid).same(&Ratio::new(2, 1)));
    // Neither: one.
    assert!(base.damage_factor(DamageKind::Psychic).same(&Ratio::new(1, 1)));
    // Resistant and vulnerable compose multiplicatively to one.
    base.resistances.push(DamageKind::Acid);
    assert!(base.damage_factor(DamageKind::Acid).same(&Ratio::new(1, 1)));
}

#[test]
fn end_to_end_medium_creature() {
    // A Medium creature with 8 hit dice and Constitution modifier +2,
    // attacking with a proficient melee attack of one 2d6 slashing roll and
    // a flat damage bonus of 3, as a CR 2 attacker (proficiency +2).
    let attacker = creature(scores(10, 10, 14), CR::CR2);
    let defender = creature(scores(10, 10, 10), CR::CR1);
    let settings = CombatSettings::default();
    let pair = CombatPair { attacker: &attacker, defenders: &defender, settings: &settings };
    let atk = two_d6_slashing_attack();

    let rolls = pair.expected_single_damage_rolls(&atk);
    assert_eq!(rolls.len(), 1);
    assert_eq!(rolls[0], Damage(10, DamageKind::Slashing));

    // 2 * 3.5 + 3 = 10 for the single roll...
    assert_eq!(pair.expected_single_damage_sum(&atk), 10);
    // ... and the flat bonus is applied once more at the aggregate level:
    // the documented double-application quirk.
    assert_eq!(pair.expected_single_damage(&atk), 13);
    assert_eq!(pair.expected_damage(&atk), 13);
    assert_eq!(pair.expected_targets(&atk), 1);

    // Proficiency 2 plus a Strength modifier of 0.
    assert_eq!(pair.attack_modifier(&atk), 2);
    assert_eq!(pair.expected_hit_ac(&atk), AC(12));

    // Expected hit points: 8 * (4.5 + 2) = 52.
    let base = BaseCreature {
        ascores: scores(10, 10, 14),
        ac_kind: ACKind::Normal,
        actions: Vec::new(),
        size: Size::Medium,
        hit_dice: 8,
        immunities: Vec::new(),
        resistances: Vec::new(),
        vulnerabilities: Vec::new(),
    };
    assert_eq!(base.expected_hit_points(), HP(52));
    assert_eq!(CR::from(HP(52)), CR::CROneHalf);
}

#[test]
fn resistance_halves_the_expected_roll() {
    let attacker = creature(scores(10, 10, 10), CR::CR2);
    let defender = BaseCreature {
        ascores: AScores::default(),
        ac_kind: ACKind::Normal,
        actions: Vec::new(),
        size: Size::Medium,
        hit_dice: 1,
        immunities: Vec::new(),
        resistances: vec![DamageKind::Slashing],
        vulnerabilities: Vec::new(),
    }
    .with_cr(CR::CR1);
    let settings = CombatSettings::default();
    let pair = CombatPair { attacker: &attacker, defenders: &defender, settings: &settings };
    let atk = two_d6_slashing_attack();
    // floor(7 * 0.5) + 3 = 6.
    assert_eq!(pair.expected_single_damage_sum(&atk), 6);
}

#[test]
fn saving_throw_mixes_mitigated_and_full_damage() {
    let attacker = creature(scores(10, 10, 14), CR::CR2);
    let defender = creature(scores(10, 10, 10), CR::CR1);
    let settings = CombatSettings::default();
    let pair = CombatPair { attacker: &attacker, defenders: &defender, settings: &settings };
    let mut atk = two_d6_slashing_attack();
    atk.save = Some(Save(
        SaveKind::Ability(Ability::Dex),
        SavingDC::Exactly(15),
        SaveEffect::ReducesDamage(Ratio::new(1, 2)),
    ));
    // Full damage 13, pass odds 6/20, half damage on a pass:
    // 0.3 * 6.5 + 0.7 * 13 = 11.05, truncated to 11.
    assert_eq!(pair.expected_single_damage(&atk), 11);
}

#[test]
fn granted_save_dc_uses_proficiency_and_modifier() {
    let mods = AMods(Abilities {
        strength: 0,
        dexterity: 0,
        constitution: 2,
        intelligence: 0,
        wisdom: 0,
        charisma: 0,
    });
    assert_eq!(SavingDC::Granted(Ability::Con).def_class(&mods, ProfBonus(3)), 13);
    assert_eq!(SavingDC::Exactly(15).def_class(&mods, ProfBonus(3)), 15);
}

#[test]
fn save_roll_modifier_comes_from_the_ability() {
    let mods = AMods(Abilities {
        strength: 1,
        dexterity: 4,
        constitution: -2,
        intelligence: 0,
        wisdom: 0,
        charisma: 0,
    });
    assert_eq!(SaveKind::Ability(Ability::Dex).modifier(&mods), 4);
    assert_eq!(SaveKind::Ability(Ability::Con).modifier(&mods), -2);
    assert_eq!(SaveKind::Death.modifier(&mods), 0);
}

#[test]
fn finesse_takes_the_better_of_strength_and_dexterity() {
    let mods = AMods(Abilities {
        strength: 1,
        dexterity: 4,
        constitution: 0,
        intelligence: 0,
        wisdom: 0,
        charisma: 0,
    });
    let mut atk = Attack::default();
    assert_eq!(atk.modifier(&mods, ProfBonus(2)), 1);
    atk.finesse = true;
    assert_eq!(atk.modifier(&mods, ProfBonus(2)), 4);
    atk.kind = AttackKind::Ranged;
    assert_eq!(atk.modifier(&mods, ProfBonus(2)), 4);
    atk.finesse = false;
    assert_eq!(atk.modifier(&mods, ProfBonus(2)), 4);
    atk.kind = AttackKind::Special;
    assert_eq!(atk.modifier(&mods, ProfBonus(2)), 0);
    atk.kind = AttackKind::Melee;
    atk.proficient = true;
    assert_eq!(atk.modifier(&mods, ProfBonus(2)), 3);
}

#[test]
fn area_targets_follow_the_density_policy() {
    let attacker = creature(scores(10, 10, 10), CR::CR2);
    let defender = creature(scores(10, 10, 10), CR::CR1);
    let mut settings = CombatSettings::default();
    let pair = CombatPair { attacker: &attacker, defenders: &defender, settings: &settings };

    let mut atk = Attack::default();
    atk.target = Target::Area(Ratio::new(50, 1));
    // Exact density: the configured count.
    assert_eq!(pair.expected_targets(&atk), 2);

    // One target per twenty-five square feet over fifty square feet: two.
    settings.effect_density = AreaEffectDensity::Density(Ratio::new(1, 25));
    let pair = CombatPair { attacker: &attacker, defenders: &defender, settings: &settings };
    assert_eq!(pair.expected_targets(&atk), 2);

    // The floor is taken: 60 / 25 = 2.4 catches two targets.
    atk.target = Target::Area(Ratio::new(60, 1));
    assert_eq!(pair.expected_targets(&atk), 2);

    atk.target = Target::Exactly(7);
    assert_eq!(pair.expected_targets(&atk), 7);
}

#[test]
fn damage_roll_sampling_clamps_at_zero() {
    let mut rng = EntropySource::from_seed(11);
    let dr = DamageRoll(DiceExpr::Const(-5), DamageKind::Poison);
    let (dmg, roll) = dr.roll(&mut rng);
    assert_eq!(dmg, Damage(0, DamageKind::Poison));
    assert_eq!(roll.value(), -5);

    let dr = DamageRoll(
        DiceExpr::Times(2, Rc::new(DiceExpr::Die(Die(6)))),
        DamageKind::Slashing,
    );
    for _ in 0..100 {
        let (dmg, roll) = dr.roll(&mut rng);
        let v = roll.value();
        assert!(2 <= v && v <= 12);
        assert_eq!(dmg, Damage(v as usize, DamageKind::Slashing));
    }
}

#[test]
fn default_records() {
    let atk = Attack::default();
    assert!(matches!(atk.kind, AttackKind::Melee));
    assert!(atk.save.is_none());
    assert!(matches!(atk.target, Target::Exactly(1)));
    assert!(atk.dmg_rolls.is_empty());
    assert_eq!(atk.dmg_bonus, 0);
    assert_eq!(atk.to_hit_bonus, 0);
    assert!(!atk.finesse);
    assert!(!atk.proficient);
    assert_eq!(atk.range, 5);

    let settings = CombatSettings::default();
    assert!(matches!(settings.effect_density, AreaEffectDensity::Exactly(2)));
    assert!(matches!(settings.recharge_model, RechargeModel::Never));
    assert_eq!(settings.rounds, 3);

    assert!(matches!(Target::default(), Target::Exactly(1)));
    assert!(matches!(SavingDC::default(), SavingDC::Exactly(10)));
}

#[test]
fn negative_expected_damage_clamps_at_zero() {
    let attacker = creature(scores(10, 10, 10), CR::CR2);
    let defender = creature(scores(10, 10, 10), CR::CR1);
    let settings = CombatSettings::default();
    let pair = CombatPair { attacker: &attacker, defenders: &defender, settings: &settings };
    let mut atk = Attack::default();
    atk.dmg_rolls = vec![DamageRoll(DiceExpr::Const(2), DamageKind::Bludgeoning)];
    atk.dmg_bonus = -10;
    // Per-roll amount clamps at zero; the aggregate adds the bonus again and
    // clamps once more.
    assert_eq!(pair.expected_single_damage_sum(&atk), 0);
    assert_eq!(pair.expected_single_damage(&atk), 0);
}
