use vstd::prelude::*;
use std::rc::Rc;
use crate::damage::{Damage, DamageKind};
use crate::dice::{expr_wf, expected2, expected2_fits, lemma_matched_roll_fits, roll_matches,
    roll_value, val_fits, Die, DiceExpr, DiceRoll, EntropySource, Value};
use crate::basetraits::{AMods, Ability, ProfBonus};
use crate::rational::Ratio;
use crate::types::ExpectedValue;
use crate::util;

verus! {

/// Represents a roll one would make to do damage of a certain kind (attacks
/// can possess more than one damage roll — generally, one per kind of
/// damage).
#[derive(Debug, Clone)]
pub struct DamageRoll(pub DiceExpr, pub DamageKind);

impl DamageRoll {
    /// Sample the damage roll: the amount is the rolled total clamped at
    /// zero, tagged with this roll's kind, and the underlying roll is
    /// returned beside it for audit.
    pub fn roll(&self, rng: &mut EntropySource) -> (r: (Damage, DiceRoll))
        requires
            expr_wf(self.0),
            val_fits(self.0),
        ensures
            roll_matches(r.1, self.0),
            r.0.1 == self.1,
            r.0.0 == if roll_value(r.1) < 0 {
                0int
            } else {
                roll_value(r.1)
            },
    {
        let dr = self.0.roll(rng);
        proof {
            lemma_matched_roll_fits(dr, self.0);
        }
        let v: Value = dr.value();
        (Damage(util::clamp_isize(v), self.1), dr)
    }
}

impl ExpectedValue for DamageRoll {
    open spec fn expected2_spec(&self) -> int {
        expected2(self.0)
    }

    open spec fn expected_fits(&self) -> bool {
        expected2_fits(self.0)
    }

    fn expected(&self) -> (r: Ratio) {
        self.0.expected()
    }
}

/// Expresses how many targets an action can affect. Exactly indicates that
/// only the exact number can be targeted; Area indicates that an area is
/// targeted, carried here as its floor area — an exact ratio computed by
/// whatever geometry the caller uses (see also `AreaEffectDensity`). The
/// default is Exactly(1).
#[derive(Debug, Clone)]
pub enum Target {
    Exactly(usize),
    Area(Ratio),
}

impl Default for Target {
    /// By default an action targets exactly one creature.
    fn default() -> (r: Target)
        ensures
            r matches Target::Exactly(n) && n == 1,
    {
        Target::Exactly(1)
    }
}

/// A saving throw DC versus an effect: either granted by one of the
/// attacker's abilities, or a literal value.
#[derive(Debug, Clone)]
pub enum SavingDC {
    Granted(Ability),
    Exactly(usize),
}

impl Default for SavingDC {
    /// By default the DC is the literal ten.
    fn default() -> (r: SavingDC)
        ensures
            r matches SavingDC::Exactly(dc) && dc == 10,
    {
        SavingDC::Exactly(10)
    }
}

/// The difficulty class a DC source yields: a granted DC is 8 plus the
/// proficiency bonus plus the granting ability's modifier, clamped at zero;
/// a literal DC is itself.
pub open spec fn def_class_spec(s: SavingDC, m: AMods, prof: ProfBonus) -> int {
    match s {
        SavingDC::Granted(ab) => {
            let raw = 8 + prof.0 + m.0.spec_get(ab);
            if raw < 0 {
                0
            } else {
                raw
            }
        },
        SavingDC::Exactly(dc) => dc as int,
    }
}

/// The granted sum fits the signed word, as the original arithmetic demands.
pub open spec fn def_class_fits(s: SavingDC, m: AMods, prof: ProfBonus) -> bool {
    match s {
        SavingDC::Granted(ab) => 8 + prof.0 + m.0.spec_get(ab) <= isize::MAX,
        SavingDC::Exactly(_) => true,
    }
}

impl SavingDC {
    /// The difficulty class this DC source yields for an attacker's
    /// modifiers and proficiency.
    pub fn def_class(&self, mods: &AMods, prof: ProfBonus) -> (r: usize)
        requires
            def_class_fits(*self, *mods, prof),
        ensures
            r == def_class_spec(*self, *mods, prof),
    {
        match self {
            SavingDC::Granted(ab) => {
                let raw: i128 = 8 + (prof.0 as i128) + (mods.0.get(*ab) as i128);
                if raw < 0 {
                    0
                } else {
                    raw as usize
                }
            },
            SavingDC::Exactly(dc) => *dc,
        }
    }
}

/// The kind of saving throw for an effect: one of the defender's abilities,
/// or a death save, to which no ability applies.
#[derive(Debug, Clone)]
pub enum SaveKind {
    Ability(Ability),
    Death,
}

/// The defender's modifier on the save roll: the ability's modifier, or
/// zero for a death save.
pub open spec fn save_modifier_spec(k: SaveKind, m: AMods) -> int {
    match k {
        SaveKind::Ability(ab) => m.0.spec_get(ab) as int,
        SaveKind::Death => 0,
    }
}

impl SaveKind {
    /// The defender's modifier on this save's roll.
    pub fn modifier(&self, mods: &AMods) -> (r: isize)
        ensures
            r == save_modifier_spec(*self, *mods),
    {
        match self {
            SaveKind::Ability(ab) => mods.0.get(*ab),
            SaveKind::Death => 0,
        }
    }
}

/// The effects that a successful save can have: the damage is multiplied by
/// a fixed fraction (an exact ratio; failure leaves it unmitigated).
#[derive(Debug, Clone)]
pub enum SaveEffect {
    ReducesDamage(Ratio),
}

/// The actual description of a saving throw.
#[derive(Debug, Clone)]
pub struct Save(pub SaveKind, pub SavingDC, pub SaveEffect);

/// How many uses the effect has in combat.
#[derive(Debug, Clone)]
pub enum Uses {
    Indefinite,
    PerDay(usize),
    Recharge(Value, Die),
}

/// Which kind of attack this is (controls which modifiers, if any, are
/// selected).
#[derive(Debug, Clone, Copy, PartialEq, Eq, Structural)]
pub enum AttackKind {
    Melee,
    Ranged,
    Special,
}

/// The ability modifier a kind of attack adds to hit: Strength for melee,
/// Dexterity for ranged, none for special attacks.
pub open spec fn attack_kind_modifier_spec(k: AttackKind, m: AMods) -> int {
    match k {
        AttackKind::Melee => m.0.strength as int,
        AttackKind::Ranged => m.0.dexterity as int,
        AttackKind::Special => 0,
    }
}

impl AttackKind {
    /// The "to hit" ability modifier for this kind of attack.
    pub fn modifier(&self, mods: &AMods) -> (r: isize)
        ensures
            r == attack_kind_modifier_spec(*self, *mods),
    {
        match self {
            AttackKind::Melee => mods.0.strength,
            AttackKind::Ranged => mods.0.dexterity,
            AttackKind::Special => 0,
        }
    }
}

/// The full description of an attack. Constructed once as static statblock
/// data and read-only thereafter.
#[derive(Debug, Clone)]
pub struct Attack {
    pub kind: AttackKind,
    pub save: Option<Save>,
    pub target: Target,
    pub dmg_rolls: Vec<DamageRoll>,
    /// Added to the first kind of damage in dmg_rolls.
    pub dmg_bonus: isize,
    pub to_hit_bonus: isize,
    pub finesse: bool,
    pub proficient: bool,
    pub range: usize,
}

impl Default for Attack {
    /// By default: a melee attack with no save, one exact target, no damage
    /// rolls and no bonuses, not finesse, not proficient, with range five.
    fn default() -> (r: Attack)
        ensures
            r.kind == AttackKind::Melee,
            r.save is None,
            r.target matches Target::Exactly(n) && n == 1,
            r.dmg_rolls@.len() == 0,
            r.dmg_bonus == 0,
            r.to_hit_bonus == 0,
            !r.finesse,
            !r.proficient,
            r.range == 5,
    {
        Attack {
            kind: AttackKind::Melee,
            save: None,
            target: Target::Exactly(1),
            dmg_rolls: Vec::new(),
            dmg_bonus: 0,
            to_hit_bonus: 0,
            finesse: false,
            proficient: false,
            range: 5,
        }
    }
}

/// The ability term of an attack's to-hit modifier: nothing for a special
/// attack; otherwise the kind's own ability, except that a finesse attack
/// takes the better of Strength and Dexterity whatever its kind.
pub open spec fn ability_term_spec(a: Attack, m: AMods) -> int {
    match a.kind {
        AttackKind::Special => 0,
        _ => if a.finesse {
            if m.0.strength >= m.0.dexterity {
                m.0.strength as int
            } else {
                m.0.dexterity as int
            }
        } else {
            attack_kind_modifier_spec(a.kind, m)
        },
    }
}

/// An attack's full "to hit" modifier: its flat bonus, plus the proficiency
/// bonus if the attack is proficient, plus the ability term.
pub open spec fn attack_modifier_spec(a: Attack, m: AMods, prof: ProfBonus) -> int {
    a.to_hit_bonus + (if a.proficient {
        prof.0 as int
    } else {
        0
    }) + ability_term_spec(a, m)
}

impl Attack {
    /// The attack's full "to hit" modifier.
    pub fn modifier(&self, mods: &AMods, prof: ProfBonus) -> (r: isize)
        requires
            isize::MIN <= attack_modifier_spec(*self, *mods, prof) <= isize::MAX,
        ensures
            r == attack_modifier_spec(*self, *mods, prof),
    {
        let term: isize = match self.kind {
            AttackKind::Special => 0,
            _ => if self.finesse {
                let s = AttackKind::Melee.modifier(mods);
                let d = AttackKind::Ranged.modifier(mods);
                if s >= d {
                    s
                } else {
                    d
                }
            } else {
                self.kind.modifier(mods)
            },
        };
        let p: isize = if self.proficient {
            prof.0
        } else {
            0
        };
        let total: i128 = (self.to_hit_bonus as i128) + (p as i128) + (term as i128);
        total as isize
    }
}

/// A kind of action that a creature can take: a single attack, or several
/// made together.
#[derive(Debug, Clone)]
pub enum ActionKind {
    Attack(Rc<Attack>),
    Multiattack(Vec<Rc<Attack>>),
}

/// The full description of an action.
#[derive(Debug, Clone)]
pub struct Action {
    pub name: String,
    pub kind: ActionKind,
}

} // verus!
