use vstd::prelude::*;
use std::rc::Rc;
use crate::basetraits::{ac_kind_fits, armor_class_spec, hit_die_spec, lemma_mod_of_fits, mod_of,
    prof_bonus_for_cr, spec_mods, ACKind, AMods, AScores, Size, AC, CR, HP, ProfBonus};
use crate::action::Action;
use crate::damage::DamageKind;
use crate::dice::{expected2, expected2_fits, DiceExpr};
use crate::rational::Ratio;
use crate::types::ExpectedValue;

verus! {

/// A basic creature, without CR or proficiency bonus, as deriving those
/// takes nontrivial effort. The three damage-kind lists are sets by
/// membership: order and multiplicity carry no meaning.
#[derive(Debug, Clone)]
pub struct BaseCreature {
    pub ascores: AScores,
    pub ac_kind: ACKind,
    pub actions: Vec<Action>,
    pub size: Size,
    pub hit_dice: usize,
    pub immunities: Vec<DamageKind>,
    pub resistances: Vec<DamageKind>,
    pub vulnerabilities: Vec<DamageKind>,
}

/// The damage multiplier a defender applies to a kind: zero when immune
/// (unconditionally, whatever else the kind belongs to), else one half when
/// resistant and two when vulnerable, composed if the data lists both;
/// otherwise one.
pub open spec fn damage_factor_spec(c: BaseCreature, k: DamageKind) -> Ratio {
    if c.immunities@.contains(k) {
        Ratio { num: 0, den: 1 }
    } else if c.resistances@.contains(k) && c.vulnerabilities@.contains(k) {
        Ratio { num: 1, den: 1 }
    } else if c.resistances@.contains(k) {
        Ratio { num: 1, den: 2 }
    } else if c.vulnerabilities@.contains(k) {
        Ratio { num: 2, den: 1 }
    } else {
        Ratio { num: 1, den: 1 }
    }
}

/// Twice the expected hit points of a creature: its hit dice times twice
/// the expectation of one hit die plus its Constitution modifier.
pub open spec fn hp_expected2(c: BaseCreature) -> int {
    c.hit_dice * (hit_die_spec(c.size).0 + 1 + 2 * mod_of(c.ascores.0.constitution as int))
}

/// The expected hit points: half of `hp_expected2`, rounded down, floored
/// at zero.
pub open spec fn hp_spec(c: BaseCreature) -> int {
    if hp_expected2(c) < 0 {
        0
    } else {
        hp_expected2(c) / 2
    }
}

/// The hit-point expectation fits the words the computation uses.
pub open spec fn hp_fits(c: BaseCreature) -> bool {
    let inner = hit_die_spec(c.size).0 + 1 + 2 * mod_of(c.ascores.0.constitution as int);
    &&& i64::MIN <= 2 * mod_of(c.ascores.0.constitution as int) <= i64::MAX
    &&& i64::MIN <= inner <= i64::MAX
    &&& i64::MIN <= hp_expected2(c) <= i64::MAX
    &&& hp_spec(c) <= usize::MAX
}

/// Whether the list holds the kind.
pub fn kinds_contain(v: &Vec<DamageKind>, k: DamageKind) -> (b: bool)
    ensures
        b == v@.contains(k),
{
    let mut i: usize = 0;
    while i < v.len()
        invariant
            i <= v@.len(),
            forall|j: int| 0 <= j < i ==> v@[j] != k,
        decreases v@.len() - i,
    {
        if v[i] == k {
            return true;
        }
        i = i + 1;
    }
    assert(!v@.contains(k));
    false
}

impl BaseCreature {
    /// The damage multiplier this creature applies to a kind of damage:
    /// zero when immune, whatever else the kind belongs to; one half when
    /// only resistant; two when only vulnerable; one otherwise (the two
    /// compose multiplicatively if the data lists both).
    pub fn damage_factor(&self, k: DamageKind) -> (r: Ratio)
        ensures
            r == damage_factor_spec(*self, k),
            r.wf(),
            self.immunities@.contains(k) ==> r == (Ratio { num: 0, den: 1 }),
    {
        if kinds_contain(&self.immunities, k) {
            return Ratio::from_int(0);
        }
        let resistant = kinds_contain(&self.resistances, k);
        let vulnerable = kinds_contain(&self.vulnerabilities, k);
        if resistant && vulnerable {
            Ratio::from_int(1)
        } else if resistant {
            Ratio::new(1, 2)
        } else if vulnerable {
            Ratio::from_int(2)
        } else {
            Ratio::from_int(1)
        }
    }

    /// The creature's ability modifiers, derived from its scores.
    pub fn mods(&self) -> (r: AMods)
        ensures
            r == spec_mods(self.ascores),
    {
        AMods::from_scores(&self.ascores)
    }

    /// The creature's armor class under its AC derivation policy.
    pub fn armor_class(&self) -> (r: AC)
        requires
            ac_kind_fits(self.ac_kind, spec_mods(self.ascores)),
        ensures
            r.0 == armor_class_spec(self.ac_kind, spec_mods(self.ascores)),
    {
        let m = self.mods();
        self.ac_kind.armor_class(&m)
    }

    /// The creature's expected hit points: the exact expectation of rolling
    /// its hit dice, each plus its Constitution modifier, rounded down and
    /// floored at zero.
    pub fn expected_hit_points(&self) -> (r: HP)
        requires
            hp_fits(*self),
        ensures
            r.0 == hp_spec(*self),
    {
        let m = self.mods();
        let die = self.size.hit_die();
        let ex = DiceExpr::Times(
            self.hit_dice,
            Rc::new(
                DiceExpr::Plus(
                    Rc::new(DiceExpr::Die(die)),
                    Rc::new(DiceExpr::Const(m.0.constitution)),
                ),
            ),
        );
        proof {
            lemma_mod_of_fits(self.ascores.0.constitution as int);
            let cm = mod_of(self.ascores.0.constitution as int);
            assert(expected2(DiceExpr::Die(die)) == die.0 + 1);
            assert(expected2(DiceExpr::Const(m.0.constitution)) == 2 * cm);
            let inner = DiceExpr::Plus(
                Rc::new(DiceExpr::Die(die)),
                Rc::new(DiceExpr::Const(m.0.constitution)),
            );
            assert(expected2(inner) == die.0 + 1 + 2 * cm);
            assert(expected2(ex) == self.hit_dice * (die.0 + 1 + 2 * cm));
            assert(expected2(ex) == hp_expected2(*self));
            assert(expected2_fits(DiceExpr::Die(die)));
            assert(expected2_fits(DiceExpr::Const(m.0.constitution)));
            assert(expected2_fits(inner));
            assert(expected2_fits(ex));
        }
        let h = ex.expected();
        if h.num < 0 {
            HP(0)
        } else {
            HP(((h.num as u64) / 2) as usize)
        }
    }

    /// Fictitiously make this BaseCreature into a Creature with the given
    /// CR. No guarantee is given as to that value's accuracy, which can have
    /// effect (through the proficiency bonus) on other calculations
    /// downstream.
    pub fn with_cr(self, cr: CR) -> (r: Creature)
        ensures
            r.base_spec() == self,
            r.cr_spec() == cr,
    {
        Creature { base: self, cr }
    }
}

/// A Creature is a BaseCreature which has a cached CR and proficiency.
#[derive(Debug, Clone)]
pub struct Creature {
    base: BaseCreature,
    cr: CR,
}

impl Creature {
    /// The underlying creature data.
    pub closed spec fn base_spec(&self) -> BaseCreature {
        self.base
    }

    /// The cached challenge rating.
    pub closed spec fn cr_spec(&self) -> CR {
        self.cr
    }

    /// The damage multiplier this creature applies to a kind of damage.
    pub fn damage_factor(&self, k: DamageKind) -> (r: Ratio)
        ensures
            r == damage_factor_spec(self.base_spec(), k),
            r.wf(),
    {
        self.base.damage_factor(k)
    }

    /// The creature's ability modifiers, derived from its scores.
    pub fn mods(&self) -> (r: AMods)
        ensures
            r == spec_mods(self.base_spec().ascores),
    {
        self.base.mods()
    }

    /// The proficiency bonus for the creature's cached challenge rating.
    pub fn prof_bonus(&self) -> (r: ProfBonus)
        ensures
            r.0 == prof_bonus_for_cr(self.cr_spec()),
    {
        ProfBonus::from(self.cr)
    }
}

} // verus!
