use vstd::prelude::*;
use crate::dice::Die;
use crate::rational::Ratio;

verus! {

/// All six ability scores.
#[derive(Debug, Clone)]
pub struct Abilities {
    pub strength: isize,
    pub dexterity: isize,
    pub constitution: isize,
    pub intelligence: isize,
    pub wisdom: isize,
    pub charisma: isize,
}

/// The six abilities themselves.
#[derive(Debug, Clone, Copy, PartialEq, Eq, Hash, Structural)]
pub enum Ability {
    Str,
    Dex,
    Con,
    Int,
    Wis,
    Cha,
}

impl Abilities {
    /// The field selected by an ability name.
    pub open spec fn spec_get(self, idx: Ability) -> isize {
        match idx {
            Ability::Str => self.strength,
            Ability::Dex => self.dexterity,
            Ability::Con => self.constitution,
            Ability::Int => self.intelligence,
            Ability::Wis => self.wisdom,
            Ability::Cha => self.charisma,
        }
    }

    /// Index the record by an ability name.
    pub fn get(&self, idx: Ability) -> (r: isize)
        ensures
            r == self.spec_get(idx),
    {
        match idx {
            Ability::Str => self.strength,
            Ability::Dex => self.dexterity,
            Ability::Con => self.constitution,
            Ability::Int => self.intelligence,
            Ability::Wis => self.wisdom,
            Ability::Cha => self.charisma,
        }
    }

    /// Map all abilities through a function (possibly more recognizable as
    /// `fmap`): each field of the result is an output of the function on the
    /// corresponding field of the input.
    pub fn map<F: Fn(isize) -> isize>(&self, func: F) -> (r: Abilities)
        requires
            call_requires(func, (self.strength,)),
            call_requires(func, (self.dexterity,)),
            call_requires(func, (self.constitution,)),
            call_requires(func, (self.intelligence,)),
            call_requires(func, (self.wisdom,)),
            call_requires(func, (self.charisma,)),
        ensures
            call_ensures(func, (self.strength,), r.strength),
            call_ensures(func, (self.dexterity,), r.dexterity),
            call_ensures(func, (self.constitution,), r.constitution),
            call_ensures(func, (self.intelligence,), r.intelligence),
            call_ensures(func, (self.wisdom,), r.wisdom),
            call_ensures(func, (self.charisma,), r.charisma),
    {
        Abilities {
            strength: func(self.strength),
            dexterity: func(self.dexterity),
            constitution: func(self.constitution),
            intelligence: func(self.intelligence),
            wisdom: func(self.wisdom),
            charisma: func(self.charisma),
        }
    }
}

/// The modifier derived from an ability score: floor of (score - 10) / 2.
pub open spec fn mod_of(score: int) -> int {
    (score - 10) / 2
}

/// Compute the modifier for one ability score.
pub fn score_mod(s: isize) -> (m: isize)
    ensures
        m as int == mod_of(s as int),
{
    let t: i128 = (s as i128) - 10;
    let q: i128 = match t.checked_div_euclid(2) {
        Some(q) => q,
        None => 0,
    };
    q as isize
}

/// Ability scores; just a wrapper around Abilities to avoid confusing units.
#[derive(Debug, Clone)]
pub struct AScores(pub Abilities);

impl Default for AScores {
    /// The default score is ten in every ability.
    fn default() -> (r: AScores)
        ensures
            r.0.strength == 10 && r.0.dexterity == 10 && r.0.constitution == 10,
            r.0.intelligence == 10 && r.0.wisdom == 10 && r.0.charisma == 10,
    {
        AScores(
            Abilities {
                strength: 10,
                dexterity: 10,
                constitution: 10,
                intelligence: 10,
                wisdom: 10,
                charisma: 10,
            },
        )
    }
}

/// Ability modifiers; just a wrapper around Abilities to avoid confusing
/// units.
#[derive(Debug, Clone)]
pub struct AMods(pub Abilities);

/// The record of modifiers derived from a record of scores.
pub open spec fn spec_mods(s: AScores) -> AMods {
    AMods(
        Abilities {
            strength: mod_of(s.0.strength as int) as isize,
            dexterity: mod_of(s.0.dexterity as int) as isize,
            constitution: mod_of(s.0.constitution as int) as isize,
            intelligence: mod_of(s.0.intelligence as int) as isize,
            wisdom: mod_of(s.0.wisdom as int) as isize,
            charisma: mod_of(s.0.charisma as int) as isize,
        },
    )
}

/// The modifier of any score fits the signed word.
pub proof fn lemma_mod_of_fits(score: int)
    requires
        isize::MIN <= score <= isize::MAX,
    ensures
        isize::MIN <= mod_of(score) <= isize::MAX,
        mod_of(score) as isize == mod_of(score),
{
}

impl AMods {
    /// Derive all six modifiers from a record of scores.
    pub fn from_scores(scores: &AScores) -> (r: AMods)
        ensures
            r == spec_mods(*scores),
    {
        proof {
            lemma_mod_of_fits(scores.0.strength as int);
            lemma_mod_of_fits(scores.0.dexterity as int);
            lemma_mod_of_fits(scores.0.constitution as int);
            lemma_mod_of_fits(scores.0.intelligence as int);
            lemma_mod_of_fits(scores.0.wisdom as int);
            lemma_mod_of_fits(scores.0.charisma as int);
        }
        AMods(
            Abilities {
                strength: score_mod(scores.0.strength),
                dexterity: score_mod(scores.0.dexterity),
                constitution: score_mod(scores.0.constitution),
                intelligence: score_mod(scores.0.intelligence),
                wisdom: score_mod(scores.0.wisdom),
                charisma: score_mod(scores.0.charisma),
            },
        )
    }
}

impl Default for AMods {
    /// The default modifier is zero in every ability (a score of ten).
    fn default() -> (r: AMods)
        ensures
            r.0.strength == 0 && r.0.dexterity == 0 && r.0.constitution == 0,
            r.0.intelligence == 0 && r.0.wisdom == 0 && r.0.charisma == 0,
    {
        let scores = AScores::default();
        AMods::from_scores(&scores)
    }
}

/// Creature size.
#[derive(Debug, Clone, Copy, PartialEq, Eq, PartialOrd, Ord, Hash, Structural)]
pub enum Size {
    Tiny,
    Small,
    Medium,
    Large,
    Huge,
    Gargantuan,
}

/// The hit die a size grants.
pub open spec fn hit_die_spec(s: Size) -> Die {
    match s {
        Size::Tiny => Die(4),
        Size::Small => Die(6),
        Size::Medium => Die(8),
        Size::Large => Die(10),
        Size::Huge => Die(12),
        Size::Gargantuan => Die(20),
    }
}

impl Size {
    /// The hit die this size grants.
    pub fn hit_die(&self) -> (r: Die)
        ensures
            r == hit_die_spec(*self),
    {
        match self {
            Size::Tiny => Die(4),
            Size::Small => Die(6),
            Size::Medium => Die(8),
            Size::Large => Die(10),
            Size::Huge => Die(12),
            Size::Gargantuan => Die(20),
        }
    }
}

/// Challenge rating: an ordered scale of thirty-one discrete levels.
#[derive(Debug, Clone, Copy, PartialEq, Eq, PartialOrd, Ord, Hash, Structural)]
pub enum CR {
    CR0,
    CROneEighth,
    CROneQuarter,
    CROneHalf,
    CR1,
    CR2,
    CR3,
    CR4,
    CR5,
    CR6,
    CR7,
    CR8,
    CR9,
    CR10,
    CR11,
    CR12,
    CR13,
    CR14,
    CR15,
    CR16,
    CR17,
    CR18,
    CR19,
    CR20,
    CR21,
    CR22,
    CR23,
    CR24,
    CR25,
    CR26,
    CR27,
    CR28,
    CR29,
    CR30,
}

/// The numeric value of a challenge rating, in eighths: every level is a
/// multiple of one eighth (0, 1/8, 1/4, 1/2, 1 .. 30).
pub open spec fn cr_eighths(cr: CR) -> int {
    match cr {
        CR::CR0 => 0,
        CR::CROneEighth => 1,
        CR::CROneQuarter => 2,
        CR::CROneHalf => 4,
        CR::CR1 => 8,
        CR::CR2 => 16,
        CR::CR3 => 24,
        CR::CR4 => 32,
        CR::CR5 => 40,
        CR::CR6 => 48,
        CR::CR7 => 56,
        CR::CR8 => 64,
        CR::CR9 => 72,
        CR::CR10 => 80,
        CR::CR11 => 88,
        CR::CR12 => 96,
        CR::CR13 => 104,
        CR::CR14 => 112,
        CR::CR15 => 120,
        CR::CR16 => 128,
        CR::CR17 => 136,
        CR::CR18 => 144,
        CR::CR19 => 152,
        CR::CR20 => 160,
        CR::CR21 => 168,
        CR::CR22 => 176,
        CR::CR23 => 184,
        CR::CR24 => 192,
        CR::CR25 => 200,
        CR::CR26 => 208,
        CR::CR27 => 216,
        CR::CR28 => 224,
        CR::CR29 => 232,
        CR::CR30 => 240,
    }
}

/// The least challenge rating whose numeric value is at or above num/den,
/// or the greatest level when num/den lies above the whole scale.
pub open spec fn cr_from_real_spec(num: int, den: int) -> CR {
    if num * 8 <= 0 * den {
        CR::CR0
    } else if num * 8 <= 1 * den {
        CR::CROneEighth
    } else if num * 8 <= 2 * den {
        CR::CROneQuarter
    } else if num * 8 <= 4 * den {
        CR::CROneHalf
    } else if num * 8 <= 8 * den {
        CR::CR1
    } else if num * 8 <= 16 * den {
        CR::CR2
    } else if num * 8 <= 24 * den {
        CR::CR3
    } else if num * 8 <= 32 * den {
        CR::CR4
    } else if num * 8 <= 40 * den {
        CR::CR5
    } else if num * 8 <= 48 * den {
        CR::CR6
    } else if num * 8 <= 56 * den {
        CR::CR7
    } else if num * 8 <= 64 * den {
        CR::CR8
    } else if num * 8 <= 72 * den {
        CR::CR9
    } else if num * 8 <= 80 * den {
        CR::CR10
    } else if num * 8 <= 88 * den {
        CR::CR11
    } else if num * 8 <= 96 * den {
        CR::CR12
    } else if num * 8 <= 104 * den {
        CR::CR13
    } else if num * 8 <= 112 * den {
        CR::CR14
    } else if num * 8 <= 120 * den {
        CR::CR15
    } else if num * 8 <= 128 * den {
        CR::CR16
    } else if num * 8 <= 136 * den {
        CR::CR17
    } else if num * 8 <= 144 * den {
        CR::CR18
    } else if num * 8 <= 152 * den {
        CR::CR19
    } else if num * 8 <= 160 * den {
        CR::CR20
    } else if num * 8 <= 168 * den {
        CR::CR21
    } else if num * 8 <= 176 * den {
        CR::CR22
    } else if num * 8 <= 184 * den {
        CR::CR23
    } else if num * 8 <= 192 * den {
        CR::CR24
    } else if num * 8 <= 200 * den {
        CR::CR25
    } else if num * 8 <= 208 * den {
        CR::CR26
    } else if num * 8 <= 216 * den {
        CR::CR27
    } else if num * 8 <= 224 * den {
        CR::CR28
    } else if num * 8 <= 232 * den {
        CR::CR29
    } else {
        CR::CR30
    }
}

impl CR {
    /// The numeric value of this level, in eighths.
    pub fn eighths(&self) -> (r: i64)
        ensures
            r == cr_eighths(*self),
    {
        match self {
            CR::CR0 => 0,
            CR::CROneEighth => 1,
            CR::CROneQuarter => 2,
            CR::CROneHalf => 4,
            CR::CR1 => 8,
            CR::CR2 => 16,
            CR::CR3 => 24,
            CR::CR4 => 32,
            CR::CR5 => 40,
            CR::CR6 => 48,
            CR::CR7 => 56,
            CR::CR8 => 64,
            CR::CR9 => 72,
            CR::CR10 => 80,
            CR::CR11 => 88,
            CR::CR12 => 96,
            CR::CR13 => 104,
            CR::CR14 => 112,
            CR::CR15 => 120,
            CR::CR16 => 128,
            CR::CR17 => 136,
            CR::CR18 => 144,
            CR::CR19 => 152,
            CR::CR20 => 160,
            CR::CR21 => 168,
            CR::CR22 => 176,
            CR::CR23 => 184,
            CR::CR24 => 192,
            CR::CR25 => 200,
            CR::CR26 => 208,
            CR::CR27 => 216,
            CR::CR28 => 224,
            CR::CR29 => 232,
            CR::CR30 => 240,
        }
    }

    /// The exact numeric value of this level, as a ratio over eight.
    pub fn real_value(&self) -> (r: Ratio)
        ensures
            r.den == 8,
            r.num == cr_eighths(*self),
            r.wf(),
    {
        Ratio::new(self.eighths(), 8)
    }

    /// The level for an exact numeric value, rounding up to the next defined
    /// level for any value not exactly on one; values above the scale give
    /// the greatest level.
    pub fn from_real(x: Ratio) -> (r: CR)
        requires
            x.wf(),
        ensures
            r == cr_from_real_spec(x.num as int, x.den as int),
    {
        let n8: i128 = (x.num as i128) * 8;
        let d: i128 = x.den as i128;
        if n8 <= 0 * d {
            CR::CR0
        } else if n8 <= 1 * d {
            CR::CROneEighth
        } else if n8 <= 2 * d {
            CR::CROneQuarter
        } else if n8 <= 4 * d {
            CR::CROneHalf
        } else if n8 <= 8 * d {
            CR::CR1
        } else if n8 <= 16 * d {
            CR::CR2
        } else if n8 <= 24 * d {
            CR::CR3
        } else if n8 <= 32 * d {
            CR::CR4
        } else if n8 <= 40 * d {
            CR::CR5
        } else if n8 <= 48 * d {
            CR::CR6
        } else if n8 <= 56 * d {
            CR::CR7
        } else if n8 <= 64 * d {
            CR::CR8
        } else if n8 <= 72 * d {
            CR::CR9
        } else if n8 <= 80 * d {
            CR::CR10
        } else if n8 <= 88 * d {
            CR::CR11
        } else if n8 <= 96 * d {
            CR::CR12
        } else if n8 <= 104 * d {
            CR::CR13
        } else if n8 <= 112 * d {
            CR::CR14
        } else if n8 <= 120 * d {
            CR::CR15
        } else if n8 <= 128 * d {
            CR::CR16
        } else if n8 <= 136 * d {
            CR::CR17
        } else if n8 <= 144 * d {
            CR::CR18
        } else if n8 <= 152 * d {
            CR::CR19
        } else if n8 <= 160 * d {
            CR::CR20
        } else if n8 <= 168 * d {
            CR::CR21
        } else if n8 <= 176 * d {
            CR::CR22
        } else if n8 <= 184 * d {
            CR::CR23
        } else if n8 <= 192 * d {
            CR::CR24
        } else if n8 <= 200 * d {
            CR::CR25
        } else if n8 <= 208 * d {
            CR::CR26
        } else if n8 <= 216 * d {
            CR::CR27
        } else if n8 <= 224 * d {
            CR::CR28
        } else if n8 <= 232 * d {
            CR::CR29
        } else {
            CR::CR30
        }
    }
}

/// A proficiency bonus.
#[derive(Debug, Clone, Copy, PartialEq, Eq, PartialOrd, Ord, Hash, Structural)]
pub struct ProfBonus(pub isize);

/// Hit points.
#[derive(Debug, Clone, Copy, PartialEq, Eq, PartialOrd, Ord, Hash, Structural)]
pub struct HP(pub usize);

/// Armor class.
#[derive(Debug, Clone, Copy, PartialEq, Eq, PartialOrd, Ord, Hash, Structural)]
pub struct AC(pub usize);

/// The calibrated armor class for a challenge rating.
pub open spec fn ac_for_cr(cr: CR) -> int {
    let e = cr_eighths(cr);
    if e < 32 {
        13
    } else if e < 40 {
        14
    } else if e < 64 {
        15
    } else if e < 80 {
        16
    } else if e < 104 {
        17
    } else if e < 136 {
        18
    } else {
        19
    }
}

impl From<CR> for AC {
    /// The calibrated armor class for a challenge rating.
    fn from(cr: CR) -> (r: AC) {
        let e = cr.eighths();
        AC(
            if e < 32 {
                13
            } else if e < 40 {
                14
            } else if e < 64 {
                15
            } else if e < 80 {
                16
            } else if e < 104 {
                17
            } else if e < 136 {
                18
            } else {
                19
            },
        )
    }
}

impl vstd::std_specs::convert::FromSpecImpl<CR> for AC {
    open spec fn obeys_from_spec() -> bool {
        true
    }

    open spec fn from_spec(cr: CR) -> AC {
        AC(ac_for_cr(cr) as usize)
    }
}

/// The calibrated proficiency bonus for a challenge rating.
pub open spec fn prof_bonus_for_cr(cr: CR) -> int {
    let e = cr_eighths(cr);
    if e < 40 {
        2
    } else if e < 72 {
        3
    } else if e < 104 {
        4
    } else if e < 136 {
        5
    } else if e < 168 {
        6
    } else if e < 200 {
        7
    } else if e < 232 {
        8
    } else {
        9
    }
}

impl From<CR> for ProfBonus {
    /// The calibrated proficiency bonus for a challenge rating.
    fn from(cr: CR) -> (r: ProfBonus) {
        let e = cr.eighths();
        ProfBonus(
            if e < 40 {
                2
            } else if e < 72 {
                3
            } else if e < 104 {
                4
            } else if e < 136 {
                5
            } else if e < 168 {
                6
            } else if e < 200 {
                7
            } else if e < 232 {
                8
            } else {
                9
            },
        )
    }
}

impl vstd::std_specs::convert::FromSpecImpl<CR> for ProfBonus {
    open spec fn obeys_from_spec() -> bool {
        true
    }

    open spec fn from_spec(cr: CR) -> ProfBonus {
        ProfBonus(prof_bonus_for_cr(cr) as isize)
    }
}

/// The challenge rating bucket for a hit-point total.
pub open spec fn cr_for_hit_points(hp: int) -> CR {
    if hp <= 6 {
        CR::CR0
    } else if hp <= 35 {
        CR::CROneEighth
    } else if hp <= 49 {
        CR::CROneQuarter
    } else if hp <= 70 {
        CR::CROneHalf
    } else if hp <= 85 {
        CR::CR1
    } else if hp <= 100 {
        CR::CR2
    } else if hp <= 115 {
        CR::CR3
    } else if hp <= 130 {
        CR::CR4
    } else if hp <= 145 {
        CR::CR5
    } else if hp <= 160 {
        CR::CR6
    } else if hp <= 175 {
        CR::CR7
    } else if hp <= 190 {
        CR::CR8
    } else if hp <= 205 {
        CR::CR9
    } else if hp <= 220 {
        CR::CR10
    } else if hp <= 235 {
        CR::CR11
    } else if hp <= 250 {
        CR::CR12
    } else if hp <= 265 {
        CR::CR13
    } else if hp <= 280 {
        CR::CR14
    } else if hp <= 295 {
        CR::CR15
    } else if hp <= 310 {
        CR::CR16
    } else if hp <= 325 {
        CR::CR17
    } else if hp <= 340 {
        CR::CR18
    } else if hp <= 355 {
        CR::CR19
    } else if hp <= 400 {
        CR::CR20
    } else if hp <= 445 {
        CR::CR21
    } else if hp <= 490 {
        CR::CR22
    } else if hp <= 535 {
        CR::CR23
    } else if hp <= 580 {
        CR::CR24
    } else if hp <= 625 {
        CR::CR25
    } else if hp <= 670 {
        CR::CR26
    } else if hp <= 715 {
        CR::CR27
    } else if hp <= 760 {
        CR::CR28
    } else if hp <= 805 {
        CR::CR29
    } else {
        CR::CR30
    }
}

impl From<HP> for CR {
    /// The challenge rating bucket for a hit-point total.
    fn from(hp: HP) -> (r: CR) {
        let x = hp.0;
        if x <= 6 {
            CR::CR0
        } else if x <= 35 {
            CR::CROneEighth
        } else if x <= 49 {
            CR::CROneQuarter
        } else if x <= 70 {
            CR::CROneHalf
        } else if x <= 85 {
            CR::CR1
        } else if x <= 100 {
            CR::CR2
        } else if x <= 115 {
            CR::CR3
        } else if x <= 130 {
            CR::CR4
        } else if x <= 145 {
            CR::CR5
        } else if x <= 160 {
            CR::CR6
        } else if x <= 175 {
            CR::CR7
        } else if x <= 190 {
            CR::CR8
        } else if x <= 205 {
            CR::CR9
        } else if x <= 220 {
            CR::CR10
        } else if x <= 235 {
            CR::CR11
        } else if x <= 250 {
            CR::CR12
        } else if x <= 265 {
            CR::CR13
        } else if x <= 280 {
            CR::CR14
        } else if x <= 295 {
            CR::CR15
        } else if x <= 310 {
            CR::CR16
        } else if x <= 325 {
            CR::CR17
        } else if x <= 340 {
            CR::CR18
        } else if x <= 355 {
            CR::CR19
        } else if x <= 400 {
            CR::CR20
        } else if x <= 445 {
            CR::CR21
        } else if x <= 490 {
            CR::CR22
        } else if x <= 535 {
            CR::CR23
        } else if x <= 580 {
            CR::CR24
        } else if x <= 625 {
            CR::CR25
        } else if x <= 670 {
            CR::CR26
        } else if x <= 715 {
            CR::CR27
        } else if x <= 760 {
            CR::CR28
        } else if x <= 805 {
            CR::CR29
        } else {
            CR::CR30
        }
    }
}

impl vstd::std_specs::convert::FromSpecImpl<HP> for CR {
    open spec fn obeys_from_spec() -> bool {
        true
    }

    open spec fn from_spec(hp: HP) -> CR {
        cr_for_hit_points(hp.0 as int)
    }
}

/// The challenge rating bucket for an expected damage figure.
pub open spec fn cr_for_expected_damage(dmg: int) -> CR {
    if dmg <= 1 {
        CR::CR0
    } else if dmg <= 3 {
        CR::CROneEighth
    } else if dmg <= 5 {
        CR::CROneQuarter
    } else if dmg <= 8 {
        CR::CROneHalf
    } else if dmg <= 14 {
        CR::CR1
    } else if dmg <= 20 {
        CR::CR2
    } else if dmg <= 26 {
        CR::CR3
    } else if dmg <= 32 {
        CR::CR4
    } else if dmg <= 38 {
        CR::CR5
    } else if dmg <= 44 {
        CR::CR6
    } else if dmg <= 50 {
        CR::CR7
    } else if dmg <= 56 {
        CR::CR8
    } else if dmg <= 62 {
        CR::CR9
    } else if dmg <= 68 {
        CR::CR10
    } else if dmg <= 74 {
        CR::CR11
    } else if dmg <= 80 {
        CR::CR12
    } else if dmg <= 86 {
        CR::CR13
    } else if dmg <= 92 {
        CR::CR14
    } else if dmg <= 98 {
        CR::CR15
    } else if dmg <= 104 {
        CR::CR16
    } else if dmg <= 110 {
        CR::CR17
    } else if dmg <= 116 {
        CR::CR18
    } else if dmg <= 122 {
        CR::CR19
    } else if dmg <= 140 {
        CR::CR20
    } else if dmg <= 158 {
        CR::CR21
    } else if dmg <= 176 {
        CR::CR22
    } else if dmg <= 194 {
        CR::CR23
    } else if dmg <= 212 {
        CR::CR24
    } else if dmg <= 230 {
        CR::CR25
    } else if dmg <= 248 {
        CR::CR26
    } else if dmg <= 266 {
        CR::CR27
    } else if dmg <= 284 {
        CR::CR28
    } else if dmg <= 302 {
        CR::CR29
    } else {
        CR::CR30
    }
}

/// The calibrated to-hit bonus for a challenge rating: across any attack
/// with any modifier.
pub open spec fn to_hit_bonus_for_cr(cr: CR) -> int {
    let e = cr_eighths(cr);
    if e < 24 {
        3
    } else if e < 32 {
        4
    } else if e < 40 {
        5
    } else if e < 64 {
        6
    } else if e < 88 {
        7
    } else if e < 128 {
        8
    } else if e < 136 {
        9
    } else if e < 168 {
        10
    } else if e < 192 {
        11
    } else if e < 216 {
        12
    } else if e < 240 {
        13
    } else {
        14
    }
}

/// The calibrated save DC for a challenge rating, specifically within
/// attacks.
pub open spec fn save_dc_for_cr(cr: CR) -> int {
    let e = cr_eighths(cr);
    if e < 32 {
        13
    } else if e < 40 {
        14
    } else if e < 64 {
        15
    } else if e < 88 {
        16
    } else if e < 104 {
        17
    } else if e < 136 {
        18
    } else if e < 168 {
        19
    } else if e < 192 {
        20
    } else if e < 216 {
        21
    } else if e < 240 {
        22
    } else {
        23
    }
}

impl CR {
    /// The challenge rating bucket for an expected damage figure.
    pub fn for_expected_damage(dmg: usize) -> (r: CR)
        ensures
            r == cr_for_expected_damage(dmg as int),
    {
        if dmg <= 1 {
            CR::CR0
        } else if dmg <= 3 {
            CR::CROneEighth
        } else if dmg <= 5 {
            CR::CROneQuarter
        } else if dmg <= 8 {
            CR::CROneHalf
        } else if dmg <= 14 {
            CR::CR1
        } else if dmg <= 20 {
            CR::CR2
        } else if dmg <= 26 {
            CR::CR3
        } else if dmg <= 32 {
            CR::CR4
        } else if dmg <= 38 {
            CR::CR5
        } else if dmg <= 44 {
            CR::CR6
        } else if dmg <= 50 {
            CR::CR7
        } else if dmg <= 56 {
            CR::CR8
        } else if dmg <= 62 {
            CR::CR9
        } else if dmg <= 68 {
            CR::CR10
        } else if dmg <= 74 {
            CR::CR11
        } else if dmg <= 80 {
            CR::CR12
        } else if dmg <= 86 {
            CR::CR13
        } else if dmg <= 92 {
            CR::CR14
        } else if dmg <= 98 {
            CR::CR15
        } else if dmg <= 104 {
            CR::CR16
        } else if dmg <= 110 {
            CR::CR17
        } else if dmg <= 116 {
            CR::CR18
        } else if dmg <= 122 {
            CR::CR19
        } else if dmg <= 140 {
            CR::CR20
        } else if dmg <= 158 {
            CR::CR21
        } else if dmg <= 176 {
            CR::CR22
        } else if dmg <= 194 {
            CR::CR23
        } else if dmg <= 212 {
            CR::CR24
        } else if dmg <= 230 {
            CR::CR25
        } else if dmg <= 248 {
            CR::CR26
        } else if dmg <= 266 {
            CR::CR27
        } else if dmg <= 284 {
            CR::CR28
        } else if dmg <= 302 {
            CR::CR29
        } else {
            CR::CR30
        }
    }

    /// The calibrated to-hit bonus for this challenge rating: across any
    /// attack with any modifier.
    pub fn to_hit_bonus(&self) -> (r: isize)
        ensures
            r == to_hit_bonus_for_cr(*self),
    {
        let e = self.eighths();
        if e < 24 {
            3
        } else if e < 32 {
            4
        } else if e < 40 {
            5
        } else if e < 64 {
            6
        } else if e < 88 {
            7
        } else if e < 128 {
            8
        } else if e < 136 {
            9
        } else if e < 168 {
            10
        } else if e < 192 {
            11
        } else if e < 216 {
            12
        } else if e < 240 {
            13
        } else {
            14
        }
    }

    /// The calibrated save DC for this challenge rating, specifically within
    /// attacks.
    pub fn save_dc(&self) -> (r: isize)
        ensures
            r == save_dc_for_cr(*self),
    {
        let e = self.eighths();
        if e < 32 {
            13
        } else if e < 40 {
            14
        } else if e < 64 {
            15
        } else if e < 88 {
            16
        } else if e < 104 {
            17
        } else if e < 136 {
            18
        } else if e < 168 {
            19
        } else if e < 192 {
            20
        } else if e < 216 {
            21
        } else if e < 240 {
            22
        } else {
            23
        }
    }
}

/// How a creature's armor class is derived from its statblock data.
#[derive(Debug, Clone, PartialEq, Eq, Structural)]
pub enum ACKind {
    Normal,
    UnarmoredDefense,
    Armor(usize),
    ArmorDex(usize),
    Natural(usize),
}

/// The armor class an AC derivation policy yields for a set of modifiers,
/// never negative.
pub open spec fn armor_class_spec(kind: ACKind, m: AMods) -> int {
    let raw = match kind {
        ACKind::Normal => 10 + m.0.dexterity,
        ACKind::UnarmoredDefense => 10 + m.0.dexterity + m.0.constitution,
        ACKind::Armor(x) => x as int,
        ACKind::Natural(x) => x as int,
        ACKind::ArmorDex(x) => x + m.0.dexterity,
    };
    if raw < 0 {
        0
    } else {
        raw
    }
}

/// The fixed armor value of the policy and its sum with the relevant
/// modifier fit the signed word, as the original arithmetic demands.
pub open spec fn ac_kind_fits(kind: ACKind, m: AMods) -> bool {
    match kind {
        ACKind::Normal => 10 + m.0.dexterity <= isize::MAX,
        ACKind::UnarmoredDefense => 10 + m.0.dexterity + m.0.constitution <= isize::MAX,
        ACKind::Armor(x) => x <= isize::MAX,
        ACKind::Natural(x) => x <= isize::MAX,
        ACKind::ArmorDex(x) => x <= isize::MAX && x + m.0.dexterity <= isize::MAX,
    }
}

impl ACKind {
    /// The armor class this policy yields for a set of modifiers.
    pub fn armor_class(&self, mods: &AMods) -> (r: AC)
        requires
            ac_kind_fits(*self, *mods),
        ensures
            r.0 == armor_class_spec(*self, *mods),
    {
        match self {
            ACKind::Normal => {
                let raw: i128 = 10 + (mods.0.dexterity as i128);
                AC(clamp_i128(raw))
            },
            ACKind::UnarmoredDefense => {
                let raw: i128 = 10 + (mods.0.dexterity as i128) + (mods.0.constitution as i128);
                AC(clamp_i128(raw))
            },
            ACKind::Armor(x) => AC(*x),
            ACKind::Natural(x) => AC(*x),
            ACKind::ArmorDex(x) => {
                let raw: i128 = (*x as i128) + (mods.0.dexterity as i128);
                AC(clamp_i128(raw))
            },
        }
    }
}

/// Clamp a small signed quantity to an unsigned one, flooring negatives at
/// zero.
fn clamp_i128(v: i128) -> (r: usize)
    requires
        v <= usize::MAX,
    ensures
        r == if v < 0 {
            0int
        } else {
            v as int
        },
{
    if v < 0 {
        0
    } else {
        v as usize
    }
}

} // verus!
