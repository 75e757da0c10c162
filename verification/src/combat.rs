use vstd::prelude::*;
use crate::action::{attack_modifier_spec, def_class_fits, def_class_spec, save_modifier_spec,
    Attack, Save, SaveEffect, Target};
use crate::basetraits::{prof_bonus_for_cr, spec_mods, AC, AMods, ProfBonus};
use crate::creature::{damage_factor_spec, BaseCreature, Creature};
use crate::damage::Damage;
use crate::dice::{expected2, expected2_fits, Die, DiceExpr};
use crate::rational::{lemma_i64_mul_in_i128, Ratio};
use crate::types::ExpectedValue;

verus! {

/// Expresses how many targets will be affected by an action that targets an
/// area. Exactly indicates that only the exact number will be affected;
/// Density indicates how many targets exist per area unit (usually feet),
/// as an exact ratio. Density is usually fairly low: one target per
/// twenty-five square feet, say. The default is Exactly(2), or half of a
/// party of four.
#[derive(Debug, Clone)]
pub enum AreaEffectDensity {
    Exactly(usize),
    Density(Ratio),
}

impl Default for AreaEffectDensity {
    /// By default an area effect catches exactly two targets.
    fn default() -> (r: AreaEffectDensity)
        ensures
            r matches AreaEffectDensity::Exactly(n) && n == 2,
    {
        AreaEffectDensity::Exactly(2)
    }
}

/// The model used for recharges in combat calculations. The damage math
/// itself never reads it; it documents how likely a limited-use ability is
/// to come back. The conservative default is Never.
#[derive(Debug, Clone)]
pub enum RechargeModel {
    Never,
    AfterPassProbability(Ratio),
}

impl Default for RechargeModel {
    /// By default a spent ability never recharges.
    fn default() -> (r: RechargeModel)
        ensures
            r is Never,
    {
        RechargeModel::Never
    }
}

/// Contains some common settings used for combat calculations.
#[derive(Debug, Clone)]
pub struct CombatSettings {
    pub effect_density: AreaEffectDensity,
    pub recharge_model: RechargeModel,
    /// Number of rounds for CR damage calculation.
    pub rounds: usize,
}

impl Default for CombatSettings {
    /// The defaults: two targets per area effect, no recharges, and damage
    /// aggregated over three rounds.
    fn default() -> (r: CombatSettings)
        ensures
            r.effect_density matches AreaEffectDensity::Exactly(n) && n == 2,
            r.recharge_model is Never,
            r.rounds == 3,
    {
        CombatSettings {
            effect_density: AreaEffectDensity::Exactly(2),
            recharge_model: RechargeModel::Never,
            rounds: 3,
        }
    }
}

/// The density policy carries a well-formed ratio.
pub open spec fn density_wf(d: AreaEffectDensity) -> bool {
    match d {
        AreaEffectDensity::Density(f) => f.wf(),
        AreaEffectDensity::Exactly(_) => true,
    }
}

/// The attack's target carries a well-formed floor area.
pub open spec fn target_wf(t: Target) -> bool {
    match t {
        Target::Area(a) => a.wf(),
        Target::Exactly(_) => true,
    }
}

/// How many targets an attack reaches: the exact count for exact targeting;
/// for an area, either the settings' exact count, or the floor of density
/// times floor area, kept within the unsigned range.
pub open spec fn expected_targets_spec(t: Target, den: AreaEffectDensity) -> int {
    match t {
        Target::Exactly(n) => n as int,
        Target::Area(area) => match den {
            AreaEffectDensity::Exactly(n) => n as int,
            AreaEffectDensity::Density(f) => {
                let num = f.num * area.num;
                let d = f.den * area.den;
                if num <= 0 {
                    0
                } else if num / d > usize::MAX {
                    usize::MAX as int
                } else {
                    num / d
                }
            },
        },
    }
}

/// The expected damage of one damage roll against a defender: the roll's
/// expectation scaled by the defender's factor for its kind, floored at
/// zero and rounded down, plus the flat bonus, floored at zero again.
/// Here h2 is twice the roll's expectation and f the damage factor.
pub open spec fn roll_expected_amount(h2: int, f: Ratio, bonus: int) -> int {
    let scaled = if h2 * f.num <= 0 {
        0
    } else {
        (h2 * f.num) / (2 * f.den)
    };
    if scaled + bonus < 0 {
        0
    } else {
        scaled + bonus
    }
}

/// The expected amount of the damage roll at index i of the attack, against
/// the defender: only the first roll receives the attack's flat bonus.
pub open spec fn roll_amount_at(atk: Attack, defc: BaseCreature, i: int) -> int {
    roll_expected_amount(
        expected2(atk.dmg_rolls@[i].0),
        damage_factor_spec(defc, atk.dmg_rolls@[i].1),
        if i == 0 {
            atk.dmg_bonus as int
        } else {
            0
        },
    )
}

/// The sum of the expected amounts of the attack's first `n` damage rolls.
pub open spec fn rolls_sum(atk: Attack, defc: BaseCreature, n: int) -> int
    decreases n,
{
    if n <= 0 {
        0
    } else {
        rolls_sum(atk, defc, n - 1) + roll_amount_at(atk, defc, n - 1)
    }
}

/// Every damage roll of the attack can be computed against the defender:
/// its expectation fits, and its clamped amount fits the unsigned word.
pub open spec fn damage_rolls_fit(atk: Attack, defc: BaseCreature) -> bool {
    forall|i: int|
        0 <= i < atk.dmg_rolls@.len() ==> {
            &&& expected2_fits((#[trigger] atk.dmg_rolls@[i]).0)
            &&& roll_amount_at(atk, defc, i) <= usize::MAX
        }
}

/// The pass probability of a d20 rolled at or above `check`, as pinned by
/// the dice algebra: certain at or below one, impossible above twenty,
/// otherwise (21 - check) in twenty.
pub open spec fn pass20_spec(check: int) -> Ratio {
    if check - 1 <= 0 {
        Ratio { num: 1, den: 1 }
    } else if check - 1 >= 20 {
        Ratio { num: 0, den: 1 }
    } else {
        Ratio { num: (20 - (check - 1)) as i64, den: 20 }
    }
}

/// The expected damage of a single application of the attack against the
/// defender: the rolls' sum plus the flat bonus once more (a quirk of the
/// reference behavior, preserved deliberately: the bonus is already inside
/// the first roll's amount, and is added again here); if the attack allows
/// a saving throw, the expectation mixes the mitigated and unmitigated
/// damage by the pass probability of the defender's d20 roll against the
/// DC; the result is rounded toward zero and floored at zero.
pub open spec fn single_damage_spec(
    atk: Attack,
    am: AMods,
    prof: ProfBonus,
    dm: AMods,
    defc: BaseCreature,
) -> int {
    let dmg0 = rolls_sum(atk, defc, atk.dmg_rolls@.len() as int) + atk.dmg_bonus;
    match atk.save {
        Option::None => if dmg0 < 0 {
            0
        } else {
            dmg0
        },
        Option::Some(sv) => {
            let dc = def_class_spec(sv.1, am, prof);
            let sm = save_modifier_spec(sv.0, dm);
            let p = pass20_spec(dc - sm);
            let amt = match sv.2 {
                SaveEffect::ReducesDamage(a) => a,
            };
            let xnum = dmg0 * (p.num * amt.num + (p.den - p.num) * amt.den);
            let xden = p.den * amt.den;
            if xnum < 0 {
                0
            } else {
                xnum / xden
            }
        },
    }
}

/// The attack's saving throw, if any, can be computed: the DC sum fits, the
/// d20 check fits the value type, and the mitigation fraction is a proper
/// fraction over a denominator of at most a billion.
pub open spec fn save_fits(atk: Attack, am: AMods, prof: ProfBonus, dm: AMods) -> bool {
    match atk.save {
        Option::None => true,
        Option::Some(sv) => {
            let dc = def_class_spec(sv.1, am, prof);
            let sm = save_modifier_spec(sv.0, dm);
            let amt = match sv.2 {
                SaveEffect::ReducesDamage(a) => a,
            };
            &&& def_class_fits(sv.1, am, prof)
            &&& isize::MIN < dc - sm <= isize::MAX
            &&& amt.wf()
            &&& 0 <= amt.num <= amt.den <= 1000000000
        },
    }
}

/// Represents a 1-to-n pair of creatures which are in combat. This
/// structure should be created and used ephemerally; it is merely a
/// convenience for calling methods on it.
#[derive(Debug)]
pub struct CombatPair<'a, 'd, 's> {
    pub attacker: &'a Creature,
    pub defenders: &'d Creature,
    pub settings: &'s CombatSettings,
}

impl<'a, 'd, 's> CombatPair<'a, 'd, 's> {
    /// The attacker's modifiers, as a spec value.
    pub open spec fn am_spec(&self) -> AMods {
        spec_mods(self.attacker.base_spec().ascores)
    }

    /// The attacker's proficiency bonus, as a spec value.
    pub open spec fn prof_spec(&self) -> ProfBonus {
        ProfBonus(prof_bonus_for_cr(self.attacker.cr_spec()) as isize)
    }

    /// The defenders' modifiers, as a spec value.
    pub open spec fn dm_spec(&self) -> AMods {
        spec_mods(self.defenders.base_spec().ascores)
    }

    /// The defenders' creature data, as a spec value.
    pub open spec fn defc_spec(&self) -> BaseCreature {
        self.defenders.base_spec()
    }

    /// How many targets the attack reaches under the pair's settings.
    pub fn expected_targets(&self, atk: &Attack) -> (r: usize)
        requires
            target_wf(atk.target),
            density_wf(self.settings.effect_density),
        ensures
            r == expected_targets_spec(atk.target, self.settings.effect_density),
    {
        match &atk.target {
            Target::Exactly(n) => *n,
            Target::Area(area) => match &self.settings.effect_density {
                AreaEffectDensity::Exactly(n) => *n,
                AreaEffectDensity::Density(f) => {
                    proof {
                        lemma_i64_mul_in_i128(f.num as int, area.num as int);
                        lemma_i64_mul_in_i128(f.den as int, area.den as int);
                        assert(f.den * area.den >= 1) by (nonlinear_arith)
                            requires
                                f.den >= 1,
                                area.den >= 1,
                        ;
                    }
                    let num: i128 = (f.num as i128) * (area.num as i128);
                    let d: i128 = (f.den as i128) * (area.den as i128);
                    if num <= 0 {
                        0
                    } else {
                        let q: u128 = (num as u128) / (d as u128);
                        if q > (usize::MAX as u128) {
                            usize::MAX
                        } else {
                            q as usize
                        }
                    }
                },
            },
        }
    }

    /// The expected damage of each of the attack's rolls against the
    /// defenders, in order: each expectation scaled by the defenders'
    /// factor for its kind, with the flat bonus on the first roll only.
    #[verifier::loop_isolation(false)]
    pub fn expected_single_damage_rolls(&self, atk: &Attack) -> (r: Vec<Damage>)
        requires
            damage_rolls_fit(*atk, self.defc_spec()),
        ensures
            r@.len() == atk.dmg_rolls@.len(),
            forall|i: int|
                0 <= i < r@.len() ==> #[trigger] r@[i] == Damage(
                    roll_amount_at(*atk, self.defc_spec(), i) as usize,
                    atk.dmg_rolls@[i].1,
                ),
    {
        let mut out: Vec<Damage> = Vec::new();
        let mut i: usize = 0;
        while i < atk.dmg_rolls.len()
            invariant
                i <= atk.dmg_rolls@.len(),
                out@.len() == i,
                forall|j: int|
                    0 <= j < i ==> #[trigger] out@[j] == Damage(
                        roll_amount_at(*atk, self.defc_spec(), j) as usize,
                        atk.dmg_rolls@[j].1,
                    ),
            decreases atk.dmg_rolls@.len() - i,
        {
            let dr = &atk.dmg_rolls[i];
            let h = dr.0.expected();
            let f = self.defenders.damage_factor(dr.1);
            proof {
                lemma_i64_mul_in_i128(h.num as int, f.num as int);
            }
            let prod: i128 = (h.num as i128) * (f.num as i128);
            let scaled: i128 = if prod <= 0 {
                0
            } else {
                ((prod as u128) / (2 * (f.den as u128))) as i128
            };
            let bonus: isize = if i == 0 {
                atk.dmg_bonus
            } else {
                0
            };
            let amt: i128 = scaled + (bonus as i128);
            let amount: usize = if amt < 0 {
                0
            } else {
                amt as usize
            };
            out.push(Damage(amount, dr.1));
            i = i + 1;
        }
        out
    }

    /// The total expected damage of a single application of the attack:
    /// the sum of its per-roll expected amounts.
    #[verifier::loop_isolation(false)]
    pub fn expected_single_damage_sum(&self, atk: &Attack) -> (r: usize)
        requires
            damage_rolls_fit(*atk, self.defc_spec()),
            rolls_sum(*atk, self.defc_spec(), atk.dmg_rolls@.len() as int) <= usize::MAX,
        ensures
            r == rolls_sum(*atk, self.defc_spec(), atk.dmg_rolls@.len() as int),
    {
        let rolls = self.expected_single_damage_rolls(atk);
        let mut sum: usize = 0;
        let mut i: usize = 0;
        while i < rolls.len()
            invariant
                i <= rolls@.len(),
                sum == rolls_sum(*atk, self.defc_spec(), i as int),
            decreases rolls@.len() - i,
        {
            proof {
                lemma_rolls_sum_bounds(*atk, self.defc_spec(), i as int + 1,
                    atk.dmg_rolls@.len() as int);
            }
            let Damage(amount, _) = rolls[i];
            sum = sum + amount;
            i = i + 1;
        }
        sum
    }

    /// The expected damage of a single application of the attack against
    /// the defenders: the rolls' sum plus the flat bonus once more (the
    /// documented double-application quirk of the reference behavior,
    /// preserved deliberately), mixed by the saving throw's pass odds when
    /// the attack allows one, floored at zero.
    pub fn expected_single_damage(&self, atk: &Attack) -> (r: usize)
        requires
            damage_rolls_fit(*atk, self.defc_spec()),
            rolls_sum(*atk, self.defc_spec(), atk.dmg_rolls@.len() as int) <= isize::MAX,
            rolls_sum(*atk, self.defc_spec(), atk.dmg_rolls@.len() as int) + atk.dmg_bonus
                <= isize::MAX,
            save_fits(*atk, self.am_spec(), self.prof_spec(), self.dm_spec()),
        ensures
            r == single_damage_spec(
                *atk,
                self.am_spec(),
                self.prof_spec(),
                self.dm_spec(),
                self.defc_spec(),
            ),
    {
        let s = self.expected_single_damage_sum(atk);
        let dmg0: i128 = (s as i128) + (atk.dmg_bonus as i128);
        proof {
            lemma_rolls_sum_bounds(
                *atk,
                self.defc_spec(),
                atk.dmg_rolls@.len() as int,
                atk.dmg_rolls@.len() as int,
            );
        }
        match &atk.save {
            Option::None => {
                if dmg0 < 0 {
                    0
                } else {
                    dmg0 as usize
                }
            },
            Option::Some(sv) => {
                let Save(sk, sdc, sef) = sv;
                let am = self.attacker.mods();
                let prof = self.attacker.prof_bonus();
                proof {
                    assert(prof == self.prof_spec());
                }
                let dc = sdc.def_class(&am, prof);
                let dm = self.defenders.mods();
                let sm = sk.modifier(&dm);
                let check: i128 = (dc as i128) - (sm as i128);
                let d20 = DiceExpr::Die(Die(20));
                let p: Ratio = match d20.prob_pass(check as isize) {
                    Ok(p) => p,
                    Err(_) => Ratio::from_int(0),
                };
                proof {
                    assert(p == pass20_spec(dc - sm));
                    assert(0 <= p.num <= p.den <= 20);
                }
                let SaveEffect::ReducesDamage(amt) = sef;
                proof {
                    assert(0 <= amt.num <= amt.den <= 1000000000);
                    assert(0 <= (p.num as int) * (amt.num as int) <= 20000000000) by (nonlinear_arith)
                        requires
                            0 <= p.num <= 20,
                            0 <= amt.num <= 1000000000,
                    ;
                    assert(0 <= ((p.den - p.num) as int) * (amt.den as int) <= 20000000000)
                        by (nonlinear_arith)
                        requires
                            0 <= p.den - p.num <= 20,
                            0 <= amt.den <= 1000000000,
                    ;
                }
                let coeff: i128 = (p.num as i128) * (amt.num as i128) + ((p.den - p.num) as i128)
                    * (amt.den as i128);
                proof {
                    assert(0 <= coeff <= (p.den as i128) * (amt.den as i128) && coeff
                        <= 41000000000) by (nonlinear_arith)
                        requires
                            0 <= p.num <= p.den <= 20,
                            0 <= amt.num <= amt.den <= 1000000000,
                            coeff == (p.num as i128) * (amt.num as i128) + ((p.den - p.num)
                                as i128) * (amt.den as i128),
                    ;
                    assert(i128::MIN <= dmg0 * coeff <= i128::MAX) by (nonlinear_arith)
                        requires
                            -(0x8000000000000000 as int) <= dmg0 <= 0x8000000000000000 as int,
                            0 <= coeff <= 41000000000,
                    ;
                }
                let xnum: i128 = dmg0 * coeff;
                proof {
                    lemma_i64_mul_in_i128(p.den as int, amt.den as int);
                }
                let xden: i128 = (p.den as i128) * (amt.den as i128);
                proof {
                    assert(xden >= 1) by (nonlinear_arith)
                        requires
                            p.den >= 1,
                            amt.den >= 1,
                            xden == (p.den as i128) * (amt.den as i128),
                    ;
                }
                if xnum < 0 {
                    0
                } else {
                    proof {
                        if dmg0 >= 0 {
                            assert(xnum <= dmg0 * xden) by (nonlinear_arith)
                                requires
                                    xnum == dmg0 * coeff,
                                    0 <= coeff <= xden,
                                    dmg0 >= 0,
                            ;
                            vstd::arithmetic::div_mod::lemma_div_is_ordered(
                                xnum as int,
                                dmg0 * xden,
                                xden as int,
                            );
                            vstd::arithmetic::div_mod::lemma_div_multiples_vanish(
                                dmg0 as int,
                                xden as int,
                            );
                            assert((xden * dmg0) == (dmg0 * xden)) by (nonlinear_arith);
                            assert(xnum / xden <= dmg0);
                        } else {
                            assert(xnum == 0) by (nonlinear_arith)
                                requires
                                    xnum == dmg0 * coeff,
                                    xnum >= 0,
                                    coeff >= 0,
                                    dmg0 < 0,
                            ;
                            vstd::arithmetic::div_mod::lemma_div_of0(xden as int);
                        }
                        assert(0 <= xnum / xden <= isize::MAX);
                    }
                    let q: u128 = (xnum as u128) / (xden as u128);
                    q as usize
                }
            },
        }
    }

    /// The expected total damage of the attack: the single-application
    /// expectation times the expected number of targets.
    pub fn expected_damage(&self, atk: &Attack) -> (r: usize)
        requires
            damage_rolls_fit(*atk, self.defc_spec()),
            rolls_sum(*atk, self.defc_spec(), atk.dmg_rolls@.len() as int) <= isize::MAX,
            rolls_sum(*atk, self.defc_spec(), atk.dmg_rolls@.len() as int) + atk.dmg_bonus
                <= isize::MAX,
            save_fits(*atk, self.am_spec(), self.prof_spec(), self.dm_spec()),
            target_wf(atk.target),
            density_wf(self.settings.effect_density),
            single_damage_spec(
                *atk,
                self.am_spec(),
                self.prof_spec(),
                self.dm_spec(),
                self.defc_spec(),
            ) * expected_targets_spec(atk.target, self.settings.effect_density) <= usize::MAX,
        ensures
            r == single_damage_spec(
                *atk,
                self.am_spec(),
                self.prof_spec(),
                self.dm_spec(),
                self.defc_spec(),
            ) * expected_targets_spec(atk.target, self.settings.effect_density),
    {
        let a = self.expected_single_damage(atk);
        let t = self.expected_targets(atk);
        proof {
            assert((a as u128) * (t as u128) <= u128::MAX) by (nonlinear_arith)
                requires
                    0 <= a as int <= 0xffffffffffffffff as int,
                    0 <= t as int <= 0xffffffffffffffff as int,
            ;
        }
        let prod: u128 = (a as u128) * (t as u128);
        prod as usize
    }

    /// The attack's full to-hit modifier for the attacker's modifiers and
    /// proficiency bonus.
    pub fn attack_modifier(&self, atk: &Attack) -> (r: isize)
        requires
            isize::MIN <= attack_modifier_spec(*atk, self.am_spec(), self.prof_spec())
                <= isize::MAX,
        ensures
            r == attack_modifier_spec(*atk, self.am_spec(), self.prof_spec()),
    {
        let am = self.attacker.mods();
        let prof = self.attacker.prof_bonus();
        proof {
            assert(prof == self.prof_spec());
        }
        atk.modifier(&am, prof)
    }

    /// The armor class at which the attack's average roll exactly breaks
    /// even: the expected d20 roll plus the to-hit modifier, rounded toward
    /// zero and floored at zero (a balance heuristic, not a guarantee).
    pub fn expected_hit_ac(&self, atk: &Attack) -> (r: AC)
        requires
            isize::MIN <= attack_modifier_spec(*atk, self.am_spec(), self.prof_spec())
                <= isize::MAX,
        ensures
            r.0 == hit_ac_spec(attack_modifier_spec(*atk, self.am_spec(), self.prof_spec())),
    {
        let m = self.attack_modifier(atk);
        let d20 = DiceExpr::Die(Die(20));
        let e = d20.expected();
        let raw: i128 = ((e.num as i128) + 2 * (m as i128)) / 2;
        if raw < 0 {
            AC(0)
        } else {
            AC(raw as usize)
        }
    }
}

/// The break-even armor class for a to-hit modifier m: the expected d20
/// roll of ten and a half plus m, rounded toward zero and floored at zero,
/// which is m plus ten for any m at or above minus ten.
pub open spec fn hit_ac_spec(m: int) -> int {
    if m + 10 < 0 {
        0
    } else {
        m + 10
    }
}

/// Partial sums of expected roll amounts are non-negative and at most the
/// full sum.
proof fn lemma_rolls_sum_bounds(atk: Attack, defc: BaseCreature, k: int, n: int)
    requires
        0 <= k <= n,
    ensures
        0 <= rolls_sum(atk, defc, k) <= rolls_sum(atk, defc, n),
    decreases n,
{
    if n > 0 {
        if k <= n - 1 {
            lemma_rolls_sum_bounds(atk, defc, k, n - 1);
        } else {
            lemma_rolls_sum_bounds(atk, defc, k - 1, n - 1);
        }
    }
}

} // verus!
