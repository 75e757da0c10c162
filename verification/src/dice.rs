use vstd::prelude::*;
use std::rc::Rc;
use crate::rational::Ratio;
use crate::types::ExpectedValue;

verus! {

/// The primitive type used to represent a die value.
pub type Value = isize;

/// Represents an n-sided die.
#[derive(Debug, Clone, Copy, PartialEq, Eq, Structural)]
pub struct Die(pub Value);

/// An arbitrary expression of dice. Subtrees are reference counted, so two
/// parents may share one subtree; nothing is deep-copied on share.
#[derive(Debug, Clone)]
pub enum DiceExpr {
    Die(Die),
    Times(usize, Rc<DiceExpr>),
    Plus(Rc<DiceExpr>, Rc<DiceExpr>),
    Const(Value),
}

/// The result of rolling a `DiceExpr`, including all intermediate values and,
/// at composite nodes, handles back to the sub-expressions that were sampled,
/// so the originating expression can be rebuilt from the roll alone.
#[derive(Debug)]
pub enum DiceRoll {
    Die(Die, Value),
    Times(usize, Rc<DiceExpr>, Vec<DiceRoll>),
    Plus(Rc<DiceExpr>, Rc<DiceExpr>, Rc<DiceRoll>, Rc<DiceRoll>),
    Const(Value),
}

/// Raised when an exact probability is requested of a distribution shape the
/// algebra does not support; no approximation is ever substituted.
#[derive(Debug, Clone, Copy, PartialEq, Eq, Structural)]
pub enum DiceError {
    UnsupportedDistribution,
}

impl View for DiceExpr {
    type V = DiceExpr;

    open spec fn view(&self) -> DiceExpr {
        *self
    }
}

impl View for DiceRoll {
    type V = DiceRoll;

    open spec fn view(&self) -> DiceRoll {
        *self
    }
}

/// Well-formed: every die in the expression has at least one side.
pub open spec fn expr_wf(e: DiceExpr) -> bool
    decreases e,
{
    match e {
        DiceExpr::Die(d) => d.0 >= 1,
        DiceExpr::Times(_, t) => expr_wf(*t),
        DiceExpr::Plus(a, b) => expr_wf(*a) && expr_wf(*b),
        DiceExpr::Const(_) => true,
    }
}

/// Twice the expected value of the expression. Every expectation in the
/// algebra is a multiple of one half, so twice the expectation is an exact
/// integer: a die with n sides contributes n + 1, a repetition multiplies,
/// a sum adds, and a constant v contributes 2v.
pub open spec fn expected2(e: DiceExpr) -> int
    decreases e,
{
    match e {
        DiceExpr::Die(d) => d.0 + 1,
        DiceExpr::Times(n, t) => n * expected2(*t),
        DiceExpr::Plus(a, b) => expected2(*a) + expected2(*b),
        DiceExpr::Const(v) => 2 * v,
    }
}

/// Twice the expected value of the expression and of each of its parts fits
/// the word the computation uses.
pub open spec fn expected2_fits(e: DiceExpr) -> bool
    decreases e,
{
    &&& i64::MIN <= expected2(e) <= i64::MAX
    &&& match e {
        DiceExpr::Times(_, t) => expected2_fits(*t),
        DiceExpr::Plus(a, b) => expected2_fits(*a) && expected2_fits(*b),
        _ => true,
    }
}

/// The least value the expression can take.
pub open spec fn min_value(e: DiceExpr) -> int
    decreases e,
{
    match e {
        DiceExpr::Die(_) => 1,
        DiceExpr::Times(n, t) => n * min_value(*t),
        DiceExpr::Plus(a, b) => min_value(*a) + min_value(*b),
        DiceExpr::Const(v) => v as int,
    }
}

/// The greatest value the expression can take.
pub open spec fn max_value(e: DiceExpr) -> int
    decreases e,
{
    match e {
        DiceExpr::Die(d) => d.0 as int,
        DiceExpr::Times(n, t) => n * max_value(*t),
        DiceExpr::Plus(a, b) => max_value(*a) + max_value(*b),
        DiceExpr::Const(v) => v as int,
    }
}

/// The extreme values of the expression and of each of its parts fit the
/// primitive value type, so any possible roll can be summed without overflow.
pub open spec fn val_fits(e: DiceExpr) -> bool
    decreases e,
{
    &&& isize::MIN <= min_value(e)
    &&& max_value(e) <= isize::MAX
    &&& match e {
        DiceExpr::Times(_, t) => val_fits(*t),
        DiceExpr::Plus(a, b) => val_fits(*a) && val_fits(*b),
        _ => true,
    }
}

/// The numerical value of a roll: the sum of its realized leaves.
pub open spec fn roll_value(r: DiceRoll) -> int
    decreases r, 1int, 0int,
{
    match r {
        DiceRoll::Die(_, v) => v as int,
        DiceRoll::Times(_, _, drs) => roll_seq_value(drs@, drs@.len() as int),
        DiceRoll::Plus(_, _, ra, rb) => roll_value(*ra) + roll_value(*rb),
        DiceRoll::Const(v) => v as int,
    }
}

/// The sum of the values of the first `n` rolls of `s`.
pub open spec fn roll_seq_value(s: Seq<DiceRoll>, n: int) -> int
    decreases s, 0int, n,
    via roll_seq_value_decreases
{
    if n <= 0 || n > s.len() {
        0
    } else {
        roll_seq_value(s, n - 1) + roll_value(s[n - 1])
    }
}

#[via_fn]
proof fn roll_seq_value_decreases(s: Seq<DiceRoll>, n: int) {
    if 0 < n <= s.len() {
        vstd::seq::axiom_seq_index_decreases(s, n - 1);
    }
}

/// The roll `r` is a possible outcome of sampling the expression `e`: it has
/// the same shape, refers back to the same sub-expressions, and every die
/// leaf lies within the faces of its die.
pub open spec fn roll_matches(r: DiceRoll, e: DiceExpr) -> bool
    decreases r, 1int, 0int,
{
    match r {
        DiceRoll::Die(d, v) => e == DiceExpr::Die(d) && 1 <= v <= d.0,
        DiceRoll::Times(n, x, drs) => {
            &&& e == DiceExpr::Times(n, x)
            &&& drs@.len() == n
            &&& seq_rolls_match(drs@, *x, drs@.len() as int)
        },
        DiceRoll::Plus(xa, xb, ra, rb) => {
            &&& e == DiceExpr::Plus(xa, xb)
            &&& roll_matches(*ra, *xa)
            &&& roll_matches(*rb, *xb)
        },
        DiceRoll::Const(v) => e == DiceExpr::Const(v),
    }
}

/// The first `n` rolls of `s` all match the expression `x`.
pub open spec fn seq_rolls_match(s: Seq<DiceRoll>, x: DiceExpr, n: int) -> bool
    decreases s, 0int, n,
    via seq_rolls_match_decreases
{
    if n <= 0 || n > s.len() {
        true
    } else {
        seq_rolls_match(s, x, n - 1) && roll_matches(s[n - 1], x)
    }
}

#[via_fn]
proof fn seq_rolls_match_decreases(s: Seq<DiceRoll>, x: DiceExpr, n: int) {
    if 0 < n <= s.len() {
        vstd::seq::axiom_seq_index_decreases(s, n - 1);
    }
}

/// The expression that generated a roll, rebuilt from the handles the roll
/// retained (including the identity of shared subtrees).
pub open spec fn roll_expr_spec(r: DiceRoll) -> DiceExpr {
    match r {
        DiceRoll::Die(d, _) => DiceExpr::Die(d),
        DiceRoll::Times(n, x, _) => DiceExpr::Times(n, x),
        DiceRoll::Plus(xa, xb, _, _) => DiceExpr::Plus(xa, xb),
        DiceRoll::Const(v) => DiceExpr::Const(v),
    }
}

/// The exact cumulative probability P(X <= i) of the expression, where it is
/// defined: a die and a constant have exact closed forms; a repetition or a
/// sum of dice would require a combinatorial convolution and is refused.
pub open spec fn cum_prob_spec(e: DiceExpr, i: int) -> Result<Ratio, DiceError> {
    match e {
        DiceExpr::Die(d) => Ok(
            if i <= 0 {
                Ratio { num: 0, den: 1 }
            } else if i >= d.0 {
                Ratio { num: 1, den: 1 }
            } else {
                Ratio { num: i as i64, den: d.0 as i64 }
            },
        ),
        DiceExpr::Const(c) => Ok(
            if i < c {
                Ratio { num: 0, den: 1 }
            } else {
                Ratio { num: 1, den: 1 }
            },
        ),
        _ => Err(DiceError::UnsupportedDistribution),
    }
}

/// The probability of rolling at or above `check`: one minus the cumulative
/// probability at `check - 1`, over the same denominator.
pub open spec fn prob_pass_spec(e: DiceExpr, check: int) -> Result<Ratio, DiceError> {
    match cum_prob_spec(e, check - 1) {
        Ok(p) => Ok(Ratio { num: (p.den - p.num) as i64, den: p.den }),
        Err(er) => Err(er),
    }
}

#[verifier::external_type_specification]
#[verifier::external_body]
pub struct ExStdRng(rand::rngs::StdRng);

/// A source of randomness for sampling dice, wrapping rand's standard RNG.
/// It must be held exclusively for the duration of a sampling call; nothing
/// else about its state is modelled.
pub struct EntropySource {
    rng: rand::rngs::StdRng,
}

impl EntropySource {
    /// Relies on rand's SeedableRng::seed_from_u64 for StdRng: builds a
    /// generator whose stream is determined by the seed.
    #[verifier::external_body]
    pub fn from_seed(seed: u64) -> EntropySource {
        EntropySource { rng: <rand::rngs::StdRng as rand::SeedableRng>::seed_from_u64(seed) }
    }

    /// Relies on rand's SeedableRng::from_entropy for StdRng: builds a
    /// generator seeded from the operating system's entropy.
    #[verifier::external_body]
    pub fn fresh() -> EntropySource {
        EntropySource { rng: <rand::rngs::StdRng as rand::SeedableRng>::from_entropy() }
    }

    /// Relies on rand's Rng::gen_range over an inclusive range: the result
    /// lies within the bounds, whatever entropy was drawn. It panics only on
    /// an empty range, which the precondition rules out.
    #[verifier::external_body]
    fn roll_range(&mut self, lo: Value, hi: Value) -> (r: Value)
        requires
            lo <= hi,
        ensures
            lo <= r <= hi,
    {
        rand::Rng::gen_range(&mut self.rng, lo..=hi)
    }
}

impl DiceExpr {
    /// Roll the DiceExpr, drawing entropy from the source. The outcome
    /// mirrors the shape of the expression, every die leaf lies within its
    /// faces, and composite nodes keep handles back to the expressions they
    /// sampled.
    #[verifier::loop_isolation(false)]
    pub fn roll(&self, rng: &mut EntropySource) -> (r: DiceRoll)
        requires
            expr_wf(*self),
        ensures
            roll_matches(r, *self),
        decreases *self,
    {
        match self {
            DiceExpr::Die(d) => {
                let v: Value = rng.roll_range(1, d.0);
                DiceRoll::Die(*d, v)
            },
            DiceExpr::Times(n, ex) => {
                let mut rolls: Vec<DiceRoll> = Vec::new();
                let mut i: usize = 0;
                while i < *n
                    invariant
                        i <= *n,
                        rolls@.len() == i,
                        forall|j: int| 0 <= j < i ==> roll_matches(#[trigger] rolls@[j], **ex),
                    decreases *n - i,
                {
                    let dr = ex.roll(rng);
                    rolls.push(dr);
                    i = i + 1;
                }
                proof {
                    lemma_seq_match_from_pointwise(rolls@, ex, rolls@.len() as int);
                }
                DiceRoll::Times(*n, Rc::clone(ex), rolls)
            },
            DiceExpr::Plus(xa, xb) => {
                let ra = xa.roll(rng);
                let rb = xb.roll(rng);
                DiceRoll::Plus(Rc::clone(xa), Rc::clone(xb), Rc::new(ra), Rc::new(rb))
            },
            DiceExpr::Const(v) => DiceRoll::Const(*v),
        }
    }

    /// Cumulative probability: the probability that the underlying
    /// distribution X yields a value x <= i (a "roll under"; see `prob_pass`
    /// for the complementary "roll at or over").
    ///
    /// Only a single die and a constant admit an exact closed form; for a
    /// repetition or a sum of dice the exact convolution is combinatorially
    /// expensive, so the request is refused with an explicit error rather
    /// than answered approximately. Callers should put as much of the
    /// calculation into `i` as possible.
    pub fn cum_prob(&self, i: Value) -> (r: Result<Ratio, DiceError>)
        requires
            expr_wf(*self),
        ensures
            r == cum_prob_spec(*self, i as int),
            r matches Ok(p) ==> 0 <= p.num <= p.den,
            (r is Err) <==> (*self is Times || *self is Plus),
    {
        match self {
            DiceExpr::Die(d) => Ok(
                if i <= 0 {
                    Ratio::from_int(0)
                } else if i >= d.0 {
                    Ratio::from_int(1)
                } else {
                    Ratio::new(i as i64, d.0 as i64)
                },
            ),
            DiceExpr::Const(c) => Ok(
                if i < *c {
                    Ratio::from_int(0)
                } else {
                    Ratio::from_int(1)
                },
            ),
            _ => Err(DiceError::UnsupportedDistribution),
        }
    }

    /// Probability of a roll "at or over" a target: one minus `cum_prob` at
    /// `check - 1`. It inherits the support limitation of `cum_prob`.
    pub fn prob_pass(&self, check: Value) -> (r: Result<Ratio, DiceError>)
        requires
            expr_wf(*self),
            check > Value::MIN,
        ensures
            r == prob_pass_spec(*self, check as int),
            r matches Ok(p) ==> 0 <= p.num <= p.den,
            (r is Err) <==> (*self is Times || *self is Plus),
    {
        match self.cum_prob(check - 1) {
            Ok(p) => Ok(p.complement()),
            Err(er) => Err(er),
        }
    }
}

impl ExpectedValue for DiceExpr {
    open spec fn expected2_spec(&self) -> int {
        expected2(*self)
    }

    open spec fn expected_fits(&self) -> bool {
        expected2_fits(*self)
    }

    fn expected(&self) -> (r: Ratio)
        decreases *self,
    {
        match self {
            DiceExpr::Die(d) => {
                assert(expected2(*self) == d.0 + 1);
                Ratio { num: (d.0 as i64) + 1, den: 2 }
            },
            DiceExpr::Times(n, t) => {
                let ht = t.expected();
                proof {
                    lemma_mul_u64_i64_in_i128(*n as int, ht.num as int);
                }
                let prod: i128 = (*n as i128) * (ht.num as i128);
                assert(prod == expected2(*self));
                Ratio { num: prod as i64, den: 2 }
            },
            DiceExpr::Plus(a, b) => {
                let ha = a.expected();
                let hb = b.expected();
                let sum: i128 = (ha.num as i128) + (hb.num as i128);
                assert(sum == expected2(*self));
                Ratio { num: sum as i64, den: 2 }
            },
            DiceExpr::Const(v) => {
                let dbl: i128 = 2 * (*v as i128);
                assert(dbl == expected2(*self));
                Ratio { num: dbl as i64, den: 2 }
            },
        }
    }
}

/// The product of a value in `u64` range and a value in `i64` range lies in
/// `i128` range.
proof fn lemma_mul_u64_i64_in_i128(a: int, b: int)
    requires
        0 <= a <= u64::MAX,
        i64::MIN <= b <= i64::MAX,
    ensures
        i128::MIN <= a * b <= i128::MAX,
{
    assert(i128::MIN <= a * b <= i128::MAX) by (nonlinear_arith)
        requires
            0 <= a <= u64::MAX,
            i64::MIN <= b <= i64::MAX,
    ;
}

/// Every possible roll of the expression and of each of its parts sums to a
/// value that fits the primitive value type.
pub open spec fn roll_value_fits(r: DiceRoll) -> bool
    decreases r, 1int, 0int,
{
    match r {
        DiceRoll::Die(_, _) => true,
        DiceRoll::Times(_, _, drs) => {
            &&& forall|k: int|
                0 <= k <= drs@.len() ==> isize::MIN <= #[trigger] roll_seq_value(drs@, k)
                    <= isize::MAX
            &&& seq_roll_values_fit(drs@, drs@.len() as int)
        },
        DiceRoll::Plus(_, _, ra, rb) => {
            &&& isize::MIN <= roll_value(*ra) + roll_value(*rb) <= isize::MAX
            &&& roll_value_fits(*ra)
            &&& roll_value_fits(*rb)
        },
        DiceRoll::Const(_) => true,
    }
}

/// The values of the first `n` rolls of `s` all fit.
pub open spec fn seq_roll_values_fit(s: Seq<DiceRoll>, n: int) -> bool
    decreases s, 0int, n,
    via seq_roll_values_fit_decreases
{
    if n <= 0 || n > s.len() {
        true
    } else {
        seq_roll_values_fit(s, n - 1) && roll_value_fits(s[n - 1])
    }
}

#[via_fn]
proof fn seq_roll_values_fit_decreases(s: Seq<DiceRoll>, n: int) {
    if 0 < n <= s.len() {
        vstd::seq::axiom_seq_index_decreases(s, n - 1);
    }
}

impl DiceRoll {
    /// Get the numerical value of a DiceRoll: the recursive sum of its
    /// realized leaves.
    #[verifier::loop_isolation(false)]
    pub fn value(&self) -> (v: Value)
        requires
            roll_value_fits(*self),
        ensures
            v as int == roll_value(*self),
        decreases *self,
    {
        match self {
            DiceRoll::Die(_, v) => *v,
            DiceRoll::Times(_, _, drs) => {
                let mut sum: Value = 0;
                let mut i: usize = 0;
                while i < drs.len()
                    invariant
                        i <= drs@.len(),
                        sum as int == roll_seq_value(drs@, i as int),
                    decreases drs@.len() - i,
                {
                    proof {
                        lemma_seq_fit_index(drs@, drs@.len() as int, i as int);
                        vstd::seq::axiom_seq_index_decreases(drs@, i as int);
                    }
                    let v = drs[i].value();
                    proof {
                        assert(roll_seq_value(drs@, i as int + 1) == roll_seq_value(
                            drs@,
                            i as int,
                        ) + roll_value(drs@[i as int]));
                    }
                    sum = sum + v;
                    i = i + 1;
                }
                sum
            },
            DiceRoll::Plus(_, _, ra, rb) => {
                let va = ra.value();
                let vb = rb.value();
                va + vb
            },
            DiceRoll::Const(v) => *v,
        }
    }

    /// Reconstruct the original expression that resulted in this roll, from
    /// the handles the roll retained; no new randomness is involved.
    pub fn expr(&self) -> (e: DiceExpr)
        ensures
            e == roll_expr_spec(*self),
    {
        match self {
            DiceRoll::Die(d, _) => DiceExpr::Die(*d),
            DiceRoll::Times(n, x, _) => DiceExpr::Times(*n, Rc::clone(x)),
            DiceRoll::Plus(xa, xb, _, _) => DiceExpr::Plus(Rc::clone(xa), Rc::clone(xb)),
            DiceRoll::Const(v) => DiceExpr::Const(*v),
        }
    }
}

/// Within the first `n` rolls of `s`, each one fits on its own.
proof fn lemma_seq_fit_index(s: Seq<DiceRoll>, n: int, i: int)
    requires
        0 <= i < n <= s.len(),
        seq_roll_values_fit(s, n),
    ensures
        roll_value_fits(s[i]),
    decreases n,
{
    if i < n - 1 {
        lemma_seq_fit_index(s, n - 1, i);
    }
}

/// If every one of the first `n` rolls of `s` matches `x` pointwise, the
/// whole prefix matches.
proof fn lemma_seq_match_from_pointwise(s: Seq<DiceRoll>, x: &Rc<DiceExpr>, n: int)
    requires
        0 <= n <= s.len(),
        forall|j: int| 0 <= j < n ==> roll_matches(#[trigger] s[j], **x),
    ensures
        seq_rolls_match(s, **x, n),
    decreases n,
{
    if n > 0 {
        lemma_seq_match_from_pointwise(s, x, n - 1);
    }
}


/// Every die has at least one side and every constant is non-negative.
pub open spec fn expr_nonneg(e: DiceExpr) -> bool
    decreases e,
{
    match e {
        DiceExpr::Die(d) => d.0 >= 1,
        DiceExpr::Times(_, t) => expr_nonneg(*t),
        DiceExpr::Plus(a, b) => expr_nonneg(*a) && expr_nonneg(*b),
        DiceExpr::Const(v) => v >= 0,
    }
}

/// Whenever all constituent dice have at least one side and all constants
/// are non-negative, the expected value of the expression is non-negative.
pub proof fn lemma_expected_nonneg(e: DiceExpr)
    requires
        expr_nonneg(e),
    ensures
        expected2(e) >= 0,
    decreases e,
{
    match e {
        DiceExpr::Die(_) => {},
        DiceExpr::Times(n, t) => {
            lemma_expected_nonneg(t@);
            assert(n * expected2(t@) >= 0) by (nonlinear_arith)
                requires
                    expected2(t@) >= 0,
                    n >= 0,
            ;
        },
        DiceExpr::Plus(a, b) => {
            lemma_expected_nonneg(a@);
            lemma_expected_nonneg(b@);
        },
        DiceExpr::Const(_) => {},
    }
}

/// The expected value of rolling a die with n sides k times is k * (n + 1) / 2:
/// twice the expectation of such an expression is exactly k * (n + 1).
pub proof fn lemma_times_die_expected(e: DiceExpr, k: usize, d: Die)
    requires
        e matches DiceExpr::Times(kk, t) && kk == k && *t == DiceExpr::Die(d),
    ensures
        expected2(e) == k * (d.0 + 1),
{
    assert(expected2(DiceExpr::Die(d)) == d.0 + 1);
}

/// A prefix of a matching prefix still matches.
proof fn lemma_seq_match_prefix(s: Seq<DiceRoll>, x: DiceExpr, k: int, n: int)
    requires
        0 <= k <= n <= s.len(),
        seq_rolls_match(s, x, n),
    ensures
        seq_rolls_match(s, x, k),
    decreases n,
{
    if k < n {
        lemma_seq_match_prefix(s, x, k, n - 1);
    }
}

/// For 0 <= k <= n, the partial product k * m lies between 0 and n * m
/// (on whichever side the sign of m puts them).
proof fn lemma_prefix_scale(k: int, n: int, m: int)
    requires
        0 <= k <= n,
    ensures
        m >= 0 ==> 0 <= k * m <= n * m,
        m < 0 ==> n * m <= k * m <= 0,
{
    assert((m >= 0 ==> 0 <= k * m <= n * m) && (m < 0 ==> n * m <= k * m <= 0))
        by (nonlinear_arith)
        requires
            0 <= k <= n,
    ;
}

/// The value of any possible roll of a well-formed expression lies within
/// the support of that expression: between its least and greatest value.
pub proof fn lemma_roll_value_bounds(r: DiceRoll, e: DiceExpr)
    requires
        roll_matches(r, e),
        expr_wf(e),
    ensures
        min_value(e) <= roll_value(r) <= max_value(e),
    decreases r, 1int, 0int,
{
    match r {
        DiceRoll::Die(_, _) => {},
        DiceRoll::Times(n, x, drs) => {
            lemma_seq_value_bounds(drs@, x@, drs@.len() as int);
        },
        DiceRoll::Plus(_, _, ra, rb) => {
            let (xa, xb) = match e {
                DiceExpr::Plus(xa, xb) => (xa@, xb@),
                _ => (e, e),
            };
            lemma_roll_value_bounds(ra@, xa);
            lemma_roll_value_bounds(rb@, xb);
        },
        DiceRoll::Const(_) => {},
    }
}

/// The sum of the first `n` matching rolls lies between n times the least
/// and n times the greatest value of the matched expression.
proof fn lemma_seq_value_bounds(s: Seq<DiceRoll>, x: DiceExpr, n: int)
    requires
        0 <= n <= s.len(),
        seq_rolls_match(s, x, n),
        expr_wf(x),
    ensures
        n * min_value(x) <= roll_seq_value(s, n) <= n * max_value(x),
    decreases s, 0int, n,
{
    if n <= 0 {
        assert(0 * min_value(x) == 0) by (nonlinear_arith);
        assert(0 * max_value(x) == 0) by (nonlinear_arith);
    } else {
        lemma_seq_value_bounds(s, x, n - 1);
        vstd::seq::axiom_seq_index_decreases(s, n - 1);
        lemma_roll_value_bounds(s[n - 1], x);
        assert((n - 1) * min_value(x) + min_value(x) == n * min_value(x)) by (nonlinear_arith);
        assert((n - 1) * max_value(x) + max_value(x) == n * max_value(x)) by (nonlinear_arith);
    }
}

/// A roll of a well-formed expression all of whose parts fit the value type
/// can itself be summed without overflow.
pub proof fn lemma_matched_roll_fits(r: DiceRoll, e: DiceExpr)
    requires
        roll_matches(r, e),
        expr_wf(e),
        val_fits(e),
    ensures
        roll_value_fits(r),
    decreases r, 1int, 0int,
{
    match r {
        DiceRoll::Die(_, _) => {},
        DiceRoll::Times(n, x, drs) => {
            lemma_seq_rolls_fit(drs@, x@, drs@.len() as int);
            assert forall|k: int| 0 <= k <= drs@.len() implies isize::MIN <= #[trigger] roll_seq_value(drs@, k) <= isize::MAX by {
                lemma_seq_match_prefix(drs@, x@, k, drs@.len() as int);
                lemma_seq_value_bounds(drs@, x@, k);
                lemma_prefix_scale(k, drs@.len() as int, min_value(x@));
                lemma_prefix_scale(k, drs@.len() as int, max_value(x@));
            }
        },
        DiceRoll::Plus(_, _, ra, rb) => {
            let (xa, xb) = match e {
                DiceExpr::Plus(xa, xb) => (xa@, xb@),
                _ => (e, e),
            };
            lemma_matched_roll_fits(ra@, xa);
            lemma_matched_roll_fits(rb@, xb);
            lemma_roll_value_bounds(ra@, xa);
            lemma_roll_value_bounds(rb@, xb);
        },
        DiceRoll::Const(_) => {},
    }
}

/// The values of the first `n` matching rolls all fit.
proof fn lemma_seq_rolls_fit(s: Seq<DiceRoll>, x: DiceExpr, n: int)
    requires
        0 <= n <= s.len(),
        seq_rolls_match(s, x, n),
        expr_wf(x),
        val_fits(x),
    ensures
        seq_roll_values_fit(s, n),
    decreases s, 0int, n,
{
    if n > 0 {
        lemma_seq_rolls_fit(s, x, n - 1);
        vstd::seq::axiom_seq_index_decreases(s, n - 1);
        lemma_matched_roll_fits(s[n - 1], x);
    }
}

/// Reconstructing the expression of a roll of `e` gives back exactly `e`,
/// shared subtrees included.
pub proof fn lemma_roll_expr_of_matches(r: DiceRoll, e: DiceExpr)
    requires
        roll_matches(r, e),
    ensures
        roll_expr_spec(r) == e,
{
}

} // verus!
