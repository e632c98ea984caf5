//! What an agent may use up, and the check that it has not.
use crate::coding::Coded;
use crate::json::{print_json, printed, Json, JsonView};
use crate::text::{copy, decimal, number};
use vstd::arithmetic::power::pow;
use vstd::prelude::*;
use vstd::string::*;

verus! {

// ---- Costs -------------------------------------------------------------------

/// The largest scale of a cost.
pub const MAX_SCALE: u32 = 28;

/// The largest coefficient of a cost: ninety-six bits.
pub const MAX_COEFFICIENT: i128 = 79_228_162_514_264_337_593_543_950_335;

/// A cost: a whole number of units of `10^-scale`.
#[derive(Debug, Clone, Copy)]
pub struct Cost {
    coefficient: i128,
    scale: u32,
}

/// `10^n`.
pub open spec fn ten_to(n: nat) -> int
    decreases n,
{
    if n == 0 {
        1
    } else {
        10 * ten_to((n - 1) as nat)
    }
}

/// `a / 10^a_scale` is at least `b / 10^b_scale`.
pub open spec fn worth_at_least(a: int, a_scale: nat, b: int, b_scale: nat) -> bool {
    a * ten_to(b_scale) >= b * ten_to(a_scale)
}

/// The digits of `n`, none for zero, with zeros in front until there are `width`.
pub open spec fn padded(n: nat, width: nat) -> Seq<char> {
    let digits = if n == 0 {
        Seq::empty()
    } else {
        decimal(n)
    };
    if digits.len() < width {
        Seq::new((width - digits.len()) as nat, |i: int| '0') + digits
    } else {
        digits
    }
}

/// The first `n` characters, with zeros behind where there are fewer.
pub open spec fn cut_or_fill(s: Seq<char>, n: nat) -> Seq<char> {
    Seq::new(n, |i: int| if i < s.len() { s[i] } else { '0' })
}

/// The absolute value.
pub open spec fn size_of_int(n: int) -> nat {
    if n < 0 {
        (-n) as nat
    } else {
        n as nat
    }
}

/// A cost in decimal notation with `places` digits behind the point. Digits beyond
/// them are cut off.
pub open spec fn cost_text(coefficient: int, scale: nat, places: nat) -> Seq<char> {
    let digits = padded(size_of_int(coefficient), scale);
    let whole = digits.take(digits.len() - scale);
    let sign = if coefficient < 0 {
        seq!['-']
    } else {
        Seq::empty()
    };
    let front = if whole.len() == 0 {
        seq!['0']
    } else {
        whole
    };
    if places == 0 {
        sign + front
    } else {
        sign + front + seq!['.'] + cut_or_fill(digits.skip(digits.len() - scale), places)
    }
}

/// `rust_decimal::Decimal`'s comparison: it compares two decimals by their value,
/// whatever their scales.
#[verifier::external_body]
fn decimal_at_least(a: i128, a_scale: u32, b: i128, b_scale: u32) -> (r: bool)
    requires
        -MAX_COEFFICIENT <= a <= MAX_COEFFICIENT,
        -MAX_COEFFICIENT <= b <= MAX_COEFFICIENT,
        a_scale <= MAX_SCALE,
        b_scale <= MAX_SCALE,
    ensures
        r == worth_at_least(a as int, a_scale as nat, b as int, b_scale as nat),
{
    rust_decimal::Decimal::from_i128_with_scale(a, a_scale)
        >= rust_decimal::Decimal::from_i128_with_scale(b, b_scale)
}

/// The number of digits before the point of a cost.
pub open spec fn whole_digits(coefficient: int, scale: nat) -> nat {
    (padded(size_of_int(coefficient), scale).len() - scale) as nat
}

/// `rust_decimal::Decimal`'s `Display` with a precision: decimal notation with that
/// many digits behind the point, cut off and not rounded. The digits and the point are put
/// together in a buffer of thirty-two characters, and have to fit.
#[verifier::external_body]
fn decimal_display(coefficient: i128, scale: u32, places: usize) -> (r: String)
    requires
        -MAX_COEFFICIENT <= coefficient <= MAX_COEFFICIENT,
        scale <= MAX_SCALE,
        places <= MAX_SCALE,
        whole_digits(coefficient as int, scale as nat) + 1 + places <= 32,
    ensures
        r@ == cost_text(coefficient as int, scale as nat, places as nat),
{
    format!("{:.*}", places, rust_decimal::Decimal::from_i128_with_scale(coefficient, scale))
}

/// A number below `10^width` has no more than `width` digits.
proof fn lemma_decimal_len(n: nat, width: nat)
    requires
        n < ten_to(width),
        width > 0,
    ensures
        decimal(n).len() <= width,
    decreases n,
{
    if n >= 10 {
        assert(width > 1) by {
            reveal_with_fuel(ten_to, 2);
        }
        assert(ten_to(width) == 10 * ten_to((width - 1) as nat));
        lemma_decimal_len(n / 10, (width - 1) as nat);
    }
}

/// A cost has no more than twenty-nine digits before the point, and fewer where it has places.
proof fn lemma_whole_digits(coefficient: int, scale: nat)
    requires
        -MAX_COEFFICIENT <= coefficient <= MAX_COEFFICIENT,
        scale <= MAX_SCALE,
    ensures
        whole_digits(coefficient, scale) + scale <= 29,
{
    assert(ten_to(29) == 100_000_000_000_000_000_000_000_000_000) by {
        reveal_with_fuel(ten_to, 30);
    }
    lemma_decimal_len(size_of_int(coefficient), 29);
}

impl Cost {
    /// The number of units.
    pub closed spec fn units(&self) -> int {
        self.coefficient as int
    }

    /// The number of decimal places of a unit.
    pub closed spec fn places(&self) -> nat {
        self.scale as nat
    }

    #[verifier::type_invariant]
    closed spec fn in_range(&self) -> bool {
        &&& -MAX_COEFFICIENT <= self.coefficient <= MAX_COEFFICIENT
        &&& self.scale <= MAX_SCALE
    }

    /// `num` units of `10^-scale`.
    pub fn new(num: i64, scale: u32) -> (r: Cost)
        requires
            scale <= MAX_SCALE,
        ensures
            r.units() == num,
            r.places() == scale,
    {
        Cost { coefficient: num as i128, scale }
    }

    /// `num` units of `10^-scale`, where a cost can be that large and that fine.
    pub fn from_parts(num: i128, scale: u32) -> (r: Option<Cost>)
        ensures
            r is Some <==> -MAX_COEFFICIENT <= num <= MAX_COEFFICIENT && scale <= MAX_SCALE,
            r is Some ==> r->0.units() == num && r->0.places() == scale,
            r is Some ==> r->0 == cost_of(num, scale),
    {
        if scale > MAX_SCALE || num > MAX_COEFFICIENT || num < -MAX_COEFFICIENT {
            None
        } else {
            Some(Cost { coefficient: num, scale })
        }
    }

    /// Nothing.
    pub fn zero() -> (r: Cost)
        ensures
            r.units() == 0,
            r.places() == 0,
    {
        Cost { coefficient: 0, scale: 0 }
    }

    /// The number of units.
    pub fn coefficient(&self) -> (r: i128)
        ensures
            r == self.units(),
    {
        self.coefficient
    }

    /// The number of decimal places of a unit.
    pub fn scale(&self) -> (r: u32)
        ensures
            r == self.places(),
    {
        self.scale
    }

    /// Whether the cost is nothing.
    pub fn is_zero(&self) -> (r: bool)
        ensures
            r == (self.units() == 0),
    {
        self.coefficient == 0
    }

    /// Whether the cost is `other` or more.
    pub fn at_least(&self, other: &Cost) -> (r: bool)
        ensures
            r == worth_at_least(self.units(), self.places(), other.units(), other.places()),
    {
        proof {
            use_type_invariant(self);
            use_type_invariant(other);
        }
        decimal_at_least(self.coefficient, self.scale, other.coefficient, other.scale)
    }

    /// The cost in decimal notation, with as many places as it has.
    pub fn to_string(&self) -> (r: String)
        ensures
            r@ == cost_text(self.units(), self.places(), self.places()),
    {
        proof {
            use_type_invariant(self);
            lemma_whole_digits(self.coefficient as int, self.scale as nat);
        }
        decimal_display(self.coefficient, self.scale, self.scale as usize)
    }

    /// The cost in decimal notation with `places` places, cut off and not rounded. With two
    /// places every cost can be written, with more only one whose digits leave room for them.
    pub fn to_fixed(&self, places: usize) -> (r: String)
        requires
            places <= 2 || places <= MAX_SCALE && whole_digits(self.units(), self.places()) + 1 + places <= 32,
        ensures
            r@ == cost_text(self.units(), self.places(), places as nat),
    {
        proof {
            use_type_invariant(self);
            lemma_whole_digits(self.coefficient as int, self.scale as nat);
        }
        decimal_display(self.coefficient, self.scale, places)
    }
}

// ---- Costs as JSON -----------------------------------------------------------

impl View for Cost {
    type V = Cost;

    open spec fn view(&self) -> Cost {
        *self
    }
}

/// `coefficient` units of `10^-scale`.
pub closed spec fn cost_of(coefficient: i128, scale: u32) -> Cost {
    Cost { coefficient, scale }
}

/// The cost that a JSON text gives, where it gives one.
pub uninterp spec fn read_cost(text: Seq<char>) -> Option<(i128, u32)>;

/// `serde_json::from_str` into a `rust_decimal::Decimal`: a function of the text alone, which
/// reads a text or a number. The decimal has ninety-six bits and twenty-eight places at most,
/// and one that was written with all its places is read back with the same digits.
#[verifier::external_body]
fn decimal_from_json(text: &str) -> (r: Option<(i128, u32)>)
    ensures
        r == read_cost(text@),
        match r {
            Some(parts) => -MAX_COEFFICIENT <= parts.0 <= MAX_COEFFICIENT && parts.1 <= MAX_SCALE,
            None => true,
        },
        forall|coefficient: i128, scale: u32|
            -MAX_COEFFICIENT <= coefficient <= MAX_COEFFICIENT && scale <= MAX_SCALE && text@ == #[trigger] printed(
                JsonView::Text(cost_text(coefficient as int, scale as nat, scale as nat)),
            ) ==> r == Some((coefficient, scale)),
{
    serde_json::from_str::<rust_decimal::Decimal>(text).ok().map(|d| (d.mantissa(), d.scale()))
}

/// A character of a number.
pub open spec fn is_digit(c: char) -> bool {
    '0' <= c <= '9'
}

/// All characters are digits.
pub open spec fn all_digits(s: Seq<char>) -> bool {
    forall|i: int| 0 <= i < s.len() ==> is_digit(#[trigger] s[i])
}

/// The number that digits stand for.
pub open spec fn value_of_digits(s: Seq<char>) -> int
    decreases s.len(),
{
    if s.len() == 0 {
        0
    } else {
        10 * value_of_digits(s.drop_last()) + (s.last() as int - '0' as int)
    }
}

/// The digits of a number are digits, and stand for it.
proof fn lemma_decimal_value(n: nat)
    ensures
        all_digits(decimal(n)),
        value_of_digits(decimal(n)) == n,
        decimal(n).len() > 0,
    decreases n,
{
    let digit = ('0' as u32 + (n % 10)) as char;
    assert(digit as int == '0' as int + n % 10);
    if n < 10 {
        assert(decimal(n).drop_last() =~= Seq::empty());
        assert(value_of_digits(Seq::empty()) == 0);
    } else {
        lemma_decimal_value(n / 10);
        assert(decimal(n).drop_last() =~= decimal(n / 10));
        assert forall|i: int| 0 <= i < decimal(n).len() implies is_digit(#[trigger] decimal(n)[i]) by {
            if i < decimal(n).len() - 1 {
                assert(is_digit(decimal(n / 10)[i]));
            }
        }
    }
}

/// Zeros in front do not change a number.
proof fn lemma_leading_zeros(zeros: Seq<char>, s: Seq<char>)
    requires
        forall|i: int| 0 <= i < zeros.len() ==> #[trigger] zeros[i] == '0',
    ensures
        value_of_digits(zeros + s) == value_of_digits(s),
    decreases s.len(), zeros.len(),
{
    if s.len() > 0 {
        assert((zeros + s).drop_last() =~= zeros + s.drop_last());
        lemma_leading_zeros(zeros, s.drop_last());
    } else if zeros.len() > 0 {
        assert(zeros + s =~= zeros);
        assert(zeros.drop_last() + s =~= zeros.drop_last());
        lemma_leading_zeros(zeros.drop_last(), s);
    } else {
        assert(zeros + s =~= s);
    }
}

/// The padded digits of a number are digits, and stand for it.
proof fn lemma_padded_value(n: nat, width: nat)
    ensures
        all_digits(padded(n, width)),
        value_of_digits(padded(n, width)) == n,
        padded(n, width).len() >= width,
{
    lemma_decimal_value(n);
    let digits = if n == 0 {
        Seq::empty()
    } else {
        decimal(n)
    };
    assert(value_of_digits(digits) == n);
    if digits.len() < width {
        let zeros = Seq::new((width - digits.len()) as nat, |i: int| '0');
        lemma_leading_zeros(zeros, digits);
    }
}

/// The parts of the text of a cost: its sign, its digits before the point and those behind
/// it, which stand for the number of units.
proof fn lemma_cost_parts(coefficient: int, scale: nat) -> (parts: (Seq<char>, Seq<char>, Seq<char>))
    ensures
        cost_text(coefficient, scale, scale) == parts.0 + parts.1 + (if scale == 0 {
            Seq::empty()
        } else {
            seq!['.'] + parts.2
        }),
        parts.0 == (if coefficient < 0 {
            seq!['-']
        } else {
            Seq::empty()
        }),
        parts.1.len() > 0,
        all_digits(parts.1),
        all_digits(parts.2),
        parts.2.len() == scale,
        value_of_digits(parts.1 + parts.2) == size_of_int(coefficient),
{
    let digits = padded(size_of_int(coefficient), scale);
    lemma_padded_value(size_of_int(coefficient), scale);
    let whole = digits.take(digits.len() - scale);
    let frac = digits.skip(digits.len() - scale);
    let sign: Seq<char> = if coefficient < 0 {
        seq!['-']
    } else {
        Seq::empty()
    };
    let front = if whole.len() == 0 {
        seq!['0']
    } else {
        whole
    };
    assert(whole + frac =~= digits);
    if whole.len() == 0 {
        assert(frac =~= digits);
        lemma_leading_zeros(seq!['0'], frac);
    }
    assert(cut_or_fill(frac, scale) =~= frac);
    assert(cost_text(coefficient, scale, scale) =~= sign + front + (if scale == 0 {
        Seq::empty()
    } else {
        seq!['.'] + frac
    }));
    (sign, front, frac)
}

/// A text that two costs are written as ends in as many places as the first one has.
proof fn lemma_same_places(a: int, a_scale: nat, b: int, b_scale: nat)
    requires
        cost_text(a, a_scale, a_scale) == cost_text(b, b_scale, b_scale),
    ensures
        a_scale <= b_scale,
{
    let text = cost_text(a, a_scale, a_scale);
    let x = lemma_cost_parts(a, a_scale);
    let y = lemma_cost_parts(b, b_scale);
    if a_scale > b_scale {
        let at = text.len() - 1 - a_scale;
        assert(text[at] == '.');
        let head = y.0 + y.1;
        if at < head.len() {
            if at >= y.0.len() {
                assert(is_digit(y.1[at - y.0.len()]));
            }
            assert(false);
        }
    }
}

/// Two costs that are written alike are alike.
proof fn lemma_same_cost(a: int, a_scale: nat, b: int, b_scale: nat)
    requires
        cost_text(a, a_scale, a_scale) == cost_text(b, b_scale, b_scale),
    ensures
        a == b,
        a_scale == b_scale,
{
    lemma_same_places(a, a_scale, b, b_scale);
    lemma_same_places(b, b_scale, a, a_scale);
    let text = cost_text(a, a_scale, a_scale);
    let x = lemma_cost_parts(a, a_scale);
    let y = lemma_cost_parts(b, b_scale);
    assert(is_digit(x.1[0]) && is_digit(y.1[0]));
    assert(x.0.len() == 0 ==> text[0] == x.1[0]);
    assert(y.0.len() == 0 ==> text[0] == y.1[0]);
    assert(x.0.len() > 0 ==> text[0] == '-');
    assert(y.0.len() > 0 ==> text[0] == '-');
    assert(x.0 =~= y.0);
    let tail: nat = if a_scale == 0 {
        0
    } else {
        a_scale + 1
    };
    assert(x.1 =~= text.subrange(x.0.len() as int, text.len() - tail));
    assert(y.1 =~= text.subrange(y.0.len() as int, text.len() - tail));
    assert(x.2 =~= text.skip(text.len() - a_scale));
    assert(y.2 =~= text.skip(text.len() - a_scale));
}

/// A cost that can be written: no larger and no finer than costs are.
pub open spec fn fits(c: Cost) -> bool {
    -MAX_COEFFICIENT <= c.units() <= MAX_COEFFICIENT && c.places() <= MAX_SCALE
}

/// The value is the text that the cost is written as.
pub open spec fn is_cost(json: JsonView, c: Cost) -> bool {
    fits(c) && json == JsonView::Text(cost_text(c.units(), c.places(), c.places()))
}

/// A cost is written as a text, with as many places as it has, and read from a text or a
/// number.
impl Coded for Cost {
    open spec fn stable(v: Cost) -> bool {
        fits(v)
    }

    open spec fn enc(v: Cost) -> JsonView {
        JsonView::Text(cost_text(v.units(), v.places(), v.places()))
    }

    open spec fn dec(json: JsonView) -> Option<Cost> {
        if exists|c: Cost| is_cost(json, c) {
            Some(choose|c: Cost| is_cost(json, c))
        } else {
            match read_cost(printed(json)) {
                Some(parts) => Some(cost_of(parts.0, parts.1)),
                None => None,
            }
        }
    }

    open spec fn complaint(json: JsonView) -> Seq<char> {
        "expected a decimal number"@
    }

    proof fn round_trip(v: Cost) {
        let json = Self::enc(v);
        assert(is_cost(json, v));
        let c = choose|c: Cost| is_cost(json, c);
        lemma_same_cost(v.units(), v.places(), c.units(), c.places());
    }

    fn to_json(&self) -> (r: Json) {
        Json::Text(self.to_string())
    }

    fn read(json: &Json) -> (r: Option<Self>) {
        let text = print_json(json);
        let parts = decimal_from_json(text.as_str());
        let r = match parts {
            Some(parts) => Cost::from_parts(parts.0, parts.1),
            None => None,
        };
        proof {
            if exists|c: Cost| is_cost(json@, c) {
                let c = choose|c: Cost| is_cost(json@, c);
                assert(text@ == printed(JsonView::Text(cost_text(c.coefficient as int, c.scale as nat, c.scale as nat))));
                assert(parts == Some((c.coefficient, c.scale)));
            }
        }
        r
    }

    fn complain(json: &Json) -> (r: String) {
        copy("expected a decimal number")
    }
}

// ---- Budgets -----------------------------------------------------------------

/// Resource budget assigned to an agent at creation.
/// Checked before each operation, not after.
#[derive(Debug, Clone, Copy)]
pub struct ResourceBudget {
    pub max_tokens: u64,
    pub max_turns: u32,
    pub max_cost: Cost,
    pub max_sub_agents: u32,
    pub max_vfs_bytes: u64,
    pub used_tokens: u64,
    pub used_turns: u32,
    pub used_cost: Cost,
    pub used_sub_agents: u32,
    pub used_vfs_bytes: u64,
    pub max_fuel: u64,
    pub used_fuel: u64,
}

/// Which resource is used up, how much of it was used, and how much there was.
#[derive(Debug, Clone)]
pub struct BudgetExhausted {
    pub resource: String,
    pub used: String,
    pub limit: String,
}

/// What a [`BudgetExhausted`] says.
#[verifier::ext_equal]
pub struct ExhaustedView {
    pub resource: Seq<char>,
    pub used: Seq<char>,
    pub limit: Seq<char>,
}

impl View for BudgetExhausted {
    type V = ExhaustedView;

    open spec fn view(&self) -> ExhaustedView {
        ExhaustedView { resource: self.resource@, used: self.used@, limit: self.limit@ }
    }
}

/// The text of a [`BudgetExhausted`].
pub open spec fn exhausted_message(e: ExhaustedView) -> Seq<char> {
    "budget exhausted: "@ + e.resource + " — used "@ + e.used + ", limit "@ + e.limit
}

impl BudgetExhausted {
    /// What the error says.
    pub fn to_string(&self) -> (r: String)
        ensures
            r@ == exhausted_message(self@),
    {
        let mut r = copy("budget exhausted: ");
        r.append(self.resource.as_str());
        r.append(" — used ");
        r.append(self.used.as_str());
        r.append(", limit ");
        r.append(self.limit.as_str());
        r
    }
}

/// A counted resource is used up: it has a limit, and no less than that is used.
pub open spec fn spent(used: int, limit: int) -> bool {
    limit > 0 && used >= limit
}

/// The cost is used up.
pub open spec fn cost_spent(budget: ResourceBudget) -> bool {
    budget.max_cost.units() != 0 && worth_at_least(
        budget.used_cost.units(),
        budget.used_cost.places(),
        budget.max_cost.units(),
        budget.max_cost.places(),
    )
}

/// What is said of a counted resource that is used up.
pub open spec fn count_exhausted(resource: Seq<char>, used: nat, limit: nat) -> ExhaustedView {
    ExhaustedView { resource, used: decimal(used), limit: decimal(limit) }
}

/// The first resource that is used up.
pub open spec fn exhausted(budget: ResourceBudget) -> Option<ExhaustedView> {
    if spent(budget.used_tokens as int, budget.max_tokens as int) {
        Some(count_exhausted("tokens"@, budget.used_tokens as nat, budget.max_tokens as nat))
    } else if spent(budget.used_turns as int, budget.max_turns as int) {
        Some(count_exhausted("turns"@, budget.used_turns as nat, budget.max_turns as nat))
    } else if cost_spent(budget) {
        Some(
            ExhaustedView {
                resource: "cost"@,
                used: cost_text(budget.used_cost.units(), budget.used_cost.places(), budget.used_cost.places()),
                limit: cost_text(budget.max_cost.units(), budget.max_cost.places(), budget.max_cost.places()),
            },
        )
    } else if spent(budget.used_sub_agents as int, budget.max_sub_agents as int) {
        Some(count_exhausted("sub_agents"@, budget.used_sub_agents as nat, budget.max_sub_agents as nat))
    } else if spent(budget.used_vfs_bytes as int, budget.max_vfs_bytes as int) {
        Some(count_exhausted("vfs_bytes"@, budget.used_vfs_bytes as nat, budget.max_vfs_bytes as nat))
    } else if spent(budget.used_fuel as int, budget.max_fuel as int) {
        Some(count_exhausted("fuel"@, budget.used_fuel as nat, budget.max_fuel as nat))
    } else {
        None
    }
}

/// What a check of a budget gives, over views.
pub open spec fn budget_out(r: Result<(), BudgetExhausted>) -> Option<ExhaustedView> {
    match r {
        Ok(()) => None,
        Err(e) => Some(e@),
    }
}

fn count_error(resource: &str, used: u64, limit: u64) -> (r: Result<(), BudgetExhausted>)
    ensures
        budget_out(r) == Some(count_exhausted(resource@, used as nat, limit as nat)),
{
    Err(BudgetExhausted { resource: copy(resource), used: number(used), limit: number(limit) })
}

impl ResourceBudget {
    /// A budget of which nothing is used, without limits on filesystem bytes and fuel.
    pub fn new(max_tokens: u64, max_turns: u32, max_cost: Cost, max_sub_agents: u32) -> (r: Self)
        ensures
            r.max_tokens == max_tokens,
            r.max_turns == max_turns,
            r.max_cost == max_cost,
            r.max_sub_agents == max_sub_agents,
            r.max_vfs_bytes == 0 && r.max_fuel == 0,
            r.used_tokens == 0 && r.used_turns == 0 && r.used_sub_agents == 0,
            r.used_vfs_bytes == 0 && r.used_fuel == 0,
            r.used_cost.units() == 0 && r.used_cost.places() == 0,
    {
        ResourceBudget {
            max_tokens,
            max_turns,
            max_cost,
            max_sub_agents,
            max_vfs_bytes: 0,
            used_tokens: 0,
            used_turns: 0,
            used_cost: Cost::zero(),
            used_sub_agents: 0,
            used_vfs_bytes: 0,
            max_fuel: 0,
            used_fuel: 0,
        }
    }

    /// Check all budget limits. `Ok` if under all limits, or the resource that was
    /// exhausted. A limit of 0 means unlimited.
    pub fn check_budget(&self) -> (r: Result<(), BudgetExhausted>)
        ensures
            budget_out(r) == exhausted(*self),
            r is Ok <==> exhausted(*self) is None,
    {
        if self.max_tokens > 0 && self.used_tokens >= self.max_tokens {
            return count_error("tokens", self.used_tokens, self.max_tokens);
        }
        if self.max_turns > 0 && self.used_turns >= self.max_turns {
            return count_error("turns", self.used_turns as u64, self.max_turns as u64);
        }
        if !self.max_cost.is_zero() && self.used_cost.at_least(&self.max_cost) {
            return Err(
                BudgetExhausted {
                    resource: copy("cost"),
                    used: self.used_cost.to_string(),
                    limit: self.max_cost.to_string(),
                },
            );
        }
        if self.max_sub_agents > 0 && self.used_sub_agents >= self.max_sub_agents {
            return count_error("sub_agents", self.used_sub_agents as u64, self.max_sub_agents as u64);
        }
        if self.max_vfs_bytes > 0 && self.used_vfs_bytes >= self.max_vfs_bytes {
            return count_error("vfs_bytes", self.used_vfs_bytes, self.max_vfs_bytes);
        }
        if self.max_fuel > 0 && self.used_fuel >= self.max_fuel {
            return count_error("fuel", self.used_fuel, self.max_fuel);
        }
        Ok(())
    }
}

// ---- Laws --------------------------------------------------------------------

/// A budget whose limits are all 0 is never exhausted.
pub proof fn zero_limits_are_no_limits(budget: ResourceBudget)
    requires
        budget.max_tokens == 0 && budget.max_turns == 0 && budget.max_cost.units() == 0,
        budget.max_sub_agents == 0 && budget.max_vfs_bytes == 0 && budget.max_fuel == 0,
    ensures
        exhausted(budget) is None,
{
}

/// `b` is a later state of `a`: the limits are the same, and no less is used.
pub open spec fn later(a: ResourceBudget, b: ResourceBudget) -> bool {
    &&& b.max_tokens == a.max_tokens && b.max_turns == a.max_turns && b.max_cost == a.max_cost
    &&& b.max_sub_agents == a.max_sub_agents && b.max_vfs_bytes == a.max_vfs_bytes && b.max_fuel == a.max_fuel
    &&& b.used_tokens >= a.used_tokens && b.used_turns >= a.used_turns
    &&& worth_at_least(b.used_cost.units(), b.used_cost.places(), a.used_cost.units(), a.used_cost.places())
    &&& b.used_sub_agents >= a.used_sub_agents && b.used_vfs_bytes >= a.used_vfs_bytes
    &&& b.used_fuel >= a.used_fuel
}

proof fn lemma_ten_to_positive(n: nat)
    ensures
        ten_to(n) > 0,
    decreases n,
{
    if n > 0 {
        lemma_ten_to_positive((n - 1) as nat);
    }
}

proof fn lemma_worth_transitive(a: int, x: nat, b: int, y: nat, c: int, z: nat)
    requires
        worth_at_least(a, x, b, y),
        worth_at_least(b, y, c, z),
    ensures
        worth_at_least(a, x, c, z),
{
    lemma_ten_to_positive(x);
    lemma_ten_to_positive(y);
    lemma_ten_to_positive(z);
    let (p, q, r) = (ten_to(x), ten_to(y), ten_to(z));
    assert(a * q * r >= b * p * r) by (nonlinear_arith)
        requires
            a * q >= b * p,
            r > 0,
    ;
    assert(b * r * p >= c * q * p) by (nonlinear_arith)
        requires
            b * r >= c * q,
            p > 0,
    ;
    assert((a * r - c * p) * q >= 0) by (nonlinear_arith)
        requires
            a * q * r >= b * p * r,
            b * r * p >= c * q * p,
    ;
    assert(a * r >= c * p) by (nonlinear_arith)
        requires
            (a * r - c * p) * q >= 0,
            q > 0,
    ;
}

/// Using more never brings an exhausted budget back.
pub proof fn exhaustion_is_final(a: ResourceBudget, b: ResourceBudget)
    requires
        later(a, b),
        exhausted(a) is Some,
    ensures
        exhausted(b) is Some,
{
    if cost_spent(a) {
        lemma_worth_transitive(
            b.used_cost.units(),
            b.used_cost.places(),
            a.used_cost.units(),
            a.used_cost.places(),
            a.max_cost.units(),
            a.max_cost.places(),
        );
    }
}

/// The two ways to say a power of ten.
pub proof fn lemma_ten_to(n: nat)
    ensures
        ten_to(n) == pow(10, n),
    decreases n,
{
    reveal(pow);
    if n > 0 {
        lemma_ten_to((n - 1) as nat);
    }
}

/// A check passes exactly where every limit holds: each counted resource has no limit, or
/// less of it is used, and the cost has no limit, or what was spent is worth less.
pub proof fn a_check_passes_where_every_limit_holds(b: ResourceBudget)
    ensures
        exhausted(b) is None <==> {
            &&& b.max_tokens == 0 || b.used_tokens < b.max_tokens
            &&& b.max_turns == 0 || b.used_turns < b.max_turns
            &&& b.max_sub_agents == 0 || b.used_sub_agents < b.max_sub_agents
            &&& b.max_vfs_bytes == 0 || b.used_vfs_bytes < b.max_vfs_bytes
            &&& b.max_fuel == 0 || b.used_fuel < b.max_fuel
            &&& b.max_cost.units() == 0 || b.used_cost.units() * pow(10, b.max_cost.places()) < b.max_cost.units()
                * pow(10, b.used_cost.places())
        },
{
    lemma_ten_to(b.max_cost.places());
    lemma_ten_to(b.used_cost.places());
}

/// The text is the number in decimal digits, without zeros in front.
pub open spec fn spells(text: Seq<char>, n: int) -> bool {
    &&& all_digits(text)
    &&& text.len() > 0
    &&& value_of_digits(text) == n
    &&& text.len() > 1 ==> text[0] != '0'
}

proof fn lemma_decimal_spells(n: nat)
    ensures
        spells(decimal(n), n as int),
        n > 0 ==> decimal(n)[0] != '0',
    decreases n,
{
    lemma_decimal_value(n);
    let digit = ('0' as u32 + (n % 10)) as char;
    assert(digit as int == '0' as int + n % 10);
    if n >= 10 {
        lemma_decimal_spells(n / 10);
        lemma_decimal_value(n / 10);
        assert(decimal(n)[0] == decimal(n / 10)[0]);
    }
}

/// A refusal names a resource that has a limit and of which no less is used, with what was
/// used and what the limit is. Where several are spent, it names the first one in the order of
/// tokens, turns, cost, sub-agents, filesystem bytes and fuel.
pub proof fn a_refusal_names_the_first_spent_resource(b: ResourceBudget)
    ensures
        exhausted(b) matches Some(e) ==> {
            let tokens = b.max_tokens > 0 && b.used_tokens >= b.max_tokens;
            let turns = b.max_turns > 0 && b.used_turns >= b.max_turns;
            let cost = b.max_cost.units() != 0 && b.used_cost.units() * pow(10, b.max_cost.places())
                >= b.max_cost.units() * pow(10, b.used_cost.places());
            let agents = b.max_sub_agents > 0 && b.used_sub_agents >= b.max_sub_agents;
            let bytes = b.max_vfs_bytes > 0 && b.used_vfs_bytes >= b.max_vfs_bytes;
            ||| tokens && e.resource == "tokens"@ && spells(e.used, b.used_tokens as int) && spells(
                e.limit,
                b.max_tokens as int,
            )
            ||| !tokens && turns && e.resource == "turns"@ && spells(e.used, b.used_turns as int) && spells(
                e.limit,
                b.max_turns as int,
            )
            ||| !tokens && !turns && cost && e.resource == "cost"@ && e.used == cost_text(
                b.used_cost.units(),
                b.used_cost.places(),
                b.used_cost.places(),
            ) && e.limit == cost_text(b.max_cost.units(), b.max_cost.places(), b.max_cost.places())
            ||| !tokens && !turns && !cost && agents && e.resource == "sub_agents"@ && spells(
                e.used,
                b.used_sub_agents as int,
            ) && spells(e.limit, b.max_sub_agents as int)
            ||| !tokens && !turns && !cost && !agents && bytes && e.resource == "vfs_bytes"@ && spells(
                e.used,
                b.used_vfs_bytes as int,
            ) && spells(e.limit, b.max_vfs_bytes as int)
            ||| !tokens && !turns && !cost && !agents && !bytes && b.max_fuel > 0 && b.used_fuel >= b.max_fuel
                && e.resource == "fuel"@ && spells(e.used, b.used_fuel as int) && spells(e.limit, b.max_fuel as int)
        },
{
    lemma_ten_to(b.max_cost.places());
    lemma_ten_to(b.used_cost.places());
    lemma_decimal_spells(b.used_tokens as nat);
    lemma_decimal_spells(b.max_tokens as nat);
    lemma_decimal_spells(b.used_turns as nat);
    lemma_decimal_spells(b.max_turns as nat);
    lemma_decimal_spells(b.used_sub_agents as nat);
    lemma_decimal_spells(b.max_sub_agents as nat);
    lemma_decimal_spells(b.used_vfs_bytes as nat);
    lemma_decimal_spells(b.max_vfs_bytes as nat);
    lemma_decimal_spells(b.used_fuel as nat);
    lemma_decimal_spells(b.max_fuel as nat);
}

/// A cost is written as a sign where it is below zero, digits, and where it has places a point
/// and as many digits: together the digits stand for its units.
pub proof fn costs_are_written_out(units: int, places: nat) -> (parts: (Seq<char>, Seq<char>))
    ensures
        cost_text(units, places, places) == (if units < 0 {
            seq!['-']
        } else {
            Seq::empty()
        }) + parts.0 + (if places == 0 {
            Seq::empty()
        } else {
            seq!['.'] + parts.1
        }),
        parts.0.len() > 0,
        all_digits(parts.0),
        all_digits(parts.1),
        parts.1.len() == places,
        value_of_digits(parts.0 + parts.1) == (if units < 0 {
            -units
        } else {
            units
        }),
{
    let parts = lemma_cost_parts(units, places);
    (parts.1, parts.2)
}

/// With fewer places a cost is cut off and not rounded, with more it gets zeros behind.
pub proof fn costs_are_cut_and_filled(units: int, places: nat, wanted: nat)
    ensures
        0 < wanted <= places ==> cost_text(units, places, wanted) == cost_text(units, places, places).take(
            cost_text(units, places, places).len() - (places - wanted),
        ),
        wanted == 0 && places > 0 ==> cost_text(units, places, wanted) == cost_text(units, places, places).take(
            cost_text(units, places, places).len() - places - 1,
        ),
        0 < places <= wanted ==> cost_text(units, places, wanted) == cost_text(units, places, places) + Seq::new(
            (wanted - places) as nat,
            |i: int| '0',
        ),
        places == 0 && wanted > 0 ==> cost_text(units, places, wanted) == cost_text(units, places, places) + seq!['.']
            + Seq::new(wanted, |i: int| '0'),
{
    let digits = padded(size_of_int(units), places);
    lemma_padded_value(size_of_int(units), places);
    let frac = digits.skip(digits.len() - places);
    assert(frac.len() == places);
    let full = cost_text(units, places, places);
    let other = cost_text(units, places, wanted);
    if 0 < wanted <= places {
        assert(other =~= full.take(full.len() - (places - wanted)));
    }
    if wanted == 0 && places > 0 {
        assert(other =~= full.take(full.len() - places - 1));
    }
    if 0 < places <= wanted {
        assert(other =~= full + Seq::new((wanted - places) as nat, |i: int| '0'));
    }
    if places == 0 && wanted > 0 {
        assert(other =~= full + seq!['.'] + Seq::new(wanted, |i: int| '0'));
    }
}

} // verus!
