use rand_distr::num_traits::clamp;
use vstd::prelude::*;

use crate::keys::{digit_key, digit_to_key, key_digit, KeyKind};

verus! {

/// Smallest amount that can be typed.
pub const MIN_AMOUNT: u32 = 1;

/// Largest amount that can be typed.
pub const MAX_AMOUNT: u32 = 20;

/// A key of the plan is typed only on ticks that are multiples of this.
pub const TYPE_INTERVAL: u32 = 10;

/// Keystrokes that type a requested amount, and how many were sent.
#[derive(Debug)]
pub struct ExchangeAmount {
    /// Number of keys of the plan already sent.
    pub index: usize,
    /// Two backspaces, then the decimal digits of the amount.
    pub keys: Vec<KeyKind>,
}

/// The mathematical content of an [`ExchangeAmount`].
pub struct AmountView {
    pub index: nat,
    pub keys: Seq<KeyKind>,
}

impl View for ExchangeAmount {
    type V = AmountView;

    open spec fn view(&self) -> AmountView {
        AmountView { index: self.index as nat, keys: self.keys@ }
    }
}

/// The view of an optional plan.
pub open spec fn option_view(a: Option<ExchangeAmount>) -> Option<AmountView> {
    match a {
        Some(a) => Some(a@),
        None => None,
    }
}

/// `n` brought into the typeable range.
pub open spec fn clamped(n: int) -> int {
    if n < MIN_AMOUNT {
        MIN_AMOUNT as int
    } else if n > MAX_AMOUNT {
        MAX_AMOUNT as int
    } else {
        n
    }
}

/// The digit keys of `n` written in decimal, most significant first.
pub open spec fn decimal_keys(n: nat) -> Seq<KeyKind>
    decreases n,
{
    if n < 10 {
        seq![digit_key(n as int)]
    } else {
        decimal_keys(n / 10).push(digit_key((n % 10) as int))
    }
}

/// The number that a sequence of digit keys spells in decimal; a key that
/// is no digit counts as zero.
pub open spec fn decode_digits(s: Seq<KeyKind>) -> int
    decreases s.len(),
{
    if s.len() == 0 {
        0
    } else {
        10 * decode_digits(s.drop_last()) + match key_digit(s.last()) {
            Some(d) => d,
            None => 0,
        }
    }
}

/// The keys that type `requested`: two backspaces clear the input box, then
/// the digits of the clamped amount.
pub open spec fn planned_keys(requested: u32) -> Seq<KeyKind> {
    seq![KeyKind::Backspace, KeyKind::Backspace] + decimal_keys(clamped(requested as int) as nat)
}

/// The plan for a request: none when the maximum is wanted, else the keys
/// of the clamped amount with nothing sent yet.
pub open spec fn amount_plan(requested: u32, use_maximum: bool) -> Option<AmountView> {
    if use_maximum {
        None
    } else {
        Some(AmountView { index: 0, keys: planned_keys(requested) })
    }
}

/// Relies on num_traits::clamp (re-exported by rand_distr): `min` below it,
/// `max` above it, the input otherwise; it debug-asserts `min <= max`.
#[verifier::external_body]
fn clamp_u32(input: u32, min: u32, max: u32) -> (r: u32)
    requires
        min <= max,
    ensures
        r == if input < min {
            min
        } else if input > max {
            max
        } else {
            input
        },
{
    clamp(input, min, max)
}

impl ExchangeAmount {
    /// The plan that types `amount` (clamped into the typeable range), or
    /// none when `all` asks for the maximum instead.
    pub fn build(amount: u32, all: bool) -> (r: Option<ExchangeAmount>)
        ensures
            option_view(r) == amount_plan(amount, all),
    {
        if all {
            return None;
        }
        let n = clamp_u32(amount, MIN_AMOUNT, MAX_AMOUNT);
        let mut keys: Vec<KeyKind> = Vec::new();
        keys.push(KeyKind::Backspace);
        keys.push(KeyKind::Backspace);
        if n >= 10 {
            keys.push(digit_to_key(n / 10));
        }
        keys.push(digit_to_key(n % 10));
        proof {
            let d = decimal_keys(n as nat);
            if n >= 10 {
                assert(decimal_keys((n / 10) as nat) == seq![digit_key((n / 10) as int)]);
                assert(d == seq![digit_key((n / 10) as int), digit_key((n % 10) as int)]);
            } else {
                assert(d == seq![digit_key(n as int)]);
            }
            assert(keys@ == planned_keys(amount));
        }
        Some(ExchangeAmount { index: 0, keys })
    }

    /// The plan with one more key marked as sent.
    pub fn increment_index(self) -> (r: ExchangeAmount)
        requires
            self.index < self.keys.len(),
        ensures
            r@ == (AmountView { index: self@.index + 1, keys: self@.keys }),
    {
        let mut a = self;
        a.index = a.index + 1;
        a
    }
}

proof fn lemma_decode_decimal_keys(n: nat)
    ensures
        decode_digits(decimal_keys(n)) == n,
        1 <= decimal_keys(n).len(),
        n < 10 ==> decimal_keys(n).len() == 1,
        10 <= n < 100 ==> decimal_keys(n).len() == 2,
    decreases n,
{
    let s = decimal_keys(n);
    if n < 10 {
        assert(s.drop_last() =~= Seq::<KeyKind>::empty());
        assert(decode_digits(s.drop_last()) == 0);
        lemma_digit_round_trip(n as int);
    } else {
        lemma_decode_decimal_keys(n / 10);
        assert(s.drop_last() =~= decimal_keys(n / 10));
        lemma_digit_round_trip((n % 10) as int);
    }
}

proof fn lemma_digit_round_trip(d: int)
    requires
        0 <= d < 10,
    ensures
        key_digit(digit_key(d)) == Some(d),
{
}

/// For every request in the typeable range, the plan holds three or four
/// keys: two backspaces, then digit keys that spell the request in decimal.
pub proof fn lemma_plan_spells_request(requested: u32)
    requires
        MIN_AMOUNT <= requested <= MAX_AMOUNT,
    ensures
        amount_plan(requested, false) is Some,
        ({
            let keys = amount_plan(requested, false)->Some_0.keys;
            &&& keys.len() == 3 || keys.len() == 4
            &&& keys[0] == KeyKind::Backspace
            &&& keys[1] == KeyKind::Backspace
            &&& decode_digits(keys.skip(2)) == requested
        }),
{
    let keys = planned_keys(requested);
    lemma_decode_decimal_keys(requested as nat);
    assert(keys.skip(2) =~= decimal_keys(requested as nat));
}

/// A request below the range is planned as the smallest amount, one above
/// it as the largest.
pub proof fn lemma_plan_clamps(requested: u32)
    ensures
        requested < MIN_AMOUNT ==> amount_plan(requested, false) == amount_plan(MIN_AMOUNT, false),
        requested > MAX_AMOUNT ==> amount_plan(requested, false) == amount_plan(MAX_AMOUNT, false),
{
}

/// Asking for the maximum gives no plan, whatever amount is given.
pub proof fn lemma_maximum_has_no_plan(requested: u32)
    ensures
        amount_plan(requested, true) is None,
{
}

/// Every plan holds three or four keys.
pub proof fn lemma_plan_length(requested: u32)
    ensures
        3 <= planned_keys(requested).len() <= 4,
{
    lemma_decode_decimal_keys(clamped(requested as int) as nat);
}

} // verus!
