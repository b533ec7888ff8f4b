//! Amounts in the smallest currency unit, at the chain's native width of
//! 256 bits, and the signed difference of two of them.

use vstd::prelude::*;
use vstd::string::*;
use alloy::primitives::utils::format_ether;
use alloy::primitives::U256;

verus! {

/// The number that four limbs stand for, least significant limb first:
/// their weights are the powers of two to the 64th.
pub open spec fn limbs_value(w0: u64, w1: u64, w2: u64, w3: u64) -> nat {
    (w0 + 0x1_0000_0000_0000_0000nat * w1
        + 0x1_0000_0000_0000_0000_0000_0000_0000_0000nat * w2
        + 0x1_0000_0000_0000_0000_0000_0000_0000_0000_0000_0000_0000_0000nat * w3) as nat
}

/// The number of smallest units in one unit of the currency: ten to the
/// power of 18.
pub open spec fn wei_per_ether() -> nat {
    1_000_000_000_000_000_000
}

/// The character of a decimal digit.
pub open spec fn digit_char(digit: nat) -> char {
    ('0' as nat + digit) as char
}

/// The decimal notation of `n`, without leading zeros.
pub open spec fn decimal_text(n: nat) -> Seq<char>
    decreases n,
{
    if n < 10 {
        seq![digit_char(n)]
    } else {
        decimal_text(n / 10).push(digit_char(n % 10))
    }
}

/// `digits` with zeros put in front until it is `width` characters long.
pub open spec fn zero_padded(digits: Seq<char>, width: nat) -> Seq<char> {
    if digits.len() >= width {
        digits
    } else {
        Seq::new((width - digits.len()) as nat, |i: int| '0') + digits
    }
}

/// An amount of smallest units written in whole units: the whole part, a
/// point, and all 18 decimals.
pub open spec fn ether_text(wei: nat) -> Seq<char> {
    decimal_text(wei / wei_per_ether()) + seq!['.'] + zero_padded(
        decimal_text(wei % wei_per_ether()),
        18,
    )
}

/// The decimal notation of a signed number: a minus sign in front of a
/// negative one.
pub open spec fn signed_decimal_text(n: int) -> Seq<char> {
    if n < 0 {
        seq!['-'] + decimal_text((-n) as nat)
    } else {
        decimal_text(n as nat)
    }
}

/// An unsigned 256-bit amount of the smallest currency unit, held as four
/// 64-bit limbs, least significant first.
#[derive(Clone, Copy, Debug, PartialEq, Eq, Structural)]
pub struct Wei {
    pub w0: u64,
    pub w1: u64,
    pub w2: u64,
    pub w3: u64,
}

impl View for Wei {
    type V = nat;

    open spec fn view(&self) -> nat {
        limbs_value(self.w0, self.w1, self.w2, self.w3)
    }
}

/// Formats the amount with `U256`'s `Display`, after building the `U256`
/// from the four limbs with `from_limbs`, which takes them least
/// significant first. The contract claims that the text is the plain
/// decimal notation of the amount.
#[verifier::external_body]
fn uint_to_string(amount: &Wei) -> (text: String)
    ensures
        text@ == decimal_text(amount@),
{
    U256::from_limbs([amount.w0, amount.w1, amount.w2, amount.w3]).to_string()
}

/// Formats the amount with `alloy::primitives::utils::format_ether`, after
/// building the `U256` as above. The contract claims what the function's
/// source shows: the amount divided by ten to the 18th in decimal, a point,
/// and the remainder in decimal, padded with zeros to 18 digits.
#[verifier::external_body]
fn uint_format_ether(amount: &Wei) -> (text: String)
    ensures
        text@ == ether_text(amount@),
{
    format_ether(U256::from_limbs([amount.w0, amount.w1, amount.w2, amount.w3]))
}

/// One limb of a subtraction: `a - b - borrow_in`, with a borrow out
/// where that is negative.
fn sub_limb(a: u64, b: u64, borrow_in: bool) -> (r: (u64, bool))
    ensures
        r.0 as int == a - b - (if borrow_in { 1int } else { 0int }) + (if r.1 {
            0x1_0000_0000_0000_0000int
        } else {
            0int
        }),
{
    let base: u128 = 0x1_0000_0000_0000_0000;
    let taken: u128 = if borrow_in { 1 } else { 0 };
    let raised: u128 = base + (a as u128) - (b as u128) - taken;
    if raised >= base {
        ((raised - base) as u64, false)
    } else {
        (raised as u64, true)
    }
}

impl Wei {
    /// The amount zero.
    pub fn zero() -> (r: Wei)
        ensures
            r@ == 0,
    {
        Wei { w0: 0, w1: 0, w2: 0, w3: 0 }
    }

    /// The amount `value`: every 64-bit amount fits the native width.
    pub fn from_u64(value: u64) -> (r: Wei)
        ensures
            r@ == value,
    {
        Wei { w0: value, w1: 0, w2: 0, w3: 0 }
    }

    /// The amount that four limbs stand for, least significant first.
    pub fn from_limbs(limbs: [u64; 4]) -> (r: Wei)
        ensures
            r@ == limbs_value(limbs[0], limbs[1], limbs[2], limbs[3]),
            r == (Wei { w0: limbs[0], w1: limbs[1], w2: limbs[2], w3: limbs[3] }),
    {
        Wei { w0: limbs[0], w1: limbs[1], w2: limbs[2], w3: limbs[3] }
    }

    /// The four limbs of the amount, least significant first.
    pub fn to_limbs(&self) -> (limbs: [u64; 4])
        ensures
            limbs@ == seq![self.w0, self.w1, self.w2, self.w3],
    {
        let limbs: [u64; 4] = [self.w0, self.w1, self.w2, self.w3];
        assert(limbs@ =~= seq![self.w0, self.w1, self.w2, self.w3]);
        limbs
    }

    /// `self - rhs`, where that is not negative.
    pub fn checked_sub(&self, rhs: &Wei) -> (r: Option<Wei>)
        ensures
            match r {
                Some(difference) => self@ >= rhs@ && difference@ == self@ - rhs@,
                None => self@ < rhs@,
            },
    {
        let r0 = sub_limb(self.w0, rhs.w0, false);
        let r1 = sub_limb(self.w1, rhs.w1, r0.1);
        let r2 = sub_limb(self.w2, rhs.w2, r1.1);
        let r3 = sub_limb(self.w3, rhs.w3, r2.1);
        let difference = Wei { w0: r0.0, w1: r1.0, w2: r2.0, w3: r3.0 };
        assert(difference@ == self@ - rhs@ + (if r3.1 {
            0x1_0000_0000_0000_0000_0000_0000_0000_0000_0000_0000_0000_0000_0000_0000_0000_0000int
        } else {
            0int
        }));
        if r3.1 {
            None
        } else {
            Some(difference)
        }
    }

    /// The amount in decimal notation, in the smallest unit.
    pub fn to_decimal_string(&self) -> (text: String)
        ensures
            text@ == decimal_text(self@),
    {
        uint_to_string(self)
    }

    /// The amount in whole units of the currency, with all 18 decimals.
    pub fn to_ether_string(&self) -> (text: String)
        ensures
            text@ == ether_text(self@),
    {
        uint_format_ether(self)
    }
}

/// The signed difference of two amounts: a sign and a magnitude.
#[derive(Clone, Copy, Debug, PartialEq, Eq, Structural)]
pub struct BalanceDelta {
    pub negative: bool,
    pub magnitude: Wei,
}

impl View for BalanceDelta {
    type V = int;

    open spec fn view(&self) -> int {
        if self.negative {
            -(self.magnitude@ as int)
        } else {
            self.magnitude@ as int
        }
    }
}

impl BalanceDelta {
    /// What a balance changed by between two reads: `after - before`.
    ///
    /// The result is marked negative only where it is below zero.
    pub fn between(before: &Wei, after: &Wei) -> (delta: BalanceDelta)
        ensures
            delta@ == after@ - before@,
            delta.negative <==> after@ < before@,
    {
        match after.checked_sub(before) {
            Some(gained) => BalanceDelta { negative: false, magnitude: gained },
            None => {
                match before.checked_sub(after) {
                    Some(lost) => BalanceDelta { negative: true, magnitude: lost },
                    None => BalanceDelta { negative: false, magnitude: Wei::zero() },
                }
            },
        }
    }

    /// Whether the balance did not change.
    pub fn is_zero(&self) -> (zero: bool)
        ensures
            zero == (self@ == 0),
    {
        self.magnitude.w0 == 0 && self.magnitude.w1 == 0 && self.magnitude.w2 == 0
            && self.magnitude.w3 == 0
    }

    /// The difference in decimal notation, in the smallest unit, with a
    /// minus sign where it is below zero.
    pub fn to_decimal_string(&self) -> (text: String)
        ensures
            text@ == signed_decimal_text(self@),
    {
        let digits = self.magnitude.to_decimal_string();
        if self.negative && !self.is_zero() {
            proof {
                reveal_strlit("-");
                assert("-"@ =~= seq!['-']);
            }
            let mut text = "-".to_owned();
            text.append(digits.as_str());
            text
        } else {
            digits
        }
    }
}

} // verus!
