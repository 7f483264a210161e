//! Exact decimal amounts, held as a signed mantissa and a decimal scale.
use vstd::prelude::*;
use vstd::string::{StrSliceExecFns, StringExecFns};

verus! {

/// Largest mantissa magnitude a decimal can carry (96 bits).
pub const MAX_MANTISSA: i128 = 79228162514264337593543950335;

/// Largest number of digits after the decimal point.
pub const MAX_SCALE: u32 = 28;

/// 10 to the power `n`.
pub open spec fn pow10(n: nat) -> int
    decreases n,
{
    if n == 0 {
        1
    } else {
        10 * pow10((n - 1) as nat)
    }
}

/// An exact decimal number `mantissa / 10^scale`.
#[derive(Clone, Copy, Debug, PartialEq, Eq, Structural)]
pub struct Amount {
    pub mantissa: i128,
    pub scale: u32,
}

impl Amount {
    /// The ranges a decimal value can take.
    pub open spec fn wf(self) -> bool {
        &&& -MAX_MANTISSA <= self.mantissa <= MAX_MANTISSA
        &&& self.scale <= MAX_SCALE
    }

    /// The mantissa and the scale.
    pub open spec fn parts(self) -> (i128, u32) {
        (self.mantissa, self.scale)
    }

    /// The mantissa rewritten at a finer scale `s` (with `s >= self.scale`).
    pub open spec fn at_scale(self, s: nat) -> int {
        self.mantissa * pow10((s - self.scale) as nat)
    }

    /// Builds an amount; `None` when the parts lie outside the decimal ranges.
    pub fn new(mantissa: i128, scale: u32) -> (r: Option<Amount>)
        ensures
            r is Some <==> (Amount { mantissa, scale }).wf(),
            r is Some ==> r->0 == (Amount { mantissa, scale }),
    {
        if scale <= MAX_SCALE && -MAX_MANTISSA <= mantissa && mantissa <= MAX_MANTISSA {
            Some(Amount { mantissa, scale })
        } else {
            None
        }
    }
}

/// The larger of two scales.
pub open spec fn max_scale(a: nat, b: nat) -> nat {
    if a >= b {
        a
    } else {
        b
    }
}

/// `d` denotes exactly `a - b`: written at a common scale, the mantissas agree.
pub open spec fn is_difference(d: Amount, a: Amount, b: Amount) -> bool {
    let s = max_scale(max_scale(a.scale as nat, b.scale as nat), d.scale as nat);
    d.at_scale(s) == a.at_scale(s) - b.at_scale(s)
}

/// The operand sizes for which the decimal library subtracts without any
/// rounding: both mantissas below 2^64, scales at most 19 apart, and the exact
/// difference at the larger scale still below 2^96.
pub open spec fn exact_sub_range(a: Amount, b: Amount) -> bool {
    let s = max_scale(a.scale as nat, b.scale as nat);
    &&& -0x1_0000_0000_0000_0000 < a.mantissa < 0x1_0000_0000_0000_0000
    &&& -0x1_0000_0000_0000_0000 < b.mantissa < 0x1_0000_0000_0000_0000
    &&& a.scale - b.scale <= 19
    &&& b.scale - a.scale <= 19
    &&& -MAX_MANTISSA <= a.at_scale(s) - b.at_scale(s) <= MAX_MANTISSA
}

/// What `rust_decimal` computes for `a - b`, given as mantissa and scale.
pub uninterp spec fn decimal_difference(a: (i128, u32), b: (i128, u32)) -> Option<(i128, u32)>;

/// Relies on `rust_decimal::Decimal::checked_sub`: its result depends on the
/// operands alone, `None` only on overflow; a returned value is a valid
/// decimal; and when both operands fit in 64 bits, their scales differ by at
/// most 19 and the aligned difference fits in 96 bits, the subtraction is
/// exact (the 32-bit and 64-bit paths of its `add_sub_internal` align scales
/// and subtract without rounding).
#[verifier::external_body]
fn decimal_checked_sub(a: Amount, b: Amount) -> (r: Option<Amount>)
    requires
        a.wf(),
        b.wf(),
    ensures
        r is Some <==> decimal_difference(a.parts(), b.parts()) is Some,
        r is Some ==> r->0.wf() && r->0.parts() == decimal_difference(a.parts(), b.parts())->0,
        exact_sub_range(a, b) ==> r is Some && is_difference(r->0, a, b),
{
    let x = rust_decimal::Decimal::from_i128_with_scale(a.mantissa, a.scale);
    let y = rust_decimal::Decimal::from_i128_with_scale(b.mantissa, b.scale);
    x.checked_sub(y).map(|d| Amount { mantissa: d.mantissa(), scale: d.scale() })
}

/// The difference `a - b` as computed by the decimal library: exact
/// whenever the operands lie in `exact_sub_range`.
pub fn checked_difference(a: Amount, b: Amount) -> (r: Option<Amount>)
    requires
        a.wf(),
        b.wf(),
    ensures
        r is Some <==> decimal_difference(a.parts(), b.parts()) is Some,
        r is Some ==> r->0.wf() && r->0.parts() == decimal_difference(a.parts(), b.parts())->0,
        exact_sub_range(a, b) ==> r is Some && is_difference(r->0, a, b),
{
    decimal_checked_sub(a, b)
}

/// The mantissa and scale that `rust_decimal` reads from `s`.
pub uninterp spec fn parsed_decimal(s: Seq<char>) -> Option<(i128, u32)>;

/// Relies on `rust_decimal::Decimal::from_str`: the decimal it reads, if
/// any; a decimal always has a 96-bit mantissa and a scale of at most 28.
#[verifier::external_body]
fn decimal_from_str(s: &str) -> (r: Option<Amount>)
    ensures
        r is Some <==> parsed_decimal(s@) is Some,
        r is Some ==> r->0.wf() && (r->0.mantissa, r->0.scale) == parsed_decimal(s@)->0,
{
    <rust_decimal::Decimal as std::str::FromStr>::from_str(s).ok().map(|d| Amount { mantissa: d.mantissa(), scale: d.scale() })
}

/// `s` with each decimal comma turned into a point.
pub open spec fn comma_to_point(s: Seq<char>) -> Seq<char> {
    s.map_values(|c: char| if c == ',' { '.' } else { c })
}

/// Reads an amount written with a decimal comma (`1234,56`).
pub fn parse_german_decimal(s: &str) -> (r: Option<Amount>)
    ensures
        r is Some <==> parsed_decimal(comma_to_point(s@)) is Some,
        r is Some ==> r->0.wf() && (r->0.mantissa, r->0.scale) == parsed_decimal(comma_to_point(s@))->0,
{
    let n = s.unicode_len();
    let mut t = String::new();
    let mut i: usize = 0;
    while i < n
        invariant
            n == s@.len(),
            i <= n,
            t@ == comma_to_point(s@.subrange(0, i as int)),
        decreases n - i,
    {
        let c = s.get_char(i);
        let ghost before = t@;
        if c == ',' {
            t.append(".");
            proof {
                reveal_strlit(".");
            }
            assert("."@ =~= seq!['.']);
        } else {
            let piece = s.substring_char(i, i + 1);
            assert(piece@ =~= seq![c]);
            t.append(piece);
        }
        assert(t@ =~= before.push(if c == ',' { '.' } else { c }));
        assert(s@.subrange(0, i + 1) =~= s@.subrange(0, i as int).push(c));
        i = i + 1;
        assert(t@ =~= comma_to_point(s@.subrange(0, i as int)));
    }
    assert(s@.subrange(0, n as int) =~= s@);
    decimal_from_str(t.as_str())
}

} // verus!
