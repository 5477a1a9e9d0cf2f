//! Decimal digits of a count, for a score display that draws one glyph per
//! digit.
use vstd::prelude::*;

verus! {

/// The decimal digits of `number`, most significant first. Zero has no
/// digits.
pub open spec fn digits_of(number: nat) -> Seq<u32>
    decreases number,
{
    if number == 0 {
        Seq::empty()
    } else {
        digits_of(number / 10).push((number % 10) as u32)
    }
}

/// The number that a sequence of decimal digits, most significant first,
/// stands for.
pub open spec fn digits_value(digits: Seq<u32>) -> nat
    decreases digits.len(),
{
    if digits.len() == 0 {
        0
    } else {
        digits_value(digits.drop_last()) * 10 + digits.last() as nat
    }
}

/// Splits a number into its decimal digits, most significant first. Zero
/// gives no digit at all.
pub fn get_digits(number: u64) -> (digits: Vec<u32>)
    ensures
        digits@ == digits_of(number as nat),
{
    let mut rest: u64 = number;
    let mut low: Vec<u32> = Vec::new();
    assert(digits_of(number as nat) =~= digits_of(rest as nat) + low@.reverse());
    while rest != 0
        invariant
            digits_of(number as nat) == digits_of(rest as nat) + low@.reverse(),
        decreases rest,
    {
        let digit: u32 = (rest % 10) as u32;
        proof {
            let grown = low@.push(digit);
            assert(grown.reverse() =~= seq![digit] + low@.reverse());
            assert(digits_of(rest as nat) == digits_of((rest / 10) as nat).push(digit));
            assert(digits_of((rest / 10) as nat).push(digit) + low@.reverse() =~= digits_of(
                (rest / 10) as nat,
            ) + grown.reverse());
        }
        low.push(digit);
        rest = rest / 10;
    }
    let mut digits: Vec<u32> = Vec::new();
    let mut left: usize = low.len();
    while left > 0
        invariant
            left <= low@.len(),
            digits@.len() == low@.len() - left,
            forall|k: int| 0 <= k < digits@.len() ==> digits@[k] == low@[low@.len() - 1 - k],
        decreases left,
    {
        left = left - 1;
        digits.push(low[left]);
    }
    assert(digits@ =~= low@.reverse());
    assert(digits_of(0) + low@.reverse() =~= low@.reverse());
    digits
}

/// Every digit is below ten, the first digit is not zero, and the digits
/// stand for the number they were taken from.
pub proof fn digits_are_decimal(number: nat)
    ensures
        forall|k: int| 0 <= k < digits_of(number).len() ==> #[trigger] digits_of(number)[k] < 10,
        number > 0 ==> digits_of(number).len() > 0 && digits_of(number)[0] != 0,
        digits_value(digits_of(number)) == number,
    decreases number,
{
    if number > 0 {
        digits_are_decimal(number / 10);
        let shorter = digits_of(number / 10);
        let all = digits_of(number);
        assert(all.drop_last() =~= shorter);
        assert(all.last() == (number % 10) as u32);
    }
}

} // verus!
