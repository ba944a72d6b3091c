use vstd::prelude::*;

verus! {

/// The character of a decimal digit.
pub open spec fn digit_char(d: nat) -> char {
    if d == 0 { '0' } else if d == 1 { '1' } else if d == 2 { '2' } else if d == 3 { '3' }
    else if d == 4 { '4' } else if d == 5 { '5' } else if d == 6 { '6' } else if d == 7 { '7' }
    else if d == 8 { '8' } else { '9' }
}

/// The decimal digits of a number, most significant first, no padding.
pub open spec fn decimal(n: nat) -> Seq<char>
    decreases n,
{
    if n < 10 {
        seq![digit_char(n)]
    } else {
        decimal(n / 10).push(digit_char(n % 10))
    }
}

/// Relies on `format!` with the `Display` of `&str` and of `u32`: the
/// prefix as it is, then the decimal digits of the number without sign or
/// padding.
#[verifier::external_body]
pub(crate) fn with_decimal(prefix: &str, n: u32) -> (r: String)
    ensures
        r@ == prefix@.add(decimal(n as nat)),
{
    format!("{}{}", prefix, n)
}

} // verus!
