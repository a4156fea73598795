//! Decimal rendering of the launcher's version numbers.

use vstd::prelude::*;
use vstd::string::*;

verus! {

/// The character for a single decimal digit.
pub open spec fn digit_char(d: nat) -> char
    recommends
        d < 10,
{
    "0123456789"@[d as int]
}

/// The decimal digit characters of `n`, most significant first, with no
/// leading zeros (the number zero renders as the single digit `0`).
pub open spec fn decimal(n: nat) -> Seq<char>
    decreases n,
{
    if n < 10 {
        seq![digit_char(n)]
    } else {
        decimal(n / 10) + seq![digit_char(n % 10)]
    }
}

/// Renders `n` in decimal.
pub fn decimal_string(n: u32) -> (r: String)
    ensures
        r@ == decimal(n as nat),
    decreases n,
{
    let digits: &str = "0123456789";
    proof {
        reveal_strlit("0123456789");
        assert(digits.is_ascii());
    }
    if n < 10 {
        let d = digits.substring_ascii(n as usize, n as usize + 1);
        let r = String::from_str(d);
        proof {
            assert(r@ =~= decimal(n as nat));
        }
        r
    } else {
        let mut r = decimal_string(n / 10);
        let m: u32 = n % 10;
        let d = digits.substring_ascii(m as usize, m as usize + 1);
        r.append(d);
        proof {
            assert(r@ =~= decimal(n as nat));
        }
        r
    }
}

} // verus!
