use vstd::prelude::*;

use crate::hex::{hex_char, nibble_char, push_char};

verus! {

/// Decimal digits of `n`, most significant first, no leading zero.
pub open spec fn decimal(n: nat) -> Seq<char>
    decreases n,
{
    if n < 10 {
        seq![hex_char(n as int)]
    } else {
        decimal(n / 10).push(hex_char((n % 10) as int))
    }
}

/// The decimal text of a number.
pub fn decimal_string(n: u128) -> (r: String)
    ensures
        r@ == decimal(n as nat),
    decreases n,
{
    let mut s = if n < 10 {
        String::new()
    } else {
        decimal_string(n / 10)
    };
    push_char(&mut s, nibble_char((n % 10) as u8));
    proof {
        if n < 10 {
            assert(s@ =~= seq![hex_char(n as int)]);
        }
    }
    s
}

} // verus!
