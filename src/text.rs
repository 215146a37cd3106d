use vstd::prelude::*;
use vstd::string::*;

verus! {

/// The ten decimal digits, in order.
pub open spec fn digits() -> Seq<char> {
    "0123456789"@
}

/// The decimal notation of `n`, without leading zeros.
pub open spec fn decimal(n: nat) -> Seq<char>
    decreases n,
{
    if n < 10 {
        digits().subrange(n as int, n + 1int)
    } else {
        decimal(n / 10) + digits().subrange((n % 10) as int, (n % 10) + 1int)
    }
}

/// Writes `n` in decimal.
pub fn decimal_string(n: usize) -> (r: String)
    ensures
        r@ == decimal(n as nat),
    decreases n,
{
    let table = "0123456789";
    proof {
        reveal_strlit("0123456789");
    }
    if n < 10 {
        String::from_str(table.substring_char(n, n + 1))
    } else {
        let mut s = decimal_string(n / 10);
        s.append(table.substring_char(n % 10, n % 10 + 1));
        s
    }
}

} // verus!
