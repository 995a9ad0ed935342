//! Formatting of the system RAM report. The memory amounts themselves come
//! from the host; this module only turns byte counts into the report line.

use vstd::prelude::*;

verus! {

/// The decimal digit characters in order of value.
pub open spec fn digit_char(d: int) -> char {
    if d == 0 {
        '0'
    } else if d == 1 {
        '1'
    } else if d == 2 {
        '2'
    } else if d == 3 {
        '3'
    } else if d == 4 {
        '4'
    } else if d == 5 {
        '5'
    } else if d == 6 {
        '6'
    } else if d == 7 {
        '7'
    } else if d == 8 {
        '8'
    } else {
        '9'
    }
}

/// The decimal numeral of a number: most significant digit first, no
/// leading zeroes except for zero itself.
pub open spec fn dec_str(n: nat) -> Seq<char>
    decreases n,
{
    if n < 10 {
        seq![digit_char(n as int)]
    } else {
        dec_str(n / 10) + seq![digit_char((n % 10) as int)]
    }
}

/// Whole gibibytes in a byte count, rounding down.
pub open spec fn gb_of(bytes: u64) -> u64 {
    bytes / 1024 / 1024 / 1024
}

/// The RAM report line for the given byte counts.
pub open spec fn ram_report(total_bytes: u64, used_bytes: u64) -> Seq<char> {
    "RAM: "@ + dec_str(gb_of(used_bytes) as nat) + " GB Used / "@ + dec_str(
        gb_of(total_bytes) as nat,
    ) + " GB Total"@
}

/// One decimal digit as text.
fn digit_str(d: u64) -> (r: &'static str)
    requires
        d < 10,
    ensures
        r@ == seq![digit_char(d as int)],
{
    if d == 0 {
        proof {
            reveal_strlit("0");
        }
        "0"
    } else if d == 1 {
        proof {
            reveal_strlit("1");
        }
        "1"
    } else if d == 2 {
        proof {
            reveal_strlit("2");
        }
        "2"
    } else if d == 3 {
        proof {
            reveal_strlit("3");
        }
        "3"
    } else if d == 4 {
        proof {
            reveal_strlit("4");
        }
        "4"
    } else if d == 5 {
        proof {
            reveal_strlit("5");
        }
        "5"
    } else if d == 6 {
        proof {
            reveal_strlit("6");
        }
        "6"
    } else if d == 7 {
        proof {
            reveal_strlit("7");
        }
        "7"
    } else if d == 8 {
        proof {
            reveal_strlit("8");
        }
        "8"
    } else {
        proof {
            reveal_strlit("9");
        }
        "9"
    }
}

/// A number written out in decimal.
pub fn u64_to_dec(n: u64) -> (r: String)
    ensures
        r@ == dec_str(n as nat),
    decreases n,
{
    if n < 10 {
        String::from_str(digit_str(n))
    } else {
        let mut s = u64_to_dec(n / 10);
        s.append(digit_str(n % 10));
        s
    }
}

/// The RAM report line, e.g. how much of the machine's memory is in use,
/// in whole gibibytes.
pub fn format_system_stats(total_bytes: u64, used_bytes: u64) -> (r: String)
    ensures
        r@ == ram_report(total_bytes, used_bytes),
{
    let total_gb = total_bytes / 1024 / 1024 / 1024;
    let used_gb = used_bytes / 1024 / 1024 / 1024;
    let mut s = String::from_str("RAM: ");
    let used_dec = u64_to_dec(used_gb);
    s.append(used_dec.as_str());
    s.append(" GB Used / ");
    let total_dec = u64_to_dec(total_gb);
    s.append(total_dec.as_str());
    s.append(" GB Total");
    s
}

} // verus!
