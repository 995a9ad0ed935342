//! The password-string generator: a string of the requested length drawn
//! character by character from a chosen alphabet.

use vstd::prelude::*;

use rand::Rng;

verus! {

/// The letters every generated password may draw from.
pub open spec fn letter_chars() -> Seq<char> {
    "abcdefghijklmnopqrstuvwxyzABCDEFGHIJKLMNOPQRSTUVWXYZ"@
}

/// The digits added when numbers are asked for.
pub open spec fn digit_chars() -> Seq<char> {
    "0123456789"@
}

/// The punctuation added when symbols are asked for.
pub open spec fn symbol_chars() -> Seq<char> {
    "!@#$%^&*()_+-=[]{}|;:,.<>?"@
}

/// The alphabet a generated password draws from: letters always, digits
/// and symbols on request.
pub open spec fn charset(has_numbers: bool, has_symbols: bool) -> Seq<char> {
    letter_chars() + (if has_numbers {
        digit_chars()
    } else {
        Seq::empty()
    }) + (if has_symbols {
        symbol_chars()
    } else {
        Seq::empty()
    })
}

/// Relies on rand's `thread_rng` and `Rng::gen_range`: an index drawn below
/// the bound; nothing is promised of which one comes back.
#[verifier::external_body]
fn random_index(bound: usize) -> (r: usize)
    requires
        bound > 0,
    ensures
        r < bound,
{
    rand::thread_rng().gen_range(0..bound)
}

/// The alphabet as one string.
fn build_charset(has_numbers: bool, has_symbols: bool) -> (r: String)
    ensures
        r@ == charset(has_numbers, has_symbols),
        52 <= r@.len() <= 88,
{
    let mut cs = String::from_str("abcdefghijklmnopqrstuvwxyzABCDEFGHIJKLMNOPQRSTUVWXYZ");
    if has_numbers {
        cs.append("0123456789");
    }
    if has_symbols {
        cs.append("!@#$%^&*()_+-=[]{}|;:,.<>?");
    }
    proof {
        reveal_strlit("abcdefghijklmnopqrstuvwxyzABCDEFGHIJKLMNOPQRSTUVWXYZ");
        reveal_strlit("0123456789");
        reveal_strlit("!@#$%^&*()_+-=[]{}|;:,.<>?");
        assert(cs@ =~= charset(has_numbers, has_symbols));
    }
    cs
}

/// A fresh password of the requested length, each character drawn from the
/// requested alphabet.
pub fn generate_password(length: usize, has_numbers: bool, has_symbols: bool) -> (r: String)
    ensures
        r@.len() == length,
        forall|i: int|
            0 <= i < r@.len() ==> charset(has_numbers, has_symbols).contains(#[trigger] r@[i]),
{
    let cs = build_charset(has_numbers, has_symbols);
    let cs_str = cs.as_str();
    let cs_len = cs_str.unicode_len();
    let mut out = String::new();
    let mut k: usize = 0;
    while k < length
        invariant
            k <= length,
            out@.len() == k,
            cs_str@ == charset(has_numbers, has_symbols),
            cs_len == cs_str@.len(),
            52 <= cs_len <= 88,
            forall|i: int|
                0 <= i < out@.len() ==> charset(has_numbers, has_symbols).contains(
                    #[trigger] out@[i],
                ),
        decreases length - k,
    {
        let idx = random_index(cs_len);
        let ch = cs_str.substring_char(idx, idx + 1);
        out.append(ch);
        proof {
            assert(out@[k as int] == cs_str@[idx as int]);
            assert(charset(has_numbers, has_symbols).contains(cs_str@[idx as int])) by {
                assert(charset(has_numbers, has_symbols)[idx as int] == cs_str@[idx as int]);
            }
        }
        k = k + 1;
    }
    out
}

} // verus!
