//! What the server decides when it starts: the key that signs its cookies,
//! and the registration tokens that its operator makes.

use vstd::prelude::*;
use vstd::string::{StrSliceExecFns, StringExecFns};
use vstd::utf8::encode_utf8;

use crate::clock::{parse_rfc3339, rfc3339_time, Timestamp, SECS_PER_DAY};
use crate::text::copy_bytes;

verus! {

/// Least length of the private key in bytes.
pub const MIN_PRIVATE_KEY_LEN: usize = 32;

/// Seconds between two garbage collections.
pub const GC_INTERVAL: u64 = 600;

/// Length of a random registration token.
pub const TOKEN_LEN: usize = 8;

/// The key that signs the cookies: the configured key, which has to be 32
/// bytes long at least; a server without a key is a development server and
/// signs with 32 zero bytes.
pub fn private_key(configured: &str) -> (res: Result<Vec<u8>, ()>)
    ensures
        match res {
            Ok(key) => if encode_utf8(configured@).len() == 0 {
                key@ == Seq::new(MIN_PRIVATE_KEY_LEN as nat, |i: int| 0u8)
            } else {
                key@ == encode_utf8(configured@) && key@.len() >= MIN_PRIVATE_KEY_LEN
            },
            Err(_) => 0 < encode_utf8(configured@).len() < MIN_PRIVATE_KEY_LEN,
        },
{
    let data = configured.as_bytes();
    if data.len() == 0 {
        let mut key: Vec<u8> = Vec::new();
        let mut i: usize = 0;
        while i < MIN_PRIVATE_KEY_LEN
            invariant
                i <= MIN_PRIVATE_KEY_LEN,
                key@.len() == i,
                forall|j: int| 0 <= j < i ==> key@[j] == 0,
            decreases MIN_PRIVATE_KEY_LEN - i,
        {
            key.push(0);
            i += 1;
        }
        assert(key@ =~= Seq::new(MIN_PRIVATE_KEY_LEN as nat, |i: int| 0u8));
        Ok(key)
    } else if data.len() < MIN_PRIVATE_KEY_LEN {
        Err(())
    } else {
        Ok(copy_bytes(data))
    }
}

/// The letter at the place `i` of the alphabet.
pub open spec fn letter(i: int) -> Seq<char> {
    "abcdefghijklmnopqrstuvwxyz"@.subrange(i, i + 1)
}

/// The token that a sequence of draws gives: for each draw the letter at the
/// place of its remainder by 26.
pub open spec fn token_of(draws: Seq<usize>) -> Seq<char>
    decreases draws.len(),
{
    if draws.len() == 0 {
        Seq::empty()
    } else {
        token_of(draws.drop_last()) + letter(draws.last() as int % 26)
    }
}

/// The registration token for a sequence of draws.
pub fn token_from(draws: &Vec<usize>) -> (token: String)
    ensures
        token@ == token_of(draws@),
{
    let alphabet = "abcdefghijklmnopqrstuvwxyz";
    proof {
        reveal_strlit("abcdefghijklmnopqrstuvwxyz");
    }
    let mut token = String::new();
    let mut i: usize = 0;
    assert(draws@.take(0) =~= Seq::<usize>::empty());
    while i < draws.len()
        invariant
            i <= draws@.len(),
            alphabet@ == "abcdefghijklmnopqrstuvwxyz"@,
            alphabet@.len() == 26,
            alphabet.is_ascii(),
            token@ == token_of(draws@.take(i as int)),
        decreases draws@.len() - i,
    {
        proof {
            assert(draws@.take(i + 1).drop_last() =~= draws@.take(i as int));
            assert(draws@.take(i + 1).last() == draws@[i as int]);
        }
        let place = draws[i] % 26;
        token.append(vstd::string::StrSliceExecFns::substring_ascii(alphabet, place, place + 1));
        i += 1;
    }
    assert(draws@.take(i as int) =~= draws@);
    token
}

/// The value of a decimal digit, or nothing for another character.
pub open spec fn digit_value(c: char) -> Option<int> {
    if '0' <= c <= '9' {
        Some(c as int - '0' as int)
    } else {
        None
    }
}

/// The number that a row of decimal digits spells, or nothing where a
/// character of the row is no digit. The empty row spells zero.
pub open spec fn decimal_nat(digits: Seq<char>) -> Option<int>
    decreases digits.len(),
{
    if digits.len() == 0 {
        Some(0)
    } else {
        match (decimal_nat(digits.drop_last()), digit_value(digits.last())) {
            (Some(n), Some(d)) => Some(10 * n + d),
            _ => None,
        }
    }
}

/// The number that a text spells in decimal, or nothing where it spells
/// none that fits in 64 bits: a text spells a number where it is a row of
/// digits, not empty, behind at most one sign.
pub open spec fn decimal_i64(text: Seq<char>) -> Option<i64> {
    let signed = text.len() > 0 && (text[0] == '-' || text[0] == '+');
    let digits = if signed {
        text.skip(1)
    } else {
        text
    };
    if digits.len() == 0 {
        None
    } else {
        match decimal_nat(digits) {
            Some(n) => {
                let value = if signed && text[0] == '-' {
                    -n
                } else {
                    n
                };
                if i64::MIN <= value <= i64::MAX {
                    Some(value as i64)
                } else {
                    None
                }
            },
            None => None,
        }
    }
}

/// A row of digits spells no less than each of its beginnings, and no
/// negative number.
proof fn lemma_decimal_grows(digits: Seq<char>, n: int)
    requires
        0 <= n <= digits.len(),
        decimal_nat(digits) is Some,
    ensures
        decimal_nat(digits.take(n)) matches Some(a) && 0 <= a <= decimal_nat(digits)->0,
    decreases digits.len() - n,
{
    if n == digits.len() {
        assert(digits.take(n) =~= digits);
        lemma_decimal_not_negative(digits);
    } else {
        lemma_decimal_grows(digits, n + 1);
        assert(digits.take(n + 1).drop_last() =~= digits.take(n));
    }
}

/// A row of digits spells no negative number.
proof fn lemma_decimal_not_negative(digits: Seq<char>)
    ensures
        decimal_nat(digits) matches Some(n) ==> n >= 0,
    decreases digits.len(),
{
    if digits.len() > 0 {
        lemma_decimal_not_negative(digits.drop_last());
    }
}

/// A row with a character that is no digit spells no number.
proof fn lemma_decimal_needs_digits(digits: Seq<char>, i: int)
    requires
        0 <= i < digits.len(),
        digit_value(digits[i]) is None,
    ensures
        decimal_nat(digits) is None,
    decreases digits.len(),
{
    if i < digits.len() - 1 {
        lemma_decimal_needs_digits(digits.drop_last(), i);
    }
}

/// Reads a number in decimal.
pub fn parse_i64(text: &str) -> (n: Option<i64>)
    ensures
        n == decimal_i64(text@),
{
    let len = text.unicode_len();
    if len == 0 {
        return None;
    }
    let first = text.get_char(0);
    let signed = first == '-' || first == '+';
    let start: usize = if signed {
        1
    } else {
        0
    };
    if start == len {
        return None;
    }
    let ghost digits = if signed {
        text@.skip(1)
    } else {
        text@
    };
    let mut value: i128 = 0;
    let mut i: usize = start;
    assert(digits.take(0) =~= Seq::<char>::empty());
    while i < len
        invariant
            start <= i <= len,
            len == text@.len(),
            first == text@[0],
            signed == (first == '-' || first == '+'),
            start == if signed {
                1usize
            } else {
                0usize
            },
            digits == if signed {
                text@.skip(1)
            } else {
                text@
            },
            digits.len() == len - start,
            decimal_nat(digits.take(i - start)) == Some(value as int),
            0 <= value <= 0x8000_0000_0000_0000,
        decreases len - i,
    {
        let c = text.get_char(i);
        assert(digits[i - start] == c);
        if c < '0' || c > '9' {
            proof {
                lemma_decimal_needs_digits(digits, i - start);
            }
            return None;
        }
        let digit: i128 = (c as u32 - '0' as u32) as i128;
        proof {
            assert(digits.take(i - start + 1).drop_last() =~= digits.take(i - start));
            assert(digits.take(i - start + 1).last() == c);
        }
        value = 10 * value + digit;
        i += 1;
        if value > 0x8000_0000_0000_0000 {
            proof {
                if decimal_nat(digits) is Some {
                    lemma_decimal_grows(digits, i - start);
                }
            }
            return None;
        }
    }
    assert(digits.take(len - start) =~= digits);
    if first == '-' {
        Some((-value) as i64)
    } else if value > i64::MAX as i128 {
        None
    } else {
        Some(value as i64)
    }
}

/// The time `secs` seconds after `now`, or nothing where it is out of range.
pub open spec fn after(now: Timestamp, secs: i64) -> Option<Timestamp> {
    if i64::MIN <= now.secs + secs <= i64::MAX {
        Some(Timestamp { secs: (now.secs + secs) as i64, nanos: now.nanos })
    } else {
        None
    }
}

/// When a registration token expires that its maker gave the expiry
/// `input`, at the time `now`: a day from now where the input is empty; as
/// many seconds from now as the input spells; at the date that the input
/// names in the form of RFC 3339. Nothing where the input is none of these.
pub open spec fn expiry_of(input: Seq<char>, now: Timestamp) -> Option<Timestamp> {
    if input.len() == 0 {
        after(now, SECS_PER_DAY)
    } else {
        match decimal_i64(input) {
            Some(secs) => after(now, secs),
            None => rfc3339_time(input),
        }
    }
}

/// The time `secs` seconds after `now`.
fn time_after(now: Timestamp, secs: i64) -> (res: Option<Timestamp>)
    ensures
        res == after(now, secs),
{
    let sum: i128 = now.secs as i128 + secs as i128;
    if sum < i64::MIN as i128 || sum > i64::MAX as i128 {
        None
    } else {
        Some(Timestamp { secs: sum as i64, nanos: now.nanos })
    }
}

/// Reads the expiry of a registration token.
pub fn read_expiry(input: &str, now: Timestamp) -> (res: Option<Timestamp>)
    ensures
        res == expiry_of(input@, now),
{
    if input.is_empty() {
        time_after(now, SECS_PER_DAY)
    } else {
        match parse_i64(input) {
            Some(secs) => time_after(now, secs),
            None => parse_rfc3339(input),
        }
    }
}

} // verus!
