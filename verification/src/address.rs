//! Target addresses as the user writes them: `0x` followed by hexadecimal
//! digits.

use vstd::prelude::*;
use vstd::string::*;

verus! {

/// Why a token is not an address.
#[derive(Clone, Copy, Debug, PartialEq, Eq, Structural)]
pub enum AddressError {
    /// The token does not start with `0x`.
    NoPrefix,
    /// Nothing follows the prefix.
    NoDigits,
    /// Something that is not a hexadecimal digit follows the prefix.
    BadDigit,
    /// The digits denote a number that no address can hold.
    Overflow,
}

/// The value of a hexadecimal digit, in either case.
pub open spec fn digit_value(c: char) -> Option<nat> {
    if '0' <= c <= '9' {
        Some((c as int - '0' as int) as nat)
    } else if 'a' <= c <= 'f' {
        Some((c as int - 'a' as int + 10) as nat)
    } else if 'A' <= c <= 'F' {
        Some((c as int - 'A' as int + 10) as nat)
    } else {
        None
    }
}

/// Every character of `s` is a hexadecimal digit.
pub open spec fn all_hex(s: Seq<char>) -> bool {
    forall|i: int| 0 <= i < s.len() ==> (#[trigger] digit_value(s[i])) is Some
}

/// The number that the digits of `s` denote, most significant digit first.
pub open spec fn hex_value(s: Seq<char>) -> nat
    decreases s.len(),
{
    if s.len() == 0 {
        0
    } else {
        16 * hex_value(s.drop_last()) + digit_value(s.last()).unwrap_or(0)
    }
}

/// `s` starts with the prefix `0x`.
pub open spec fn has_prefix(s: Seq<char>) -> bool {
    s.len() >= 2 && s[0] == '0' && s[1] == 'x'
}

/// The address that a token denotes, or the reason why it denotes none.
pub open spec fn address_of(s: Seq<char>) -> Result<u64, AddressError> {
    if !has_prefix(s) {
        Err(AddressError::NoPrefix)
    } else if s.len() == 2 {
        Err(AddressError::NoDigits)
    } else if !all_hex(s.skip(2)) {
        Err(AddressError::BadDigit)
    } else if hex_value(s.skip(2)) > u64::MAX {
        Err(AddressError::Overflow)
    } else {
        Ok(hex_value(s.skip(2)) as u64)
    }
}

/// One more digit makes the number sixteen times as large, plus the digit.
pub proof fn lemma_hex_value_push(s: Seq<char>, c: char)
    ensures
        hex_value(s.push(c)) == 16 * hex_value(s) + digit_value(c).unwrap_or(0),
{
    assert(s.push(c).drop_last() == s);
}

/// The value of one digit given as an ASCII byte.
fn digit_of_byte(b: u8) -> (d: Option<u8>)
    ensures
        match d {
            Some(v) => digit_value(b as char) == Some(v as nat) && v < 16,
            None => digit_value(b as char) is None,
        },
{
    if b >= 0x30 && b <= 0x39 {
        Some(b - 0x30)
    } else if b >= 0x61 && b <= 0x66 {
        Some(b - 0x61 + 10)
    } else if b >= 0x41 && b <= 0x46 {
        Some(b - 0x41 + 10)
    } else {
        None
    }
}

/// Reads a token of pure ASCII.
fn parse_ascii(token: &str) -> (r: Result<u64, AddressError>)
    requires
        token.is_ascii(),
    ensures
        r == address_of(token@),
{
    let n: usize = token.unicode_len();
    if n < 2 || token.get_ascii(0) != 0x30 || token.get_ascii(1) != 0x78 {
        return Err(AddressError::NoPrefix);
    }
    if n == 2 {
        return Err(AddressError::NoDigits);
    }
    let ghost digits = token@.skip(2);
    let mut value: u64 = 0;
    let mut overflow = false;
    let mut i: usize = 2;
    while i < n
        invariant
            2 <= i <= n,
            n == token@.len(),
            token.is_ascii(),
            has_prefix(token@),
            digits == token@.skip(2),
            all_hex(digits.take(i - 2)),
            !overflow ==> value == hex_value(digits.take(i - 2)),
            overflow ==> hex_value(digits.take(i - 2)) > u64::MAX,
        decreases n - i,
    {
        let b: u8 = token.get_ascii(i);
        let ghost c: char = token@[i as int];
        proof {
            assert(c == digits[i - 2]);
            assert(c == b as char);
            assert(digits.take(i - 2 + 1) == digits.take(i - 2).push(c));
            lemma_hex_value_push(digits.take(i - 2), c);
        }
        match digit_of_byte(b) {
            None => {
                proof {
                    assert(digit_value(digits[i - 2]) is None);
                }
                return Err(AddressError::BadDigit);
            },
            Some(d) => {
                if !overflow {
                    if value > (u64::MAX - d as u64) / 16 {
                        overflow = true;
                    } else {
                        value = value * 16 + d as u64;
                    }
                }
            },
        }
        i += 1;
    }
    proof {
        assert(digits.take(n - 2) == digits);
    }
    if overflow {
        Err(AddressError::Overflow)
    } else {
        Ok(value)
    }
}

/// Reads an address: the prefix `0x`, then one or more hexadecimal digits
/// whose number fits in 64 bits.
pub fn parse_address(token: &str) -> (r: Result<u64, AddressError>)
    ensures
        r == address_of(token@),
{
    if token.is_ascii() {
        return parse_ascii(token);
    }
    let n: usize = token.unicode_len();
    if n < 2 || token.get_char(0) != '0' || token.get_char(1) != 'x' {
        return Err(AddressError::NoPrefix);
    }
    proof {
        let s = token@;
        assert(!vstd::utf8::is_ascii_chars(s));
        let i = choose|i: int| 0 <= i < s.len() && !('\0' <= #[trigger] s[i] <= '\u{7f}');
        assert(i >= 2);
        assert(s.skip(2)[i - 2] == s[i]);
        assert(digit_value(s.skip(2)[i - 2]) is None);
    }
    Err(AddressError::BadDigit)
}

/// The lower-case hexadecimal digit of value `d`.
pub open spec fn digit_char(d: nat) -> char
    recommends
        d < 16,
{
    if d < 10 {
        ('0' as int + d) as char
    } else {
        ('a' as int + d - 10) as char
    }
}

/// The digits of `n` in lower-case hexadecimal, padded with zeros on the
/// left to at least `min_digits` digits, and never empty.
pub open spec fn lower_hex(n: nat, min_digits: nat) -> Seq<char>
    decreases n, min_digits,
{
    if n < 16 && min_digits <= 1 {
        seq![digit_char(n)]
    } else {
        lower_hex(n / 16, if min_digits == 0 { 0 } else { (min_digits - 1) as nat }).push(
            digit_char(n % 16),
        )
    }
}

/// An address as the register table shows it: `0x`, then the digits, padded
/// to fourteen.
pub open spec fn hex_field(v: u64) -> Seq<char> {
    seq!['0', 'x'] + lower_hex(v as nat, 14)
}

/// The digits that are written are hexadecimal digits, and they denote the
/// number that was written.
pub proof fn lemma_lower_hex_reads_back(n: nat, min_digits: nat)
    ensures
        lower_hex(n, min_digits).len() >= 1,
        all_hex(lower_hex(n, min_digits)),
        hex_value(lower_hex(n, min_digits)) == n,
    decreases n, min_digits,
{
    if n < 16 && min_digits <= 1 {
        let s = seq![digit_char(n)];
        assert(s.drop_last().len() == 0);
        assert(s.last() == digit_char(n));
        assert(hex_value(s.drop_last()) == 0);
    } else {
        let rest = lower_hex(n / 16, if min_digits == 0 { 0 } else { (min_digits - 1) as nat });
        lemma_lower_hex_reads_back(
            n / 16,
            if min_digits == 0 { 0 } else { (min_digits - 1) as nat },
        );
        lemma_hex_value_push(rest, digit_char(n % 16));
        assert forall|i: int| 0 <= i < rest.push(digit_char(n % 16)).len() implies (
        #[trigger] digit_value(rest.push(digit_char(n % 16))[i])) is Some by {
            if i < rest.len() {
                assert(rest.push(digit_char(n % 16))[i] == rest[i]);
            }
        }
    }
}

/// Reading an address that was written gives the address back.
pub proof fn address_round_trip(v: u64)
    ensures
        address_of(hex_field(v)) == Ok::<u64, AddressError>(v),
{
    let digits = lower_hex(v as nat, 14);
    lemma_lower_hex_reads_back(v as nat, 14);
    assert(hex_field(v).skip(2) == digits);
}

/// One lower-case hexadecimal digit as a string.
pub fn digit_str(d: u8) -> (s: &'static str)
    requires
        d < 16,
    ensures
        s@ == seq![digit_char(d as nat)],
{
    proof {
        reveal_strlit("0");
        reveal_strlit("1");
        reveal_strlit("2");
        reveal_strlit("3");
        reveal_strlit("4");
        reveal_strlit("5");
        reveal_strlit("6");
        reveal_strlit("7");
        reveal_strlit("8");
        reveal_strlit("9");
        reveal_strlit("a");
        reveal_strlit("b");
        reveal_strlit("c");
        reveal_strlit("d");
        reveal_strlit("e");
        reveal_strlit("f");
    }
    let s = match d {
        0 => "0",
        1 => "1",
        2 => "2",
        3 => "3",
        4 => "4",
        5 => "5",
        6 => "6",
        7 => "7",
        8 => "8",
        9 => "9",
        10 => "a",
        11 => "b",
        12 => "c",
        13 => "d",
        14 => "e",
        _ => "f",
    };
    assert(s@ =~= seq![digit_char(d as nat)]);
    s
}

/// Appends the digits of `n`, padded to at least `min_digits`.
pub fn push_lower_hex(out: &mut String, n: u64, min_digits: u8)
    ensures
        final(out)@ == old(out)@ + lower_hex(n as nat, min_digits as nat),
    decreases n, min_digits,
{
    if n < 16 && min_digits <= 1 {
        out.append(digit_str(n as u8));
    } else {
        let rest: u8 = if min_digits == 0 { 0 } else { min_digits - 1 };
        push_lower_hex(out, n / 16, rest);
        out.append(digit_str((n % 16) as u8));
        assert(out@ =~= old(out)@ + lower_hex(n as nat, min_digits as nat));
    }
}

/// Writes an address as the register table shows it.
pub fn format_hex(v: u64) -> (s: String)
    ensures
        s@ == hex_field(v),
{
    let mut s = String::from_str("0x");
    proof {
        reveal_strlit("0x");
        assert(s@ =~= seq!['0', 'x']);
    }
    push_lower_hex(&mut s, v, 14);
    s
}

} // verus!
