//! Decoding of lower-case hexadecimal digest strings.
//!
//! The service declares each file's MD5 digest as a 32-character lower-case
//! hex string; the download pipeline decodes it to the 16 raw bytes before
//! comparing it against the computed digest.

use vstd::prelude::*;

use crate::error::Error;

verus! {

/// A lower-case hexadecimal digit: `0`..`9` or `a`..`f`.
pub open spec fn is_lower_hex_digit(c: char) -> bool {
    ('0' <= c && c <= '9') || ('a' <= c && c <= 'f')
}

/// The numeric value of a lower-case hexadecimal digit.
pub open spec fn hex_digit_value(c: char) -> u8 {
    if '0' <= c && c <= '9' {
        ((c as u32) - 48) as u8
    } else {
        ((c as u32) - 87) as u8
    }
}

/// The byte written as the digit pair `hi` `lo`.
pub open spec fn hex_byte(hi: char, lo: char) -> u8 {
    (hex_digit_value(hi) * 16 + hex_digit_value(lo)) as u8
}

/// Every character of `s` is a lower-case hexadecimal digit.
pub open spec fn all_lower_hex(s: Seq<char>) -> bool {
    forall|i: int| 0 <= i < s.len() ==> is_lower_hex_digit(#[trigger] s[i])
}

/// `s` is a well-formed lower-case hex encoding: even length, digits only.
pub open spec fn hex_decode_ok(s: Seq<char>) -> bool {
    s.len() % 2 == 0 && all_lower_hex(s)
}

/// The bytes encoded by `s`, reading one digit pair per byte.
pub open spec fn hex_decoded(s: Seq<char>) -> Seq<u8>
    decreases s.len(),
{
    if s.len() < 2 {
        Seq::empty()
    } else {
        seq![hex_byte(s[0], s[1])] + hex_decoded(s.skip(2))
    }
}

/// The numeric value of a digit, in executable code.
fn hex_digit_value_exec(c: char) -> (r: u8)
    requires
        is_lower_hex_digit(c),
    ensures
        r == hex_digit_value(c),
{
    let v = c as u32;
    if v <= 57 {
        (v - 48) as u8
    } else {
        (v - 87) as u8
    }
}

/// Decode a lower-case hexadecimal string to its bytes.
///
/// Succeeds exactly on strings of even length made of the digits
/// `0`..`9` and `a`..`f`; anything else (upper case included) is a
/// malformed digest and is rejected.
pub fn decode_hex_lower(s: &str) -> (r: Result<Vec<u8>, Error>)
    ensures
        r is Ok <==> hex_decode_ok(s@),
        r matches Ok(v) ==> v@ == hex_decoded(s@) && v@.len() == s@.len() / 2,
        r is Err ==> r == Err::<Vec<u8>, Error>(Error::Decode),
{
    let n = s.unicode_len();
    if n % 2 != 0 {
        return Err(Error::Decode);
    }
    let mut i: usize = 0;
    while i < n
        invariant
            n == s@.len(),
            0 <= i <= n,
            forall|k: int| 0 <= k < i ==> is_lower_hex_digit(#[trigger] s@[k]),
        decreases n - i,
    {
        let c = s.get_char(i);
        let ok = ('0' <= c && c <= '9') || ('a' <= c && c <= 'f');
        if !ok {
            return Err(Error::Decode);
        }
        i = i + 1;
    }
    let half = n / 2;
    let mut out: Vec<u8> = Vec::new();
    let mut j: usize = 0;
    proof {
        assert(s@.skip(0) =~= s@);
        assert(out@ + hex_decoded(s@) =~= hex_decoded(s@));
    }
    while j < half
        invariant
            n == s@.len(),
            n % 2 == 0,
            half == n / 2,
            0 <= j <= half,
            all_lower_hex(s@),
            out@.len() == j,
            hex_decoded(s@) == out@ + hex_decoded(s@.skip(2 * j)),
        decreases half - j,
    {
        let hi = s.get_char(2 * j);
        let lo = s.get_char(2 * j + 1);
        let b = hex_digit_value_exec(hi) * 16 + hex_digit_value_exec(lo);
        proof {
            let rest = s@.skip(2 * (j as int));
            assert(rest.len() >= 2);
            assert(rest[0] == s@[2 * (j as int)]);
            assert(rest[1] == s@[2 * (j as int) + 1]);
            assert(rest.skip(2) =~= s@.skip(2 * (j as int) + 2));
            assert(hex_decoded(rest) == seq![hex_byte(rest[0], rest[1])] + hex_decoded(
                rest.skip(2),
            ));
        }
        out.push(b);
        j = j + 1;
        proof {
            assert(hex_decoded(s@) =~= out@ + hex_decoded(s@.skip(2 * (j as int))));
        }
    }
    proof {
        assert(s@.skip(2 * (j as int)) =~= Seq::<char>::empty());
        assert(hex_decoded(s@) =~= out@);
    }
    Ok(out)
}

} // verus!
