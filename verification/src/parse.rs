//! Byte-level scanning primitives shared by the stylesheet grammar.
//!
//! Every executable function here is proved equal to a specification function
//! over the byte sequence, so the grammar layer above can state its results
//! exactly.

use vstd::prelude::*;
use vstd::string::*;

verus! {

/// Whitespace accepted between tokens: space, tab, line feed, carriage return.
pub open spec fn is_ws(c: u8) -> bool {
    c == 32 || c == 9 || c == 10 || c == 13
}

/// Characters that may continue an identifier.
pub open spec fn is_ident_char(c: u8) -> bool {
    (97 <= c && c <= 122) || (65 <= c && c <= 90) || (48 <= c && c <= 57) || c == 45 || c == 95
}

/// Characters that may open an identifier: letters and underscore.
pub open spec fn is_ident_start(c: u8) -> bool {
    (97 <= c && c <= 122) || (65 <= c && c <= 90) || c == 95
}

/// Decimal digits.
pub open spec fn is_digit(c: u8) -> bool {
    48 <= c && c <= 57
}

pub fn ws_char(c: u8) -> (r: bool)
    ensures
        r == is_ws(c),
{
    c == 32 || c == 9 || c == 10 || c == 13
}

pub fn ident_char(c: u8) -> (r: bool)
    ensures
        r == is_ident_char(c),
{
    (97 <= c && c <= 122) || (65 <= c && c <= 90) || (48 <= c && c <= 57) || c == 45 || c == 95
}

pub fn ident_start(c: u8) -> (r: bool)
    ensures
        r == is_ident_start(c),
{
    (97 <= c && c <= 122) || (65 <= c && c <= 90) || c == 95
}

pub fn digit_char(c: u8) -> (r: bool)
    ensures
        r == is_digit(c),
{
    48 <= c && c <= 57
}

/// The position of the first non-whitespace byte at or after `i`.
pub open spec fn spec_skip_ws(s: Seq<u8>, i: int) -> int
    decreases s.len() - i,
{
    if 0 <= i < s.len() && is_ws(s[i]) {
        spec_skip_ws(s, i + 1)
    } else {
        i
    }
}

pub proof fn lemma_skip_ws_bounds(s: Seq<u8>, i: int)
    requires
        0 <= i <= s.len(),
    ensures
        i <= spec_skip_ws(s, i) <= s.len(),
    decreases s.len() - i,
{
    if i < s.len() && is_ws(s[i]) {
        lemma_skip_ws_bounds(s, i + 1);
    }
}

pub fn skip_ws(s: &Vec<u8>, i: usize) -> (r: usize)
    requires
        i <= s@.len(),
    ensures
        r == spec_skip_ws(s@, i as int),
        i <= r <= s@.len(),
    decreases s@.len() - i,
{
    if i < s.len() && ws_char(s[i]) {
        skip_ws(s, i + 1)
    } else {
        i
    }
}

/// The position of the first non-identifier byte at or after `i`.
pub open spec fn spec_ident_end(s: Seq<u8>, i: int) -> int
    decreases s.len() - i,
{
    if 0 <= i < s.len() && is_ident_char(s[i]) {
        spec_ident_end(s, i + 1)
    } else {
        i
    }
}

pub proof fn lemma_ident_end_bounds(s: Seq<u8>, i: int)
    requires
        0 <= i <= s.len(),
    ensures
        i <= spec_ident_end(s, i) <= s.len(),
    decreases s.len() - i,
{
    if i < s.len() && is_ident_char(s[i]) {
        lemma_ident_end_bounds(s, i + 1);
    }
}

pub fn ident_end(s: &Vec<u8>, i: usize) -> (r: usize)
    requires
        i <= s@.len(),
    ensures
        r == spec_ident_end(s@, i as int),
        i <= r <= s@.len(),
    decreases s@.len() - i,
{
    if i < s.len() && ident_char(s[i]) {
        ident_end(s, i + 1)
    } else {
        i
    }
}

/// The position of the first non-digit byte at or after `i`.
pub open spec fn spec_num_end(s: Seq<u8>, i: int) -> int
    decreases s.len() - i,
{
    if 0 <= i < s.len() && is_digit(s[i]) {
        spec_num_end(s, i + 1)
    } else {
        i
    }
}

pub proof fn lemma_num_end_bounds(s: Seq<u8>, i: int)
    requires
        0 <= i <= s.len(),
    ensures
        i <= spec_num_end(s, i) <= s.len(),
    decreases s.len() - i,
{
    if i < s.len() && is_digit(s[i]) {
        lemma_num_end_bounds(s, i + 1);
    }
}

pub proof fn lemma_num_end_digits(s: Seq<u8>, i: int)
    requires
        0 <= i <= s.len(),
    ensures
        forall|k: int| i <= k < spec_num_end(s, i) ==> is_digit(s[k]),
    decreases s.len() - i,
{
    if i < s.len() && is_digit(s[i]) {
        lemma_num_end_digits(s, i + 1);
    }
}

pub fn num_end(s: &Vec<u8>, i: usize) -> (r: usize)
    requires
        i <= s@.len(),
    ensures
        r == spec_num_end(s@, i as int),
        i <= r <= s@.len(),
    decreases s@.len() - i,
{
    if i < s.len() && digit_char(s[i]) {
        num_end(s, i + 1)
    } else {
        i
    }
}

/// The bytes of `s` from `i` (inclusive) to `j` (exclusive), as a fresh vector.
pub fn copy_range(s: &Vec<u8>, i: usize, j: usize) -> (v: Vec<u8>)
    requires
        i <= j <= s@.len(),
    ensures
        v@ == s@.subrange(i as int, j as int),
{
    let mut v: Vec<u8> = Vec::new();
    let mut k: usize = i;
    while k < j
        invariant
            i <= k <= j <= s@.len(),
            v@ == s@.subrange(i as int, k as int),
        decreases j - k,
    {
        v.push(s[k]);
        k = k + 1;
        assert(v@ =~= s@.subrange(i as int, k as int));
    }
    v
}

/// Whether a byte vector holds exactly the bytes of a string literal.
pub fn bytes_is(v: &Vec<u8>, s: &str) -> (r: bool)
    ensures
        r == (v@ == s.spec_bytes()),
{
    let b = s.as_bytes();
    if v.len() != b.len() {
        return false;
    }
    let mut k: usize = 0;
    while k < v.len()
        invariant
            k <= v@.len(),
            v@.len() == b@.len(),
            b@ == s.spec_bytes(),
            forall|j: int| 0 <= j < k ==> v@[j] == b@[j],
        decreases v@.len() - k,
    {
        if v[k] != b[k] {
            return false;
        }
        k = k + 1;
    }
    proof {
        assert(v@ =~= b@);
    }
    true
}

/// A fresh copy of a byte vector.
pub fn clone_bytes(v: &Vec<u8>) -> (r: Vec<u8>)
    ensures
        r@ == v@,
{
    let r = copy_range(v, 0, v.len());
    proof {
        assert(r@ =~= v@);
    }
    r
}

/// Whether two byte vectors hold the same bytes.
pub fn bytes_eq(a: &Vec<u8>, b: &Vec<u8>) -> (r: bool)
    ensures
        r == (a@ == b@),
{
    if a.len() != b.len() {
        return false;
    }
    let mut k: usize = 0;
    while k < a.len()
        invariant
            k <= a@.len(),
            a@.len() == b@.len(),
            forall|j: int| 0 <= j < k ==> a@[j] == b@[j],
        decreases a@.len() - k,
    {
        if a[k] != b[k] {
            return false;
        }
        k = k + 1;
    }
    proof {
        assert(a@ =~= b@);
    }
    true
}

/// The value of the decimal digits of `s` between `i` and `j`.
pub open spec fn spec_num_val(s: Seq<u8>, i: int, j: int) -> int
    decreases j - i,
{
    if i >= j {
        0
    } else {
        spec_num_val(s, i, j - 1) * 10 + (s[j - 1] - 48)
    }
}

pub open spec fn pow10(n: nat) -> int
    decreases n,
{
    if n == 0 {
        1
    } else {
        10 * pow10((n - 1) as nat)
    }
}

pub proof fn lemma_pow10_le(a: nat, b: nat)
    requires
        a <= b,
    ensures
        pow10(a) <= pow10(b),
        1 <= pow10(a),
    decreases b,
{
    if a == 0 {
        if b > 0 {
            lemma_pow10_le(0, (b - 1) as nat);
        }
    } else {
        lemma_pow10_le((a - 1) as nat, (b - 1) as nat);
    }
}

/// Reads the decimal number spanning `s[i..j]`; the span is at most seven
/// digits, so the value fits comfortably in the result type.
pub fn num_val(s: &Vec<u8>, i: usize, j: usize) -> (r: i64)
    requires
        i <= j <= s@.len(),
        j - i <= 7,
        forall|k: int| i <= k < j ==> is_digit(s@[k]),
    ensures
        r == spec_num_val(s@, i as int, j as int),
{
    let mut val: i64 = 0;
    let mut k: usize = i;
    while k < j
        invariant
            i <= k <= j <= s@.len(),
            j - i <= 7,
            forall|m: int| i <= m < j ==> is_digit(s@[m]),
            val == spec_num_val(s@, i as int, k as int),
            0 <= val < pow10((k - i) as nat),
        decreases j - k,
    {
        proof {
            lemma_pow10_le(((k - i) + 1) as nat, 7nat);
            reveal_with_fuel(pow10, 8);
            assert(pow10(7) == 10000000);
        }
        val = val * 10 + ((s[k] - 48) as i64);
        k = k + 1;
    }
    val
}

/// The numeric value of one hexadecimal digit, or `None`.
pub open spec fn spec_hex_digit(c: u8) -> Option<u8> {
    if 48 <= c && c <= 57 {
        Some((c - 48) as u8)
    } else if 97 <= c && c <= 102 {
        Some((c - 87) as u8)
    } else if 65 <= c && c <= 70 {
        Some((c - 55) as u8)
    } else {
        None
    }
}

pub fn hex_digit(c: u8) -> (r: Option<u8>)
    ensures
        r == spec_hex_digit(c),
{
    if 48 <= c && c <= 57 {
        Some(c - 48)
    } else if 97 <= c && c <= 102 {
        Some(c - 87)
    } else if 65 <= c && c <= 70 {
        Some(c - 55)
    } else {
        None
    }
}

} // verus!
