//! ASCII text utilities shared by the wallet: case folding, digit-string
//! parsing, fixed-point decimal formatting, hex encoding and word counting.

use vstd::prelude::*;

verus! {

// ---------------------------------------------------------------------------
// Case folding
// ---------------------------------------------------------------------------
/// ASCII lower-casing of one character; anything outside 'A'..='Z' passes through.
pub open spec fn lower_char(c: char) -> char {
    if 'A' <= c && c <= 'Z' {
        (((c as u8) + 32) as char)
    } else {
        c
    }
}

/// ASCII lower-casing of a character sequence.
pub open spec fn lower_chars(s: Seq<char>) -> Seq<char> {
    s.map_values(|c: char| lower_char(c))
}

/// Folding twice is the same as folding once, so a key that is stored folded
/// is found again however the query is cased.
pub proof fn lemma_lower_chars_idempotent(s: Seq<char>)
    ensures
        lower_chars(lower_chars(s)) == lower_chars(s),
{
    assert(lower_chars(lower_chars(s)) =~= lower_chars(s));
}

fn lower_char_exec(c: char) -> (r: char)
    ensures
        r == lower_char(c),
{
    if 'A' <= c && c <= 'Z' {
        (((c as u8) + 32) as char)
    } else {
        c
    }
}

/// ASCII lower-casing of a string; non-ASCII characters are kept as they are.
pub fn to_ascii_lowercase(s: &str) -> (r: Vec<char>)
    ensures
        r@ == lower_chars(s@),
{
    let n: usize = s.unicode_len();
    let mut out: Vec<char> = Vec::new();
    let mut i: usize = 0;
    while i < n
        invariant
            n == s@.len(),
            i <= n,
            out@ == lower_chars(s@.take(i as int)),
        decreases n - i,
    {
        let c = s.get_char(i);
        out.push(lower_char_exec(c));
        proof {
            assert(s@.take(i + 1 as int).drop_last() =~= s@.take(i as int));
            assert(lower_chars(s@.take(i + 1)) =~= lower_chars(s@.take(i as int)).push(
                lower_char(s@[i as int]),
            ));
        }
        i = i + 1;
    }
    proof {
        assert(s@.take(n as int) =~= s@);
    }
    out
}

/// ASCII lower-casing, returned as a `String`.
pub fn lowercase_string(s: &str) -> (r: String)
    ensures
        r@ == lower_chars(s@),
{
    string_from_chars(to_ascii_lowercase(s))
}

// ---------------------------------------------------------------------------
// String building and comparison
// ---------------------------------------------------------------------------
/// Relies on `String` implementing `FromIterator<char>`: collecting an
/// iterator of characters yields a string of exactly those characters, in order.
#[verifier::external_body]
pub(crate) fn string_from_chars(v: Vec<char>) -> (r: String)
    ensures
        r@ == v@,
{
    v.into_iter().collect()
}

/// Character-wise string equality.
pub fn str_eq(a: &str, b: &str) -> (r: bool)
    ensures
        r == (a@ == b@),
{
    let na: usize = a.unicode_len();
    let nb: usize = b.unicode_len();
    if na != nb {
        proof {
            assert(a@ != b@);
        }
        return false;
    }
    let mut i: usize = 0;
    while i < na
        invariant
            na == a@.len(),
            na == b@.len(),
            i <= na,
            forall|j: int| 0 <= j < i ==> a@[j] == b@[j],
        decreases na - i,
    {
        if a.get_char(i) != b.get_char(i) {
            return false;
        }
        i = i + 1;
    }
    proof {
        assert(a@ =~= b@);
    }
    true
}

/// `p` is a prefix of `s`.
pub open spec fn has_prefix(s: Seq<char>, p: Seq<char>) -> bool {
    s.len() >= p.len() && s.subrange(0, p.len() as int) == p
}

/// Prefix test, character by character.
pub fn starts_with(s: &str, p: &str) -> (r: bool)
    ensures
        r == has_prefix(s@, p@),
{
    let ns: usize = s.unicode_len();
    let np: usize = p.unicode_len();
    if ns < np {
        return false;
    }
    let mut i: usize = 0;
    while i < np
        invariant
            ns == s@.len(),
            np == p@.len(),
            np <= ns,
            i <= np,
            forall|j: int| 0 <= j < i ==> s@[j] == p@[j],
        decreases np - i,
    {
        if s.get_char(i) != p.get_char(i) {
            proof {
                assert(s@.subrange(0, np as int)[i as int] != p@[i as int]);
            }
            return false;
        }
        i = i + 1;
    }
    proof {
        assert(s@.subrange(0, np as int) =~= p@);
    }
    true
}

// ---------------------------------------------------------------------------
// Decimal digit strings
// ---------------------------------------------------------------------------
pub open spec fn is_digit(c: char) -> bool {
    '0' <= c && c <= '9'
}

pub open spec fn digit_val(c: char) -> nat {
    (c as int - '0' as int) as nat
}

pub open spec fn all_digits(s: Seq<char>) -> bool {
    forall|i: int| 0 <= i < s.len() ==> is_digit(s[i])
}

/// Numeric value of a decimal digit string, most significant digit first.
pub open spec fn digits_val(s: Seq<char>) -> nat
    decreases s.len(),
{
    if s.len() == 0 {
        0
    } else {
        digits_val(s.drop_last()) * 10 + digit_val(s.last())
    }
}

/// A longer digit string never has a smaller value than any of its prefixes.
proof fn lemma_digits_val_take_le(s: Seq<char>, j: int)
    requires
        0 <= j <= s.len(),
    ensures
        digits_val(s.take(j)) <= digits_val(s),
    decreases s.len() - j,
{
    if j < s.len() {
        assert(s.take(j + 1).drop_last() =~= s.take(j));
        assert(digits_val(s.take(j + 1)) == digits_val(s.take(j)) * 10 + digit_val(
            s.take(j + 1).last(),
        ));
        lemma_digits_val_take_le(s, j + 1);
    } else {
        assert(s.take(j) =~= s);
    }
}

/// The value a quantity string stands for: the value of its digits when it is a
/// well-formed decimal integer that fits in a `u64`, and zero otherwise.
pub open spec fn spec_parse_quantity(s: Seq<char>) -> u64 {
    if s.len() > 0 && all_digits(s) && digits_val(s) <= u64::MAX {
        digits_val(s) as u64
    } else {
        0
    }
}

/// Parses a base-unit quantity. A malformed or overflowing quantity is read as
/// zero rather than failing the whole response.
pub fn parse_quantity(s: &str) -> (r: u64)
    ensures
        r == spec_parse_quantity(s@),
{
    let n: usize = s.unicode_len();
    if n == 0 {
        return 0;
    }
    let mut acc: u64 = 0;
    let mut i: usize = 0;
    while i < n
        invariant
            n == s@.len(),
            0 < n,
            i <= n,
            all_digits(s@.take(i as int)),
            acc == digits_val(s@.take(i as int)),
        decreases n - i,
    {
        let c = s.get_char(i);
        if !('0' <= c && c <= '9') {
            return 0;
        }
        let d: u64 = (c as u64) - 48;
        proof {
            assert(s@.take(i + 1).drop_last() =~= s@.take(i as int));
            assert(digits_val(s@.take(i + 1)) == acc * 10 + d);
        }
        let shifted = match acc.checked_mul(10) {
            Some(v) => v,
            None => {
                proof {
                    lemma_digits_val_take_le(s@, i + 1);
                }
                return 0;
            },
        };
        acc = match shifted.checked_add(d) {
            Some(v) => v,
            None => {
                proof {
                    lemma_digits_val_take_le(s@, i + 1);
                }
                return 0;
            },
        };
        proof {
            assert(all_digits(s@.take(i + 1)));
        }
        i = i + 1;
    }
    proof {
        assert(s@.take(n as int) =~= s@);
    }
    acc
}

// ---------------------------------------------------------------------------
// Decimal formatting
// ---------------------------------------------------------------------------
/// The character for one decimal digit.
pub open spec fn dec_digit(n: nat) -> char
    recommends
        n < 10,
{
    (((n % 10) + ('0' as int)) as u8) as char
}

/// Decimal rendering of a number, most significant digit first, no leading zeros.
pub open spec fn spec_dec(n: nat) -> Seq<char>
    decreases n,
{
    if n < 10 {
        seq![dec_digit(n)]
    } else {
        spec_dec(n / 10).push(dec_digit(n % 10))
    }
}

fn dec_digit_exec(n: u64) -> (r: char)
    requires
        n < 10,
    ensures
        r == dec_digit(n as nat),
{
    ((n as u8) + 48) as char
}

/// Decimal rendering of a `u64`.
pub fn format_u64(n: u64) -> (r: Vec<char>)
    ensures
        r@ == spec_dec(n as nat),
    decreases n,
{
    if n < 10 {
        let mut out: Vec<char> = Vec::new();
        out.push(dec_digit_exec(n));
        proof {
            assert(out@ =~= spec_dec(n as nat));
        }
        out
    } else {
        let mut out = format_u64(n / 10);
        out.push(dec_digit_exec(n % 10));
        out
    }
}

/// One lovelace is a millionth of an ada: quantity `q` renders as the whole
/// part, a dot, and exactly six fractional digits.
pub open spec fn spec_format_lovelace(q: u64) -> Seq<char> {
    let whole = q as nat / 1000000;
    let frac = q as nat % 1000000;
    spec_dec(whole) + seq![
        '.',
        dec_digit(frac / 100000 % 10),
        dec_digit(frac / 10000 % 10),
        dec_digit(frac / 1000 % 10),
        dec_digit(frac / 100 % 10),
        dec_digit(frac / 10 % 10),
        dec_digit(frac % 10),
    ]
}

/// Renders a lovelace quantity as a human-readable ada amount with six
/// fixed decimal places.
pub fn format_lovelace(q: u64) -> (r: Vec<char>)
    ensures
        r@ == spec_format_lovelace(q),
{
    let whole: u64 = q / 1000000;
    let frac: u64 = q % 1000000;
    let mut out = format_u64(whole);
    out.push('.');
    out.push(dec_digit_exec(frac / 100000 % 10));
    out.push(dec_digit_exec(frac / 10000 % 10));
    out.push(dec_digit_exec(frac / 1000 % 10));
    out.push(dec_digit_exec(frac / 100 % 10));
    out.push(dec_digit_exec(frac / 10 % 10));
    out.push(dec_digit_exec(frac % 10));
    proof {
        assert(out@ =~= spec_format_lovelace(q));
    }
    out
}

// ---------------------------------------------------------------------------
// Hex encoding
// ---------------------------------------------------------------------------
/// The lowercase hex character for a value below sixteen.
pub open spec fn hex_digit(n: u8) -> char
    recommends
        n < 16,
{
    if n < 10 {
        ((n + ('0' as u8)) as char)
    } else {
        ((n - 10 + ('a' as u8)) as char)
    }
}

/// Lowercase hex rendering of a byte sequence, two characters per byte.
pub open spec fn spec_hex(s: Seq<u8>) -> Seq<char>
    decreases s.len(),
{
    if s.len() == 0 {
        Seq::empty()
    } else {
        spec_hex(s.drop_last()) + seq![hex_digit(s.last() / 16), hex_digit(s.last() % 16)]
    }
}

pub proof fn lemma_spec_hex_len(s: Seq<u8>)
    ensures
        spec_hex(s).len() == 2 * s.len(),
    decreases s.len(),
{
    if s.len() > 0 {
        lemma_spec_hex_len(s.drop_last());
    }
}

fn hex_digit_exec(n: u8) -> (r: char)
    requires
        n < 16,
    ensures
        r == hex_digit(n),
{
    if n < 10 {
        (n + 48) as char
    } else {
        (n - 10 + 97) as char
    }
}

/// Lowercase hex encoding of a byte slice.
pub fn hex_encode(bytes: &[u8]) -> (r: Vec<char>)
    ensures
        r@ == spec_hex(bytes@),
{
    let n: usize = bytes.len();
    let mut out: Vec<char> = Vec::new();
    let mut i: usize = 0;
    while i < n
        invariant
            n == bytes@.len(),
            i <= n,
            out@ == spec_hex(bytes@.take(i as int)),
        decreases n - i,
    {
        let b = bytes[i];
        out.push(hex_digit_exec(b / 16));
        out.push(hex_digit_exec(b % 16));
        proof {
            assert(bytes@.take(i + 1).drop_last() =~= bytes@.take(i as int));
            assert(bytes@.take(i + 1).last() == bytes@[i as int]);
            assert(out@ =~= spec_hex(bytes@.take(i + 1)));
        }
        i = i + 1;
    }
    proof {
        assert(bytes@.take(n as int) =~= bytes@);
    }
    out
}

// ---------------------------------------------------------------------------
// Word counting
// ---------------------------------------------------------------------------
/// ASCII whitespace, the separators a recovery phrase is split on.
pub open spec fn is_space(c: char) -> bool {
    c == ' ' || c == '\t' || c == '\n' || c == '\r'
}

/// Number of maximal runs of non-space characters from position `i` on, given
/// whether position `i - 1` lay inside such a run.
pub open spec fn count_words_from(s: Seq<char>, i: int, in_word: bool) -> nat
    decreases s.len() - i when 0 <= i <= s.len()
{
    if i >= s.len() {
        0
    } else {
        let sp = is_space(s[i]);
        (if !sp && !in_word {
            1nat
        } else {
            0nat
        }) + count_words_from(s, i + 1, !sp)
    }
}

/// Number of whitespace-separated words in a phrase.
pub open spec fn spec_word_count(s: Seq<char>) -> nat {
    count_words_from(s, 0, false)
}

fn is_space_exec(c: char) -> (r: bool)
    ensures
        r == is_space(c),
{
    c == ' ' || c == '\t' || c == '\n' || c == '\r'
}

/// Counts the whitespace-separated words of a phrase.
pub fn count_words(s: &str) -> (r: usize)
    ensures
        r == spec_word_count(s@),
{
    let n: usize = s.unicode_len();
    let mut count: usize = 0;
    let mut in_word: bool = false;
    let mut i: usize = 0;
    while i < n
        invariant
            n == s@.len(),
            i <= n,
            count <= i,
            spec_word_count(s@) == count + count_words_from(s@, i as int, in_word),
        decreases n - i,
    {
        let c = s.get_char(i);
        let sp = is_space_exec(c);
        if !sp && !in_word {
            count = count + 1;
        }
        in_word = !sp;
        i = i + 1;
    }
    count
}

} // verus!
