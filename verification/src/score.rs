//! The requested score: parsing the optional argument token, validating it
//! against the allowed adjustment range, and rendering the decimal bytes
//! that the score-write operation stores in the control file.

use vstd::prelude::*;

verus! {

/// The lowest adjustment value a caller may request.
pub const SCORE_MIN: i32 = -1000;
/// The highest adjustment value a caller may request.
pub const SCORE_MAX: i32 = 1000;

/// A decimal digit character.
pub open spec fn is_dec_digit(c: char) -> bool {
    '0' <= c && c <= '9'
}

/// The numeric value of a decimal digit character.
pub open spec fn digit_value(c: char) -> int {
    c as int - '0' as int
}

pub open spec fn all_dec_digits(s: Seq<char>) -> bool {
    forall|i: int| 0 <= i < s.len() ==> is_dec_digit(#[trigger] s[i])
}

/// A digit string read as a base-10 number, most significant digit first.
pub open spec fn digits_value(s: Seq<char>) -> int
    decreases s.len(),
{
    if s.len() == 0 {
        0
    } else {
        10 * digits_value(s.drop_last()) + digit_value(s.last())
    }
}

/// The digit part of a token: everything after an optional leading sign.
pub open spec fn token_body(s: Seq<char>) -> Seq<char> {
    if s.len() > 0 && (s[0] == '+' || s[0] == '-') {
        s.drop_first()
    } else {
        s
    }
}

pub open spec fn token_is_negative(s: Seq<char>) -> bool {
    s.len() > 0 && s[0] == '-'
}

/// A token is well formed when an optional sign is followed by one or more
/// decimal digits and nothing else.
pub open spec fn token_well_formed(s: Seq<char>) -> bool {
    token_body(s).len() > 0 && all_dec_digits(token_body(s))
}

/// The signed value of a well-formed token.
pub open spec fn token_int(s: Seq<char>) -> int {
    if token_is_negative(s) {
        -digits_value(token_body(s))
    } else {
        digits_value(token_body(s))
    }
}

/// What parsing a token as a signed 32-bit integer yields: the value of an
/// optionally signed digit string when it fits, and nothing otherwise.
pub open spec fn token_value(s: Seq<char>) -> Option<i32> {
    if token_well_formed(s) && i32::MIN <= token_int(s) <= i32::MAX {
        Some(token_int(s) as i32)
    } else {
        None
    }
}

proof fn lemma_digits_value_nonneg(s: Seq<char>)
    requires
        all_dec_digits(s),
    ensures
        digits_value(s) >= 0,
    decreases s.len(),
{
    if s.len() > 0 {
        assert(all_dec_digits(s.drop_last()));
        lemma_digits_value_nonneg(s.drop_last());
    }
}

/// A digit string is worth at least as much as any of its prefixes.
proof fn lemma_digits_value_prefix_le(s: Seq<char>, j: int)
    requires
        all_dec_digits(s),
        0 <= j <= s.len(),
    ensures
        digits_value(s.subrange(0, j)) <= digits_value(s),
    decreases s.len() - j,
{
    if j == s.len() {
        assert(s.subrange(0, j) =~= s);
    } else {
        assert(all_dec_digits(s.subrange(0, j)));
        lemma_digits_value_nonneg(s.subrange(0, j));
        assert(s.subrange(0, j + 1).drop_last() =~= s.subrange(0, j));
        assert(s.subrange(0, j + 1).last() == s[j]);
        lemma_digits_value_prefix_le(s, j + 1);
    }
}

/// Parse a token as a base-10 signed 32-bit integer: an optional `+` or `-`
/// sign followed by one or more decimal digits, rejecting anything else and
/// any value that does not fit.
pub fn parse_score_token(s: &str) -> (r: Option<i32>)
    ensures
        r == token_value(s@),
{
    let n = s.unicode_len();
    if n == 0 {
        return None;
    }
    let first = s.get_char(0);
    let neg = first == '-';
    let start: usize = if first == '-' || first == '+' {
        1
    } else {
        0
    };
    if start == n {
        // a bare sign has an empty digit part
        return None;
    }
    let ghost body: Seq<char> = token_body(s@);
    proof {
        assert(body =~= s@.subrange(start as int, n as int));
    }
    let mut i: usize = start;
    let mut mag: u64 = 0;
    while i < n
        invariant
            start <= i <= n,
            n == s@.len(),
            start == 1 || start == 0,
            start < n,
            body == token_body(s@),
            body =~= s@.subrange(start as int, n as int),
            neg == token_is_negative(s@),
            all_dec_digits(s@.subrange(start as int, i as int)),
            mag == digits_value(s@.subrange(start as int, i as int)),
            mag <= 0x8000_0000u64,
        decreases n - i,
    {
        let c = s.get_char(i);
        let cv = c as u32;
        if cv < 48 || cv > 57 {
            proof {
                assert(body[i - start] == s@[i as int]);
                assert(!is_dec_digit(body[i - start]));
                assert(!token_well_formed(s@));
            }
            return None;
        }
        let d: u64 = (cv - 48) as u64;
        let next: u64 = mag * 10 + d;
        proof {
            let k = i - start;
            assert(s@.subrange(start as int, i + 1).drop_last() =~= s@.subrange(
                start as int,
                i as int,
            ));
            assert(s@.subrange(start as int, i + 1).last() == s@[i as int]);
            assert(digits_value(s@.subrange(start as int, i + 1)) == next);
        }
        if next > 0x8000_0000u64 {
            proof {
                if token_well_formed(s@) {
                    assert(body.subrange(0, i + 1 - start) =~= s@.subrange(start as int, i + 1));
                    lemma_digits_value_prefix_le(body, i + 1 - start);
                    assert(digits_value(body) > 0x8000_0000);
                }
            }
            return None;
        }
        mag = next;
        i = i + 1;
        proof {
            assert(all_dec_digits(s@.subrange(start as int, i as int)));
        }
    }
    proof {
        assert(s@.subrange(start as int, i as int) =~= body);
        assert(token_well_formed(s@));
        assert(token_int(s@) == if neg {
            -(mag as int)
        } else {
            mag as int
        });
    }
    if neg {
        let v: i32 = (-(mag as i64)) as i32;
        Some(v)
    } else {
        if mag > 0x7fff_ffffu64 {
            // 2147483648 without a sign does not fit
            return None;
        }
        Some(mag as i32)
    }
}

/// A requested value outside `[SCORE_MIN, SCORE_MAX]` is replaced by the
/// neutral adjustment 0 rather than clamped or rejected.
pub open spec fn validated_score(v: i32) -> i32 {
    if SCORE_MIN <= v <= SCORE_MAX {
        v
    } else {
        0
    }
}

pub open spec fn opt_token_view(token: Option<&str>) -> Option<Seq<char>> {
    match token {
        Some(s) => Some(s@),
        None => None,
    }
}

/// The score the operation acts on: the token's value when it parses and
/// lies in the allowed range, and the neutral adjustment 0 when the token is
/// absent, malformed or out of range.
pub open spec fn spec_requested_score(token: Option<Seq<char>>) -> i32 {
    match token {
        Some(s) => match token_value(s) {
            Some(v) => validated_score(v),
            None => 0,
        },
        None => 0,
    }
}

pub fn requested_score(token: Option<&str>) -> (r: i32)
    ensures
        r == spec_requested_score(opt_token_view(token)),
        SCORE_MIN <= r <= SCORE_MAX,
{
    match token {
        Some(s) => match parse_score_token(s) {
            Some(v) => if SCORE_MIN <= v && v <= SCORE_MAX {
                v
            } else {
                0
            },
            None => 0,
        },
        None => 0,
    }
}

/// The ASCII decimal digits of a nonnegative number, most significant first.
pub open spec fn dec_digits(n: nat) -> Seq<u8>
    decreases n,
{
    if n < 10 {
        seq![(48 + n) as u8]
    } else {
        dec_digits(n / 10).push((48 + n % 10) as u8)
    }
}

/// The ASCII decimal representation of a signed number: a `-` sign for
/// negative values, no sign otherwise.
pub open spec fn dec_repr(v: int) -> Seq<u8> {
    if v < 0 {
        seq![45u8] + dec_digits((-v) as nat)
    } else {
        dec_digits(v as nat)
    }
}

fn push_dec_digits(m: u64, out: &mut Vec<u8>)
    ensures
        final(out)@ == old(out)@ + dec_digits(m as nat),
    decreases m,
{
    if m >= 10 {
        push_dec_digits(m / 10, out);
        out.push((m % 10) as u8 + 48);
        assert(out@ =~= old(out)@ + dec_digits(m as nat));
    } else {
        out.push(m as u8 + 48);
        assert(out@ =~= old(out)@ + dec_digits(m as nat));
    }
}

/// Render a signed 32-bit value as its ASCII decimal representation.
pub fn decimal_bytes(v: i32) -> (r: Vec<u8>)
    ensures
        r@ == dec_repr(v as int),
{
    let mut out: Vec<u8> = Vec::new();
    if v < 0 {
        out.push(45);
        let m: u64 = (-(v as i64)) as u64;
        push_dec_digits(m, &mut out);
        assert(out@ =~= dec_repr(v as int));
    } else {
        push_dec_digits(v as u64, &mut out);
        assert(out@ =~= dec_repr(v as int));
    }
    out
}

/// The exact bytes that the score-write operation stores for a given token.
pub open spec fn spec_score_file_content(token: Option<Seq<char>>) -> Seq<u8> {
    dec_repr(spec_requested_score(token) as int)
}

/// Compute the bytes to store in the control file for an optional argument
/// token: the decimal representation of the validated requested score.
pub fn score_file_content(token: Option<&str>) -> (r: Vec<u8>)
    ensures
        r@ == spec_score_file_content(opt_token_view(token)),
{
    let score = requested_score(token);
    decimal_bytes(score)
}

/// One whole-file write: the stored content afterwards is exactly the data
/// written, whatever was stored before.
pub open spec fn file_after_write(prev: Seq<u8>, data: Seq<u8>) -> Seq<u8> {
    data
}

/// A token whose value v lies in the allowed range is written through
/// exactly: the stored bytes are the decimal representation of v itself.
pub proof fn lemma_in_range_score_written_exactly(s: Seq<char>, v: i32)
    requires
        token_value(s) == Some(v),
        SCORE_MIN <= v <= SCORE_MAX,
    ensures
        spec_score_file_content(Some(s)) == dec_repr(v as int),
{
}

/// A token that does not parse as a 32-bit integer — and likewise an absent
/// token — leads to the neutral content `"0"`.
pub proof fn lemma_unparsable_token_writes_zero(token: Option<Seq<char>>)
    requires
        (match token {
            Some(s) => token_value(s) is None,
            None => true,
        }),
    ensures
        spec_score_file_content(token) == seq![48u8],
{
    assert(spec_score_file_content(token) =~= seq![48u8]);
}

/// A token whose value lies outside the allowed range leads to the neutral
/// content `"0"`, not to the nearest bound.
pub proof fn lemma_out_of_range_score_writes_zero(s: Seq<char>, v: i32)
    requires
        token_value(s) == Some(v),
        !(SCORE_MIN <= v <= SCORE_MAX),
    ensures
        spec_score_file_content(Some(s)) == seq![48u8],
{
    assert(spec_score_file_content(Some(s)) =~= seq![48u8]);
}

/// Writing the score twice in succession with the same input leaves the
/// same final content as writing it once.
pub proof fn lemma_score_write_idempotent(prev: Seq<u8>, data: Seq<u8>)
    ensures
        file_after_write(file_after_write(prev, data), data) == file_after_write(prev, data),
{
}

} // verus!
