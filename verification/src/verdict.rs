//! Defensive parsing of the model's free-text verdict.
//!
//! The model is asked to answer in the shape `score|reason`.  Only the
//! first `|` is structural: everything before it should be an unsigned
//! decimal score, everything after it is the free-text reason, which
//! may itself contain `|`.  A missing delimiter is a hard
//! [`ModerationError::MalformedVerdict`] failure; a score that does not
//! parse as a `u16` falls back to 0 ("no violation detected") rather
//! than failing the pipeline.

use vstd::prelude::*;

use crate::defs::GeminiCandidate;
use crate::defs::GeminiPostBodyPartsBody;
use crate::defs::GeminiPostResponse;

verus! {

/// A hard failure of one event's scoring; the event is dropped.
#[derive(Clone, Copy, Debug, PartialEq, Eq, Structural)]
pub enum ModerationError {
    /// The scoring call itself failed (network or connection).
    Transport,
    /// The scoring call returned a non-success status.
    HttpStatus,
    /// The response body did not match the expected schema.
    Deserialization,
    /// The concatenated response text holds no `|` delimiter.
    MalformedVerdict,
}

/// What a well-formed model reply yields: the score and the reason text.
#[derive(Debug, Clone, PartialEq, Eq)]
pub struct ParsedVerdict {
    pub score: u16,
    pub reason: String,
}

/// Whether `c` is one of `'0'..='9'`.
pub open spec fn is_ascii_digit(c: char) -> bool {
    '0' <= c && c <= '9'
}

/// The numeric value of a decimal digit.
pub open spec fn digit_value(c: char) -> int {
    c as int - '0' as int
}

pub open spec fn all_ascii_digits(s: Seq<char>) -> bool {
    forall|i: int| 0 <= i < s.len() ==> is_ascii_digit(s[i])
}

/// The value of a decimal digit string, most significant digit first.
pub open spec fn decimal_value(s: Seq<char>) -> int
    decreases s.len(),
{
    if s.len() == 0 {
        0
    } else {
        decimal_value(s.drop_last()) * 10 + digit_value(s.last())
    }
}

/// The digits of an unsigned decimal literal: a single leading `+` is allowed.
pub open spec fn unsigned_body(s: Seq<char>) -> Seq<char> {
    if s.len() > 0 && s[0] == '+' {
        s.subrange(1, s.len() as int)
    } else {
        s
    }
}

/// Whether `s` is a `u16` decimal literal: a non-empty run of digits
/// after the optional sign, with a value that fits.
pub open spec fn parses_as_u16(s: Seq<char>) -> bool {
    let b = unsigned_body(s);
    b.len() > 0 && all_ascii_digits(b) && decimal_value(b) <= u16::MAX
}

/// The score a verdict's score field yields: its decimal value, or the
/// fallback 0 when it is not a `u16` literal.
pub open spec fn score_spec(s: Seq<char>) -> u16 {
    if parses_as_u16(s) {
        decimal_value(unsigned_body(s)) as u16
    } else {
        0
    }
}

proof fn lemma_decimal_nonneg(s: Seq<char>)
    requires
        all_ascii_digits(s),
    ensures
        decimal_value(s) >= 0,
    decreases s.len(),
{
    if s.len() > 0 {
        assert(all_ascii_digits(s.drop_last()));
        lemma_decimal_nonneg(s.drop_last());
    }
}

/// A digit string is worth at least any of its prefixes.
proof fn lemma_decimal_prefix_le(s: Seq<char>, k: int)
    requires
        all_ascii_digits(s),
        0 <= k <= s.len(),
    ensures
        decimal_value(s.subrange(0, k)) <= decimal_value(s),
    decreases s.len() - k,
{
    if k == s.len() {
        assert(s.subrange(0, k) =~= s);
    } else {
        let t = s.drop_last();
        assert(all_ascii_digits(t));
        assert(t.subrange(0, k) =~= s.subrange(0, k));
        lemma_decimal_prefix_le(t, k);
        lemma_decimal_nonneg(t);
    }
}

/// Parses the score field of a verdict.
///
/// Returns the decimal value when the field is a `u16` literal, and the
/// fallback 0 on anything else — an empty field, a stray character, or
/// a value too large for `u16`.
pub fn parse_score(s: &str) -> (r: u16)
    ensures
        r == score_spec(s@),
{
    let n = s.unicode_len();
    let mut start: usize = 0;
    if n > 0 && s.get_char(0) == '+' {
        start = 1;
    }
    proof {
        assert(unsigned_body(s@) =~= s@.subrange(start as int, n as int));
    }
    let mut acc: u32 = 0;
    let mut i: usize = start;
    if i == n {
        // Empty digit run: not a literal.
        return 0;
    }
    while i < n
        invariant
            start <= i <= n,
            n == s@.len(),
            unsigned_body(s@) =~= s@.subrange(start as int, n as int),
            all_ascii_digits(s@.subrange(start as int, i as int)),
            acc == decimal_value(s@.subrange(start as int, i as int)),
            acc <= u16::MAX,
        decreases n - i,
    {
        let c = s.get_char(i);
        let cu = c as u32;
        if cu < 48 || cu > 57 {
            // A non-digit anywhere in the run: fall back.
            proof {
                assert(!is_ascii_digit(unsigned_body(s@)[i - start]));
            }
            return 0;
        }
        let d = cu - 48;
        let acc2 = acc * 10 + d;
        proof {
            assert(s@.subrange(start as int, i + 1).drop_last() =~= s@.subrange(
                start as int,
                i as int,
            ));
            assert(s@.subrange(start as int, i + 1).last() == s@[i as int]);
        }
        if acc2 > 65535 {
            // The run can only grow from here: the full value cannot fit.
            proof {
                let b = unsigned_body(s@);
                if all_ascii_digits(b) {
                    lemma_decimal_prefix_le(b, i + 1 - start);
                    assert(b.subrange(0, i + 1 - start) =~= s@.subrange(start as int, i + 1));
                }
            }
            return 0;
        }
        acc = acc2;
        i += 1;
    }
    proof {
        assert(s@.subrange(start as int, n as int) =~= unsigned_body(s@));
        assert(parses_as_u16(s@));
    }
    acc as u16
}

/// Whether position `i` holds the first `|` of `s`.
pub open spec fn is_first_delim(s: Seq<char>, i: int) -> bool {
    &&& 0 <= i < s.len()
    &&& s[i] == '|'
    &&& forall|j: int| 0 <= j < i ==> s[j] != '|'
}

/// Whether `s` holds a `|` at all.
pub open spec fn has_delim(s: Seq<char>) -> bool {
    exists|i: int| is_first_delim(s, i)
}

/// The position of the first `|`; meaningful only when [`has_delim`] holds.
pub open spec fn first_delim(s: Seq<char>) -> int {
    choose|i: int| is_first_delim(s, i)
}

/// Everything before the first delimiter.
pub open spec fn score_part(s: Seq<char>) -> Seq<char> {
    s.subrange(0, first_delim(s))
}

/// Everything after the first delimiter, later delimiters included.
pub open spec fn reason_part(s: Seq<char>) -> Seq<char> {
    s.subrange(first_delim(s) + 1, s.len() as int)
}

fn find_delim(s: &str) -> (r: Option<usize>)
    ensures
        match r {
            Some(i) => is_first_delim(s@, i as int),
            None => !has_delim(s@),
        },
{
    let n = s.unicode_len();
    let mut i: usize = 0;
    while i < n
        invariant
            0 <= i <= n,
            n == s@.len(),
            forall|j: int| 0 <= j < i ==> s@[j] != '|',
        decreases n - i,
    {
        if s.get_char(i) == '|' {
            return Some(i);
        }
        i += 1;
    }
    proof {
        assert forall|k: int| !is_first_delim(s@, k) by {
            if 0 <= k < s@.len() {
                assert(s@[k] != '|');
            }
        }
    }
    None
}

/// Splits a concatenated model reply at its first `|` and parses the score.
///
/// Succeeds exactly when the text holds a `|`; the reason keeps any
/// further delimiters verbatim, and a malformed score field falls back
/// to 0 rather than failing.
pub fn parse_verdict(s: &str) -> (r: Result<ParsedVerdict, ModerationError>)
    ensures
        match r {
            Ok(v) => {
                &&& has_delim(s@)
                &&& v.score == score_spec(score_part(s@))
                &&& v.reason@ == reason_part(s@)
            },
            Err(e) => {
                &&& e == ModerationError::MalformedVerdict
                &&& !has_delim(s@)
            },
        },
{
    let n = s.unicode_len();
    match find_delim(s) {
        Some(i) => {
            proof {
                // `choose` may pick any first-delimiter position, but
                // that position is unique.
                let k = first_delim(s@);
                assert(is_first_delim(s@, k));
                if k < i as int {
                    assert(s@[k] != '|');
                }
                if (i as int) < k {
                    assert(s@[i as int] != '|');
                }
                assert(k == i as int);
            }
            let score_str = s.substring_char(0, i);
            let reason_str = s.substring_char(i + 1, n);
            let score = parse_score(score_str);
            Ok(ParsedVerdict { score, reason: String::from_str(reason_str) })
        },
        None => Err(ModerationError::MalformedVerdict),
    }
}

/// The text of one content block: its parts concatenated in order.
pub open spec fn parts_text(parts: Seq<GeminiPostBodyPartsBody>) -> Seq<char>
    decreases parts.len(),
{
    if parts.len() == 0 {
        Seq::empty()
    } else {
        parts_text(parts.drop_last()) + parts.last().text@
    }
}

/// The text of a run of candidates: each candidate's content in order.
pub open spec fn candidates_text(cands: Seq<GeminiCandidate>) -> Seq<char>
    decreases cands.len(),
{
    if cands.len() == 0 {
        Seq::empty()
    } else {
        candidates_text(cands.drop_last()) + parts_text(cands.last().content.parts@)
    }
}

/// The text a response yields for parsing: every part of every
/// candidate, concatenated in the order returned.
pub open spec fn response_text(resp: GeminiPostResponse) -> Seq<char> {
    candidates_text(resp.candidates@)
}

/// Concatenates, in order, the text of every part of every candidate.
pub fn extract_text(resp: &GeminiPostResponse) -> (r: String)
    ensures
        r@ == response_text(*resp),
{
    let mut out = String::new();
    let mut ci: usize = 0;
    while ci < resp.candidates.len()
        invariant
            0 <= ci <= resp.candidates.len(),
            out@ == candidates_text(resp.candidates@.subrange(0, ci as int)),
        decreases resp.candidates.len() - ci,
    {
        let cand = &resp.candidates[ci];
        let mut pi: usize = 0;
        while pi < cand.content.parts.len()
            invariant
                0 <= ci < resp.candidates.len(),
                0 <= pi <= cand.content.parts.len(),
                cand == resp.candidates@[ci as int],
                out@ == candidates_text(resp.candidates@.subrange(0, ci as int)) + parts_text(
                    cand.content.parts@.subrange(0, pi as int),
                ),
            decreases cand.content.parts.len() - pi,
        {
            out.append(cand.content.parts[pi].text.as_str());
            proof {
                let parts = cand.content.parts@;
                assert(parts.subrange(0, pi + 1).drop_last() =~= parts.subrange(0, pi as int));
                assert(parts.subrange(0, pi + 1).last() == parts[pi as int]);
                assert(out@ =~= candidates_text(resp.candidates@.subrange(0, ci as int))
                    + parts_text(parts.subrange(0, pi + 1)));
            }
            pi += 1;
        }
        proof {
            let cands = resp.candidates@;
            assert(cand.content.parts@.subrange(0, cand.content.parts@.len() as int)
                =~= cand.content.parts@);
            assert(cands.subrange(0, ci + 1).drop_last() =~= cands.subrange(0, ci as int));
            assert(cands.subrange(0, ci + 1).last() == cands[ci as int]);
        }
        ci += 1;
    }
    proof {
        assert(resp.candidates@.subrange(0, resp.candidates@.len() as int)
            =~= resp.candidates@);
    }
    out
}

} // verus!
