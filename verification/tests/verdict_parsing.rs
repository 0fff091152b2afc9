//! Scenario tests of the `score|reason` parser and the text extraction.

use gemini_moderator::defs::GeminiCandidate;
use gemini_moderator::defs::GeminiPostBodyParts;
use gemini_moderator::defs::GeminiPostBodyPartsBody;
use gemini_moderator::defs::GeminiPostResponse;
use gemini_moderator::verdict::extract_text;
use gemini_moderator::verdict::parse_score;
use gemini_moderator::verdict::parse_verdict;
use gemini_moderator::verdict::ModerationError;

fn candidate(parts: Vec<&str>) -> GeminiCandidate {
    GeminiCandidate {
        content: GeminiPostBodyParts {
            parts: parts
                .into_iter()
                .map(|t| GeminiPostBodyPartsBody { text: t.to_string() })
                .collect(),
        },
        finish_reason: None,
        safety_ratings: None,
        token_count: None,
        index: None,
    }
}

#[test]
fn parses_score_and_reason() {
    let v = parse_verdict("400|possibly offensive language").unwrap();
    assert_eq!(v.score, 400);
    assert_eq!(v.reason, "possibly offensive language");
}

#[test]
fn parses_zero_with_empty_reason() {
    let v = parse_verdict("0|").unwrap();
    assert_eq!(v.score, 0);
    assert_eq!(v.reason, "");
}

#[test]
fn malformed_score_falls_back_to_zero() {
    let v = parse_verdict("not-a-number|reason").unwrap();
    assert_eq!(v.score, 0);
    assert_eq!(v.reason, "reason");
}

#[test]
fn missing_delimiter_is_a_hard_failure() {
    assert_eq!(parse_verdict("no delimiter here"), Err(ModerationError::MalformedVerdict));
    assert_eq!(parse_verdict(""), Err(ModerationError::MalformedVerdict));
}

#[test]
fn reason_keeps_later_delimiters() {
    let v = parse_verdict("700|contains | a pipe").unwrap();
    assert_eq!(v.score, 700);
    assert_eq!(v.reason, "contains | a pipe");
}

#[test]
fn empty_score_field_falls_back() {
    let v = parse_verdict("|reason").unwrap();
    assert_eq!(v.score, 0);
    assert_eq!(v.reason, "reason");
}

#[test]
fn score_parsing_matches_u16_literals() {
    assert_eq!(parse_score("0"), 0);
    assert_eq!(parse_score("400"), 400);
    assert_eq!(parse_score("65535"), 65535);
    assert_eq!(parse_score("+400"), 400);
    // Too large for u16, empty, or stray characters: the fallback.
    assert_eq!(parse_score("65536"), 0);
    assert_eq!(parse_score("99999999999999999999"), 0);
    assert_eq!(parse_score(""), 0);
    assert_eq!(parse_score("+"), 0);
    assert_eq!(parse_score("-1"), 0);
    assert_eq!(parse_score("4 00"), 0);
    assert_eq!(parse_score(" 400"), 0);
    assert_eq!(parse_score("400 "), 0);
}

#[test]
fn extracts_candidate_text_in_order() {
    let resp = GeminiPostResponse {
        candidates: vec![candidate(vec!["400|", "possibly "]), candidate(vec!["offensive"])],
    };
    assert_eq!(extract_text(&resp), "400|possibly offensive");
}

#[test]
fn extracts_nothing_from_an_empty_candidate_list() {
    let resp = GeminiPostResponse { candidates: vec![] };
    assert_eq!(extract_text(&resp), "");
}
