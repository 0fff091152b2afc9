//! End-to-end tests of the event pipeline: screen, build, process.

use gemini_moderator::defs::GeminiCandidate;
use gemini_moderator::defs::GeminiPostBodyParts;
use gemini_moderator::defs::GeminiPostBodyPartsBody;
use gemini_moderator::defs::GeminiPostResponse;
use gemini_moderator::enums::GeminiHarmCategory;
use gemini_moderator::enums::GeminiSafetyThreshold;
use gemini_moderator::pipeline::build_post_body;
use gemini_moderator::pipeline::build_prompt;
use gemini_moderator::pipeline::is_eligible;
use gemini_moderator::pipeline::process_response;
use gemini_moderator::pipeline::screen_message;
use gemini_moderator::policy::ModerationConfig;
use gemini_moderator::policy::ModerationDecision;
use gemini_moderator::verdict::ModerationError;

fn response_of(parts: Vec<&str>) -> GeminiPostResponse {
    GeminiPostResponse {
        candidates: vec![GeminiCandidate {
            content: GeminiPostBodyParts {
                parts: parts
                    .into_iter()
                    .map(|t| GeminiPostBodyPartsBody { text: t.to_string() })
                    .collect(),
            },
            finish_reason: None,
            safety_ratings: None,
            token_count: None,
            index: None,
        }],
    }
}

#[test]
fn bot_authors_and_empty_messages_are_screened_out() {
    assert!(!is_eligible(true, "hello"));
    assert!(!is_eligible(false, ""));
    assert!(!is_eligible(true, ""));
    assert!(is_eligible(false, "hello"));
    // No request is ever built for an ineligible event.
    assert!(screen_message(true, "hello").is_none());
    assert!(screen_message(false, "").is_none());
    assert!(screen_message(false, "hello").is_some());
}

#[test]
fn prompt_substitutes_the_message_verbatim() {
    let prompt = build_prompt("wtf");
    assert!(prompt.starts_with("Determine how well the posts"));
    assert!(prompt.contains("\n\nPost content: \nwtf\n\nBad score and reason:"));
    assert!(prompt.ends_with("Bad score and reason:"));
    // The substitution is verbatim, delimiters and markup included.
    let tricky = build_prompt("a|b{}c");
    assert!(tricky.contains("\n\nPost content: \na|b{}c\n\nBad score and reason:"));
}

#[test]
fn built_request_has_the_fixed_shape() {
    let body = build_post_body("hello there");
    assert_eq!(body.contents.len(), 1);
    assert_eq!(body.contents[0].parts.len(), 1);
    assert_eq!(body.contents[0].parts[0].text, build_prompt("hello there"));

    let settings = body.safety_settings.as_ref().unwrap();
    assert_eq!(settings.len(), 4);
    assert_eq!(settings[0].category, GeminiHarmCategory::SexuallyExplicit);
    assert_eq!(settings[1].category, GeminiHarmCategory::HateSpeech);
    assert_eq!(settings[2].category, GeminiHarmCategory::Harassment);
    assert_eq!(settings[3].category, GeminiHarmCategory::DangerousContent);
    for s in settings {
        assert_eq!(s.threshold, GeminiSafetyThreshold::BlockNone);
    }

    let generation = body.generation_config.as_ref().unwrap();
    assert_eq!(generation.temperature_milli, Some(0));
    assert!(generation.stop_sequences.is_none());
    assert!(generation.top_p_milli.is_none());
    assert!(generation.top_k.is_none());
    assert!(generation.max_output_tokens.is_none());
    assert!(generation.candidate_count.is_none());
}

#[test]
fn high_scores_are_deleted() {
    let config = ModerationConfig { delete_threshold: 850, warn_threshold: 1950 };
    let resp = response_of(vec!["900|", "hate speech"]);
    assert_eq!(
        process_response(&resp, &config),
        Ok(ModerationDecision::Delete(900, "hate speech".to_string()))
    );
}

#[test]
fn middling_scores_are_warned() {
    let config = ModerationConfig { delete_threshold: 1000, warn_threshold: 500 };
    let resp = response_of(vec!["700|possibly sexually explicit language"]);
    assert_eq!(
        process_response(&resp, &config),
        Ok(ModerationDecision::Warn(700, "possibly sexually explicit language".to_string()))
    );
}

#[test]
fn low_scores_are_allowed() {
    let config = ModerationConfig { delete_threshold: 850, warn_threshold: 1950 };
    let resp = response_of(vec!["0|"]);
    assert_eq!(process_response(&resp, &config), Ok(ModerationDecision::Allow));
}

#[test]
fn unparsable_scores_fall_back_to_allow() {
    let config = ModerationConfig { delete_threshold: 850, warn_threshold: 1950 };
    let resp = response_of(vec!["n/a|something"]);
    assert_eq!(process_response(&resp, &config), Ok(ModerationDecision::Allow));
}

#[test]
fn responses_without_a_delimiter_are_dropped() {
    let config = ModerationConfig::standard();
    let resp = response_of(vec!["the model rambled instead"]);
    assert_eq!(process_response(&resp, &config), Err(ModerationError::MalformedVerdict));
    let empty = GeminiPostResponse { candidates: vec![] };
    assert_eq!(process_response(&empty, &config), Err(ModerationError::MalformedVerdict));
}
