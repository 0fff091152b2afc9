//! Exhaustive round-trip tests of every wire vocabulary.

use gemini_moderator::defs::GeminiSafetyCategory;
use gemini_moderator::enums::DecodeError;
use gemini_moderator::enums::GeminiFinishReason;
use gemini_moderator::enums::GeminiHarmCategory;
use gemini_moderator::enums::GeminiHarmProbability;
use gemini_moderator::enums::GeminiSafetyThreshold;

#[test]
fn harm_category_wire_strings() {
    let table = vec![
        (GeminiHarmCategory::Unspecified, "HARM_CATEGORY_UNSPECIFIED"),
        (GeminiHarmCategory::Derogatory, "HARM_CATEGORY_DEROGATORY"),
        (GeminiHarmCategory::Toxicity, "HARM_CATEGORY_TOXICITY"),
        (GeminiHarmCategory::Violence, "HARM_CATEGORY_VIOLENCE"),
        (GeminiHarmCategory::Sexual, "HARM_CATEGORY_SEXUAL"),
        (GeminiHarmCategory::Medical, "HARM_CATEGORY_MEDICAL"),
        (GeminiHarmCategory::Dangerous, "HARM_CATEGORY_DANGEROUS"),
        (GeminiHarmCategory::Harassment, "HARM_CATEGORY_HARASSMENT"),
        (GeminiHarmCategory::HateSpeech, "HARM_CATEGORY_HATE_SPEECH"),
        (GeminiHarmCategory::SexuallyExplicit, "HARM_CATEGORY_SEXUALLY_EXPLICIT"),
        (GeminiHarmCategory::DangerousContent, "HARM_CATEGORY_DANGEROUS_CONTENT"),
    ];
    for (variant, wire) in table {
        assert_eq!(variant.to_wire(), wire);
        assert_eq!(GeminiHarmCategory::from_wire(wire), Ok(variant));
    }
}

#[test]
fn safety_threshold_wire_strings() {
    let table = vec![
        (GeminiSafetyThreshold::Unspecified, "HARM_BLOCK_THRESHOLD_UNSPECIFIED"),
        (GeminiSafetyThreshold::BlockNone, "BLOCK_NONE"),
        (GeminiSafetyThreshold::OnlyHigh, "BLOCK_ONLY_HIGH"),
        (GeminiSafetyThreshold::MediumAndAbove, "BLOCK_MEDIUM_AND_ABOVE"),
        (GeminiSafetyThreshold::LowAndAbove, "BLOCK_LOW_AND_ABOVE"),
    ];
    for (variant, wire) in table {
        assert_eq!(variant.to_wire(), wire);
        assert_eq!(GeminiSafetyThreshold::from_wire(wire), Ok(variant));
    }
}

#[test]
fn finish_reason_wire_strings() {
    let table = vec![
        (GeminiFinishReason::Unspecified, "FINISH_REASON_UNSPECIFIED"),
        (GeminiFinishReason::Stop, "STOP"),
        (GeminiFinishReason::MaxTokens, "MAX_TOKENS"),
        (GeminiFinishReason::Safety, "SAFETY"),
        (GeminiFinishReason::Recitation, "RECITATION"),
    ];
    for (variant, wire) in table {
        assert_eq!(variant.to_wire(), wire);
        assert_eq!(GeminiFinishReason::from_wire(wire), Ok(variant));
    }
}

#[test]
fn harm_probability_wire_strings() {
    let table = vec![
        (GeminiHarmProbability::Unspecified, "HARM_PROBABILITY_UNSPECIFIED"),
        (GeminiHarmProbability::Negligible, "NEGLIGIBLE"),
        (GeminiHarmProbability::Low, "LOW"),
        (GeminiHarmProbability::Medium, "MEDIUM"),
        (GeminiHarmProbability::High, "HIGH"),
    ];
    for (variant, wire) in table {
        assert_eq!(variant.to_wire(), wire);
        assert_eq!(GeminiHarmProbability::from_wire(wire), Ok(variant));
    }
}

#[test]
fn safety_category_wire_strings() {
    let table = vec![
        (GeminiSafetyCategory::Unspecified, "HARM_CATEGORY_UNSPECIFIED"),
        (GeminiSafetyCategory::Derogatory, "HARM_CATEGORY_DEROGATORY"),
        (GeminiSafetyCategory::Toxicity, "HARM_CATEGORY_TOXICITY"),
        (GeminiSafetyCategory::Violence, "HARM_CATEGORY_VIOLENCE"),
        (GeminiSafetyCategory::Sexual, "HARM_CATEGORY_SEXUAL"),
        (GeminiSafetyCategory::Medical, "HARM_CATEGORY_MEDICAL"),
        (GeminiSafetyCategory::Dangerous, "HARM_CATEGORY_DANGEROUS"),
        (GeminiSafetyCategory::Harassment, "HARM_CATEGORY_HARASSMENT"),
        (GeminiSafetyCategory::Speech, "HARM_CATEGORY_SPEECH"),
        (GeminiSafetyCategory::Explicit, "HARM_CATEGORY_EXPLICIT"),
        (GeminiSafetyCategory::DangerousContent, "HARM_CATEGORY_DANGEROUS_CONTENT"),
    ];
    for (variant, wire) in table {
        assert_eq!(variant.to_wire(), wire);
        assert_eq!(GeminiSafetyCategory::from_wire(wire), Ok(variant));
    }
}

#[test]
fn decoding_is_exact_match() {
    // Case, whitespace, and truncation all miss the fixed set.
    assert_eq!(
        GeminiHarmCategory::from_wire("harm_category_unspecified"),
        Err(DecodeError::UnknownVariant)
    );
    assert_eq!(
        GeminiHarmCategory::from_wire("HARM_CATEGORY_UNSPECIFIED "),
        Err(DecodeError::UnknownVariant)
    );
    assert_eq!(GeminiHarmCategory::from_wire(""), Err(DecodeError::UnknownVariant));
    assert_eq!(GeminiHarmCategory::from_wire("HARM_CATEGORY"), Err(DecodeError::UnknownVariant));
    assert_eq!(GeminiSafetyThreshold::from_wire("BLOCK"), Err(DecodeError::UnknownVariant));
    assert_eq!(GeminiSafetyThreshold::from_wire("block_none"), Err(DecodeError::UnknownVariant));
    assert_eq!(GeminiFinishReason::from_wire("stop"), Err(DecodeError::UnknownVariant));
    assert_eq!(GeminiFinishReason::from_wire("STOPPED"), Err(DecodeError::UnknownVariant));
    assert_eq!(GeminiHarmProbability::from_wire("negligible"), Err(DecodeError::UnknownVariant));
    assert_eq!(GeminiHarmProbability::from_wire("LOW "), Err(DecodeError::UnknownVariant));
    assert_eq!(
        GeminiSafetyCategory::from_wire("HARM_CATEGORY_HATE_SPEECH"),
        Err(DecodeError::UnknownVariant)
    );
}
