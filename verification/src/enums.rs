//! Wire-string codecs for the scoring endpoint's closed vocabularies.
//!
//! Every variant has exactly one canonical wire string; decoding is
//! case-sensitive and exact, and a string outside the fixed set is a
//! hard [`DecodeError::UnknownVariant`] failure — no variant swallows
//! unknown input.  Each enum carries a proved round-trip law: decoding
//! the wire string of a variant yields that variant back.

use vstd::prelude::*;

use crate::text::str_eq;

verus! {

/// Failure of exact-match wire-string decoding.
#[derive(Clone, Copy, Debug, PartialEq, Eq, Structural)]
pub enum DecodeError {
    /// The string matches no variant's canonical wire string.
    UnknownVariant,
}

/// The endpoint's content-filter axes.
#[derive(Clone, Copy, Debug, PartialEq, Eq, Structural)]
pub enum GeminiHarmCategory {
    Unspecified,
    Derogatory,
    Toxicity,
    Violence,
    Sexual,
    Medical,
    Dangerous,
    Harassment,
    HateSpeech,
    SexuallyExplicit,
    DangerousContent,
}

impl GeminiHarmCategory {
    /// The canonical wire string of a variant.
    pub open spec fn wire_spec(self) -> Seq<char> {
        match self {
            GeminiHarmCategory::Unspecified => "HARM_CATEGORY_UNSPECIFIED"@,
            GeminiHarmCategory::Derogatory => "HARM_CATEGORY_DEROGATORY"@,
            GeminiHarmCategory::Toxicity => "HARM_CATEGORY_TOXICITY"@,
            GeminiHarmCategory::Violence => "HARM_CATEGORY_VIOLENCE"@,
            GeminiHarmCategory::Sexual => "HARM_CATEGORY_SEXUAL"@,
            GeminiHarmCategory::Medical => "HARM_CATEGORY_MEDICAL"@,
            GeminiHarmCategory::Dangerous => "HARM_CATEGORY_DANGEROUS"@,
            GeminiHarmCategory::Harassment => "HARM_CATEGORY_HARASSMENT"@,
            GeminiHarmCategory::HateSpeech => "HARM_CATEGORY_HATE_SPEECH"@,
            GeminiHarmCategory::SexuallyExplicit => "HARM_CATEGORY_SEXUALLY_EXPLICIT"@,
            GeminiHarmCategory::DangerousContent => "HARM_CATEGORY_DANGEROUS_CONTENT"@,
        }
    }

    /// Exact-match decoding of a wire string.
    pub open spec fn decode_spec(s: Seq<char>) -> Result<GeminiHarmCategory, DecodeError> {
        if s == "HARM_CATEGORY_UNSPECIFIED"@ {
            Ok(GeminiHarmCategory::Unspecified)
        } else if s == "HARM_CATEGORY_DEROGATORY"@ {
            Ok(GeminiHarmCategory::Derogatory)
        } else if s == "HARM_CATEGORY_TOXICITY"@ {
            Ok(GeminiHarmCategory::Toxicity)
        } else if s == "HARM_CATEGORY_VIOLENCE"@ {
            Ok(GeminiHarmCategory::Violence)
        } else if s == "HARM_CATEGORY_SEXUAL"@ {
            Ok(GeminiHarmCategory::Sexual)
        } else if s == "HARM_CATEGORY_MEDICAL"@ {
            Ok(GeminiHarmCategory::Medical)
        } else if s == "HARM_CATEGORY_DANGEROUS"@ {
            Ok(GeminiHarmCategory::Dangerous)
        } else if s == "HARM_CATEGORY_HARASSMENT"@ {
            Ok(GeminiHarmCategory::Harassment)
        } else if s == "HARM_CATEGORY_HATE_SPEECH"@ {
            Ok(GeminiHarmCategory::HateSpeech)
        } else if s == "HARM_CATEGORY_SEXUALLY_EXPLICIT"@ {
            Ok(GeminiHarmCategory::SexuallyExplicit)
        } else if s == "HARM_CATEGORY_DANGEROUS_CONTENT"@ {
            Ok(GeminiHarmCategory::DangerousContent)
        } else {
            Err(DecodeError::UnknownVariant)
        }
    }

    pub fn to_wire(&self) -> (r: &'static str)
        ensures
            r@ == self.wire_spec(),
    {
        match self {
            GeminiHarmCategory::Unspecified => "HARM_CATEGORY_UNSPECIFIED",
            GeminiHarmCategory::Derogatory => "HARM_CATEGORY_DEROGATORY",
            GeminiHarmCategory::Toxicity => "HARM_CATEGORY_TOXICITY",
            GeminiHarmCategory::Violence => "HARM_CATEGORY_VIOLENCE",
            GeminiHarmCategory::Sexual => "HARM_CATEGORY_SEXUAL",
            GeminiHarmCategory::Medical => "HARM_CATEGORY_MEDICAL",
            GeminiHarmCategory::Dangerous => "HARM_CATEGORY_DANGEROUS",
            GeminiHarmCategory::Harassment => "HARM_CATEGORY_HARASSMENT",
            GeminiHarmCategory::HateSpeech => "HARM_CATEGORY_HATE_SPEECH",
            GeminiHarmCategory::SexuallyExplicit => "HARM_CATEGORY_SEXUALLY_EXPLICIT",
            GeminiHarmCategory::DangerousContent => "HARM_CATEGORY_DANGEROUS_CONTENT",
        }
    }

    pub fn from_wire(s: &str) -> (r: Result<GeminiHarmCategory, DecodeError>)
        ensures
            r == GeminiHarmCategory::decode_spec(s@),
    {
        if str_eq(s, "HARM_CATEGORY_UNSPECIFIED") {
            Ok(GeminiHarmCategory::Unspecified)
        } else if str_eq(s, "HARM_CATEGORY_DEROGATORY") {
            Ok(GeminiHarmCategory::Derogatory)
        } else if str_eq(s, "HARM_CATEGORY_TOXICITY") {
            Ok(GeminiHarmCategory::Toxicity)
        } else if str_eq(s, "HARM_CATEGORY_VIOLENCE") {
            Ok(GeminiHarmCategory::Violence)
        } else if str_eq(s, "HARM_CATEGORY_SEXUAL") {
            Ok(GeminiHarmCategory::Sexual)
        } else if str_eq(s, "HARM_CATEGORY_MEDICAL") {
            Ok(GeminiHarmCategory::Medical)
        } else if str_eq(s, "HARM_CATEGORY_DANGEROUS") {
            Ok(GeminiHarmCategory::Dangerous)
        } else if str_eq(s, "HARM_CATEGORY_HARASSMENT") {
            Ok(GeminiHarmCategory::Harassment)
        } else if str_eq(s, "HARM_CATEGORY_HATE_SPEECH") {
            Ok(GeminiHarmCategory::HateSpeech)
        } else if str_eq(s, "HARM_CATEGORY_SEXUALLY_EXPLICIT") {
            Ok(GeminiHarmCategory::SexuallyExplicit)
        } else if str_eq(s, "HARM_CATEGORY_DANGEROUS_CONTENT") {
            Ok(GeminiHarmCategory::DangerousContent)
        } else {
            Err(DecodeError::UnknownVariant)
        }
    }
}

/// Decoding the wire string of any harm category yields that category back.
pub proof fn lemma_harm_category_round_trip(v: GeminiHarmCategory)
    ensures
        GeminiHarmCategory::decode_spec(v.wire_spec()) == Ok::<_, DecodeError>(v),
{
    reveal_strlit("HARM_CATEGORY_UNSPECIFIED");
    reveal_strlit("HARM_CATEGORY_DEROGATORY");
    reveal_strlit("HARM_CATEGORY_TOXICITY");
    reveal_strlit("HARM_CATEGORY_VIOLENCE");
    reveal_strlit("HARM_CATEGORY_SEXUAL");
    reveal_strlit("HARM_CATEGORY_MEDICAL");
    reveal_strlit("HARM_CATEGORY_DANGEROUS");
    reveal_strlit("HARM_CATEGORY_HARASSMENT");
    reveal_strlit("HARM_CATEGORY_HATE_SPEECH");
    reveal_strlit("HARM_CATEGORY_SEXUALLY_EXPLICIT");
    reveal_strlit("HARM_CATEGORY_DANGEROUS_CONTENT");
    assert("HARM_CATEGORY_UNSPECIFIED"@.len() == 25);
    assert("HARM_CATEGORY_DEROGATORY"@.len() == 24);
    assert("HARM_CATEGORY_TOXICITY"@.len() == 22);
    assert("HARM_CATEGORY_VIOLENCE"@.len() == 22);
    assert("HARM_CATEGORY_SEXUAL"@.len() == 20);
    assert("HARM_CATEGORY_MEDICAL"@.len() == 21);
    assert("HARM_CATEGORY_DANGEROUS"@.len() == 23);
    assert("HARM_CATEGORY_HARASSMENT"@.len() == 24);
    assert("HARM_CATEGORY_HATE_SPEECH"@.len() == 25);
    assert("HARM_CATEGORY_SEXUALLY_EXPLICIT"@.len() == 31);
    assert("HARM_CATEGORY_DANGEROUS_CONTENT"@.len() == 31);
    // Pairs of equal length are told apart by the character after the
    // common `HARM_CATEGORY_` stem.
    assert("HARM_CATEGORY_UNSPECIFIED"@[14] == 'U');
    assert("HARM_CATEGORY_HATE_SPEECH"@[14] == 'H');
    assert("HARM_CATEGORY_DEROGATORY"@[14] == 'D');
    assert("HARM_CATEGORY_HARASSMENT"@[14] == 'H');
    assert("HARM_CATEGORY_TOXICITY"@[14] == 'T');
    assert("HARM_CATEGORY_VIOLENCE"@[14] == 'V');
    assert("HARM_CATEGORY_SEXUALLY_EXPLICIT"@[14] == 'S');
    assert("HARM_CATEGORY_DANGEROUS_CONTENT"@[14] == 'D');
}

/// A string that is no harm category's wire string fails to decode.
pub proof fn lemma_harm_category_unknown(s: Seq<char>)
    requires
        forall|v: GeminiHarmCategory| s != v.wire_spec(),
    ensures
        GeminiHarmCategory::decode_spec(s) == Err::<GeminiHarmCategory, _>(
            DecodeError::UnknownVariant,
        ),
{
    assert(s != GeminiHarmCategory::Unspecified.wire_spec());
    assert(s != GeminiHarmCategory::Derogatory.wire_spec());
    assert(s != GeminiHarmCategory::Toxicity.wire_spec());
    assert(s != GeminiHarmCategory::Violence.wire_spec());
    assert(s != GeminiHarmCategory::Sexual.wire_spec());
    assert(s != GeminiHarmCategory::Medical.wire_spec());
    assert(s != GeminiHarmCategory::Dangerous.wire_spec());
    assert(s != GeminiHarmCategory::Harassment.wire_spec());
    assert(s != GeminiHarmCategory::HateSpeech.wire_spec());
    assert(s != GeminiHarmCategory::SexuallyExplicit.wire_spec());
    assert(s != GeminiHarmCategory::DangerousContent.wire_spec());
}

/// At which judged harm probability the endpoint's own filter blocks.
#[derive(Clone, Copy, Debug, PartialEq, Eq, Structural)]
pub enum GeminiSafetyThreshold {
    Unspecified,
    BlockNone,
    OnlyHigh,
    MediumAndAbove,
    LowAndAbove,
}

impl GeminiSafetyThreshold {
    /// The canonical wire string of a variant.
    pub open spec fn wire_spec(self) -> Seq<char> {
        match self {
            GeminiSafetyThreshold::Unspecified => "HARM_BLOCK_THRESHOLD_UNSPECIFIED"@,
            GeminiSafetyThreshold::BlockNone => "BLOCK_NONE"@,
            GeminiSafetyThreshold::OnlyHigh => "BLOCK_ONLY_HIGH"@,
            GeminiSafetyThreshold::MediumAndAbove => "BLOCK_MEDIUM_AND_ABOVE"@,
            GeminiSafetyThreshold::LowAndAbove => "BLOCK_LOW_AND_ABOVE"@,
        }
    }

    /// Exact-match decoding of a wire string.
    pub open spec fn decode_spec(s: Seq<char>) -> Result<GeminiSafetyThreshold, DecodeError> {
        if s == "HARM_BLOCK_THRESHOLD_UNSPECIFIED"@ {
            Ok(GeminiSafetyThreshold::Unspecified)
        } else if s == "BLOCK_NONE"@ {
            Ok(GeminiSafetyThreshold::BlockNone)
        } else if s == "BLOCK_ONLY_HIGH"@ {
            Ok(GeminiSafetyThreshold::OnlyHigh)
        } else if s == "BLOCK_MEDIUM_AND_ABOVE"@ {
            Ok(GeminiSafetyThreshold::MediumAndAbove)
        } else if s == "BLOCK_LOW_AND_ABOVE"@ {
            Ok(GeminiSafetyThreshold::LowAndAbove)
        } else {
            Err(DecodeError::UnknownVariant)
        }
    }

    pub fn to_wire(&self) -> (r: &'static str)
        ensures
            r@ == self.wire_spec(),
    {
        match self {
            GeminiSafetyThreshold::Unspecified => "HARM_BLOCK_THRESHOLD_UNSPECIFIED",
            GeminiSafetyThreshold::BlockNone => "BLOCK_NONE",
            GeminiSafetyThreshold::OnlyHigh => "BLOCK_ONLY_HIGH",
            GeminiSafetyThreshold::MediumAndAbove => "BLOCK_MEDIUM_AND_ABOVE",
            GeminiSafetyThreshold::LowAndAbove => "BLOCK_LOW_AND_ABOVE",
        }
    }

    pub fn from_wire(s: &str) -> (r: Result<GeminiSafetyThreshold, DecodeError>)
        ensures
            r == GeminiSafetyThreshold::decode_spec(s@),
    {
        if str_eq(s, "HARM_BLOCK_THRESHOLD_UNSPECIFIED") {
            Ok(GeminiSafetyThreshold::Unspecified)
        } else if str_eq(s, "BLOCK_NONE") {
            Ok(GeminiSafetyThreshold::BlockNone)
        } else if str_eq(s, "BLOCK_ONLY_HIGH") {
            Ok(GeminiSafetyThreshold::OnlyHigh)
        } else if str_eq(s, "BLOCK_MEDIUM_AND_ABOVE") {
            Ok(GeminiSafetyThreshold::MediumAndAbove)
        } else if str_eq(s, "BLOCK_LOW_AND_ABOVE") {
            Ok(GeminiSafetyThreshold::LowAndAbove)
        } else {
            Err(DecodeError::UnknownVariant)
        }
    }
}

/// Decoding the wire string of any safety threshold yields that threshold back.
pub proof fn lemma_safety_threshold_round_trip(v: GeminiSafetyThreshold)
    ensures
        GeminiSafetyThreshold::decode_spec(v.wire_spec()) == Ok::<_, DecodeError>(v),
{
    reveal_strlit("HARM_BLOCK_THRESHOLD_UNSPECIFIED");
    reveal_strlit("BLOCK_NONE");
    reveal_strlit("BLOCK_ONLY_HIGH");
    reveal_strlit("BLOCK_MEDIUM_AND_ABOVE");
    reveal_strlit("BLOCK_LOW_AND_ABOVE");
    assert("HARM_BLOCK_THRESHOLD_UNSPECIFIED"@.len() == 32);
    assert("BLOCK_NONE"@.len() == 10);
    assert("BLOCK_ONLY_HIGH"@.len() == 15);
    assert("BLOCK_MEDIUM_AND_ABOVE"@.len() == 22);
    assert("BLOCK_LOW_AND_ABOVE"@.len() == 19);
}

/// A string that is no safety threshold's wire string fails to decode.
pub proof fn lemma_safety_threshold_unknown(s: Seq<char>)
    requires
        forall|v: GeminiSafetyThreshold| s != v.wire_spec(),
    ensures
        GeminiSafetyThreshold::decode_spec(s) == Err::<GeminiSafetyThreshold, _>(
            DecodeError::UnknownVariant,
        ),
{
    assert(s != GeminiSafetyThreshold::Unspecified.wire_spec());
    assert(s != GeminiSafetyThreshold::BlockNone.wire_spec());
    assert(s != GeminiSafetyThreshold::OnlyHigh.wire_spec());
    assert(s != GeminiSafetyThreshold::MediumAndAbove.wire_spec());
    assert(s != GeminiSafetyThreshold::LowAndAbove.wire_spec());
}

/// Why the model stopped generating a candidate.
#[derive(Clone, Copy, Debug, PartialEq, Eq, Structural)]
pub enum GeminiFinishReason {
    Unspecified,
    Stop,
    MaxTokens,
    Safety,
    Recitation,
}

impl GeminiFinishReason {
    /// The canonical wire string of a variant.
    pub open spec fn wire_spec(self) -> Seq<char> {
        match self {
            GeminiFinishReason::Unspecified => "FINISH_REASON_UNSPECIFIED"@,
            GeminiFinishReason::Stop => "STOP"@,
            GeminiFinishReason::MaxTokens => "MAX_TOKENS"@,
            GeminiFinishReason::Safety => "SAFETY"@,
            GeminiFinishReason::Recitation => "RECITATION"@,
        }
    }

    /// Exact-match decoding of a wire string.
    pub open spec fn decode_spec(s: Seq<char>) -> Result<GeminiFinishReason, DecodeError> {
        if s == "FINISH_REASON_UNSPECIFIED"@ {
            Ok(GeminiFinishReason::Unspecified)
        } else if s == "STOP"@ {
            Ok(GeminiFinishReason::Stop)
        } else if s == "MAX_TOKENS"@ {
            Ok(GeminiFinishReason::MaxTokens)
        } else if s == "SAFETY"@ {
            Ok(GeminiFinishReason::Safety)
        } else if s == "RECITATION"@ {
            Ok(GeminiFinishReason::Recitation)
        } else {
            Err(DecodeError::UnknownVariant)
        }
    }

    pub fn to_wire(&self) -> (r: &'static str)
        ensures
            r@ == self.wire_spec(),
    {
        match self {
            GeminiFinishReason::Unspecified => "FINISH_REASON_UNSPECIFIED",
            GeminiFinishReason::Stop => "STOP",
            GeminiFinishReason::MaxTokens => "MAX_TOKENS",
            GeminiFinishReason::Safety => "SAFETY",
            GeminiFinishReason::Recitation => "RECITATION",
        }
    }

    pub fn from_wire(s: &str) -> (r: Result<GeminiFinishReason, DecodeError>)
        ensures
            r == GeminiFinishReason::decode_spec(s@),
    {
        if str_eq(s, "FINISH_REASON_UNSPECIFIED") {
            Ok(GeminiFinishReason::Unspecified)
        } else if str_eq(s, "STOP") {
            Ok(GeminiFinishReason::Stop)
        } else if str_eq(s, "MAX_TOKENS") {
            Ok(GeminiFinishReason::MaxTokens)
        } else if str_eq(s, "SAFETY") {
            Ok(GeminiFinishReason::Safety)
        } else if str_eq(s, "RECITATION") {
            Ok(GeminiFinishReason::Recitation)
        } else {
            Err(DecodeError::UnknownVariant)
        }
    }
}

/// Decoding the wire string of any finish reason yields that reason back.
pub proof fn lemma_finish_reason_round_trip(v: GeminiFinishReason)
    ensures
        GeminiFinishReason::decode_spec(v.wire_spec()) == Ok::<_, DecodeError>(v),
{
    reveal_strlit("FINISH_REASON_UNSPECIFIED");
    reveal_strlit("STOP");
    reveal_strlit("MAX_TOKENS");
    reveal_strlit("SAFETY");
    reveal_strlit("RECITATION");
    assert("FINISH_REASON_UNSPECIFIED"@.len() == 25);
    assert("STOP"@.len() == 4);
    assert("MAX_TOKENS"@.len() == 10);
    assert("SAFETY"@.len() == 6);
    assert("RECITATION"@.len() == 10);
    // The two ten-character strings differ in their first character.
    assert("MAX_TOKENS"@[0] == 'M');
    assert("RECITATION"@[0] == 'R');
}

/// A string that is no finish reason's wire string fails to decode.
pub proof fn lemma_finish_reason_unknown(s: Seq<char>)
    requires
        forall|v: GeminiFinishReason| s != v.wire_spec(),
    ensures
        GeminiFinishReason::decode_spec(s) == Err::<GeminiFinishReason, _>(
            DecodeError::UnknownVariant,
        ),
{
    assert(s != GeminiFinishReason::Unspecified.wire_spec());
    assert(s != GeminiFinishReason::Stop.wire_spec());
    assert(s != GeminiFinishReason::MaxTokens.wire_spec());
    assert(s != GeminiFinishReason::Safety.wire_spec());
    assert(s != GeminiFinishReason::Recitation.wire_spec());
}

/// How likely the endpoint judged a piece of content to be harmful.
#[derive(Clone, Copy, Debug, PartialEq, Eq, Structural)]
pub enum GeminiHarmProbability {
    Unspecified,
    Negligible,
    Low,
    Medium,
    High,
}

impl GeminiHarmProbability {
    /// The canonical wire string of a variant.
    pub open spec fn wire_spec(self) -> Seq<char> {
        match self {
            GeminiHarmProbability::Unspecified => "HARM_PROBABILITY_UNSPECIFIED"@,
            GeminiHarmProbability::Negligible => "NEGLIGIBLE"@,
            GeminiHarmProbability::Low => "LOW"@,
            GeminiHarmProbability::Medium => "MEDIUM"@,
            GeminiHarmProbability::High => "HIGH"@,
        }
    }

    /// Exact-match decoding of a wire string.
    pub open spec fn decode_spec(s: Seq<char>) -> Result<GeminiHarmProbability, DecodeError> {
        if s == "HARM_PROBABILITY_UNSPECIFIED"@ {
            Ok(GeminiHarmProbability::Unspecified)
        } else if s == "NEGLIGIBLE"@ {
            Ok(GeminiHarmProbability::Negligible)
        } else if s == "LOW"@ {
            Ok(GeminiHarmProbability::Low)
        } else if s == "MEDIUM"@ {
            Ok(GeminiHarmProbability::Medium)
        } else if s == "HIGH"@ {
            Ok(GeminiHarmProbability::High)
        } else {
            Err(DecodeError::UnknownVariant)
        }
    }

    pub fn to_wire(&self) -> (r: &'static str)
        ensures
            r@ == self.wire_spec(),
    {
        match self {
            GeminiHarmProbability::Unspecified => "HARM_PROBABILITY_UNSPECIFIED",
            GeminiHarmProbability::Negligible => "NEGLIGIBLE",
            GeminiHarmProbability::Low => "LOW",
            GeminiHarmProbability::Medium => "MEDIUM",
            GeminiHarmProbability::High => "HIGH",
        }
    }

    pub fn from_wire(s: &str) -> (r: Result<GeminiHarmProbability, DecodeError>)
        ensures
            r == GeminiHarmProbability::decode_spec(s@),
    {
        if str_eq(s, "HARM_PROBABILITY_UNSPECIFIED") {
            Ok(GeminiHarmProbability::Unspecified)
        } else if str_eq(s, "NEGLIGIBLE") {
            Ok(GeminiHarmProbability::Negligible)
        } else if str_eq(s, "LOW") {
            Ok(GeminiHarmProbability::Low)
        } else if str_eq(s, "MEDIUM") {
            Ok(GeminiHarmProbability::Medium)
        } else if str_eq(s, "HIGH") {
            Ok(GeminiHarmProbability::High)
        } else {
            Err(DecodeError::UnknownVariant)
        }
    }
}

/// Decoding the wire string of any harm probability yields that probability back.
pub proof fn lemma_harm_probability_round_trip(v: GeminiHarmProbability)
    ensures
        GeminiHarmProbability::decode_spec(v.wire_spec()) == Ok::<_, DecodeError>(v),
{
    reveal_strlit("HARM_PROBABILITY_UNSPECIFIED");
    reveal_strlit("NEGLIGIBLE");
    reveal_strlit("LOW");
    reveal_strlit("MEDIUM");
    reveal_strlit("HIGH");
    assert("HARM_PROBABILITY_UNSPECIFIED"@.len() == 28);
    assert("NEGLIGIBLE"@.len() == 10);
    assert("LOW"@.len() == 3);
    assert("MEDIUM"@.len() == 6);
    assert("HIGH"@.len() == 4);
}

/// A string that is no harm probability's wire string fails to decode.
pub proof fn lemma_harm_probability_unknown(s: Seq<char>)
    requires
        forall|v: GeminiHarmProbability| s != v.wire_spec(),
    ensures
        GeminiHarmProbability::decode_spec(s) == Err::<GeminiHarmProbability, _>(
            DecodeError::UnknownVariant,
        ),
{
    assert(s != GeminiHarmProbability::Unspecified.wire_spec());
    assert(s != GeminiHarmProbability::Negligible.wire_spec());
    assert(s != GeminiHarmProbability::Low.wire_spec());
    assert(s != GeminiHarmProbability::Medium.wire_spec());
    assert(s != GeminiHarmProbability::High.wire_spec());
}

} // verus!
