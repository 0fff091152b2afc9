//! Request and response bodies for the scoring endpoint.
//!
//! These are the plain data shapes that cross the wire; the unverified
//! transport shell serialises them to JSON and back.  Sampling knobs
//! that the endpoint takes as decimals (temperature, top-p) are carried
//! here in thousandths, so the whole model stays in exact integers; the
//! shell converts on the way out.
//!
//! The module also holds a second harm-category vocabulary,
//! [`GeminiSafetyCategory`], whose wire names use the
//! `HARM_CATEGORY_SPEECH` / `HARM_CATEGORY_EXPLICIT` spelling.

use vstd::prelude::*;

use crate::enums::DecodeError;
use crate::enums::GeminiFinishReason;
use crate::enums::GeminiHarmCategory;
use crate::enums::GeminiHarmProbability;
use crate::text::str_eq;

pub use crate::enums::GeminiSafetyThreshold;

verus! {

/// One text part of a content block.
#[derive(Debug, Clone)]
pub struct GeminiPostBodyPartsBody {
    pub text: String,
}

/// One content block: an ordered run of text parts.
#[derive(Debug, Clone)]
pub struct GeminiPostBodyParts {
    pub parts: Vec<GeminiPostBodyPartsBody>,
}

/// A (category, block-threshold) pair of the request's safety settings.
#[derive(Debug, Clone)]
pub struct GeminiPostBodySafetySettings {
    pub category: GeminiHarmCategory,
    pub threshold: GeminiSafetyThreshold,
}

/// Optional generation parameters; absent fields are left off the wire.
///
/// `temperature_milli` and `top_p_milli` are thousandths of the
/// endpoint's decimal parameters.
#[derive(Debug, Clone)]
pub struct GeminiGenerationConfig {
    pub stop_sequences: Option<Vec<String>>,
    pub temperature_milli: Option<u32>,
    pub top_p_milli: Option<u32>,
    pub top_k: Option<i32>,
    pub max_output_tokens: Option<u32>,
    pub candidate_count: Option<u8>,
}

/// The full scoring request body.
#[derive(Debug, Clone)]
pub struct GeminiPostBody {
    pub contents: Vec<GeminiPostBodyParts>,
    pub safety_settings: Option<Vec<GeminiPostBodySafetySettings>>,
    pub generation_config: Option<GeminiGenerationConfig>,
}

impl Default for GeminiPostBody {
    /// An empty request: no content, no safety settings, no generation config.
    fn default() -> (r: Self)
        ensures
            r.contents@.len() == 0,
            r.safety_settings is None,
            r.generation_config is None,
    {
        Self { contents: Vec::new(), safety_settings: None, generation_config: None }
    }
}

/// One safety rating attached to a returned candidate.
#[derive(Debug, Clone)]
pub struct GeminiSafetyRating {
    pub category: GeminiHarmCategory,
    pub probability: GeminiHarmProbability,
    pub blocked: Option<bool>,
}

/// One alternative response generated by the model.
#[derive(Debug, Clone)]
pub struct GeminiCandidate {
    pub content: GeminiPostBodyParts,
    pub finish_reason: Option<GeminiFinishReason>,
    pub safety_ratings: Option<Vec<GeminiSafetyRating>>,
    pub token_count: Option<u32>,
    pub index: Option<u32>,
}

/// The scoring response body: the candidate list may legitimately be empty.
#[derive(Debug, Clone)]
pub struct GeminiPostResponse {
    pub candidates: Vec<GeminiCandidate>,
}

/// Harm categories under the `SPEECH` / `EXPLICIT` wire spelling.
#[derive(Clone, Copy, Debug, PartialEq, Eq, Structural)]
pub enum GeminiSafetyCategory {
    Unspecified,
    Derogatory,
    Toxicity,
    Violence,
    Sexual,
    Medical,
    Dangerous,
    Harassment,
    Speech,
    Explicit,
    DangerousContent,
}

impl GeminiSafetyCategory {
    /// The canonical wire string of a variant.
    pub open spec fn wire_spec(self) -> Seq<char> {
        match self {
            GeminiSafetyCategory::Unspecified => "HARM_CATEGORY_UNSPECIFIED"@,
            GeminiSafetyCategory::Derogatory => "HARM_CATEGORY_DEROGATORY"@,
            GeminiSafetyCategory::Toxicity => "HARM_CATEGORY_TOXICITY"@,
            GeminiSafetyCategory::Violence => "HARM_CATEGORY_VIOLENCE"@,
            GeminiSafetyCategory::Sexual => "HARM_CATEGORY_SEXUAL"@,
            GeminiSafetyCategory::Medical => "HARM_CATEGORY_MEDICAL"@,
            GeminiSafetyCategory::Dangerous => "HARM_CATEGORY_DANGEROUS"@,
            GeminiSafetyCategory::Harassment => "HARM_CATEGORY_HARASSMENT"@,
            GeminiSafetyCategory::Speech => "HARM_CATEGORY_SPEECH"@,
            GeminiSafetyCategory::Explicit => "HARM_CATEGORY_EXPLICIT"@,
            GeminiSafetyCategory::DangerousContent => "HARM_CATEGORY_DANGEROUS_CONTENT"@,
        }
    }

    /// Exact-match decoding of a wire string.
    pub open spec fn decode_spec(s: Seq<char>) -> Result<GeminiSafetyCategory, DecodeError> {
        if s == "HARM_CATEGORY_UNSPECIFIED"@ {
            Ok(GeminiSafetyCategory::Unspecified)
        } else if s == "HARM_CATEGORY_DEROGATORY"@ {
            Ok(GeminiSafetyCategory::Derogatory)
        } else if s == "HARM_CATEGORY_TOXICITY"@ {
            Ok(GeminiSafetyCategory::Toxicity)
        } else if s == "HARM_CATEGORY_VIOLENCE"@ {
            Ok(GeminiSafetyCategory::Violence)
        } else if s == "HARM_CATEGORY_SEXUAL"@ {
            Ok(GeminiSafetyCategory::Sexual)
        } else if s == "HARM_CATEGORY_MEDICAL"@ {
            Ok(GeminiSafetyCategory::Medical)
        } else if s == "HARM_CATEGORY_DANGEROUS"@ {
            Ok(GeminiSafetyCategory::Dangerous)
        } else if s == "HARM_CATEGORY_HARASSMENT"@ {
            Ok(GeminiSafetyCategory::Harassment)
        } else if s == "HARM_CATEGORY_SPEECH"@ {
            Ok(GeminiSafetyCategory::Speech)
        } else if s == "HARM_CATEGORY_EXPLICIT"@ {
            Ok(GeminiSafetyCategory::Explicit)
        } else if s == "HARM_CATEGORY_DANGEROUS_CONTENT"@ {
            Ok(GeminiSafetyCategory::DangerousContent)
        } else {
            Err(DecodeError::UnknownVariant)
        }
    }

    pub fn to_wire(&self) -> (r: &'static str)
        ensures
            r@ == self.wire_spec(),
    {
        match self {
            GeminiSafetyCategory::Unspecified => "HARM_CATEGORY_UNSPECIFIED",
            GeminiSafetyCategory::Derogatory => "HARM_CATEGORY_DEROGATORY",
            GeminiSafetyCategory::Toxicity => "HARM_CATEGORY_TOXICITY",
            GeminiSafetyCategory::Violence => "HARM_CATEGORY_VIOLENCE",
            GeminiSafetyCategory::Sexual => "HARM_CATEGORY_SEXUAL",
            GeminiSafetyCategory::Medical => "HARM_CATEGORY_MEDICAL",
            GeminiSafetyCategory::Dangerous => "HARM_CATEGORY_DANGEROUS",
            GeminiSafetyCategory::Harassment => "HARM_CATEGORY_HARASSMENT",
            GeminiSafetyCategory::Speech => "HARM_CATEGORY_SPEECH",
            GeminiSafetyCategory::Explicit => "HARM_CATEGORY_EXPLICIT",
            GeminiSafetyCategory::DangerousContent => "HARM_CATEGORY_DANGEROUS_CONTENT",
        }
    }

    pub fn from_wire(s: &str) -> (r: Result<GeminiSafetyCategory, DecodeError>)
        ensures
            r == GeminiSafetyCategory::decode_spec(s@),
    {
        if str_eq(s, "HARM_CATEGORY_UNSPECIFIED") {
            Ok(GeminiSafetyCategory::Unspecified)
        } else if str_eq(s, "HARM_CATEGORY_DEROGATORY") {
            Ok(GeminiSafetyCategory::Derogatory)
        } else if str_eq(s, "HARM_CATEGORY_TOXICITY") {
            Ok(GeminiSafetyCategory::Toxicity)
        } else if str_eq(s, "HARM_CATEGORY_VIOLENCE") {
            Ok(GeminiSafetyCategory::Violence)
        } else if str_eq(s, "HARM_CATEGORY_SEXUAL") {
            Ok(GeminiSafetyCategory::Sexual)
        } else if str_eq(s, "HARM_CATEGORY_MEDICAL") {
            Ok(GeminiSafetyCategory::Medical)
        } else if str_eq(s, "HARM_CATEGORY_DANGEROUS") {
            Ok(GeminiSafetyCategory::Dangerous)
        } else if str_eq(s, "HARM_CATEGORY_HARASSMENT") {
            Ok(GeminiSafetyCategory::Harassment)
        } else if str_eq(s, "HARM_CATEGORY_SPEECH") {
            Ok(GeminiSafetyCategory::Speech)
        } else if str_eq(s, "HARM_CATEGORY_EXPLICIT") {
            Ok(GeminiSafetyCategory::Explicit)
        } else if str_eq(s, "HARM_CATEGORY_DANGEROUS_CONTENT") {
            Ok(GeminiSafetyCategory::DangerousContent)
        } else {
            Err(DecodeError::UnknownVariant)
        }
    }
}

/// Decoding the wire string of any safety category yields that category back.
pub proof fn lemma_safety_category_round_trip(v: GeminiSafetyCategory)
    ensures
        GeminiSafetyCategory::decode_spec(v.wire_spec()) == Ok::<_, DecodeError>(v),
{
    reveal_strlit("HARM_CATEGORY_UNSPECIFIED");
    reveal_strlit("HARM_CATEGORY_DEROGATORY");
    reveal_strlit("HARM_CATEGORY_TOXICITY");
    reveal_strlit("HARM_CATEGORY_VIOLENCE");
    reveal_strlit("HARM_CATEGORY_SEXUAL");
    reveal_strlit("HARM_CATEGORY_MEDICAL");
    reveal_strlit("HARM_CATEGORY_DANGEROUS");
    reveal_strlit("HARM_CATEGORY_HARASSMENT");
    reveal_strlit("HARM_CATEGORY_SPEECH");
    reveal_strlit("HARM_CATEGORY_EXPLICIT");
    reveal_strlit("HARM_CATEGORY_DANGEROUS_CONTENT");
    assert("HARM_CATEGORY_UNSPECIFIED"@.len() == 25);
    assert("HARM_CATEGORY_DEROGATORY"@.len() == 24);
    assert("HARM_CATEGORY_TOXICITY"@.len() == 22);
    assert("HARM_CATEGORY_VIOLENCE"@.len() == 22);
    assert("HARM_CATEGORY_SEXUAL"@.len() == 20);
    assert("HARM_CATEGORY_MEDICAL"@.len() == 21);
    assert("HARM_CATEGORY_DANGEROUS"@.len() == 23);
    assert("HARM_CATEGORY_HARASSMENT"@.len() == 24);
    assert("HARM_CATEGORY_SPEECH"@.len() == 20);
    assert("HARM_CATEGORY_EXPLICIT"@.len() == 22);
    assert("HARM_CATEGORY_DANGEROUS_CONTENT"@.len() == 31);
    // Pairs of equal length are told apart just after the common
    // `HARM_CATEGORY_` stem.
    assert("HARM_CATEGORY_DEROGATORY"@[14] == 'D');
    assert("HARM_CATEGORY_HARASSMENT"@[14] == 'H');
    assert("HARM_CATEGORY_TOXICITY"@[14] == 'T');
    assert("HARM_CATEGORY_VIOLENCE"@[14] == 'V');
    assert("HARM_CATEGORY_EXPLICIT"@[14] == 'E');
    assert("HARM_CATEGORY_SEXUAL"@[15] == 'E');
    assert("HARM_CATEGORY_SPEECH"@[15] == 'P');
}

/// A string that is no safety category's wire string fails to decode.
pub proof fn lemma_safety_category_unknown(s: Seq<char>)
    requires
        forall|v: GeminiSafetyCategory| s != v.wire_spec(),
    ensures
        GeminiSafetyCategory::decode_spec(s) == Err::<GeminiSafetyCategory, _>(
            DecodeError::UnknownVariant,
        ),
{
    assert(s != GeminiSafetyCategory::Unspecified.wire_spec());
    assert(s != GeminiSafetyCategory::Derogatory.wire_spec());
    assert(s != GeminiSafetyCategory::Toxicity.wire_spec());
    assert(s != GeminiSafetyCategory::Violence.wire_spec());
    assert(s != GeminiSafetyCategory::Sexual.wire_spec());
    assert(s != GeminiSafetyCategory::Medical.wire_spec());
    assert(s != GeminiSafetyCategory::Dangerous.wire_spec());
    assert(s != GeminiSafetyCategory::Harassment.wire_spec());
    assert(s != GeminiSafetyCategory::Speech.wire_spec());
    assert(s != GeminiSafetyCategory::Explicit.wire_spec());
    assert(s != GeminiSafetyCategory::DangerousContent.wire_spec());
}

} // verus!
