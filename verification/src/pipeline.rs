//! The scoring pipeline around one message event.
//!
//! An inbound event passes the eligibility screen, becomes a scoring
//! request carrying the policy prompt, goes out over the unverified
//! transport, and comes back as a [`GeminiPostResponse`] whose text is
//! parsed and mapped through the thresholds.  Everything here is pure:
//! the transport call sits between [`screen_message`] and
//! [`process_response`], outside this crate.

use vstd::prelude::*;

use crate::defs::GeminiGenerationConfig;
use crate::defs::GeminiPostBody;
use crate::defs::GeminiPostBodyParts;
use crate::defs::GeminiPostBodyPartsBody;
use crate::defs::GeminiPostBodySafetySettings;
use crate::defs::GeminiPostResponse;
use crate::enums::GeminiHarmCategory;
use crate::enums::GeminiSafetyThreshold;
use crate::policy::decide;
use crate::policy::ModerationConfig;
use crate::policy::ModerationDecision;
use crate::verdict::extract_text;
use crate::verdict::has_delim;
use crate::verdict::parse_verdict;
use crate::verdict::reason_part;
use crate::verdict::response_text;
use crate::verdict::score_part;
use crate::verdict::score_spec;
use crate::verdict::ModerationError;

verus! {

/// The policy text that precedes the message under scrutiny.
pub open spec fn policy_prompt_prefix() -> Seq<char> {
    "Determine how well the posts sent by users are suitable for posting on social networking sites.\nThis networking site has this rules:\n- Treat everyone with respect. Absolutely no harassment, witch hunting, sexism, racism, or hate speech will be tolerated.\n- No spam or self-promotion (server invites, advertisements, etc) without permission from a staff member. However, please do not interpret just posting a URL as advertising.\n- No age-restricted or obscene content. This includes text, images, or links featuring nudity, sex, hard violence, or other graphically disturbing content.\nDecide the score of the content posted by the user based on this rule. (from 0 to 1000) 0 is a very good post that does not violate the rules, and 1000 is a post that violates the rules perfectly.\n\nDo not output 1000 unless there is a clear discriminatory term. They should be on a much lower score.\nDo not output high scores for submissions ex. \"a\" or \"あ\". These are probably just tests, and there is nothing wrong with them.\n\nIf the score is 0, you don't need to output the reason.\n\nSpecified format: score|reason\nExample for \"wtf\": 400|possibly offensive language\nExample for \"Here is\": 0|\nExample for \"ちんちん\": 700|possibly sexually explicit language\n\nReasons should be output in detail; do not use ambiguous terms such as discriminatory terms.\n\nPost content: \n"@
}

/// The closing line that follows the message under scrutiny.
pub open spec fn policy_prompt_suffix() -> Seq<char> {
    "\n\nBad score and reason:"@
}

/// The full prompt for a message: the template with the message text
/// substituted verbatim, unescaped.
pub open spec fn prompt_text(msg: Seq<char>) -> Seq<char> {
    policy_prompt_prefix() + msg + policy_prompt_suffix()
}

/// Builds the policy prompt around the sanitized message text.
pub fn build_prompt(message: &str) -> (r: String)
    ensures
        r@ == prompt_text(message@),
{
    let mut out = String::from_str(
        "Determine how well the posts sent by users are suitable for posting on social networking sites.\nThis networking site has this rules:\n- Treat everyone with respect. Absolutely no harassment, witch hunting, sexism, racism, or hate speech will be tolerated.\n- No spam or self-promotion (server invites, advertisements, etc) without permission from a staff member. However, please do not interpret just posting a URL as advertising.\n- No age-restricted or obscene content. This includes text, images, or links featuring nudity, sex, hard violence, or other graphically disturbing content.\nDecide the score of the content posted by the user based on this rule. (from 0 to 1000) 0 is a very good post that does not violate the rules, and 1000 is a post that violates the rules perfectly.\n\nDo not output 1000 unless there is a clear discriminatory term. They should be on a much lower score.\nDo not output high scores for submissions ex. \"a\" or \"あ\". These are probably just tests, and there is nothing wrong with them.\n\nIf the score is 0, you don't need to output the reason.\n\nSpecified format: score|reason\nExample for \"wtf\": 400|possibly offensive language\nExample for \"Here is\": 0|\nExample for \"ちんちん\": 700|possibly sexually explicit language\n\nReasons should be output in detail; do not use ambiguous terms such as discriminatory terms.\n\nPost content: \n",
    );
    out.append(message);
    out.append("\n\nBad score and reason:");
    out
}

/// What the request builder owes for a message: exactly one content
/// block with exactly one text part holding the substituted prompt, the
/// four harm categories all set to the most permissive threshold (the
/// prompt text, not the provider filter, is the single policy surface),
/// and deterministic generation with the temperature pinned to zero.
pub open spec fn body_is_scoring_request(body: GeminiPostBody, msg: Seq<char>) -> bool {
    &&& body.contents@.len() == 1
    &&& body.contents@[0].parts@.len() == 1
    &&& body.contents@[0].parts@[0].text@ == prompt_text(msg)
    &&& body.safety_settings is Some
    &&& body.safety_settings->0@.len() == 4
    &&& body.safety_settings->0@[0].category == GeminiHarmCategory::SexuallyExplicit
    &&& body.safety_settings->0@[1].category == GeminiHarmCategory::HateSpeech
    &&& body.safety_settings->0@[2].category == GeminiHarmCategory::Harassment
    &&& body.safety_settings->0@[3].category == GeminiHarmCategory::DangerousContent
    &&& forall|i: int|
        0 <= i < 4 ==> body.safety_settings->0@[i].threshold
            == GeminiSafetyThreshold::BlockNone
    &&& body.generation_config is Some
    &&& body.generation_config->0.temperature_milli == Some(0u32)
    &&& body.generation_config->0.stop_sequences is None
    &&& body.generation_config->0.top_p_milli is None
    &&& body.generation_config->0.top_k is None
    &&& body.generation_config->0.max_output_tokens is None
    &&& body.generation_config->0.candidate_count is None
}

/// Each harm category appears at most once among a built request's
/// safety settings.
pub proof fn lemma_request_categories_unique(body: GeminiPostBody, msg: Seq<char>)
    requires
        body_is_scoring_request(body, msg),
    ensures
        forall|i: int, j: int|
            0 <= i < j < body.safety_settings->0@.len() ==> body.safety_settings->0@[i].category
                != body.safety_settings->0@[j].category,
{
}

/// Assembles the scoring request for an eligible message.
pub fn build_post_body(message: &str) -> (r: GeminiPostBody)
    ensures
        body_is_scoring_request(r, message@),
{
    let prompt = build_prompt(message);
    let part = GeminiPostBodyPartsBody { text: prompt };
    let mut parts: Vec<GeminiPostBodyPartsBody> = Vec::new();
    parts.push(part);
    let mut contents: Vec<GeminiPostBodyParts> = Vec::new();
    contents.push(GeminiPostBodyParts { parts });
    let mut settings: Vec<GeminiPostBodySafetySettings> = Vec::new();
    settings.push(
        GeminiPostBodySafetySettings {
            category: GeminiHarmCategory::SexuallyExplicit,
            threshold: GeminiSafetyThreshold::BlockNone,
        },
    );
    settings.push(
        GeminiPostBodySafetySettings {
            category: GeminiHarmCategory::HateSpeech,
            threshold: GeminiSafetyThreshold::BlockNone,
        },
    );
    settings.push(
        GeminiPostBodySafetySettings {
            category: GeminiHarmCategory::Harassment,
            threshold: GeminiSafetyThreshold::BlockNone,
        },
    );
    settings.push(
        GeminiPostBodySafetySettings {
            category: GeminiHarmCategory::DangerousContent,
            threshold: GeminiSafetyThreshold::BlockNone,
        },
    );
    let generation = GeminiGenerationConfig {
        stop_sequences: None,
        temperature_milli: Some(0),
        top_p_milli: None,
        top_k: None,
        max_output_tokens: None,
        candidate_count: None,
    };
    GeminiPostBody {
        contents,
        safety_settings: Some(settings),
        generation_config: Some(generation),
    }
}

/// Whether an inbound event is moderated at all: bot authors and empty
/// messages are left alone.
pub fn is_eligible(author_is_bot: bool, content: &str) -> (r: bool)
    ensures
        r == (!author_is_bot && content@.len() > 0),
{
    !author_is_bot && !content.is_empty()
}

/// The eligibility screen and the request builder in one step.
///
/// An event from a bot author, or with empty content, produces no
/// request at all — nothing of it ever reaches the transport.
pub fn screen_message(author_is_bot: bool, content: &str) -> (r: Option<GeminiPostBody>)
    ensures
        r is Some <==> (!author_is_bot && content@.len() > 0),
        r is Some ==> body_is_scoring_request(r->0, content@),
{
    if is_eligible(author_is_bot, content) {
        Some(build_post_body(content))
    } else {
        None
    }
}

/// The score a response carries under the parsing rules; meaningful
/// only when its text holds a delimiter.
pub open spec fn response_score(resp: GeminiPostResponse) -> u16 {
    score_spec(score_part(response_text(resp)))
}

/// The reason a response carries; meaningful only when its text holds a
/// delimiter.
pub open spec fn response_reason(resp: GeminiPostResponse) -> Seq<char> {
    reason_part(response_text(resp))
}

/// Turns a scoring response into a decision: concatenates the
/// candidates' text, parses the `score|reason` verdict, and maps the
/// score through the thresholds, the delete check first.
pub fn process_response(resp: &GeminiPostResponse, config: &ModerationConfig) -> (r: Result<
    ModerationDecision,
    ModerationError,
>)
    ensures
        r is Ok <==> has_delim(response_text(*resp)),
        r matches Err(e) ==> e == ModerationError::MalformedVerdict,
        r matches Ok(d) ==> {
            &&& response_score(*resp) >= config.delete_threshold ==> (d matches
                ModerationDecision::Delete(s, rs) && s == response_score(*resp) && rs@
                == response_reason(*resp))
            &&& response_score(*resp) < config.delete_threshold && response_score(*resp)
                >= config.warn_threshold ==> (d matches ModerationDecision::Warn(s, rs) && s
                == response_score(*resp) && rs@ == response_reason(*resp))
            &&& response_score(*resp) < config.delete_threshold && response_score(*resp)
                < config.warn_threshold ==> d is Allow
        },
{
    let text = extract_text(resp);
    match parse_verdict(text.as_str()) {
        Ok(v) => Ok(decide(v.score, v.reason, config)),
        Err(e) => Err(e),
    }
}

} // verus!
