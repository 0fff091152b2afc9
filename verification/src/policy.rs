//! Threshold configuration and the decision engine.

use vstd::prelude::*;

verus! {

/// Default score at or above which a message is deleted.
pub const DELETE_THRESHOLD: u16 = 850;

/// Default score at or above which the author is warned.
pub const WARN_THRESHOLD: u16 = 1950;

/// Channel receiving moderation notices.
pub const MOD_LOG_CHANNEL: u64 = 1113711421839130664;

/// Channel receiving the unconditional audit line for every scored message.
pub const DEBUG_LOG_CHANNEL: u64 = 1170136488038637599;

/// The two score thresholds the decision engine runs on, fixed at startup.
///
/// The delete check is evaluated before the warn check, whatever the
/// numeric order of the two thresholds; see [`decide`].
#[derive(Debug, Clone, Copy)]
pub struct ModerationConfig {
    pub delete_threshold: u16,
    pub warn_threshold: u16,
}

impl ModerationConfig {
    /// The configuration the deployment runs with.
    pub fn standard() -> (r: ModerationConfig)
        ensures
            r.delete_threshold == DELETE_THRESHOLD,
            r.warn_threshold == WARN_THRESHOLD,
    {
        ModerationConfig { delete_threshold: DELETE_THRESHOLD, warn_threshold: WARN_THRESHOLD }
    }
}

/// What to do with a scored message.
#[derive(Debug, Clone, PartialEq, Eq)]
pub enum ModerationDecision {
    Allow,
    Warn(u16, String),
    Delete(u16, String),
}

/// Maps a parsed score to an action.
///
/// The delete comparison is made first: a score at or above
/// `delete_threshold` is deleted even when it also clears
/// `warn_threshold`, and even when `delete_threshold` is the
/// numerically lower of the two.  Both comparisons are inclusive.
pub fn decide(score: u16, reason: String, config: &ModerationConfig) -> (r: ModerationDecision)
    ensures
        score >= config.delete_threshold ==> r == ModerationDecision::Delete(score, reason),
        score < config.delete_threshold && score >= config.warn_threshold ==> r
            == ModerationDecision::Warn(score, reason),
        score < config.delete_threshold && score < config.warn_threshold ==> r
            == ModerationDecision::Allow,
{
    if score >= config.delete_threshold {
        ModerationDecision::Delete(score, reason)
    } else if score >= config.warn_threshold {
        ModerationDecision::Warn(score, reason)
    } else {
        ModerationDecision::Allow
    }
}

} // verus!
