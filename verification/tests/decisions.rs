//! Scenario tests of the threshold decision engine.

use gemini_moderator::policy::decide;
use gemini_moderator::policy::ModerationConfig;
use gemini_moderator::policy::ModerationDecision;
use gemini_moderator::policy::DELETE_THRESHOLD;
use gemini_moderator::policy::WARN_THRESHOLD;

#[test]
fn thresholds_are_inclusive() {
    let config = ModerationConfig { delete_threshold: 850, warn_threshold: 1950 };
    assert_eq!(decide(849, String::new(), &config), ModerationDecision::Allow);
    assert_eq!(
        decide(850, "r".to_string(), &config),
        ModerationDecision::Delete(850, "r".to_string())
    );
    // The delete check is evaluated first, so it also wins at the warn bound.
    assert_eq!(
        decide(1950, "r".to_string(), &config),
        ModerationDecision::Delete(1950, "r".to_string())
    );
}

#[test]
fn delete_check_is_evaluated_first() {
    // Even with the delete threshold numerically below the warn
    // threshold, a score clearing the delete bound is deleted.
    let config = ModerationConfig { delete_threshold: 800, warn_threshold: 950 };
    assert_eq!(
        decide(900, "r".to_string(), &config),
        ModerationDecision::Delete(900, "r".to_string())
    );
}

#[test]
fn warn_branch_fires_between_the_bounds() {
    let config = ModerationConfig { delete_threshold: 1000, warn_threshold: 500 };
    assert_eq!(
        decide(600, "r".to_string(), &config),
        ModerationDecision::Warn(600, "r".to_string())
    );
    assert_eq!(decide(499, String::new(), &config), ModerationDecision::Allow);
    assert_eq!(
        decide(1000, "r".to_string(), &config),
        ModerationDecision::Delete(1000, "r".to_string())
    );
}

#[test]
fn standard_config_holds_the_deployment_thresholds() {
    let config = ModerationConfig::standard();
    assert_eq!(config.delete_threshold, DELETE_THRESHOLD);
    assert_eq!(config.warn_threshold, WARN_THRESHOLD);
    assert_eq!(config.delete_threshold, 850);
    assert_eq!(config.warn_threshold, 1950);
}
