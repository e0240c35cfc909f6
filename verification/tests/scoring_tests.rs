use hispanshield_agent::scoring::{calculate_score, risk_level, RiskLevel, ScoreFactors};

#[test]
fn clean_score() {
    let factors = ScoreFactors::default();
    assert_eq!(calculate_score(&factors), 0);
    assert_eq!(risk_level(0), RiskLevel::Clean);
}

#[test]
fn hash_in_feed_is_critical() {
    let factors = ScoreFactors {
        hash_in_feed: true,
        ..Default::default()
    };
    assert!(calculate_score(&factors) >= 80);
    assert_eq!(risk_level(calculate_score(&factors)), RiskLevel::Critical);
}

#[test]
fn mod_trusted_signature_reduces_score() {
    let factors_unsigned = ScoreFactors {
        exec_from_temp: true,
        no_digital_signature: true,
        ..Default::default()
    };
    let factors_signed = ScoreFactors {
        exec_from_temp: true,
        valid_signature_trusted: true,
        ..Default::default()
    };
    assert!(calculate_score(&factors_unsigned) > calculate_score(&factors_signed));
}

#[test]
fn score_clamps_at_100() {
    let factors = ScoreFactors {
        hash_in_feed: true,
        yara_match_strong: true,
        connection_to_ioc: true,
        mass_file_modification: true,
        autorun_persistence: true,
        ..Default::default()
    };
    assert_eq!(calculate_score(&factors), 100);
}

#[test]
fn score_zero_for_clean_file() {
    let factors = ScoreFactors::default();
    assert_eq!(calculate_score(&factors), 0);
    assert!(matches!(risk_level(0), RiskLevel::Clean));
}

#[test]
fn score_critical_for_hash_in_feed() {
    let factors = ScoreFactors {
        hash_in_feed: true,
        ..Default::default()
    };
    let score = calculate_score(&factors);
    assert!(score >= 80, "Expected critical score, got {}", score);
    assert!(matches!(risk_level(score), RiskLevel::Critical));
}

#[test]
fn score_high_for_yara_strong() {
    let factors = ScoreFactors {
        yara_match_strong: true,
        ..Default::default()
    };
    let score = calculate_score(&factors);
    assert!(score >= 60, "Expected high score, got {}", score);
}

#[test]
fn score_suspicious_for_temp_exec_no_sign() {
    let factors = ScoreFactors {
        exec_from_temp: true,
        no_digital_signature: true,
        ..Default::default()
    };
    let score = calculate_score(&factors);
    assert!(score >= 30, "Expected suspicious score, got {}", score);
    assert!(matches!(risk_level(score), RiskLevel::Suspicious | RiskLevel::High | RiskLevel::Critical));
}

#[test]
fn scoring_tests_trusted_signature_reduces_score() {
    let without_trust = ScoreFactors {
        exec_from_temp: true,
        no_digital_signature: true,
        ..Default::default()
    };
    let with_trust = ScoreFactors {
        exec_from_temp: true,
        valid_signature_trusted: true,
        misp_allowlist: true,
        ..Default::default()
    };
    let score_without = calculate_score(&without_trust);
    let score_with = calculate_score(&with_trust);
    assert!(score_with < score_without, "Trusted signature should reduce score");
}

#[test]
fn score_never_exceeds_100() {
    let factors = ScoreFactors {
        hash_in_feed: true,
        yara_match_strong: true,
        connection_to_ioc: true,
        mass_file_modification: true,
        autorun_persistence: true,
        beaconing: true,
        lolbin_suspicious: true,
        ..Default::default()
    };
    let score = calculate_score(&factors);
    assert!(score <= 100, "Score must not exceed 100, got {}", score);
}

#[test]
fn score_never_below_zero() {
    let factors = ScoreFactors {
        valid_signature_trusted: true,
        misp_allowlist: true,
        ..Default::default()
    };
    let score = calculate_score(&factors);
    assert!(score <= 100, "Score underflow, got {}", score);
}

#[test]
fn risk_level_boundaries() {
    assert!(matches!(risk_level(0), RiskLevel::Clean));
    assert!(matches!(risk_level(29), RiskLevel::Clean));
    assert!(matches!(risk_level(30), RiskLevel::Suspicious));
    assert!(matches!(risk_level(59), RiskLevel::Suspicious));
    assert!(matches!(risk_level(60), RiskLevel::High));
    assert!(matches!(risk_level(79), RiskLevel::High));
    assert!(matches!(risk_level(80), RiskLevel::Critical));
    assert!(matches!(risk_level(100), RiskLevel::Critical));
}

#[test]
fn single_flag_weights() {
    let one = |f: fn(&mut ScoreFactors)| {
        let mut s = ScoreFactors::default();
        f(&mut s);
        calculate_score(&s)
    };
    assert_eq!(one(|s| s.hash_in_feed = true), 90);
    assert_eq!(one(|s| s.yara_match_strong = true), 80);
    assert_eq!(one(|s| s.connection_to_ioc = true), 70);
    assert_eq!(one(|s| s.exec_from_temp = true), 20);
    assert_eq!(one(|s| s.no_digital_signature = true), 15);
    assert_eq!(one(|s| s.suspicious_parent = true), 20);
    assert_eq!(one(|s| s.lolbin_suspicious = true), 25);
    assert_eq!(one(|s| s.mass_file_modification = true), 40);
    assert_eq!(one(|s| s.autorun_persistence = true), 35);
    assert_eq!(one(|s| s.beaconing = true), 30);
    assert_eq!(one(|s| s.yara_match_weak = true), 40);
    assert_eq!(one(|s| s.exec_from_appdata = true), 15);
    assert_eq!(one(|s| s.rare_port_connection = true), 20);
    assert_eq!(one(|s| s.valid_signature_trusted = true), 0);
    assert_eq!(one(|s| s.misp_allowlist = true), 0);
}

#[test]
fn mitigations_subtract_before_clamping() {
    let f = ScoreFactors {
        yara_match_strong: true,
        valid_signature_trusted: true,
        misp_allowlist: true,
        ..Default::default()
    };
    assert_eq!(calculate_score(&f), 30);
    assert_eq!(risk_level(30), RiskLevel::Suspicious);
}

#[test]
fn adding_a_flag_never_lowers_the_level() {
    let base = ScoreFactors {
        exec_from_temp: true,
        ..Default::default()
    };
    let more = ScoreFactors {
        exec_from_temp: true,
        beaconing: true,
        ..Default::default()
    };
    assert!(calculate_score(&more) >= calculate_score(&base));
    assert_eq!(calculate_score(&base), 20);
    assert_eq!(calculate_score(&more), 50);
}
