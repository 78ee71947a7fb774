use scam_detector::analysis::{
    analyze, assess, recommendation_for, risk_level_for, SecurityAnalysis, MAX_RISK_SCORE,
};

const AVOID: &str = "AVOID: High scam probability";
const CAUTION: &str = "CAUTION: Conduct thorough research";
const SAFE: &str = "SAFE: Appears legitimate";

fn strings(items: &[&str]) -> Vec<String> {
    items.iter().map(|s| s.to_string()).collect()
}

fn check(a: &SecurityAnalysis, score: u8, level: &str, issues: &[&str], advice: &str) {
    assert_eq!(a.risk_score, score);
    assert_eq!(a.risk_level, level);
    assert_eq!(a.issues, strings(issues));
    assert_eq!(a.recommendations, strings(&[advice]));
}

#[test]
fn empty_input_is_low_risk() {
    check(&analyze(""), 0, "LOW", &[], SAFE);
}

#[test]
fn honeypot_alone_scores_thirty_and_is_safe_at_boundary() {
    check(&analyze("selllimit"), 30, "LOW", &["Honeypot pattern detected"], SAFE);
}

#[test]
fn owner_guard_without_renounce_is_ownership_risk() {
    check(&analyze("modifier onlyOwner() {}"), 25, "LOW", &["Centralized ownership risk"], SAFE);
}

#[test]
fn owner_guard_with_renounce_is_not_ownership_risk() {
    check(&analyze("onlyowner renounceownership"), 0, "LOW", &[], SAFE);
}

#[test]
fn mint_and_fee_setter_score_sixty() {
    check(
        &analyze("function mint(address,uint256); function setFee(uint x);"),
        60,
        "MEDIUM",
        &["Rug pull pattern detected", "Dynamic fee manipulation possible"],
        CAUTION,
    );
}

#[test]
fn all_families_in_reverse_order_score_maximum() {
    let text = "changefee onlyowner drainliquidity isblacklisted";
    check(
        &analyze(text),
        115,
        "HIGH",
        &[
            "Honeypot pattern detected",
            "Rug pull pattern detected",
            "Centralized ownership risk",
            "Dynamic fee manipulation possible",
        ],
        AVOID,
    );
    assert_eq!(MAX_RISK_SCORE, 115);
}

#[test]
fn matching_ignores_case() {
    assert_eq!(analyze("ONLYOWNER"), analyze("onlyowner"));
    assert_eq!(analyze("ONLYOWNER").risk_score, 25);
    assert_eq!(analyze("MaxSell").issues, strings(&["Honeypot pattern detected"]));
}

#[test]
fn analysis_is_repeatable() {
    let text = "contract T { function withdrawETH() onlyOwner {} }";
    let first = analyze(text);
    let second = analyze(text);
    assert_eq!(first, second);
    check(&first, 65, "MEDIUM", &["Rug pull pattern detected", "Centralized ownership risk"], AVOID);
}

#[test]
fn score_stays_within_bound() {
    let texts = [
        "",
        "selllimit maxsell whitelistonly tradingenabled isblacklisted cantransfer allowedtransfer",
        "mint(address,uint256) withdraweth drainliquidity emergencywithdraw withdrawtokens transferownership",
        "onlyowner setfee updatetax changefee selllimit withdraweth",
        "plain token with renounceOwnership",
    ];
    for t in texts.iter() {
        assert!(analyze(t).risk_score <= 115);
    }
}

#[test]
fn rug_pull_and_honeypot_score_seventy() {
    check(
        &analyze("tradingEnabled; emergencyWithdraw();"),
        70,
        "HIGH",
        &["Honeypot pattern detected", "Rug pull pattern detected"],
        AVOID,
    );
}

#[test]
fn rug_pull_alone_is_medium_with_caution() {
    check(&analyze("transferOwnership"), 40, "MEDIUM", &["Rug pull pattern detected"], CAUTION);
}

#[test]
fn fee_alone_is_low() {
    check(&analyze("updateTax"), 20, "LOW", &["Dynamic fee manipulation possible"], SAFE);
}

#[test]
fn honeypot_and_fee_score_fifty() {
    check(
        &analyze("canTransfer updatetax"),
        50,
        "MEDIUM",
        &["Honeypot pattern detected", "Dynamic fee manipulation possible"],
        CAUTION,
    );
}

#[test]
fn assess_expects_folded_text() {
    assert_eq!(assess("ONLYOWNER").risk_score, 0);
    assert_eq!(assess("onlyowner").risk_score, 25);
}

#[test]
fn level_thresholds() {
    assert_eq!(risk_level_for(0), "LOW");
    assert_eq!(risk_level_for(39), "LOW");
    assert_eq!(risk_level_for(40), "MEDIUM");
    assert_eq!(risk_level_for(69), "MEDIUM");
    assert_eq!(risk_level_for(70), "HIGH");
    assert_eq!(risk_level_for(255), "HIGH");
}

#[test]
fn recommendation_thresholds() {
    assert_eq!(recommendation_for(0), SAFE);
    assert_eq!(recommendation_for(30), SAFE);
    assert_eq!(recommendation_for(31), CAUTION);
    assert_eq!(recommendation_for(60), CAUTION);
    assert_eq!(recommendation_for(61), AVOID);
    assert_eq!(recommendation_for(255), AVOID);
}
