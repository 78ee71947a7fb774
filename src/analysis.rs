use vstd::prelude::*;

use crate::detect::{
    detect_fee_manipulation, detect_honeypot, detect_ownership_risk, detect_rugpull,
    is_fee_manipulation, is_honeypot, is_ownership_risk, is_rug_pull,
};
use crate::text::{lower_of, lowercase};

verus! {

/// Weight of the honeypot detector.
pub const HONEYPOT_WEIGHT: u8 = 30;

/// Weight of the rug-pull detector.
pub const RUG_PULL_WEIGHT: u8 = 40;

/// Weight of the ownership detector.
pub const OWNERSHIP_WEIGHT: u8 = 25;

/// Weight of the fee-manipulation detector.
pub const FEE_WEIGHT: u8 = 20;

/// The largest score any text can get: every detector fired.
pub const MAX_RISK_SCORE: u8 = 115;

/// What an assessment says, as mathematical values.
pub struct AnalysisView {
    pub risk_score: nat,
    pub risk_level: Seq<char>,
    pub issues: Seq<Seq<char>>,
    pub recommendations: Seq<Seq<char>>,
}

/// The verdict on one contract text.
#[derive(Debug, Clone, PartialEq, Eq)]
pub struct SecurityAnalysis {
    pub risk_score: u8,
    pub risk_level: String,
    pub issues: Vec<String>,
    pub recommendations: Vec<String>,
}

impl View for SecurityAnalysis {
    type V = AnalysisView;

    open spec fn view(&self) -> AnalysisView {
        AnalysisView {
            risk_score: self.risk_score as nat,
            risk_level: self.risk_level@,
            issues: self.issues.deep_view(),
            recommendations: self.recommendations.deep_view(),
        }
    }
}

/// `w` when `fired`, else nothing.
pub open spec fn weight_if(fired: bool, w: nat) -> nat {
    if fired {
        w
    } else {
        0
    }
}

/// The sum of the weights of the detectors that fire on normalized text `t`.
pub open spec fn score_of(t: Seq<char>) -> nat {
    weight_if(is_honeypot(t), HONEYPOT_WEIGHT as nat)
        + weight_if(is_rug_pull(t), RUG_PULL_WEIGHT as nat)
        + weight_if(is_ownership_risk(t), OWNERSHIP_WEIGHT as nat)
        + weight_if(is_fee_manipulation(t), FEE_WEIGHT as nat)
}

/// `[issue]` when `fired`, else empty.
pub open spec fn issue_if(fired: bool, issue: Seq<char>) -> Seq<Seq<char>> {
    if fired {
        seq![issue]
    } else {
        Seq::empty()
    }
}

/// The issue texts of the detectors that fire on `t`, in detector order.
pub open spec fn issues_of(t: Seq<char>) -> Seq<Seq<char>> {
    issue_if(is_honeypot(t), "Honeypot pattern detected"@)
        + issue_if(is_rug_pull(t), "Rug pull pattern detected"@)
        + issue_if(is_ownership_risk(t), "Centralized ownership risk"@)
        + issue_if(is_fee_manipulation(t), "Dynamic fee manipulation possible"@)
}

/// The risk level that a score falls in.
pub open spec fn level_for(score: int) -> Seq<char> {
    if score >= 70 {
        "HIGH"@
    } else if score >= 40 {
        "MEDIUM"@
    } else {
        "LOW"@
    }
}

/// The recommendation that a score calls for.
pub open spec fn advice_for(score: int) -> Seq<char> {
    if score > 60 {
        "AVOID: High scam probability"@
    } else if score > 30 {
        "CAUTION: Conduct thorough research"@
    } else {
        "SAFE: Appears legitimate"@
    }
}

/// The assessment of normalized contract text `t`.
pub open spec fn analysis_of(t: Seq<char>) -> AnalysisView {
    AnalysisView {
        risk_score: score_of(t),
        risk_level: level_for(score_of(t) as int),
        issues: issues_of(t),
        recommendations: seq![advice_for(score_of(t) as int)],
    }
}

/// The risk level for `score`: HIGH from 70, MEDIUM from 40, else LOW.
pub fn risk_level_for(score: u8) -> (r: String)
    ensures
        r@ == level_for(score as int),
{
    if score >= 70 {
        "HIGH".to_string()
    } else if score >= 40 {
        "MEDIUM".to_string()
    } else {
        "LOW".to_string()
    }
}

/// The recommendation for `score`: avoid above 60, caution above 30, else safe.
pub fn recommendation_for(score: u8) -> (r: String)
    ensures
        r@ == advice_for(score as int),
{
    if score > 60 {
        "AVOID: High scam probability".to_string()
    } else if score > 30 {
        "CAUTION: Conduct thorough research".to_string()
    } else {
        "SAFE: Appears legitimate".to_string()
    }
}

/// Runs every detector on already normalized text and scores the result.
pub fn assess(code: &str) -> (r: SecurityAnalysis)
    ensures
        r@ == analysis_of(code@),
        r.risk_score <= MAX_RISK_SCORE,
{
    let mut risk_score: u8 = 0;
    let mut issues: Vec<String> = Vec::new();
    if detect_honeypot(code) {
        risk_score = risk_score + HONEYPOT_WEIGHT;
        issues.push("Honeypot pattern detected".to_string());
    }
    if detect_rugpull(code) {
        risk_score = risk_score + RUG_PULL_WEIGHT;
        issues.push("Rug pull pattern detected".to_string());
    }
    if detect_ownership_risk(code) {
        risk_score = risk_score + OWNERSHIP_WEIGHT;
        issues.push("Centralized ownership risk".to_string());
    }
    if detect_fee_manipulation(code) {
        risk_score = risk_score + FEE_WEIGHT;
        issues.push("Dynamic fee manipulation possible".to_string());
    }
    let risk_level = risk_level_for(risk_score);
    let mut recommendations: Vec<String> = Vec::new();
    recommendations.push(recommendation_for(risk_score));
    let r = SecurityAnalysis { risk_score, risk_level, issues, recommendations };
    assert(r.issues.deep_view() =~= issues_of(code@));
    assert(r.recommendations.deep_view() =~= seq![advice_for(risk_score as int)]);
    r
}

/// Assesses raw contract source: folds it to lower case, then runs every detector on that.
pub fn analyze(text: &str) -> (r: SecurityAnalysis)
    ensures
        r@ == analysis_of(lower_of(text@)),
        r.risk_score <= MAX_RISK_SCORE,
{
    let code = lowercase(text);
    assess(code.as_str())
}

} // verus!
