use vstd::prelude::*;

use crate::analysis::{analysis_of, AnalysisView, MAX_RISK_SCORE};
use crate::detect::{is_fee_manipulation, is_honeypot, is_ownership_risk, is_rug_pull};
use crate::text::{has_substring, lower_of};

verus! {

/// Every assessment scores between zero and the sum of all detector weights.
pub proof fn lemma_score_bounded(t: Seq<char>)
    ensures
        0 <= analysis_of(t).risk_score <= MAX_RISK_SCORE,
{
}

/// The level never contradicts the recommendation: a HIGH level always comes with
/// the advice to avoid, and only a LOW level can come with the advice that it is safe.
pub proof fn lemma_level_matches_advice(t: Seq<char>)
    ensures
        analysis_of(t).risk_level == "HIGH"@ ==> analysis_of(t).recommendations == seq![
            "AVOID: High scam probability"@,
        ],
        analysis_of(t).recommendations == seq!["SAFE: Appears legitimate"@]
            ==> analysis_of(t).risk_level == "LOW"@,
{
    reveal_strlit("HIGH");
    reveal_strlit("MEDIUM");
    reveal_strlit("LOW");
    reveal_strlit("AVOID: High scam probability");
    reveal_strlit("CAUTION: Conduct thorough research");
    reveal_strlit("SAFE: Appears legitimate");
    let a = analysis_of(t);
    if a.risk_level == "HIGH"@ {
        assert(a.risk_level.len() == 4);
        assert(a.risk_score >= 70);
    }
    if a.recommendations == seq!["SAFE: Appears legitimate"@] {
        assert(a.recommendations[0] == "SAFE: Appears legitimate"@);
        assert(a.recommendations[0][0] == 'S');
    }
}

/// The ownership issue is reported exactly when the text guards by owner and never
/// renounces ownership.
pub proof fn lemma_ownership_issue(t: Seq<char>)
    ensures
        analysis_of(t).issues.contains("Centralized ownership risk"@) == (has_substring(
            t,
            "onlyowner"@,
        ) && !has_substring(t, "renounceownership"@)),
{
    reveal_strlit("Honeypot pattern detected");
    reveal_strlit("Rug pull pattern detected");
    reveal_strlit("Centralized ownership risk");
    reveal_strlit("Dynamic fee manipulation possible");
    let issues = analysis_of(t).issues;
    if is_ownership_risk(t) {
        let k: int = (if is_honeypot(t) { 1int } else { 0int }) + (if is_rug_pull(t) { 1int } else { 0int });
        assert(issues[k] == "Centralized ownership risk"@);
    } else {
        assert forall|k: int| 0 <= k < issues.len() implies issues[k] != "Centralized ownership risk"@ by {
            assert(issues[k][0] != 'C');
        }
    }
}

/// When all four detector families fire, the verdict is the maximum score, a HIGH
/// level, the advice to avoid, and all four issues in detector order, wherever the
/// patterns stand in the text.
pub proof fn lemma_all_families(t: Seq<char>)
    requires
        is_honeypot(t),
        is_rug_pull(t),
        is_ownership_risk(t),
        is_fee_manipulation(t),
    ensures
        analysis_of(t).risk_score == MAX_RISK_SCORE,
        analysis_of(t).risk_level == "HIGH"@,
        analysis_of(t).recommendations == seq!["AVOID: High scam probability"@],
        analysis_of(t).issues == seq![
            "Honeypot pattern detected"@,
            "Rug pull pattern detected"@,
            "Centralized ownership risk"@,
            "Dynamic fee manipulation possible"@,
        ],
{
    assert(analysis_of(t).issues =~= seq![
        "Honeypot pattern detected"@,
        "Rug pull pattern detected"@,
        "Centralized ownership risk"@,
        "Dynamic fee manipulation possible"@,
    ]);
}

/// Matching ignores case: texts that fold to the same lower-case text get the same
/// assessment.
pub proof fn lemma_case_insensitive(a: Seq<char>, b: Seq<char>)
    requires
        lower_of(a) == lower_of(b),
    ensures
        analysis_of(lower_of(a)) == analysis_of(lower_of(b)),
{
}

/// Analysis keeps no state: two assessments of the same text are identical.
pub proof fn lemma_deterministic(text: Seq<char>, first: AnalysisView, second: AnalysisView)
    requires
        first == analysis_of(lower_of(text)),
        second == analysis_of(lower_of(text)),
    ensures
        first == second,
{
}

} // verus!
