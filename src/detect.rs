use vstd::prelude::*;

use crate::text::{contains, contains_any, has_any_substring, has_substring, views_of};

verus! {

/// Substrings that betray a honeypot: code that keeps holders from selling.
pub open spec fn honeypot_patterns() -> Seq<Seq<char>> {
    seq![
        "selllimit"@,
        "maxsell"@,
        "whitelistonly"@,
        "tradingenabled"@,
        "isblacklisted"@,
        "cantransfer"@,
        "allowedtransfer"@,
    ]
}

/// Substrings that betray a rug pull: code that lets the owner drain funds.
pub open spec fn rug_pull_patterns() -> Seq<Seq<char>> {
    seq![
        "mint(address,uint256)"@,
        "withdraweth"@,
        "drainliquidity"@,
        "emergencywithdraw"@,
        "withdrawtokens"@,
        "transferownership"@,
    ]
}

/// Substrings that betray fees the owner can change after deployment.
pub open spec fn fee_patterns() -> Seq<Seq<char>> {
    seq!["setfee"@, "updatetax"@, "changefee"@]
}

/// The honeypot detector fires on normalized text `t`.
pub open spec fn is_honeypot(t: Seq<char>) -> bool {
    has_any_substring(t, honeypot_patterns())
}

/// The rug-pull detector fires on normalized text `t`.
pub open spec fn is_rug_pull(t: Seq<char>) -> bool {
    has_any_substring(t, rug_pull_patterns())
}

/// The ownership detector fires: an owner-only guard that is never renounced.
pub open spec fn is_ownership_risk(t: Seq<char>) -> bool {
    has_substring(t, "onlyowner"@) && !has_substring(t, "renounceownership"@)
}

/// The fee-manipulation detector fires on normalized text `t`.
pub open spec fn is_fee_manipulation(t: Seq<char>) -> bool {
    has_any_substring(t, fee_patterns())
}

/// Whether normalized contract text holds any honeypot pattern.
pub fn detect_honeypot(code: &str) -> (r: bool)
    ensures
        r == is_honeypot(code@),
{
    let patterns: [&str; 7] = [
        "selllimit",
        "maxsell",
        "whitelistonly",
        "tradingenabled",
        "isblacklisted",
        "cantransfer",
        "allowedtransfer",
    ];
    let r = contains_any(code, patterns.as_slice());
    assert(views_of(patterns@) =~= honeypot_patterns());
    r
}

/// Whether normalized contract text holds any rug-pull pattern.
pub fn detect_rugpull(code: &str) -> (r: bool)
    ensures
        r == is_rug_pull(code@),
{
    let patterns: [&str; 6] = [
        "mint(address,uint256)",
        "withdraweth",
        "drainliquidity",
        "emergencywithdraw",
        "withdrawtokens",
        "transferownership",
    ];
    let r = contains_any(code, patterns.as_slice());
    assert(views_of(patterns@) =~= rug_pull_patterns());
    r
}

/// Whether normalized contract text guards functions by owner without renouncing ownership.
pub fn detect_ownership_risk(code: &str) -> (r: bool)
    ensures
        r == is_ownership_risk(code@),
{
    contains(code, "onlyowner") && !contains(code, "renounceownership")
}

/// Whether normalized contract text can change its fees or taxes.
pub fn detect_fee_manipulation(code: &str) -> (r: bool)
    ensures
        r == is_fee_manipulation(code@),
{
    let r = contains(code, "setfee") || contains(code, "updatetax") || contains(code, "changefee");
    assert(r == is_fee_manipulation(code@)) by {
        if has_substring(code@, "setfee"@) {
            assert(fee_patterns()[0] == "setfee"@);
        }
        if has_substring(code@, "updatetax"@) {
            assert(fee_patterns()[1] == "updatetax"@);
        }
        if has_substring(code@, "changefee"@) {
            assert(fee_patterns()[2] == "changefee"@);
        }
    }
    r
}

} // verus!
