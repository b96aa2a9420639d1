//! Keyword-based intent classification of chat-assistant questions.

use vstd::prelude::*;

verus! {

/// What `str::to_lowercase` returns for a given character sequence; the
/// result is a function of the characters alone.
pub uninterp spec fn lower_of(s: Seq<char>) -> Seq<char>;

/// Relies on str::to_lowercase, named by `lower_of`.
#[verifier::external_body]
fn lowercase(s: &str) -> (r: String)
    ensures
        r@ == lower_of(s@),
{
    s.to_lowercase()
}

/// Whether `p` occurs in `s` as a contiguous run of characters.
pub open spec fn contains_sub(s: Seq<char>, p: Seq<char>) -> bool {
    exists|i: int| 0 <= i && i + p.len() <= s.len() && #[trigger] s.subrange(i, i + p.len()) == p
}

/// Relies on str::contains with a string pattern: substring containment.
#[verifier::external_body]
fn str_contains(s: &str, p: &str) -> (r: bool)
    ensures
        r == contains_sub(s@, p@),
{
    s.contains(p)
}

/// The intent label for an already-lowercased question: the first keyword
/// family that occurs anywhere in it wins.
pub open spec fn spec_intent(m: Seq<char>) -> Seq<char> {
    if contains_sub(m, "cost"@) || contains_sub(m, "spend"@) || contains_sub(m, "bill"@) {
        "cost_query"@
    } else if contains_sub(m, "anomal"@) || contains_sub(m, "spike"@) || contains_sub(
        m,
        "unusual"@,
    ) {
        "anomaly_query"@
    } else if contains_sub(m, "budget"@) {
        "budget_query"@
    } else if contains_sub(m, "sav"@) || contains_sub(m, "optim"@) || contains_sub(
        m,
        "recommend"@,
    ) {
        "savings_query"@
    } else if contains_sub(m, "forecast"@) || contains_sub(m, "predict"@) {
        "forecast_query"@
    } else {
        "general"@
    }
}

/// Classify a question by the keywords its lowercased text contains.
pub fn detect_intent(message: &str) -> (r: String)
    ensures
        r@ == spec_intent(lower_of(message@)),
{
    let msg = lowercase(message);
    let m = msg.as_str();
    if str_contains(m, "cost") || str_contains(m, "spend") || str_contains(m, "bill") {
        "cost_query".to_owned()
    } else if str_contains(m, "anomal") || str_contains(m, "spike") || str_contains(m, "unusual") {
        "anomaly_query".to_owned()
    } else if str_contains(m, "budget") {
        "budget_query".to_owned()
    } else if str_contains(m, "sav") || str_contains(m, "optim") || str_contains(m, "recommend") {
        "savings_query".to_owned()
    } else if str_contains(m, "forecast") || str_contains(m, "predict") {
        "forecast_query".to_owned()
    } else {
        "general".to_owned()
    }
}

} // verus!
