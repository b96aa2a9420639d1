//! Rule-based auto-approval of remediation proposals.
//!
//! A rule's conditions are a typed structure of optional clauses; an
//! absent clause is vacuously satisfied, and an empty allow-list is
//! treated as absent. Rules are evaluated in the order given and the
//! first enabled rule that matches wins.

use vstd::prelude::*;

verus! {

/// Optional clauses a proposal is tested against. Savings are integer
/// cents.
#[derive(Clone, Debug)]
pub struct ApprovalConditions {
    pub max_savings_cents: Option<i64>,
    pub allowed_types: Option<Vec<String>>,
    pub allowed_risks: Option<Vec<String>>,
}

/// A named, ordered approval rule.
#[derive(Clone, Debug)]
pub struct AutoApprovalRule {
    pub name: String,
    pub enabled: bool,
    pub conditions: ApprovalConditions,
}

/// The subject evaluated against the rules. Savings are integer cents.
#[derive(Clone, Debug)]
pub struct RemediationProposal {
    pub action_type: String,
    pub risk: String,
    pub estimated_savings_cents: i64,
}

/// Whether some entry of `list` spells `s`.
pub open spec fn contains_string(list: Seq<String>, s: Seq<char>) -> bool {
    exists|i: int| 0 <= i < list.len() && #[trigger] list[i]@ == s
}

/// All present clauses hold: savings within the cap, type allowed, risk
/// allowed. An absent or empty allow-list allows everything.
pub open spec fn spec_rule_matches(c: ApprovalConditions, p: RemediationProposal) -> bool {
    &&& match c.max_savings_cents {
        Option::None => true,
        Option::Some(max) => p.estimated_savings_cents <= max,
    }
    &&& match c.allowed_types {
        Option::None => true,
        Option::Some(ts) => ts@.len() == 0 || contains_string(ts@, p.action_type@),
    }
    &&& match c.allowed_risks {
        Option::None => true,
        Option::Some(rs) => rs@.len() == 0 || contains_string(rs@, p.risk@),
    }
}

fn vec_contains_string(v: &Vec<String>, s: &String) -> (r: bool)
    ensures
        r == contains_string(v@, s@),
{
    let mut i: usize = 0;
    while i < v.len()
        invariant
            0 <= i <= v@.len(),
            forall|j: int| 0 <= j < i ==> #[trigger] v@[j]@ != s@,
        decreases v@.len() - i,
    {
        if v[i] == *s {
            return true;
        }
        i = i + 1;
    }
    false
}

/// Whether one rule's conditions all accept the proposal. The rule's
/// enabled flag is not consulted here; ordering and enablement are the
/// caller's concern.
pub fn matches_auto_approval(action: &RemediationProposal, rule: &AutoApprovalRule) -> (r: bool)
    ensures
        r == spec_rule_matches(rule.conditions, *action),
{
    let c = &rule.conditions;
    let savings_ok = match &c.max_savings_cents {
        Option::None => true,
        Option::Some(max) => action.estimated_savings_cents <= *max,
    };
    if !savings_ok {
        return false;
    }
    let types_ok = match &c.allowed_types {
        Option::None => true,
        Option::Some(ts) => ts.len() == 0 || vec_contains_string(ts, &action.action_type),
    };
    if !types_ok {
        return false;
    }
    match &c.allowed_risks {
        Option::None => true,
        Option::Some(rs) => rs.len() == 0 || vec_contains_string(rs, &action.risk),
    }
}

/// Index of the first enabled rule whose conditions accept the proposal,
/// if any: earlier rules never match when a later one is returned, and
/// `None` means no enabled rule matches at all.
pub fn find_matching_rule(rules: &Vec<AutoApprovalRule>, action: &RemediationProposal) -> (r:
    Option<usize>)
    ensures
        r is Some ==> {
            &&& r.unwrap() < rules@.len()
            &&& rules@[r.unwrap() as int].enabled
            &&& spec_rule_matches(rules@[r.unwrap() as int].conditions, *action)
            &&& forall|j: int|
                0 <= j < r.unwrap() ==> !(#[trigger] rules@[j].enabled && spec_rule_matches(
                    rules@[j].conditions,
                    *action,
                ))
        },
        r is None ==> forall|j: int|
            0 <= j < rules@.len() ==> !(#[trigger] rules@[j].enabled && spec_rule_matches(
                rules@[j].conditions,
                *action,
            )),
{
    let mut i: usize = 0;
    while i < rules.len()
        invariant
            0 <= i <= rules@.len(),
            forall|j: int|
                0 <= j < i ==> !(#[trigger] rules@[j].enabled && spec_rule_matches(
                    rules@[j].conditions,
                    *action,
                )),
        decreases rules@.len() - i,
    {
        let rule = &rules[i];
        if rule.enabled && matches_auto_approval(action, rule) {
            return Some(i);
        }
        i = i + 1;
    }
    None
}

} // verus!
