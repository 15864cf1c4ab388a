//! The intent of a question, decided by the keywords it holds.

use crate::text::{contains, lowercase_of, occurs_in, to_lowercase};
use vstd::prelude::*;

verus! {

/// What a question is about.
#[derive(Clone, Copy, Debug, PartialEq, Eq, Structural)]
pub enum Intent {
    Spending,
    Income,
    Budget,
    Generic,
}

/// The intent of a question that is already in lowercase. The rules are tried
/// in a fixed order and the first that matches decides: "spending" or
/// "expense", then "income", then "budget"; a question that holds none of
/// them is generic.
pub open spec fn intent_of(lowered: Seq<char>) -> Intent {
    if occurs_in("spending"@, lowered) || occurs_in("expense"@, lowered) {
        Intent::Spending
    } else if occurs_in("income"@, lowered) {
        Intent::Income
    } else if occurs_in("budget"@, lowered) {
        Intent::Budget
    } else {
        Intent::Generic
    }
}

/// The intent of a question as it was typed: that of its lowercase form.
pub open spec fn query_intent(query: Seq<char>) -> Intent {
    intent_of(lowercase_of(query))
}

/// Classifies a question that is already in lowercase.
pub fn classify_lowered(lowered: &str) -> (intent: Intent)
    ensures
        intent == intent_of(lowered@),
{
    if contains(lowered, "spending") || contains(lowered, "expense") {
        Intent::Spending
    } else if contains(lowered, "income") {
        Intent::Income
    } else if contains(lowered, "budget") {
        Intent::Budget
    } else {
        Intent::Generic
    }
}

/// Classifies a question, whatever the case of its letters.
pub fn classify(query: &str) -> (intent: Intent)
    ensures
        intent == query_intent(query@),
{
    let lowered = to_lowercase(query);
    classify_lowered(lowered.as_str())
}

/// The order of the rules decides between keywords: a question that
/// mentions spending is a spending question even if it mentions income too,
/// and one that mentions income, and neither spending nor expense, is an
/// income question even if it mentions a budget too.
pub proof fn lemma_classification_is_ordered(query: Seq<char>)
    ensures
        occurs_in("spending"@, lowercase_of(query)) && occurs_in("income"@, lowercase_of(query))
            ==> query_intent(query) == Intent::Spending,
        occurs_in("income"@, lowercase_of(query)) && occurs_in("budget"@, lowercase_of(query))
            && !occurs_in("spending"@, lowercase_of(query)) && !occurs_in(
            "expense"@,
            lowercase_of(query),
        ) ==> query_intent(query) == Intent::Income,
{
}

/// Two questions that differ only in the case of their letters, so that
/// their lowercase forms are the same, have the same intent.
pub proof fn lemma_classification_ignores_case(first: Seq<char>, second: Seq<char>)
    requires
        lowercase_of(first) == lowercase_of(second),
    ensures
        query_intent(first) == query_intent(second),
{
}

} // verus!
