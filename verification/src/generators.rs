//! One generator of answers for each intent. Each takes the question, the
//! statement and its summary, and never fails, whatever the statement holds.

use crate::models::{AnalysisResponse, ResponseView, RowView, Statement, StatementView};
use crate::router::Intent;
use crate::summary::{
    category_totals_view, spending_totals, sum_expenses, sum_income, tally_spending,
    total_expenses, total_income, CategoryTotal, CategoryTotalView, Summary,
};
use crate::text::{decimal_string, decimal_text, money_string, money_text};
use vstd::prelude::*;

verus! {

/// An optional position as an integer: -1 stands for none.
pub open spec fn position(index: Option<usize>) -> int {
    match index {
        Some(i) => i as int,
        None => -1,
    }
}

/// Among the first `n` entries, leaving out the one at `skip`, the position
/// of the largest total, the earliest of equal ones; -1 if there is none to
/// choose from.
pub open spec fn largest_among(entries: Seq<CategoryTotalView>, n: nat, skip: int) -> int
    decreases n,
{
    if n == 0 {
        -1
    } else {
        let before = largest_among(entries, (n - 1) as nat, skip);
        let k = n - 1;
        if k == skip {
            before
        } else if before < 0 || entries[k].total > entries[before].total {
            k
        } else {
            before
        }
    }
}

/// What [`largest_among`] picks: an entry other than the skipped one whose
/// total none of the others exceeds and none before it reaches; nothing only
/// where there is no entry, or none but the skipped one.
pub proof fn lemma_largest_among(entries: Seq<CategoryTotalView>, n: nat, skip: int)
    requires
        n <= entries.len(),
    ensures
        ({
            let best = largest_among(entries, n, skip);
            &&& -1 <= best < n
            &&& best >= 0 ==> best != skip
            &&& best < 0 <==> n == 0 || (n == 1 && skip == 0)
            &&& best >= 0 ==> forall|k: int|
                0 <= k < n && k != skip ==> (#[trigger] entries[k]).total <= entries[best].total
            &&& best >= 0 ==> forall|k: int|
                0 <= k < best && k != skip ==> (#[trigger] entries[k]).total < entries[best].total
        }),
    decreases n,
{
    if n > 0 {
        lemma_largest_among(entries, (n - 1) as nat, skip);
    }
}

/// The position of the largest total among the entries, leaving out the one
/// at `skip`; the earliest of equal ones.
pub fn largest_entry(entries: &Vec<CategoryTotal>, skip: Option<usize>) -> (found: Option<usize>)
    ensures
        position(found) == largest_among(
            category_totals_view(entries@),
            entries.len() as nat,
            position(skip),
        ),
        found matches Some(i) ==> i < entries.len() && found != skip,
{
    let ghost views = category_totals_view(entries@);
    let mut best: Option<usize> = None;
    let mut k: usize = 0;
    while k < entries.len()
        invariant
            k <= entries.len(),
            views == category_totals_view(entries@),
            position(best) == largest_among(views, k as nat, position(skip)),
            best matches Some(b) ==> b < k,
        decreases entries.len() - k,
    {
        let skipped = match skip {
            Some(s) => s == k,
            None => false,
        };
        if !skipped {
            let better = match best {
                Some(b) => entries[k].total > entries[b].total,
                None => true,
            };
            if better {
                best = Some(k);
            }
        }
        k = k + 1;
    }
    proof {
        lemma_largest_among(views, entries.len() as nat, position(skip));
    }
    best
}

/// A category with its total and the rank it holds.
pub open spec fn ranked_insight_text(entry: CategoryTotalView, rank: Seq<char>) -> Seq<char> {
    entry.category + ": $"@ + money_text(entry.total) + rank
}

fn ranked_insight(entry: &CategoryTotal, rank: &str) -> (text: String)
    ensures
        text@ == ranked_insight_text(entry@, rank@),
{
    let mut text = entry.category.clone();
    let amount = money_string(entry.total);
    text.append(": $");
    text.append(amount.as_str());
    text.append(rank);
    text
}

/// The answer to a question about spending, given what was spent in each
/// category: the total expenses of the rows, then the category in which most
/// was spent and the one in which most was spent of the rest, each with its
/// amount where there is such a category, and one suggestion at the end. The
/// response names the two categories where there are two.
pub open spec fn spending_answer(
    rows: Seq<RowView>,
    entries: Seq<CategoryTotalView>,
) -> ResponseView {
    let first = largest_among(entries, entries.len(), -1);
    let second = largest_among(entries, entries.len(), first);
    let base = "Your total expenses are $"@ + money_text(total_expenses(rows)) + "."@;
    let advice = "Consider meal planning to reduce food costs"@;
    if first < 0 {
        ResponseView { response: base, insights: seq![advice] }
    } else if second < 0 {
        ResponseView {
            response: base,
            insights: seq![ranked_insight_text(entries[first], " (highest category)"@), advice],
        }
    } else {
        ResponseView {
            response: base + " "@ + entries[first].category + " and "@ + entries[second].category
                + " make up the largest categories."@,
            insights: seq![
                ranked_insight_text(entries[first], " (highest category)"@),
                ranked_insight_text(entries[second], " (second highest category)"@),
                advice,
            ],
        }
    }
}

/// The answer to a question about income: the total income of the rows and
/// three fixed observations.
pub open spec fn income_answer(rows: Seq<RowView>) -> ResponseView {
    ResponseView {
        response: "Your total income is $"@ + money_text(total_income(rows))
            + ", primarily from salary deposits."@,
        insights: seq![
            "Consistent income stream detected"@,
            "Good cash flow management"@,
            "Consider diversifying income sources"@,
        ],
    }
}

/// The answer to a question about a budget: a fixed sentence and the 50/30/20
/// split of needs, wants and savings.
pub open spec fn budget_answer() -> ResponseView {
    ResponseView {
        response: "Based on your spending patterns, here's a budget analysis:"@,
        insights: seq![
            "50% for needs (food, transport): Currently at 48%"@,
            "30% for wants: Consider tracking entertainment expenses"@,
            "20% for savings: Good opportunity to increase savings rate"@,
        ],
    }
}

/// The answer to any other question: the question itself, the number of rows,
/// the closing balance and a hint at the keywords.
pub open spec fn generic_answer(query: Seq<char>, statement: StatementView) -> ResponseView {
    ResponseView {
        response: "Financial analysis for: "@ + query,
        insights: seq![
            "Total transactions analyzed: "@ + decimal_text(statement.rows.len()),
            "Current balance: $"@ + money_text(statement.total),
            "Use specific keywords like 'spending', 'income', or 'budget' for detailed analysis"@,
        ],
    }
}

/// The answer that each intent calls for.
pub open spec fn answer_for(
    intent: Intent,
    query: Seq<char>,
    statement: StatementView,
) -> ResponseView {
    match intent {
        Intent::Spending => spending_answer(statement.rows, spending_totals(statement.rows)),
        Intent::Income => income_answer(statement.rows),
        Intent::Budget => budget_answer(),
        Intent::Generic => generic_answer(query, statement),
    }
}

/// Answers a question about spending. The total and what was spent in each
/// category are computed from the rows of the statement: a category ranks by
/// its outflows alone, and one with none is not named.
pub fn spending_response(_query: &str, statement: &Statement, _summary: &Summary) -> (answer:
    AnalysisResponse)
    ensures
        answer@ == spending_answer(statement@.rows, spending_totals(statement@.rows)),
{
    let entries = tally_spending(&statement.rows);
    let ghost views = category_totals_view(entries@);
    let total = sum_expenses(&statement.rows);
    let amount = money_string(total);
    let first = largest_entry(&entries, None);
    let second = largest_entry(&entries, first);
    let mut response = String::from_str("Your total expenses are $");
    response.append(amount.as_str());
    response.append(".");
    let mut insights: Vec<String> = Vec::new();
    match first {
        Some(a) => {
            assert(views[a as int] == entries[a as int]@);
            match second {
                Some(b) => {
                    assert(views[b as int] == entries[b as int]@);
                    response.append(" ");
                    response.append(entries[a].category.as_str());
                    response.append(" and ");
                    response.append(entries[b].category.as_str());
                    response.append(" make up the largest categories.");
                    insights.push(ranked_insight(&entries[a], " (highest category)"));
                    insights.push(ranked_insight(&entries[b], " (second highest category)"));
                },
                None => {
                    insights.push(ranked_insight(&entries[a], " (highest category)"));
                },
            }
        },
        None => {},
    }
    insights.push(String::from_str("Consider meal planning to reduce food costs"));
    let answer = AnalysisResponse { response, insights };
    assert(answer@.insights =~= spending_answer(statement@.rows, views).insights);
    answer
}

/// Answers a question about income, with the total computed from the rows of
/// the statement.
pub fn income_response(_query: &str, statement: &Statement, _summary: &Summary) -> (answer:
    AnalysisResponse)
    ensures
        answer@ == income_answer(statement@.rows),
{
    let total = sum_income(&statement.rows);
    let amount = money_string(total);
    let mut response = String::from_str("Your total income is $");
    response.append(amount.as_str());
    response.append(", primarily from salary deposits.");
    let mut insights: Vec<String> = Vec::new();
    insights.push(String::from_str("Consistent income stream detected"));
    insights.push(String::from_str("Good cash flow management"));
    insights.push(String::from_str("Consider diversifying income sources"));
    let answer = AnalysisResponse { response, insights };
    assert(answer@.insights =~= income_answer(statement@.rows).insights);
    answer
}

/// Answers a question about a budget. The answer is the same for every
/// statement.
pub fn budget_response(_query: &str, _statement: &Statement, _summary: &Summary) -> (answer:
    AnalysisResponse)
    ensures
        answer@ == budget_answer(),
{
    let response = String::from_str("Based on your spending patterns, here's a budget analysis:");
    let mut insights: Vec<String> = Vec::new();
    insights.push(String::from_str("50% for needs (food, transport): Currently at 48%"));
    insights.push(String::from_str("30% for wants: Consider tracking entertainment expenses"));
    insights.push(String::from_str("20% for savings: Good opportunity to increase savings rate"));
    let answer = AnalysisResponse { response, insights };
    assert(answer@.insights =~= budget_answer().insights);
    answer
}

/// Answers a question of no known intent.
pub fn generic_response(query: &str, statement: &Statement, _summary: &Summary) -> (answer:
    AnalysisResponse)
    ensures
        answer@ == generic_answer(query@, statement@),
{
    let mut response = String::from_str("Financial analysis for: ");
    response.append(query);
    let count = decimal_string(statement.rows.len() as u128);
    let mut counted = String::from_str("Total transactions analyzed: ");
    counted.append(count.as_str());
    let amount = money_string(statement.total as i128);
    let mut balance = String::from_str("Current balance: $");
    balance.append(amount.as_str());
    let mut insights: Vec<String> = Vec::new();
    insights.push(counted);
    insights.push(balance);
    insights.push(
        String::from_str(
            "Use specific keywords like 'spending', 'income', or 'budget' for detailed analysis",
        ),
    );
    let answer = AnalysisResponse { response, insights };
    assert(answer@.insights =~= generic_answer(query@, statement@).insights);
    answer
}

/// Answers a question of the given intent with the generator for it.
pub fn respond(intent: Intent, query: &str, statement: &Statement, summary: &Summary) -> (answer:
    AnalysisResponse)
    ensures
        answer@ == answer_for(intent, query@, statement@),
{
    match intent {
        Intent::Spending => spending_response(query, statement, summary),
        Intent::Income => income_response(query, statement, summary),
        Intent::Budget => budget_response(query, statement, summary),
        Intent::Generic => generic_response(query, statement, summary),
    }
}

} // verus!
