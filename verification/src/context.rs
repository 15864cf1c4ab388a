//! The structured context of a question: what is known of the statement,
//! gathered in one record, and that record written out as text.

use crate::models::{rows_view, RowView, Statement, StatementRow, StatementView};
use crate::summary::{
    category_label, category_totals_view, label_of, CategoryTotal, CategoryTotalView, Summary,
    SummaryView,
};
use crate::text::{decimal_string, decimal_text, money_string, money_text};
use vstd::prelude::*;

verus! {

/// What is relevant to a question about a statement: the file name, the
/// closing balance in cents, the number of rows, the dates of the first and
/// the last row ("N/A" each when there is no row), the summary, and the
/// question as it was typed.
#[derive(Debug, PartialEq, Eq)]
pub struct ContextBlob {
    pub file_name: String,
    pub total: i64,
    pub transaction_count: usize,
    pub first_date: String,
    pub last_date: String,
    pub summary: Summary,
    pub query: String,
}

/// What a [`ContextBlob`] is to the contracts.
pub ghost struct ContextView {
    pub file_name: Seq<char>,
    pub total: int,
    pub transaction_count: nat,
    pub first_date: Seq<char>,
    pub last_date: Seq<char>,
    pub summary: SummaryView,
    pub query: Seq<char>,
}

impl View for ContextBlob {
    type V = ContextView;

    open spec fn view(&self) -> ContextView {
        ContextView {
            file_name: self.file_name@,
            total: self.total as int,
            transaction_count: self.transaction_count as nat,
            first_date: self.first_date@,
            last_date: self.last_date@,
            summary: self.summary@,
            query: self.query@,
        }
    }
}

/// The context of a question about a statement with the given summary.
pub open spec fn context_of(
    statement: StatementView,
    summary: SummaryView,
    query: Seq<char>,
) -> ContextView {
    ContextView {
        file_name: statement.file_name,
        total: statement.total,
        transaction_count: statement.rows.len(),
        first_date: if statement.rows.len() == 0 {
            "N/A"@
        } else {
            statement.rows.first().date
        },
        last_date: if statement.rows.len() == 0 {
            "N/A"@
        } else {
            statement.rows.last().date
        },
        summary,
        query,
    }
}

/// Gathers the context of a question. The summary is taken as it is given.
pub fn build_context(statement: &Statement, summary: Summary, query: &str) -> (context: ContextBlob)
    ensures
        context@ == context_of(statement@, summary@, query@),
{
    let count = statement.rows.len();
    let first_date = if count == 0 {
        String::from_str("N/A")
    } else {
        statement.rows[0].date.clone()
    };
    let last_date = if count == 0 {
        String::from_str("N/A")
    } else {
        statement.rows[count - 1].date.clone()
    };
    ContextBlob {
        file_name: statement.file_name.clone(),
        total: statement.total,
        transaction_count: count,
        first_date,
        last_date,
        summary,
        query: String::from_str(query),
    }
}

/// One line for a category and its total.
pub open spec fn category_line(entry: CategoryTotalView) -> Seq<char> {
    "- "@ + entry.category + ": $"@ + money_text(entry.total) + "\n"@
}

/// The lines of a run of category totals, in order.
pub open spec fn category_lines(entries: Seq<CategoryTotalView>) -> Seq<char>
    decreases entries.len(),
{
    if entries.len() == 0 {
        Seq::empty()
    } else {
        category_lines(entries.drop_last()) + category_line(entries.last())
    }
}

/// One line for a row: date, description, amount and category.
pub open spec fn row_line(row: RowView) -> Seq<char> {
    row.date + " | "@ + row.description + " | $"@ + money_text(row.amount) + " | "@ + label_of(row)
        + "\n"@
}

/// The lines of a run of rows, in order.
pub open spec fn row_lines(rows: Seq<RowView>) -> Seq<char>
    decreases rows.len(),
{
    if rows.len() == 0 {
        Seq::empty()
    } else {
        row_lines(rows.drop_last()) + row_line(rows.last())
    }
}

/// A summary as text: the three totals, a line for each category in the
/// order of the summary, and a line for each recent row.
pub open spec fn summary_text(summary: SummaryView) -> Seq<char> {
    "Total Income: $"@ + money_text(summary.total_income) + "\nTotal Expenses: $"@ + money_text(
        summary.total_expenses,
    ) + "\nNet Cash Flow: $"@ + money_text(summary.net_cash_flow) + "\n\nSPENDING BY CATEGORY:\n"@
        + category_lines(summary.category_totals) + "\nRECENT TRANSACTIONS:\n"@ + row_lines(
        summary.recent_rows,
    )
}

fn write_category_line(entry: &CategoryTotal) -> (line: String)
    ensures
        line@ == category_line(entry@),
{
    let amount = money_string(entry.total);
    let mut line = String::from_str("- ");
    line.append(entry.category.as_str());
    line.append(": $");
    line.append(amount.as_str());
    line.append("\n");
    line
}

fn write_row_line(row: &StatementRow) -> (line: String)
    ensures
        line@ == row_line(row@),
{
    let amount = money_string(row.amount as i128);
    let label = category_label(row);
    let mut line = row.date.clone();
    line.append(" | ");
    line.append(row.description.as_str());
    line.append(" | $");
    line.append(amount.as_str());
    line.append(" | ");
    line.append(label.as_str());
    line.append("\n");
    line
}

/// Writes a summary out as text.
pub fn render_summary(summary: &Summary) -> (text: String)
    ensures
        text@ == summary_text(summary@),
{
    let income = money_string(summary.total_income);
    let expenses = money_string(summary.total_expenses);
    let net = money_string(summary.net_cash_flow);
    let mut text = String::from_str("Total Income: $");
    text.append(income.as_str());
    text.append("\nTotal Expenses: $");
    text.append(expenses.as_str());
    text.append("\nNet Cash Flow: $");
    text.append(net.as_str());
    text.append("\n\nSPENDING BY CATEGORY:\n");
    let ghost head = text@;
    let ghost entries = category_totals_view(summary.category_totals@);
    let mut k: usize = 0;
    assert(text@ =~= head + category_lines(entries.take(0)));
    while k < summary.category_totals.len()
        invariant
            k <= summary.category_totals.len(),
            entries == category_totals_view(summary.category_totals@),
            text@ == head + category_lines(entries.take(k as int)),
        decreases summary.category_totals.len() - k,
    {
        let line = write_category_line(&summary.category_totals[k]);
        proof {
            assert(entries.take(k + 1).drop_last() =~= entries.take(k as int));
            assert(entries.take(k + 1).last() == summary.category_totals[k as int]@);
        }
        text.append(line.as_str());
        assert(text@ =~= head + category_lines(entries.take(k + 1)));
        k = k + 1;
    }
    assert(entries.take(k as int) =~= entries);
    text.append("\nRECENT TRANSACTIONS:\n");
    let ghost middle = text@;
    let ghost rows = rows_view(summary.recent_rows@);
    let mut i: usize = 0;
    assert(text@ =~= middle + row_lines(rows.take(0)));
    while i < summary.recent_rows.len()
        invariant
            i <= summary.recent_rows.len(),
            rows == rows_view(summary.recent_rows@),
            text@ == middle + row_lines(rows.take(i as int)),
        decreases summary.recent_rows.len() - i,
    {
        let line = write_row_line(&summary.recent_rows[i]);
        proof {
            assert(rows.take(i + 1).drop_last() =~= rows.take(i as int));
            assert(rows.take(i + 1).last() == summary.recent_rows[i as int]@);
        }
        text.append(line.as_str());
        assert(text@ =~= middle + row_lines(rows.take(i + 1)));
        i = i + 1;
    }
    assert(rows.take(i as int) =~= rows);
    text
}

/// How the prompt begins, up to the name of the file.
pub open spec fn prompt_opening() -> Seq<char> {
    "You are a financial analysis expert assistant. You have access to a user's bank statement data and should provide insightful, accurate, and actionable financial advice.\n\nCONTEXT:\n- Statement file: "@
}

/// What stands in the prompt between the statement data and the question.
pub open spec fn prompt_guidance() -> Seq<char> {
    "\n\nFINANCIAL DEFINITIONS:\n- Income: Positive amounts (deposits, salary, refunds, etc.)\n- Expenses: Negative amounts (purchases, withdrawals, fees, etc.)\n- Categories: Transactions are grouped into spending categories (Food, Transport, Entertainment, etc.)\n- Cash Flow: The movement of money in and out of the account\n- Net Position: Total income minus total expenses over the period\n\nANALYSIS GUIDELINES:\n1. Provide specific insights based on the actual data\n2. Compare spending patterns across categories\n3. Identify unusual transactions or spending spikes\n4. Suggest actionable improvements\n5. Use percentages and concrete numbers from the data\n6. Be concise but comprehensive in your analysis\n\nUSER QUERY: "@
}

/// How the prompt ends, after the question.
pub open spec fn prompt_closing() -> Seq<char> {
    "\n\nPlease analyze the statement data and provide insights relevant to the user's question. Include specific numbers, trends, and actionable recommendations."@
}

/// A context as the text of a prompt for an analyst: the facts of the
/// statement, its summary, fixed guidance, and the question.
pub open spec fn prompt_text(context: ContextView) -> Seq<char> {
    prompt_opening() + context.file_name + "\n- Total balance: $"@ + money_text(context.total)
        + "\n- Number of transactions: "@ + decimal_text(context.transaction_count)
        + "\n- Date range: "@ + context.first_date + " to "@ + context.last_date
        + "\n\nSTATEMENT DATA:\n"@ + summary_text(context.summary) + prompt_guidance()
        + context.query + prompt_closing()
}

/// Writes a context out as the text of a prompt.
pub fn render_prompt(context: &ContextBlob) -> (text: String)
    ensures
        text@ == prompt_text(context@),
{
    let balance = money_string(context.total as i128);
    let count = decimal_string(context.transaction_count as u128);
    let summary = render_summary(&context.summary);
    let mut text = String::from_str(
        "You are a financial analysis expert assistant. You have access to a user's bank statement data and should provide insightful, accurate, and actionable financial advice.\n\nCONTEXT:\n- Statement file: ",
    );
    text.append(context.file_name.as_str());
    text.append("\n- Total balance: $");
    text.append(balance.as_str());
    text.append("\n- Number of transactions: ");
    text.append(count.as_str());
    text.append("\n- Date range: ");
    text.append(context.first_date.as_str());
    text.append(" to ");
    text.append(context.last_date.as_str());
    text.append("\n\nSTATEMENT DATA:\n");
    text.append(summary.as_str());
    text.append(
        "\n\nFINANCIAL DEFINITIONS:\n- Income: Positive amounts (deposits, salary, refunds, etc.)\n- Expenses: Negative amounts (purchases, withdrawals, fees, etc.)\n- Categories: Transactions are grouped into spending categories (Food, Transport, Entertainment, etc.)\n- Cash Flow: The movement of money in and out of the account\n- Net Position: Total income minus total expenses over the period\n\nANALYSIS GUIDELINES:\n1. Provide specific insights based on the actual data\n2. Compare spending patterns across categories\n3. Identify unusual transactions or spending spikes\n4. Suggest actionable improvements\n5. Use percentages and concrete numbers from the data\n6. Be concise but comprehensive in your analysis\n\nUSER QUERY: ",
    );
    text.append(context.query.as_str());
    text.append(
        "\n\nPlease analyze the statement data and provide insights relevant to the user's question. Include specific numbers, trends, and actionable recommendations.",
    );
    text
}

} // verus!
