use billbot::models::{Statement, StatementRow};
use billbot::services::OcrService;
use billbot::summary::{
    category_label, leading_rows, sum_category_spending, sum_expenses, sum_income, summarize,
    tally_categories, tally_spending, CategoryTotal, RECENT_LIMIT,
};

fn row(date: &str, description: &str, amount: i64, category: Option<&str>) -> StatementRow {
    StatementRow {
        date: date.to_string(),
        description: description.to_string(),
        amount,
        category: category.map(|c| c.to_string()),
    }
}

fn statement(rows: Vec<StatementRow>, total: i64) -> Statement {
    Statement { rows, total, file_name: "statement.pdf".to_string() }
}

fn entry(category: &str, total: i128) -> CategoryTotal {
    CategoryTotal { category: category.to_string(), total }
}

#[test]
fn net_cash_flow_is_income_less_expenses() {
    let summary = summarize(&OcrService::parse_pdf("jan.pdf".to_string()));
    assert_eq!(summary.total_income, 300000);
    assert_eq!(summary.total_expenses, 13525);
    assert_eq!(summary.net_cash_flow, 286475);
    assert_eq!(summary.total_income - summary.total_expenses, summary.net_cash_flow);
}

#[test]
fn category_totals_add_up_to_the_sizes_of_all_amounts() {
    let rows = vec![
        row("2024-02-01", "Bakery", -450, Some("Food")),
        row("2024-02-02", "Refund", 1200, Some("Food")),
        row("2024-02-03", "Bus", -280, Some("Transport")),
        row("2024-02-04", "Cash", -2000, None),
        row("2024-02-05", "Nothing", 0, Some("Misc")),
    ];
    let summary = summarize(&statement(rows, 0));
    let sum: i128 = summary.category_totals.iter().map(|e| e.total).sum();
    assert_eq!(sum, 450 + 1200 + 280 + 2000);
    assert_eq!(sum, summary.total_income + summary.total_expenses);
}

#[test]
fn summary_of_no_rows_is_empty() {
    let summary = summarize(&statement(Vec::new(), 0));
    assert_eq!(summary.total_income, 0);
    assert_eq!(summary.total_expenses, 0);
    assert_eq!(summary.net_cash_flow, 0);
    assert!(summary.category_totals.is_empty());
    assert!(summary.recent_rows.is_empty());
}

#[test]
fn a_zero_amount_is_neither_income_nor_expense() {
    let rows = vec![row("2024-03-01", "Void", 0, Some("Misc"))];
    let summary = summarize(&statement(rows, 0));
    assert_eq!(summary.total_income, 0);
    assert_eq!(summary.total_expenses, 0);
    assert_eq!(summary.category_totals, vec![entry("Misc", 0)]);
}

#[test]
fn income_and_expenses_are_summed_apart() {
    let rows = vec![
        row("d1", "a", 100, None),
        row("d2", "b", -30, None),
        row("d3", "c", 250, None),
        row("d4", "d", -70, None),
    ];
    assert_eq!(sum_income(&rows), 350);
    assert_eq!(sum_expenses(&rows), 100);
}

#[test]
fn sums_do_not_overflow_at_the_ends_of_the_range() {
    let rows = vec![
        row("d1", "a", i64::MAX, None),
        row("d2", "b", i64::MAX, None),
        row("d3", "c", i64::MIN, None),
        row("d4", "d", i64::MIN, None),
    ];
    let summary = summarize(&statement(rows, 0));
    assert_eq!(summary.total_income, 2 * (i64::MAX as i128));
    assert_eq!(summary.total_expenses, 2 * (1i128 << 63));
    assert_eq!(summary.net_cash_flow, -2);
    assert_eq!(summary.category_totals, vec![entry("Uncategorized", (1i128 << 65) - 2)]);
}

#[test]
fn categories_stand_in_the_order_of_first_occurrence() {
    let rows = vec![
        row("d1", "a", -100, Some("Transport")),
        row("d2", "b", -200, Some("Food")),
        row("d3", "c", 50, Some("Transport")),
        row("d4", "d", -25, None),
        row("d5", "e", -300, Some("Food")),
        row("d6", "f", 5, None),
    ];
    assert_eq!(
        tally_categories(&rows),
        vec![entry("Transport", 150), entry("Food", 500), entry("Uncategorized", 30)]
    );
}

#[test]
fn spending_of_a_category_counts_its_outflows_alone() {
    let rows = vec![
        row("d1", "a", -100, Some("Food")),
        row("d2", "b", 900, Some("Food")),
        row("d3", "c", -250, Some("Food")),
        row("d4", "d", -40, None),
        row("d5", "e", -999, Some("Rent")),
    ];
    assert_eq!(sum_category_spending(&rows, &"Food".to_string()), 350);
    assert_eq!(sum_category_spending(&rows, &"Uncategorized".to_string()), 40);
    assert_eq!(sum_category_spending(&rows, &"Rent".to_string()), 999);
    assert_eq!(sum_category_spending(&rows, &"food".to_string()), 0);
    assert_eq!(sum_category_spending(&Vec::new(), &"Food".to_string()), 0);
}

#[test]
fn spending_totals_leave_out_categories_without_outflow() {
    let rows = vec![
        row("d1", "salary", 300000, Some("Income")),
        row("d2", "refund", 500, Some("Transport")),
        row("d3", "bakery", -450, Some("Food")),
        row("d4", "nothing", 0, Some("Misc")),
        row("d5", "bus", -280, Some("Transport")),
        row("d6", "cash", -2000, None),
        row("d7", "lunch", -550, Some("Food")),
    ];
    assert_eq!(
        tally_spending(&rows),
        vec![entry("Transport", 280), entry("Food", 1000), entry("Uncategorized", 2000)]
    );
    let spent: i128 = tally_spending(&rows).iter().map(|e| e.total).sum();
    assert_eq!(spent, sum_expenses(&rows));
    assert!(tally_spending(&Vec::new()).is_empty());
}

#[test]
fn spending_totals_of_the_sample_statement() {
    let sample = OcrService::parse_pdf("jan.pdf".to_string());
    assert_eq!(tally_spending(&sample.rows), vec![entry("Food", 8950), entry("Transport", 4575)]);
}

#[test]
fn spending_does_not_overflow_at_the_end_of_the_range() {
    let rows = vec![row("d1", "a", i64::MIN, None), row("d2", "b", i64::MIN, None)];
    assert_eq!(tally_spending(&rows), vec![entry("Uncategorized", 1i128 << 64)]);
}

#[test]
fn a_row_without_category_is_uncategorized() {
    assert_eq!(category_label(&row("d", "x", 1, None)), "Uncategorized");
    assert_eq!(category_label(&row("d", "x", 1, Some("Food"))), "Food");
    assert_eq!(category_label(&row("d", "x", 1, Some(""))), "");
}

#[test]
fn an_explicit_uncategorized_label_joins_the_missing_ones() {
    let rows = vec![
        row("d1", "a", -100, None),
        row("d2", "b", -200, Some("Uncategorized")),
    ];
    assert_eq!(tally_categories(&rows), vec![entry("Uncategorized", 300)]);
}

#[test]
fn category_labels_are_case_sensitive() {
    let rows = vec![row("d1", "a", -100, Some("food")), row("d2", "b", -200, Some("Food"))];
    assert_eq!(tally_categories(&rows), vec![entry("food", 100), entry("Food", 200)]);
}

#[test]
fn recent_rows_are_the_first_ten_in_the_order_given() {
    let rows: Vec<StatementRow> = (0..12)
        .map(|i| row(&format!("2024-01-{:02}", 28 - i), &format!("row {}", i), i - 6, None))
        .collect();
    let leading = leading_rows(&rows);
    assert_eq!(leading.len(), RECENT_LIMIT);
    assert_eq!(leading.len(), 10);
    assert_eq!(leading.as_slice(), &rows[..10]);
    let summary = summarize(&statement(rows.clone(), 0));
    assert_eq!(summary.recent_rows.as_slice(), &rows[..10]);
}

#[test]
fn recent_rows_of_a_short_statement_are_all_rows() {
    let rows = vec![row("d2", "later", 1, None), row("d1", "earlier", 2, None)];
    assert_eq!(leading_rows(&rows), rows);
}

#[test]
fn summary_of_the_sample_statement() {
    let sample = OcrService::parse_pdf("jan.pdf".to_string());
    let summary = summarize(&sample);
    assert_eq!(
        summary.category_totals,
        vec![entry("Food", 8950), entry("Income", 300000), entry("Transport", 4575)]
    );
    assert_eq!(summary.recent_rows, sample.rows);
}
