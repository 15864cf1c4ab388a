//! Aggregate figures of a statement: income, expenses, net cash flow, a total
//! for each category, and the leading rows.

use crate::models::{rows_view, RowView, Statement, StatementRow};
use crate::text::magnitude;
use vstd::prelude::*;

verus! {

/// How many rows a summary lists as recent.
pub const RECENT_LIMIT: usize = 10;

/// The accumulated size of the amounts in one category, in cents.
#[derive(Debug, PartialEq, Eq)]
pub struct CategoryTotal {
    pub category: String,
    pub total: i128,
}

/// What a [`CategoryTotal`] is to the contracts.
pub ghost struct CategoryTotalView {
    pub category: Seq<char>,
    pub total: int,
}

impl View for CategoryTotal {
    type V = CategoryTotalView;

    open spec fn view(&self) -> CategoryTotalView {
        CategoryTotalView { category: self.category@, total: self.total as int }
    }
}

/// The views of a run of category totals, in order.
pub open spec fn category_totals_view(entries: Seq<CategoryTotal>) -> Seq<CategoryTotalView> {
    Seq::new(entries.len(), |k: int| entries[k]@)
}

/// The figures of one statement, all in cents. The category totals stand in
/// the order in which the categories first occur in the statement, each
/// category once.
#[derive(Debug, PartialEq, Eq)]
pub struct Summary {
    pub total_income: i128,
    pub total_expenses: i128,
    pub net_cash_flow: i128,
    pub category_totals: Vec<CategoryTotal>,
    pub recent_rows: Vec<StatementRow>,
}

/// What a [`Summary`] is to the contracts.
pub ghost struct SummaryView {
    pub total_income: int,
    pub total_expenses: int,
    pub net_cash_flow: int,
    pub category_totals: Seq<CategoryTotalView>,
    pub recent_rows: Seq<RowView>,
}

impl SummaryView {
    /// What holds of every summary of a statement: the net cash flow is the
    /// income less the expenses, no total is below zero, and no category is
    /// listed twice.
    pub open spec fn well_formed(self) -> bool {
        &&& self.net_cash_flow == self.total_income - self.total_expenses
        &&& self.total_income >= 0
        &&& self.total_expenses >= 0
        &&& forall|k: int|
            0 <= k < self.category_totals.len() ==> (#[trigger] self.category_totals[k]).total >= 0
        &&& forall|j: int, k: int|
            0 <= j < k < self.category_totals.len() ==> (#[trigger] self.category_totals[j]).category
                != (#[trigger] self.category_totals[k]).category
    }
}

impl View for Summary {
    type V = SummaryView;

    open spec fn view(&self) -> SummaryView {
        SummaryView {
            total_income: self.total_income as int,
            total_expenses: self.total_expenses as int,
            net_cash_flow: self.net_cash_flow as int,
            category_totals: category_totals_view(self.category_totals@),
            recent_rows: rows_view(self.recent_rows@),
        }
    }
}

/// The category a row counts under: its own, or "Uncategorized" without one.
pub open spec fn label_of(row: RowView) -> Seq<char> {
    match row.category {
        Some(c) => c,
        None => "Uncategorized"@,
    }
}

/// What an amount adds to the income: itself when it is above zero.
pub open spec fn inflow(amount: int) -> int {
    if amount > 0 {
        amount
    } else {
        0
    }
}

/// What an amount adds to the expenses: its size when it is below zero.
pub open spec fn outflow(amount: int) -> int {
    if amount < 0 {
        -amount
    } else {
        0
    }
}

/// The sum of the amounts above zero.
pub open spec fn total_income(rows: Seq<RowView>) -> int
    decreases rows.len(),
{
    if rows.len() == 0 {
        0
    } else {
        total_income(rows.drop_last()) + inflow(rows.last().amount)
    }
}

/// The sum of the sizes of the amounts below zero.
pub open spec fn total_expenses(rows: Seq<RowView>) -> int
    decreases rows.len(),
{
    if rows.len() == 0 {
        0
    } else {
        total_expenses(rows.drop_last()) + outflow(rows.last().amount)
    }
}

/// The sum of the sizes of all amounts.
pub open spec fn total_magnitude(rows: Seq<RowView>) -> int
    decreases rows.len(),
{
    if rows.len() == 0 {
        0
    } else {
        total_magnitude(rows.drop_last()) + magnitude(rows.last().amount)
    }
}

/// The sum of the sizes of the amounts of the rows that count under `label`.
pub open spec fn category_total(rows: Seq<RowView>, label: Seq<char>) -> int
    decreases rows.len(),
{
    if rows.len() == 0 {
        0
    } else {
        category_total(rows.drop_last(), label) + if label_of(rows.last()) == label {
            magnitude(rows.last().amount)
        } else {
            0
        }
    }
}

/// What was spent under `label`: the sum of the sizes of the amounts below
/// zero of the rows that count under it. Inflows do not count.
pub open spec fn category_spending(rows: Seq<RowView>, label: Seq<char>) -> int
    decreases rows.len(),
{
    if rows.len() == 0 {
        0
    } else {
        category_spending(rows.drop_last(), label) + if label_of(rows.last()) == label {
            outflow(rows.last().amount)
        } else {
            0
        }
    }
}

/// The categories of the rows, each once, in the order of first occurrence.
pub open spec fn category_labels(rows: Seq<RowView>) -> Seq<Seq<char>>
    decreases rows.len(),
{
    if rows.len() == 0 {
        Seq::empty()
    } else {
        let earlier = category_labels(rows.drop_last());
        let label = label_of(rows.last());
        if earlier.contains(label) {
            earlier
        } else {
            earlier.push(label)
        }
    }
}

/// Each of `labels` with its total over `rows`.
pub open spec fn totals_for(rows: Seq<RowView>, labels: Seq<Seq<char>>) -> Seq<CategoryTotalView> {
    Seq::new(
        labels.len(),
        |k: int| CategoryTotalView { category: labels[k], total: category_total(rows, labels[k]) },
    )
}

/// The total of every category of the rows, in the order of first occurrence.
pub open spec fn category_totals(rows: Seq<RowView>) -> Seq<CategoryTotalView> {
    totals_for(rows, category_labels(rows))
}

/// Of `labels`, in their order, those under which something was spent, each
/// with what was spent under it.
pub open spec fn spending_for(rows: Seq<RowView>, labels: Seq<Seq<char>>) -> Seq<
    CategoryTotalView,
>
    decreases labels.len(),
{
    if labels.len() == 0 {
        Seq::empty()
    } else {
        let earlier = spending_for(rows, labels.drop_last());
        let spent = category_spending(rows, labels.last());
        if spent > 0 {
            earlier.push(CategoryTotalView { category: labels.last(), total: spent })
        } else {
            earlier
        }
    }
}

/// What was spent in each category of the rows, in the order in which the
/// categories first occur. A category with no outflow is left out.
pub open spec fn spending_totals(rows: Seq<RowView>) -> Seq<CategoryTotalView> {
    spending_for(rows, category_labels(rows))
}

/// The leading rows, at most [`RECENT_LIMIT`] of them, in the order given.
pub open spec fn recent_rows(rows: Seq<RowView>) -> Seq<RowView> {
    rows.take(if rows.len() < RECENT_LIMIT { rows.len() as int } else { RECENT_LIMIT as int })
}

/// The summary of a run of rows.
pub open spec fn summary_of(rows: Seq<RowView>) -> SummaryView {
    SummaryView {
        total_income: total_income(rows),
        total_expenses: total_expenses(rows),
        net_cash_flow: total_income(rows) - total_expenses(rows),
        category_totals: category_totals(rows),
        recent_rows: recent_rows(rows),
    }
}

/// The sum of the totals of a run of category totals.
pub open spec fn sum_of_totals(entries: Seq<CategoryTotalView>) -> int
    decreases entries.len(),
{
    if entries.len() == 0 {
        0
    } else {
        sum_of_totals(entries.drop_last()) + entries.last().total
    }
}

/// The largest size that one amount can have.
pub open spec fn amount_limit() -> int {
    0x8000_0000_0000_0000
}

proof fn lemma_take_step(rows: Seq<RowView>, i: int)
    requires
        0 <= i < rows.len(),
    ensures
        rows.take(i + 1).drop_last() == rows.take(i),
        rows.take(i + 1).last() == rows[i],
        rows.take(rows.len() as int) == rows,
{
    assert(rows.take(i + 1).drop_last() =~= rows.take(i));
    assert(rows.take(rows.len() as int) =~= rows);
}

/// The sum of the amounts above zero, in cents.
pub fn sum_income(rows: &Vec<StatementRow>) -> (sum: i128)
    ensures
        sum == total_income(rows_view(rows@)),
{
    let ghost views = rows_view(rows@);
    let mut sum: i128 = 0;
    let mut i: usize = 0;
    while i < rows.len()
        invariant
            i <= rows.len(),
            views == rows_view(rows@),
            sum == total_income(views.take(i as int)),
            0 <= sum <= i * amount_limit(),
        decreases rows.len() - i,
    {
        proof {
            lemma_take_step(views, i as int);
        }
        let amount = rows[i].amount;
        if amount > 0 {
            sum = sum + amount as i128;
        }
        i = i + 1;
    }
    proof {
        if rows.len() > 0 {
            lemma_take_step(views, rows.len() - 1);
        } else {
            assert(views.take(0) =~= views);
        }
    }
    sum
}

/// The sum of the sizes of the amounts below zero, in cents.
pub fn sum_expenses(rows: &Vec<StatementRow>) -> (sum: i128)
    ensures
        sum == total_expenses(rows_view(rows@)),
{
    let ghost views = rows_view(rows@);
    let mut sum: i128 = 0;
    let mut i: usize = 0;
    while i < rows.len()
        invariant
            i <= rows.len(),
            views == rows_view(rows@),
            sum == total_expenses(views.take(i as int)),
            0 <= sum <= i * amount_limit(),
        decreases rows.len() - i,
    {
        proof {
            lemma_take_step(views, i as int);
        }
        let amount = rows[i].amount;
        if amount < 0 {
            sum = sum - amount as i128;
        }
        i = i + 1;
    }
    proof {
        if rows.len() > 0 {
            lemma_take_step(views, rows.len() - 1);
        } else {
            assert(views.take(0) =~= views);
        }
    }
    sum
}

/// The category a row counts under, as an owned string.
pub fn category_label(row: &StatementRow) -> (label: String)
    ensures
        label@ == label_of(row@),
{
    match &row.category {
        Some(c) => c.clone(),
        None => String::from_str("Uncategorized"),
    }
}

/// The position of the entry for `label`, if there is one.
fn find_category(totals: &Vec<CategoryTotal>, label: &String) -> (found: Option<usize>)
    ensures
        match found {
            Some(j) => j < totals.len() && totals[j as int].category@ == label@,
            None => forall|k: int|
                0 <= k < totals.len() ==> (#[trigger] totals[k]).category@ != label@,
        },
{
    let mut j: usize = 0;
    while j < totals.len()
        invariant
            j <= totals.len(),
            forall|k: int| 0 <= k < j ==> (#[trigger] totals[k]).category@ != label@,
        decreases totals.len() - j,
    {
        if totals[j].category == *label {
            return Some(j);
        }
        j = j + 1;
    }
    None
}

/// No category is listed twice.
pub proof fn lemma_category_labels_distinct(rows: Seq<RowView>)
    ensures
        category_labels(rows).no_duplicates(),
    decreases rows.len(),
{
    if rows.len() > 0 {
        lemma_category_labels_distinct(rows.drop_last());
    }
}

/// A category that is not listed has no amount to its name.
proof fn lemma_unlisted_category_is_empty(rows: Seq<RowView>, label: Seq<char>)
    requires
        !category_labels(rows).contains(label),
    ensures
        category_total(rows, label) == 0,
    decreases rows.len(),
{
    if rows.len() > 0 {
        let earlier = category_labels(rows.drop_last());
        let last = label_of(rows.last());
        if earlier.contains(last) {
            assert(category_labels(rows) == earlier);
        } else {
            assert(category_labels(rows) == earlier.push(last));
            assert(earlier.push(last)[earlier.len() as int] == last);
            if earlier.contains(label) {
                let k = choose|k: int| 0 <= k < earlier.len() && earlier[k] == label;
                assert(earlier.push(last)[k] == label);
            }
        }
        assert(last != label);
        lemma_unlisted_category_is_empty(rows.drop_last(), label);
    }
}

/// One more row adds the size of its amount to the totals of a run of
/// distinct categories when its own category is among them, and nothing
/// otherwise.
proof fn lemma_row_adds_to_its_category(rows: Seq<RowView>, labels: Seq<Seq<char>>)
    requires
        rows.len() > 0,
        labels.no_duplicates(),
    ensures
        sum_of_totals(totals_for(rows, labels)) == sum_of_totals(
            totals_for(rows.drop_last(), labels),
        ) + if labels.contains(label_of(rows.last())) {
            magnitude(rows.last().amount)
        } else {
            0
        },
    decreases labels.len(),
{
    if labels.len() > 0 {
        let front = labels.drop_last();
        let label = label_of(rows.last());
        let end = labels.len() - 1;
        assert(totals_for(rows, labels).drop_last() =~= totals_for(rows, front));
        assert(totals_for(rows.drop_last(), labels).drop_last() =~= totals_for(
            rows.drop_last(),
            front,
        ));
        lemma_row_adds_to_its_category(rows, front);
        if front.contains(label) {
            let k = choose|k: int| 0 <= k < front.len() && front[k] == label;
            assert(labels[k] == label);
            assert(labels[end] != label);
        }
        if labels.contains(label) && labels[end] != label {
            let k = choose|k: int| 0 <= k < labels.len() && labels[k] == label;
            assert(front[k] == label);
        }
    }
}

/// The totals of all categories together are the sizes of all amounts
/// together: every row counts under exactly one category.
pub proof fn lemma_category_totals_cover_rows(rows: Seq<RowView>)
    ensures
        sum_of_totals(category_totals(rows)) == total_magnitude(rows),
    decreases rows.len(),
{
    if rows.len() > 0 {
        let before = rows.drop_last();
        let earlier = category_labels(before);
        let label = label_of(rows.last());
        lemma_category_totals_cover_rows(before);
        lemma_category_labels_distinct(before);
        lemma_category_labels_distinct(rows);
        lemma_row_adds_to_its_category(rows, earlier);
        if !earlier.contains(label) {
            let labels = earlier.push(label);
            lemma_unlisted_category_is_empty(before, label);
            assert(totals_for(rows, labels).drop_last() =~= totals_for(rows, earlier));
            assert(totals_for(rows, labels).last().total == category_total(rows, label));
        }
    }
}

/// The total of every category of the rows, in the order of first occurrence.
pub fn tally_categories(rows: &Vec<StatementRow>) -> (totals: Vec<CategoryTotal>)
    ensures
        category_totals_view(totals@) == category_totals(rows_view(rows@)),
{
    let ghost views = rows_view(rows@);
    let mut totals: Vec<CategoryTotal> = Vec::new();
    let mut i: usize = 0;
    assert(category_totals_view(totals@) =~= category_totals(views.take(0)));
    while i < rows.len()
        invariant
            i <= rows.len(),
            views == rows_view(rows@),
            category_totals_view(totals@) == category_totals(views.take(i as int)),
            forall|k: int|
                0 <= k < totals.len() ==> 0 <= (#[trigger] totals[k]).total <= i * amount_limit(),
        decreases rows.len() - i,
    {
        let ghost before = views.take(i as int);
        let ghost after = views.take(i + 1);
        let ghost labels = category_labels(before);
        let ghost entries = category_totals_view(totals@);
        let label = category_label(&rows[i]);
        let amount = rows[i].amount;
        let size: i128 = if amount < 0 {
            -(amount as i128)
        } else {
            amount as i128
        };
        let found = find_category(&totals, &label);
        proof {
            lemma_take_step(views, i as int);
            lemma_category_labels_distinct(before);
            assert(entries.len() == labels.len());
            assert forall|k: int| 0 <= k < labels.len() implies labels[k] == (
            #[trigger] totals[k]).category@ by {
                assert(entries[k] == totals[k]@);
            }
            assert(label@ == label_of(after.last()));
            assert(size == magnitude(after.last().amount));
        }
        match found {
            Some(j) => {
                let sum = totals[j].total + size;
                proof {
                    assert(labels[j as int] == label@);
                    assert(labels.contains(label@));
                    assert(category_labels(after) == labels);
                    assert(entries[j as int] == totals[j as int]@);
                }
                totals.set(j, CategoryTotal { category: label, total: sum });
                proof {
                    assert forall|k: int| 0 <= k < labels.len() implies category_totals_view(
                        totals@,
                    )[k] == category_totals(after)[k] by {
                        assert(entries[k] == category_totals(before)[k]);
                        if k != j {
                            assert(labels[k] != labels[j as int]);
                        }
                    }
                    assert(category_totals_view(totals@) =~= category_totals(after));
                }
            },
            None => {
                proof {
                    if labels.contains(label@) {
                        let k = choose|k: int| 0 <= k < labels.len() && labels[k] == label@;
                        assert(totals[k].category@ == label@);
                    }
                    lemma_unlisted_category_is_empty(before, label@);
                    assert(category_labels(after) == labels.push(label@));
                }
                totals.push(CategoryTotal { category: label, total: size });
                proof {
                    assert forall|k: int| 0 <= k < labels.len() + 1 implies category_totals_view(
                        totals@,
                    )[k] == category_totals(after)[k] by {
                        if k < labels.len() {
                            assert(entries[k] == category_totals(before)[k]);
                        }
                    }
                    assert(category_totals_view(totals@) =~= category_totals(after));
                }
            },
        }
        i = i + 1;
    }
    proof {
        assert(views.take(rows.len() as int) =~= views);
    }
    totals
}

/// What was spent under `label`, in cents.
pub fn sum_category_spending(rows: &Vec<StatementRow>, label: &String) -> (sum: i128)
    ensures
        sum == category_spending(rows_view(rows@), label@),
{
    let ghost views = rows_view(rows@);
    let mut sum: i128 = 0;
    let mut i: usize = 0;
    while i < rows.len()
        invariant
            i <= rows.len(),
            views == rows_view(rows@),
            sum == category_spending(views.take(i as int), label@),
            0 <= sum <= i * amount_limit(),
        decreases rows.len() - i,
    {
        proof {
            lemma_take_step(views, i as int);
        }
        let amount = rows[i].amount;
        if amount < 0 {
            let own = category_label(&rows[i]);
            if own == *label {
                sum = sum - amount as i128;
            }
        }
        i = i + 1;
    }
    assert(views.take(rows.len() as int) =~= views);
    sum
}

/// What was spent in each category, in the order in which the categories
/// first occur, without the categories in which nothing was spent.
pub fn tally_spending(rows: &Vec<StatementRow>) -> (totals: Vec<CategoryTotal>)
    ensures
        category_totals_view(totals@) == spending_totals(rows_view(rows@)),
{
    let ghost views = rows_view(rows@);
    let ghost labels = category_labels(views);
    let all = tally_categories(rows);
    proof {
        assert(category_totals_view(all@).len() == labels.len());
        assert forall|j: int| 0 <= j < all.len() implies (#[trigger] all[j]).category@
            == labels[j] by {
            assert(category_totals_view(all@)[j] == all[j]@);
        }
    }
    let mut totals: Vec<CategoryTotal> = Vec::new();
    let mut k: usize = 0;
    assert(category_totals_view(totals@) =~= spending_for(views, labels.take(0)));
    while k < all.len()
        invariant
            k <= all.len(),
            all.len() == labels.len(),
            views == rows_view(rows@),
            forall|j: int| 0 <= j < all.len() ==> (#[trigger] all[j]).category@ == labels[j],
            category_totals_view(totals@) == spending_for(views, labels.take(k as int)),
        decreases all.len() - k,
    {
        let spent = sum_category_spending(rows, &all[k].category);
        proof {
            assert(labels.take(k + 1).drop_last() =~= labels.take(k as int));
            assert(labels.take(k + 1).last() == all[k as int].category@);
        }
        if spent > 0 {
            totals.push(CategoryTotal { category: all[k].category.clone(), total: spent });
            assert(category_totals_view(totals@) =~= spending_for(views, labels.take(k + 1)));
        }
        k = k + 1;
    }
    assert(labels.take(all.len() as int) =~= labels);
    totals
}

/// Copies of the leading rows, at most [`RECENT_LIMIT`] of them.
pub fn leading_rows(rows: &Vec<StatementRow>) -> (leading: Vec<StatementRow>)
    ensures
        rows_view(leading@) == recent_rows(rows_view(rows@)),
{
    let count = if rows.len() < RECENT_LIMIT {
        rows.len()
    } else {
        RECENT_LIMIT
    };
    let mut leading: Vec<StatementRow> = Vec::new();
    let mut i: usize = 0;
    while i < count
        invariant
            i <= count <= rows.len(),
            leading.len() == i,
            forall|k: int| 0 <= k < i ==> (#[trigger] leading[k])@ == rows[k]@,
        decreases count - i,
    {
        leading.push(rows[i].clone());
        i = i + 1;
    }
    assert(rows_view(leading@) =~= recent_rows(rows_view(rows@)));
    leading
}

/// The summary of any rows is well formed.
pub proof fn lemma_summary_well_formed(rows: Seq<RowView>)
    ensures
        summary_of(rows).well_formed(),
{
    lemma_totals_not_negative(rows);
    lemma_category_labels_distinct(rows);
    let labels = category_labels(rows);
    assert forall|k: int| 0 <= k < labels.len() implies (#[trigger] category_totals(
        rows,
    )[k]).total >= 0 by {
        lemma_category_total_not_negative(rows, labels[k]);
    }
}

/// Summarizes a statement. The result is a function of the rows alone; the
/// net cash flow is the income less the expenses, and a statement without
/// rows has zero totals and lists nothing.
pub fn summarize(statement: &Statement) -> (summary: Summary)
    ensures
        summary@ == summary_of(statement@.rows),
        summary@.well_formed(),
        summary.net_cash_flow == summary.total_income - summary.total_expenses,
        statement.rows.len() == 0 ==> {
            &&& summary.total_income == 0
            &&& summary.total_expenses == 0
            &&& summary.net_cash_flow == 0
            &&& summary.category_totals.len() == 0
            &&& summary.recent_rows.len() == 0
        },
{
    let total_income = sum_income(&statement.rows);
    let total_expenses = sum_expenses(&statement.rows);
    proof {
        lemma_totals_bounded(statement@.rows);
        lemma_summary_well_formed(statement@.rows);
    }
    let category_totals = tally_categories(&statement.rows);
    let recent_rows = leading_rows(&statement.rows);
    proof {
        let entries = category_totals_view(category_totals@);
        let leading = rows_view(recent_rows@);
        assert(entries.len() == category_totals.len());
        assert(leading.len() == recent_rows.len());
    }
    Summary {
        total_income,
        total_expenses,
        net_cash_flow: total_income - total_expenses,
        category_totals,
        recent_rows,
    }
}

/// Neither the income nor the expenses are below zero.
proof fn lemma_totals_not_negative(rows: Seq<RowView>)
    ensures
        total_income(rows) >= 0,
        total_expenses(rows) >= 0,
    decreases rows.len(),
{
    if rows.len() > 0 {
        lemma_totals_not_negative(rows.drop_last());
    }
}

/// The total of a category is not below zero.
proof fn lemma_category_total_not_negative(rows: Seq<RowView>, label: Seq<char>)
    ensures
        category_total(rows, label) >= 0,
    decreases rows.len(),
{
    if rows.len() > 0 {
        lemma_category_total_not_negative(rows.drop_last(), label);
    }
}

/// Income and expenses grow by at most the largest amount with each row.
proof fn lemma_totals_bounded(rows: Seq<RowView>)
    requires
        forall|k: int| 0 <= k < rows.len() ==> -amount_limit() <= (#[trigger] rows[k]).amount < amount_limit(),
    ensures
        0 <= total_income(rows) <= rows.len() * amount_limit(),
        0 <= total_expenses(rows) <= rows.len() * amount_limit(),
    decreases rows.len(),
{
    if rows.len() > 0 {
        lemma_totals_bounded(rows.drop_last());
        assert(rows.last() == rows[rows.len() - 1]);
    }
}

} // verus!
