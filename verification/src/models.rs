//! The data that the analysis works on, and the mathematical view of each type.

use vstd::prelude::*;

verus! {

/// One ledger line. `amount` is in cents: positive is an inflow, negative an
/// outflow. A row without a category counts as "Uncategorized".
#[derive(Debug, PartialEq, Eq)]
pub struct StatementRow {
    pub date: String,
    pub description: String,
    pub amount: i64,
    pub category: Option<String>,
}

/// What a [`StatementRow`] is to the contracts.
pub ghost struct RowView {
    pub date: Seq<char>,
    pub description: Seq<char>,
    pub amount: int,
    pub category: Option<Seq<char>>,
}

impl View for StatementRow {
    type V = RowView;

    open spec fn view(&self) -> RowView {
        RowView {
            date: self.date@,
            description: self.description@,
            amount: self.amount as int,
            category: match self.category {
                Some(c) => Some(c@),
                None => None,
            },
        }
    }
}

impl Clone for StatementRow {
    fn clone(&self) -> (copy: Self)
        ensures
            copy@ == self@,
    {
        let category = match &self.category {
            Some(c) => Some(c.clone()),
            None => None,
        };
        StatementRow {
            date: self.date.clone(),
            description: self.description.clone(),
            amount: self.amount,
            category,
        }
    }
}

/// The views of a run of rows, in order.
pub open spec fn rows_view(rows: Seq<StatementRow>) -> Seq<RowView> {
    Seq::new(rows.len(), |i: int| rows[i]@)
}

/// An ordered run of rows as the caller supplied them, a closing balance in
/// cents that the caller states (it is not derived from the rows), and the
/// label of the file the statement came from.
#[derive(Debug, PartialEq, Eq)]
pub struct Statement {
    pub rows: Vec<StatementRow>,
    pub total: i64,
    pub file_name: String,
}

/// What a [`Statement`] is to the contracts.
pub ghost struct StatementView {
    pub rows: Seq<RowView>,
    pub total: int,
    pub file_name: Seq<char>,
}

impl View for Statement {
    type V = StatementView;

    open spec fn view(&self) -> StatementView {
        StatementView {
            rows: rows_view(self.rows@),
            total: self.total as int,
            file_name: self.file_name@,
        }
    }
}

impl Clone for Statement {
    fn clone(&self) -> (copy: Self)
        ensures
            copy@ == self@,
    {
        let mut rows: Vec<StatementRow> = Vec::new();
        let mut i: usize = 0;
        while i < self.rows.len()
            invariant
                i <= self.rows.len(),
                rows.len() == i,
                forall|k: int| 0 <= k < i ==> (#[trigger] rows[k])@ == self.rows[k]@,
            decreases self.rows.len() - i,
        {
            rows.push(self.rows[i].clone());
            i = i + 1;
        }
        assert(rows_view(rows@) =~= rows_view(self.rows@));
        Statement { rows, total: self.total, file_name: self.file_name.clone() }
    }
}

/// A free-text question about the statement.
#[derive(Debug, PartialEq, Eq)]
pub struct AnalysisQuery {
    pub query: String,
}

impl Clone for AnalysisQuery {
    fn clone(&self) -> (copy: Self)
        ensures
            copy@ == self@,
    {
        AnalysisQuery { query: self.query.clone() }
    }
}

impl View for AnalysisQuery {
    type V = Seq<char>;

    open spec fn view(&self) -> Seq<char> {
        self.query@
    }
}

/// The answer to a question: one sentence of prose and a list of short
/// insights, the most salient first.
#[derive(Debug, PartialEq, Eq)]
pub struct AnalysisResponse {
    pub response: String,
    pub insights: Vec<String>,
}

/// What an [`AnalysisResponse`] is to the contracts.
pub ghost struct ResponseView {
    pub response: Seq<char>,
    pub insights: Seq<Seq<char>>,
}

/// The texts of a run of strings, in order.
pub open spec fn texts(strings: Seq<String>) -> Seq<Seq<char>> {
    Seq::new(strings.len(), |i: int| strings[i]@)
}

impl View for AnalysisResponse {
    type V = ResponseView;

    open spec fn view(&self) -> ResponseView {
        ResponseView { response: self.response@, insights: texts(self.insights@) }
    }
}

impl Clone for AnalysisResponse {
    fn clone(&self) -> (copy: Self)
        ensures
            copy@ == self@,
    {
        let mut insights: Vec<String> = Vec::new();
        let mut i: usize = 0;
        while i < self.insights.len()
            invariant
                i <= self.insights.len(),
                insights.len() == i,
                forall|k: int| 0 <= k < i ==> (#[trigger] insights[k])@ == self.insights[k]@,
            decreases self.insights.len() - i,
        {
            insights.push(self.insights[i].clone());
            i = i + 1;
        }
        assert(texts(insights@) =~= texts(self.insights@));
        AnalysisResponse { response: self.response.clone(), insights }
    }
}

} // verus!
