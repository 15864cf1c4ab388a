//! The entry points: analysis of a statement for a question, and the stand-in
//! for the recognition of a statement in a file.

use crate::context::{
    build_context, context_of, prompt_text, render_prompt, render_summary, summary_text,
};
use crate::generators::{answer_for, respond};
use crate::models::{
    AnalysisQuery, AnalysisResponse, ResponseView, RowView, Statement, StatementRow, StatementView,
    rows_view,
};
use crate::router::{classify, query_intent};
use crate::store::StatementStore;
use crate::summary::{summarize, summary_of};
use vstd::prelude::*;

verus! {

/// Why a question got no answer.
#[derive(Clone, Copy, Debug, PartialEq, Eq, Structural)]
pub enum AnalysisError {
    /// A question was asked while no statement was loaded.
    NoStatementLoaded,
}

/// The answer to a question about a statement: that of the generator for the
/// question's intent.
pub open spec fn analysis_of(query: Seq<char>, statement: StatementView) -> ResponseView {
    answer_for(query_intent(query), query, statement)
}

/// An analysis depends on the question and the statement alone: two answers
/// to the same question about the same statement are the same.
pub proof fn lemma_analysis_is_repeatable(
    query: Seq<char>,
    statement: StatementView,
    first: ResponseView,
    second: ResponseView,
)
    requires
        first == analysis_of(query, statement),
        second == analysis_of(query, statement),
    ensures
        first == second,
{
}

/// Analysis of a statement.
pub struct AnalysisService;

impl AnalysisService {
    /// The context of a question about a statement, written out as a prompt.
    pub fn build_context_prompt(statement: &Statement, query: &str) -> (prompt: String)
        ensures
            prompt@ == prompt_text(context_of(statement@, summary_of(statement@.rows), query@)),
    {
        let summary = summarize(statement);
        let context = build_context(statement, summary, query);
        render_prompt(&context)
    }

    /// The summary of a statement, written out as text.
    pub fn generate_statement_summary(statement: &Statement) -> (text: String)
        ensures
            text@ == summary_text(summary_of(statement@.rows)),
    {
        let summary = summarize(statement);
        render_summary(&summary)
    }

    /// Answers a question about a statement: gathers the context, classifies
    /// the question, and lets the generator for its intent answer from the
    /// context.
    pub fn generate_mock_response(query: &str, statement: &Statement) -> (answer: AnalysisResponse)
        ensures
            answer@ == analysis_of(query@, statement@),
    {
        let summary = summarize(statement);
        let context = build_context(statement, summary, query);
        let intent = classify(context.query.as_str());
        respond(intent, context.query.as_str(), statement, &context.summary)
    }

    /// Answers a question about a statement. There is no input on which this
    /// fails.
    pub fn query_data(query: AnalysisQuery, statement: &Statement) -> (answer: AnalysisResponse)
        ensures
            answer@ == analysis_of(query@, statement@),
    {
        Self::generate_mock_response(query.query.as_str(), statement)
    }

    /// Answers a question about the statement that the store holds, and
    /// reports that none is loaded when it holds none.
    pub fn query_loaded(query: AnalysisQuery, store: &StatementStore) -> (outcome: Result<
        AnalysisResponse,
        AnalysisError,
    >)
        ensures
            match store@ {
                Some(statement) => outcome matches Ok(answer) && answer@ == analysis_of(
                    query@,
                    statement,
                ),
                None => outcome matches Err(error) && error == AnalysisError::NoStatementLoaded,
            },
    {
        match store.get() {
            Some(statement) => Ok(Self::query_data(query, statement)),
            None => Err(AnalysisError::NoStatementLoaded),
        }
    }
}

/// The rows that every recognition gives.
pub open spec fn sample_rows() -> Seq<RowView> {
    seq![
        RowView {
            date: "2024-01-15"@,
            description: "Grocery Store"@,
            amount: -8950,
            category: Some("Food"@),
        },
        RowView {
            date: "2024-01-16"@,
            description: "Salary Deposit"@,
            amount: 300000,
            category: Some("Income"@),
        },
        RowView {
            date: "2024-01-17"@,
            description: "Gas Station"@,
            amount: -4575,
            category: Some("Transport"@),
        },
    ]
}

/// The statement that every recognition gives, under the name of the file.
pub open spec fn sample_statement(file_name: Seq<char>) -> StatementView {
    StatementView { rows: sample_rows(), total: 286475, file_name }
}

/// Stand-in for the recognition of a statement in a file.
pub struct OcrService;

impl OcrService {
    /// Gives the statement of a PDF file by its name. Nothing is read: the
    /// rows and the balance are the same for every file.
    pub fn parse_pdf(file_name: String) -> (statement: Statement)
        ensures
            statement@ == sample_statement(file_name@),
    {
        let mut rows: Vec<StatementRow> = Vec::new();
        rows.push(
            StatementRow {
                date: String::from_str("2024-01-15"),
                description: String::from_str("Grocery Store"),
                amount: -8950,
                category: Some(String::from_str("Food")),
            },
        );
        rows.push(
            StatementRow {
                date: String::from_str("2024-01-16"),
                description: String::from_str("Salary Deposit"),
                amount: 300000,
                category: Some(String::from_str("Income")),
            },
        );
        rows.push(
            StatementRow {
                date: String::from_str("2024-01-17"),
                description: String::from_str("Gas Station"),
                amount: -4575,
                category: Some(String::from_str("Transport")),
            },
        );
        assert(rows_view(rows@) =~= sample_rows());
        Statement { rows, total: 286475, file_name }
    }
}

} // verus!
