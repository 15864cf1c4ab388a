use billbot::router::{classify, classify_lowered, Intent};

#[test]
fn spending_wins_over_income() {
    assert_eq!(classify("my spending and my income"), Intent::Spending);
    assert_eq!(classify("income first, spending second"), Intent::Spending);
}

#[test]
fn income_wins_over_budget() {
    assert_eq!(classify("income and budget"), Intent::Income);
    assert_eq!(classify("budget versus income"), Intent::Income);
}

#[test]
fn spending_wins_over_income_and_budget_together() {
    assert_eq!(classify("spending income budget"), Intent::Spending);
}

#[test]
fn expense_is_a_spending_keyword() {
    assert_eq!(classify("list every expense"), Intent::Spending);
    assert_eq!(classify("expenses and budget"), Intent::Spending);
}

#[test]
fn classification_ignores_case() {
    assert_eq!(classify("SPENDING"), Intent::Spending);
    assert_eq!(classify("Spending"), Intent::Spending);
    assert_eq!(classify("spending"), Intent::Spending);
    assert_eq!(classify("How Is My INCOME?"), Intent::Income);
    assert_eq!(classify("BuDgEt"), Intent::Budget);
}

#[test]
fn a_question_without_keyword_is_generic() {
    assert_eq!(classify("xyz random text"), Intent::Generic);
    assert_eq!(classify(""), Intent::Generic);
    assert_eq!(classify("spend less"), Intent::Generic);
}

#[test]
fn a_keyword_inside_a_word_counts() {
    assert_eq!(classify("overspending"), Intent::Spending);
    assert_eq!(classify("budgeting"), Intent::Budget);
}

#[test]
fn a_lowered_question_is_matched_as_it_stands() {
    assert_eq!(classify_lowered("what are my spending patterns?"), Intent::Spending);
    assert_eq!(classify_lowered("how is my income?"), Intent::Income);
    assert_eq!(classify_lowered("budget help"), Intent::Budget);
    assert_eq!(classify_lowered("SPENDING"), Intent::Generic);
    assert_eq!(classify_lowered("spen ding"), Intent::Generic);
}
