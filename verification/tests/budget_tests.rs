use finops_engine::budget::{
    budget_status, check_budget, parse_period, period_bounds, BudgetPeriod, BudgetStatus,
};
use finops_engine::dates::Date;

#[test]
fn test_parse_period() {
    assert_eq!(parse_period(&"monthly".to_string()), BudgetPeriod::Monthly);
    assert_eq!(parse_period(&"quarterly".to_string()), BudgetPeriod::Quarterly);
    assert_eq!(parse_period(&"annual".to_string()), BudgetPeriod::Annual);
    assert_eq!(parse_period(&"weekly".to_string()), BudgetPeriod::Annual);
    assert_eq!(parse_period(&"".to_string()), BudgetPeriod::Annual);
}

#[test]
fn test_monthly_bounds_leap_february() {
    let now = Date { year: 2024, month: 2, day: 15 };
    let (start, end) = period_bounds(BudgetPeriod::Monthly, now);
    assert_eq!(start, Date { year: 2024, month: 2, day: 1 });
    assert_eq!(end, Date { year: 2024, month: 2, day: 29 });
}

#[test]
fn test_monthly_bounds_plain_february() {
    let now = Date { year: 2023, month: 2, day: 3 };
    let (start, end) = period_bounds(BudgetPeriod::Monthly, now);
    assert_eq!(start, Date { year: 2023, month: 2, day: 1 });
    assert_eq!(end, Date { year: 2023, month: 2, day: 28 });
}

#[test]
fn test_monthly_bounds_december() {
    let now = Date { year: 2024, month: 12, day: 5 };
    let (start, end) = period_bounds(BudgetPeriod::Monthly, now);
    assert_eq!(start, Date { year: 2024, month: 12, day: 1 });
    assert_eq!(end, Date { year: 2024, month: 12, day: 31 });
}

#[test]
fn test_quarterly_bounds() {
    let (start, end) =
        period_bounds(BudgetPeriod::Quarterly, Date { year: 2024, month: 2, day: 15 });
    assert_eq!(start, Date { year: 2024, month: 1, day: 1 });
    assert_eq!(end, Date { year: 2024, month: 3, day: 31 });

    let (start, end) =
        period_bounds(BudgetPeriod::Quarterly, Date { year: 2024, month: 11, day: 5 });
    assert_eq!(start, Date { year: 2024, month: 10, day: 1 });
    assert_eq!(end, Date { year: 2024, month: 12, day: 31 });

    let (start, end) =
        period_bounds(BudgetPeriod::Quarterly, Date { year: 2024, month: 6, day: 30 });
    assert_eq!(start, Date { year: 2024, month: 4, day: 1 });
    assert_eq!(end, Date { year: 2024, month: 6, day: 30 });
}

#[test]
fn test_annual_bounds() {
    let (start, end) = period_bounds(BudgetPeriod::Annual, Date { year: 2024, month: 7, day: 19 });
    assert_eq!(start, Date { year: 2024, month: 1, day: 1 });
    assert_eq!(end, Date { year: 2024, month: 12, day: 31 });
}

#[test]
fn test_status_boundaries() {
    // 79.99% -> active; 80.00% -> warning; 100.00% -> exceeded.
    assert_eq!(budget_status(10000, 7999), BudgetStatus::Active);
    assert_eq!(budget_status(10000, 8000), BudgetStatus::Warning);
    assert_eq!(budget_status(10000, 9999), BudgetStatus::Warning);
    assert_eq!(budget_status(10000, 10000), BudgetStatus::Exceeded);
    assert_eq!(budget_status(10000, 25000), BudgetStatus::Exceeded);
    assert_eq!(budget_status(10000, 0), BudgetStatus::Active);
}

#[test]
fn test_status_nonpositive_amount() {
    // A budget without a positive amount reads as 0% spent.
    assert_eq!(budget_status(0, 5000), BudgetStatus::Active);
    assert_eq!(budget_status(-100, 5000), BudgetStatus::Active);
}

#[test]
fn test_check_budget_alert_fields() {
    let outcome = check_budget(&"prod infra".to_string(), 500000, 450000);
    assert_eq!(outcome.status, BudgetStatus::Warning);
    let alert = outcome.alert.expect("warning must alert");
    assert_eq!(alert.budget_name, "prod infra");
    assert_eq!(alert.amount_cents, 500000);
    assert_eq!(alert.spend_cents, 450000);
    assert_eq!(alert.status, BudgetStatus::Warning);
}

#[test]
fn test_check_budget_active_is_silent() {
    let outcome = check_budget(&"dev".to_string(), 500000, 100000);
    assert_eq!(outcome.status, BudgetStatus::Active);
    assert!(outcome.alert.is_none());
}
