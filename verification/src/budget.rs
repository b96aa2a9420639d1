//! Budget-period boundaries and spend-ratio status.
//!
//! Amounts are integer cents. The spend percentage `spend / amount * 100`
//! is never materialised: each status band is decided by an equivalent
//! cleared comparison, exact on integers — `pct >= 100` is `spend >=
//! amount` and `pct >= 80` is `5 * spend >= 4 * amount` (for a positive
//! amount).

use vstd::prelude::*;

use crate::dates::{days_in_month, spec_days_in_month, Date};

verus! {

/// How a budget's reporting period recurs.
#[derive(Clone, Copy, Debug, PartialEq, Eq, Structural)]
pub enum BudgetPeriod {
    Monthly,
    Quarterly,
    Annual,
}

/// The period kind named by a budget record; anything other than
/// `monthly` or `quarterly` falls back to annual.
pub open spec fn spec_parse_period(s: Seq<char>) -> BudgetPeriod {
    if s == "monthly"@ {
        BudgetPeriod::Monthly
    } else if s == "quarterly"@ {
        BudgetPeriod::Quarterly
    } else {
        BudgetPeriod::Annual
    }
}

pub fn parse_period(p: &String) -> (r: BudgetPeriod)
    ensures
        r == spec_parse_period(p@),
{
    let monthly: String = "monthly".to_owned();
    let quarterly: String = "quarterly".to_owned();
    if *p == monthly {
        BudgetPeriod::Monthly
    } else if *p == quarterly {
        BudgetPeriod::Quarterly
    } else {
        BudgetPeriod::Annual
    }
}

/// First month of the quarter containing month `m`: 1, 4, 7 or 10.
pub open spec fn quarter_start_month(m: int) -> int {
    ((m - 1) / 3) * 3 + 1
}

/// `[start, end]` of the budget period containing `now`.
///
/// - monthly: first through last day of `now`'s month;
/// - quarterly: first day of the quarter through the last day of the
///   quarter's third month;
/// - annual: January 1 through December 31 of `now`'s year.
pub fn period_bounds(kind: BudgetPeriod, now: Date) -> (r: (Date, Date))
    requires
        now.wf(),
    ensures
        r.0.wf(),
        r.1.wf(),
        r.0.year == now.year && r.1.year == now.year,
        kind is Monthly ==> {
            &&& r.0.month == now.month && r.0.day == 1
            &&& r.1.month == now.month
            &&& r.1.day == spec_days_in_month(now.year as int, now.month as int)
        },
        kind is Quarterly ==> {
            &&& r.0.month == quarter_start_month(now.month as int) && r.0.day == 1
            &&& r.1.month == quarter_start_month(now.month as int) + 2
            &&& r.1.day == spec_days_in_month(now.year as int, r.1.month as int)
        },
        kind is Annual ==> {
            &&& r.0.month == 1 && r.0.day == 1
            &&& r.1.month == 12 && r.1.day == 31
        },
{
    match kind {
        BudgetPeriod::Monthly => {
            let start = Date { year: now.year, month: now.month, day: 1 };
            let end = Date {
                year: now.year,
                month: now.month,
                day: days_in_month(now.year, now.month),
            };
            (start, end)
        },
        BudgetPeriod::Quarterly => {
            let q: u8 = ((now.month - 1) / 3) * 3 + 1;
            let last_month: u8 = q + 2;
            let start = Date { year: now.year, month: q, day: 1 };
            let end = Date {
                year: now.year,
                month: last_month,
                day: days_in_month(now.year, last_month),
            };
            (start, end)
        },
        BudgetPeriod::Annual => {
            let start = Date { year: now.year, month: 1, day: 1 };
            let end = Date { year: now.year, month: 12, day: 31 };
            (start, end)
        },
    }
}

/// How far into its amount a budget's spend has run.
#[derive(Clone, Copy, Debug, PartialEq, Eq, Structural)]
pub enum BudgetStatus {
    Active,
    Warning,
    Exceeded,
}

/// Status from the spend percentage `spend / amount * 100` (taken as zero
/// when the amount is not positive): `exceeded` at or above 100, `warning`
/// at or above 80, otherwise `active`.
pub open spec fn spec_budget_status(amount: int, spend: int) -> BudgetStatus {
    if amount <= 0 {
        BudgetStatus::Active
    } else if spend >= amount {
        BudgetStatus::Exceeded
    } else if 5 * spend >= 4 * amount {
        BudgetStatus::Warning
    } else {
        BudgetStatus::Active
    }
}

pub fn budget_status(amount_cents: i64, spend_cents: i64) -> (st: BudgetStatus)
    ensures
        st == spec_budget_status(amount_cents as int, spend_cents as int),
{
    if amount_cents <= 0 {
        BudgetStatus::Active
    } else if spend_cents >= amount_cents {
        BudgetStatus::Exceeded
    } else if 5 * (spend_cents as i128) >= 4 * (amount_cents as i128) {
        BudgetStatus::Warning
    } else {
        BudgetStatus::Active
    }
}

/// Alert published when a budget reaches its warning or exceeded band.
/// The percentage shown to subscribers is derived from the two amounts at
/// the formatting edge.
pub struct BudgetAlert {
    pub budget_name: String,
    pub amount_cents: i64,
    pub spend_cents: i64,
    pub status: BudgetStatus,
}

/// Outcome of one budget evaluation: the status to persist and, when the
/// budget is at warning or above, the alert to publish.
pub struct BudgetCheckOutcome {
    pub status: BudgetStatus,
    pub alert: Option<BudgetAlert>,
}

/// Evaluate one budget against the spend fetched for its current period.
pub fn check_budget(budget_name: &String, amount_cents: i64, spend_cents: i64) -> (r:
    BudgetCheckOutcome)
    ensures
        r.status == spec_budget_status(amount_cents as int, spend_cents as int),
        r.alert is Some <==> !(spec_budget_status(amount_cents as int, spend_cents as int)
            is Active),
        r.alert is Some ==> {
            &&& r.alert.unwrap().budget_name@ == budget_name@
            &&& r.alert.unwrap().amount_cents == amount_cents
            &&& r.alert.unwrap().spend_cents == spend_cents
            &&& r.alert.unwrap().status == r.status
        },
{
    let status = budget_status(amount_cents, spend_cents);
    let alert = match status {
        BudgetStatus::Active => None,
        _ => Some(
            BudgetAlert {
                budget_name: budget_name.clone(),
                amount_cents,
                spend_cents,
                status,
            },
        ),
    };
    BudgetCheckOutcome { status, alert }
}

} // verus!
