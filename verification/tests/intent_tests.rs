use finops_engine::intent::detect_intent;

#[test]
fn test_intent_cost() {
    // Matching is case-insensitive: the text is lowercased first.
    assert_eq!(detect_intent("How much did we SPEND last month?"), "cost_query");
    assert_eq!(detect_intent("show me the Bill"), "cost_query");
    assert_eq!(detect_intent("total cost by service"), "cost_query");
}

#[test]
fn test_intent_anomaly() {
    assert_eq!(detect_intent("any Anomalies this week?"), "anomaly_query");
    assert_eq!(detect_intent("what caused the spike"), "anomaly_query");
    assert_eq!(detect_intent("something unusual happened"), "anomaly_query");
}

#[test]
fn test_intent_budget() {
    assert_eq!(detect_intent("are we over BUDGET?"), "budget_query");
}

#[test]
fn test_intent_savings() {
    assert_eq!(detect_intent("how can we save money"), "savings_query");
    assert_eq!(detect_intent("Optimize the fleet"), "savings_query");
    assert_eq!(detect_intent("any recommendations?"), "savings_query");
}

#[test]
fn test_intent_forecast() {
    assert_eq!(detect_intent("forecast next month"), "forecast_query");
    assert_eq!(detect_intent("Predict our growth"), "forecast_query");
}

#[test]
fn test_intent_general() {
    assert_eq!(detect_intent("hello there"), "general");
    assert_eq!(detect_intent(""), "general");
}

#[test]
fn test_intent_first_family_wins() {
    // "cost" is checked before "budget".
    assert_eq!(detect_intent("cost of the budget overrun"), "cost_query");
}
