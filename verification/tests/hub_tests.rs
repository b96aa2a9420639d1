use finops_engine::hub::{MessageKind, NotificationHub, NotificationMessage};

const TENANT_A: u128 = 0x11;
const TENANT_B: u128 = 0x22;

fn message(tenant: u128, payload: &str) -> NotificationMessage {
    NotificationMessage::new(MessageKind::AnomalyAlert, tenant, payload.to_string())
}

#[test]
fn test_publish_without_subscribers_is_noop() {
    let hub = NotificationHub::new();
    // No channel exists at all: silently dropped.
    assert_eq!(hub.publish(message(TENANT_A, "nobody listens")), 0);
}

#[test]
fn test_publish_after_all_receivers_dropped() {
    let mut hub = NotificationHub::new();
    let rx = hub.subscribe(TENANT_A);
    drop(rx);
    // The channel exists but has no live subscriber: still not an error.
    assert_eq!(hub.publish(message(TENANT_A, "into the void")), 0);
}

#[test]
fn test_publish_reaches_both_subscribers() {
    let mut hub = NotificationHub::new();
    let mut rx1 = hub.subscribe(TENANT_A);
    let mut rx2 = hub.subscribe(TENANT_A);
    let delivered = hub.publish(message(TENANT_A, "spike"));
    assert_eq!(delivered, 2);
    let m1 = rx1.try_recv().expect("first subscriber sees it");
    let m2 = rx2.try_recv().expect("second subscriber sees it");
    assert_eq!(m1.payload, "spike");
    assert_eq!(m2.payload, "spike");
    assert_eq!(m1.tenant_id, TENANT_A);
    assert!(matches!(m1.kind, MessageKind::AnomalyAlert));
}

#[test]
fn test_late_subscriber_misses_earlier_message() {
    let mut hub = NotificationHub::new();
    let mut rx1 = hub.subscribe(TENANT_A);
    hub.publish(message(TENANT_A, "early"));
    let mut rx2 = hub.subscribe(TENANT_A);
    hub.publish(message(TENANT_A, "late"));
    // The late subscriber only ever sees what came after it subscribed.
    assert_eq!(rx2.try_recv().unwrap().payload, "late");
    assert!(rx2.try_recv().is_err());
    // The early subscriber sees both, in order.
    assert_eq!(rx1.try_recv().unwrap().payload, "early");
    assert_eq!(rx1.try_recv().unwrap().payload, "late");
}

#[test]
fn test_tenants_are_isolated() {
    let mut hub = NotificationHub::new();
    let mut rx_a = hub.subscribe(TENANT_A);
    let mut rx_b = hub.subscribe(TENANT_B);
    assert_eq!(hub.publish(message(TENANT_A, "for a")), 1);
    assert_eq!(rx_a.try_recv().unwrap().payload, "for a");
    assert!(rx_b.try_recv().is_err());
}

#[test]
fn test_send_helpers_without_channel() {
    let hub = NotificationHub::new();
    assert_eq!(hub.send_cost_update(TENANT_A, "{}".to_string()), 0);
    assert_eq!(hub.send_anomaly_alert(TENANT_A, "{}".to_string()), 0);
    assert_eq!(hub.send_budget_alert(TENANT_A, "{}".to_string()), 0);
    assert_eq!(hub.send_recommendation(TENANT_A, "{}".to_string()), 0);
    assert_eq!(hub.send_remediation_update(TENANT_A, "{}".to_string()), 0);
    assert_eq!(hub.send_policy_violation(TENANT_A, "{}".to_string()), 0);
}

#[test]
fn test_send_helpers_set_the_kind() {
    let mut hub = NotificationHub::new();
    let mut rx = hub.subscribe(TENANT_A);
    hub.send_budget_alert(TENANT_A, "80 percent".to_string());
    let m = rx.try_recv().unwrap();
    assert!(matches!(m.kind, MessageKind::BudgetAlert));
    assert_eq!(m.payload, "80 percent");
}
