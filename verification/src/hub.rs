//! Per-tenant publish/subscribe alert hub.
//!
//! Each tenant gets one bounded broadcast channel, created lazily on the
//! first subscription. Publishing to a tenant nobody listens to is a
//! silent no-op, never an error; slow subscribers that fall behind the
//! channel's buffer miss the oldest messages (at-most-once, no replay).
//! The channels come from tokio's broadcast primitive behind trusted
//! wrappers; the registry around them is verified.

use vstd::prelude::*;

verus! {

/// The six kinds of alert the engine emits. All share one envelope.
#[derive(Clone, Copy, Debug, PartialEq, Eq, Structural)]
pub enum MessageKind {
    CostUpdate,
    AnomalyAlert,
    BudgetAlert,
    Recommendation,
    RemediationUpdate,
    PolicyViolation,
}

/// One alert: a kind, the tenant it concerns and an opaque payload that
/// the transport layer forwards as-is.
#[derive(Clone, Debug)]
pub struct NotificationMessage {
    pub kind: MessageKind,
    pub tenant_id: u128,
    pub payload: String,
}

impl NotificationMessage {
    pub fn new(kind: MessageKind, tenant_id: u128, payload: String) -> (r: Self)
        ensures
            r.kind == kind,
            r.tenant_id == tenant_id,
            r.payload == payload,
    {
        NotificationMessage { kind, tenant_id, payload }
    }
}

#[verifier::external_type_specification]
#[verifier::external_body]
#[verifier::reject_recursive_types(T)]
pub struct ExSender<T>(tokio::sync::broadcast::Sender<T>);

#[verifier::external_type_specification]
#[verifier::external_body]
#[verifier::reject_recursive_types(T)]
pub struct ExReceiver<T>(tokio::sync::broadcast::Receiver<T>);

#[verifier::external_type_specification]
#[verifier::external_body]
#[verifier::reject_recursive_types(T)]
pub struct ExSendError<T>(tokio::sync::broadcast::error::SendError<T>);

/// Buffered messages each subscriber may lag behind by before it starts
/// missing the oldest ones.
pub const CHANNEL_CAPACITY: usize = 256;

/// Relies on tokio::sync::broadcast::channel: builds one bounded
/// broadcast channel; panics only on a zero capacity or one above
/// `usize::MAX / 2`, which the precondition rules out.
#[verifier::external_body]
fn broadcast_channel(capacity: usize) -> (r: (
    tokio::sync::broadcast::Sender<NotificationMessage>,
    tokio::sync::broadcast::Receiver<NotificationMessage>,
))
    requires
        1 <= capacity <= 65536,
{
    tokio::sync::broadcast::channel(capacity)
}

/// Relies on tokio::sync::broadcast::Sender::subscribe: returns a fresh
/// receiver that sees exactly the messages sent after this call.
#[verifier::external_body]
fn sender_subscribe(
    sender: &tokio::sync::broadcast::Sender<NotificationMessage>,
) -> tokio::sync::broadcast::Receiver<NotificationMessage> {
    sender.subscribe()
}

/// Relies on tokio::sync::broadcast::Sender::send: enqueues the value for
/// every active receiver and returns how many there are; errs, returning
/// the value, exactly when there is none.
#[verifier::external_body]
fn sender_send(
    sender: &tokio::sync::broadcast::Sender<NotificationMessage>,
    msg: NotificationMessage,
) -> (r: Result<usize, tokio::sync::broadcast::error::SendError<NotificationMessage>>)
    ensures
        r is Ok ==> r.unwrap() >= 1,
{
    sender.send(msg)
}

struct ChannelEntry {
    tenant_id: u128,
    sender: tokio::sync::broadcast::Sender<NotificationMessage>,
}

/// Registry of one broadcast channel per tenant.
pub struct NotificationHub {
    channels: Vec<ChannelEntry>,
}

impl NotificationHub {
    /// Each tenant appears at most once in the registry.
    pub closed spec fn wf(&self) -> bool {
        forall|i: int, j: int|
            0 <= i < j < self.channels@.len() ==> #[trigger] self.channels@[i].tenant_id
                != #[trigger] self.channels@[j].tenant_id
    }

    /// Whether a channel exists for the tenant (it does from the first
    /// subscription on, for the life of the hub).
    pub closed spec fn spec_has_channel(&self, tenant_id: u128) -> bool {
        exists|i: int|
            0 <= i < self.channels@.len() && #[trigger] self.channels@[i].tenant_id == tenant_id
    }

    pub fn new() -> (r: Self)
        ensures
            r.wf(),
            forall|t: u128| !r.spec_has_channel(t),
    {
        NotificationHub { channels: Vec::new() }
    }

    /// Subscribe to a tenant's alerts, creating the channel on first use.
    /// The receiver sees every message published for this tenant after
    /// this call, up to the channel's buffer.
    pub fn subscribe(&mut self, tenant_id: u128) -> (r: tokio::sync::broadcast::Receiver<
        NotificationMessage,
    >)
        requires
            old(self).wf(),
        ensures
            final(self).wf(),
            final(self).spec_has_channel(tenant_id),
            forall|t: u128|
                t != tenant_id ==> #[trigger] final(self).spec_has_channel(t) == old(
                    self,
                ).spec_has_channel(t),
    {
        let n = self.channels.len();
        let mut i: usize = 0;
        while i < n
            invariant
                n == self.channels@.len(),
                0 <= i <= n,
                old(self).wf(),
                self.channels@ == old(self).channels@,
                forall|j: int| 0 <= j < i ==> #[trigger] self.channels@[j].tenant_id != tenant_id,
            decreases n - i,
        {
            if self.channels[i].tenant_id == tenant_id {
                return sender_subscribe(&self.channels[i].sender);
            }
            i = i + 1;
        }
        let (tx, rx) = broadcast_channel(CHANNEL_CAPACITY);
        self.channels.push(ChannelEntry { tenant_id, sender: tx });
        proof {
            let pre = old(self).channels@;
            let post = self.channels@;
            assert(post.len() == pre.len() + 1);
            assert(post[pre.len() as int].tenant_id == tenant_id);
            assert forall|i2: int, j2: int|
                0 <= i2 < j2 < post.len() implies #[trigger] post[i2].tenant_id
                != #[trigger] post[j2].tenant_id by {
                if j2 < pre.len() {
                    assert(pre[i2].tenant_id != pre[j2].tenant_id);
                } else {
                    assert(post[j2].tenant_id == tenant_id);
                    assert(pre[i2].tenant_id != tenant_id);
                }
            }
            assert forall|t: u128|
                t != tenant_id implies #[trigger] self.spec_has_channel(t) == old(
                self,
            ).spec_has_channel(t) by {
                if old(self).spec_has_channel(t) {
                    let k = choose|k: int| 0 <= k < pre.len() && #[trigger] pre[k].tenant_id == t;
                    assert(post[k].tenant_id == t);
                    assert(self.spec_has_channel(t));
                }
                if self.spec_has_channel(t) {
                    let k = choose|k: int| 0 <= k < post.len() && #[trigger] post[k].tenant_id == t;
                    if k < pre.len() {
                        assert(pre[k].tenant_id == t);
                        assert(old(self).spec_has_channel(t));
                    }
                }
            }
        }
        rx
    }

    /// Publish an alert to every current subscriber of its tenant.
    /// Returns how many receivers the message was enqueued for; a tenant
    /// without a channel or without subscribers yields zero, and no
    /// outcome is an error.
    pub fn publish(&self, msg: NotificationMessage) -> (delivered: usize)
        ensures
            !self.spec_has_channel(msg.tenant_id) ==> delivered == 0,
            delivered != 0 ==> self.spec_has_channel(msg.tenant_id),
    {
        let n = self.channels.len();
        let mut i: usize = 0;
        while i < n
            invariant
                n == self.channels@.len(),
                0 <= i <= n,
            decreases n - i,
        {
            if self.channels[i].tenant_id == msg.tenant_id {
                return match sender_send(&self.channels[i].sender, msg) {
                    Ok(count) => count,
                    Err(_) => 0,
                };
            }
            i = i + 1;
        }
        0
    }

    /// Publish a cost-update alert.
    pub fn send_cost_update(&self, tenant_id: u128, payload: String) -> (delivered: usize)
        ensures
            !self.spec_has_channel(tenant_id) ==> delivered == 0,
    {
        self.publish(NotificationMessage::new(MessageKind::CostUpdate, tenant_id, payload))
    }

    /// Publish an anomaly alert.
    pub fn send_anomaly_alert(&self, tenant_id: u128, payload: String) -> (delivered: usize)
        ensures
            !self.spec_has_channel(tenant_id) ==> delivered == 0,
    {
        self.publish(NotificationMessage::new(MessageKind::AnomalyAlert, tenant_id, payload))
    }

    /// Publish a budget alert.
    pub fn send_budget_alert(&self, tenant_id: u128, payload: String) -> (delivered: usize)
        ensures
            !self.spec_has_channel(tenant_id) ==> delivered == 0,
    {
        self.publish(NotificationMessage::new(MessageKind::BudgetAlert, tenant_id, payload))
    }

    /// Publish a recommendation notice.
    pub fn send_recommendation(&self, tenant_id: u128, payload: String) -> (delivered: usize)
        ensures
            !self.spec_has_channel(tenant_id) ==> delivered == 0,
    {
        self.publish(NotificationMessage::new(MessageKind::Recommendation, tenant_id, payload))
    }

    /// Publish a remediation status update.
    pub fn send_remediation_update(&self, tenant_id: u128, payload: String) -> (delivered: usize)
        ensures
            !self.spec_has_channel(tenant_id) ==> delivered == 0,
    {
        self.publish(NotificationMessage::new(MessageKind::RemediationUpdate, tenant_id, payload))
    }

    /// Publish a policy-violation alert.
    pub fn send_policy_violation(&self, tenant_id: u128, payload: String) -> (delivered: usize)
        ensures
            !self.spec_has_channel(tenant_id) ==> delivered == 0,
    {
        self.publish(NotificationMessage::new(MessageKind::PolicyViolation, tenant_id, payload))
    }
}

} // verus!
