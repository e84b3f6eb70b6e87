use vstd::prelude::*;

use crate::address::Address;
use crate::amount::Amount;

verus! {

/// A one-shot, reusable payment request owned by a merchant: any payer may
/// pay it any number of times until the merchant deactivates it.
///
/// A link's id is not stored in the record: links live in a dense arena
/// inside the gateway, a link's id being its position plus one.
#[derive(Debug)]
pub struct PaymentLink {
    /// The merchant that created the link; immutable, and paid on every
    /// payment against the link.
    pub merchant: Address,
    /// The fixed amount each payment moves; strictly positive, immutable.
    pub amount: Amount,
    /// One-way latch: once false the link can never become active again.
    pub active: bool,
    /// A short human-readable label; never interpreted by the engine.
    pub description: String,
}

/// A merchant-owned recurring-billing template: a fixed amount charged at
/// most once per interval to each subscriber bound to the plan.
#[derive(Debug)]
pub struct SubscriptionPlan {
    /// The merchant that created the plan; immutable, and paid on every
    /// billing of a subscription to the plan.
    pub merchant: Address,
    /// The fixed amount each billing moves; strictly positive, immutable.
    pub amount: Amount,
    /// The minimum number of seconds between two billings; strictly
    /// positive, immutable.
    pub interval: u32,
    /// One-way latch: once false the plan can never become active again.
    pub active: bool,
    /// A short human-readable label; never interpreted by the engine.
    pub name: String,
}

/// A subscriber's binding to a plan, tracking the last successful billing
/// time and independently cancellable.
///
/// A subscription's id is its position plus one in the gateway's dense
/// subscription arena; ids are scoped globally, not per subscriber.
#[derive(Clone, Copy, Debug)]
pub struct Subscription {
    /// The account billed by the subscription; immutable.
    pub subscriber: Address,
    /// The id of the plan the subscription is bound to; immutable.
    pub plan_id: u32,
    /// The ledger timestamp at which the subscription was created.
    pub start_time: u64,
    /// The ledger timestamp of the last successful billing; never
    /// decreases, and is never below `start_time`.
    pub last_payment: u64,
    /// One-way latch: once false the subscription can never become active
    /// again.
    pub active: bool,
}

/// A token movement an operation requires the host to perform: the full
/// `amount` moves from `from` to `to`, atomically with the operation that
/// returned the request, or the whole operation is rolled back.
#[derive(Clone, Copy, Debug, PartialEq, Eq, Structural)]
pub struct TransferRequest {
    /// The account the tokens leave.
    pub from: Address,
    /// The account the tokens reach.
    pub to: Address,
    /// How many tokens move.
    pub amount: Amount,
}

} // verus!
