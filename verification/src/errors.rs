use vstd::prelude::*;

verus! {

/// The terminal result of a failed operation. Every error aborts the whole
/// operation with no state mutation; the engine has no local recovery.
#[derive(Clone, Copy, Debug, PartialEq, Eq, Structural)]
pub enum Error {
    /// The caller failed an identity or role check.
    Unauthorized,
    /// A referenced id or key is absent.
    NotFound,
    /// A creation-time amount was not strictly positive.
    InvalidAmount,
    /// A creation-time billing interval was zero.
    InvalidInterval,
    /// The merchant to add is already in the registry.
    AlreadyRegistered,
    /// The merchant to remove is not in the registry.
    NotRegistered,
    /// A payment was attempted against a deactivated link.
    InactiveLink,
    /// A subscription was attempted against a deactivated plan, or billing
    /// was attempted while the plan is deactivated.
    InactivePlan,
    /// Billing was attempted against a deactivated subscription.
    InactiveSubscription,
    /// Deactivation or cancellation targeted an already inactive entity.
    AlreadyInactive,
    /// Billing was attempted before the plan's interval elapsed.
    NotDue,
    /// The external token transfer was rejected. The engine itself never
    /// produces this value: the host shim maps a failed transfer to it.
    TransferFailed,
}

} // verus!
