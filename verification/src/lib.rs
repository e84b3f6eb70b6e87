//! A ledger-resident payment-processing engine.
//!
//! An owner authorizes merchants; merchants publish one-shot payment links
//! and recurring subscription plans; payers trigger token transfers against
//! those constructs. This crate is the authorization and state-transition
//! core: who may create, advance, or terminate each construct, the monotonic
//! identity scheme, and the billing-due calculation. The surrounding host
//! (persistent storage, caller authentication, the ledger clock, the token
//! transfer primitive, and the event sink) is kept outside; operations take
//! an already-authenticated invoker and the current timestamp as plain
//! values, and return the transfer they require as a value for the host to
//! perform.

mod address;
mod amount;
mod entities;
mod errors;
mod gateway;
mod laws;

pub use address::Address;
pub use amount::Amount;
pub use entities::PaymentLink;
pub use entities::Subscription;
pub use entities::SubscriptionPlan;
pub use entities::TransferRequest;
pub use errors::Error;
pub use gateway::link_evolves;
pub use gateway::plan_evolves;
pub use gateway::sub_evolves;
pub use gateway::PaymentGateway;
pub use laws::lemma_evolves_transitive;
pub use laws::lemma_issued_link_persists;
pub use laws::lemma_issued_plan_persists;
pub use laws::lemma_issued_subscription_persists;
