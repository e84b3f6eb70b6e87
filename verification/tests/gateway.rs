use payment_gateway::Address;
use payment_gateway::Amount;
use payment_gateway::Error;
use payment_gateway::PaymentGateway;
use payment_gateway::TransferRequest;

fn owner() -> Address {
    Address { id: 1 }
}

fn merchant() -> Address {
    Address { id: 2 }
}

fn payer() -> Address {
    Address { id: 3 }
}

fn token() -> Address {
    Address { id: 99 }
}

/// A gateway with one registered merchant.
fn gateway_with_merchant() -> PaymentGateway {
    let mut g = PaymentGateway::init(owner(), token());
    assert_eq!(g.add_merchant(owner(), merchant()), Ok(()));
    g
}

#[test]
fn init_sets_configuration() {
    let g = PaymentGateway::init(owner(), token());
    assert_eq!(g.owner, owner());
    assert_eq!(g.token, token());
    assert!(g.merchants.is_empty());
    assert!(g.links.is_empty());
    assert!(g.plans.is_empty());
    assert!(g.subs.is_empty());
}

#[test]
fn only_owner_edits_registry() {
    let mut g = PaymentGateway::init(owner(), token());
    let stranger = Address { id: 77 };
    assert_eq!(g.add_merchant(stranger, merchant()), Err(Error::Unauthorized));
    assert_eq!(g.remove_merchant(stranger, merchant()), Err(Error::Unauthorized));
    assert!(g.merchants.is_empty());
    assert_eq!(g.add_merchant(owner(), merchant()), Ok(()));
    assert!(g.is_merchant(&merchant()));
}

#[test]
fn add_merchant_rejects_duplicates() {
    let mut g = gateway_with_merchant();
    assert_eq!(g.add_merchant(owner(), merchant()), Err(Error::AlreadyRegistered));
}

#[test]
fn remove_merchant_requires_membership() {
    let mut g = PaymentGateway::init(owner(), token());
    assert_eq!(g.remove_merchant(owner(), merchant()), Err(Error::NotRegistered));
}

#[test]
fn remove_merchant_keeps_the_others() {
    let mut g = gateway_with_merchant();
    let second = Address { id: 4 };
    let third = Address { id: 5 };
    assert_eq!(g.add_merchant(owner(), second), Ok(()));
    assert_eq!(g.add_merchant(owner(), third), Ok(()));
    assert_eq!(g.remove_merchant(owner(), second), Ok(()));
    assert!(g.is_merchant(&merchant()));
    assert!(!g.is_merchant(&second));
    assert!(g.is_merchant(&third));
}

#[test]
fn link_creation_is_merchant_gated() {
    let mut g = gateway_with_merchant();
    let r = g.create_payment_link(payer(), Amount::from_u128(50), "coffee".to_owned());
    assert_eq!(r, Err(Error::Unauthorized));
}

#[test]
fn link_creation_validates_amount() {
    let mut g = gateway_with_merchant();
    let zero = Amount { hi: 0, lo: 0 };
    let r = g.create_payment_link(merchant(), zero, "free".to_owned());
    assert_eq!(r, Err(Error::InvalidAmount));
    let negative = Amount { hi: -1, lo: u128::MAX };
    let r = g.create_payment_link(merchant(), negative, "refund".to_owned());
    assert_eq!(r, Err(Error::InvalidAmount));
}

#[test]
fn link_ids_are_dense_and_never_reused() {
    let mut g = gateway_with_merchant();
    let a = Amount::from_u128(50);
    let first = g.create_payment_link(merchant(), a, "one".to_owned()).unwrap();
    let second = g.create_payment_link(merchant(), a, "two".to_owned()).unwrap();
    assert_eq!(first, 1);
    assert_eq!(second, 2);
    assert_eq!(g.deactivate_payment_link(merchant(), first), Ok(()));
    let third = g.create_payment_link(merchant(), a, "three".to_owned()).unwrap();
    assert_eq!(third, 3);
}

#[test]
fn pay_twice_link_stays_active() {
    let mut g = gateway_with_merchant();
    let id = g.create_payment_link(merchant(), Amount::from_u128(50), "snack".to_owned()).unwrap();
    let expected = TransferRequest {
        from: payer(),
        to: merchant(),
        amount: Amount::from_u128(50),
    };
    assert_eq!(g.process_payment(payer(), id), Ok(expected));
    assert_eq!(g.process_payment(payer(), id), Ok(expected));
    assert!(g.links[0].active);
}

#[test]
fn payment_against_unknown_link_fails() {
    let g = gateway_with_merchant();
    assert_eq!(g.process_payment(payer(), 1), Err(Error::NotFound));
    assert_eq!(g.process_payment(payer(), 0), Err(Error::NotFound));
}

#[test]
fn payment_against_inactive_link_fails() {
    let mut g = gateway_with_merchant();
    let id = g.create_payment_link(merchant(), Amount::from_u128(50), "old".to_owned()).unwrap();
    assert_eq!(g.deactivate_payment_link(merchant(), id), Ok(()));
    assert_eq!(g.process_payment(payer(), id), Err(Error::InactiveLink));
}

#[test]
fn link_deactivation_is_owner_merchant_only_and_once() {
    let mut g = gateway_with_merchant();
    let other = Address { id: 8 };
    assert_eq!(g.add_merchant(owner(), other), Ok(()));
    let id = g.create_payment_link(merchant(), Amount::from_u128(50), "mine".to_owned()).unwrap();
    assert_eq!(g.deactivate_payment_link(other, id), Err(Error::Unauthorized));
    assert_eq!(g.deactivate_payment_link(merchant(), 7), Err(Error::NotFound));
    assert_eq!(g.deactivate_payment_link(merchant(), id), Ok(()));
    assert_eq!(g.deactivate_payment_link(merchant(), id), Err(Error::AlreadyInactive));
    assert!(!g.links[0].active);
}

#[test]
fn removing_merchant_keeps_links_payable() {
    let mut g = gateway_with_merchant();
    let id = g.create_payment_link(merchant(), Amount::from_u128(50), "keep".to_owned()).unwrap();
    assert_eq!(g.remove_merchant(owner(), merchant()), Ok(()));
    assert!(g.links[0].active);
    let expected = TransferRequest {
        from: payer(),
        to: merchant(),
        amount: Amount::from_u128(50),
    };
    assert_eq!(g.process_payment(payer(), id), Ok(expected));
}

#[test]
fn plan_creation_validates_amount_and_interval() {
    let mut g = gateway_with_merchant();
    let r = g.create_subscription_plan(payer(), Amount::from_u128(100), 60, "x".to_owned());
    assert_eq!(r, Err(Error::Unauthorized));
    let zero = Amount { hi: 0, lo: 0 };
    let r = g.create_subscription_plan(merchant(), zero, 60, "x".to_owned());
    assert_eq!(r, Err(Error::InvalidAmount));
    let r = g.create_subscription_plan(merchant(), Amount::from_u128(100), 0, "x".to_owned());
    assert_eq!(r, Err(Error::InvalidInterval));
    let r = g.create_subscription_plan(merchant(), Amount::from_u128(100), 60, "x".to_owned());
    assert_eq!(r, Ok(1));
}

#[test]
fn plan_deactivation_is_owner_merchant_only_and_once() {
    let mut g = gateway_with_merchant();
    let other = Address { id: 8 };
    assert_eq!(g.add_merchant(owner(), other), Ok(()));
    let plan = g
        .create_subscription_plan(merchant(), Amount::from_u128(100), 60, "gold".to_owned())
        .unwrap();
    assert_eq!(g.deactivate_subscription_plan(other, plan), Err(Error::Unauthorized));
    assert_eq!(g.deactivate_subscription_plan(merchant(), 7), Err(Error::NotFound));
    assert_eq!(g.deactivate_subscription_plan(merchant(), plan), Ok(()));
    assert_eq!(g.deactivate_subscription_plan(merchant(), plan), Err(Error::AlreadyInactive));
    assert!(!g.plans[0].active);
}

#[test]
fn subscribe_charges_first_period_upfront() {
    let mut g = gateway_with_merchant();
    let plan = g
        .create_subscription_plan(merchant(), Amount::from_u128(100), 2592000, "gold".to_owned())
        .unwrap();
    let t0: u64 = 5000;
    let (id, transfer) = g.subscribe(payer(), plan, t0).unwrap();
    assert_eq!(id, 1);
    assert_eq!(
        transfer,
        TransferRequest { from: payer(), to: merchant(), amount: Amount::from_u128(100) }
    );
    assert_eq!(g.subs[0].start_time, t0);
    assert_eq!(g.subs[0].last_payment, t0);
    assert!(g.subs[0].active);
}

#[test]
fn subscribe_needs_an_active_known_plan() {
    let mut g = gateway_with_merchant();
    assert_eq!(g.subscribe(payer(), 1, 0), Err(Error::NotFound));
    let plan = g
        .create_subscription_plan(merchant(), Amount::from_u128(100), 60, "gold".to_owned())
        .unwrap();
    assert_eq!(g.deactivate_subscription_plan(merchant(), plan), Ok(()));
    assert_eq!(g.subscribe(payer(), plan, 0), Err(Error::InactivePlan));
    assert!(g.subs.is_empty());
}

#[test]
fn recurring_billing_follows_the_interval() {
    let mut g = gateway_with_merchant();
    let plan = g
        .create_subscription_plan(merchant(), Amount::from_u128(100), 2592000, "gold".to_owned())
        .unwrap();
    let t0: u64 = 10_000;
    let (id, _) = g.subscribe(payer(), plan, t0).unwrap();
    // Too early: nothing moves, nothing changes.
    assert_eq!(
        g.process_subscription_payment(owner(), payer(), id, t0 + 1000),
        Err(Error::NotDue)
    );
    assert_eq!(g.subs[0].last_payment, t0);
    // Exactly one interval later: one more transfer, last_payment advances.
    let t1 = t0 + 2592000;
    assert_eq!(
        g.process_subscription_payment(owner(), payer(), id, t1),
        Ok(TransferRequest { from: payer(), to: merchant(), amount: Amount::from_u128(100) })
    );
    assert_eq!(g.subs[0].last_payment, t1);
    // The next period is counted from the new last payment.
    assert_eq!(
        g.process_subscription_payment(owner(), payer(), id, t1 + 2591999),
        Err(Error::NotDue)
    );
    assert_eq!(
        g.process_subscription_payment(owner(), payer(), id, t1 + 2592000),
        Ok(TransferRequest { from: payer(), to: merchant(), amount: Amount::from_u128(100) })
    );
}

#[test]
fn billing_needs_the_right_subscriber_key() {
    let mut g = gateway_with_merchant();
    let plan = g
        .create_subscription_plan(merchant(), Amount::from_u128(100), 60, "gold".to_owned())
        .unwrap();
    let (id, _) = g.subscribe(payer(), plan, 0).unwrap();
    let stranger = Address { id: 50 };
    assert_eq!(
        g.process_subscription_payment(owner(), stranger, id, 120),
        Err(Error::NotFound)
    );
    assert_eq!(
        g.process_subscription_payment(owner(), payer(), 9, 120),
        Err(Error::NotFound)
    );
}

#[test]
fn billing_stops_on_either_latch() {
    let mut g = gateway_with_merchant();
    let plan = g
        .create_subscription_plan(merchant(), Amount::from_u128(100), 60, "gold".to_owned())
        .unwrap();
    let (first, _) = g.subscribe(payer(), plan, 0).unwrap();
    let (second, _) = g.subscribe(Address { id: 4 }, plan, 0).unwrap();
    assert_eq!(g.cancel_subscription(payer(), first), Ok(()));
    assert_eq!(
        g.process_subscription_payment(owner(), payer(), first, 120),
        Err(Error::InactiveSubscription)
    );
    assert_eq!(g.deactivate_subscription_plan(merchant(), plan), Ok(()));
    assert_eq!(
        g.process_subscription_payment(owner(), Address { id: 4 }, second, 120),
        Err(Error::InactivePlan)
    );
}

#[test]
fn cancellation_by_subscriber_or_any_merchant() {
    let mut g = gateway_with_merchant();
    let plan = g
        .create_subscription_plan(merchant(), Amount::from_u128(100), 60, "gold".to_owned())
        .unwrap();
    let (first, _) = g.subscribe(payer(), plan, 0).unwrap();
    let (second, _) = g.subscribe(payer(), plan, 0).unwrap();
    let stranger = Address { id: 50 };
    assert_eq!(g.cancel_subscription(stranger, first), Err(Error::Unauthorized));
    assert_eq!(g.cancel_subscription(payer(), 9), Err(Error::NotFound));
    assert_eq!(g.cancel_subscription(payer(), first), Ok(()));
    assert_eq!(g.cancel_subscription(payer(), first), Err(Error::AlreadyInactive));
    // Any registered merchant may cancel, not only the plan's own.
    let other = Address { id: 8 };
    assert_eq!(g.add_merchant(owner(), other), Ok(()));
    assert_eq!(g.cancel_subscription(other, second), Ok(()));
    assert!(!g.subs[1].active);
}

#[test]
fn subscription_ids_are_global_and_dense() {
    let mut g = gateway_with_merchant();
    let plan = g
        .create_subscription_plan(merchant(), Amount::from_u128(100), 60, "gold".to_owned())
        .unwrap();
    let (a, _) = g.subscribe(payer(), plan, 0).unwrap();
    let (b, _) = g.subscribe(Address { id: 4 }, plan, 0).unwrap();
    let (c, _) = g.subscribe(payer(), plan, 0).unwrap();
    assert_eq!((a, b, c), (1, 2, 3));
}

#[test]
fn full_subscription_scenario() {
    // Owner initializes with a token, adds a merchant; a subscriber joins a
    // plan of 100 every 2592000 seconds: one upfront transfer, then billing
    // succeeds only once the interval has elapsed.
    let mut g = PaymentGateway::init(owner(), token());
    assert_eq!(g.add_merchant(owner(), merchant()), Ok(()));
    let plan = g
        .create_subscription_plan(merchant(), Amount::from_u128(100), 2592000, "news".to_owned())
        .unwrap();
    let t0: u64 = 1_700_000_000;
    let (id, transfer) = g.subscribe(payer(), plan, t0).unwrap();
    assert_eq!(
        transfer,
        TransferRequest { from: payer(), to: merchant(), amount: Amount::from_u128(100) }
    );
    assert_eq!(g.subs[0].last_payment, t0);
    assert_eq!(
        g.process_subscription_payment(owner(), payer(), id, t0 + 1000),
        Err(Error::NotDue)
    );
    let t1 = t0 + 2592000;
    assert_eq!(
        g.process_subscription_payment(owner(), payer(), id, t1),
        Ok(TransferRequest { from: payer(), to: merchant(), amount: Amount::from_u128(100) })
    );
    assert_eq!(g.subs[0].last_payment, t1);
}
