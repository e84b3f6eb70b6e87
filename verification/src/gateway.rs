use vstd::prelude::*;

use crate::address::Address;
use crate::amount::Amount;
use crate::entities::PaymentLink;
use crate::entities::Subscription;
use crate::entities::SubscriptionPlan;
use crate::entities::TransferRequest;
use crate::errors::Error;

verus! {

/// How a stored payment link may change over time: its identity is
/// immutable, and `active` is a one-way latch — a link active later was
/// active before.
pub open spec fn link_evolves(a: PaymentLink, b: PaymentLink) -> bool {
    &&& b.merchant == a.merchant
    &&& b.amount == a.amount
    &&& b.description@ == a.description@
    &&& b.active ==> a.active
}

/// How a stored subscription plan may change over time: identity
/// immutable, `active` a one-way latch.
pub open spec fn plan_evolves(a: SubscriptionPlan, b: SubscriptionPlan) -> bool {
    &&& b.merchant == a.merchant
    &&& b.amount == a.amount
    &&& b.interval == a.interval
    &&& b.name@ == a.name@
    &&& b.active ==> a.active
}

/// How a stored subscription may change over time: identity immutable,
/// `last_payment` never decreases, `active` a one-way latch.
pub open spec fn sub_evolves(a: Subscription, b: Subscription) -> bool {
    &&& b.subscriber == a.subscriber
    &&& b.plan_id == a.plan_id
    &&& b.start_time == a.start_time
    &&& b.last_payment >= a.last_payment
    &&& b.active ==> a.active
}

/// The complete state of the gateway: the immutable configuration, the
/// merchant registry, and one dense arena per entity namespace.
///
/// Entities are never physically removed: deactivation is a terminal
/// logical state, so an entity's id — its arena position plus one — is
/// dense, monotonic, and never reused. The host shim persists this state
/// between operations; each operation runs to completion as a single
/// atomic unit, its caller already authenticated by the host.
pub struct PaymentGateway {
    /// The account configured at initialization as the only one allowed to
    /// edit the merchant registry; immutable.
    pub owner: Address,
    /// The token contract every transfer is drawn on; immutable.
    pub token: Address,
    /// The owner-controlled allow-list of accounts permitted to create
    /// links and plans; free of duplicates.
    pub merchants: Vec<Address>,
    /// Payment links, the link with id `n` at position `n - 1`.
    pub links: Vec<PaymentLink>,
    /// Subscription plans, the plan with id `n` at position `n - 1`.
    pub plans: Vec<SubscriptionPlan>,
    /// Subscriptions, the subscription with id `n` at position `n - 1`.
    pub subs: Vec<Subscription>,
}

impl PaymentGateway {
    /// Whether `who` is presently in the merchant registry.
    pub open spec fn spec_is_merchant(self, who: Address) -> bool {
        self.merchants@.contains(who)
    }

    /// Whether `id` names an issued payment link.
    pub open spec fn link_id_valid(self, id: u32) -> bool {
        1 <= id && id <= self.links@.len()
    }

    /// The payment link with id `id`.
    pub open spec fn spec_link(self, id: u32) -> PaymentLink
        recommends
            self.link_id_valid(id),
    {
        self.links@[id - 1]
    }

    /// Whether `id` names an issued subscription plan.
    pub open spec fn plan_id_valid(self, id: u32) -> bool {
        1 <= id && id <= self.plans@.len()
    }

    /// The subscription plan with id `id`.
    pub open spec fn spec_plan(self, id: u32) -> SubscriptionPlan
        recommends
            self.plan_id_valid(id),
    {
        self.plans@[id - 1]
    }

    /// Whether `id` names an issued subscription.
    pub open spec fn sub_id_valid(self, id: u32) -> bool {
        1 <= id && id <= self.subs@.len()
    }

    /// The subscription with id `id`.
    pub open spec fn spec_sub(self, id: u32) -> Subscription
        recommends
            self.sub_id_valid(id),
    {
        self.subs@[id - 1]
    }

    /// Whether the pair `(subscriber, id)` names an issued subscription:
    /// ids are global, but a subscription is only addressable together
    /// with its subscriber.
    pub open spec fn sub_key_valid(self, subscriber: Address, id: u32) -> bool {
        self.sub_id_valid(id) && self.spec_sub(id).subscriber == subscriber
    }

    /// Well-formedness: every reachable state of the gateway satisfies
    /// this. Arena sizes stay addressable by a 32-bit id, the registry
    /// holds no duplicates, creation-time validation has held of every
    /// stored entity, every subscription points at an issued plan, and no
    /// subscription was ever billed before it started.
    pub open spec fn wf(self) -> bool {
        &&& self.links@.len() <= u32::MAX
        &&& self.plans@.len() <= u32::MAX
        &&& self.subs@.len() <= u32::MAX
        &&& forall|i: int, j: int|
            0 <= i < j < self.merchants@.len() ==> #[trigger] self.merchants@[i]
                != #[trigger] self.merchants@[j]
        &&& forall|i: int|
            0 <= i < self.links@.len() ==> (#[trigger] self.links@[i]).amount.as_int() > 0
        &&& forall|i: int|
            0 <= i < self.plans@.len() ==> (#[trigger] self.plans@[i]).amount.as_int() > 0
                && self.plans@[i].interval > 0
        &&& forall|i: int|
            0 <= i < self.subs@.len() ==> {
                let s = #[trigger] self.subs@[i];
                &&& 1 <= s.plan_id
                &&& s.plan_id <= self.plans@.len()
                &&& s.start_time <= s.last_payment
            }
    }

    /// What any single operation may do to the state, and hence — by
    /// [`crate::laws::lemma_evolves_transitive`] — what any sequence of
    /// operations may do: the configuration never changes, issued entities
    /// are never removed or re-issued, and each stored entity changes only
    /// as its evolution relation allows. In particular every `active` flag
    /// is a one-way latch: no operation ever sets one back to true.
    pub open spec fn evolves_to(self, post: Self) -> bool {
        &&& post.owner == self.owner
        &&& post.token == self.token
        &&& self.links@.len() <= post.links@.len()
        &&& self.plans@.len() <= post.plans@.len()
        &&& self.subs@.len() <= post.subs@.len()
        &&& forall|i: int|
            0 <= i < self.links@.len() ==> link_evolves(self.links@[i], #[trigger] post.links@[i])
        &&& forall|i: int|
            0 <= i < self.plans@.len() ==> plan_evolves(self.plans@[i], #[trigger] post.plans@[i])
        &&& forall|i: int|
            0 <= i < self.subs@.len() ==> sub_evolves(self.subs@[i], #[trigger] post.subs@[i])
    }

    /// Set up a fresh gateway. The host authenticates `invoker` before the
    /// call; the authenticated invoker becomes the owner. Nothing exists
    /// yet: no merchants, links, plans, or subscriptions.
    pub fn init(invoker: Address, token: Address) -> (r: PaymentGateway)
        ensures
            r.wf(),
            r.owner == invoker,
            r.token == token,
            r.merchants@ =~= Seq::<Address>::empty(),
            r.links@.len() == 0,
            r.plans@.len() == 0,
            r.subs@.len() == 0,
    {
        PaymentGateway {
            owner: invoker,
            token,
            merchants: Vec::new(),
            links: Vec::new(),
            plans: Vec::new(),
            subs: Vec::new(),
        }
    }

    /// The owner gate: every registry edit passes through it.
    fn only_owner(&self, invoker: &Address) -> (r: Result<(), Error>)
        ensures
            r is Ok <==> *invoker == self.owner,
            r is Err ==> r == Err::<(), Error>(Error::Unauthorized),
    {
        if *invoker == self.owner {
            Ok(())
        } else {
            Err(Error::Unauthorized)
        }
    }

    /// Whether `who` is an authorized creator of links and plans. This is
    /// a pure membership query, not itself an authorization check: it
    /// answers independently of who is asking.
    pub fn is_merchant(&self, who: &Address) -> (r: bool)
        ensures
            r == self.spec_is_merchant(*who),
    {
        let n = self.merchants.len();
        let mut i: usize = 0;
        while i < n
            invariant
                n == self.merchants@.len(),
                i <= n,
                forall|j: int| 0 <= j < i ==> self.merchants@[j] != *who,
            decreases n - i,
        {
            if self.merchants[i] == *who {
                return true;
            }
            i = i + 1;
        }
        proof {
            assert forall|j: int| 0 <= j < self.merchants@.len() implies self.merchants@[j]
                != *who by {}
        }
        false
    }

    /// Where `who` stands in the registry, if anywhere.
    fn merchant_index(&self, who: &Address) -> (r: Option<usize>)
        ensures
            r matches Some(i) ==> i < self.merchants@.len() && self.merchants@[i as int] == *who,
            r is None ==> !self.spec_is_merchant(*who),
    {
        let n = self.merchants.len();
        let mut i: usize = 0;
        while i < n
            invariant
                n == self.merchants@.len(),
                i <= n,
                forall|j: int| 0 <= j < i ==> self.merchants@[j] != *who,
            decreases n - i,
        {
            if self.merchants[i] == *who {
                return Some(i);
            }
            i = i + 1;
        }
        proof {
            assert forall|j: int| 0 <= j < self.merchants@.len() implies self.merchants@[j]
                != *who by {}
        }
        None
    }

    /// Add `merchant` to the registry. Owner-only; the host authenticates
    /// `invoker` before the call. Fails `Unauthorized` for any other
    /// caller, `AlreadyRegistered` if `merchant` is already listed; a
    /// failed call leaves the state untouched.
    pub fn add_merchant(&mut self, invoker: Address, merchant: Address) -> (r: Result<(), Error>)
        requires
            old(self).wf(),
        ensures
            final(self).wf(),
            old(self).evolves_to(*final(self)),
            r is Ok <==> (invoker == old(self).owner && !old(self).spec_is_merchant(merchant)),
            invoker != old(self).owner ==> r == Err::<(), Error>(Error::Unauthorized),
            invoker == old(self).owner && old(self).spec_is_merchant(merchant) ==> r == Err::<
                (),
                Error,
            >(Error::AlreadyRegistered),
            r is Err ==> *final(self) == *old(self),
            r is Ok ==> final(self).merchants@ == old(self).merchants@.push(merchant),
            final(self).links@ == old(self).links@,
            final(self).plans@ == old(self).plans@,
            final(self).subs@ == old(self).subs@,
    {
        if let Err(e) = self.only_owner(&invoker) {
            return Err(e);
        }
        if self.is_merchant(&merchant) {
            return Err(Error::AlreadyRegistered);
        }
        self.merchants.push(merchant);
        proof {
            let cur = self.merchants@;
            assert(cur == old(self).merchants@.push(merchant));
            assert forall|i: int, j: int| 0 <= i < j < cur.len() implies #[trigger] cur[i]
                != #[trigger] cur[j] by {
                if j == cur.len() - 1 {
                    assert(cur[j] == merchant);
                    assert(!old(self).merchants@.contains(merchant));
                    assert(old(self).merchants@[i] != merchant);
                }
            }
        }
        Ok(())
    }

    /// Remove `merchant` from the registry. Owner-only; fails
    /// `Unauthorized` for any other caller, `NotRegistered` if `merchant`
    /// is not listed; a failed call leaves the state untouched. Removal
    /// never touches the merchant's existing links or plans: they stay
    /// exactly as they were.
    pub fn remove_merchant(&mut self, invoker: Address, merchant: Address) -> (r: Result<
        (),
        Error,
    >)
        requires
            old(self).wf(),
        ensures
            final(self).wf(),
            old(self).evolves_to(*final(self)),
            r is Ok <==> (invoker == old(self).owner && old(self).spec_is_merchant(merchant)),
            invoker != old(self).owner ==> r == Err::<(), Error>(Error::Unauthorized),
            invoker == old(self).owner && !old(self).spec_is_merchant(merchant) ==> r == Err::<
                (),
                Error,
            >(Error::NotRegistered),
            r is Err ==> *final(self) == *old(self),
            r is Ok ==> !final(self).spec_is_merchant(merchant),
            r is Ok ==> forall|a: Address|
                a != merchant ==> (#[trigger] final(self).spec_is_merchant(a) <==> old(
                    self,
                ).spec_is_merchant(a)),
            final(self).links@ == old(self).links@,
            final(self).plans@ == old(self).plans@,
            final(self).subs@ == old(self).subs@,
    {
        if let Err(e) = self.only_owner(&invoker) {
            return Err(e);
        }
        let i = match self.merchant_index(&merchant) {
            Some(i) => i,
            None => {
                return Err(Error::NotRegistered);
            },
        };
        let ghost pre = self.merchants@;
        self.merchants.remove(i);
        proof {
            pre.remove_ensures(i as int);
            let cur = self.merchants@;
            assert(cur == pre.remove(i as int));
            // No element of the shrunken registry is the removed merchant:
            // the slot at `i` held its only occurrence.
            assert forall|k: int| 0 <= k < cur.len() implies cur[k] != merchant by {
                if k >= i {
                    assert(cur[k] == pre[k + 1]);
                    assert(pre[i as int] == merchant);
                    assert(pre[i as int] != pre[k + 1]);
                }
            }
            assert(!cur.contains(merchant));
            // Distinctness and every other membership are preserved, since
            // each surviving slot carries an old element and each old
            // element but the removed one survives.
            assert forall|k: int, l: int| 0 <= k < l < cur.len() implies #[trigger] cur[k]
                != #[trigger] cur[l] by {
                let k0: int = if k < i { k } else { k + 1 };
                let l0: int = if l < i { l } else { l + 1 };
                assert(cur[k] == pre[k0] && cur[l] == pre[l0]);
            }
            assert forall|a: Address| a != merchant && pre.contains(a) implies cur.contains(
                a,
            ) by {
                let j = choose|j: int| 0 <= j < pre.len() && pre[j] == a;
                if j < i {
                    assert(cur[j] == a);
                } else {
                    assert(j != i);
                    assert(cur[j - 1] == pre[j]);
                }
            }
            assert forall|a: Address| cur.contains(a) implies pre.contains(a) by {
                let k = choose|k: int| 0 <= k < cur.len() && cur[k] == a;
                let k0: int = if k < i { k } else { k + 1 };
                assert(pre[k0] == a);
            }
        }
        Ok(())
    }

    /// Create a payment link for the fixed `amount`, owned by `invoker`.
    /// The host authenticates `invoker` before the call; `invoker` must be
    /// a registered merchant, else `Unauthorized`; the amount must be
    /// strictly positive, else `InvalidAmount`. On success the link is
    /// stored active under the next link id — strictly greater than every
    /// link id issued before — and that id is returned. A failed call
    /// leaves the state untouched.
    pub fn create_payment_link(
        &mut self,
        invoker: Address,
        amount: Amount,
        description: String,
    ) -> (r: Result<u32, Error>)
        requires
            old(self).wf(),
            old(self).links@.len() < u32::MAX,
        ensures
            final(self).wf(),
            old(self).evolves_to(*final(self)),
            r is Ok <==> (old(self).spec_is_merchant(invoker) && amount.as_int() > 0),
            !old(self).spec_is_merchant(invoker) ==> r == Err::<u32, Error>(Error::Unauthorized),
            old(self).spec_is_merchant(invoker) && amount.as_int() <= 0 ==> r == Err::<
                u32,
                Error,
            >(Error::InvalidAmount),
            r is Err ==> *final(self) == *old(self),
            r matches Ok(id) ==> {
                &&& id == old(self).links@.len() + 1
                &&& forall|j: u32| #[trigger] old(self).link_id_valid(j) ==> j < id
                &&& final(self).links@ == old(self).links@.push(
                    (PaymentLink { merchant: invoker, amount, active: true, description }),
                )
            },
            final(self).merchants@ == old(self).merchants@,
            final(self).plans@ == old(self).plans@,
            final(self).subs@ == old(self).subs@,
    {
        if !self.is_merchant(&invoker) {
            return Err(Error::Unauthorized);
        }
        if !amount.is_positive() {
            return Err(Error::InvalidAmount);
        }
        let id: u32 = (self.links.len() as u32) + 1;
        self.links.push(PaymentLink { merchant: invoker, amount, active: true, description });
        Ok(id)
    }

    /// Work out the transfer a payment against `link_id` requires: the
    /// link's amount, from the paying `invoker` — any authenticated
    /// account — to the link's merchant. Fails `NotFound` if the id was
    /// never issued and `InactiveLink` if the link has been deactivated;
    /// no transfer is requested then. Paying never changes the gateway's
    /// state: a link may be paid any number of times until deactivated.
    pub fn process_payment(&self, invoker: Address, link_id: u32) -> (r: Result<
        TransferRequest,
        Error,
    >)
        ensures
            !self.link_id_valid(link_id) ==> r == Err::<TransferRequest, Error>(Error::NotFound),
            self.link_id_valid(link_id) && !self.spec_link(link_id).active ==> r == Err::<
                TransferRequest,
                Error,
            >(Error::InactiveLink),
            self.link_id_valid(link_id) && self.spec_link(link_id).active ==> r == Ok::<
                TransferRequest,
                Error,
            >(
                (TransferRequest {
                    from: invoker,
                    to: self.spec_link(link_id).merchant,
                    amount: self.spec_link(link_id).amount,
                }),
            ),
            r is Ok <==> (self.link_id_valid(link_id) && self.spec_link(link_id).active),
    {
        if link_id == 0 || link_id as usize > self.links.len() {
            return Err(Error::NotFound);
        }
        let idx = (link_id - 1) as usize;
        if !self.links[idx].active {
            return Err(Error::InactiveLink);
        }
        Ok(
            TransferRequest {
                from: invoker,
                to: self.links[idx].merchant,
                amount: self.links[idx].amount,
            },
        )
    }

    /// Turn the one-way latch of link `link_id`: only the link's own
    /// merchant may, and only once — `Unauthorized` for any other caller,
    /// `NotFound` for an id never issued, `AlreadyInactive` the second
    /// time. A failed call leaves the state untouched, and nothing ever
    /// sets the latch back.
    pub fn deactivate_payment_link(&mut self, invoker: Address, link_id: u32) -> (r: Result<
        (),
        Error,
    >)
        requires
            old(self).wf(),
        ensures
            final(self).wf(),
            old(self).evolves_to(*final(self)),
            !old(self).link_id_valid(link_id) ==> r == Err::<(), Error>(Error::NotFound),
            old(self).link_id_valid(link_id) && old(self).spec_link(link_id).merchant != invoker
                ==> r == Err::<(), Error>(Error::Unauthorized),
            old(self).link_id_valid(link_id) && old(self).spec_link(link_id).merchant == invoker
                && !old(self).spec_link(link_id).active ==> r == Err::<(), Error>(
                Error::AlreadyInactive,
            ),
            r is Ok <==> (old(self).link_id_valid(link_id) && old(self).spec_link(
                link_id,
            ).merchant == invoker && old(self).spec_link(link_id).active),
            r is Err ==> *final(self) == *old(self),
            r is Ok ==> final(self).links@ == old(self).links@.update(
                link_id - 1,
                (PaymentLink { active: false, ..old(self).spec_link(link_id) }),
            ),
            final(self).merchants@ == old(self).merchants@,
            final(self).plans@ == old(self).plans@,
            final(self).subs@ == old(self).subs@,
    {
        if link_id == 0 || link_id as usize > self.links.len() {
            return Err(Error::NotFound);
        }
        let idx = (link_id - 1) as usize;
        if self.links[idx].merchant != invoker {
            return Err(Error::Unauthorized);
        }
        if !self.links[idx].active {
            return Err(Error::AlreadyInactive);
        }
        self.links[idx].active = false;
        Ok(())
    }

    /// Create a recurring-billing plan owned by `invoker`, charging
    /// `amount` at most once per `interval` seconds. Merchant-gated like
    /// link creation; additionally the interval must be non-zero, else
    /// `InvalidInterval`. On success the plan is stored active under the
    /// next plan id — strictly greater than every plan id issued before —
    /// and that id is returned. A failed call leaves the state untouched.
    pub fn create_subscription_plan(
        &mut self,
        invoker: Address,
        amount: Amount,
        interval: u32,
        name: String,
    ) -> (r: Result<u32, Error>)
        requires
            old(self).wf(),
            old(self).plans@.len() < u32::MAX,
        ensures
            final(self).wf(),
            old(self).evolves_to(*final(self)),
            r is Ok <==> (old(self).spec_is_merchant(invoker) && amount.as_int() > 0 && interval
                > 0),
            !old(self).spec_is_merchant(invoker) ==> r == Err::<u32, Error>(Error::Unauthorized),
            old(self).spec_is_merchant(invoker) && amount.as_int() <= 0 ==> r == Err::<
                u32,
                Error,
            >(Error::InvalidAmount),
            old(self).spec_is_merchant(invoker) && amount.as_int() > 0 && interval == 0 ==> r
                == Err::<u32, Error>(Error::InvalidInterval),
            r is Err ==> *final(self) == *old(self),
            r matches Ok(id) ==> {
                &&& id == old(self).plans@.len() + 1
                &&& forall|j: u32| #[trigger] old(self).plan_id_valid(j) ==> j < id
                &&& final(self).plans@ == old(self).plans@.push(
                    (SubscriptionPlan { merchant: invoker, amount, interval, active: true, name }),
                )
            },
            final(self).merchants@ == old(self).merchants@,
            final(self).links@ == old(self).links@,
            final(self).subs@ == old(self).subs@,
    {
        if !self.is_merchant(&invoker) {
            return Err(Error::Unauthorized);
        }
        if !amount.is_positive() {
            return Err(Error::InvalidAmount);
        }
        if interval == 0 {
            return Err(Error::InvalidInterval);
        }
        let id: u32 = (self.plans.len() as u32) + 1;
        self.plans.push(SubscriptionPlan { merchant: invoker, amount, interval, active: true, name });
        Ok(id)
    }

    /// Turn the one-way latch of plan `plan_id`: only the plan's own
    /// merchant may, and only once — the same failure modes as link
    /// deactivation. Existing subscriptions to the plan are not touched;
    /// they merely stop being billable while the plan is inactive.
    pub fn deactivate_subscription_plan(&mut self, invoker: Address, plan_id: u32) -> (r: Result<
        (),
        Error,
    >)
        requires
            old(self).wf(),
        ensures
            final(self).wf(),
            old(self).evolves_to(*final(self)),
            !old(self).plan_id_valid(plan_id) ==> r == Err::<(), Error>(Error::NotFound),
            old(self).plan_id_valid(plan_id) && old(self).spec_plan(plan_id).merchant != invoker
                ==> r == Err::<(), Error>(Error::Unauthorized),
            old(self).plan_id_valid(plan_id) && old(self).spec_plan(plan_id).merchant == invoker
                && !old(self).spec_plan(plan_id).active ==> r == Err::<(), Error>(
                Error::AlreadyInactive,
            ),
            r is Ok <==> (old(self).plan_id_valid(plan_id) && old(self).spec_plan(
                plan_id,
            ).merchant == invoker && old(self).spec_plan(plan_id).active),
            r is Err ==> *final(self) == *old(self),
            r is Ok ==> final(self).plans@ == old(self).plans@.update(
                plan_id - 1,
                (SubscriptionPlan { active: false, ..old(self).spec_plan(plan_id) }),
            ),
            final(self).merchants@ == old(self).merchants@,
            final(self).links@ == old(self).links@,
            final(self).subs@ == old(self).subs@,
    {
        if plan_id == 0 || plan_id as usize > self.plans.len() {
            return Err(Error::NotFound);
        }
        let idx = (plan_id - 1) as usize;
        if self.plans[idx].merchant != invoker {
            return Err(Error::Unauthorized);
        }
        if !self.plans[idx].active {
            return Err(Error::AlreadyInactive);
        }
        self.plans[idx].active = false;
        Ok(())
    }

    /// Whether subscription `id` is due for billing at time `now`: its
    /// plan's interval has elapsed since the last successful billing.
    pub open spec fn sub_due(self, id: u32, now: u64) -> bool
        recommends
            self.sub_id_valid(id),
            self.plan_id_valid(self.spec_sub(id).plan_id),
    {
        now >= self.spec_sub(id).last_payment + self.spec_plan(self.spec_sub(id).plan_id).interval
    }

    /// Bind `invoker` — authenticated by the host as the future subscriber
    /// — to plan `plan_id` at ledger time `now`. Fails `NotFound` if the
    /// plan id was never issued and `InactivePlan` if the plan has been
    /// deactivated; a failed call leaves the state untouched and requests
    /// no transfer. On success the subscription is stored active under the
    /// next subscription id — strictly greater than every subscription id
    /// issued before — with `start_time` and `last_payment` both `now`,
    /// and exactly one transfer of the plan's amount from the subscriber
    /// to the plan's merchant is requested: the first period is always
    /// charged upfront, at call time.
    pub fn subscribe(&mut self, invoker: Address, plan_id: u32, now: u64) -> (r: Result<
        (u32, TransferRequest),
        Error,
    >)
        requires
            old(self).wf(),
            old(self).subs@.len() < u32::MAX,
        ensures
            final(self).wf(),
            old(self).evolves_to(*final(self)),
            !old(self).plan_id_valid(plan_id) ==> r == Err::<(u32, TransferRequest), Error>(
                Error::NotFound,
            ),
            old(self).plan_id_valid(plan_id) && !old(self).spec_plan(plan_id).active ==> r
                == Err::<(u32, TransferRequest), Error>(Error::InactivePlan),
            r is Ok <==> (old(self).plan_id_valid(plan_id) && old(self).spec_plan(plan_id).active),
            r is Err ==> *final(self) == *old(self),
            r matches Ok((id, t)) ==> {
                &&& id == old(self).subs@.len() + 1
                &&& forall|j: u32| #[trigger] old(self).sub_id_valid(j) ==> j < id
                &&& t == (TransferRequest {
                    from: invoker,
                    to: old(self).spec_plan(plan_id).merchant,
                    amount: old(self).spec_plan(plan_id).amount,
                })
                &&& final(self).subs@ == old(self).subs@.push(
                    (Subscription {
                        subscriber: invoker,
                        plan_id,
                        start_time: now,
                        last_payment: now,
                        active: true,
                    }),
                )
            },
            final(self).merchants@ == old(self).merchants@,
            final(self).links@ == old(self).links@,
            final(self).plans@ == old(self).plans@,
    {
        if plan_id == 0 || plan_id as usize > self.plans.len() {
            return Err(Error::NotFound);
        }
        let plan_idx = (plan_id - 1) as usize;
        if !self.plans[plan_idx].active {
            return Err(Error::InactivePlan);
        }
        let id: u32 = (self.subs.len() as u32) + 1;
        self.subs.push(
            Subscription {
                subscriber: invoker,
                plan_id,
                start_time: now,
                last_payment: now,
                active: true,
            },
        );
        Ok(
            (
                id,
                TransferRequest {
                    from: invoker,
                    to: self.plans[plan_idx].merchant,
                    amount: self.plans[plan_idx].amount,
                },
            ),
        )
    }

    /// Bill the subscription addressed by `(subscriber, subscription_id)`
    /// at ledger time `now`. Any authenticated `invoker` may drive the
    /// billing — recurring payments have no internal trigger, and the
    /// funds can only move from the subscriber to the plan's merchant.
    /// Fails `NotFound` if the pair names no subscription,
    /// `InactiveSubscription` or `InactivePlan` if either latch has been
    /// turned, and `NotDue` while `now` is still short of the last billing
    /// plus the plan's interval; a failed call leaves the state untouched
    /// and requests no transfer. On success exactly one transfer of the
    /// plan's amount from the subscriber to the plan's merchant is
    /// requested and `last_payment` becomes `now`.
    #[allow(unused_variables)]
    pub fn process_subscription_payment(
        &mut self,
        invoker: Address,
        subscriber: Address,
        subscription_id: u32,
        now: u64,
    ) -> (r: Result<TransferRequest, Error>)
        requires
            old(self).wf(),
        ensures
            final(self).wf(),
            old(self).evolves_to(*final(self)),
            !old(self).sub_key_valid(subscriber, subscription_id) ==> r == Err::<
                TransferRequest,
                Error,
            >(Error::NotFound),
            old(self).sub_key_valid(subscriber, subscription_id) && !old(self).spec_sub(
                subscription_id,
            ).active ==> r == Err::<TransferRequest, Error>(Error::InactiveSubscription),
            old(self).sub_key_valid(subscriber, subscription_id) && old(self).spec_sub(
                subscription_id,
            ).active && !old(self).spec_plan(old(self).spec_sub(subscription_id).plan_id).active
                ==> r == Err::<TransferRequest, Error>(Error::InactivePlan),
            old(self).sub_key_valid(subscriber, subscription_id) && old(self).spec_sub(
                subscription_id,
            ).active && old(self).spec_plan(old(self).spec_sub(subscription_id).plan_id).active
                && !old(self).sub_due(subscription_id, now) ==> r == Err::<TransferRequest, Error>(
                Error::NotDue,
            ),
            old(self).sub_key_valid(subscriber, subscription_id) && old(self).spec_sub(
                subscription_id,
            ).active && old(self).spec_plan(old(self).spec_sub(subscription_id).plan_id).active
                && old(self).sub_due(subscription_id, now) ==> {
                &&& r == Ok::<TransferRequest, Error>(
                    (TransferRequest {
                        from: subscriber,
                        to: old(self).spec_plan(old(self).spec_sub(subscription_id).plan_id).merchant,
                        amount: old(self).spec_plan(old(self).spec_sub(subscription_id).plan_id).amount,
                    }),
                )
                &&& final(self).subs@ == old(self).subs@.update(
                    subscription_id - 1,
                    (Subscription { last_payment: now, ..old(self).spec_sub(subscription_id) }),
                )
            },
            r is Ok <==> (old(self).sub_key_valid(subscriber, subscription_id) && old(
                self,
            ).spec_sub(subscription_id).active && old(self).spec_plan(
                old(self).spec_sub(subscription_id).plan_id,
            ).active && old(self).sub_due(subscription_id, now)),
            r is Err ==> *final(self) == *old(self),
            final(self).merchants@ == old(self).merchants@,
            final(self).links@ == old(self).links@,
            final(self).plans@ == old(self).plans@,
    {
        if subscription_id == 0 || subscription_id as usize > self.subs.len() {
            return Err(Error::NotFound);
        }
        let idx = (subscription_id - 1) as usize;
        if self.subs[idx].subscriber != subscriber {
            return Err(Error::NotFound);
        }
        if !self.subs[idx].active {
            return Err(Error::InactiveSubscription);
        }
        let plan_idx = (self.subs[idx].plan_id - 1) as usize;
        if !self.plans[plan_idx].active {
            return Err(Error::InactivePlan);
        }
        let last = self.subs[idx].last_payment;
        let interval = self.plans[plan_idx].interval;
        if (now as u128) < (last as u128) + (interval as u128) {
            return Err(Error::NotDue);
        }
        self.subs[idx].last_payment = now;
        Ok(
            TransferRequest {
                from: subscriber,
                to: self.plans[plan_idx].merchant,
                amount: self.plans[plan_idx].amount,
            },
        )
    }

    /// Turn the one-way latch of subscription `subscription_id`: the
    /// subscription's own subscriber may, and so may any registered
    /// merchant — not only the plan's. Fails `NotFound` for an id never
    /// issued, `AlreadyInactive` the second time, `Unauthorized` for any
    /// other caller; a failed call leaves the state untouched. There is no
    /// refund: cancellation only stops future billing.
    pub fn cancel_subscription(&mut self, invoker: Address, subscription_id: u32) -> (r: Result<
        (),
        Error,
    >)
        requires
            old(self).wf(),
        ensures
            final(self).wf(),
            old(self).evolves_to(*final(self)),
            !old(self).sub_id_valid(subscription_id) ==> r == Err::<(), Error>(Error::NotFound),
            old(self).sub_id_valid(subscription_id) && !old(self).spec_sub(subscription_id).active
                ==> r == Err::<(), Error>(Error::AlreadyInactive),
            old(self).sub_id_valid(subscription_id) && old(self).spec_sub(subscription_id).active
                && invoker != old(self).spec_sub(subscription_id).subscriber && !old(
                self,
            ).spec_is_merchant(invoker) ==> r == Err::<(), Error>(Error::Unauthorized),
            r is Ok <==> (old(self).sub_id_valid(subscription_id) && old(self).spec_sub(
                subscription_id,
            ).active && (invoker == old(self).spec_sub(subscription_id).subscriber || old(
                self,
            ).spec_is_merchant(invoker))),
            r is Err ==> *final(self) == *old(self),
            r is Ok ==> final(self).subs@ == old(self).subs@.update(
                subscription_id - 1,
                (Subscription { active: false, ..old(self).spec_sub(subscription_id) }),
            ),
            final(self).merchants@ == old(self).merchants@,
            final(self).links@ == old(self).links@,
            final(self).plans@ == old(self).plans@,
    {
        if subscription_id == 0 || subscription_id as usize > self.subs.len() {
            return Err(Error::NotFound);
        }
        let idx = (subscription_id - 1) as usize;
        if !self.subs[idx].active {
            return Err(Error::AlreadyInactive);
        }
        if self.subs[idx].subscriber != invoker && !self.is_merchant(&invoker) {
            return Err(Error::Unauthorized);
        }
        self.subs[idx].active = false;
        Ok(())
    }
}

} // verus!
