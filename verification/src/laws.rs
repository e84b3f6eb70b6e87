use vstd::prelude::*;

use crate::gateway::link_evolves;
use crate::gateway::plan_evolves;
use crate::gateway::sub_evolves;
use crate::gateway::PaymentGateway;

verus! {

/// Evolution composes: what holds of every single operation — each ensures
/// `old(self).evolves_to(*final(self))` — therefore holds of any sequence
/// of operations. In particular every `active` latch stays monotonic and
/// every entity's identity stays immutable across a whole history.
pub proof fn lemma_evolves_transitive(a: PaymentGateway, b: PaymentGateway, c: PaymentGateway)
    requires
        a.evolves_to(b),
        b.evolves_to(c),
    ensures
        a.evolves_to(c),
{
    assert forall|i: int| 0 <= i < a.links@.len() implies link_evolves(
        a.links@[i],
        #[trigger] c.links@[i],
    ) by {
        assert(link_evolves(a.links@[i], b.links@[i]));
        assert(link_evolves(b.links@[i], c.links@[i]));
    }
    assert forall|i: int| 0 <= i < a.plans@.len() implies plan_evolves(
        a.plans@[i],
        #[trigger] c.plans@[i],
    ) by {
        assert(plan_evolves(a.plans@[i], b.plans@[i]));
        assert(plan_evolves(b.plans@[i], c.plans@[i]));
    }
    assert forall|i: int| 0 <= i < a.subs@.len() implies sub_evolves(
        a.subs@[i],
        #[trigger] c.subs@[i],
    ) by {
        assert(sub_evolves(a.subs@[i], b.subs@[i]));
        assert(sub_evolves(b.subs@[i], c.subs@[i]));
    }
}

/// A payment link, once issued, is never un-issued and never re-issued:
/// however the gateway evolves, the id still names a link with the same
/// merchant, amount, and description — and its `active` flag is monotonic:
/// once false, nothing ever sets it back to true.
pub proof fn lemma_issued_link_persists(a: PaymentGateway, b: PaymentGateway, id: u32)
    requires
        a.evolves_to(b),
        a.link_id_valid(id),
    ensures
        b.link_id_valid(id),
        b.spec_link(id).merchant == a.spec_link(id).merchant,
        b.spec_link(id).amount == a.spec_link(id).amount,
        b.spec_link(id).description@ == a.spec_link(id).description@,
        !a.spec_link(id).active ==> !b.spec_link(id).active,
{
    assert(link_evolves(a.links@[id - 1], b.links@[id - 1]));
}

/// A subscription plan, once issued, persists with its identity — merchant,
/// amount, interval, name — and its `active` flag is monotonic.
pub proof fn lemma_issued_plan_persists(a: PaymentGateway, b: PaymentGateway, id: u32)
    requires
        a.evolves_to(b),
        a.plan_id_valid(id),
    ensures
        b.plan_id_valid(id),
        b.spec_plan(id).merchant == a.spec_plan(id).merchant,
        b.spec_plan(id).amount == a.spec_plan(id).amount,
        b.spec_plan(id).interval == a.spec_plan(id).interval,
        b.spec_plan(id).name@ == a.spec_plan(id).name@,
        !a.spec_plan(id).active ==> !b.spec_plan(id).active,
{
    assert(plan_evolves(a.plans@[id - 1], b.plans@[id - 1]));
}

/// A subscription, once issued, persists with its identity — subscriber,
/// plan, start time — its `last_payment` never decreases, and its `active`
/// flag is monotonic.
pub proof fn lemma_issued_subscription_persists(a: PaymentGateway, b: PaymentGateway, id: u32)
    requires
        a.evolves_to(b),
        a.sub_id_valid(id),
    ensures
        b.sub_id_valid(id),
        b.spec_sub(id).subscriber == a.spec_sub(id).subscriber,
        b.spec_sub(id).plan_id == a.spec_sub(id).plan_id,
        b.spec_sub(id).start_time == a.spec_sub(id).start_time,
        b.spec_sub(id).last_payment >= a.spec_sub(id).last_payment,
        !a.spec_sub(id).active ==> !b.spec_sub(id).active,
{
    assert(sub_evolves(a.subs@[id - 1], b.subs@[id - 1]));
}

} // verus!
