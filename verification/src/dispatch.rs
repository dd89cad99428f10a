//! The dispatch engine: a registry of subscriptions, and the delivery of each
//! published message to the handlers of the subscriptions that it reaches.
//!
//! Subscriptions are kept in the order in which they were made, and a
//! published message is handed to the matching handlers in that order, each
//! of them once. Nothing is stored for later: a message reaches the
//! subscriptions that exist when it is published, and no others.

use vstd::prelude::*;
use crate::callback::Callback;
use crate::serial::{decimal_text, Serial};
use crate::topic::{reaches, Route, RoutingKey};

verus! {

/// One subscription: a routing key and a handler, with the number under
/// which the registry knows the pair.
#[verifier::reject_recursive_types(M)]
pub struct Registration<M> {
    /// The number under which the subscription can be cancelled.
    pub handle: nat,
    /// The stream that the subscription listens to.
    pub route: Route,
    /// The handler that is told of the messages.
    pub handler: Callback<M>,
}

/// What a [`Dispatcher`] holds: its subscriptions, oldest first, and the
/// number of subscriptions ever made.
#[verifier::reject_recursive_types(M)]
pub struct Registry<M> {
    pub subscriptions: Seq<Registration<M>>,
    pub issued: nat,
}

/// Handles are given out in increasing order and never twice.
pub open spec fn orderly<M>(registry: Registry<M>) -> bool {
    &&& forall|i: int|
        0 <= i < registry.subscriptions.len() ==> (#[trigger] registry.subscriptions[i]).handle
            < registry.issued
    &&& forall|i: int, j: int|
        0 <= i < j < registry.subscriptions.len() ==> (#[trigger] registry.subscriptions[i]).handle
            < (#[trigger] registry.subscriptions[j]).handle
}

/// The handles of the subscriptions that a message published under
/// `published` reaches, oldest subscription first.
pub open spec fn deliveries<M>(subscriptions: Seq<Registration<M>>, published: Route) -> Seq<nat>
    decreases subscriptions.len(),
{
    if subscriptions.len() == 0 {
        Seq::empty()
    } else {
        let earlier = deliveries(subscriptions.drop_last(), published);
        if reaches(published, subscriptions.last().route) {
            earlier.push(subscriptions.last().handle)
        } else {
            earlier
        }
    }
}

/// The subscriptions that are left when the one with the given handle is
/// taken out.
pub open spec fn without<M>(subscriptions: Seq<Registration<M>>, handle: nat) -> Seq<
    Registration<M>,
>
    decreases subscriptions.len(),
{
    if subscriptions.len() == 0 {
        Seq::empty()
    } else {
        let earlier = without(subscriptions.drop_last(), handle);
        if subscriptions.last().handle == handle {
            earlier
        } else {
            earlier.push(subscriptions.last())
        }
    }
}

/// Whether a subscription with the given handle is registered.
pub open spec fn registered<M>(subscriptions: Seq<Registration<M>>, handle: nat) -> bool {
    exists|i: int| 0 <= i < subscriptions.len() && (#[trigger] subscriptions[i]).handle == handle
}

/// How many times a handle occurs in a list of deliveries.
pub open spec fn times_delivered(delivered: Seq<nat>, handle: nat) -> nat
    decreases delivered.len(),
{
    if delivered.len() == 0 {
        0
    } else {
        times_delivered(delivered.drop_last(), handle) + if delivered.last() == handle {
            1nat
        } else {
            0nat
        }
    }
}

/// The ticket that a subscriber gets, by which it can cancel its
/// subscription.
#[derive(Debug, PartialEq, Eq)]
pub struct SubscriptionHandle {
    serial: Serial,
}

impl View for SubscriptionHandle {
    type V = nat;

    closed spec fn view(&self) -> nat {
        self.serial@
    }
}

impl SubscriptionHandle {
    /// A second copy of the handle.
    pub fn duplicate(&self) -> (copy: SubscriptionHandle)
        ensures
            copy@ == self@,
    {
        SubscriptionHandle { serial: self.serial.duplicate() }
    }

    /// Whether two handles stand for the same subscription.
    pub fn equals(&self, other: &SubscriptionHandle) -> (same: bool)
        ensures
            same == (self@ == other@),
    {
        self.serial.equals(&other.serial)
    }

    /// The handle's number, in decimal notation.
    pub fn to_text(&self) -> (text: String)
        ensures
            text@ == decimal_text(self@),
    {
        self.serial.to_text()
    }
}

/// The handles that a list of tickets stands for.
pub open spec fn handles_of(tickets: Seq<SubscriptionHandle>) -> Seq<nat> {
    Seq::new(tickets.len(), |i: int| tickets[i]@)
}

#[verifier::reject_recursive_types(M)]
struct Subscription<M> {
    handle: Serial,
    key: RoutingKey,
    handler: Callback<M>,
}

/// The dispatch engine for messages of type `M`.
#[verifier::reject_recursive_types(M)]
pub struct Dispatcher<M> {
    subscriptions: Vec<Subscription<M>>,
    issued: Serial,
}

impl<M> View for Dispatcher<M> {
    type V = Registry<M>;

    closed spec fn view(&self) -> Registry<M> {
        Registry {
            subscriptions: Seq::new(
                self.subscriptions@.len(),
                |i: int|
                    Registration {
                        handle: self.subscriptions@[i].handle@,
                        route: self.subscriptions@[i].key@,
                        handler: self.subscriptions@[i].handler,
                    },
            ),
            issued: self.issued@,
        }
    }
}

/// Whether a registry has never had a subscription.
pub open spec fn unused<M>(registry: Registry<M>) -> bool {
    registry.subscriptions.len() == 0 && registry.issued == 0
}

/// Whether every subscription that a message published under `route`
/// reaches has had its handler called on the message.
pub open spec fn told<M>(registry: Registry<M>, route: Route, message: &M) -> bool {
    forall|i: int|
        0 <= i < registry.subscriptions.len() && reaches(
            route,
            (#[trigger] registry.subscriptions[i]).route,
        ) ==> registry.subscriptions[i].handler.promises(message)
}

/// The registry with one more subscription, made last.
pub open spec fn joined<M>(registry: Registry<M>, route: Route, handler: Callback<M>) -> Registry<
    M,
> {
    Registry {
        subscriptions: registry.subscriptions.push(
            Registration { handle: registry.issued, route, handler },
        ),
        issued: registry.issued + 1,
    }
}

proof fn lemma_deliveries_step<M>(subscriptions: Seq<Registration<M>>, published: Route, i: int)
    requires
        0 <= i < subscriptions.len(),
    ensures
        deliveries(subscriptions.take(i + 1), published) == if reaches(
            published,
            subscriptions[i].route,
        ) {
            deliveries(subscriptions.take(i), published).push(subscriptions[i].handle)
        } else {
            deliveries(subscriptions.take(i), published)
        },
{
    assert(subscriptions.take(i + 1).drop_last() =~= subscriptions.take(i));
}

/// A handle that was never given out, or is larger than every handle
/// registered, is not among the deliveries.
proof fn lemma_deliveries_bounded<M>(
    subscriptions: Seq<Registration<M>>,
    published: Route,
    bound: nat,
)
    requires
        forall|i: int|
            0 <= i < subscriptions.len() ==> (#[trigger] subscriptions[i]).handle < bound,
    ensures
        forall|k: int|
            0 <= k < deliveries(subscriptions, published).len() ==> (#[trigger] deliveries(
                subscriptions,
                published,
            )[k]) < bound,
    decreases subscriptions.len(),
{
    if subscriptions.len() > 0 {
        let earlier = subscriptions.drop_last();
        assert forall|i: int| 0 <= i < earlier.len() implies (#[trigger] earlier[i]).handle
            < bound by {
            assert(earlier[i] == subscriptions[i]);
        }
        lemma_deliveries_bounded(earlier, published, bound);
        assert(subscriptions.last() == subscriptions[subscriptions.len() - 1]);
        let before = deliveries(earlier, published);
        let all = deliveries(subscriptions, published);
        assert forall|k: int| 0 <= k < all.len() implies (#[trigger] all[k]) < bound by {
            if k < before.len() {
                assert(all[k] == before[k]);
            }
        }
    }
}

proof fn lemma_times_delivered_bounded(delivered: Seq<nat>, handle: nat)
    requires
        forall|k: int| 0 <= k < delivered.len() ==> (#[trigger] delivered[k]) < handle,
    ensures
        times_delivered(delivered, handle) == 0,
    decreases delivered.len(),
{
    if delivered.len() > 0 {
        let earlier = delivered.drop_last();
        assert forall|k: int| 0 <= k < earlier.len() implies (#[trigger] earlier[k]) < handle by {
            assert(earlier[k] == delivered[k]);
        }
        lemma_times_delivered_bounded(earlier, handle);
        assert(delivered.last() == delivered[delivered.len() - 1]);
    }
}

/// For any published message and any subscription, the subscription's
/// handler is called once if the message reaches the subscription, and not
/// at all if it does not.
pub proof fn lemma_delivered_once<M>(registry: Registry<M>, published: Route, i: int)
    requires
        orderly(registry),
        0 <= i < registry.subscriptions.len(),
    ensures
        times_delivered(
            deliveries(registry.subscriptions, published),
            registry.subscriptions[i].handle,
        ) == if reaches(published, registry.subscriptions[i].route) {
            1nat
        } else {
            0nat
        },
    decreases registry.subscriptions.len(),
{
    let subscriptions = registry.subscriptions;
    let earlier = subscriptions.drop_last();
    let handle = subscriptions[i].handle;
    let shorter = Registry { subscriptions: earlier, issued: registry.issued };
    assert forall|a: int| 0 <= a < earlier.len() implies (#[trigger] earlier[a])
        == subscriptions[a] by {}
    assert(orderly(shorter));
    assert(subscriptions.last() == subscriptions[subscriptions.len() - 1]);
    let before = deliveries(earlier, published);
    if i == subscriptions.len() - 1 {
        assert forall|a: int| 0 <= a < earlier.len() implies (#[trigger] earlier[a]).handle
            < handle by {
            assert(earlier[a] == subscriptions[a]);
        }
        lemma_deliveries_bounded(earlier, published, handle);
        lemma_times_delivered_bounded(before, handle);
        if reaches(published, subscriptions.last().route) {
            assert(before.push(handle).drop_last() =~= before);
        }
    } else {
        assert(earlier[i] == subscriptions[i]);
        lemma_delivered_once(shorter, published, i);
        assert(subscriptions[i].handle < subscriptions.last().handle);
        if reaches(published, subscriptions.last().route) {
            assert(before.push(subscriptions.last().handle).drop_last() =~= before);
        }
    }
}

/// The handlers that a message reaches are called in the order in which
/// they subscribed.
pub proof fn lemma_delivered_in_order<M>(registry: Registry<M>, published: Route)
    requires
        orderly(registry),
    ensures
        forall|a: int, b: int|
            0 <= a < b < deliveries(registry.subscriptions, published).len() ==> deliveries(
                registry.subscriptions,
                published,
            )[a] < deliveries(registry.subscriptions, published)[b],
    decreases registry.subscriptions.len(),
{
    let subscriptions = registry.subscriptions;
    if subscriptions.len() > 0 {
        let earlier = subscriptions.drop_last();
        let last = subscriptions.last();
        let shorter = Registry { subscriptions: earlier, issued: registry.issued };
        assert forall|a: int| 0 <= a < earlier.len() implies (#[trigger] earlier[a])
            == subscriptions[a] by {}
        assert(orderly(shorter));
        assert(last == subscriptions[subscriptions.len() - 1]);
        lemma_delivered_in_order(shorter, published);
        assert forall|a: int| 0 <= a < earlier.len() implies (#[trigger] earlier[a]).handle
            < last.handle by {
            assert(earlier[a] == subscriptions[a]);
        }
        lemma_deliveries_bounded(earlier, published, last.handle);
        let before = deliveries(earlier, published);
        let all = deliveries(subscriptions, published);
        assert forall|a: int, b: int| 0 <= a < b < all.len() implies all[a] < all[b] by {
            if b < before.len() {
                assert(all[a] == before[a] && all[b] == before[b]);
            } else {
                assert(all[a] == before[a]);
            }
        }
    }
}

/// A message published for one site is never delivered to a subscription
/// that is narrowed to another site.
pub proof fn lemma_site_isolation<M>(registry: Registry<M>, published: Route, i: int)
    requires
        orderly(registry),
        0 <= i < registry.subscriptions.len(),
        registry.subscriptions[i].route.site is Some,
        registry.subscriptions[i].route.site != published.site,
    ensures
        times_delivered(
            deliveries(registry.subscriptions, published),
            registry.subscriptions[i].handle,
        ) == 0,
{
    lemma_delivered_once(registry, published, i);
}

/// A new subscription adds to the subscriptions and replaces none: a
/// message reaches the earlier subscriptions as before, and the new one
/// after them if it reaches it at all.
pub proof fn lemma_subscribe_adds<M>(
    registry: Registry<M>,
    route: Route,
    handler: Callback<M>,
    published: Route,
)
    ensures
        deliveries(joined(registry, route, handler).subscriptions, published) == if reaches(
            published,
            route,
        ) {
            deliveries(registry.subscriptions, published).push(registry.issued)
        } else {
            deliveries(registry.subscriptions, published)
        },
{
    let after = joined(registry, route, handler).subscriptions;
    assert(after.drop_last() =~= registry.subscriptions);
}

/// Taking out a handle that is not registered changes nothing.
pub proof fn lemma_without_absent<M>(subscriptions: Seq<Registration<M>>, handle: nat)
    requires
        !registered(subscriptions, handle),
    ensures
        without(subscriptions, handle) == subscriptions,
    decreases subscriptions.len(),
{
    if subscriptions.len() > 0 {
        let earlier = subscriptions.drop_last();
        assert(subscriptions.last() == subscriptions[subscriptions.len() - 1]);
        assert forall|i: int| 0 <= i < earlier.len() implies (#[trigger] earlier[i]).handle
            != handle by {
            assert(earlier[i] == subscriptions[i]);
        }
        lemma_without_absent(earlier, handle);
        assert(earlier.push(subscriptions.last()) =~= subscriptions);
    }
}

/// Once a handle is taken out, it is not registered any more.
pub proof fn lemma_without_removes<M>(subscriptions: Seq<Registration<M>>, handle: nat)
    ensures
        !registered(without(subscriptions, handle), handle),
        without(subscriptions, handle).len() <= subscriptions.len(),
        forall|k: int|
            0 <= k < without(subscriptions, handle).len() ==> exists|i: int|
                0 <= i < subscriptions.len() && subscriptions[i] == #[trigger] without(
                    subscriptions,
                    handle,
                )[k],
    decreases subscriptions.len(),
{
    if subscriptions.len() > 0 {
        let earlier = subscriptions.drop_last();
        lemma_without_removes(earlier, handle);
        let kept = without(earlier, handle);
        let left = without(subscriptions, handle);
        assert(subscriptions.last() == subscriptions[subscriptions.len() - 1]);
        assert forall|k: int| 0 <= k < left.len() implies exists|i: int|
            0 <= i < subscriptions.len() && subscriptions[i] == #[trigger] left[k] by {
            if k < kept.len() {
                assert(left[k] == kept[k]);
                let i = choose|i: int| 0 <= i < earlier.len() && earlier[i] == kept[k];
                assert(subscriptions[i] == earlier[i]);
            } else {
                assert(left[k] == subscriptions[subscriptions.len() - 1]);
            }
        }
        assert forall|k: int| 0 <= k < left.len() implies (#[trigger] left[k]).handle
            != handle by {
            if k < kept.len() {
                assert(left[k] == kept[k]);
            }
        }
    }
}

/// To cancel a subscription twice is to cancel it once.
pub proof fn lemma_unsubscribe_idempotent<M>(subscriptions: Seq<Registration<M>>, handle: nat)
    ensures
        without(without(subscriptions, handle), handle) == without(subscriptions, handle),
{
    lemma_without_removes(subscriptions, handle);
    lemma_without_absent(without(subscriptions, handle), handle);
}

/// Where handles are distinct, taking out the handle of the subscription at
/// position `i` removes that subscription and leaves the others in place.
proof fn lemma_without_at<M>(subscriptions: Seq<Registration<M>>, i: int)
    requires
        0 <= i < subscriptions.len(),
        forall|a: int, b: int|
            0 <= a < b < subscriptions.len() ==> (#[trigger] subscriptions[a]).handle != (
            #[trigger] subscriptions[b]).handle,
    ensures
        without(subscriptions, subscriptions[i].handle) == subscriptions.remove(i),
    decreases subscriptions.len(),
{
    let handle = subscriptions[i].handle;
    let earlier = subscriptions.drop_last();
    assert(subscriptions.last() == subscriptions[subscriptions.len() - 1]);
    assert forall|a: int| 0 <= a < earlier.len() implies (#[trigger] earlier[a])
        == subscriptions[a] by {}
    if i == subscriptions.len() - 1 {
        assert(!registered(earlier, handle)) by {
            assert forall|a: int| 0 <= a < earlier.len() implies (#[trigger] earlier[a]).handle
                != handle by {
                assert(subscriptions[a].handle != subscriptions[i].handle);
            }
        }
        lemma_without_absent(earlier, handle);
        assert(subscriptions.remove(i) =~= earlier);
    } else {
        assert(earlier[i] == subscriptions[i]);
        assert forall|a: int, b: int| 0 <= a < b < earlier.len() implies (
        #[trigger] earlier[a]).handle != (#[trigger] earlier[b]).handle by {
            assert(subscriptions[a].handle != subscriptions[b].handle);
        }
        lemma_without_at(earlier, i);
        assert(subscriptions[i].handle != subscriptions[subscriptions.len() - 1].handle);
        assert(subscriptions.remove(i) =~= earlier.remove(i).push(subscriptions.last()));
    }
}

/// To cancel a subscription changes nothing for the other subscriptions: a
/// message reaches them as before, in the same order.
pub proof fn lemma_unsubscribe_spares_others<M>(
    subscriptions: Seq<Registration<M>>,
    handle: nat,
    published: Route,
    other: nat,
)
    requires
        other != handle,
    ensures
        times_delivered(deliveries(without(subscriptions, handle), published), other)
            == times_delivered(deliveries(subscriptions, published), other),
    decreases subscriptions.len(),
{
    if subscriptions.len() > 0 {
        let earlier = subscriptions.drop_last();
        let last = subscriptions.last();
        lemma_unsubscribe_spares_others(earlier, handle, published, other);
        let before = deliveries(earlier, published);
        if reaches(published, last.route) {
            assert(before.push(last.handle).drop_last() =~= before);
        }
        if last.handle != handle {
            let kept = without(earlier, handle);
            assert(kept.push(last).drop_last() =~= kept);
            if reaches(published, last.route) {
                let kept_before = deliveries(kept, published);
                assert(kept_before.push(last.handle).drop_last() =~= kept_before);
            }
        }
    }
}

impl<M> Dispatcher<M> {
    #[verifier::type_invariant]
    spec fn well_formed(self) -> bool {
        &&& forall|i: int|
            0 <= i < self.subscriptions@.len() ==> (#[trigger] self.subscriptions@[i]).handle@
                < self.issued@
        &&& forall|i: int, j: int|
            0 <= i < j < self.subscriptions@.len() ==> (#[trigger] self.subscriptions@[i]).handle@
                < (#[trigger] self.subscriptions@[j]).handle@
    }

    /// A dispatcher without subscriptions.
    pub fn new() -> (dispatcher: Dispatcher<M>)
        ensures
            unused(dispatcher@),
            orderly(dispatcher@),
    {
        Dispatcher { subscriptions: Vec::new(), issued: Serial::zero() }
    }

    /// The number of subscriptions that are registered.
    pub fn subscription_count(&self) -> (count: usize)
        ensures
            count == self@.subscriptions.len(),
    {
        self.subscriptions.len()
    }

    /// Registers a handler for the messages that are published from now on
    /// and reach `key`. Earlier subscriptions stay as they are, those to the
    /// same key too.
    pub fn subscribe(&mut self, key: RoutingKey, handler: Callback<M>) -> (handle:
        SubscriptionHandle)
        ensures
            handle@ == old(self)@.issued,
            final(self)@ == joined(old(self)@, key@, handler),
            !registered(old(self)@.subscriptions, handle@),
            orderly(final(self)@),
    {
        proof {
            use_type_invariant(&*self);
        }
        let ticket = self.issued.duplicate();
        let serial = self.issued.duplicate();
        let next = self.issued.successor();
        let ghost before = self@;
        let ghost route = key@;
        let mut subscriptions: Vec<Subscription<M>> = Vec::new();
        core::mem::swap(&mut self.subscriptions, &mut subscriptions);
        subscriptions.push(Subscription { handle: serial, key, handler });
        self.issued = next;
        core::mem::swap(&mut self.subscriptions, &mut subscriptions);
        proof {
            assert(self@.subscriptions =~= before.subscriptions.push(
                Registration { handle: ticket@, route, handler },
            ));
        }
        SubscriptionHandle { serial: ticket }
    }

    /// Cancels the subscription that `handle` stands for, and says whether
    /// there was one. The other subscriptions stay as they are, in their
    /// order. A handle whose subscription is gone already changes nothing.
    pub fn unsubscribe(&mut self, handle: &SubscriptionHandle) -> (removed: bool)
        ensures
            removed == registered(old(self)@.subscriptions, handle@),
            final(self)@.subscriptions == without(old(self)@.subscriptions, handle@),
            final(self)@.issued == old(self)@.issued,
            !registered(final(self)@.subscriptions, handle@),
            orderly(final(self)@),
    {
        proof {
            use_type_invariant(&*self);
            lemma_without_removes(self@.subscriptions, handle@);
        }
        let ghost before = self@;
        let mut i: usize = 0;
        while i < self.subscriptions.len()
            invariant
                i <= self.subscriptions@.len(),
                self@ == before,
                before == old(self)@,
                forall|j: int|
                    0 <= j < i ==> (#[trigger] before.subscriptions[j]).handle != handle@,
            decreases self.subscriptions@.len() - i,
        {
            if self.subscriptions[i].handle.equals(&handle.serial) {
                proof {
                    use_type_invariant(&*self);
                    assert(before.subscriptions[i as int].handle == handle@);
                    assert(registered(before.subscriptions, handle@));
                    assert forall|a: int, b: int|
                        0 <= a < b < before.subscriptions.len() implies (
                    #[trigger] before.subscriptions[a]).handle != (
                    #[trigger] before.subscriptions[b]).handle by {
                        assert(self.subscriptions@[a].handle@ < self.subscriptions@[b].handle@);
                    }
                    lemma_without_at(before.subscriptions, i as int);
                }
                let mut subscriptions: Vec<Subscription<M>> = Vec::new();
                core::mem::swap(&mut self.subscriptions, &mut subscriptions);
                let _ = subscriptions.remove(i);
                core::mem::swap(&mut self.subscriptions, &mut subscriptions);
                proof {
                    assert(self@.subscriptions =~= before.subscriptions.remove(i as int));
                }
                return true;
            }
            assert(before.subscriptions[i as int].handle == self.subscriptions@[i as int].handle@);
            i += 1;
        }
        proof {
            lemma_without_absent(before.subscriptions, handle@);
        }
        false
    }

    /// Hands `message` to the handler of every subscription that a message
    /// published under `key` reaches: each of them once, oldest subscription
    /// first. Returns the handles of those subscriptions, in the order in
    /// which their handlers were called: the handle of a subscription that
    /// the message reaches is in that list once, and no other handle is.
    pub fn publish(&self, key: &RoutingKey, message: &M) -> (delivered: Vec<SubscriptionHandle>)
        ensures
            orderly(self@),
            handles_of(delivered@) == deliveries(self@.subscriptions, key@),
            forall|i: int|
                0 <= i < self@.subscriptions.len() ==> times_delivered(
                    handles_of(delivered@),
                    (#[trigger] self@.subscriptions[i]).handle,
                ) == if reaches(key@, self@.subscriptions[i].route) {
                    1nat
                } else {
                    0nat
                },
            told(self@, key@, message),
    {
        let mut delivered: Vec<SubscriptionHandle> = Vec::new();
        let mut i: usize = 0;
        assert(self@.subscriptions.take(0) =~= Seq::<Registration<M>>::empty());
        while i < self.subscriptions.len()
            invariant
                i <= self.subscriptions@.len(),
                handles_of(delivered@) =~= deliveries(self@.subscriptions.take(i as int), key@),
                forall|j: int|
                    0 <= j < i && reaches(key@, (#[trigger] self@.subscriptions[j]).route)
                        ==> self@.subscriptions[j].handler.promises(message),
            decreases self.subscriptions@.len() - i,
        {
            let subscription = &self.subscriptions[i];
            proof {
                lemma_deliveries_step(self@.subscriptions, key@, i as int);
            }
            if key.delivers_to(&subscription.key) {
                subscription.handler.call(message);
                let ticket = SubscriptionHandle { serial: subscription.handle.duplicate() };
                let ghost earlier = delivered@;
                delivered.push(ticket);
                assert(handles_of(delivered@) =~= handles_of(earlier).push(ticket@));
            }
            i += 1;
        }
        proof {
            use_type_invariant(self);
            assert(self@.subscriptions.take(i as int) =~= self@.subscriptions);
            assert forall|j: int| 0 <= j < self@.subscriptions.len() implies times_delivered(
                handles_of(delivered@),
                (#[trigger] self@.subscriptions[j]).handle,
            ) == if reaches(key@, self@.subscriptions[j].route) {
                1nat
            } else {
                0nat
            } by {
                lemma_delivered_once(self@, key@, j);
            }
        }
        delivered
    }
}

} // verus!
