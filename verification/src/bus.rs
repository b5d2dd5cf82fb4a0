//! The event bus: a registry of subscribers keyed by event type.
//!
//! Heterogeneous event types share one bus. Instead of a type-erased
//! registry recovered by downcasts, the bus is keyed by each event type's
//! tag and holds one uniform subscriber handle type `S`; retrieval returns
//! exactly the handles registered for the requested type, so an event can
//! never be delivered to a subscriber of another type. The asynchronous
//! invocation of the handles is the caller's business: dispatching is
//! selecting the handles.

use vstd::prelude::*;

verus! {

/// An event type that can be routed over the bus, identified by a stable
/// tag.
pub trait Event: Sized {
    /// The tag of this event type.
    spec fn tag() -> Seq<char>;

    /// The tag of this event type, as a string.
    fn event_type() -> (r: String)
        ensures
            r@ == Self::tag(),
    ;
}

/// The subscribers registered under one event-type tag.
struct EventGroup<S> {
    event_type: String,
    subscribers: Vec<S>,
}

/// The registry: for each event-type tag, the ordered list of subscriber
/// handles registered for it.
pub struct EventBus<S> {
    groups: Vec<EventGroup<S>>,
}

/// The registry that a sequence of groups holds: later groups take
/// precedence, but a well-formed bus keeps the tags distinct.
spec fn groups_map<S>(gs: Seq<EventGroup<S>>) -> Map<Seq<char>, Seq<S>>
    decreases gs.len(),
{
    if gs.len() == 0 {
        Map::<Seq<char>, Seq<S>>::empty()
    } else {
        groups_map(gs.drop_last()).insert(gs.last().event_type@, gs.last().subscribers@)
    }
}

/// Whether all group tags differ.
spec fn tags_distinct<S>(gs: Seq<EventGroup<S>>) -> bool {
    forall|i: int, j: int|
        0 <= i < j < gs.len() ==> gs[i].event_type@ != gs[j].event_type@
}

/// Whether a group sequence is well-formed: distinct tags, and no group
/// without subscribers.
spec fn groups_wf<S>(gs: Seq<EventGroup<S>>) -> bool {
    &&& tags_distinct(gs)
    &&& forall|i: int| 0 <= i < gs.len() ==> #[trigger] gs[i].subscribers@.len() > 0
}

/// The subscribers registered under `tag` in registry `m`: none, if the tag
/// is unknown.
pub open spec fn bus_subscribers<S>(m: Map<Seq<char>, Seq<S>>, tag: Seq<char>) -> Seq<S> {
    if m.contains_key(tag) {
        m[tag]
    } else {
        Seq::<S>::empty()
    }
}

impl<S> View for EventBus<S> {
    type V = Map<Seq<char>, Seq<S>>;

    closed spec fn view(&self) -> Map<Seq<char>, Seq<S>> {
        groups_map(self.groups@)
    }
}

/// A tag absent from every group is absent from the registry.
proof fn lemma_absent_tag<S>(gs: Seq<EventGroup<S>>, tag: Seq<char>)
    requires
        forall|i: int| 0 <= i < gs.len() ==> gs[i].event_type@ != tag,
    ensures
        !groups_map(gs).contains_key(tag),
    decreases gs.len(),
{
    if gs.len() > 0 {
        lemma_absent_tag(gs.drop_last(), tag);
    }
}

/// With distinct tags, the group carrying a tag gives the registry's entry
/// for it.
proof fn lemma_present_tag<S>(gs: Seq<EventGroup<S>>, i: int)
    requires
        tags_distinct(gs),
        0 <= i < gs.len(),
    ensures
        groups_map(gs).contains_key(gs[i].event_type@),
        groups_map(gs)[gs[i].event_type@] == gs[i].subscribers@,
    decreases gs.len(),
{
    if i < gs.len() - 1 {
        lemma_present_tag(gs.drop_last(), i);
    }
}

/// Replacing one group's subscribers updates exactly that tag's entry.
proof fn lemma_update_group<S>(gs: Seq<EventGroup<S>>, i: int, g: EventGroup<S>)
    requires
        tags_distinct(gs),
        0 <= i < gs.len(),
        g.event_type@ == gs[i].event_type@,
    ensures
        groups_map(gs.update(i, g)) == groups_map(gs).insert(g.event_type@, g.subscribers@),
    decreases gs.len(),
{
    let updated = gs.update(i, g);
    assert(updated.last() == if i == gs.len() - 1 { g } else { gs.last() });
    if i == gs.len() - 1 {
        assert(updated.drop_last() =~= gs.drop_last());
        assert(groups_map(gs.update(i, g)) =~= groups_map(gs).insert(
            g.event_type@,
            g.subscribers@,
        ));
    } else {
        assert(updated.drop_last() =~= gs.drop_last().update(i, g));
        lemma_update_group(gs.drop_last(), i, g);
        lemma_present_tag(gs, i);
        assert(gs.last().event_type@ != g.event_type@);
        assert(groups_map(gs.update(i, g)) =~= groups_map(gs).insert(
            g.event_type@,
            g.subscribers@,
        ));
    }
}

/// Appending a group with a fresh tag adds exactly that tag's entry.
proof fn lemma_push_group<S>(gs: Seq<EventGroup<S>>, g: EventGroup<S>)
    ensures
        groups_map(gs.push(g)) == groups_map(gs).insert(g.event_type@, g.subscribers@),
{
    assert(gs.push(g).drop_last() =~= gs);
    assert(gs.push(g).last() == g);
}

/// The union of two registries: every tag known to either, with the
/// subscribers of the first followed by the subscribers of the second.
pub open spec fn merged_registry<S>(
    m1: Map<Seq<char>, Seq<S>>,
    m2: Map<Seq<char>, Seq<S>>,
) -> Map<Seq<char>, Seq<S>> {
    Map::new(
        |t: Seq<char>| m1.contains_key(t) || m2.contains_key(t),
        |t: Seq<char>| bus_subscribers(m1, t) + bus_subscribers(m2, t),
    )
}

impl<S> EventBus<S> {
    /// Well-formedness: one group per event-type tag, none of them empty.
    /// Constructors establish it and every method preserves it.
    pub closed spec fn wf(&self) -> bool {
        groups_wf(self.groups@)
    }

    /// Creates a bus with no subscribers.
    pub fn new() -> (r: Self)
        ensures
            r@ == Map::<Seq<char>, Seq<S>>::empty(),
            r.wf(),
    {
        Self { groups: Vec::new() }
    }

    /// The position of the group registered under `event_type`, if any.
    fn find_group(&self, event_type: &String) -> (r: Option<usize>)
        ensures
            r matches Some(i) ==> (i < self.groups@.len() && self.groups@[
                i as int
            ].event_type@ == event_type@),
            r is None ==> forall|k: int|
                0 <= k < self.groups@.len() ==> self.groups@[k].event_type@ != event_type@,
    {
        let n = self.groups.len();
        for i in 0..n
            invariant
                n == self.groups@.len(),
                forall|k: int| 0 <= k < i ==> self.groups@[k].event_type@ != event_type@,
        {
            if self.groups[i].event_type == *event_type {
                return Some(i);
            }
        }
        None
    }

    /// Registers `subscriber` under the tag `event_type`: it is appended to
    /// the subscribers already registered under that tag.
    fn subscribe_tagged(&mut self, event_type: String, subscriber: S)
        requires
            old(self).wf(),
        ensures
            final(self).wf(),
            final(self)@ == old(self)@.insert(
                event_type@,
                bus_subscribers(old(self)@, event_type@).push(subscriber),
            ),
    {
        let ghost old_groups = self.groups@;
        match self.find_group(&event_type) {
            Some(i) => {
                let group = &mut self.groups[i];
                group.subscribers.push(subscriber);
                proof {
                    lemma_present_tag(old_groups, i as int);
                    lemma_update_group(old_groups, i as int, self.groups@[i as int]);
                    assert(self.groups@ =~= old_groups.update(i as int, self.groups@[i as int]));
                }
            },
            None => {
                let mut subscribers = Vec::new();
                subscribers.push(subscriber);
                let group = EventGroup { event_type, subscribers };
                proof {
                    lemma_absent_tag(old_groups, group.event_type@);
                    lemma_push_group(old_groups, group);
                }
                self.groups.push(group);
            },
        }
    }

    /// Registers a shared subscriber handle for the event type `E`.
    pub fn subscribe_arc<E: Event>(&mut self, subscriber: S)
        requires
            old(self).wf(),
        ensures
            final(self).wf(),
            final(self)@ == old(self)@.insert(
                E::tag(),
                bus_subscribers(old(self)@, E::tag()).push(subscriber),
            ),
    {
        self.subscribe_tagged(E::event_type(), subscriber);
    }

    /// Registers a subscriber for the event type `E`.
    pub fn subscribe<E: Event>(&mut self, subscriber: S)
        requires
            old(self).wf(),
        ensures
            final(self).wf(),
            final(self)@ == old(self)@.insert(
                E::tag(),
                bus_subscribers(old(self)@, E::tag()).push(subscriber),
            ),
    {
        self.subscribe_arc::<E>(subscriber);
    }

    /// Merges another bus's registrations into this one: afterwards every
    /// event type is subscribed to by this bus's subscribers followed by
    /// the other's, each list keeping its registration order.
    pub fn extend(&mut self, other: EventBus<S>)
        requires
            old(self).wf(),
            other.wf(),
        ensures
            final(self).wf(),
            final(self)@ == merged_registry(old(self)@, other@),
    {
        let ghost target = merged_registry(self@, other@);
        let mut remaining = other.groups;
        while remaining.len() > 0
            invariant
                self.wf(),
                groups_wf(remaining@),
                merged_registry(self@, groups_map(remaining@)) == target,
            decreases remaining.len(),
        {
            let ghost pre_groups = remaining@;
            let mut group = remaining.pop().unwrap();
            proof {
                assert(pre_groups.drop_last() =~= remaining@);
                assert(groups_map(pre_groups) == groups_map(remaining@).insert(
                    group.event_type@,
                    group.subscribers@,
                ));
            }
            while group.subscribers.len() > 0
                invariant
                    self.wf(),
                    groups_wf(remaining@),
                    forall|k: int|
                        0 <= k < remaining@.len() ==> remaining@[k].event_type@
                            != group.event_type@,
                    self@.contains_key(group.event_type@) || group.subscribers@.len() > 0,
                    merged_registry(
                        self@,
                        groups_map(remaining@).insert(group.event_type@, group.subscribers@),
                    ) == target,
                decreases group.subscribers@.len(),
            {
                let ghost pre_self = self@;
                let ghost pre_subs = group.subscribers@;
                let subscriber = group.subscribers.remove(0);
                let tag = group.event_type.clone();
                self.subscribe_tagged(tag, subscriber);
                proof {
                    let t = group.event_type@;
                    assert(pre_subs =~= seq![subscriber] + group.subscribers@);
                    assert(merged_registry(
                        self@,
                        groups_map(remaining@).insert(t, group.subscribers@),
                    ) =~~= merged_registry(pre_self, groups_map(remaining@).insert(t, pre_subs)));
                }
            }
            proof {
                let t = group.event_type@;
                lemma_absent_tag(remaining@, t);
                assert(merged_registry(self@, groups_map(remaining@)) =~~= merged_registry(
                    self@,
                    groups_map(remaining@).insert(t, group.subscribers@),
                ));
            }
        }
        proof {
            assert(remaining@.len() == 0);
            assert(merged_registry(self@, groups_map(remaining@)) =~~= self@);
        }
    }

    /// The subscribers a dispatch of an event of type `E` goes to: exactly
    /// the ones registered for `E`, in registration order, and `None` if
    /// none ever was.
    pub fn subscribers_of<E: Event>(&self) -> (r: Option<&Vec<S>>)
        requires
            self.wf(),
        ensures
            self@.contains_key(E::tag()) ==> (r matches Some(v) && v@ == self@[E::tag()]),
            !self@.contains_key(E::tag()) ==> r is None,
    {
        let event_type = E::event_type();
        let n = self.groups.len();
        for i in 0..n
            invariant
                n == self.groups@.len(),
                tags_distinct(self.groups@),
                forall|k: int| 0 <= k < i ==> self.groups@[k].event_type@ != event_type@,
                event_type@ == E::tag(),
        {
            if self.groups[i].event_type == event_type {
                proof {
                    lemma_present_tag(self.groups@, i as int);
                }
                return Some(&self.groups[i].subscribers);
            }
        }
        proof {
            lemma_absent_tag(self.groups@, event_type@);
        }
        None
    }
}


/// A dispatched event reaches exactly the subscribers registered for its
/// exact event type, and zero subscribers of any other type: registering a
/// subscriber under one tag appends it to that tag's subscribers and
/// leaves every other tag's subscribers untouched, and dispatch selects
/// precisely the registered subscribers of the event's tag.
pub proof fn lemma_delivery_is_exact<S>(
    m: Map<Seq<char>, Seq<S>>,
    tag: Seq<char>,
    other: Seq<char>,
    subscriber: S,
)
    requires
        other != tag,
    ensures
        bus_subscribers(m.insert(tag, bus_subscribers(m, tag).push(subscriber)), tag)
            == bus_subscribers(m, tag).push(subscriber),
        bus_subscribers(m.insert(tag, bus_subscribers(m, tag).push(subscriber)), other)
            == bus_subscribers(m, other),
{
}

} // verus!
