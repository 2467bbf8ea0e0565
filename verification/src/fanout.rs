//! Fan-out: every subscriber gets its own queue of the frames that match its
//! filter. A queue that is full loses frames and counts them; it holds up
//! nobody else.

use std::collections::HashMap;

use vstd::prelude::*;

use crate::channel::Queue;
use crate::error::CanIoError;
use crate::filter::CanFilter;
use crate::frame::CanFrame;

verus! {

broadcast use vstd::std_specs::hash::group_hash_axioms;

/// Names a subscription.
pub type SubId = u64;

/// Per-subscriber queue depth. Frames overflowing this are dropped and
/// surfaced as `CanIoError::Lagged` on the next receive.
pub const SUBSCRIBER_QUEUE: usize = 256;

/// One more, modulo 2^64.
pub open spec fn wrapping_succ(n: u64) -> u64 {
    if n == u64::MAX {
        0
    } else {
        (n + 1) as u64
    }
}

/// A subscription.
struct Subscriber {
    filter: CanFilter,
    queue: Queue,
    /// How many frames were lost since the last successful receive.
    dropped: u64,
    /// How many of those the subscriber has been told of.
    told: u64,
}

/// The model of a subscription.
#[verifier::ext_equal]
pub struct SubscriberView {
    pub filter: CanFilter,
    /// The frames that wait to be received, oldest first.
    pub queue: Seq<CanFrame>,
    /// How many frames can wait.
    pub depth: nat,
    /// How many frames were lost since the last successful receive.
    pub dropped: u64,
    /// How many of those the subscriber has been told of.
    pub told: u64,
}

impl SubscriberView {
    /// A subscription that has just been opened.
    pub open spec fn fresh(filter: CanFilter) -> SubscriberView {
        SubscriberView {
            filter,
            queue: Seq::empty(),
            depth: SUBSCRIBER_QUEUE as nat,
            dropped: 0,
            told: 0,
        }
    }

    /// The subscription after a frame has come in: one that its filter matches
    /// goes to the end of the queue, or is lost if the queue is full; any other
    /// changes nothing.
    pub open spec fn offered(self, frame: CanFrame) -> SubscriberView {
        if !self.filter.accepts(frame@.id) {
            self
        } else if self.queue.len() < self.depth {
            SubscriberView { queue: self.queue.push(frame), ..self }
        } else {
            SubscriberView { dropped: wrapping_succ(self.dropped), ..self }
        }
    }

    /// Frames were lost that the subscriber has not been told of.
    pub open spec fn lags(self) -> bool {
        self.dropped > self.told
    }

    /// What a receive reports, on a bus that is live or has shut down.
    pub open spec fn report(self, live: bool) -> Result<Option<CanFrame>, CanIoError> {
        if self.lags() {
            Err(CanIoError::Lagged { dropped: self.dropped })
        } else if self.queue.len() > 0 {
            Ok(Some(self.queue[0]))
        } else if live {
            Ok(None)
        } else {
            Err(CanIoError::Disconnected)
        }
    }

    /// The subscription after a receive. One that tells of a loss leaves the
    /// queue alone; one that gives a frame takes just that, and the count of
    /// lost frames starts anew.
    pub open spec fn polled(self) -> SubscriberView {
        if self.lags() {
            SubscriberView { told: self.dropped, ..self }
        } else if self.queue.len() > 0 {
            SubscriberView { queue: self.queue.drop_first(), dropped: 0, told: 0, ..self }
        } else {
            self
        }
    }
}

impl View for Subscriber {
    type V = SubscriberView;

    closed spec fn view(&self) -> SubscriberView {
        SubscriberView {
            filter: self.filter,
            queue: self.queue@,
            depth: self.queue.depth(),
            dropped: self.dropped,
            told: self.told,
        }
    }
}
/// The model of a [`Registry`].
#[verifier::ext_equal]
pub struct RegistryView {
    pub subs: Map<SubId, SubscriberView>,
    pub next_id: SubId,
    /// The bus has not shut down.
    pub live: bool,
}

impl RegistryView {
    /// The registry with one more subscription, under the next id.
    pub open spec fn subscribed(self, filter: CanFilter) -> RegistryView {
        RegistryView {
            subs: self.subs.insert(self.next_id, SubscriberView::fresh(filter)),
            next_id: wrapping_succ(self.next_id),
            ..self
        }
    }

    /// The registry without a subscription.
    pub open spec fn unsubscribed(self, id: SubId) -> RegistryView {
        RegistryView { subs: self.subs.remove(id), ..self }
    }

    /// The registry after a frame has come in: every subscription is offered it
    /// once; on a bus that has shut down, none is.
    pub open spec fn dispatched(self, frame: CanFrame) -> RegistryView {
        if self.live {
            RegistryView {
                subs: self.subs.map_values(|sub: SubscriberView| sub.offered(frame)),
                ..self
            }
        } else {
            self
        }
    }

    /// What a receive on a subscription reports; one that has ended is cut off.
    pub open spec fn report(self, id: SubId) -> Result<Option<CanFrame>, CanIoError> {
        if self.subs.contains_key(id) {
            self.subs[id].report(self.live)
        } else {
            Err(CanIoError::Disconnected)
        }
    }

    /// The registry after a receive on a subscription.
    pub open spec fn polled(self, id: SubId) -> RegistryView {
        if self.subs.contains_key(id) {
            RegistryView { subs: self.subs.insert(id, self.subs[id].polled()), ..self }
        } else {
            self
        }
    }

    /// The registry after the bus has shut down: no frame gets to anybody any
    /// more. What waits in a queue, and what was lost, is still to be received.
    pub open spec fn shut_down(self) -> RegistryView {
        RegistryView { live: false, ..self }
    }

    /// No id that was given out will be given out again.
    pub open spec fn ids_are_spent(self) -> bool {
        forall|id: SubId| #[trigger] self.subs.contains_key(id) ==> id < self.next_id
    }
}

/// The subscriptions of a bus.
pub struct Registry {
    subs: HashMap<SubId, Subscriber>,
    next_id: SubId,
    live: bool,
}

impl View for Registry {
    type V = RegistryView;

    closed spec fn view(&self) -> RegistryView {
        RegistryView {
            subs: self.subs@.map_values(|sub: Subscriber| sub@),
            next_id: self.next_id,
            live: self.live,
        }
    }
}

impl Registry {
    pub fn new() -> (registry: Self)
        ensures
            registry@ == (RegistryView { subs: Map::empty(), next_id: 1, live: true }),
    {
        Registry { subs: HashMap::new(), next_id: 1, live: true }
    }

    /// Open a new receive subscription. Frames not matching `filter`
    /// will not be delivered to it.
    pub fn subscribe(&mut self, filter: CanFilter) -> (id: SubId)
        ensures
            id == old(self)@.next_id,
            final(self)@ == old(self)@.subscribed(filter),
            final(self)@.subs == old(self)@.subs.insert(
                id,
                SubscriberView {
                    filter,
                    queue: Seq::empty(),
                    depth: 256,
                    dropped: 0,
                    told: 0,
                },
            ),
            final(self)@.next_id == (id + 1) % 0x1_0000_0000_0000_0000,
            final(self)@.live == old(self)@.live,
    {
        let id: SubId = self.next_id;
        self.next_id = self.next_id.wrapping_add(1);
        let queue = Queue::new(SUBSCRIBER_QUEUE);
        self.subs.insert(id, Subscriber { filter, queue, dropped: 0, told: 0 });
        id
    }

    /// Ends a subscription.
    pub fn unsubscribe(&mut self, id: SubId)
        ensures
            final(self)@ == old(self)@.unsubscribed(id),
            final(self)@.subs == old(self)@.subs.remove(id),
            final(self)@.next_id == old(self)@.next_id,
            final(self)@.live == old(self)@.live,
    {
        self.subs.remove(&id);
    }

    /// The bus has shut down: a receive reports `Disconnected` once the queue
    /// has run empty.
    pub fn shut_down(&mut self)
        ensures
            final(self)@ == old(self)@.shut_down(),
            !final(self)@.live,
            final(self)@.subs == old(self)@.subs,
            final(self)@.next_id == old(self)@.next_id,
    {
        self.live = false;
    }

    /// All subscriptions, each once.
    fn ids(&self) -> (ids: Vec<SubId>)
        ensures
            ids@.no_duplicates(),
            ids@.to_set() == self.subs@.dom(),
    {
        let mut ids: Vec<SubId> = Vec::new();
        for id in it: self.subs.keys()
            invariant
                it.seq().no_duplicates(),
                it.seq().unref().to_set() == self.subs@.dom(),
                ids@.len() == it.index(),
                forall|i: int| 0 <= i < ids@.len() ==> ids@[i] == *#[trigger] it.seq()[i],
                it.index() == it.seq().len() ==> ids@ =~= it.seq().unref(),
        {
            ids.push(*id);
        }
        ids
    }

    /// Offers a frame to every subscription whose filter matches it, once, and
    /// to no other; once the bus has shut down, to none. Never waits: where the
    /// queue is full, the frame is lost, and counted.
    pub fn dispatch(&mut self, frame: CanFrame)
        ensures
            final(self)@ == old(self)@.dispatched(frame),
            final(self)@.subs.dom() == old(self)@.subs.dom(),
            !old(self)@.live ==> final(self)@.subs == old(self)@.subs,
            old(self)@.live ==> forall|id: SubId| #[trigger]
                old(self)@.subs.contains_key(id) ==> ({
                    let before = old(self)@.subs[id];
                    let after = final(self)@.subs[id];
                    let matches = before.filter.accepts(frame@.id);
                    &&& after.queue == if matches && before.queue.len() < before.depth {
                        before.queue.push(frame)
                    } else {
                        before.queue
                    }
                    &&& after.dropped == (if matches && before.queue.len() >= before.depth {
                        before.dropped + 1
                    } else {
                        before.dropped as int
                    }) % 0x1_0000_0000_0000_0000
                    &&& after.told == before.told
                    &&& after.filter == before.filter
                    &&& after.depth == before.depth
                }),
            final(self)@.next_id == old(self)@.next_id,
            final(self)@.live == old(self)@.live,
    {
        if !self.live {
            return;
        }
        let ids = self.ids();
        let ghost start = self.subs@;
        let mut i: usize = 0;
        while i < ids.len()
            invariant
                i <= ids@.len(),
                ids@.no_duplicates(),
                ids@.to_set() == start.dom(),
                self.subs@.dom() == start.dom(),
                forall|k: int|
                    0 <= k < ids@.len() ==> self.subs@[#[trigger] ids@[k]]@ == if k < i {
                        start[ids@[k]]@.offered(frame)
                    } else {
                        start[ids@[k]]@
                    },
                self.next_id == old(self).next_id,
                self.live,
            decreases ids@.len() - i,
        {
            let id: SubId = ids[i];
            if let Some(sub) = self.subs.remove(&id) {
                self.subs.insert(id, sub.offer(frame));
            }
            i += 1;
        }
    }

    /// Non-blocking receive. `Ok(None)` means "no frame ready right now".
    ///
    /// Where frames were lost that the subscriber has not been told of, it is
    /// told how many were lost since the last successful receive, that is since
    /// it last got a frame.
    pub fn try_recv(&mut self, id: SubId) -> (r: Result<Option<CanFrame>, CanIoError>)
        ensures
            r == old(self)@.report(id),
            final(self)@ == old(self)@.polled(id),
            old(self)@.subs.contains_key(id) ==> ({
                let before = old(self)@.subs[id];
                let after = final(self)@.subs[id];
                if before.dropped > before.told {
                    &&& r == Err::<Option<CanFrame>, CanIoError>(
                        CanIoError::Lagged { dropped: before.dropped },
                    )
                    &&& after == (SubscriberView { told: before.dropped, ..before })
                } else if before.queue.len() > 0 {
                    &&& r == Ok::<Option<CanFrame>, CanIoError>(Some(before.queue[0]))
                    &&& before.queue == seq![before.queue[0]] + after.queue
                    &&& after == (SubscriberView {
                        queue: after.queue,
                        dropped: 0,
                        told: 0,
                        ..before
                    })
                } else {
                    &&& r == if old(self)@.live {
                        Ok::<Option<CanFrame>, CanIoError>(None)
                    } else {
                        Err(CanIoError::Disconnected)
                    }
                    &&& after == before
                }
            }),
            !old(self)@.subs.contains_key(id) ==> r == Err::<Option<CanFrame>, CanIoError>(
                CanIoError::Disconnected,
            ),
            final(self)@.subs.dom() == old(self)@.subs.dom(),
            forall|other: SubId| #[trigger]
                old(self)@.subs.contains_key(other) && other != id ==> final(self)@.subs[other]
                    == old(self)@.subs[other],
            final(self)@.next_id == old(self)@.next_id,
            final(self)@.live == old(self)@.live,
    {
        match self.subs.remove(&id) {
            Some(sub) => {
                let (sub, r) = sub.poll(self.live);
                self.subs.insert(id, sub);
                r
            },
            None => {
                Err(CanIoError::Disconnected)
            },
        }
    }
}

impl Subscriber {
    fn offer(self, frame: CanFrame) -> (after: Self)
        ensures
            after@ == self@.offered(frame),
    {
        let mut sub = self;
        if sub.filter.matches(&frame) {
            if !sub.queue.try_send(frame) {
                sub.dropped = sub.dropped.wrapping_add(1);
            }
        }
        sub
    }

    fn poll(self, live: bool) -> (r: (Self, Result<Option<CanFrame>, CanIoError>))
        ensures
            r.0@ == self@.polled(),
            r.1 == self@.report(live),
    {
        let mut sub = self;
        if sub.dropped > sub.told {
            sub.told = sub.dropped;
            let dropped: u64 = sub.dropped;
            return (sub, Err(CanIoError::Lagged { dropped }));
        }
        match sub.queue.try_recv() {
            Some(frame) => {
                sub.dropped = 0;
                sub.told = 0;
                (sub, Ok(Some(frame)))
            },
            None => {
                let r = if live {
                    Ok(None)
                } else {
                    Err(CanIoError::Disconnected)
                };
                (sub, r)
            },
        }
    }
}

/// A frame changes nothing for a subscription whose filter it does not match. It
/// goes once to the end of the queue of one that it does match, or, if that
/// queue is full, adds one to what was lost.
pub proof fn law_frame_goes_where_it_matches(registry: RegistryView, frame: CanFrame, id: SubId)
    requires
        registry.live,
        registry.subs.contains_key(id),
    ensures
        ({
            let before = registry.subs[id];
            let after = registry.dispatched(frame).subs[id];
            &&& !before.filter.accepts(frame@.id) ==> after == before
            &&& before.filter.accepts(frame@.id) && before.queue.len() < before.depth ==> after == (
            SubscriberView { queue: before.queue.push(frame), ..before })
            &&& before.filter.accepts(frame@.id) && before.queue.len() >= before.depth ==> after
                == (SubscriberView {
                dropped: ((before.dropped + 1) % 0x1_0000_0000_0000_0000) as u64,
                ..before
            })
        }),
        registry.dispatched(frame).subs.dom() == registry.subs.dom(),
{
}

/// A slow subscriber harms no other: what a frame does to a subscription rests
/// on that subscription alone, whatever the others have in their queues.
pub proof fn law_slow_subscriber_harms_no_other(
    a: RegistryView,
    b: RegistryView,
    frame: CanFrame,
    id: SubId,
)
    requires
        a.live == b.live,
        a.subs.contains_key(id),
        b.subs.contains_key(id),
        a.subs[id] == b.subs[id],
    ensures
        a.dispatched(frame).subs[id] == b.dispatched(frame).subs[id],
{
}

/// Two subscriptions share no queue: opening, ending or receiving on one leaves
/// the others as they were. The one that is opened has nothing in its queue, and
/// nothing lost.
pub proof fn law_subscriptions_are_independent(
    registry: RegistryView,
    filter: CanFilter,
    id: SubId,
    other: SubId,
)
    requires
        registry.subs.contains_key(other),
        other != id,
        other != registry.next_id,
    ensures
        registry.subscribed(filter).subs[registry.next_id] == (SubscriberView {
            filter,
            queue: Seq::empty(),
            depth: 256,
            dropped: 0,
            told: 0,
        }),
        registry.subscribed(filter).subs[other] == registry.subs[other],
        registry.unsubscribed(id).subs[other] == registry.subs[other],
        registry.polled(id).subs[other] == registry.subs[other],
        !registry.unsubscribed(id).subs.contains_key(id),
{
}

/// Whatever was lost and not told is told by the next receive, before any frame
/// and whatever the numbers: the report is `Lagged` exactly when there are more
/// losses than the subscriber knows of, and it gives all of them.
pub proof fn law_untold_losses_are_reported_first(sub: SubscriberView, live: bool)
    ensures
        sub.dropped > sub.told ==> {
            &&& sub.report(live) == Err::<Option<CanFrame>, CanIoError>(
                CanIoError::Lagged { dropped: sub.dropped },
            )
            &&& sub.polled().dropped == sub.dropped
            &&& sub.polled().told == sub.dropped
            &&& sub.polled().queue == sub.queue
        },
        sub.dropped <= sub.told && sub.queue.len() > 0 ==> {
            &&& sub.report(live) == Ok::<Option<CanFrame>, CanIoError>(Some(sub.queue[0]))
            &&& sub.queue == seq![sub.queue[0]] + sub.polled().queue
            &&& sub.polled().dropped == 0
            &&& sub.polled().told == 0
        },
        sub.dropped <= sub.told && sub.queue.len() == 0 ==> {
            &&& sub.report(true) == Ok::<Option<CanFrame>, CanIoError>(None)
            &&& sub.report(false) == Err::<Option<CanFrame>, CanIoError>(CanIoError::Disconnected)
            &&& sub.polled() == sub
        },
        sub.polled().filter == sub.filter,
        sub.polled().depth == sub.depth,
{
}

/// A loss is told once: after that a receive goes on with the queue, until more
/// frames are lost. What is told then counts all that were lost since the last
/// successful receive, the ones already told among them.
pub proof fn law_loss_is_told_once(sub: SubscriberView, live: bool, more: u64)
    requires
        sub.lags(),
        sub.dropped + more <= u64::MAX,
    ensures
        sub.report(live) == Err::<Option<CanFrame>, CanIoError>(
            CanIoError::Lagged { dropped: sub.dropped },
        ),
        sub.polled().queue == sub.queue,
        !sub.polled().lags(),
        sub.polled().polled().dropped == if sub.queue.len() > 0 {
            0
        } else {
            sub.dropped
        },
        more > 0 ==> (SubscriberView {
            dropped: (sub.dropped + more) as u64,
            ..sub.polled()
        }).report(live) == Err::<Option<CanFrame>, CanIoError>(
            CanIoError::Lagged { dropped: (sub.dropped + more) as u64 },
        ),
{
}

/// Every subscription gets an id that no other has, and so does the next one,
/// as long as there are ids left.
pub proof fn law_ids_are_fresh(registry: RegistryView, filter: CanFilter)
    requires
        registry.ids_are_spent(),
        registry.next_id < u64::MAX,
    ensures
        !registry.subs.contains_key(registry.next_id),
        registry.subscribed(filter).ids_are_spent(),
{
}

/// Nothing that happens in between makes an id come back.
pub proof fn law_ids_stay_spent(registry: RegistryView, id: SubId, frame: CanFrame)
    requires
        registry.ids_are_spent(),
    ensures
        registry.unsubscribed(id).ids_are_spent(),
        registry.polled(id).ids_are_spent(),
        registry.dispatched(frame).ids_are_spent(),
        registry.shut_down().ids_are_spent(),
{
}

/// Once the bus has shut down no frame gets to anybody. A receive still gives
/// what was queued and tells what was lost; after that it reports
/// `Disconnected`, as it does at once to those who subscribe later.
pub proof fn law_shut_down_bus_disconnects(
    registry: RegistryView,
    id: SubId,
    frame: CanFrame,
    filter: CanFilter,
)
    requires
        !registry.live,
        registry.subs.contains_key(id),
    ensures
        registry.dispatched(frame) == registry,
        !registry.polled(id).live,
        registry.report(id) is Ok == (!registry.subs[id].lags() && registry.subs[id].queue.len()
            > 0),
        !registry.subs[id].lags() && registry.subs[id].queue.len() == 0 ==> registry.report(id)
            == Err::<Option<CanFrame>, CanIoError>(CanIoError::Disconnected),
        registry.subscribed(filter).report(registry.next_id) == Err::<
            Option<CanFrame>,
            CanIoError,
        >(CanIoError::Disconnected),
{
}

/// Something that happens to a bus.
pub enum Event {
    /// A frame comes in.
    Arrived(CanFrame),
    /// A subscriber receives.
    Received(SubId),
    /// A subscription is opened.
    Subscribed(CanFilter),
    /// A subscription ends.
    Unsubscribed(SubId),
    /// The bus shuts down.
    ShutDown,
}

impl RegistryView {
    /// The registry after an event.
    pub open spec fn after(self, event: Event) -> RegistryView {
        match event {
            Event::Arrived(frame) => self.dispatched(frame),
            Event::Received(id) => self.polled(id),
            Event::Subscribed(filter) => self.subscribed(filter),
            Event::Unsubscribed(id) => self.unsubscribed(id),
            Event::ShutDown => self.shut_down(),
        }
    }

    /// The registry after event upon event.
    pub open spec fn run(self, events: Seq<Event>) -> RegistryView
        decreases events.len(),
    {
        if events.len() == 0 {
            self
        } else {
            self.run(events.drop_last()).after(events.last())
        }
    }

    /// The frame that an event brings in for a subscription, if it does: one
    /// that arrives on a live bus and matches the filter.
    pub open spec fn match_for(self, id: SubId, event: Event) -> Option<CanFrame> {
        match event {
            Event::Arrived(frame) => if self.live && self.subs[id].filter.accepts(frame@.id) {
                Some(frame)
            } else {
                None
            },
            _ => None,
        }
    }

    /// The frames of a run that match a subscription, in the order of arrival.
    pub open spec fn matched(self, id: SubId, events: Seq<Event>) -> Seq<CanFrame>
        decreases events.len(),
    {
        if events.len() == 0 {
            Seq::empty()
        } else {
            let before = self.matched(id, events.drop_last());
            match self.run(events.drop_last()).match_for(id, events.last()) {
                Some(frame) => before.push(frame),
                None => before,
            }
        }
    }

    /// Those of them that found room in the queue.
    pub open spec fn kept(self, id: SubId, events: Seq<Event>) -> Seq<CanFrame>
        decreases events.len(),
    {
        if events.len() == 0 {
            Seq::empty()
        } else {
            let now = self.run(events.drop_last());
            let before = self.kept(id, events.drop_last());
            match now.match_for(id, events.last()) {
                Some(frame) if now.subs[id].queue.len() < now.subs[id].depth => before.push(frame),
                _ => before,
            }
        }
    }

    /// How many of them found the queue full.
    pub open spec fn lost(self, id: SubId, events: Seq<Event>) -> nat
        decreases events.len(),
    {
        if events.len() == 0 {
            0
        } else {
            let now = self.run(events.drop_last());
            let before = self.lost(id, events.drop_last());
            match now.match_for(id, events.last()) {
                Some(_) if now.subs[id].queue.len() >= now.subs[id].depth => before + 1,
                _ => before,
            }
        }
    }

    /// The frames that the receives of a run on a subscription gave.
    pub open spec fn received(self, id: SubId, events: Seq<Event>) -> Seq<CanFrame>
        decreases events.len(),
    {
        if events.len() == 0 {
            Seq::empty()
        } else {
            let before = self.received(id, events.drop_last());
            if events.last() == Event::Received(id) {
                match self.run(events.drop_last()).report(id) {
                    Ok(Some(frame)) => before.push(frame),
                    _ => before,
                }
            } else {
                before
            }
        }
    }
}

/// A subscription gets exactly the frames that match it, in the order of
/// arrival and each once, but for those that found the queue full: what was
/// received and what still waits is what waited before and what found room
/// since. Where nothing was lost, that is every match. This holds over any run
/// of events that does not end the subscription, whatever the other subscribers
/// do, as long as there are ids left for them.
pub proof fn law_subscription_gets_its_frames(
    registry: RegistryView,
    id: SubId,
    events: Seq<Event>,
)
    requires
        registry.ids_are_spent(),
        registry.subs.contains_key(id),
        registry.next_id + events.len() <= u64::MAX,
        forall|i: int| 0 <= i < events.len() ==> #[trigger] events[i] != Event::Unsubscribed(id),
    ensures
        ({
            let start = registry.subs[id];
            let end = registry.run(events).subs[id];
            &&& registry.run(events).subs.contains_key(id)
            &&& end.filter == start.filter
            &&& end.depth == start.depth
            &&& start.queue + registry.kept(id, events) == registry.received(id, events)
                + end.queue
            &&& registry.kept(id, events).len() + registry.lost(id, events) == registry.matched(
                id,
                events,
            ).len()
            &&& registry.lost(id, events) == 0 ==> registry.kept(id, events) == registry.matched(
                id,
                events,
            )
        }),
        registry.run(events).ids_are_spent(),
        registry.run(events).next_id <= registry.next_id + events.len(),
    decreases events.len(),
{
    if events.len() > 0 {
        let before = events.drop_last();
        law_subscription_gets_its_frames(registry, id, before);
        let queue = registry.run(before).subs[id].queue;
        let came = registry.received(id, before);
        if let Event::Arrived(frame) = events.last() {
            assert((came + queue).push(frame) =~= came + queue.push(frame));
        }
    }
}

/// What a subscriber is told is the number of frames that it lost since it last
/// got one: the count grows by one for each, over any run of events in which it
/// gets none.
pub proof fn law_lag_counts_the_losses(registry: RegistryView, id: SubId, events: Seq<Event>)
    requires
        registry.ids_are_spent(),
        registry.subs.contains_key(id),
        registry.next_id + events.len() <= u64::MAX,
        forall|i: int| 0 <= i < events.len() ==> #[trigger] events[i] != Event::Unsubscribed(id),
        registry.received(id, events).len() == 0,
        registry.subs[id].dropped + registry.lost(id, events) <= u64::MAX,
    ensures
        registry.run(events).subs[id].dropped == registry.subs[id].dropped + registry.lost(
            id,
            events,
        ),
    decreases events.len(),
{
    if events.len() > 0 {
        let before = events.drop_last();
        law_subscription_gets_its_frames(registry, id, before);
        law_lag_counts_the_losses(registry, id, before);
    }
}

/// What is lost between two receives is what the second one reports: whatever
/// happens on the bus in between, where matching frames were lost, the receive
/// reports `Lagged`, with the losses that were told before and all the new ones.
pub proof fn law_losses_of_a_run_are_reported(registry: RegistryView, id: SubId, events: Seq<Event>)
    requires
        registry.ids_are_spent(),
        registry.subs.contains_key(id),
        registry.subs[id].dropped == registry.subs[id].told,
        registry.next_id + events.len() <= u64::MAX,
        forall|i: int|
            0 <= i < events.len() ==> #[trigger] events[i] != Event::Unsubscribed(id) && events[i]
                != Event::Received(id),
        registry.subs[id].dropped + registry.lost(id, events) <= u64::MAX,
        registry.lost(id, events) > 0,
    ensures
        registry.run(events).report(id) == Err::<Option<CanFrame>, CanIoError>(
            CanIoError::Lagged {
                dropped: (registry.subs[id].dropped + registry.lost(id, events)) as u64,
            },
        ),
{
    lemma_nothing_is_told_without_a_receive(registry, id, events);
    law_subscription_gets_its_frames(registry, id, events);
    law_lag_counts_the_losses(registry, id, events);
}

/// Without a receive, nothing is received and nothing is told.
proof fn lemma_nothing_is_told_without_a_receive(
    registry: RegistryView,
    id: SubId,
    events: Seq<Event>,
)
    requires
        registry.ids_are_spent(),
        registry.subs.contains_key(id),
        registry.next_id + events.len() <= u64::MAX,
        forall|i: int|
            0 <= i < events.len() ==> #[trigger] events[i] != Event::Unsubscribed(id) && events[i]
                != Event::Received(id),
    ensures
        registry.received(id, events).len() == 0,
        registry.run(events).subs[id].told == registry.subs[id].told,
    decreases events.len(),
{
    if events.len() > 0 {
        let before = events.drop_last();
        assert(events.last() == events[events.len() - 1]);
        lemma_nothing_is_told_without_a_receive(registry, id, before);
        law_subscription_gets_its_frames(registry, id, before);
    }
}

/// The registry after frame upon frame.
pub open spec fn after_frames(registry: RegistryView, frames: Seq<CanFrame>) -> RegistryView
    decreases frames.len(),
{
    if frames.len() == 0 {
        registry
    } else {
        after_frames(registry, frames.drop_last()).dispatched(frames.last())
    }
}

/// Of a burst of matching frames that nobody receives, the first 256 wait in the
/// queue, in their order, and all the others are lost. The next receive reports
/// just how many, or gives the first frame if none was lost.
pub proof fn law_burst_keeps_the_first_frames(
    registry: RegistryView,
    id: SubId,
    filter: CanFilter,
    frames: Seq<CanFrame>,
)
    requires
        registry.live,
        registry.subs.contains_key(id),
        registry.subs[id] == (SubscriberView {
            filter,
            queue: Seq::empty(),
            depth: 256,
            dropped: 0,
            told: 0,
        }),
        forall|i: int| 0 <= i < frames.len() ==> filter.accepts((#[trigger] frames[i])@.id),
        frames.len() <= u64::MAX,
    ensures
        ({
            let end = after_frames(registry, frames);
            let kept = if frames.len() <= 256 {
                frames.len() as int
            } else {
                256
            };
            &&& end.live
            &&& end.subs.contains_key(id)
            &&& end.subs[id] == (SubscriberView {
                filter,
                queue: frames.take(kept),
                depth: 256,
                dropped: (frames.len() - kept) as u64,
                told: 0,
            })
            &&& frames.len() > 256 ==> end.report(id) == Err::<Option<CanFrame>, CanIoError>(
                CanIoError::Lagged { dropped: (frames.len() - 256) as u64 },
            )
            &&& 0 < frames.len() <= 256 ==> end.report(id) == Ok::<Option<CanFrame>, CanIoError>(
                Some(frames[0]),
            )
        }),
    decreases frames.len(),
{
    if frames.len() > 0 {
        let before = frames.drop_last();
        law_burst_keeps_the_first_frames(registry, id, filter, before);
        assert(filter.accepts(frames[frames.len() - 1]@.id));
        if frames.len() <= 256 {
            assert(frames.take(frames.len() as int) =~= before.take(before.len() as int).push(
                frames.last(),
            ));
        } else {
            assert(frames.take(256) =~= before.take(256));
        }
    }
}

} // verus!
