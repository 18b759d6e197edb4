//! Fan-out of settings snapshots to any number of listeners.
//!
//! Every listener owns the receiving end of a channel of its own, so each one
//! sees every snapshot published after it subscribed, in publishing order, and
//! none can take a snapshot away from another. The channels are unbounded: a
//! listener that reads slowly delays nobody.

use crate::settings_changed::{SettingsChanged, SettingsView};
use crossbeam_channel::{Receiver, Sender};
use vstd::prelude::*;

verus! {

/// `crossbeam_channel::Sender`: the sending end of a channel. Nothing of its
/// inside is visible to the verifier.
#[verifier::external_type_specification]
#[verifier::external_body]
#[verifier::reject_recursive_types(T)]
pub struct ExSender<T>(Sender<T>);

/// `crossbeam_channel::Receiver`: the receiving end of a channel. The library
/// creates it and hands it to the listener without ever reading from it.
#[verifier::external_type_specification]
#[verifier::external_body]
#[verifier::reject_recursive_types(T)]
pub struct ExReceiver<T>(Receiver<T>);

/// The snapshots that a listener's channel has accepted from this sending
/// end, oldest first. A listener receives them in this order.
pub uninterp spec fn snapshots_sent(tx: Sender<SettingsChanged>) -> Seq<SettingsView>;

/// Opens a channel with `crossbeam_channel::unbounded`.
///
/// Trusted: nothing has been sent into a channel that was just created.
#[verifier::external_body]
fn open_channel() -> (ends: (Sender<SettingsChanged>, Receiver<SettingsChanged>))
    ensures
        snapshots_sent(ends.0) == Seq::<SettingsView>::empty(),
{
    crossbeam_channel::unbounded()
}

/// Hands `snapshot` to `crossbeam_channel::Sender::send`, which does not block
/// on an unbounded channel.
///
/// Trusted: `send` answers `Ok` when it has placed the message in the channel,
/// behind everything sent before, and answers `Err` without placing it when
/// every receiving end has been dropped. The result is `true` for `Ok`.
#[verifier::external_body]
fn deliver(tx: &mut Sender<SettingsChanged>, snapshot: SettingsChanged) -> (accepted: bool)
    ensures
        accepted ==> snapshots_sent(*final(tx)) == snapshots_sent(*old(tx)).push(snapshot@),
        !accepted ==> snapshots_sent(*final(tx)) == snapshots_sent(*old(tx)),
{
    tx.send(snapshot).is_ok()
}

/// What the bus knows of one listener.
pub struct ListenerView {
    /// Every snapshot sent to the listener so far, oldest first.
    pub outbox: Seq<SettingsView>,
    /// No delivery to the listener has failed yet. A listener that has dropped
    /// its receiving end is closed at the next publication and skipped from
    /// then on.
    pub open: bool,
}

/// A listener as it is right after subscribing.
pub open spec fn fresh_listener() -> ListenerView {
    ListenerView { outbox: Seq::empty(), open: true }
}

/// How one listener changes when `snapshot` is published: a closed listener
/// stays as it is; an open one either takes the snapshot as its newest, or is
/// found to be gone and is closed with its outbox as it was.
pub open spec fn listener_step(pre: ListenerView, post: ListenerView, snapshot: SettingsView) -> bool {
    if !pre.open {
        post == pre
    } else if post.open {
        post.outbox == pre.outbox.push(snapshot)
    } else {
        post.outbox == pre.outbox
    }
}

/// One publication of `snapshot`: every listener takes its own step, and no
/// listener comes or goes.
pub open spec fn broadcast(pre: Seq<ListenerView>, post: Seq<ListenerView>, snapshot: SettingsView) -> bool {
    &&& post.len() == pre.len()
    &&& forall|i: int| 0 <= i < pre.len() ==> listener_step(pre[i], #[trigger] post[i], snapshot)
}

/// Something that happens to the bus.
pub enum BusEvent {
    /// A listener subscribed.
    Subscribed,
    /// A snapshot was published.
    Published(SettingsView),
}

/// The listeners before and after one event.
pub open spec fn bus_step(pre: Seq<ListenerView>, event: BusEvent, post: Seq<ListenerView>) -> bool {
    match event {
        BusEvent::Subscribed => post == pre.push(fresh_listener()),
        BusEvent::Published(snapshot) => broadcast(pre, post, snapshot),
    }
}

/// `states` are the listeners before, between and after `events`, in order.
pub open spec fn bus_history(states: Seq<Seq<ListenerView>>, events: Seq<BusEvent>) -> bool {
    &&& states.len() == events.len() + 1
    &&& forall|k: int|
        0 <= k < events.len() ==> bus_step(states[k], #[trigger] events[k], states[k + 1])
}

/// The snapshots published by the events from number `from` up to, but not
/// including, number `to`, oldest first.
pub open spec fn published_between(events: Seq<BusEvent>, from: int, to: int) -> Seq<SettingsView>
    decreases to - from,
{
    if to <= from {
        Seq::empty()
    } else {
        let earlier = published_between(events, from, to - 1);
        match events[to - 1] {
            BusEvent::Published(snapshot) => earlier.push(snapshot),
            BusEvent::Subscribed => earlier,
        }
    }
}

/// After one publication, a listener that is still open was open before and
/// holds exactly one snapshot more than before: the one just published.
pub proof fn lemma_broadcast_adds_exactly_one(
    pre: Seq<ListenerView>,
    post: Seq<ListenerView>,
    snapshot: SettingsView,
    i: int,
)
    requires
        broadcast(pre, post, snapshot),
        0 <= i < post.len(),
        post[i].open,
    ensures
        pre[i].open,
        post[i].outbox == pre[i].outbox.push(snapshot),
        post[i].outbox.len() == pre[i].outbox.len() + 1,
{
}

/// A listener that is open after event number `to` has been sent, since event
/// number `from`, every snapshot published in between, in publishing order,
/// and nothing else. What became of the other listeners plays no part.
pub proof fn lemma_listener_misses_nothing(
    states: Seq<Seq<ListenerView>>,
    events: Seq<BusEvent>,
    from: int,
    to: int,
    i: int,
)
    requires
        bus_history(states, events),
        0 <= from <= to <= events.len(),
        0 <= i < states[from].len(),
        states[to][i].open,
    ensures
        i < states[to].len(),
        states[to][i].outbox == states[from][i].outbox + published_between(events, from, to),
    decreases to - from,
{
    if to == from {
        assert(states[from][i].outbox + Seq::<SettingsView>::empty() =~= states[from][i].outbox);
    } else {
        let event = events[to - 1];
        assert(bus_step(states[to - 1], event, states[to - 1 + 1]));
        lemma_listeners_stay(states, events, from, to - 1);
        match event {
            BusEvent::Subscribed => {
                assert(states[to][i] == states[to - 1][i]);
                lemma_listener_misses_nothing(states, events, from, to - 1, i);
            },
            BusEvent::Published(snapshot) => {
                assert(listener_step(states[to - 1][i], states[to][i], snapshot));
                lemma_listener_misses_nothing(states, events, from, to - 1, i);
                let earlier = published_between(events, from, to - 1);
                assert((states[from][i].outbox + earlier).push(snapshot) =~= states[from][i].outbox
                    + earlier.push(snapshot));
            },
        }
    }
}

/// Listeners are never removed: whoever was there after event number `from`
/// is still there, at the same place, after event number `to`.
pub proof fn lemma_listeners_stay(
    states: Seq<Seq<ListenerView>>,
    events: Seq<BusEvent>,
    from: int,
    to: int,
)
    requires
        bus_history(states, events),
        0 <= from <= to <= events.len(),
    ensures
        states[from].len() <= states[to].len(),
    decreases to - from,
{
    if from < to {
        assert(bus_step(states[to - 1], events[to - 1], states[to - 1 + 1]));
        lemma_listeners_stay(states, events, from, to - 1);
    }
}

/// A listener that subscribed with event number `at` and is open after event
/// number `to` has been sent exactly the snapshots published after `at`, in
/// publishing order. Two listeners that subscribed at different times each
/// get their own full run of snapshots, whatever the other one does.
pub proof fn lemma_listener_receives_all_since_subscribing(
    states: Seq<Seq<ListenerView>>,
    events: Seq<BusEvent>,
    at: int,
    to: int,
)
    requires
        bus_history(states, events),
        0 <= at < to <= events.len(),
        events[at] is Subscribed,
        states[to][states[at].len() as int].open,
    ensures
        states[at].len() < states[to].len(),
        states[to][states[at].len() as int].outbox == published_between(events, at + 1, to),
{
    let i = states[at].len() as int;
    assert(bus_step(states[at], events[at], states[at + 1]));
    assert(states[at + 1][i] == fresh_listener());
    lemma_listener_misses_nothing(states, events, at + 1, to, i);
    assert(Seq::<SettingsView>::empty() + published_between(events, at + 1, to)
        =~= published_between(events, at + 1, to));
}

struct Listener {
    tx: Sender<SettingsChanged>,
    open: bool,
}

impl View for Listener {
    type V = ListenerView;

    closed spec fn view(&self) -> ListenerView {
        ListenerView { outbox: snapshots_sent(self.tx), open: self.open }
    }
}

/// The sending side of the broadcast: one channel per listener.
pub struct SettingsBus {
    listeners: Vec<Listener>,
}

impl View for SettingsBus {
    type V = Seq<ListenerView>;

    closed spec fn view(&self) -> Seq<ListenerView> {
        self.listeners@.map_values(|l: Listener| l@)
    }
}

impl SettingsBus {
    /// A bus that nobody listens to yet.
    pub fn new() -> (bus: SettingsBus)
        ensures
            bus@ == Seq::<ListenerView>::empty(),
    {
        let bus = SettingsBus { listeners: Vec::new() };
        assert(bus@ =~= Seq::<ListenerView>::empty());
        bus
    }

    /// Adds a listener and returns the receiving end of its channel. The new
    /// listener comes last and has been sent nothing yet.
    pub fn subscribe(&mut self) -> (rx: Receiver<SettingsChanged>)
        ensures
            final(self)@ == old(self)@.push(fresh_listener()),
    {
        let (tx, rx) = open_channel();
        self.listeners.push(Listener { tx, open: true });
        assert(self@ =~= old(self)@.push(fresh_listener()));
        rx
    }

    /// Sends a copy of `snapshot` to every open listener.
    pub fn publish(&mut self, snapshot: &SettingsChanged)
        ensures
            broadcast(old(self)@, final(self)@, snapshot@),
    {
        let mut i: usize = 0;
        while i < self.listeners.len()
            invariant
                i <= self.listeners@.len(),
                self.listeners@.len() == old(self).listeners@.len(),
                forall|j: int|
                    0 <= j < i ==> listener_step(
                        old(self).listeners@[j]@,
                        #[trigger] self.listeners@[j]@,
                        snapshot@,
                    ),
                forall|j: int|
                    i <= j < self.listeners@.len() ==> self.listeners@[j] == old(
                        self,
                    ).listeners@[j],
            decreases self.listeners.len() - i,
        {
            if self.listeners[i].open {
                let accepted = deliver(&mut self.listeners[i].tx, snapshot.clone());
                if !accepted {
                    self.listeners[i].open = false;
                }
            }
            i = i + 1;
        }
    }
}

} // verus!
