//! The bridge: two unbounded queues between the game side and a platform.
//!
//! One queue carries `PluginEvent`s from the platform to the game side, the
//! other `AzaleaEvent`s from the game side to the platform. The game side
//! holds a `ClientSide`, the platform a `PluginSide`. A `ClientSide` may be
//! linked to those of other bridges: what its platform says is then also
//! sent to the platforms of the linked bridges.
//!
//! Linking a bridge to itself, or in a circle, makes a line travel for ever.
//! That is for the caller to avoid; nothing here looks for it.

use core::marker::PhantomData;
use flume::{Receiver, Sender, TryRecvError};
use vstd::prelude::*;
use crate::chunk::fragment_bytes;
use crate::consumer::{
    forward_event, forwarded, opt_event_view, opt_identity_view, outgoing, outgoing_lines,
};
use crate::event::{AzaleaEvent, ChatMessage, Identity, IdentityView, PluginEvent, PluginEventView};
use crate::filter::names;
use crate::producer::{event_views, identity_views, inbound_batch, line_views, relay_batch};

verus! {

/// Whether the game side should run its consumer step now.
#[derive(Debug, Clone, Copy, PartialEq, Eq, Structural)]
pub enum ShouldRun {
    Yes,
    No,
}

/// Why the game side could not hand an event on to the linked bridges.
#[derive(Debug, Clone, Copy, PartialEq, Eq, Structural)]
pub enum LinkError {
    /// There are links, but the identity of the local account is not known.
    NoLocalIdentity,
}

/// What became of handing one event on to the linked bridges.
#[derive(Debug, PartialEq, Eq)]
pub struct LinkReport {
    /// What was offered to the links, if anything was.
    pub offered: Option<AzaleaEvent>,
    /// To how many links it was offered, from the first on.
    pub attempted: usize,
    /// The links that did not take it, by their place in the order of
    /// linking, rising.
    pub failed: Vec<usize>,
}

impl LinkReport {
    /// The report lists each failed link once, in rising order, and only
    /// links that the event was offered to.
    pub open spec fn wf(&self) -> bool {
        &&& forall|i: int| 0 <= i < self.failed@.len() ==> #[trigger] self.failed@[i] < self.attempted
        &&& forall|i: int, j: int|
            0 <= i < j < self.failed@.len() ==> #[trigger] self.failed@[i] < #[trigger] self.failed@[j]
    }
}

/// What the consumer step did with one event that it took from the queue.
#[derive(Debug, PartialEq, Eq)]
pub struct Delivery {
    /// The event as it came from the platform.
    pub event: PluginEvent,
    /// What became of handing it on to the linked bridges.
    pub links: Result<LinkReport, LinkError>,
    /// The fragments to send to the game, in this order.
    pub lines: Vec<String>,
}

/// Why a consumer step stopped taking events.
#[derive(Debug, Clone, Copy, PartialEq, Eq, Structural)]
pub enum DrainEnd {
    /// The queue had nothing more.
    Empty,
    /// The queue had nothing more and every sender of it is gone.
    Disconnected,
    /// The step holds as many deliveries as a list can.
    Limit,
}

/// What one consumer step took from the queue and did with it.
#[derive(Debug, PartialEq, Eq)]
pub struct Drained {
    /// One delivery for each event taken, in the order in which they came.
    pub deliveries: Vec<Delivery>,
    /// Why the step stopped.
    pub end: DrainEnd,
}

/// That a queue's receivers are gone: an event could not be handed over,
/// after `sent` events had been.
#[derive(Debug, Clone, Copy, PartialEq, Eq, Structural)]
pub struct ChannelClosed {
    pub sent: usize,
}

/// A bridge between the game side and one platform.
///
/// `T` only tells the bridges of different platforms apart.
#[derive(Debug)]
pub struct PluginBridge<T> {
    pub client: ClientSide<T>,
    pub plugin: PluginSide<T>,
}

/// The game side's half of a bridge.
#[derive(Debug)]
pub struct ClientSide<T> {
    /// Where the platform's events arrive.
    pub rx: Receiver<PluginEvent>,
    /// Where the game's events leave.
    pub tx: Sender<AzaleaEvent>,
    /// The names of players whose chat is not relayed.
    pub ignore_list: Vec<String>,
    _d: PhantomData<T>,
    links: Vec<Sender<AzaleaEvent>>,
}

/// The platform's half of a bridge.
#[derive(Debug)]
pub struct PluginSide<T> {
    /// Where the game's events arrive.
    pub rx: Receiver<AzaleaEvent>,
    /// Where the platform's events leave.
    pub tx: Sender<PluginEvent>,
    _d: PhantomData<T>,
}

/// The answer of the run criteria for a queue that reported `queue_is_empty`:
/// `No` exactly when it reported to be empty.
pub fn should_run(queue_is_empty: bool) -> (r: ShouldRun)
    ensures
        r == (if queue_is_empty {
            ShouldRun::No
        } else {
            ShouldRun::Yes
        }),
{
    if !queue_is_empty {
        ShouldRun::Yes
    } else {
        ShouldRun::No
    }
}

/// Hands `events` to the queue behind `tx`, in their order, and says how
/// many were handed over: all of them, unless the queue did not take one.
///
/// It stops at the first event that the queue does not take, which happens
/// only when every receiver of the queue is gone.
pub fn send_all<E>(tx: &Sender<E>, events: Vec<E>) -> (r: Result<usize, ChannelClosed>)
    ensures
        match r {
            Ok(sent) => sent == events@.len(),
            Err(closed) => closed.sent < events@.len(),
        },
{
    let total: usize = events.len();
    let mut sent: usize = 0;
    for event in it: events.into_iter()
        invariant
            sent == it.index(),
            it.seq() == events@,
            total == events@.len(),
    {
        match tx.send(event) {
            Ok(()) => {
                sent = sent + 1;
            },
            Err(_) => {
                return Err(ChannelClosed { sent });
            },
        }
    }
    Ok(sent)
}

impl<T> Clone for PluginSide<T> {
    /// One more pair of handles of the same two queues.
    fn clone(&self) -> (r: Self)
        ensures
            r.sender() == self.sender(),
            r.receiver() == self.receiver(),
    {
        PluginSide { rx: self.rx.clone(), tx: self.tx.clone(), _d: PhantomData }
    }
}

impl<T> PluginSide<T> {
    /// The end through which the platform's events leave.
    pub closed spec fn sender(&self) -> Sender<PluginEvent> {
        self.tx
    }

    /// The end at which the game's events arrive.
    pub closed spec fn receiver(&self) -> Receiver<AzaleaEvent> {
        self.rx
    }
}

impl<T> Clone for ClientSide<T> {
    /// One more pair of handles of the same two queues, with the same
    /// ignore list and the same links.
    fn clone(&self) -> (r: Self)
        ensures
            r.sender() == self.sender(),
            r.receiver() == self.receiver(),
            r.ignored() == self.ignored(),
            r.links() == self.links(),
    {
        let mut ignore_list: Vec<String> = Vec::new();
        let mut i: usize = 0;
        while i < self.ignore_list.len()
            invariant
                i <= self.ignore_list.len(),
                ignore_list@.len() == i,
                forall|k: int| 0 <= k < i ==> ignore_list@[k]@ == self.ignore_list@[k]@,
            decreases self.ignore_list.len() - i,
        {
            ignore_list.push(self.ignore_list[i].clone());
            i = i + 1;
        }
        assert(names(ignore_list@) =~= names(self.ignore_list@));
        let mut links: Vec<Sender<AzaleaEvent>> = Vec::new();
        let mut j: usize = 0;
        while j < self.links.len()
            invariant
                j <= self.links.len(),
                links@ == self.links@.take(j as int),
            decreases self.links.len() - j,
        {
            links.push(self.links[j].clone());
            assert(links@ =~= self.links@.take(j as int + 1));
            j = j + 1;
        }
        assert(links@ =~= self.links@);
        ClientSide { rx: self.rx.clone(), tx: self.tx.clone(), ignore_list, _d: PhantomData, links }
    }
}

impl<T> Clone for PluginBridge<T> {
    /// One more set of handles of the same bridge.
    fn clone(&self) -> (r: Self)
        ensures
            r.client.sender() == self.client.sender(),
            r.client.receiver() == self.client.receiver(),
            r.client.ignored() == self.client.ignored(),
            r.client.links() == self.client.links(),
            r.plugin.sender() == self.plugin.sender(),
            r.plugin.receiver() == self.plugin.receiver(),
    {
        PluginBridge { client: self.client.clone(), plugin: self.plugin.clone() }
    }
}

impl<T> PluginBridge<T> {
    /// Makes a bridge with the ignore list `ignore_list` and no links: two
    /// new queues, with one end of each on either side.
    pub fn new(ignore_list: Vec<String>) -> (bridge: Self)
        ensures
            bridge.client.ignored() == names(ignore_list@),
            bridge.client.links().len() == 0,
    {
        let (client_tx, client_rx) = flume::unbounded();
        let (plugin_tx, plugin_rx) = flume::unbounded();
        PluginBridge {
            client: ClientSide {
                rx: plugin_rx,
                tx: client_tx,
                ignore_list,
                _d: PhantomData,
                links: Vec::new(),
            },
            plugin: PluginSide { rx: client_rx, tx: plugin_tx, _d: PhantomData },
        }
    }
}

impl<T> ClientSide<T> {
    /// The senders of the linked bridges, in the order of linking.
    pub closed spec fn links(&self) -> Seq<Sender<AzaleaEvent>> {
        self.links@
    }

    /// The names on the ignore list, in its order.
    pub closed spec fn ignored(&self) -> Seq<Seq<char>> {
        names(self.ignore_list@)
    }

    /// The end through which the game's events leave.
    pub closed spec fn sender(&self) -> Sender<AzaleaEvent> {
        self.tx
    }

    /// The end at which the platform's events arrive.
    pub closed spec fn receiver(&self) -> Receiver<PluginEvent> {
        self.rx
    }

    /// How many bridges this one is linked to.
    pub fn link_count(&self) -> (n: usize)
        ensures
            n == self.links().len(),
    {
        self.links.len()
    }

    /// Links two bridges: from now on each hands what its platform says on
    /// to the other's platform. Each side gets the other's sender as its
    /// last link; nothing else changes.
    pub fn bridge<U>(&mut self, other: &mut ClientSide<U>)
        ensures
            final(self).links() == old(self).links().push(old(other).sender()),
            final(other).links() == old(other).links().push(old(self).sender()),
            final(self).sender() == old(self).sender(),
            final(self).receiver() == old(self).receiver(),
            final(self).ignored() == old(self).ignored(),
            final(other).sender() == old(other).sender(),
            final(other).receiver() == old(other).receiver(),
            final(other).ignored() == old(other).ignored(),
    {
        self.links.push(other.tx.clone());
        other.links.push(self.tx.clone());
    }

    /// Whether `r` is a possible outcome of handing `event` on to the links:
    /// without links nothing is offered; with links and no local identity it
    /// fails; else what `forwarded` gives for the event is offered to every
    /// link, once, which for an event that is no chat is nothing.
    pub open spec fn linked(
        &self,
        event: PluginEventView,
        local: Option<IdentityView>,
        r: Result<LinkReport, LinkError>,
    ) -> bool {
        match r {
            Ok(report) => {
                &&& self.links().len() > 0 ==> local is Some
                &&& opt_event_view(report.offered) == (if self.links().len() > 0 {
                    forwarded(event, local->0)
                } else {
                    None
                })
                &&& report.attempted == (if report.offered is Some {
                    self.links().len()
                } else {
                    0
                })
                &&& report.wf()
            },
            Err(_) => self.links().len() > 0 && local is None,
        }
    }

    /// Whether `d` is a possible delivery of `event`: it holds the event, a
    /// possible outcome of handing it on, and the fragments of its line.
    pub open spec fn delivered(
        &self,
        event: PluginEventView,
        local: Option<IdentityView>,
        d: Delivery,
    ) -> bool {
        &&& d.event@ == event
        &&& self.linked(event, local, d.links)
        &&& fragment_bytes(d.lines@) == outgoing(event)
    }

    /// Hands every line of `chat_events` that is to be relayed to the
    /// platform, in order, as the events of `relay_batch`, and says how many
    /// were handed over. `profiles` are the identities that the session
    /// knows.
    ///
    /// It stops at the first event that the queue does not take, which
    /// happens only when the platform's half of the bridge is gone. Where
    /// no line is to be relayed, it succeeds.
    pub fn listen_chat(&self, profiles: &Vec<Identity>, chat_events: &Vec<ChatMessage>) -> (r:
        Result<usize, ChannelClosed>)
        ensures
            match r {
                Ok(sent) => sent == inbound_batch(
                    identity_views(profiles@),
                    self.ignored(),
                    line_views(chat_events@),
                ).len(),
                Err(closed) => closed.sent < inbound_batch(
                    identity_views(profiles@),
                    self.ignored(),
                    line_views(chat_events@),
                ).len(),
            },
    {
        let events = relay_batch(chat_events, profiles, &self.ignore_list);
        assert(event_views(events@).len() == events@.len());
        send_all(&self.tx, events)
    }

    /// Whether the consumer step has work: `No` exactly when the queue from
    /// the platform reports to be empty.
    pub fn listen_event_criteria(&self) -> (r: ShouldRun) {
        should_run(self.rx.is_empty())
    }

    /// Takes every event that waits in the queue from the platform, in the
    /// order in which they were put there, and delivers each: first to the
    /// links, then as fragments for the game. `local` is the identity of the
    /// local game account, where it is known.
    ///
    /// The step goes on until the queue reports that nothing is left.
    pub fn listen_event(&self, local: Option<&Identity>) -> (out: Drained)
        ensures
            forall|i: int|
                0 <= i < out.deliveries@.len() ==> self.delivered(
                    (#[trigger] out.deliveries@[i]).event@,
                    opt_identity_view(local),
                    out.deliveries@[i],
                ),
            out.end == DrainEnd::Limit ==> out.deliveries@.len() == usize::MAX,
    {
        let mut deliveries: Vec<Delivery> = Vec::new();
        let mut end = DrainEnd::Limit;
        while deliveries.len() < usize::MAX
            invariant_except_break
                end == DrainEnd::Limit,
            invariant
                forall|i: int|
                    0 <= i < deliveries@.len() ==> self.delivered(
                        (#[trigger] deliveries@[i]).event@,
                        opt_identity_view(local),
                        deliveries@[i],
                    ),
            ensures
                forall|i: int|
                    0 <= i < deliveries@.len() ==> self.delivered(
                        (#[trigger] deliveries@[i]).event@,
                        opt_identity_view(local),
                        deliveries@[i],
                    ),
                end == DrainEnd::Limit ==> deliveries@.len() == usize::MAX,
            decreases usize::MAX - deliveries.len(),
        {
            match self.rx.try_recv() {
                Ok(event) => {
                    let delivery = self.deliver(event, local);
                    deliveries.push(delivery);
                },
                Err(error) => {
                    end = DrainEnd::of(error);
                    break ;
                },
            }
        }
        Drained { deliveries, end }
    }

    /// Delivers one event that came from the platform: hands it on to the
    /// links and cuts its line into the fragments for the game. A link that
    /// fails keeps neither the other links nor the fragments back.
    pub fn deliver(&self, event: PluginEvent, local: Option<&Identity>) -> (d: Delivery)
        ensures
            self.delivered(event@, opt_identity_view(local), d),
            d.event == event,
    {
        let links = Self::link_plugins(self, &event, local);
        let lines = outgoing_lines(&event);
        Delivery { event, links, lines }
    }

    /// Hands `event` on to every linked bridge, as a line said by the local
    /// account. Every link is tried, whether or not an earlier one failed.
    pub fn link_plugins(client: &ClientSide<T>, event: &PluginEvent, local: Option<&Identity>) -> (r:
        Result<LinkReport, LinkError>)
        ensures
            client.linked(event@, opt_identity_view(local), r),
            r is Err <==> client.links().len() > 0 && local is None,
    {
        if client.links.len() == 0 {
            return Ok(LinkReport { offered: None, attempted: 0, failed: Vec::new() });
        }
        let profile = match local {
            Some(profile) => profile,
            None => {
                return Err(LinkError::NoLocalIdentity);
            },
        };
        match forward_event(event, profile) {
            Some(forward) => {
                let failed = fan_out(&client.links, &forward);
                Ok(LinkReport { offered: Some(forward), attempted: client.links.len(), failed })
            },
            None => Ok(LinkReport { offered: None, attempted: 0, failed: Vec::new() }),
        }
    }
}

/// Offers a copy of `event` to each of `links`, from the first on, and
/// gives the places of those that did not take it.
///
/// A link does not take the event only when every receiver of its queue is
/// gone. Whether that is so is not known before the attempt: any of the
/// places may be among those given, or none.
fn fan_out(links: &Vec<Sender<AzaleaEvent>>, event: &AzaleaEvent) -> (failed: Vec<usize>)
    ensures
        forall|i: int| 0 <= i < failed@.len() ==> #[trigger] failed@[i] < links@.len(),
        forall|i: int, j: int|
            0 <= i < j < failed@.len() ==> #[trigger] failed@[i] < #[trigger] failed@[j],
{
    let mut failed: Vec<usize> = Vec::new();
    let mut i: usize = 0;
    while i < links.len()
        invariant
            i <= links.len(),
            forall|k: int| 0 <= k < failed@.len() ==> #[trigger] failed@[k] < i,
            forall|k: int, l: int|
                0 <= k < l < failed@.len() ==> #[trigger] failed@[k] < #[trigger] failed@[l],
        decreases links.len() - i,
    {
        match links[i].send(event.clone()) {
            Ok(()) => {},
            Err(_) => {
                failed.push(i);
            },
        }
        i = i + 1;
    }
    failed
}

impl DrainEnd {
    /// Why a step stops when the queue answers an attempt to take an event
    /// with `error`.
    pub fn of(error: TryRecvError) -> (end: DrainEnd)
        ensures
            end == (match error {
                TryRecvError::Empty => DrainEnd::Empty,
                TryRecvError::Disconnected => DrainEnd::Disconnected,
            }),
    {
        match error {
            TryRecvError::Empty => DrainEnd::Empty,
            TryRecvError::Disconnected => DrainEnd::Disconnected,
        }
    }
}

} // verus!
