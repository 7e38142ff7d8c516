//! What the platforms with a queue of their own have in common.
//!
//! Such a platform relays for a fleet of local accounts. In its default mode
//! every account counts. In single mode one account is named, and only what
//! that account sees is relayed, and only through it is anything said.
//! A line that several accounts see in one batch is relayed once.

use flume::{Receiver, Sender};
use vstd::prelude::*;
use crate::bridge::{send_all, ChannelClosed, DrainEnd};
use crate::chunk::fragment_bytes;
use crate::consumer::{outgoing, outgoing_lines};
use crate::event::{
    GameEvent, GameEventView, Identity, IdentityView, PluginEvent, Sighting, SightingView,
};
use crate::filter::{is_ignored, names};
use crate::producer::{find_profile, identity_views, known_identity};

verus! {

/// The characters of a name that may be missing.
pub open spec fn opt_name(name: Option<&String>) -> Option<Seq<char>> {
    match name {
        Some(n) => Some(n@),
        None => None,
    }
}

/// Whether an account counts: in default mode (`target` is `None`) every
/// account does, in single mode only the one that is named.
pub open spec fn is_target(target: Option<Seq<char>>, account: Option<Seq<char>>) -> bool {
    match target {
        None => true,
        Some(_) => account == target,
    }
}

/// What one sighting adds: the contents seen so far, and the event that is
/// relayed for it, if any.
///
/// A sighting by an account that does not count adds nothing. A line whose
/// content was seen before in the batch is not relayed again. A line whose
/// sender is known and on the ignore list is not relayed, but its content
/// counts as seen.
pub open spec fn sighting_step(
    target: Option<Seq<char>>,
    ignore: Seq<Seq<char>>,
    profiles: Seq<IdentityView>,
    seen: Seq<Seq<char>>,
    sighting: SightingView,
) -> (Seq<Seq<char>>, Option<GameEventView>) {
    if !is_target(target, sighting.receiver) || seen.contains(sighting.line.content) {
        (seen, None)
    } else {
        let seen = seen.push(sighting.line.content);
        let found = match sighting.line.sender {
            Some(id) => known_identity(profiles, id),
            None => None,
        };
        match found {
            Some(who) => if ignore.contains(who.name) {
                (seen, None)
            } else {
                (seen, Some(GameEventView::Chat(Some(who), sighting.line)))
            },
            None => (seen, Some(GameEventView::Chat(None, sighting.line))),
        }
    }
}

/// The contents seen after a batch of sightings.
pub open spec fn seen_after(
    target: Option<Seq<char>>,
    ignore: Seq<Seq<char>>,
    profiles: Seq<IdentityView>,
    sightings: Seq<SightingView>,
) -> Seq<Seq<char>>
    decreases sightings.len(),
{
    if sightings.len() == 0 {
        Seq::empty()
    } else {
        sighting_step(
            target,
            ignore,
            profiles,
            seen_after(target, ignore, profiles, sightings.drop_last()),
            sightings.last(),
        ).0
    }
}

/// The events that a batch of sightings gives, in order.
pub open spec fn relayed(
    target: Option<Seq<char>>,
    ignore: Seq<Seq<char>>,
    profiles: Seq<IdentityView>,
    sightings: Seq<SightingView>,
) -> Seq<GameEventView>
    decreases sightings.len(),
{
    if sightings.len() == 0 {
        Seq::empty()
    } else {
        let before = relayed(target, ignore, profiles, sightings.drop_last());
        match sighting_step(
            target,
            ignore,
            profiles,
            seen_after(target, ignore, profiles, sightings.drop_last()),
            sightings.last(),
        ).1 {
            Some(event) => before.push(event),
            None => before,
        }
    }
}

/// Each sighting of a list as a mathematical value.
pub open spec fn sighting_views(sightings: Seq<Sighting>) -> Seq<SightingView> {
    sightings.map_values(|s: Sighting| s@)
}

/// A game event that may be missing, as a mathematical value.
pub open spec fn opt_game_event_view(event: Option<GameEvent>) -> Option<GameEventView> {
    match event {
        Some(e) => Some(e@),
        None => None,
    }
}

/// The text of the line that an event carries.
pub open spec fn content_of(event: GameEventView) -> Seq<char> {
    match event {
        GameEventView::Chat(_, line) => line.content,
    }
}

/// No two events of a batch carry the same text: a line that several
/// accounts saw, or that was said twice, is relayed once. And the text of
/// every event of the batch counts as seen.
pub proof fn lemma_relayed_once(
    target: Option<Seq<char>>,
    ignore: Seq<Seq<char>>,
    profiles: Seq<IdentityView>,
    sightings: Seq<SightingView>,
)
    ensures
        forall|i: int|
            0 <= i < relayed(target, ignore, profiles, sightings).len() ==> seen_after(
                target,
                ignore,
                profiles,
                sightings,
            ).contains(content_of(#[trigger] relayed(target, ignore, profiles, sightings)[i])),
        forall|i: int, j: int|
            0 <= i < j < relayed(target, ignore, profiles, sightings).len() ==> content_of(
                #[trigger] relayed(target, ignore, profiles, sightings)[i],
            ) != content_of(#[trigger] relayed(target, ignore, profiles, sightings)[j]),
    decreases sightings.len(),
{
    if sightings.len() > 0 {
        let before = sightings.drop_last();
        lemma_relayed_once(target, ignore, profiles, before);
        let seen = seen_after(target, ignore, profiles, before);
        let events = relayed(target, ignore, profiles, before);
        let step = sighting_step(target, ignore, profiles, seen, sightings.last());
        let now = relayed(target, ignore, profiles, sightings);
        assert forall|x: Seq<char>| seen.contains(x) implies step.0.contains(x) by {
            let k = choose|k: int| 0 <= k < seen.len() && seen[k] == x;
            assert(step.0[k] == x);
        }
        assert forall|i: int| 0 <= i < now.len() implies step.0.contains(
            content_of(#[trigger] now[i]),
        ) by {
            if i < events.len() {
                assert(now[i] == events[i]);
            } else {
                assert(step.0[seen.len() as int] == sightings.last().line.content);
            }
        }
        assert forall|i: int, j: int| 0 <= i < j < now.len() implies content_of(#[trigger] now[i])
            != content_of(#[trigger] now[j]) by {
            assert(now[i] == events[i]);
            if j < events.len() {
                assert(now[j] == events[j]);
            } else {
                assert(seen.contains(content_of(events[i])));
            }
        }
    }
}

/// Whether the account `account` counts under `target`.
pub fn counts(target: Option<&String>, account: Option<&String>) -> (r: bool)
    ensures
        r == is_target(opt_name(target), opt_name(account)),
{
    match target {
        None => true,
        Some(wanted) => match account {
            Some(name) => *name == *wanted,
            None => false,
        },
    }
}

/// Takes one sighting: notes its content in `seen` and gives the event that
/// is relayed for it, if any.
pub fn sighted(
    target: Option<&String>,
    ignore: &Vec<String>,
    profiles: &Vec<Identity>,
    seen: &mut Vec<String>,
    sighting: &Sighting,
) -> (event: Option<GameEvent>)
    ensures
        (names(final(seen)@), opt_game_event_view(event)) == sighting_step(
            opt_name(target),
            names(ignore@),
            identity_views(profiles@),
            names(old(seen)@),
            sighting@,
        ),
{
    let receiver = match &sighting.receiver {
        Some(name) => Some(name),
        None => None,
    };
    if !counts(target, receiver) {
        return None;
    }
    if is_ignored(&sighting.line.content, seen) {
        return None;
    }
    let ghost before = names(seen@);
    seen.push(sighting.line.content.clone());
    assert(names(seen@) =~= before.push(sighting.line.content@));
    let found = match sighting.line.sender {
        Some(id) => find_profile(id, profiles),
        None => None,
    };
    match found {
        Some(who) => {
            if is_ignored(&who.name, ignore) {
                None
            } else {
                Some(GameEvent::Chat(Some(who), sighting.line.clone()))
            }
        },
        None => Some(GameEvent::Chat(None, sighting.line.clone())),
    }
}

/// Each game event of a list as a mathematical value.
pub open spec fn game_event_views(events: Seq<GameEvent>) -> Seq<GameEventView> {
    events.map_values(|e: GameEvent| e@)
}

/// The events that a batch of sightings gives, in order.
pub fn select_events(
    target: Option<&String>,
    ignore: &Vec<String>,
    profiles: &Vec<Identity>,
    sightings: &Vec<Sighting>,
) -> (events: Vec<GameEvent>)
    ensures
        game_event_views(events@) == relayed(
            opt_name(target),
            names(ignore@),
            identity_views(profiles@),
            sighting_views(sightings@),
        ),
{
    let ghost t = opt_name(target);
    let ghost ig = names(ignore@);
    let ghost known = identity_views(profiles@);
    let ghost all = sighting_views(sightings@);
    let mut seen: Vec<String> = Vec::new();
    let mut events: Vec<GameEvent> = Vec::new();
    let mut i: usize = 0;
    assert(names(seen@) =~= seen_after(t, ig, known, all.take(0)));
    assert(game_event_views(events@) =~= relayed(t, ig, known, all.take(0)));
    while i < sightings.len()
        invariant
            i <= sightings.len(),
            t == opt_name(target),
            ig == names(ignore@),
            known == identity_views(profiles@),
            all == sighting_views(sightings@),
            names(seen@) == seen_after(t, ig, known, all.take(i as int)),
            game_event_views(events@) == relayed(t, ig, known, all.take(i as int)),
        decreases sightings.len() - i,
    {
        proof {
            assert(all.take(i as int + 1).drop_last() =~= all.take(i as int));
            assert(all.take(i as int + 1).last() == sightings@[i as int]@);
        }
        let ghost before = events@;
        match sighted(target, ignore, profiles, &mut seen, &sightings[i]) {
            Some(event) => {
                events.push(event);
                assert(game_event_views(events@) =~= game_event_views(before).push(event@));
            },
            None => {},
        }
        i = i + 1;
    }
    proof {
        assert(all.take(i as int) =~= all);
    }
    events
}

/// Hands the events of a batch of sightings to the platform through `tx`, in
/// order, as `select_events` gives them, and says how many were handed
/// over.
///
/// It stops at the first event that the queue does not take, which happens
/// only when the platform's end of the queue is gone. Where the batch gives
/// no event, it succeeds.
pub fn relay_sightings(
    tx: &Sender<GameEvent>,
    target: Option<&String>,
    ignore: &Vec<String>,
    profiles: &Vec<Identity>,
    sightings: &Vec<Sighting>,
) -> (r: Result<usize, ChannelClosed>)
    ensures
        match r {
            Ok(sent) => sent == relayed(
                opt_name(target),
                names(ignore@),
                identity_views(profiles@),
                sighting_views(sightings@),
            ).len(),
            Err(closed) => closed.sent < relayed(
                opt_name(target),
                names(ignore@),
                identity_views(profiles@),
                sighting_views(sightings@),
            ).len(),
        },
{
    let events = select_events(target, ignore, profiles, sightings);
    assert(game_event_views(events@).len() == events@.len());
    send_all(tx, events)
}

/// What was taken from the platform's queue for one local account.
#[derive(Debug, PartialEq, Eq)]
pub struct PlayerDelivery {
    /// The account through which the fragments are said, by its place in
    /// the list of accounts.
    pub player: usize,
    /// The event as it came from the platform.
    pub event: PluginEvent,
    /// The fragments to send to the game, in this order.
    pub lines: Vec<String>,
}

/// What one consumer step of such a platform took from its queue.
#[derive(Debug, PartialEq, Eq)]
pub struct PlayerDrained {
    /// One delivery for each event taken, in the order in which they came.
    pub deliveries: Vec<PlayerDelivery>,
    /// Why the last account that counted stopped taking events. `None`
    /// where no account counted, and the queue was not touched.
    pub end: Option<DrainEnd>,
}

/// Whether `d` is a possible delivery through one of `players` under
/// `target`: its account counts, and its fragments are those of its event.
pub open spec fn player_delivered(
    target: Option<Seq<char>>,
    players: Seq<Seq<char>>,
    d: PlayerDelivery,
) -> bool {
    &&& d.player < players.len()
    &&& is_target(target, Some(players[d.player as int]))
    &&& fragment_bytes(d.lines@) == outgoing(d.event@)
}

/// Takes every event that waits in the platform's queue `rx` and cuts each
/// into its fragments. `players` are the names of the local accounts. Each
/// account that counts, in the order of the list, empties the queue in its
/// turn: what it takes is said through it.
pub fn drain_for_players(
    rx: &Receiver<PluginEvent>,
    target: Option<&String>,
    players: &Vec<String>,
) -> (out: PlayerDrained)
    ensures
        forall|k: int|
            0 <= k < out.deliveries@.len() ==> player_delivered(
                opt_name(target),
                names(players@),
                #[trigger] out.deliveries@[k],
            ),
        forall|k: int, l: int|
            0 <= k <= l < out.deliveries@.len() ==> (#[trigger] out.deliveries@[k]).player
                <= (#[trigger] out.deliveries@[l]).player,
        out.end is None <==> forall|p: int|
            0 <= p < players@.len() ==> !is_target(opt_name(target), Some(#[trigger] players@[p]@)),
        out.end == Some(DrainEnd::Limit) ==> out.deliveries@.len() == usize::MAX,
{
    let mut deliveries: Vec<PlayerDelivery> = Vec::new();
    let mut end: Option<DrainEnd> = None;
    let mut p: usize = 0;
    while p < players.len()
        invariant
            p <= players.len(),
            forall|k: int|
                0 <= k < deliveries@.len() ==> player_delivered(
                    opt_name(target),
                    names(players@),
                    #[trigger] deliveries@[k],
                ),
            forall|k: int| 0 <= k < deliveries@.len() ==> (#[trigger] deliveries@[k]).player < p,
            forall|k: int, l: int|
                0 <= k <= l < deliveries@.len() ==> (#[trigger] deliveries@[k]).player
                    <= (#[trigger] deliveries@[l]).player,
            end is None <==> forall|q: int|
                0 <= q < p ==> !is_target(opt_name(target), Some(#[trigger] players@[q]@)),
            end == Some(DrainEnd::Limit) ==> deliveries@.len() == usize::MAX,
        decreases players.len() - p,
    {
        if counts(target, Some(&players[p])) {
            assert(names(players@)[p as int] == players@[p as int]@);
            end = Some(DrainEnd::Limit);
            while deliveries.len() < usize::MAX
                invariant_except_break
                    end == Some(DrainEnd::Limit),
                invariant
                    p < players.len(),
                    is_target(opt_name(target), Some(names(players@)[p as int])),
                    forall|k: int|
                        0 <= k < deliveries@.len() ==> player_delivered(
                            opt_name(target),
                            names(players@),
                            #[trigger] deliveries@[k],
                        ),
                    forall|k: int|
                        0 <= k < deliveries@.len() ==> (#[trigger] deliveries@[k]).player <= p,
                    forall|k: int, l: int|
                        0 <= k <= l < deliveries@.len() ==> (#[trigger] deliveries@[k]).player
                            <= (#[trigger] deliveries@[l]).player,
                ensures
                    end is Some,
                    end == Some(DrainEnd::Limit) ==> deliveries@.len() == usize::MAX,
                decreases usize::MAX - deliveries.len(),
            {
                match rx.try_recv() {
                    Ok(event) => {
                        let lines = outgoing_lines(&event);
                        deliveries.push(PlayerDelivery { player: p, event, lines });
                    },
                    Err(error) => {
                        end = Some(DrainEnd::of(error));
                        break ;
                    },
                }
            }
        }
        p = p + 1;
    }
    PlayerDrained { deliveries, end }
}

} // verus!
