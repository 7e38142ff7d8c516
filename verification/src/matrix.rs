//! The game side of the Matrix platform, and what its adapter decides.

use flume::{Receiver, Sender};
use vstd::prelude::*;
use crate::bridge::{should_run, ChannelClosed, DrainEnd, ShouldRun};
use crate::event::{GameEvent, Identity, PluginEvent, PluginEventView, Sighting};
use crate::filter::names;
use crate::plugin::{
    drain_for_players, is_target, opt_name, player_delivered, relay_sightings, relayed,
    sighting_views, PlayerDrained,
};
use crate::producer::{identity_views, server_name};
use crate::text::{
    ends_with, has_suffix, replace_char, replaced, trim_end_matches, trim_start_matches,
    trimmed_end, trimmed_start,
};

verus! {

/// Through which local accounts the platform relays.
///
/// With one account the mode does not matter. With a fleet of them, which
/// account says a line in the game is not fixed; `Single` names the only
/// account that is listened to and spoken through.
#[derive(Debug, PartialEq, Eq)]
pub enum MatrixPluginMode {
    Default,
    Single(String),
}

impl Default for MatrixPluginMode {
    fn default() -> (mode: Self)
        ensures
            mode is Default,
    {
        MatrixPluginMode::Default
    }
}

impl Clone for MatrixPluginMode {
    fn clone(&self) -> (r: Self)
        ensures
            r.target_name() == self.target_name(),
    {
        match self {
            MatrixPluginMode::Default => MatrixPluginMode::Default,
            MatrixPluginMode::Single(name) => MatrixPluginMode::Single(name.clone()),
        }
    }
}

impl MatrixPluginMode {
    /// The name of the one account that counts, in single mode.
    pub open spec fn target_name(&self) -> Option<Seq<char>> {
        match self {
            MatrixPluginMode::Default => None,
            MatrixPluginMode::Single(name) => Some(name@),
        }
    }

    /// The name of the one account that counts, in single mode.
    pub fn target(&self) -> (t: Option<&String>)
        ensures
            opt_name(t) == self.target_name(),
    {
        match self {
            MatrixPluginMode::Default => None,
            MatrixPluginMode::Single(name) => Some(name),
        }
    }
}

/// The game side's ends of the two queues to the Matrix adapter, with the
/// platform's settings.
#[derive(Debug)]
pub struct MatrixPluginChannel {
    rx: Receiver<PluginEvent>,
    tx: Sender<GameEvent>,
    pub mode: MatrixPluginMode,
    /// The names of players whose chat is not relayed.
    pub ignore: Vec<String>,
}

/// The adapter's ends of the two queues.
#[derive(Debug)]
pub struct MatrixAdapterEnds {
    /// Where the game's events arrive.
    pub rx: Receiver<GameEvent>,
    /// Where the platform's events leave.
    pub tx: Sender<PluginEvent>,
}

impl MatrixPluginChannel {
    /// The names on the ignore list, in its order.
    pub closed spec fn ignored(&self) -> Seq<Seq<char>> {
        names(self.ignore@)
    }

    /// The name of the one account that counts, in single mode.
    pub closed spec fn target_name(&self) -> Option<Seq<char>> {
        self.mode.target_name()
    }

    /// Makes the two queues between the game side and the adapter. The game
    /// side starts in default mode with the ignore list `ignore`.
    pub fn open(ignore: Vec<String>) -> (ends: (MatrixPluginChannel, MatrixAdapterEnds))
        ensures
            ends.0.ignored() == names(ignore@),
            ends.0.target_name() is None,
    {
        let (client_tx, client_rx) = flume::unbounded();
        let (server_tx, server_rx) = flume::unbounded();
        (
            MatrixPluginChannel {
                rx: server_rx,
                tx: client_tx,
                mode: MatrixPluginMode::default(),
                ignore,
            },
            MatrixAdapterEnds { rx: client_rx, tx: server_tx },
        )
    }
}

impl Clone for MatrixPluginChannel {
    /// One more pair of handles of the same two queues, with the same
    /// settings.
    fn clone(&self) -> (r: Self)
        ensures
            r.ignored() == self.ignored(),
            r.target_name() == self.target_name(),
    {
        let mut ignore: Vec<String> = Vec::new();
        let mut i: usize = 0;
        while i < self.ignore.len()
            invariant
                i <= self.ignore.len(),
                ignore@.len() == i,
                forall|k: int| 0 <= k < i ==> ignore@[k]@ == self.ignore@[k]@,
            decreases self.ignore.len() - i,
        {
            ignore.push(self.ignore[i].clone());
            i = i + 1;
        }
        assert(names(ignore@) =~= names(self.ignore@));
        MatrixPluginChannel {
            rx: self.rx.clone(),
            tx: self.tx.clone(),
            mode: self.mode.clone(),
            ignore,
        }
    }
}

/// Hands what the local accounts saw in the game to the adapter: each line
/// once, from the accounts that count, without the lines of ignored players.
pub fn listen_mc_chat(
    channel: &MatrixPluginChannel,
    profiles: &Vec<Identity>,
    chat_events: &Vec<Sighting>,
) -> (r: Result<usize, ChannelClosed>)
    ensures
        match r {
            Ok(sent) => sent == relayed(
                channel.target_name(),
                channel.ignored(),
                identity_views(profiles@),
                sighting_views(chat_events@),
            ).len(),
            Err(closed) => closed.sent < relayed(
                channel.target_name(),
                channel.ignored(),
                identity_views(profiles@),
                sighting_views(chat_events@),
            ).len(),
        },
{
    relay_sightings(&channel.tx, channel.mode.target(), &channel.ignore, profiles, chat_events)
}

/// Whether there is something to say in the game: `No` exactly when the
/// queue from the adapter reports to be empty.
pub fn listen_mx_chat_criteria(channel: &MatrixPluginChannel) -> (r: ShouldRun) {
    should_run(channel.rx.is_empty())
}

/// Takes what the adapter sent and cuts it into fragments for the game, to
/// be said through the local accounts that count. `players` are the names
/// of the local accounts.
pub fn listen_mx_chat(channel: &MatrixPluginChannel, players: &Vec<String>) -> (out: PlayerDrained)
    ensures
        forall|k: int|
            0 <= k < out.deliveries@.len() ==> player_delivered(
                channel.target_name(),
                names(players@),
                #[trigger] out.deliveries@[k],
            ),
        forall|k: int, l: int|
            0 <= k <= l < out.deliveries@.len() ==> (#[trigger] out.deliveries@[k]).player
                <= (#[trigger] out.deliveries@[l]).player,
        out.end is None <==> forall|p: int|
            0 <= p < players@.len() ==> !is_target(
                channel.target_name(),
                Some(#[trigger] players@[p]@),
            ),
        out.end == Some(DrainEnd::Limit) ==> out.deliveries@.len() == usize::MAX,
{
    drain_for_players(&channel.rx, channel.mode.target(), players)
}

/// The text that `uuid` gives for the id `id`: lower-case hexadecimal digits
/// in five groups with hyphens between them.
pub uninterp spec fn uuid_text(id: u128) -> Seq<char>;

/// `Uuid::from_u128` takes the id as it is, and `to_string` writes a `Uuid`
/// in its hyphenated form. The text depends on the id alone.
#[verifier::external_body]
fn uuid_to_string(id: u128) -> (text: String)
    ensures
        text@ == uuid_text(id),
{
    uuid::Uuid::from_u128(id).to_string()
}

/// The first part of the address of the platform user that stands for a
/// game account: the namespace's pattern without the `@`s before it and the
/// `.*`s after it, then the account's id with `_` for each `-`.
pub open spec fn localpart_text(namespace: Seq<char>, id_text: Seq<char>) -> Seq<char> {
    trimmed_end(trimmed_start(namespace, seq!['@']), seq!['.', '*']) + replaced(
        id_text,
        '-',
        seq!['_'],
    )
}

/// The first part of the address of the platform user that stands for the
/// game account whose id is written `id_text`.
pub fn localpart_from(namespace: &str, id_text: &str) -> (out: String)
    ensures
        out@ == localpart_text(namespace@, id_text@),
{
    proof {
        reveal_strlit("@");
        reveal_strlit(".*");
        reveal_strlit("_");
        assert("@"@ =~= seq!['@']);
        assert(".*"@ =~= seq!['.', '*']);
        assert("_"@ =~= seq!['_']);
    }
    let head = trim_end_matches(trim_start_matches(namespace, "@"), ".*");
    let tail = replace_char(id_text, '-', "_");
    let mut out = head.to_owned();
    out.append(tail.as_str());
    out
}

/// The first part of the address of the platform user that stands for the
/// sender of a line. A line without a sender has the id zero.
pub fn localpart(namespace: &str, sender: Option<u128>) -> (out: String)
    ensures
        out@ == localpart_text(
            namespace@,
            uuid_text(
                match sender {
                    Some(id) => id,
                    None => 0,
                },
            ),
        ),
{
    let id: u128 = match sender {
        Some(id) => id,
        None => 0,
    };
    let id_text = uuid_to_string(id);
    localpart_from(namespace, id_text.as_str())
}

/// The name shown for the sender of a line: the name that the line carries,
/// or else `Server`.
pub fn sender_name(username: Option<String>) -> (name: String)
    ensures
        name@ == (match username {
            Some(user) => user@,
            None => server_name(),
        }),
{
    if let Some(user) = username {
        user
    } else {
        proof {
            reveal_strlit("Server");
            assert("Server"@ =~= server_name());
        }
        "Server".to_owned()
    }
}

/// Whether a display name has to be set: when none is set, or another.
pub fn needs_display_name(current: Option<&String>, wanted: &String) -> (r: bool)
    ensures
        r == (opt_name(current) != Some(wanted@)),
{
    match current {
        Some(name) => *wanted != *name,
        None => true,
    }
}

/// What a platform user has to do before it can write in the room.
#[derive(Debug, Clone, Copy, PartialEq, Eq, Structural)]
pub enum Membership {
    /// It is in the room.
    Ready,
    /// It can join as it is.
    Join,
    /// It has to be invited first, and then join.
    InviteThenJoin,
}

/// What a platform user has to do before it can write in the room: nothing
/// when it has joined; else join, after an invitation when the room is not
/// open to all and it has none yet.
pub fn membership(joined: bool, room_is_public: bool, invited: bool) -> (step: Membership)
    ensures
        step == (if joined {
            Membership::Ready
        } else if !room_is_public && !invited {
            Membership::InviteThenJoin
        } else {
            Membership::Join
        }),
{
    if !joined {
        if !room_is_public && !invited {
            Membership::InviteThenJoin
        } else {
            Membership::Join
        }
    } else {
        Membership::Ready
    }
}

/// The place of the first pattern that ends with `.*`, if there is one.
pub open spec fn first_open_pattern(patterns: Seq<Seq<char>>) -> Option<int>
    decreases patterns.len(),
{
    if patterns.len() == 0 {
        None
    } else if has_suffix(patterns[0], seq!['.', '*']) {
        Some(0)
    } else {
        match first_open_pattern(patterns.drop_first()) {
            Some(i) => Some(i + 1),
            None => None,
        }
    }
}

/// The namespace for the accounts of players: the first of `patterns` that
/// ends with `.*`, given by its place. `None` where there is none.
pub fn get_namespace(patterns: &Vec<String>) -> (found: Option<usize>)
    ensures
        match found {
            Some(i) => first_open_pattern(names(patterns@)) == Some(i as int) && i < patterns@.len(),
            None => first_open_pattern(names(patterns@)) is None,
        },
{
    proof {
        reveal_strlit(".*");
        assert(".*"@ =~= seq!['.', '*']);
    }
    let ghost all = names(patterns@);
    let mut i: usize = 0;
    assert(all.skip(0) =~= all);
    while i < patterns.len()
        invariant
            i <= patterns.len(),
            all == names(patterns@),
            ".*"@ == seq!['.', '*'],
            first_open_pattern(all) == (match first_open_pattern(all.skip(i as int)) {
                Some(k) => Some(k + i),
                None => None,
            }),
        decreases patterns.len() - i,
    {
        proof {
            assert(all.skip(i as int)[0] == patterns@[i as int]@);
            assert(all.skip(i as int).drop_first() =~= all.skip(i as int + 1));
        }
        if ends_with(patterns[i].as_str(), ".*") {
            return Some(i);
        }
        i = i + 1;
    }
    None
}

/// Where a room was found.
#[derive(Debug, Clone, Copy, PartialEq, Eq, Structural)]
pub enum RoomHit {
    /// Among all rooms, at this place.
    Known(usize),
    /// Among the joined rooms, at this place.
    Joined(usize),
    /// Among the rooms invited to, at this place.
    Invited(usize),
    /// Among the rooms left, at this place.
    Left(usize),
}

/// The place of the first of `ids` that is `target`.
pub open spec fn first_place(ids: Seq<Seq<char>>, target: Seq<char>) -> Option<int>
    decreases ids.len(),
{
    if ids.len() == 0 {
        None
    } else if ids[0] == target {
        Some(0)
    } else {
        match first_place(ids.drop_first(), target) {
            Some(i) => Some(i + 1),
            None => None,
        }
    }
}

/// The place of the first of `ids` that is `target`.
pub fn find_place(ids: &Vec<String>, target: &String) -> (found: Option<usize>)
    ensures
        match found {
            Some(i) => first_place(names(ids@), target@) == Some(i as int) && i < ids@.len(),
            None => first_place(names(ids@), target@) is None,
        },
{
    let ghost all = names(ids@);
    let mut i: usize = 0;
    assert(all.skip(0) =~= all);
    while i < ids.len()
        invariant
            i <= ids.len(),
            all == names(ids@),
            first_place(all, target@) == (match first_place(all.skip(i as int), target@) {
                Some(k) => Some(k + i),
                None => None,
            }),
        decreases ids.len() - i,
    {
        proof {
            assert(all.skip(i as int)[0] == ids@[i as int]@);
            assert(all.skip(i as int).drop_first() =~= all.skip(i as int + 1));
        }
        if ids[i] == *target {
            return Some(i);
        }
        i = i + 1;
    }
    None
}

/// Where the room `target` is found: among all rooms first, then among the
/// joined ones, those invited to, and those left.
pub open spec fn room_place(
    target: Seq<char>,
    rooms: Seq<Seq<char>>,
    joined: Seq<Seq<char>>,
    invited: Seq<Seq<char>>,
    left: Seq<Seq<char>>,
) -> Option<RoomHit> {
    if let Some(i) = first_place(rooms, target) {
        Some(RoomHit::Known(i as usize))
    } else if let Some(i) = first_place(joined, target) {
        Some(RoomHit::Joined(i as usize))
    } else if let Some(i) = first_place(invited, target) {
        Some(RoomHit::Invited(i as usize))
    } else if let Some(i) = first_place(left, target) {
        Some(RoomHit::Left(i as usize))
    } else {
        None
    }
}

/// Looks for the room with the id `target` in the lists of room ids that
/// the platform gives. `None` where the bot is in no such room.
pub fn get_room(
    target: &String,
    rooms: &Vec<String>,
    joined: &Vec<String>,
    invited: &Vec<String>,
    left: &Vec<String>,
) -> (found: Option<RoomHit>)
    ensures
        found == room_place(target@, names(rooms@), names(joined@), names(invited@), names(left@)),
{
    if let Some(i) = find_place(rooms, target) {
        return Some(RoomHit::Known(i));
    }
    if let Some(i) = find_place(joined, target) {
        return Some(RoomHit::Joined(i));
    }
    if let Some(i) = find_place(invited, target) {
        return Some(RoomHit::Invited(i));
    }
    if let Some(i) = find_place(left, target) {
        return Some(RoomHit::Left(i));
    }
    None
}

/// Whether the adapter relays a message of the room: when it is text and not
/// written by one of the users that stand for game accounts.
pub fn wants_message(sender_is_ours: bool, is_text: bool) -> (r: bool)
    ensures
        r == (!sender_is_ours && is_text),
{
    if sender_is_ours {
        return false;
    }
    is_text
}

/// The event for a message of the room: its text under the author's display
/// name, or under the author's plain name where no display name is set.
pub fn message_event(display_name: Option<String>, name: String, body: String) -> (event:
    PluginEvent)
    ensures
        event@ == PluginEventView::Chat(
            match display_name {
                Some(shown) => shown@,
                None => name@,
            },
            body@,
        ),
{
    let username = if let Some(shown) = display_name {
        shown
    } else {
        name
    };
    PluginEvent::Chat(username, body)
}

/// What the adapter does with a change of membership.
#[derive(Debug, Clone, Copy, PartialEq, Eq, Structural)]
pub enum RoomAction {
    /// Warn that the event is for another room.
    WrongRoom,
    /// Warn that the user is not one of ours.
    NotOurs,
    /// Let the user join the room.
    AcceptInvite,
    /// Nothing.
    Nothing,
}

/// What the adapter does with a change of membership: an invitation of one
/// of our users to the watched room is accepted.
pub fn mx_room_handler(same_room: bool, user_is_ours: bool, is_invite: bool) -> (action: RoomAction)
    ensures
        action == (if !same_room {
            RoomAction::WrongRoom
        } else if !user_is_ours {
            RoomAction::NotOurs
        } else if is_invite {
            RoomAction::AcceptInvite
        } else {
            RoomAction::Nothing
        }),
{
    if !same_room {
        RoomAction::WrongRoom
    } else if !user_is_ours {
        RoomAction::NotOurs
    } else {
        if is_invite {
            RoomAction::AcceptInvite
        } else {
            RoomAction::Nothing
        }
    }
}

/// Whether a failed registration of a user is a fault: not when the platform
/// says that the user is in use already.
pub fn should_error(is_platform_error: bool, user_in_use: bool) -> (fault: bool)
    ensures
        fault == !(is_platform_error && user_in_use),
{
    if is_platform_error {
        return !user_in_use;
    }
    true
}

} // verus!
