//! The game side of the Discord platform, and what its adapter decides.

use flume::{Receiver, Sender};
use vstd::prelude::*;
use crate::bridge::{should_run, ChannelClosed, DrainEnd, ShouldRun};
use crate::event::{GameEvent, Identity, PluginEvent, PluginEventView, Sighting};
use crate::filter::names;
use crate::plugin::{
    drain_for_players, is_target, opt_name, player_delivered, relay_sightings, relayed,
    sighting_views, PlayerDrained,
};
use crate::producer::identity_views;
use crate::text::{replace_char, replaced};

verus! {

/// Through which local accounts the platform relays.
///
/// With one account the mode does not matter. With a fleet of them, which
/// account says a line in the game is not fixed; `Single` names the only
/// account that is listened to and spoken through.
#[derive(Debug, PartialEq, Eq)]
pub enum DiscordPluginMode {
    Default,
    Single(String),
}

impl Default for DiscordPluginMode {
    fn default() -> (mode: Self)
        ensures
            mode is Default,
    {
        DiscordPluginMode::Default
    }
}

impl Clone for DiscordPluginMode {
    fn clone(&self) -> (r: Self)
        ensures
            r.target_name() == self.target_name(),
    {
        match self {
            DiscordPluginMode::Default => DiscordPluginMode::Default,
            DiscordPluginMode::Single(name) => DiscordPluginMode::Single(name.clone()),
        }
    }
}

impl DiscordPluginMode {
    /// The name of the one account that counts, in single mode.
    pub open spec fn target_name(&self) -> Option<Seq<char>> {
        match self {
            DiscordPluginMode::Default => None,
            DiscordPluginMode::Single(name) => Some(name@),
        }
    }

    /// The name of the one account that counts, in single mode.
    pub fn target(&self) -> (t: Option<&String>)
        ensures
            opt_name(t) == self.target_name(),
    {
        match self {
            DiscordPluginMode::Default => None,
            DiscordPluginMode::Single(name) => Some(name),
        }
    }
}

/// The game side's ends of the two queues to the Discord adapter, with the
/// platform's settings.
#[derive(Debug)]
pub struct DiscordPluginChannel {
    rx: Receiver<PluginEvent>,
    tx: Sender<GameEvent>,
    /// The names of players whose chat is not relayed.
    pub ignore: Vec<String>,
    pub mode: DiscordPluginMode,
}

/// The adapter's ends of the two queues.
#[derive(Debug)]
pub struct DiscordAdapterEnds {
    /// Where the game's events arrive.
    pub rx: Receiver<GameEvent>,
    /// Where the platform's events leave.
    pub tx: Sender<PluginEvent>,
}

impl DiscordPluginChannel {
    /// The names on the ignore list, in its order.
    pub closed spec fn ignored(&self) -> Seq<Seq<char>> {
        names(self.ignore@)
    }

    /// The name of the one account that counts, in single mode.
    pub closed spec fn target_name(&self) -> Option<Seq<char>> {
        self.mode.target_name()
    }

    /// Makes the two queues between the game side and the adapter. The game
    /// side starts in default mode with the ignore list `ignore`.
    pub fn open(ignore: Vec<String>) -> (ends: (DiscordPluginChannel, DiscordAdapterEnds))
        ensures
            ends.0.ignored() == names(ignore@),
            ends.0.target_name() is None,
    {
        let (client_tx, client_rx) = flume::unbounded();
        let (server_tx, server_rx) = flume::unbounded();
        (
            DiscordPluginChannel {
                rx: server_rx,
                tx: client_tx,
                ignore,
                mode: DiscordPluginMode::default(),
            },
            DiscordAdapterEnds { rx: client_rx, tx: server_tx },
        )
    }
}

impl Clone for DiscordPluginChannel {
    /// One more pair of handles of the same two queues, with the same
    /// settings.
    fn clone(&self) -> (r: Self)
        ensures
            r.ignored() == self.ignored(),
            r.target_name() == self.target_name(),
    {
        let mut ignore: Vec<String> = Vec::new();
        let mut i: usize = 0;
        while i < self.ignore.len()
            invariant
                i <= self.ignore.len(),
                ignore@.len() == i,
                forall|k: int| 0 <= k < i ==> ignore@[k]@ == self.ignore@[k]@,
            decreases self.ignore.len() - i,
        {
            ignore.push(self.ignore[i].clone());
            i = i + 1;
        }
        assert(names(ignore@) =~= names(self.ignore@));
        DiscordPluginChannel {
            rx: self.rx.clone(),
            tx: self.tx.clone(),
            ignore,
            mode: self.mode.clone(),
        }
    }
}

/// Hands what the local accounts saw in the game to the adapter: each line
/// once, from the accounts that count, without the lines of ignored players.
pub fn listen_mc_chat(
    channel: &DiscordPluginChannel,
    profiles: &Vec<Identity>,
    chat_events: &Vec<Sighting>,
) -> (r: Result<usize, ChannelClosed>)
    ensures
        match r {
            Ok(sent) => sent == relayed(
                channel.target_name(),
                channel.ignored(),
                identity_views(profiles@),
                sighting_views(chat_events@),
            ).len(),
            Err(closed) => closed.sent < relayed(
                channel.target_name(),
                channel.ignored(),
                identity_views(profiles@),
                sighting_views(chat_events@),
            ).len(),
        },
{
    relay_sightings(&channel.tx, channel.mode.target(), &channel.ignore, profiles, chat_events)
}

/// Whether there is something to say in the game: `No` exactly when the
/// queue from the adapter reports to be empty.
pub fn listen_discord_chat_criteria(channel: &DiscordPluginChannel) -> (r: ShouldRun) {
    should_run(channel.rx.is_empty())
}

/// Takes what the adapter sent and cuts it into fragments for the game, to
/// be said through the local accounts that count. `players` are the names
/// of the local accounts.
pub fn listen_discord_chat(channel: &DiscordPluginChannel, players: &Vec<String>) -> (out:
    PlayerDrained)
    ensures
        forall|k: int|
            0 <= k < out.deliveries@.len() ==> player_delivered(
                channel.target_name(),
                names(players@),
                #[trigger] out.deliveries@[k],
            ),
        forall|k: int, l: int|
            0 <= k <= l < out.deliveries@.len() ==> (#[trigger] out.deliveries@[k]).player
                <= (#[trigger] out.deliveries@[l]).player,
        out.end is None <==> forall|p: int|
            0 <= p < players@.len() ==> !is_target(
                channel.target_name(),
                Some(#[trigger] players@[p]@),
            ),
        out.end == Some(DrainEnd::Limit) ==> out.deliveries@.len() == usize::MAX,
{
    drain_for_players(&channel.rx, channel.mode.target(), players)
}

/// What of a gateway event the adapter looks at.
#[derive(Debug, PartialEq, Eq)]
pub enum GatewayEvent {
    /// The bot is connected.
    Ready,
    /// A message was written in some channel.
    MessageCreate { channel_id: u64, author_is_bot: bool, author_name: String, content: String },
    /// Anything else.
    Other,
}

/// What the adapter does with a gateway event.
#[derive(Debug, PartialEq, Eq)]
pub enum GatewayAction {
    /// Note in the log that the bot is ready.
    AnnounceReady,
    /// Send this event to the game side.
    Relay(PluginEvent),
    /// Nothing.
    Skip,
}

/// What the adapter does with a gateway event, as a mathematical value.
pub enum GatewayActionView {
    AnnounceReady,
    Relay(PluginEventView),
    Skip,
}

impl View for GatewayAction {
    type V = GatewayActionView;

    open spec fn view(&self) -> GatewayActionView {
        match self {
            GatewayAction::AnnounceReady => GatewayActionView::AnnounceReady,
            GatewayAction::Relay(event) => GatewayActionView::Relay(event@),
            GatewayAction::Skip => GatewayActionView::Skip,
        }
    }
}

/// What the adapter does with `event` when it watches the channel
/// `channel_id`: a message is relayed, under its author's name, when it was
/// written in that channel and not by a bot.
pub fn handle_discord_event(event: &GatewayEvent, channel_id: u64) -> (action: GatewayAction)
    ensures
        action@ == (match *event {
            GatewayEvent::Ready => GatewayActionView::AnnounceReady,
            GatewayEvent::MessageCreate { channel_id: written_in, author_is_bot, author_name, content } =>
                if written_in == channel_id && !author_is_bot {
                    GatewayActionView::Relay(PluginEventView::Chat(author_name@, content@))
                } else {
                    GatewayActionView::Skip
                },
            GatewayEvent::Other => GatewayActionView::Skip,
        }),
{
    match event {
        GatewayEvent::Ready => GatewayAction::AnnounceReady,
        GatewayEvent::MessageCreate { channel_id: written_in, author_is_bot, author_name, content } => {
            if channel_id != *written_in {
                return GatewayAction::Skip;
            }
            if *author_is_bot {
                return GatewayAction::Skip;
            }
            GatewayAction::Relay(PluginEvent::Chat(author_name.clone(), content.clone()))
        },
        GatewayEvent::Other => GatewayAction::Skip,
    }
}

/// The name under which a line is posted: the name that the line carries,
/// or else the name of the identity it was relayed under.
pub fn webhook_username(username: Option<String>, profile_name: String) -> (name: String)
    ensures
        name@ == (match username {
            Some(user) => user@,
            None => profile_name@,
        }),
{
    if let Some(user) = username {
        user
    } else {
        profile_name
    }
}

/// `content` with the platform's formatting marks put out of force, as the
/// adapter does it: five replacements, one after the other.
pub open spec fn escaped(content: Seq<char>) -> Seq<char> {
    let step1 = replaced(content, '\\', seq!['\\', '*']);
    let step2 = replaced(step1, '*', seq!['\\', '*']);
    let step3 = replaced(step2, '_', seq!['\\', '_']);
    let step4 = replaced(step3, '`', seq!['\\', '`']);
    replaced(step4, '>', seq!['\\', '>'])
}

/// Puts the platform's formatting marks in `content` out of force.
pub fn escape_markdown(content: &str) -> (out: String)
    ensures
        out@ == escaped(content@),
{
    proof {
        reveal_strlit("\\*");
        reveal_strlit("\\_");
        reveal_strlit("\\`");
        reveal_strlit("\\>");
        assert("\\*"@ =~= seq!['\\', '*']);
        assert("\\_"@ =~= seq!['\\', '_']);
        assert("\\`"@ =~= seq!['\\', '`']);
        assert("\\>"@ =~= seq!['\\', '>']);
    }
    let step1 = replace_char(content, '\\', "\\*");
    let step2 = replace_char(step1.as_str(), '*', "\\*");
    let step3 = replace_char(step2.as_str(), '_', "\\_");
    let step4 = replace_char(step3.as_str(), '`', "\\`");
    replace_char(step4.as_str(), '>', "\\>")
}

} // verus!
