//! The events that cross a bridge, and the plain values they are made of.

use vstd::prelude::*;

verus! {

/// Who said something in the game: the account's unique id, where the game
/// gave one, and the name shown for it.
///
/// A line without a sender has the name `Server` and no id; a sender that the
/// session does not know has its id and the name `Unknown`.
#[derive(Debug, PartialEq, Eq)]
pub struct Identity {
    pub id: Option<u128>,
    pub name: String,
}

/// An `Identity` as a mathematical value.
pub struct IdentityView {
    pub id: Option<u128>,
    pub name: Seq<char>,
}

impl View for Identity {
    type V = IdentityView;

    open spec fn view(&self) -> IdentityView {
        IdentityView { id: self.id, name: self.name@ }
    }
}

impl Clone for Identity {
    fn clone(&self) -> (r: Self)
        ensures
            r@ == self@,
    {
        Identity { id: self.id, name: self.name.clone() }
    }
}

/// A chat line as the game session reports it: the sender's id and name as
/// far as the line carries them, and the text without the name.
#[derive(Debug, PartialEq, Eq)]
pub struct ChatMessage {
    pub sender: Option<u128>,
    pub username: Option<String>,
    pub content: String,
}

/// A `ChatMessage` as a mathematical value.
pub struct ChatMessageView {
    pub sender: Option<u128>,
    pub username: Option<Seq<char>>,
    pub content: Seq<char>,
}

/// The characters of a string that may be missing.
pub open spec fn opt_text(s: Option<String>) -> Option<Seq<char>> {
    match s {
        Some(s) => Some(s@),
        None => None,
    }
}

impl View for ChatMessage {
    type V = ChatMessageView;

    open spec fn view(&self) -> ChatMessageView {
        ChatMessageView {
            sender: self.sender,
            username: opt_text(self.username),
            content: self.content@,
        }
    }
}

impl Clone for ChatMessage {
    fn clone(&self) -> (r: Self)
        ensures
            r@ == self@,
    {
        let username = match &self.username {
            Some(name) => Some(name.clone()),
            None => None,
        };
        ChatMessage { sender: self.sender, username, content: self.content.clone() }
    }
}

/// What the game side sends to a platform.
#[derive(Debug, PartialEq, Eq)]
pub enum AzaleaEvent {
    /// A chat line seen in the game, with the identity found for its sender.
    Chat(Identity, ChatMessage),
    UnusedEnum,
}

/// An `AzaleaEvent` as a mathematical value.
pub enum AzaleaEventView {
    Chat(IdentityView, ChatMessageView),
    UnusedEnum,
}

impl View for AzaleaEvent {
    type V = AzaleaEventView;

    open spec fn view(&self) -> AzaleaEventView {
        match self {
            AzaleaEvent::Chat(who, line) => AzaleaEventView::Chat(who@, line@),
            AzaleaEvent::UnusedEnum => AzaleaEventView::UnusedEnum,
        }
    }
}

impl Clone for AzaleaEvent {
    fn clone(&self) -> (r: Self)
        ensures
            r@ == self@,
    {
        match self {
            AzaleaEvent::Chat(who, line) => AzaleaEvent::Chat(who.clone(), line.clone()),
            AzaleaEvent::UnusedEnum => AzaleaEvent::UnusedEnum,
        }
    }
}

/// What a platform sends to the game side.
#[derive(Debug, PartialEq, Eq)]
pub enum PluginEvent {
    /// A message written on the platform: its author's name and its text.
    Chat(String, String),
    UnusedEnum,
}

/// A `PluginEvent` as a mathematical value.
pub enum PluginEventView {
    Chat(Seq<char>, Seq<char>),
    UnusedEnum,
}

impl View for PluginEvent {
    type V = PluginEventView;

    open spec fn view(&self) -> PluginEventView {
        match self {
            PluginEvent::Chat(name, text) => PluginEventView::Chat(name@, text@),
            PluginEvent::UnusedEnum => PluginEventView::UnusedEnum,
        }
    }
}

impl Clone for PluginEvent {
    fn clone(&self) -> (r: Self)
        ensures
            r@ == self@,
    {
        match self {
            PluginEvent::Chat(name, text) => PluginEvent::Chat(name.clone(), text.clone()),
            PluginEvent::UnusedEnum => PluginEvent::UnusedEnum,
        }
    }
}

/// What the game side sends to a platform that keeps a queue of its own: a
/// chat line seen in the game, with its sender's identity where the session
/// knows the sender.
#[derive(Debug, PartialEq, Eq)]
pub enum GameEvent {
    Chat(Option<Identity>, ChatMessage),
}

/// A `GameEvent` as a mathematical value.
pub enum GameEventView {
    Chat(Option<IdentityView>, ChatMessageView),
}

impl View for GameEvent {
    type V = GameEventView;

    open spec fn view(&self) -> GameEventView {
        match self {
            GameEvent::Chat(Some(who), line) => GameEventView::Chat(Some(who@), line@),
            GameEvent::Chat(None, line) => GameEventView::Chat(None, line@),
        }
    }
}

impl Clone for GameEvent {
    fn clone(&self) -> (r: Self)
        ensures
            r@ == self@,
    {
        match self {
            GameEvent::Chat(Some(who), line) => GameEvent::Chat(Some(who.clone()), line.clone()),
            GameEvent::Chat(None, line) => GameEvent::Chat(None, line.clone()),
        }
    }
}

/// A chat line as one local account saw it: the account's name, where it is
/// known, and the line.
#[derive(Debug, PartialEq, Eq)]
pub struct Sighting {
    pub receiver: Option<String>,
    pub line: ChatMessage,
}

/// A `Sighting` as a mathematical value.
pub struct SightingView {
    pub receiver: Option<Seq<char>>,
    pub line: ChatMessageView,
}

impl View for Sighting {
    type V = SightingView;

    open spec fn view(&self) -> SightingView {
        SightingView { receiver: opt_text(self.receiver), line: self.line@ }
    }
}

} // verus!
