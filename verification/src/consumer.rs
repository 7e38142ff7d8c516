//! From an event that a platform sent to what the game side does with it.
//!
//! A chat event is first handed on to every linked bridge, as a line said by
//! the local game account, and then cut into the fragments that are sent to
//! the game.

use vstd::prelude::*;
use vstd::utf8::encode_utf8;
use crate::chunk::{format_message, fragment_bytes, fragments, message_text};
use crate::event::{
    AzaleaEvent, AzaleaEventView, ChatMessage, ChatMessageView, Identity, IdentityView, PluginEvent,
    PluginEventView,
};

verus! {

/// What a linked bridge is sent for `event`: the line `name: text`, said by
/// the local account `local`.
pub open spec fn forwarded(event: PluginEventView, local: IdentityView) -> Option<AzaleaEventView> {
    match event {
        PluginEventView::Chat(name, text) => Some(
            AzaleaEventView::Chat(
                local,
                ChatMessageView {
                    sender: local.id,
                    username: Some(local.name),
                    content: message_text(name, text),
                },
            ),
        ),
        PluginEventView::UnusedEnum => None,
    }
}

/// The fragments, each as its bytes, that are sent to the game for `event`.
pub open spec fn outgoing(event: PluginEventView) -> Seq<Seq<u8>> {
    match event {
        PluginEventView::Chat(name, text) => fragments(encode_utf8(message_text(name, text))),
        PluginEventView::UnusedEnum => Seq::empty(),
    }
}

/// An event that may be missing, as a mathematical value.
pub open spec fn opt_event_view(event: Option<AzaleaEvent>) -> Option<AzaleaEventView> {
    match event {
        Some(e) => Some(e@),
        None => None,
    }
}

/// An identity that may be missing, as a mathematical value.
pub open spec fn opt_identity_view(who: Option<&Identity>) -> Option<IdentityView> {
    match who {
        Some(p) => Some(p@),
        None => None,
    }
}

/// The event that is sent to the linked bridges for `event`: for a chat
/// event the line `name: text` under the local account's identity, for any
/// other event nothing.
pub fn forward_event(event: &PluginEvent, local: &Identity) -> (out: Option<AzaleaEvent>)
    ensures
        opt_event_view(out) == forwarded(event@, local@),
{
    match event {
        PluginEvent::Chat(name, text) => {
            let mut content = name.clone();
            content.append(": ");
            content.append(text.as_str());
            proof {
                reveal_strlit(": ");
                assert(content@ =~= message_text(name@, text@));
            }
            Some(
                AzaleaEvent::Chat(
                    local.clone(),
                    ChatMessage { sender: local.id, username: Some(local.name.clone()), content },
                ),
            )
        },
        PluginEvent::UnusedEnum => None,
    }
}

/// The fragments that are sent to the game for `event`, in the order in
/// which they are sent: those of the line `name: text` for a chat event,
/// none for any other event.
pub fn outgoing_lines(event: &PluginEvent) -> (lines: Vec<String>)
    ensures
        fragment_bytes(lines@) == outgoing(event@),
{
    match event {
        PluginEvent::Chat(name, text) => format_message(name.clone(), text.clone()),
        PluginEvent::UnusedEnum => {
            let lines: Vec<String> = Vec::new();
            assert(fragment_bytes(lines@) =~= Seq::<Seq<u8>>::empty());
            lines
        },
    }
}

} // verus!
