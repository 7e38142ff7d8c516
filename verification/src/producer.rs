//! From a chat line seen in the game to the event that is sent to a platform.
//!
//! The sender of a line is looked up among the identities that the session
//! knows. A known sender whose name is on the ignore list is not relayed. A
//! line without a sender, or from a sender that is not known, is always
//! relayed: the ignore list is a list of players.

use vstd::prelude::*;
use crate::event::{AzaleaEvent, AzaleaEventView, ChatMessage, ChatMessageView, Identity, IdentityView};
use crate::filter::{is_ignored, names};

verus! {

/// The name given to the sender of a line that carries no sender.
pub open spec fn server_name() -> Seq<char> {
    seq!['S', 'e', 'r', 'v', 'e', 'r']
}

/// The name given to a sender that the session does not know.
pub open spec fn unknown_name() -> Seq<char> {
    seq!['U', 'n', 'k', 'n', 'o', 'w', 'n']
}

/// Each identity of a list as a mathematical value.
pub open spec fn identity_views(profiles: Seq<Identity>) -> Seq<IdentityView> {
    profiles.map_values(|p: Identity| p@)
}

/// The first identity of `profiles` that has the id `id`.
pub open spec fn known_identity(profiles: Seq<IdentityView>, id: u128) -> Option<IdentityView>
    decreases profiles.len(),
{
    if profiles.len() == 0 {
        None
    } else if profiles[0].id == Some(id) {
        Some(profiles[0])
    } else {
        known_identity(profiles.drop_first(), id)
    }
}

/// The identity under which a line from `sender` is relayed.
pub open spec fn resolved_identity(profiles: Seq<IdentityView>, sender: Option<u128>)
    -> IdentityView {
    match sender {
        Some(id) => match known_identity(profiles, id) {
            Some(found) => found,
            None => IdentityView { id: Some(id), name: unknown_name() },
        },
        None => IdentityView { id: None, name: server_name() },
    }
}

/// Whether a line from `sender` is dropped: its sender is known and the
/// sender's name is on the ignore list.
pub open spec fn is_dropped(
    profiles: Seq<IdentityView>,
    ignore: Seq<Seq<char>>,
    sender: Option<u128>,
) -> bool {
    match sender {
        Some(id) => match known_identity(profiles, id) {
            Some(found) => ignore.contains(found.name),
            None => false,
        },
        None => false,
    }
}

/// The event that a line seen in the game gives, if it gives one.
pub open spec fn inbound(
    profiles: Seq<IdentityView>,
    ignore: Seq<Seq<char>>,
    line: ChatMessageView,
) -> Option<AzaleaEventView> {
    if is_dropped(profiles, ignore, line.sender) {
        None
    } else {
        Some(AzaleaEventView::Chat(resolved_identity(profiles, line.sender), line))
    }
}

/// `known_identity` finds an identity of the list that has the id, and the
/// first such; it finds none only where no identity of the list has the id.
pub proof fn lemma_known_identity(profiles: Seq<IdentityView>, id: u128)
    ensures
        match known_identity(profiles, id) {
            Some(found) => exists|i: int|
                0 <= i < profiles.len() && profiles[i] == found && found.id == Some(id) && forall|
                    j: int,
                |
                    0 <= j < i ==> (#[trigger] profiles[j]).id != Some(id),
            None => forall|i: int| 0 <= i < profiles.len() ==> (#[trigger] profiles[i]).id != Some(id),
        },
    decreases profiles.len(),
{
    if profiles.len() > 0 && profiles[0].id != Some(id) {
        let rest = profiles.drop_first();
        lemma_known_identity(rest, id);
        match known_identity(rest, id) {
            Some(found) => {
                let i = choose|i: int|
                    0 <= i < rest.len() && rest[i] == found && found.id == Some(id) && forall|
                        j: int,
                    |
                        0 <= j < i ==> (#[trigger] rest[j]).id != Some(id);
                assert(profiles[i + 1] == found);
                assert forall|j: int| 0 <= j < i + 1 implies (#[trigger] profiles[j]).id != Some(
                    id,
                ) by {
                    if j > 0 {
                        assert(rest[j - 1] == profiles[j]);
                    }
                }
            },
            None => {
                assert forall|i: int| 0 <= i < profiles.len() implies (#[trigger] profiles[i]).id
                    != Some(id) by {
                    if i > 0 {
                        assert(rest[i - 1] == profiles[i]);
                    }
                }
            },
        }
    } else if profiles.len() > 0 {
        assert(profiles[0] == profiles[0]);
    }
}

/// Looks `uuid` up among the identities that the session knows and gives the
/// first that has it.
pub fn find_profile(uuid: u128, profiles: &Vec<Identity>) -> (found: Option<Identity>)
    ensures
        match found {
            Some(p) => known_identity(identity_views(profiles@), uuid) == Some(p@),
            None => known_identity(identity_views(profiles@), uuid) is None,
        },
{
    let ghost all = identity_views(profiles@);
    let mut i: usize = 0;
    assert(all.skip(0) =~= all);
    while i < profiles.len()
        invariant
            i <= profiles.len(),
            all == identity_views(profiles@),
            known_identity(all, uuid) == known_identity(all.skip(i as int), uuid),
        decreases profiles.len() - i,
    {
        proof {
            assert(all.skip(i as int)[0] == profiles@[i as int]@);
            assert(all.skip(i as int).drop_first() =~= all.skip(i as int + 1));
        }
        match profiles[i].id {
            Some(id) => {
                if id == uuid {
                    return Some(profiles[i].clone());
                }
            },
            None => {},
        }
        i = i + 1;
    }
    None
}

/// The identity under which a line from `sender` is relayed: the known
/// identity with that id; the id with the name `Unknown` where none is known;
/// the name `Server` and no id where the line has no sender.
pub fn resolve_identity(sender: Option<u128>, profiles: &Vec<Identity>) -> (who: Identity)
    ensures
        who@ == resolved_identity(identity_views(profiles@), sender),
{
    match sender {
        Some(id) => match find_profile(id, profiles) {
            Some(found) => found,
            None => {
                proof {
                    reveal_strlit("Unknown");
                    assert("Unknown"@ =~= unknown_name());
                }
                Identity { id: Some(id), name: "Unknown".to_owned() }
            },
        },
        None => {
            proof {
                reveal_strlit("Server");
                assert("Server"@ =~= server_name());
            }
            Identity { id: None, name: "Server".to_owned() }
        },
    }
}

/// The event that the line `line` gives: none where its sender is known and
/// on the ignore list, else the line with the identity found for its sender.
pub fn inbound_event(line: &ChatMessage, profiles: &Vec<Identity>, ignore_list: &Vec<String>) -> (event:
    Option<AzaleaEvent>)
    ensures
        match event {
            Some(e) => inbound(identity_views(profiles@), names(ignore_list@), line@) == Some(e@),
            None => inbound(identity_views(profiles@), names(ignore_list@), line@) is None,
        },
{
    match line.sender {
        Some(id) => match find_profile(id, profiles) {
            Some(found) => {
                if is_ignored(&found.name, ignore_list) {
                    None
                } else {
                    Some(AzaleaEvent::Chat(found, line.clone()))
                }
            },
            None => Some(AzaleaEvent::Chat(resolve_identity(line.sender, profiles), line.clone())),
        },
        None => Some(AzaleaEvent::Chat(resolve_identity(line.sender, profiles), line.clone())),
    }
}

/// Each line of a list as a mathematical value.
pub open spec fn line_views(lines: Seq<ChatMessage>) -> Seq<ChatMessageView> {
    lines.map_values(|l: ChatMessage| l@)
}

/// Each event of a list as a mathematical value.
pub open spec fn event_views(events: Seq<AzaleaEvent>) -> Seq<AzaleaEventView> {
    events.map_values(|e: AzaleaEvent| e@)
}

/// The events that a batch of lines gives, in the order of the lines.
pub open spec fn inbound_batch(
    profiles: Seq<IdentityView>,
    ignore: Seq<Seq<char>>,
    lines: Seq<ChatMessageView>,
) -> Seq<AzaleaEventView>
    decreases lines.len(),
{
    if lines.len() == 0 {
        Seq::empty()
    } else {
        let before = inbound_batch(profiles, ignore, lines.drop_last());
        match inbound(profiles, ignore, lines.last()) {
            Some(event) => before.push(event),
            None => before,
        }
    }
}

/// The events that the lines `lines` give, in the order of the lines: one
/// for every line that is not dropped.
pub fn relay_batch(lines: &Vec<ChatMessage>, profiles: &Vec<Identity>, ignore_list: &Vec<String>) -> (events:
    Vec<AzaleaEvent>)
    ensures
        event_views(events@) == inbound_batch(
            identity_views(profiles@),
            names(ignore_list@),
            line_views(lines@),
        ),
{
    let ghost known = identity_views(profiles@);
    let ghost ignore = names(ignore_list@);
    let ghost all = line_views(lines@);
    let mut events: Vec<AzaleaEvent> = Vec::new();
    let mut i: usize = 0;
    assert(event_views(events@) =~= inbound_batch(known, ignore, all.take(0)));
    while i < lines.len()
        invariant
            i <= lines.len(),
            known == identity_views(profiles@),
            ignore == names(ignore_list@),
            all == line_views(lines@),
            event_views(events@) == inbound_batch(known, ignore, all.take(i as int)),
        decreases lines.len() - i,
    {
        proof {
            assert(all.take(i as int + 1).drop_last() =~= all.take(i as int));
            assert(all.take(i as int + 1).last() == lines@[i as int]@);
        }
        let ghost before = events@;
        match inbound_event(&lines[i], profiles, ignore_list) {
            Some(event) => {
                events.push(event);
                assert(event_views(events@) =~= event_views(before).push(event@));
            },
            None => {},
        }
        i = i + 1;
    }
    proof {
        assert(all.take(i as int) =~= all);
    }
    events
}

/// A batch gives one event for each of its lines that is not dropped, and
/// none for the others: the batch of a list with one more line is the batch
/// of the list, with the event of that line behind it where it gives one.
pub proof fn lemma_inbound_batch_push(
    profiles: Seq<IdentityView>,
    ignore: Seq<Seq<char>>,
    lines: Seq<ChatMessageView>,
    line: ChatMessageView,
)
    ensures
        inbound_batch(profiles, ignore, lines.push(line)) == (match inbound(
            profiles,
            ignore,
            line,
        ) {
            Some(event) => inbound_batch(profiles, ignore, lines).push(event),
            None => inbound_batch(profiles, ignore, lines),
        }),
{
    assert(lines.push(line).drop_last() =~= lines);
}

/// A line without a sender is relayed under the name `Server`, whatever the
/// ignore list holds.
pub proof fn lemma_server_line_passes(
    profiles: Seq<IdentityView>,
    ignore: Seq<Seq<char>>,
    line: ChatMessageView,
)
    requires
        line.sender is None,
    ensures
        inbound(profiles, ignore, line) == Some(
            AzaleaEventView::Chat(IdentityView { id: None, name: server_name() }, line),
        ),
{
}

/// A line from a sender that is not known is relayed under the name
/// `Unknown`, whatever the ignore list holds.
pub proof fn lemma_unknown_sender_passes(
    profiles: Seq<IdentityView>,
    ignore: Seq<Seq<char>>,
    line: ChatMessageView,
)
    requires
        line.sender matches Some(id) && known_identity(profiles, id) is None,
    ensures
        inbound(profiles, ignore, line) == Some(
            AzaleaEventView::Chat(
                IdentityView { id: line.sender, name: unknown_name() },
                line,
            ),
        ),
{
}

/// A line from a known sender is dropped exactly when the sender's name is
/// on the ignore list.
pub proof fn lemma_known_sender_is_filtered(
    profiles: Seq<IdentityView>,
    ignore: Seq<Seq<char>>,
    line: ChatMessageView,
)
    requires
        line.sender matches Some(id) && known_identity(profiles, id) is Some,
    ensures
        inbound(profiles, ignore, line) is None <==> ignore.contains(
            known_identity(profiles, line.sender->0)->0.name,
        ),
{
}

} // verus!
