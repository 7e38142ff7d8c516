use azalea_bridge::discord::{
    escape_markdown, handle_discord_event, webhook_username, GatewayAction, GatewayEvent,
};
use azalea_bridge::event::PluginEvent;
use azalea_bridge::matrix::{
    find_place, get_namespace, get_room, localpart, localpart_from, membership, message_event,
    mx_room_handler, needs_display_name, sender_name, should_error, wants_message, Membership,
    RoomAction, RoomHit,
};

fn message(channel_id: u64, author_is_bot: bool) -> GatewayEvent {
    GatewayEvent::MessageCreate {
        channel_id,
        author_is_bot,
        author_name: "erin".to_string(),
        content: "hello".to_string(),
    }
}

#[test]
fn discord_relays_people_in_the_watched_channel() {
    assert_eq!(
        handle_discord_event(&message(7, false), 7),
        GatewayAction::Relay(PluginEvent::Chat("erin".to_string(), "hello".to_string()))
    );
    assert_eq!(handle_discord_event(&message(8, false), 7), GatewayAction::Skip);
    assert_eq!(handle_discord_event(&message(7, true), 7), GatewayAction::Skip);
    assert_eq!(handle_discord_event(&message(8, true), 7), GatewayAction::Skip);
    assert_eq!(handle_discord_event(&GatewayEvent::Ready, 7), GatewayAction::AnnounceReady);
    assert_eq!(handle_discord_event(&GatewayEvent::Other, 7), GatewayAction::Skip);
}

#[test]
fn discord_name_of_a_line() {
    assert_eq!(webhook_username(Some("alice".to_string()), "Server".to_string()), "alice");
    assert_eq!(webhook_username(None, "Server".to_string()), "Server");
}

#[test]
fn discord_marks_are_escaped() {
    assert_eq!(escape_markdown("plain text"), "plain text");
    assert_eq!(escape_markdown("*bold*"), "\\*bold\\*");
    assert_eq!(escape_markdown("snake_case"), "snake\\_case");
    assert_eq!(escape_markdown("`code`"), "\\`code\\`");
    assert_eq!(escape_markdown("> quote"), "\\> quote");
    assert_eq!(escape_markdown("a\\b"), "a\\\\*b");
    assert_eq!(escape_markdown(""), "");
}

#[test]
fn matrix_localpart() {
    assert_eq!(
        localpart_from("@_mc_.*", "a1a2a3a4-b1b2-c1c2-d1d2-d3d4d5d6d7d8"),
        "_mc_a1a2a3a4_b1b2_c1c2_d1d2_d3d4d5d6d7d8"
    );
    assert_eq!(localpart_from("@@x.*.*", "1-2"), "x1_2");
    assert_eq!(localpart_from("x.*y", "12"), "x.*y12");
    assert_eq!(
        localpart("@_mc_.*", Some(0xa1a2a3a4b1b2c1c2d1d2d3d4d5d6d7d8u128)),
        "_mc_a1a2a3a4_b1b2_c1c2_d1d2_d3d4d5d6d7d8"
    );
    assert_eq!(localpart("@_mc_.*", None), "_mc_00000000_0000_0000_0000_000000000000");
}

#[test]
fn matrix_names() {
    assert_eq!(sender_name(Some("alice".to_string())), "alice");
    assert_eq!(sender_name(None), "Server");
    let wanted = "alice".to_string();
    let other = "bob".to_string();
    assert!(needs_display_name(None, &wanted));
    assert!(needs_display_name(Some(&other), &wanted));
    assert!(!needs_display_name(Some(&wanted), &wanted));
}

#[test]
fn matrix_membership() {
    assert_eq!(membership(true, false, false), Membership::Ready);
    assert_eq!(membership(true, true, true), Membership::Ready);
    assert_eq!(membership(false, true, false), Membership::Join);
    assert_eq!(membership(false, false, true), Membership::Join);
    assert_eq!(membership(false, true, true), Membership::Join);
    assert_eq!(membership(false, false, false), Membership::InviteThenJoin);
}

#[test]
fn matrix_namespace_is_the_first_open_pattern() {
    let patterns = vec!["@admin".to_string(), "@_mc_.*".to_string(), "@_other_.*".to_string()];
    assert_eq!(get_namespace(&patterns), Some(1));
    assert_eq!(get_namespace(&vec!["@admin".to_string(), ".*x".to_string()]), None);
    assert_eq!(get_namespace(&vec![".*".to_string()]), Some(0));
    assert_eq!(get_namespace(&vec!["*".to_string()]), None);
    assert_eq!(get_namespace(&Vec::new()), None);
}

#[test]
fn matrix_room_is_looked_for_in_order() {
    let a = "!a:example.org".to_string();
    let b = "!b:example.org".to_string();
    let c = "!c:example.org".to_string();
    let d = "!d:example.org".to_string();
    let rooms = vec![a.clone(), b.clone()];
    let joined = vec![b.clone(), c.clone()];
    let invited = vec![c.clone(), d.clone()];
    let left = vec![d.clone(), "!e:example.org".to_string()];
    assert_eq!(get_room(&b, &rooms, &joined, &invited, &left), Some(RoomHit::Known(1)));
    assert_eq!(get_room(&c, &rooms, &joined, &invited, &left), Some(RoomHit::Joined(1)));
    assert_eq!(get_room(&d, &rooms, &joined, &invited, &left), Some(RoomHit::Invited(1)));
    assert_eq!(
        get_room(&"!e:example.org".to_string(), &rooms, &joined, &invited, &left),
        Some(RoomHit::Left(1))
    );
    assert_eq!(get_room(&"!f:example.org".to_string(), &rooms, &joined, &invited, &left), None);
    assert_eq!(find_place(&vec![a.clone(), a.clone()], &a), Some(0));
}

#[test]
fn matrix_messages() {
    assert!(wants_message(false, true));
    assert!(!wants_message(true, true));
    assert!(!wants_message(false, false));
    assert!(!wants_message(true, false));
    assert_eq!(
        message_event(Some("Erin".to_string()), "erin".to_string(), "hi".to_string()),
        PluginEvent::Chat("Erin".to_string(), "hi".to_string())
    );
    assert_eq!(
        message_event(None, "erin".to_string(), "hi".to_string()),
        PluginEvent::Chat("erin".to_string(), "hi".to_string())
    );
}

#[test]
fn matrix_room_events() {
    assert_eq!(mx_room_handler(false, true, true), RoomAction::WrongRoom);
    assert_eq!(mx_room_handler(true, false, true), RoomAction::NotOurs);
    assert_eq!(mx_room_handler(true, true, true), RoomAction::AcceptInvite);
    assert_eq!(mx_room_handler(true, true, false), RoomAction::Nothing);
    assert!(!should_error(true, true));
    assert!(should_error(true, false));
    assert!(should_error(false, true));
    assert!(should_error(false, false));
}
