use azalea_bridge::event::{AzaleaEvent, ChatMessage, Identity};
use azalea_bridge::filter::is_ignored;
use azalea_bridge::producer::{find_profile, inbound_event, relay_batch, resolve_identity};

fn who(id: u128, name: &str) -> Identity {
    Identity { id: Some(id), name: name.to_string() }
}

fn said(sender: Option<u128>, username: Option<&str>, content: &str) -> ChatMessage {
    ChatMessage {
        sender,
        username: username.map(|u| u.to_string()),
        content: content.to_string(),
    }
}

#[test]
fn ignore_list_is_exact() {
    let list = vec!["bob".to_string(), "Eve".to_string()];
    assert!(is_ignored(&"bob".to_string(), &list));
    assert!(is_ignored(&"Eve".to_string(), &list));
    assert!(!is_ignored(&"Bob".to_string(), &list));
    assert!(!is_ignored(&"bo".to_string(), &list));
    assert!(!is_ignored(&"bob ".to_string(), &list));
    assert!(!is_ignored(&"bob".to_string(), &Vec::new()));
}

#[test]
fn find_profile_gives_the_first_match() {
    let profiles = vec![who(1, "alice"), who(2, "bob"), who(2, "bob2")];
    assert_eq!(find_profile(2, &profiles), Some(who(2, "bob")));
    assert_eq!(find_profile(1, &profiles), Some(who(1, "alice")));
    assert_eq!(find_profile(3, &profiles), None);
    assert_eq!(find_profile(1, &Vec::new()), None);
}

#[test]
fn resolve_known_unknown_and_server() {
    let profiles = vec![who(1, "alice")];
    assert_eq!(resolve_identity(Some(1), &profiles), who(1, "alice"));
    assert_eq!(resolve_identity(Some(9), &profiles), who(9, "Unknown"));
    assert_eq!(
        resolve_identity(None, &profiles),
        Identity { id: None, name: "Server".to_string() }
    );
}

#[test]
fn ignored_player_is_dropped() {
    let profiles = vec![who(1, "alice"), who(2, "bob")];
    let ignore = vec!["bob".to_string()];
    let line = said(Some(2), Some("bob"), "hi");
    assert_eq!(inbound_event(&line, &profiles, &ignore), None);
    let line = said(Some(1), Some("alice"), "hi");
    assert_eq!(
        inbound_event(&line, &profiles, &ignore),
        Some(AzaleaEvent::Chat(who(1, "alice"), line.clone()))
    );
}

#[test]
fn server_line_is_never_dropped() {
    let profiles = vec![who(1, "Server")];
    let ignore = vec!["Server".to_string(), "Unknown".to_string(), "bob".to_string()];
    let line = said(None, None, "the server is restarting");
    assert_eq!(
        inbound_event(&line, &profiles, &ignore),
        Some(AzaleaEvent::Chat(Identity { id: None, name: "Server".to_string() }, line.clone()))
    );
}

#[test]
fn unknown_sender_is_never_dropped() {
    let profiles = vec![who(1, "alice")];
    let ignore = vec!["Unknown".to_string()];
    let line = said(Some(7), Some("carol"), "hello");
    assert_eq!(
        inbound_event(&line, &profiles, &ignore),
        Some(AzaleaEvent::Chat(who(7, "Unknown"), line.clone()))
    );
}

#[test]
fn a_batch_keeps_the_order_of_its_lines() {
    let profiles = vec![who(1, "alice"), who(2, "bob")];
    let ignore = vec!["bob".to_string()];
    let lines = vec![
        said(Some(2), Some("bob"), "dropped"),
        said(None, None, "first"),
        said(Some(1), Some("alice"), "second"),
        said(Some(2), Some("bob"), "dropped too"),
        said(Some(3), None, "third"),
    ];
    assert_eq!(
        relay_batch(&lines, &profiles, &ignore),
        vec![
            AzaleaEvent::Chat(Identity { id: None, name: "Server".to_string() }, lines[1].clone()),
            AzaleaEvent::Chat(who(1, "alice"), lines[2].clone()),
            AzaleaEvent::Chat(who(3, "Unknown"), lines[4].clone()),
        ]
    );
    assert!(relay_batch(&Vec::new(), &profiles, &ignore).is_empty());
}
