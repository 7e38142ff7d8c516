use azalea_bridge::bridge::{
    send_all, should_run, ChannelClosed, ClientSide, DrainEnd, LinkError, LinkReport, PluginBridge,
    ShouldRun,
};
use azalea_bridge::event::{AzaleaEvent, ChatMessage, Identity, PluginEvent};

#[derive(Debug, Clone)]
struct X;
#[derive(Debug, Clone)]
struct Y;
#[derive(Debug, Clone)]
struct Z;

fn who(id: u128, name: &str) -> Identity {
    Identity { id: Some(id), name: name.to_string() }
}

fn said(sender: Option<u128>, content: &str) -> ChatMessage {
    ChatMessage { sender, username: None, content: content.to_string() }
}

fn chat(name: &str, text: &str) -> PluginEvent {
    PluginEvent::Chat(name.to_string(), text.to_string())
}

fn forwarded(local: &Identity, content: &str) -> AzaleaEvent {
    AzaleaEvent::Chat(
        local.clone(),
        ChatMessage {
            sender: local.id,
            username: Some(local.name.clone()),
            content: content.to_string(),
        },
    )
}

#[test]
fn new_bridge_is_empty_and_unlinked() {
    let bridge = PluginBridge::<X>::new(vec!["bob".to_string()]);
    assert_eq!(bridge.client.ignore_list, vec!["bob".to_string()]);
    assert_eq!(bridge.client.link_count(), 0);
    assert!(bridge.client.rx.is_empty());
    assert!(bridge.plugin.rx.is_empty());
}

#[test]
fn the_two_halves_are_connected() {
    let bridge = PluginBridge::<X>::new(Vec::new());
    bridge.plugin.tx.send(chat("a", "b")).unwrap();
    assert_eq!(bridge.client.rx.try_recv().unwrap(), chat("a", "b"));
    bridge.client.tx.send(AzaleaEvent::UnusedEnum).unwrap();
    assert_eq!(bridge.plugin.rx.try_recv().unwrap(), AzaleaEvent::UnusedEnum);
}

#[test]
fn guard_follows_the_queue() {
    assert_eq!(should_run(true), ShouldRun::No);
    assert_eq!(should_run(false), ShouldRun::Yes);
    let bridge = PluginBridge::<X>::new(Vec::new());
    assert_eq!(bridge.client.listen_event_criteria(), ShouldRun::No);
    bridge.plugin.tx.send(chat("a", "one")).unwrap();
    assert_eq!(bridge.client.listen_event_criteria(), ShouldRun::Yes);
    bridge.plugin.tx.send(chat("a", "two")).unwrap();
    assert_eq!(bridge.client.listen_event_criteria(), ShouldRun::Yes);
    let out = bridge.client.listen_event(None);
    assert_eq!(out.deliveries.len(), 2);
    assert_eq!(bridge.client.listen_event_criteria(), ShouldRun::No);
}

#[test]
fn drain_takes_all_five_in_order() {
    let bridge = PluginBridge::<X>::new(Vec::new());
    for i in 0..5 {
        bridge.plugin.tx.send(chat("dave", &format!("message {i}"))).unwrap();
    }
    let out = bridge.client.listen_event(None);
    assert_eq!(out.end, DrainEnd::Empty);
    assert_eq!(out.deliveries.len(), 5);
    for (i, delivery) in out.deliveries.iter().enumerate() {
        assert_eq!(delivery.event, chat("dave", &format!("message {i}")));
        assert_eq!(delivery.lines, vec![format!("dave: message {i}")]);
        assert_eq!(delivery.links, Ok(LinkReport { offered: None, attempted: 0, failed: Vec::new() }));
    }
    let again = bridge.client.listen_event(None);
    assert!(again.deliveries.is_empty());
    assert_eq!(again.end, DrainEnd::Empty);
}

#[test]
fn drain_reports_a_platform_that_is_gone() {
    let PluginBridge { client, plugin } = PluginBridge::<X>::new(Vec::new());
    plugin.tx.send(chat("a", "last words")).unwrap();
    drop(plugin);
    let out = client.listen_event(None);
    assert_eq!(out.deliveries.len(), 1);
    assert_eq!(out.end, DrainEnd::Disconnected);
}

#[test]
fn fragments_of_different_events_do_not_mix() {
    let bridge = PluginBridge::<X>::new(Vec::new());
    let long = "x".repeat(600);
    bridge.plugin.tx.send(chat("a", &long)).unwrap();
    bridge.plugin.tx.send(chat("b", "short")).unwrap();
    bridge.plugin.tx.send(PluginEvent::UnusedEnum).unwrap();
    let out = bridge.client.listen_event(None);
    assert_eq!(out.deliveries.len(), 3);
    assert_eq!(out.deliveries[0].lines.len(), 3);
    assert_eq!(out.deliveries[0].lines.concat(), format!("a: {long}"));
    assert_eq!(out.deliveries[1].lines, vec!["b: short".to_string()]);
    assert!(out.deliveries[2].lines.is_empty());
}

fn fan_out_once(y_first: bool) {
    let mut x = PluginBridge::<X>::new(Vec::new());
    let mut y = PluginBridge::<Y>::new(Vec::new());
    let mut z = PluginBridge::<Z>::new(Vec::new());
    if y_first {
        x.client.bridge(&mut y.client);
        x.client.bridge(&mut z.client);
    } else {
        x.client.bridge(&mut z.client);
        x.client.bridge(&mut y.client);
    }
    assert_eq!(x.client.link_count(), 2);
    assert_eq!(y.client.link_count(), 1);
    assert_eq!(z.client.link_count(), 1);

    let local = who(42, "bot");
    x.plugin.tx.send(chat("erin", "hello all")).unwrap();
    let out = x.client.listen_event(Some(&local));

    assert_eq!(out.deliveries.len(), 1);
    assert_eq!(out.deliveries[0].lines, vec!["erin: hello all".to_string()]);
    assert_eq!(
        out.deliveries[0].links,
        Ok(LinkReport {
            offered: Some(forwarded(&local, "erin: hello all")),
            attempted: 2,
            failed: Vec::new()
        })
    );

    assert_eq!(y.plugin.rx.try_recv().unwrap(), forwarded(&local, "erin: hello all"));
    assert!(y.plugin.rx.try_recv().is_err());
    assert_eq!(z.plugin.rx.try_recv().unwrap(), forwarded(&local, "erin: hello all"));
    assert!(z.plugin.rx.try_recv().is_err());
    // Nothing comes back to the platform that said it.
    assert!(x.plugin.rx.try_recv().is_err());
}

#[test]
fn fan_out_reaches_each_link_once() {
    fan_out_once(true);
}

#[test]
fn fan_out_does_not_depend_on_the_order_of_linking() {
    fan_out_once(false);
}

#[test]
fn a_broken_link_does_not_stop_the_others() {
    let mut x = PluginBridge::<X>::new(Vec::new());
    let mut y = PluginBridge::<Y>::new(Vec::new());
    let mut z = PluginBridge::<Z>::new(Vec::new());
    x.client.bridge(&mut y.client);
    x.client.bridge(&mut z.client);
    let PluginBridge { client: _y_client, plugin: y_plugin } = y;
    drop(y_plugin);

    let local = who(42, "bot");
    let delivery = x.client.deliver(chat("erin", "still here"), Some(&local));
    assert_eq!(
        delivery.links,
        Ok(LinkReport {
            offered: Some(forwarded(&local, "erin: still here")),
            attempted: 2,
            failed: vec![0]
        })
    );
    assert_eq!(delivery.lines, vec!["erin: still here".to_string()]);
    assert_eq!(z.plugin.rx.try_recv().unwrap(), forwarded(&local, "erin: still here"));
}

#[test]
fn links_without_a_local_identity_fail_but_the_line_is_said() {
    let mut x = PluginBridge::<X>::new(Vec::new());
    let mut y = PluginBridge::<Y>::new(Vec::new());
    x.client.bridge(&mut y.client);
    let delivery = x.client.deliver(chat("erin", "hi"), None);
    assert_eq!(delivery.links, Err(LinkError::NoLocalIdentity));
    assert_eq!(delivery.lines, vec!["erin: hi".to_string()]);
    assert!(y.plugin.rx.try_recv().is_err());
    assert_eq!(
        ClientSide::<X>::link_plugins(&x.client, &chat("a", "b"), None),
        Err(LinkError::NoLocalIdentity)
    );
}

#[test]
fn other_events_are_not_handed_on() {
    let mut x = PluginBridge::<X>::new(Vec::new());
    let mut y = PluginBridge::<Y>::new(Vec::new());
    x.client.bridge(&mut y.client);
    let local = who(42, "bot");
    let delivery = x.client.deliver(PluginEvent::UnusedEnum, Some(&local));
    assert_eq!(delivery.links, Ok(LinkReport { offered: None, attempted: 0, failed: Vec::new() }));
    assert!(delivery.lines.is_empty());
    assert!(y.plugin.rx.try_recv().is_err());
}

#[test]
fn listen_chat_relays_what_is_not_ignored() {
    let bridge = PluginBridge::<X>::new(vec!["bob".to_string()]);
    let profiles = vec![who(1, "alice"), who(2, "bob")];
    let lines = vec![
        said(Some(1), "from alice"),
        said(Some(2), "from bob"),
        said(None, "from the server"),
        said(Some(3), "from a stranger"),
    ];
    assert_eq!(bridge.client.listen_chat(&profiles, &lines), Ok(3));
    assert_eq!(
        bridge.plugin.rx.try_recv().unwrap(),
        AzaleaEvent::Chat(who(1, "alice"), lines[0].clone())
    );
    assert_eq!(
        bridge.plugin.rx.try_recv().unwrap(),
        AzaleaEvent::Chat(Identity { id: None, name: "Server".to_string() }, lines[2].clone())
    );
    assert_eq!(
        bridge.plugin.rx.try_recv().unwrap(),
        AzaleaEvent::Chat(who(3, "Unknown"), lines[3].clone())
    );
    assert!(bridge.plugin.rx.try_recv().is_err());
}

#[test]
fn listen_chat_reports_a_closed_queue() {
    let PluginBridge { client, plugin } = PluginBridge::<X>::new(vec!["bob".to_string()]);
    drop(plugin);
    let profiles = vec![who(2, "bob")];
    let lines = vec![said(Some(2), "ignored"), said(None, "not taken")];
    assert_eq!(client.listen_chat(&profiles, &lines), Err(ChannelClosed { sent: 0 }));
    // Where nothing is to be sent, a closed queue does not matter.
    assert_eq!(client.listen_chat(&profiles, &lines[..1].to_vec()), Ok(0));
}

#[test]
fn a_clone_is_a_handle_of_the_same_bridge() {
    let mut x = PluginBridge::<X>::new(vec!["bob".to_string()]);
    let mut y = PluginBridge::<Y>::new(Vec::new());
    x.client.bridge(&mut y.client);
    let copy = x.clone();
    assert_eq!(copy.client.ignore_list, vec!["bob".to_string()]);
    assert_eq!(copy.client.link_count(), 1);
    x.plugin.tx.send(chat("a", "b")).unwrap();
    assert_eq!(copy.client.listen_event_criteria(), ShouldRun::Yes);
    let local = who(1, "bot");
    let out = copy.client.listen_event(Some(&local));
    assert_eq!(out.deliveries.len(), 1);
    assert_eq!(y.plugin.rx.try_recv().unwrap(), forwarded(&local, "a: b"));
}

#[test]
fn send_all_hands_over_in_order() {
    let PluginBridge { client, plugin } = PluginBridge::<X>::new(Vec::new());
    let events = vec![chat("a", "1"), chat("a", "2"), chat("b", "3")];
    assert_eq!(send_all(&plugin.tx, events.clone()), Ok(3));
    for event in events {
        assert_eq!(client.rx.try_recv().unwrap(), event);
    }
    assert_eq!(send_all(&plugin.tx, Vec::new()), Ok(0));
    drop(client);
    assert_eq!(send_all(&plugin.tx, vec![chat("a", "4")]), Err(ChannelClosed { sent: 0 }));
    assert_eq!(send_all(&plugin.tx, Vec::new()), Ok(0));
}

#[test]
fn a_step_stops_for_the_reason_the_queue_gives() {
    assert_eq!(DrainEnd::of(flume::TryRecvError::Empty), DrainEnd::Empty);
    assert_eq!(DrainEnd::of(flume::TryRecvError::Disconnected), DrainEnd::Disconnected);
}
