use hwmr::access::{grants_private_network, header_str, ws_origin_allowed};
use hwmr::audio::{audio_response, AudioSession};
use hwmr::cdp::{
    command_message, command_outcome, find_target, frame_ack, page_targets, CommandIds,
    reconcile, route_message, tabs_response, CdpIncoming, CdpReply, CdpRouting, Reconcile, Target,
};
use hwmr::config::StreamSettings;
use hwmr::tabs::{SelectAction, SelectEvent, TabSelection};

fn target(id: &str, kind: &str) -> Target {
    Target {
        id: id.to_string(),
        kind: kind.to_string(),
        title: format!("title {id}"),
        url: format!("https://{id}.test/"),
        websocket: format!("ws://127.0.0.1:9229/devtools/page/{id}"),
    }
}

fn reply(json: &str) -> CdpReply {
    CdpReply {
        json: json.to_string(),
        error: None,
        evaluated_bool: None,
        history_entry_ids: None,
        history_current: None,
        screenshot_data: None,
    }
}

#[test]
fn page_filtering_and_lookup() {
    let all = vec![target("a", "page"), target("w", "service_worker"), target("b", "page")];
    let pages = page_targets(all);
    assert_eq!(pages.len(), 2);
    assert_eq!(pages[0].id, "a");
    assert_eq!(pages[1].id, "b");
    assert_eq!(find_target(&pages, "b"), Some(1));
    assert_eq!(find_target(&pages, "w"), None);
}

#[test]
fn tabs_listing() {
    let pages = vec![target("a", "page"), target("b", "page")];
    let body: serde_json::Value = serde_json::from_str(&tabs_response(&pages, "b")).unwrap();
    assert_eq!(body["type"], "tabs");
    assert_eq!(body["items"][0]["id"], "a");
    assert_eq!(body["items"][0]["active"], false);
    assert_eq!(body["items"][1]["active"], true);
    assert_eq!(body["items"][1]["title"], "title b");
    assert_eq!(body["items"][1]["url"], "https://b.test/");
    assert_eq!(tabs_response(&vec![], "x"), "{\"items\":[],\"type\":\"tabs\"}");
}

#[test]
fn command_framing() {
    assert_eq!(
        command_message(1, "Page.enable", "{}"),
        "{\"id\":1,\"method\":\"Page.enable\",\"params\":{}}"
    );
    let mut failed = reply("{\"error\":{\"code\":-32000}}");
    failed.error = Some("{\"code\":-32000}".to_string());
    assert_eq!(
        command_outcome("Page.navigate", failed).err().unwrap(),
        "CDP Page.navigate failed: {\"code\":-32000}"
    );
    assert_eq!(command_outcome("Page.reload", reply("{\"id\":1}")).unwrap().json, "{\"id\":1}");
}

#[test]
fn browser_messages() {
    let r = route_message(
        &CdpIncoming { id: Some(7), method: None, data: None, session_id: None },
        "t",
        "t",
    );
    assert!(matches!(r, CdpRouting::Reply(7)));
    let frame = CdpIncoming {
        id: None,
        method: Some("Page.screencastFrame".to_string()),
        data: Some("aGVsbG8=".to_string()),
        session_id: Some(3),
    };
    match route_message(&frame, "t", "t") {
        CdpRouting::Frame { frame, ack } => {
            assert_eq!(frame, Some(b"hello".to_vec()));
            assert_eq!(ack.unwrap(), frame_ack(3));
        }
        other => panic!("{other:?}"),
    }
    match route_message(&frame, "t", "other") {
        CdpRouting::Frame { frame, ack } => {
            assert_eq!(frame, None);
            assert!(ack.is_some());
        }
        other => panic!("{other:?}"),
    }
    let bad = CdpIncoming {
        id: None,
        method: Some("Page.screencastFrame".to_string()),
        data: Some("aGVsbG9=".to_string()),
        session_id: None,
    };
    assert!(matches!(route_message(&bad, "t", "t"), CdpRouting::Frame { frame: None, ack: None }));
    let other = CdpIncoming { id: None, method: Some("Page.loadEventFired".to_string()), data: None, session_id: None };
    assert!(matches!(route_message(&other, "t", "t"), CdpRouting::Ignore));
    assert_eq!(
        frame_ack(12),
        "{\"id\":0,\"method\":\"Page.screencastFrameAck\",\"params\":{\"sessionId\":12}}"
    );
}

#[test]
fn reconciling_the_active_tab() {
    let pages = vec![target("a", "page"), target("b", "page")];
    assert!(matches!(reconcile(&pages, "b"), Reconcile::Keep));
    assert!(matches!(reconcile(&pages, "gone"), Reconcile::Select(ref id) if id == "a"));
    assert!(matches!(reconcile(&vec![], "gone"), Reconcile::Clear));
}

#[test]
fn origins() {
    assert!(grants_private_network(Some("https://arts-night.github.io")));
    assert!(!grants_private_network(Some("https://evil.test")));
    assert!(!grants_private_network(None));
    assert!(ws_origin_allowed(None, None));
    assert!(ws_origin_allowed(None, Some(b"evil.test".as_slice())));
    assert!(ws_origin_allowed(Some(b"https://arts-night.github.io".as_slice()), None));
    assert!(ws_origin_allowed(
        Some(b"http://192.168.1.5:8787".as_slice()),
        Some(b"192.168.1.5:8787".as_slice())
    ));
    assert!(!ws_origin_allowed(
        Some(b"http://192.168.1.5:8787".as_slice()),
        Some(b"192.168.1.6:8787".as_slice())
    ));
    assert!(!ws_origin_allowed(Some(b"https://evil.test".as_slice()), Some(b"evil.test".as_slice())));
    assert!(!ws_origin_allowed(Some(b"http://x".as_slice()), None));
}

#[test]
fn non_text_headers() {
    // An Origin that does not read as text is refused, even beside a Host.
    assert!(!ws_origin_allowed(Some(b"http://h\xff".as_slice()), Some(b"h\xff".as_slice())));
    assert!(!ws_origin_allowed(Some(b"https://arts-night.github.io\x00".as_slice()), None));
    // A Host that does not read as text matches no origin.
    assert!(!ws_origin_allowed(Some(b"http://h".as_slice()), Some(b"h\x7f".as_slice())));
    assert!(ws_origin_allowed(Some(b"http://h\tx".as_slice()), Some(b"h\tx".as_slice())));
    assert_eq!(header_str(b"a b\tc"), Some("a b\tc".to_string()));
    assert_eq!(header_str(b"caf\xc3\xa9"), None);
    assert_eq!(header_str(b""), Some(String::new()));
}

#[test]
fn command_ids_count_up() {
    let mut ids = CommandIds::new();
    let mut seen = Vec::new();
    for expected in 1..=5u64 {
        assert!(ids.can_issue());
        let id = ids.next();
        assert_eq!(id, expected);
        assert!(!seen.contains(&id));
        seen.push(id);
    }
    assert_eq!(
        command_message(ids.next(), "Page.reload", "{}"),
        "{\"id\":6,\"method\":\"Page.reload\",\"params\":{}}"
    );
}

#[test]
fn audio_report() {
    let sessions = vec![AudioSession { pid: 10, active: true }, AudioSession { pid: 20, active: false }];
    assert_eq!(
        audio_response(&sessions),
        "{\"sessions\":[{\"active\":true,\"pid\":10},{\"active\":false,\"pid\":20}]}"
    );
    assert_eq!(audio_response(&vec![]), "{\"sessions\":[]}");
}

fn settings() -> StreamSettings {
    StreamSettings { quality: 70, every_nth_frame: 3 }
}

#[test]
fn switching_tabs() {
    let (mut sel, a) = TabSelection::start("b".to_string(), settings());
    assert!(matches!(a, SelectAction::ListTargets));
    let a = sel.step(SelectEvent::Targets {
        targets: Ok(vec![target("a", "page"), target("b", "page")]),
        active_id: "a".to_string(),
    });
    assert!(matches!(a, SelectAction::StopOld));
    let a = sel.step(SelectEvent::Done);
    match a {
        SelectAction::Connect { websocket, target_id } => {
            assert_eq!(websocket, "ws://127.0.0.1:9229/devtools/page/b");
            assert_eq!(target_id, "b");
        }
        other => panic!("{other:?}"),
    }
    let a = sel.step(SelectEvent::Connected(Ok(())));
    assert!(matches!(a, SelectAction::Command { ref method, ref params } if method == "Page.enable" && params == "{}"));
    let a = sel.step(SelectEvent::Replied(Ok(reply("{}"))));
    assert!(matches!(a, SelectAction::ReadViewport));
    let a = sel.step(SelectEvent::Viewport { width: 390, height: 760 });
    assert!(matches!(a, SelectAction::Command { ref method, .. } if method == "Emulation.setDeviceMetricsOverride"));
    let a = sel.step(SelectEvent::Replied(Ok(reply("{}"))));
    assert!(matches!(a, SelectAction::Activate { ref target_id } if target_id == "b"));
    let a = sel.step(SelectEvent::Done);
    assert!(matches!(a, SelectAction::Command { ref method, ref params } if method == "Page.startScreencast"
        && params == "{\"everyNthFrame\":3,\"format\":\"jpeg\",\"maxHeight\":760,\"maxWidth\":390,\"quality\":70}"));
    let a = sel.step(SelectEvent::Replied(Ok(reply("{}"))));
    assert!(matches!(a, SelectAction::Command { ref method, ref params } if method == "Page.captureScreenshot"
        && params == "{\"format\":\"jpeg\",\"quality\":70}"));
    let mut shot = reply("{}");
    shot.screenshot_data = Some("aGk=".to_string());
    let a = sel.step(SelectEvent::Replied(Ok(shot)));
    assert!(matches!(a, SelectAction::Publish { ref frame } if frame == b"hi"));
    let a = sel.step(SelectEvent::Done);
    assert!(matches!(a, SelectAction::Install));
    let a = sel.step(SelectEvent::Done);
    assert!(matches!(a, SelectAction::Finish(Ok(ref s)) if s == "{\"selected\":\"b\"}"));
}

#[test]
fn switching_tabs_edge_cases() {
    let (mut sel, _) = TabSelection::start("a".to_string(), settings());
    let a = sel.step(SelectEvent::Targets { targets: Ok(vec![target("a", "page")]), active_id: "a".to_string() });
    assert!(matches!(a, SelectAction::Finish(Ok(ref s)) if s == "{\"already_active\":true}"));

    let (mut sel, _) = TabSelection::start("w".to_string(), settings());
    let a = sel.step(SelectEvent::Targets {
        targets: Ok(vec![target("a", "page"), target("w", "worker")]),
        active_id: "a".to_string(),
    });
    assert!(matches!(a, SelectAction::Finish(Err(ref e)) if e == "unknown or closed page target"));

    let (mut sel, _) = TabSelection::start("b".to_string(), settings());
    let a = sel.step(SelectEvent::Targets { targets: Err("connection refused".to_string()), active_id: "a".to_string() });
    assert!(matches!(a, SelectAction::Finish(Err(ref e)) if e == "connection refused"));

    let (mut sel, _) = TabSelection::start("b".to_string(), settings());
    sel.step(SelectEvent::Targets { targets: Ok(vec![target("b", "page")]), active_id: "a".to_string() });
    sel.step(SelectEvent::Done);
    let a = sel.step(SelectEvent::Connected(Err("ws failed".to_string())));
    assert!(matches!(a, SelectAction::Finish(Err(ref e)) if e == "ws failed"));

    let (mut sel, _) = TabSelection::start("b".to_string(), settings());
    sel.step(SelectEvent::Targets { targets: Ok(vec![target("b", "page")]), active_id: "a".to_string() });
    sel.step(SelectEvent::Done);
    sel.step(SelectEvent::Connected(Ok(())));
    sel.step(SelectEvent::Replied(Ok(reply("{}"))));
    sel.step(SelectEvent::Viewport { width: 1, height: 1 });
    sel.step(SelectEvent::Replied(Ok(reply("{}"))));
    sel.step(SelectEvent::Done);
    sel.step(SelectEvent::Replied(Ok(reply("{}"))));
    let a = sel.step(SelectEvent::Replied(Err("no shot".to_string())));
    assert!(matches!(a, SelectAction::Install));
}

#[test]
fn selecting_the_active_tab_again() {
    // The first selection of "b" marks it active...
    let (mut sel, _) = TabSelection::start("b".to_string(), settings());
    sel.step(SelectEvent::Targets {
        targets: Ok(vec![target("a", "page"), target("b", "page")]),
        active_id: "a".to_string(),
    });
    sel.step(SelectEvent::Done);
    sel.step(SelectEvent::Connected(Ok(())));
    sel.step(SelectEvent::Replied(Ok(reply("{}"))));
    sel.step(SelectEvent::Viewport { width: 390, height: 760 });
    let active_id = match sel.step(SelectEvent::Replied(Ok(reply("{}")))) {
        SelectAction::Activate { target_id } => target_id,
        other => panic!("{other:?}"),
    };
    assert_eq!(active_id, "b");
    // ...so selecting it again finishes at once, sending nothing.
    let (mut again, _) = TabSelection::start("b".to_string(), settings());
    let a = again.step(SelectEvent::Targets {
        targets: Ok(vec![target("a", "page"), target("b", "page")]),
        active_id,
    });
    assert!(matches!(a, SelectAction::Finish(Ok(ref s)) if s == "{\"already_active\":true}"));
}
