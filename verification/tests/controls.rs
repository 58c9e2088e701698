use hwmr::cdp::CdpReply;
use hwmr::config::StreamSettings;
use hwmr::control::{
    control_reply, isolation_response, plan_control, Control, ControlAction, ControlPlan, ControlRun,
    Coordinate, WindowState,
};
use hwmr::input::{cdp_key, navigation_url, trim_str};

fn settings() -> StreamSettings {
    StreamSettings { quality: 60, every_nth_frame: 2 }
}

fn coord(json: &str, text: &str) -> Coordinate {
    Coordinate { json: json.to_string(), text: text.to_string() }
}

fn reply(json: &str) -> CdpReply {
    CdpReply {
        json: json.to_string(),
        error: None,
        evaluated_bool: None,
        history_entry_ids: None,
        history_current: None,
        screenshot_data: None,
    }
}

fn start(control: Control) -> (ControlRun, ControlAction) {
    match plan_control(Ok(control), &settings()) {
        ControlPlan::Run(run, action) => (run, action),
        other => panic!("unexpected plan {other:?}"),
    }
}

fn command(a: &ControlAction) -> (String, String, Option<(u32, u32)>) {
    match a {
        ControlAction::Command { method, params, record_viewport } => {
            (method.clone(), params.clone(), *record_viewport)
        }
        ControlAction::Finish(r) => panic!("finished early: {r:?}"),
    }
}

fn finished(a: ControlAction) -> Result<String, String> {
    match a {
        ControlAction::Finish(r) => r,
        other => panic!("not finished: {other:?}"),
    }
}

#[test]
fn tap_presses_releases_and_probes() {
    let (mut run, a) = start(Control::Tap { x: coord("10.0", "10"), y: coord("20.5", "20.5") });
    assert_eq!(
        command(&a),
        (
            "Input.dispatchMouseEvent".to_string(),
            "{\"button\":\"left\",\"clickCount\":1,\"type\":\"mousePressed\",\"x\":10.0,\"y\":20.5}".to_string(),
            None
        )
    );
    let a = run.step(Ok(reply("{}")));
    assert_eq!(
        command(&a).1,
        "{\"button\":\"left\",\"clickCount\":1,\"type\":\"mouseReleased\",\"x\":10.0,\"y\":20.5}"
    );
    let a = run.step(Ok(reply("{}")));
    let (method, params, _) = command(&a);
    assert_eq!(method, "Runtime.evaluate");
    let params: serde_json::Value = serde_json::from_str(&params).unwrap();
    assert_eq!(
        params["expression"],
        "(()=>{const e=document.elementFromPoint(10,20.5);return !!e&&(e.matches('input,textarea')||e.isContentEditable)})()"
    );
    assert_eq!(params["returnByValue"], true);
    let mut probe = reply("{}");
    probe.evaluated_bool = Some(true);
    assert_eq!(finished(run.step(Ok(probe))), Ok("{\"text_input\":true}".to_string()));
}

#[test]
fn tap_on_plain_content_or_failed_press() {
    let (mut run, _) = start(Control::Tap { x: coord("1", "1"), y: coord("2", "2") });
    run.step(Ok(reply("{}")));
    run.step(Ok(reply("{}")));
    assert_eq!(finished(run.step(Ok(reply("{}")))), Ok("{\"text_input\":false}".to_string()));
    let (mut run, _) = start(Control::Tap { x: coord("1", "1"), y: coord("2", "2") });
    assert_eq!(finished(run.step(Err("boom".to_string()))), Err("boom".to_string()));
}

#[test]
fn scroll_sends_a_wheel_event() {
    let (mut run, a) = start(Control::Scroll {
        x: coord("5.0", "5"),
        y: coord("6.0", "6"),
        delta_y: coord("-120.0", "-120"),
    });
    assert_eq!(
        command(&a).1,
        "{\"deltaX\":0,\"deltaY\":-120.0,\"type\":\"mouseWheel\",\"x\":5.0,\"y\":6.0}"
    );
    assert_eq!(finished(run.step(Ok(reply("{\"id\":3,\"result\":{}}")))), Ok("{\"id\":3,\"result\":{}}".to_string()));
}

#[test]
fn resize_clamps_and_records_the_viewport() {
    let (mut run, a) = start(Control::Resize { width: 5000, height: 0 });
    assert_eq!(command(&a), ("Page.stopScreencast".to_string(), "{}".to_string(), None));
    let a = run.step(Err("not streaming".to_string()));
    let (method, params, record) = command(&a);
    assert_eq!(method, "Emulation.setDeviceMetricsOverride");
    assert_eq!(
        params,
        "{\"deviceScaleFactor\":1,\"height\":1,\"mobile\":true,\"screenHeight\":1,\"screenWidth\":1920,\"width\":1920}"
    );
    assert_eq!(record, None);
    let a = run.step(Ok(reply("{}")));
    let (method, params, record) = command(&a);
    assert_eq!(method, "Page.startScreencast");
    assert_eq!(
        params,
        "{\"everyNthFrame\":2,\"format\":\"jpeg\",\"maxHeight\":1,\"maxWidth\":1920,\"quality\":60}"
    );
    assert_eq!(record, Some((1920, 1)));
    assert_eq!(finished(run.step(Ok(reply("{\"r\":1}")))), Ok("{\"r\":1}".to_string()));
}

#[test]
fn resize_stops_when_metrics_fail() {
    let (mut run, _) = start(Control::Resize { width: 400, height: 800 });
    run.step(Ok(reply("{}")));
    assert_eq!(finished(run.step(Err("CDP x failed".to_string()))), Err("CDP x failed".to_string()));
}

fn history(ids: &[&str], current: i64) -> CdpReply {
    let mut r = reply("{}");
    r.history_entry_ids = Some(ids.iter().map(|s| s.to_string()).collect());
    r.history_current = Some(current);
    r
}

#[test]
fn back_and_forward_use_history() {
    let (mut run, a) = start(Control::Back);
    assert_eq!(command(&a).0, "Page.getNavigationHistory");
    let a = run.step(Ok(history(&["11", "12", "13"], 1)));
    assert_eq!(
        command(&a),
        ("Page.navigateToHistoryEntry".to_string(), "{\"entryId\":11}".to_string(), None)
    );
    assert_eq!(finished(run.step(Ok(reply("{\"ok\":1}")))), Ok("{\"ok\":1}".to_string()));

    let (mut run, _) = start(Control::Forward);
    assert_eq!(
        finished(run.step(Ok(history(&["11", "12"], 1)))),
        Err("no navigation history entry".to_string())
    );
    let (mut run, _) = start(Control::Back);
    assert_eq!(
        finished(run.step(Ok(history(&["11"], 0)))),
        Err("no navigation history entry".to_string())
    );
    let (mut run, _) = start(Control::Back);
    assert_eq!(
        finished(run.step(Ok(reply("{}")))),
        Err("CDP returned no navigation history".to_string())
    );
    let (mut run, _) = start(Control::Back);
    let mut r = reply("{}");
    r.history_entry_ids = Some(vec!["1".to_string()]);
    assert_eq!(
        finished(run.step(Ok(r))),
        Err("CDP returned no current navigation entry".to_string())
    );
    let (mut run, _) = start(Control::Forward);
    assert_eq!(
        finished(run.step(Ok(history(&["1"], i64::MAX)))),
        Err("no navigation history entry".to_string())
    );
}

#[test]
fn simple_commands() {
    let (mut run, a) = start(Control::Reload);
    assert_eq!(command(&a), ("Page.reload".to_string(), "{}".to_string(), None));
    assert_eq!(finished(run.step(Err("e".to_string()))), Err("e".to_string()));
    let (_, a) = start(Control::Navigate { url: "https://a.example/\"x".to_string() });
    assert_eq!(command(&a).1, "{\"url\":\"https://a.example/\\\"x\"}");
    let (_, a) = start(Control::Go { text: "  hello world ".to_string() });
    assert_eq!(command(&a).1, "{\"url\":\"https://www.google.com/search?q=hello+world\"}");
    let (_, a) = start(Control::InsertText { text: "hé\n".to_string() });
    assert_eq!(command(&a), ("Input.insertText".to_string(), "{\"text\":\"hé\\n\"}".to_string(), None));
    let (_, a) = start(Control::Screencast { enabled: true });
    assert_eq!(
        command(&a),
        (
            "Page.startScreencast".to_string(),
            "{\"everyNthFrame\":2,\"format\":\"jpeg\",\"maxHeight\":932,\"maxWidth\":430,\"quality\":60}".to_string(),
            None
        )
    );
    let (_, a) = start(Control::Screencast { enabled: false });
    assert_eq!(command(&a), ("Page.stopScreencast".to_string(), "{}".to_string(), None));
}

#[test]
fn keys_go_down_then_up() {
    let (mut run, a) = start(Control::Key { key: "Space".to_string() });
    assert_eq!(
        command(&a).1,
        "{\"code\":\"Space\",\"key\":\" \",\"nativeVirtualKeyCode\":32,\"type\":\"keyDown\",\"windowsVirtualKeyCode\":32}"
    );
    let a = run.step(Ok(reply("{}")));
    assert_eq!(
        command(&a).1,
        "{\"code\":\"Space\",\"key\":\" \",\"nativeVirtualKeyCode\":32,\"type\":\"keyUp\",\"windowsVirtualKeyCode\":32}"
    );
    assert_eq!(finished(run.step(Ok(reply("{}")))), Ok("{}".to_string()));
    let (mut run, _) = start(Control::Key { key: "Enter".to_string() });
    assert_eq!(finished(run.step(Err("down failed".to_string()))), Err("down failed".to_string()));
}

#[test]
fn key_names() {
    assert_eq!(cdp_key("Space"), (" ", "Space", 32));
    assert_eq!(cdp_key("ArrowLeft"), ("ArrowLeft", "ArrowLeft", 37));
    assert_eq!(cdp_key("ArrowRight"), ("ArrowRight", "ArrowRight", 39));
    assert_eq!(cdp_key("Backspace"), ("Backspace", "Backspace", 8));
    assert_eq!(cdp_key("Enter"), ("Enter", "Enter", 13));
    assert_eq!(cdp_key("a"), ("a", "a", 0));
}

#[test]
fn address_bar() {
    assert_eq!(navigation_url("  http://x.test/a b  "), "http://x.test/a b");
    assert_eq!(navigation_url("HTTPS://x"), "https://www.google.com/search?q=HTTPS%3A%2F%2Fx");
    assert_eq!(navigation_url("a&b é*-._~"), "https://www.google.com/search?q=a%26b+%C3%A9*-._%7E");
    assert_eq!(navigation_url(""), "https://www.google.com/search?q=");
    assert_eq!(trim_str("\u{3000} hi\t\u{85}"), "hi");
    assert_eq!(trim_str("   "), "");
}

#[test]
fn select_tab_and_bad_messages_are_not_scripts() {
    assert!(matches!(
        plan_control(Ok(Control::SelectTab { id: "T".to_string() }), &settings()),
        ControlPlan::SelectTab(ref id) if id == "T"
    ));
    assert!(matches!(
        plan_control(Err("unknown variant".to_string()), &settings()),
        ControlPlan::Reject(ref m) if m == "unknown variant"
    ));
}

#[test]
fn control_answers() {
    let before = WindowState { foreground: 100, cursor_x: 5, cursor_y: -7 };
    let same = WindowState { foreground: 100, cursor_x: 5, cursor_y: -7 };
    let moved = WindowState { foreground: 200, cursor_x: 5, cursor_y: 8 };
    assert_eq!(
        control_reply(&Ok("{\"a\":1}".to_string()), &before, &same),
        "{\"cursor_unchanged\":true,\"foreground_unchanged\":true,\"ok\":true,\"result\":{\"a\":1}}"
    );
    assert_eq!(
        control_reply(&Ok("null".to_string()), &before, &moved),
        "{\"cursor_unchanged\":false,\"foreground_unchanged\":false,\"ok\":true,\"result\":null}"
    );
    assert_eq!(
        control_reply(&Err("bad \"x\"".to_string()), &before, &same),
        "{\"error\":\"bad \\\"x\\\"\",\"ok\":false}"
    );
    assert_eq!(
        isolation_response(&before),
        "{\"cursor\":{\"x\":5,\"y\":-7},\"foreground_window\":100}"
    );
    assert_eq!(
        isolation_response(&WindowState { foreground: i64::MIN, cursor_x: i32::MIN, cursor_y: 0 }),
        "{\"cursor\":{\"x\":-2147483648,\"y\":0},\"foreground_window\":-9223372036854775808}"
    );
}

#[test]
fn startup_sequence() {
    let commands = hwmr::control::startup_commands(&settings());
    let pairs: Vec<(&str, &str)> = commands.iter().map(|(m, p)| (m.as_str(), p.as_str())).collect();
    assert_eq!(
        pairs,
        vec![
            ("Page.navigate", "{\"url\":\"https://www.youtube.com/\"}"),
            ("Page.enable", "{}"),
            (
                "Page.startScreencast",
                "{\"everyNthFrame\":2,\"format\":\"jpeg\",\"maxHeight\":932,\"maxWidth\":430,\"quality\":60}"
            ),
            (
                "Runtime.evaluate",
                "{\"expression\":\"JSON.stringify({visibilityState:document.visibilityState,hidden:document.hidden})\",\"returnByValue\":true}"
            ),
        ]
    );
}
