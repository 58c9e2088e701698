use hwmr::config::{
    brave_args, brave_path, clamp_viewport, device_metrics, devtools_port, devtools_port_file,
    devtools_port_file_for, every_nth_frame, host_port, is_trusted_lan_address, jpeg_quality,
    parse_unsigned_at_most, profile_dir, screencast_params, stream_settings, Attempts,
    BraveLookup, LaunchAction, LaunchEvent, LaunchPoll, ProfileDir, StreamSettings, LAUNCH_ATTEMPTS,
    MOBILE_USER_AGENT,
};

#[test]
fn host_port_overrides() {
    assert_eq!(host_port(None), 8787);
    assert_eq!(host_port(Some("9000")), 9000);
    assert_eq!(host_port(Some("+80")), 80);
    assert_eq!(host_port(Some("0")), 8787);
    assert_eq!(host_port(Some("65535")), 65535);
    assert_eq!(host_port(Some("65536")), 8787);
    assert_eq!(host_port(Some("-1")), 8787);
    assert_eq!(host_port(Some("")), 8787);
    assert_eq!(host_port(Some("+")), 8787);
    assert_eq!(host_port(Some(" 80")), 8787);
    assert_eq!(host_port(Some("8o")), 8787);
}

#[test]
fn jpeg_quality_overrides() {
    assert_eq!(jpeg_quality(None), 60);
    assert_eq!(jpeg_quality(Some("75")), 75);
    assert_eq!(jpeg_quality(Some("1")), 1);
    assert_eq!(jpeg_quality(Some("100")), 100);
    assert_eq!(jpeg_quality(Some("0")), 60);
    assert_eq!(jpeg_quality(Some("101")), 60);
    assert_eq!(jpeg_quality(Some("256")), 60);
}

#[test]
fn frame_cadence_overrides() {
    assert_eq!(every_nth_frame(None), 2);
    assert_eq!(every_nth_frame(Some("3")), 3);
    assert_eq!(every_nth_frame(Some("0")), 2);
    assert_eq!(every_nth_frame(Some("-4")), 2);
    assert_eq!(every_nth_frame(Some("2147483647")), 2147483647);
    assert_eq!(every_nth_frame(Some("2147483648")), 2);
}

#[test]
fn unsigned_parsing() {
    assert_eq!(parse_unsigned_at_most("007", 10), Some(7));
    assert_eq!(parse_unsigned_at_most("11", 10), None);
    assert_eq!(parse_unsigned_at_most("99999999999999999999", 65535), None);
    assert_eq!(parse_unsigned_at_most("1x", 65535), None);
}

#[test]
fn viewport_is_clamped() {
    assert_eq!(clamp_viewport(0, 5000), (1, 2400));
    assert_eq!(clamp_viewport(3000, 10), (1920, 10));
    let metrics: serde_json::Value = serde_json::from_str(&device_metrics(0, 5000)).unwrap();
    assert_eq!(metrics["width"], 1);
    assert_eq!(metrics["height"], 2400);
    assert_eq!(metrics["screenWidth"], 1);
    assert_eq!(metrics["screenHeight"], 2400);
    assert_eq!(metrics["deviceScaleFactor"], 1);
    assert_eq!(
        device_metrics(390, 760),
        "{\"deviceScaleFactor\":1,\"height\":760,\"mobile\":true,\"screenHeight\":760,\"screenWidth\":390,\"width\":390}"
    );
}

#[test]
fn screencast_parameters() {
    let settings = StreamSettings { quality: 60, every_nth_frame: 2 };
    assert_eq!(
        screencast_params(&settings, 430, 932),
        "{\"everyNthFrame\":2,\"format\":\"jpeg\",\"maxHeight\":932,\"maxWidth\":430,\"quality\":60}"
    );
    let settings = stream_settings(Some("90"), Some("5"));
    assert_eq!(settings.quality, 90);
    assert_eq!(settings.every_nth_frame, 5);
    assert_eq!(
        screencast_params(&settings, 5000, 0),
        "{\"everyNthFrame\":5,\"format\":\"jpeg\",\"maxHeight\":1,\"maxWidth\":1920,\"quality\":90}"
    );
}

#[test]
fn lan_addresses() {
    assert!(is_trusted_lan_address([192, 168, 1, 20]));
    assert!(is_trusted_lan_address([10, 0, 0, 1]));
    assert!(is_trusted_lan_address([172, 16, 0, 1]));
    assert!(is_trusted_lan_address([172, 31, 255, 1]));
    assert!(!is_trusted_lan_address([172, 32, 0, 1]));
    assert!(is_trusted_lan_address([169, 254, 3, 4]));
    assert!(!is_trusted_lan_address([8, 8, 8, 8]));
    assert!(!is_trusted_lan_address([127, 0, 0, 1]));
}

#[test]
fn profile_directory_choice() {
    assert!(matches!(profile_dir::<&str>(None, Some("D:\\p")), Ok(ProfileDir::Custom("D:\\p"))));
    assert!(profile_dir::<&str>(None, None).is_err());
    assert!(matches!(profile_dir(Some("L"), Some("D:\\p")), Ok(ProfileDir::Custom("D:\\p"))));
    assert!(matches!(profile_dir(Some("L"), None), Ok(ProfileDir::UnderLocalAppData("L"))));
}

#[test]
fn brave_lookup() {
    assert!(matches!(brave_path(Some(("x", true)), vec![("a", true)]), BraveLookup::Found("x")));
    assert!(matches!(
        brave_path(Some(("x", false)), vec![("a", true)]),
        BraveLookup::OverrideMissing("x")
    ));
    assert!(matches!(
        brave_path(None, vec![("a", false), ("b", true), ("c", true)]),
        BraveLookup::Found("b")
    ));
    assert!(matches!(brave_path::<&str>(None, vec![("a", false)]), BraveLookup::NotInstalled));
}

#[test]
fn devtools_port_file_contents() {
    assert_eq!(devtools_port("9229\n/devtools/browser/abc\n"), Some(9229));
    assert_eq!(devtools_port("9230\r\n/devtools/browser/abc\r\n"), Some(9230));
    assert_eq!(devtools_port("9231"), Some(9231));
    assert_eq!(devtools_port(""), None);
    assert_eq!(devtools_port("\n9229\n"), None);
    assert_eq!(devtools_port("70000\n"), None);
    assert_eq!(devtools_port("92 29\n"), None);
    assert_eq!(devtools_port_file("/devtools/browser/x"), "9229\n/devtools/browser/x\n");
    assert_eq!(
        devtools_port_file_for("ws://127.0.0.1:9229/devtools/browser/abc-def").unwrap(),
        "9229\n/devtools/browser/abc-def\n"
    );
    assert!(devtools_port_file_for("not a url").is_err());
}

#[test]
fn browser_command_line() {
    let args = brave_args("C:\\Users\\me\\HWMR\\browser-profile-v7");
    assert_eq!(args.len(), 8);
    assert_eq!(args[0], "--headless");
    assert_eq!(args[1], "--remote-debugging-address=127.0.0.1");
    assert_eq!(args[2], "--remote-debugging-port=9229");
    assert_eq!(args[3], "--no-first-run");
    assert_eq!(args[4], format!("--user-agent={MOBILE_USER_AGENT}"));
    assert_eq!(args[5], "--user-data-dir=C:\\Users\\me\\HWMR\\browser-profile-v7");
    assert_eq!(args[6], "--window-size=430,932");
    assert_eq!(args[7], "about:blank");
}

#[test]
fn attempts_are_bounded() {
    let mut a = Attempts::new(3);
    assert!(a.next());
    assert!(a.next());
    assert!(a.next());
    assert!(!a.next());
    assert!(!a.next());
    let mut none = Attempts::new(0);
    assert!(!none.next());
}

fn launch_until_done(mut poll: LaunchPoll, mut action: LaunchAction, file: Option<&str>, probe: bool) -> (LaunchAction, usize) {
    let mut reads = 0;
    loop {
        let event = match action {
            LaunchAction::ReadPortFile => {
                reads += 1;
                LaunchEvent::PortFile(file.map(|f| f.to_string()))
            }
            LaunchAction::ProbeTargets => LaunchEvent::Probed(probe),
            LaunchAction::Sleep => LaunchEvent::Slept,
            done => return (done, reads),
        };
        action = poll.step(event);
    }
}

#[test]
fn launch_polling() {
    let (poll, action) = LaunchPoll::start();
    assert!(matches!(action, LaunchAction::ReadPortFile));
    let (done, reads) = launch_until_done(poll, action, Some("9333\n/devtools/browser/x\n"), false);
    assert!(matches!(done, LaunchAction::UsePort(9333)));
    assert_eq!(reads, 1);

    let (poll, action) = LaunchPoll::start();
    let (done, reads) = launch_until_done(poll, action, Some("not a port\n"), true);
    assert!(matches!(done, LaunchAction::WritePortFile));
    assert_eq!(reads, 1);

    let (poll, action) = LaunchPoll::start();
    let (done, reads) = launch_until_done(poll, action, None, false);
    assert!(matches!(done, LaunchAction::GiveUp));
    assert_eq!(reads, LAUNCH_ATTEMPTS as usize);
}

#[test]
fn launch_polling_order() {
    let (mut poll, _) = LaunchPoll::start();
    assert!(matches!(poll.step(LaunchEvent::PortFile(None)), LaunchAction::ProbeTargets));
    assert!(matches!(poll.step(LaunchEvent::Probed(false)), LaunchAction::Sleep));
    assert!(matches!(poll.step(LaunchEvent::Slept), LaunchAction::ReadPortFile));
    assert!(matches!(
        poll.step(LaunchEvent::PortFile(Some("9229\n/devtools/browser/abc\n".to_string()))),
        LaunchAction::UsePort(9229)
    ));
}
