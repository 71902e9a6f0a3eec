use auxscreen_host::doctor::{doctor_failures, doctor_verdict, ElementProbe, PortalProbe};
use auxscreen_host::net::IpAddress;
use auxscreen_host::portal::{
    accept_stream, require_source_advertised, restore_token_from_contents, source_advertised, validate_stream_count,
    CaptureInfo, CaptureSource, ScreenSource,
};

#[test]
fn accepts_exactly_one_portal_stream() {
    assert!(validate_stream_count(1).is_ok());
}

#[test]
fn rejects_zero_or_multiple_portal_streams() {
    assert_eq!(
        validate_stream_count(0).unwrap_err().to_string(),
        "portal returned no PipeWire stream"
    );
    assert_eq!(
        validate_stream_count(2).unwrap_err().to_string(),
        "portal returned 2 streams; AuxScreen requires exactly one"
    );
}

#[test]
fn test_pattern_has_no_pipewire_stream() {
    let c = CaptureInfo::test_pattern((1920, 1200));
    assert_eq!(c.pipewire_fd, None);
    assert_eq!(c.node_id, None);
    assert_eq!(c.size, (1920, 1200));
}

#[test]
fn checks_advertised_sources() {
    assert!(source_advertised(7, CaptureSource::Virtual));
    assert!(!source_advertised(3, CaptureSource::Virtual));
    assert!(source_advertised(1, CaptureSource::Monitor));
    assert!(require_source_advertised(5, ScreenSource::Virtual).is_ok());
    assert_eq!(
        require_source_advertised(3, ScreenSource::Virtual).unwrap_err(),
        "ScreenCast portal does not advertise virtual monitor sources"
    );
    assert_eq!(
        require_source_advertised(4, ScreenSource::Monitor).unwrap_err(),
        "ScreenCast portal does not advertise physical monitor sources"
    );
    assert_eq!(ScreenSource::Virtual.key(), "virtual");
    assert_eq!(ScreenSource::Monitor.key(), "monitor");
}

#[test]
fn accepts_one_stream_of_the_requested_kind() {
    assert_eq!(
        accept_stream(ScreenSource::Virtual, 1, Some(CaptureSource::Virtual), Some((2112, 1320))).unwrap(),
        (2112, 1320)
    );
    assert_eq!(
        accept_stream(ScreenSource::Monitor, 1, Some(CaptureSource::Monitor), None).unwrap(),
        (1920, 1080)
    );
    assert_eq!(
        accept_stream(ScreenSource::Monitor, 1, Some(CaptureSource::Monitor), Some((-1, 10))).unwrap(),
        (u32::MAX, 10)
    );
    assert_eq!(
        accept_stream(ScreenSource::Virtual, 1, Some(CaptureSource::Window), None).unwrap_err(),
        "portal returned Some(Window) instead of a virtual monitor"
    );
    assert_eq!(
        accept_stream(ScreenSource::Monitor, 1, None, None).unwrap_err(),
        "portal returned None instead of a physical monitor"
    );
    assert_eq!(
        accept_stream(ScreenSource::Virtual, 3, Some(CaptureSource::Virtual), None).unwrap_err(),
        "portal returned 3 streams; AuxScreen requires exactly one"
    );
}

#[test]
fn reads_saved_restore_tokens() {
    assert_eq!(restore_token_from_contents("abc-123\n"), Some("abc-123".to_string()));
    assert_eq!(restore_token_from_contents("  \n"), None);
    assert_eq!(restore_token_from_contents(""), None);
}

#[test]
fn doctor_reports_blocking_problems() {
    assert!(doctor_verdict(0).is_ok());
    assert_eq!(doctor_verdict(1).unwrap_err(), "doctor found 1 blocking problem(s)");
    assert_eq!(doctor_verdict(12).unwrap_err(), "doctor found 12 blocking problem(s)");
}

fn elements(present: &[(&str, bool)]) -> Vec<ElementProbe> {
    present
        .iter()
        .map(|(name, present)| ElementProbe { name: name.to_string(), present: *present })
        .collect()
}

#[test]
fn doctor_lists_blocking_problems_in_order() {
    let ready = doctor_failures(
        &PortalProbe::Available { version: 5, source_types: 7 },
        &elements(&[("pipewiresrc", true), ("webrtcbin", true)]),
        IpAddress::v4(192, 168, 1, 254),
        "192.168.1.254:9898",
        None,
    );
    assert!(ready.is_empty());

    let failures = doctor_failures(
        &PortalProbe::Available { version: 4, source_types: 3 },
        &elements(&[("pipewiresrc", false), ("webrtcbin", true), ("x264enc", false)]),
        IpAddress::v4(8, 8, 8, 8),
        "8.8.8.8:9898",
        Some("Cannot assign requested address (os error 99)".to_string()),
    );
    assert_eq!(
        failures,
        vec![
            "portal does not advertise VIRTUAL source support".to_string(),
            "missing GStreamer element pipewiresrc".to_string(),
            "missing GStreamer element x264enc".to_string(),
            "signaling address 8.8.8.8:9898 is not a concrete private LAN address".to_string(),
            "cannot bind 8.8.8.8:9898: Cannot assign requested address (os error 99)".to_string(),
        ]
    );
    assert_eq!(doctor_verdict(failures.len()).unwrap_err(), "doctor found 5 blocking problem(s)");

    let unreachable = doctor_failures(
        &PortalProbe::Unavailable("no session bus".to_string()),
        &Vec::new(),
        IpAddress::V4(0),
        "0.0.0.0:9898",
        None,
    );
    assert_eq!(
        unreachable,
        vec![
            "portal unavailable: no session bus".to_string(),
            "signaling address 0.0.0.0:9898 is not a concrete private LAN address".to_string(),
        ]
    );
}
