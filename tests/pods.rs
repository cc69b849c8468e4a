use mybuds::aap::AapPacket;
use mybuds::airpods::{
    build_control_command, ear_state_str, split_at_zeros, AirPodsInfoHandler, listening_mode_byte, listening_mode_str, parse_pods_battery,
    AirPodsAncHandler, AirPodsBatteryHandler, AirPodsConversationAwarenessHandler,
    AirPodsEarDetectionHandler, AirPodsPersonalizedVolumeHandler, CMD_LISTENING_MODE,
};
use mybuds::dispatch::{DeviceManager, Routed};
use mybuds::handler::{DeviceHandler, HandlerError};
use mybuds::modules::Module;
use mybuds::packet::HuaweiSppPacket;
use mybuds::text::encode;

fn updates(v: &[(String, String)]) -> Vec<(&str, &str)> {
    v.iter().map(|(a, b)| (a.as_str(), b.as_str())).collect()
}

fn translated(opcode: u8, payload: Vec<u8>) -> HuaweiSppPacket {
    AapPacket::new(opcode, payload).to_handler_packet()
}

#[test]
fn pods_battery_report() {
    let pkt = translated(
        0x04,
        vec![3, 0x04, 0x01, 80, 0x02, 0x01, 0x02, 0x01, 70, 0x01, 0x01, 0x08, 0x01, 50, 0x04, 0x01],
    );
    let out = AirPodsBatteryHandler.report(&pkt);
    assert_eq!(
        updates(&out),
        vec![
            ("left", "80"),
            ("right", "70"),
            ("left_charging", "false"),
            ("right_charging", "true"),
            ("global", "75"),
            ("is_charging", "true")
        ]
    );
}

#[test]
fn pods_battery_truncated_entries() {
    let st = parse_pods_battery(&[5, 0x04, 0x01, 90, 0x02, 0x01, 0x02, 0x01]);
    assert_eq!(st.left, Some(90));
    assert_eq!(st.left_charging, Some(false));
    assert_eq!(st.right, None);
    let out = AirPodsBatteryHandler.report(&translated(0x04, vec![]));
    assert!(out.is_empty());
}

#[test]
fn ear_detection_and_toggles() {
    let out = AirPodsEarDetectionHandler.report(&translated(0x06, vec![0x00, 0x02]));
    assert_eq!(updates(&out), vec![("primary", "in_ear"), ("secondary", "in_case")]);
    let out = AirPodsEarDetectionHandler.report(&translated(0x09, vec![0x0A, 0x01]));
    assert_eq!(updates(&out), vec![("enabled", "true")]);
    let out = AirPodsConversationAwarenessHandler.report(&translated(0x4B, vec![0x02, 0x00, 0x01]));
    assert_eq!(updates(&out), vec![("speaking", "true")]);
    let out = AirPodsPersonalizedVolumeHandler.report(&translated(0x09, vec![0x26, 0x02]));
    assert_eq!(updates(&out), vec![("enabled", "false")]);
    assert_eq!(ear_state_str(0x01), "out");
    assert_eq!(ear_state_str(0x07), "unknown");
}

#[test]
fn listening_mode_report_and_request() {
    let h = AirPodsAncHandler::new(true);
    let out = h.report(&translated(0x09, vec![0x0D, 0x04, 0x00]));
    assert_eq!(
        updates(&out),
        vec![("mode", "adaptive"), ("mode_options", "off,anc,transparency,adaptive")]
    );
    let out = h.report(&translated(0x09, vec![0x2E, 0x28]));
    assert_eq!(updates(&out), vec![("anc_strength", "40")]);
    let pkts = h.request("mode", "transparency").unwrap();
    assert_eq!(pkts[0].command_id, CMD_LISTENING_MODE);
    assert_eq!(pkts[0].find_param(0), &[0x03, 0, 0, 0]);
    let pkts = h.request("anc_strength", "75").unwrap();
    assert_eq!(pkts[0].find_param(0), &[75, 0, 0, 0]);
    assert_eq!(h.request("anc_strength", "300").unwrap_err(), HandlerError::InvalidValue);
    assert_eq!(h.request("anc_strength", "+007").unwrap()[0].find_param(0), &[7, 0, 0, 0]);
    assert_eq!(h.request("anc_strength", "+").unwrap_err(), HandlerError::InvalidValue);
    assert_eq!(h.request("anc_strength", "").unwrap_err(), HandlerError::InvalidValue);
    assert_eq!(h.request("anc_strength", "-1").unwrap_err(), HandlerError::InvalidValue);
    assert_eq!(h.request("anc_strength", "\u{663}").unwrap_err(), HandlerError::InvalidValue);
    assert_eq!(h.request("anc_strength", "255").unwrap()[0].find_param(0), &[255, 0, 0, 0]);
    assert_eq!(h.request("anc_strength", "0256").unwrap_err(), HandlerError::InvalidValue);
    assert_eq!(h.request("mode", "loud").unwrap_err(), HandlerError::InvalidValue);
    assert!(h.request("other", "x").unwrap().is_empty());
    assert_eq!(listening_mode_str(0x02), "anc");
    assert_eq!(listening_mode_byte("off"), Some(0x01));
}

#[test]
fn control_command_reaches_the_device_as_a_frame() {
    let pkt = build_control_command(0x28, 0x01);
    assert_eq!(
        AapPacket::from_handler_packet(&pkt).unwrap(),
        vec![0x04, 0x00, 0x04, 0x00, 0x09, 0x00, 0x28, 0x01, 0x00, 0x00, 0x00]
    );
}

#[test]
fn pods_modules_dispatch() {
    let mut dm = DeviceManager::new(vec![
        Module::PodsBattery(AirPodsBatteryHandler),
        Module::PodsAnc(AirPodsAncHandler::new(false)),
        Module::PodsEarDetection(AirPodsEarDetectionHandler),
        Module::PodsConversation(AirPodsConversationAwarenessHandler),
        Module::PodsVolume(AirPodsPersonalizedVolumeHandler),
    ]);
    match dm.handle_packet(&translated(0x09, vec![0x0D, 0x02])) {
        Routed::Delivered(d) => assert_eq!(d.index, 1),
        _ => panic!("not delivered"),
    }
    let (pkts, _, _) = dm.set_property("personalized_volume", "enabled", "true").unwrap();
    assert_eq!(pkts[0].command_id, [0xA9, 0x26]);
    assert_eq!(pkts[0].find_param(0), &[0x01, 0, 0, 0]);
    let mut h = AirPodsEarDetectionHandler;
    assert!(h.set_property("ear_detection", "primary", "x").unwrap().0.is_empty());
}

#[test]
fn descriptions() {
    let mut pkt = HuaweiSppPacket::new([0x2B, 0x2A]);
    pkt.parameters.insert(1, vec![0x01, 0xAB]);
    pkt.parameters.insert(12, vec![]);
    assert_eq!(pkt.describe(), "cmd=2B2A p1=01ab p12=");
    assert_eq!(AapPacket::new(0x4B, vec![0x0F]).describe(), "AAP op=0x4B payload=0f");
    assert_eq!(AapPacket::new(0x06, vec![]).describe(), "AAP op=0x06");
    assert_eq!(encode(&[0x00, 0x9f, 0xff]), "009fff");
}

#[test]
fn device_info_strings() {
    let pkt = translated(
        0x1D,
        b"AirPods Pro\0A2084\0\0Apple Inc.\0SN1\x00FW1\0FW2\0HW\0UP\0L1\0R1\0extra\0".to_vec(),
    );
    let out = AirPodsInfoHandler.report(&pkt);
    assert_eq!(
        updates(&out),
        vec![
            ("device_name", "AirPods Pro"),
            ("device_model", "A2084"),
            ("manufacturer", "Apple Inc."),
            ("serial_number", "SN1"),
            ("firmware_ver_1", "FW1"),
            ("firmware_ver_2", "FW2"),
            ("hardware_ver", "HW"),
            ("updater_id", "UP"),
            ("left_serial", "L1"),
            ("right_serial", "R1"),
            ("software_ver", "FW1")
        ]
    );
    let out = AirPodsInfoHandler.report(&translated(0x1D, vec![b'a', 0xFF, 0, b'b']));
    assert_eq!(updates(&out), vec![("device_name", "a\u{FFFD}"), ("device_model", "b")]);
    assert!(AirPodsInfoHandler.report(&translated(0x1D, vec![0, 0])).is_empty());
    assert_eq!(split_at_zeros(&[0, 1, 2, 0, 0, 3]), vec![vec![1, 2], vec![3]]);
}
