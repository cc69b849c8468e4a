use mybuds::commands::{
    CMD_DUAL_TAP_READ, CMD_DUAL_TAP_WRITE, CMD_LONG_TAP_SPLIT_READ_ANC, CMD_LONG_TAP_SPLIT_READ_BASE,
    CMD_LONG_TAP_SPLIT_WRITE_ANC, CMD_LONG_TAP_SPLIT_WRITE_BASE, CMD_SWIPE_READ, CMD_SWIPE_WRITE,
    CMD_TRIPLE_TAP_READ,
};
use mybuds::dispatch::{DeviceManager, Routed};
use mybuds::gestures::{
    anc_cycle_name, anc_cycle_value, call_action_name, call_action_value, long_tap_action_name,
    long_tap_action_value, swipe_action_name, swipe_action_value, tap_action_name, tap_action_value,
    LongTapSplitHandler, SwipeGestureHandler, TapActionHandler,
};
use mybuds::handler::{DeviceHandler, HandlerError};
use mybuds::modules::Module;
use mybuds::packet::HuaweiSppPacket;
use mybuds::text::{contains, ends_with, starts_with};

fn updates(v: &[(String, String)]) -> Vec<(&str, &str)> {
    v.iter().map(|(a, b)| (a.as_str(), b.as_str())).collect()
}

#[test]
fn tap_report_names_properties_after_the_tap() {
    let h = TapActionHandler::double_tap(true);
    let mut pkt = HuaweiSppPacket::new(CMD_DUAL_TAP_READ);
    pkt.parameters.insert(1, vec![0xFF]);
    pkt.parameters.insert(2, vec![0x02]);
    pkt.parameters.insert(3, vec![0xFF, 0x00, 0x07]);
    pkt.parameters.insert(4, vec![0x00]);
    assert_eq!(
        updates(&h.report(&pkt)),
        vec![
            ("double_tap_left", "tap_action_off"),
            ("double_tap_right", "tap_action_next"),
            ("double_tap_options", "tap_action_off,tap_action_assistant,tap_action_prev"),
            ("double_tap_in_call", "tap_action_answer"),
            ("double_tap_in_call_options", "tap_action_off,tap_action_answer")
        ]
    );
    assert!(h.report(&HuaweiSppPacket::new(CMD_DUAL_TAP_WRITE)).is_empty());
}

#[test]
fn tap_requests() {
    let mut h = TapActionHandler::triple_tap();
    assert_eq!(h.handler_id(), "gesture_triple");
    assert_eq!(h.commands()[0], CMD_TRIPLE_TAP_READ);
    let (pkts, local) = h.set_property("gesture_triple", "triple_tap_right", "tap_action_prev").unwrap();
    assert_eq!(pkts[0].find_param(2), &[7]);
    assert_eq!(updates(&local), vec![("triple_tap_right", "tap_action_prev")]);
    let (pkts, _) = h.set_property("gesture_triple", "triple_tap_left", "tap_action_off").unwrap();
    assert_eq!(pkts[0].find_param(1), &[0xFF]);
    let (pkts, _) = h.set_property("gesture_triple", "triple_tap_in_call", "tap_action_answer").unwrap();
    assert_eq!(pkts[0].find_param(4), &[0]);
    let (pkts, local) = h.set_property("gesture_triple", "triple_tap", "tap_action_off").unwrap();
    assert!(pkts.is_empty() && local.is_empty());
    assert_eq!(
        h.set_property("gesture_triple", "triple_tap_left", "tap_action_answer").unwrap_err(),
        HandlerError::InvalidValue
    );
}

#[test]
fn long_tap_reports_and_requests() {
    let h = LongTapSplitHandler::new(true, true, false, true);
    let mut pkt = HuaweiSppPacket::new(CMD_LONG_TAP_SPLIT_READ_BASE);
    pkt.parameters.insert(1, vec![10]);
    pkt.parameters.insert(2, vec![0xFF]);
    assert_eq!(
        updates(&h.report(&pkt)),
        vec![
            ("long_tap_left", "tap_action_switch_anc"),
            ("long_tap_right", "tap_action_off"),
            ("long_tap_options", "tap_action_off,tap_action_switch_anc")
        ]
    );
    let mut pkt = HuaweiSppPacket::new(CMD_LONG_TAP_SPLIT_READ_ANC);
    pkt.parameters.insert(1, vec![3]);
    let out = h.report(&pkt);
    assert_eq!(out[0].1, "noise_control_on_aw");
    assert_eq!(out.len(), 2);

    let (pkts, local) = h.request("long_tap_left", "tap_action_switch_anc").unwrap();
    assert_eq!(pkts[0].command_id, CMD_LONG_TAP_SPLIT_WRITE_BASE);
    assert_eq!(pkts[0].find_param(1), &[10]);
    assert_eq!(local.len(), 1);
    let (pkts, _) = h.request("noise_control_right", "noise_control_off_aw").unwrap();
    assert_eq!(pkts[0].command_id, CMD_LONG_TAP_SPLIT_WRITE_ANC);
    assert_eq!(pkts[0].find_param(2), &[4]);
    let (pkts, local) = h.request("long_tap", "tap_action_off").unwrap();
    assert!(pkts.is_empty() && local.is_empty());
    let (pkts, local) = h.request("other", "x").unwrap();
    assert!(pkts.is_empty());
    assert_eq!(updates(&local), vec![("other", "x")]);
    assert_eq!(h.request("noise_control_left", "loud").unwrap_err(), HandlerError::InvalidValue);
}

#[test]
fn long_tap_init_reads_cycle_only_with_anc() {
    let mut with = LongTapSplitHandler::new(true, false, false, true);
    let mut without = LongTapSplitHandler::new(true, false, false, false);
    assert_eq!(with.on_init().len(), 2);
    assert_eq!(without.on_init().len(), 1);
}

#[test]
fn swipe_report_and_request() {
    let h = SwipeGestureHandler;
    let mut pkt = HuaweiSppPacket::new(CMD_SWIPE_READ);
    pkt.parameters.insert(1, vec![0]);
    assert_eq!(
        updates(&h.report(&pkt)),
        vec![
            ("swipe_gesture", "tap_action_change_volume"),
            ("swipe_gesture_options", "tap_action_off,tap_action_change_volume")
        ]
    );
    let (pkts, local) = h.request("tap_action_off").unwrap();
    assert_eq!(pkts[0].command_id, CMD_SWIPE_WRITE);
    assert_eq!(pkts[0].find_param(1), &[0xFF]);
    assert_eq!(pkts[0].find_param(2), &[0xFF]);
    assert_eq!(updates(&local), vec![("swipe_gesture", "tap_action_off")]);
    assert_eq!(h.request("tap").unwrap_err(), HandlerError::InvalidValue);
}

#[test]
fn gesture_modules_dispatch() {
    let mut dm = DeviceManager::new(vec![
        Module::Tap(TapActionHandler::double_tap(false)),
        Module::LongTap(LongTapSplitHandler::new(true, false, false, true)),
        Module::Swipe(SwipeGestureHandler),
    ]);
    let mut pkt = HuaweiSppPacket::new(CMD_SWIPE_READ);
    pkt.parameters.insert(1, vec![0]);
    match dm.handle_packet(&pkt) {
        Routed::Delivered(d) => {
            assert_eq!(d.index, 2);
            assert_eq!(d.group, "action");
        }
        _ => panic!("not delivered"),
    }
    let (_, local, _) = dm.set_property("gesture_double", "double_tap_left", "tap_action_pause").unwrap();
    assert_eq!(updates(&local), vec![("double_tap_left", "tap_action_pause")]);
}

#[test]
fn action_names_and_values() {
    assert_eq!(tap_action_name(1), "tap_action_pause");
    assert_eq!(tap_action_name(3), "unknown");
    assert_eq!(tap_action_value("tap_action_next"), Some(2));
    assert_eq!(call_action_name(-1), "tap_action_off");
    assert_eq!(call_action_value("tap_action_pause"), None);
    assert_eq!(long_tap_action_name(10), "tap_action_switch_anc");
    assert_eq!(long_tap_action_value("tap_action_off"), Some(-1));
    assert_eq!(anc_cycle_name(2), "noise_control_off_on_aw");
    assert_eq!(anc_cycle_value("noise_control_off_on"), Some(1));
    assert_eq!(swipe_action_name(7), "unknown");
    assert_eq!(swipe_action_value("tap_action_change_volume"), Some(0));
}

#[test]
fn byte_matching() {
    assert!(starts_with("long_tap_left", "long_tap"));
    assert!(!starts_with("long", "long_tap"));
    assert!(ends_with("double_tap_left", "_left"));
    assert!(!ends_with("double_tap_left_x", "_left"));
    assert!(contains("noise_control_right", "right"));
    assert!(!contains("noise_control_right", "left"));
    assert!(contains("abc", ""));
}
