use mybuds::anc::{AncHandler, AncLegacyChangeHandler, AncMode, AwarenessLevel, CancelLevel};
use mybuds::battery::BatteryHandler;
use mybuds::commands::{
    CMD_ANC_READ, CMD_ANC_WRITE, CMD_AUTO_PAUSE_READ, CMD_DEVICE_INFO, CMD_AUTO_PAUSE_WRITE, CMD_BATTERY_NOTIFY,
    CMD_BATTERY_READ, CMD_SOUND_QUALITY_READ, CMD_SOUND_QUALITY_WRITE,
};
use mybuds::config::{
    quality_pref_name, quality_pref_value, AutoPauseHandler, LowLatencyHandler, SoundQualityHandler,
};
use mybuds::dispatch::{ConnectionState, DeviceEvent, DeviceManager, DispatchError, Routed};
use mybuds::handler::{DeviceHandler, HandlerError};
use mybuds::info::{friendly_device_name, param_descriptor, parse_per_earphone_sn, InfoHandler};
use mybuds::init::{AttemptResult, InitAction, InitSequencer};
use mybuds::link::{alternate_channel, channels_to_try, check_header, decode_message, stream_address, HeaderCheck};
use mybuds::modules::Module;
use mybuds::packet::HuaweiSppPacket;
use mybuds::store::PropertyStore;
use mybuds::supervisor::ReconnectPolicy;
use mybuds::text::{decimal_text, join_comma};

fn manager() -> DeviceManager<Module> {
    DeviceManager::new(vec![
        Module::Battery(BatteryHandler::new(true)),
        Module::Anc(AncHandler::new(true, true, true)),
        Module::AncChange(AncLegacyChangeHandler),
    ])
}

fn updates(v: &[(String, String)]) -> Vec<(&str, &str)> {
    v.iter().map(|(a, b)| (a.as_str(), b.as_str())).collect()
}

#[test]
fn ignored_command_reaches_no_module() {
    let mut dm = manager();
    let pkt = HuaweiSppPacket::new(CMD_ANC_WRITE);
    assert!(matches!(dm.handle_packet(&pkt), Routed::Ignored));
}

#[test]
fn owned_command_is_delivered_once_to_its_owner() {
    let mut dm = manager();
    let mut pkt = HuaweiSppPacket::new(CMD_BATTERY_NOTIFY);
    pkt.parameters.insert(1, vec![0x64]);
    pkt.parameters.insert(2, vec![0x50, 0x4E, 0x00]);
    pkt.parameters.insert(3, vec![0x00, 0x01]);
    match dm.handle_packet(&pkt) {
        Routed::Delivered(d) => {
            assert_eq!(d.index, 0);
            match d.event {
                DeviceEvent::PropertyChanged { group } => assert_eq!(group, "battery"),
                other => panic!("unexpected event {:?}", other),
            }
            let out = d.outcome.unwrap();
            assert_eq!(
                updates(&out),
                vec![
                    ("global", "100"),
                    ("left", "80"),
                    ("right", "78"),
                    ("case", "0"),
                    ("is_charging", "true")
                ]
            );
        }
        _ => panic!("not delivered"),
    }
}

#[test]
fn unknown_command_is_unhandled() {
    let mut dm = manager();
    let pkt = HuaweiSppPacket::new([0x7F, 0x7F]);
    assert!(matches!(dm.handle_packet(&pkt), Routed::Unhandled));
}

#[test]
fn later_module_wins_a_shared_command() {
    let mut dm = DeviceManager::new(vec![
        Module::Battery(BatteryHandler::new(false)),
        Module::Battery(BatteryHandler::new(true)),
    ]);
    let pkt = HuaweiSppPacket::read_request(CMD_BATTERY_READ, &[2]);
    match dm.handle_packet(&pkt) {
        Routed::Delivered(d) => assert_eq!(d.index, 1),
        _ => panic!("not delivered"),
    }
}

#[test]
fn anc_report_updates() {
    let mut dm = manager();
    let mut pkt = HuaweiSppPacket::new(CMD_ANC_READ);
    pkt.parameters.insert(1, vec![0x03, 0x01]);
    match dm.handle_packet(&pkt) {
        Routed::Delivered(d) => {
            assert_eq!(d.index, 1);
            assert_eq!(
                updates(&d.outcome.unwrap()),
                vec![
                    ("mode", "cancellation"),
                    ("mode_options", "normal,cancellation,awareness"),
                    ("level", "dynamic"),
                    ("level_options", "comfort,normal,ultra,dynamic")
                ]
            );
        }
        _ => panic!("not delivered"),
    }
}

#[test]
fn anc_awareness_report_and_level_request() {
    let mut h = AncHandler::new(false, false, true);
    let mut pkt = HuaweiSppPacket::new(CMD_ANC_READ);
    pkt.parameters.insert(1, vec![0x01, 0x02]);
    let out = h.on_packet(&pkt).unwrap();
    assert_eq!(out[2].1, "voice_boost");
    assert_eq!(out[3].1, "voice_boost,normal");
    let (pkts, local) = h.set_property("anc", "level", "normal").unwrap();
    assert!(local.is_empty());
    assert_eq!(pkts[0].command_id, CMD_ANC_WRITE);
    assert_eq!(pkts[0].find_param(1), &[0x02, 0x02]);
    assert_eq!(pkts[1].command_id, CMD_ANC_READ);
    assert_eq!(pkts[1].parameters.len(), 2);
    assert_eq!(h.set_property("anc", "level", "ultra").unwrap_err(), HandlerError::InvalidValue);
}

#[test]
fn anc_report_of_wrong_size_changes_nothing() {
    let mut h = AncHandler::new(true, false, false);
    let mut pkt = HuaweiSppPacket::new(CMD_ANC_READ);
    pkt.parameters.insert(1, vec![0x01]);
    assert!(h.on_packet(&pkt).unwrap().is_empty());
}

#[test]
fn property_request_goes_to_named_module() {
    let mut dm = manager();
    let (pkts, local, ev) = dm.set_property("anc", "mode", "cancellation").unwrap();
    assert!(local.is_empty());
    assert_eq!(pkts.len(), 2);
    assert_eq!(pkts[0].find_param(1), &[0x01, 0xFF]);
    match ev {
        DeviceEvent::PropertyChanged { group } => assert_eq!(group, "anc"),
        other => panic!("unexpected event {:?}", other),
    }
    let (pkts, _, _) = dm.set_property("anc", "mode", "normal").unwrap();
    assert_eq!(pkts[0].find_param(1), &[0x00, 0x00]);
    assert_eq!(
        dm.set_property("anc", "mode", "loud").unwrap_err(),
        DispatchError::Handler(HandlerError::InvalidValue)
    );
    assert_eq!(dm.set_property("eq", "preset", "x").unwrap_err(), DispatchError::NoHandler);
}

#[test]
fn state_changes_are_notified() {
    let mut dm = manager();
    assert_eq!(dm.state(), ConnectionState::Disconnected);
    match dm.set_state(ConnectionState::Connecting) {
        DeviceEvent::StateChanged(s) => assert_eq!(s, ConnectionState::Connecting),
        other => panic!("unexpected event {:?}", other),
    }
    assert_eq!(dm.state(), ConnectionState::Connecting);
}

#[test]
fn init_requests_of_modules() {
    let mut dm = manager();
    assert_eq!(dm.len(), 3);
    let battery = dm.init_module(0);
    assert_eq!(battery.len(), 1);
    assert_eq!(battery[0].command_id, CMD_BATTERY_READ);
    assert_eq!(battery[0].parameters.len(), 3);
    assert!(dm.init_module(2).is_empty());
}

#[test]
fn closed_channel_aborts_initialization() {
    let (mut s, a) = InitSequencer::start(3, false);
    assert_eq!(a, InitAction::Attempt(0));
    assert_eq!(s.record(AttemptResult::Failed, true), InitAction::Abort);
    assert_eq!(s.record(AttemptResult::Succeeded, false), InitAction::Abort);
    let (_, a) = InitSequencer::start(3, true);
    assert_eq!(a, InitAction::Abort);
}

#[test]
fn failing_module_is_retried_three_times_then_skipped() {
    let (mut s, _) = InitSequencer::start(2, false);
    assert_eq!(s.record(AttemptResult::TimedOut, false), InitAction::Attempt(0));
    assert_eq!(s.record(AttemptResult::Failed, false), InitAction::Attempt(0));
    assert_eq!(s.record(AttemptResult::Failed, false), InitAction::Attempt(1));
    assert_eq!(s.record(AttemptResult::Succeeded, false), InitAction::Done);
    assert_eq!(InitSequencer::start(0, true).1, InitAction::Done);
}

#[test]
fn oversized_length_is_rejected() {
    assert_eq!(check_header(&[0x5A, 0xFF, 0xFF, 0x00], 1024), HeaderCheck::BadLength);
    assert_eq!(check_header(&[0x5A, 0x00, 0x02, 0x00], 1024), HeaderCheck::BadLength);
    assert_eq!(check_header(&[0x5A, 0x03, 0xE9, 0x00], 1024), HeaderCheck::BadLength);
    assert_eq!(check_header(&[0x5A, 0x03, 0xE8, 0x00], 1024), HeaderCheck::Body(1001));
    assert_eq!(check_header(&[0x5A, 0x03, 0xE8, 0x00], 1000), HeaderCheck::TooLarge);
    assert_eq!(check_header(&[0x5B, 0x00, 0x05, 0x00], 1024), HeaderCheck::BadMagic);
    assert_eq!(check_header(&[0x5A, 0x00, 0x05, 0x00], 1024), HeaderCheck::Body(6));
}

#[test]
fn hard_reset_after_three_failures() {
    let mut p = ReconnectPolicy::new();
    let mut delays = Vec::new();
    for _ in 0..3 {
        assert!(!p.before_attempt());
        delays.push(p.after_attempt(false));
    }
    assert_eq!(delays, vec![2, 4, 8]);
    assert!(p.before_attempt());
    assert_eq!(p.failures, 0);
    assert_eq!(p.after_attempt(false), 3);
    assert_eq!(p.after_attempt(true), 2);
    assert_eq!(p.backoff_secs, 4);
}

#[test]
fn backoff_stops_at_ceiling() {
    let mut p = ReconnectPolicy::new();
    let mut last = 0;
    for _ in 0..10 {
        last = p.after_attempt(false);
    }
    assert_eq!(last, 30);
}

#[test]
fn channel_fallback() {
    assert_eq!(alternate_channel(16), 1);
    assert_eq!(alternate_channel(1), 16);
    assert_eq!(alternate_channel(3), 16);
    assert_eq!(channels_to_try(16), [16, 1]);
}

#[test]
fn stream_address_is_reversed() {
    assert_eq!(stream_address([1, 2, 3, 4, 5, 6]), [6, 5, 4, 3, 2, 1]);
}

#[test]
fn message_frames_are_translated() {
    let p = decode_message(&[0x04, 0x00, 0x04, 0x00, 0x09, 0x00, 0x0D, 0x02, 0x00]).unwrap();
    assert_eq!(p.command_id, [0xA9, 0x0D]);
    assert_eq!(p.find_param(0), &[0x02, 0x00]);
    assert!(decode_message(&[0x04, 0x00]).is_none());
}

#[test]
fn names_and_bytes_of_levels() {
    assert_eq!(AncMode::from_byte(2), Some(AncMode::Awareness));
    assert_eq!(AncMode::from_byte(3), None);
    assert_eq!(AncMode::from_str("cancellation").unwrap().as_str(), "cancellation");
    assert_eq!(AncMode::from_str("off"), None);
    assert_eq!(CancelLevel::from_byte(3).unwrap().as_str(), "dynamic");
    assert_eq!(CancelLevel::from_str("comfort").unwrap().to_byte(), 1);
    assert_eq!(CancelLevel::from_byte(4), None);
    assert_eq!(AwarenessLevel::from_str("voice_boost").unwrap().to_byte(), 1);
    assert_eq!(AwarenessLevel::Normal.as_str(), "normal");
    assert_eq!(AwarenessLevel::from_str("boost"), None);
}

#[test]
fn decimal_and_join() {
    assert_eq!(decimal_text(0), "0");
    assert_eq!(decimal_text(7), "7");
    assert_eq!(decimal_text(42), "42");
    assert_eq!(decimal_text(255), "255");
    assert_eq!(join_comma(&vec!["a", "bc"]), "a,bc");
    assert_eq!(join_comma(&vec![]), "");
}

#[test]
fn battery_without_per_bud_levels() {
    let h = BatteryHandler::new(false);
    let mut pkt = HuaweiSppPacket::new(CMD_BATTERY_READ);
    pkt.parameters.insert(2, vec![1, 2, 3]);
    pkt.parameters.insert(3, vec![0]);
    let out = h.report(&pkt);
    assert_eq!(updates(&out), vec![("is_charging", "false")]);
}

#[test]
fn property_store_merges_and_clears() {
    let mut store = PropertyStore::new();
    assert_eq!(store.get("battery", "left"), None);
    store.put_properties(
        "battery",
        &vec![("left".to_string(), "80".to_string()), ("right".to_string(), "70".to_string())],
    );
    store.put_properties(
        "battery",
        &vec![("left".to_string(), "75".to_string()), ("left".to_string(), "74".to_string())],
    );
    store.put_properties("anc", &vec![]);
    assert_eq!(store.get("battery", "left").as_deref(), Some("74"));
    assert_eq!(store.get("battery", "right").as_deref(), Some("70"));
    assert_eq!(store.get("anc", "mode"), None);
    assert_eq!(store.get("sound", "left"), None);
    store.clear();
    assert_eq!(store.get("battery", "right"), None);
}

#[test]
fn config_modules() {
    let mut dm = DeviceManager::new(vec![
        Module::AutoPause(AutoPauseHandler),
        Module::LowLatency(LowLatencyHandler),
        Module::SoundQuality(SoundQualityHandler),
    ]);
    let mut pkt = HuaweiSppPacket::new(CMD_AUTO_PAUSE_READ);
    pkt.parameters.insert(1, vec![1]);
    match dm.handle_packet(&pkt) {
        Routed::Delivered(d) => {
            assert_eq!(d.group, "config");
            assert_eq!(updates(&d.outcome.unwrap()), vec![("auto_pause", "true")]);
        }
        _ => panic!("not delivered"),
    }
    let (pkts, local, _) = dm.set_property("tws_auto_pause", "auto_pause", "false").unwrap();
    assert_eq!(pkts[0].command_id, CMD_AUTO_PAUSE_WRITE);
    assert_eq!(pkts[0].find_param(1), &[0]);
    assert_eq!(updates(&local), vec![("auto_pause", "false")]);

    let (pkts, _, _) = dm.set_property("low_latency", "low_latency", "true").unwrap();
    assert_eq!(pkts.len(), 2);
    assert_eq!(pkts[0].find_param(1), &[1]);
    assert_eq!(pkts[1].parameters.len(), 1);

    let mut pkt = HuaweiSppPacket::new(CMD_SOUND_QUALITY_READ);
    pkt.parameters.insert(2, vec![1]);
    match dm.handle_packet(&pkt) {
        Routed::Delivered(d) => {
            assert_eq!(d.group, "sound");
            assert_eq!(
                updates(&d.outcome.unwrap()),
                vec![
                    ("quality_preference", "sqp_quality"),
                    ("quality_preference_options", "sqp_connectivity,sqp_quality")
                ]
            );
        }
        _ => panic!("not delivered"),
    }
    assert!(matches!(dm.handle_packet(&HuaweiSppPacket::new(CMD_SOUND_QUALITY_WRITE)), Routed::Ignored));
    assert_eq!(
        dm.set_property("config_sound_quality", "quality_preference", "best").unwrap_err(),
        DispatchError::Handler(HandlerError::InvalidValue)
    );
    assert_eq!(quality_pref_name(0), "sqp_connectivity");
    assert_eq!(quality_pref_name(5), "unknown");
    assert_eq!(quality_pref_value("sqp_quality"), Some(1));
}

#[test]
fn device_information_report() {
    let h = InfoHandler;
    let mut pkt = HuaweiSppPacket::new(CMD_DEVICE_INFO);
    pkt.parameters.insert(15, b"T0003".to_vec());
    pkt.parameters.insert(7, b"1.2.3".to_vec());
    pkt.parameters.insert(2, vec![0xFF, 0x01]);
    pkt.parameters.insert(24, b"L-ABC,R-DEF".to_vec());
    assert_eq!(
        updates(&h.report(&pkt)),
        vec![
            ("field_2", "ff01"),
            ("software_ver", "1.2.3"),
            ("device_model", "T0003"),
            ("left_serial_number", "ABC"),
            ("right_serial_number", "DEF"),
            ("device_name", "FreeBuds Pro 2")
        ]
    );
    let mut pkt = HuaweiSppPacket::new(CMD_DEVICE_INFO);
    pkt.parameters.insert(10, b"X1".to_vec());
    pkt.parameters.insert(24, b"SN".to_vec());
    assert_eq!(updates(&h.report(&pkt)), vec![("device_submodel", "X1"), ("field_24", "SN")]);
    assert_eq!(updates(&parse_per_earphone_sn(b"L-1,X-2")), vec![("left_serial_number", "1")]);
    assert!(parse_per_earphone_sn(b"L-1").is_empty());
    assert_eq!(param_descriptor(9), "serial_number");
    assert_eq!(param_descriptor(4), "");
    assert_eq!(friendly_device_name("CD-R551"), Some("FreeBuds Pro 3"));
    assert_eq!(friendly_device_name("X"), None);
}
