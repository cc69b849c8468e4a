use mybuds::commands::{CMD_EQUALIZER_READ, CMD_EQUALIZER_WRITE};
use mybuds::dispatch::{DeviceManager, Routed};
use mybuds::equalizer::{builtin_preset_name, signed_decimal_text, EqualizerHandler};
use mybuds::handler::DeviceHandler;
use mybuds::modules::Module;
use mybuds::packet::HuaweiSppPacket;

fn updates(v: &[(String, String)]) -> Vec<(&str, &str)> {
    v.iter().map(|(a, b)| (a.as_str(), b.as_str())).collect()
}

fn record(id: u8, bands: &[u8], label: &[u8]) -> Vec<u8> {
    let mut r = vec![id, bands.len() as u8];
    r.extend_from_slice(bands);
    r.extend_from_slice(label);
    r.resize(36, 0);
    r
}

#[test]
fn preset_report_with_custom_presets() {
    let mut h = EqualizerHandler::new(vec![(1, "default")], true);
    let mut pkt = HuaweiSppPacket::new(CMD_EQUALIZER_READ);
    pkt.parameters.insert(3, vec![1, 2, 5]);
    let mut customs = record(0x64, &[0x02, 0xFE, 0x00], b"mine");
    customs.extend(record(0x65, &[0x01], &[0xFF, 0xFE]));
    customs.extend(vec![0u8; 10]);
    pkt.parameters.insert(8, customs);
    pkt.parameters.insert(2, vec![0x64]);
    assert_eq!(
        updates(&h.report(&pkt)),
        vec![
            (
                "equalizer_preset_options",
                "equalizer_preset_default,equalizer_preset_hardbass,unknown,mine,custom_101"
            ),
            ("equalizer_max_custom_modes", "3"),
            ("equalizer_rows", "[2,-2,0]"),
            ("equalizer_preset", "mine")
        ]
    );
    // A later list of built-in presets keeps the custom ones.
    let mut pkt = HuaweiSppPacket::new(CMD_EQUALIZER_READ);
    pkt.parameters.insert(3, vec![9]);
    pkt.parameters.insert(2, vec![0xFF]);
    assert_eq!(
        updates(&h.report(&pkt)),
        vec![
            ("equalizer_preset_options", "equalizer_preset_voices,mine,custom_101"),
            ("equalizer_max_custom_modes", "3"),
            ("equalizer_preset", "unknown_-1")
        ]
    );
}

#[test]
fn preset_requests() {
    let h = EqualizerHandler::with_presets(vec![(2, "hardbass")]);
    let pkts = h.request("equalizer_preset", "equalizer_preset_hardbass");
    assert_eq!(pkts.len(), 2);
    assert_eq!(pkts[0].command_id, CMD_EQUALIZER_WRITE);
    assert_eq!(pkts[0].find_param(1), &[2]);
    assert_eq!(pkts[0].parameters.len(), 1);
    assert_eq!(pkts[1].command_id, CMD_EQUALIZER_READ);
    assert_eq!(pkts[1].parameters.len(), 8);
    assert_eq!(h.request("equalizer_preset", "nope").len(), 1);
    assert!(h.request("other", "x").is_empty());

    let mut h = EqualizerHandler::new(vec![], true);
    let mut pkt = HuaweiSppPacket::new(CMD_EQUALIZER_READ);
    pkt.parameters.insert(8, record(7, &[1, 2], b"club"));
    h.report(&pkt);
    let pkts = h.request("equalizer_preset", "club");
    assert_eq!(pkts[0].find_param(1), &[7]);
    assert_eq!(pkts[0].find_param(2), &[2]);
    assert_eq!(pkts[0].find_param(3), &[1, 2]);
    assert_eq!(pkts[0].find_param(4), b"club");
    assert_eq!(pkts[0].find_param(5), &[1]);
}

#[test]
fn overlong_record_is_skipped() {
    let mut h = EqualizerHandler::new(vec![], true);
    let mut pkt = HuaweiSppPacket::new(CMD_EQUALIZER_READ);
    let mut bad = vec![0u8; 36];
    bad[0] = 4;
    bad[1] = 40;
    pkt.parameters.insert(8, bad);
    let out = h.report(&pkt);
    assert_eq!(updates(&out)[0], ("equalizer_preset_options", ""));
}

#[test]
fn equalizer_in_dispatch() {
    let mut dm = DeviceManager::new(vec![Module::Equalizer(EqualizerHandler::new(vec![], false))]);
    assert!(matches!(dm.handle_packet(&HuaweiSppPacket::new(CMD_EQUALIZER_WRITE)), Routed::Ignored));
    let mut m = EqualizerHandler::new(vec![], false);
    assert_eq!(m.on_init()[0].parameters.len(), 8);
    assert_eq!(builtin_preset_name(9), Some("equalizer_preset_voices"));
    assert_eq!(builtin_preset_name(4), None);
    assert_eq!(signed_decimal_text(-128), "-128");
    assert_eq!(signed_decimal_text(127), "127");
}
