use mybuds::commands::{
    CMD_DUAL_CONNECT_CHANGE_EVENT, CMD_DUAL_CONNECT_ENABLED_READ, CMD_DUAL_CONNECT_ENABLED_WRITE,
    CMD_DUAL_CONNECT_ENUMERATE, CMD_DUAL_CONNECT_EXECUTE, CMD_DUAL_CONNECT_PREFERRED_WRITE,
};
use mybuds::dual_connect::{hex_to_bytes, DualConnectDevice, DualConnectHandler};
use mybuds::handler::{DeviceHandler, HandlerError};
use mybuds::models::freebuds_pro2;
use mybuds::packet::HuaweiSppPacket;

fn updates(v: &[(String, String)]) -> Vec<(&str, &str)> {
    v.iter().map(|(a, b)| (a.as_str(), b.as_str())).collect()
}

fn source(index: u8, count: u8, mac: [u8; 6], name: &[u8], connected: bool, preferred: bool) -> HuaweiSppPacket {
    let mut p = HuaweiSppPacket::new(CMD_DUAL_CONNECT_ENUMERATE);
    p.parameters.insert(2, vec![count]);
    p.parameters.insert(3, vec![index]);
    p.parameters.insert(4, mac.to_vec());
    p.parameters.insert(5, name.to_vec());
    p.parameters.insert(6, vec![connected as u8, 0]);
    p.parameters.insert(7, vec![preferred as u8]);
    p.parameters.insert(8, vec![1]);
    p
}

#[test]
fn enumeration_reports_once_complete() {
    let mut h = DualConnectHandler::new(true);
    let first = source(0, 2, [0xAA, 0xBB, 0xCC, 0, 1, 2], b"Phone\0junk", true, false);
    assert!(h.report(&first).is_empty());
    let second = source(1, 2, [1, 2, 3, 4, 5, 6], b"Laptop", false, true);
    assert_eq!(
        updates(&h.report(&second)),
        vec![
            (
                "devices",
                "{\"aabbcc000102\": {\"name\":\"Phone\",\"connected\":true,\"playing\":false,\"auto_connect\":true},\"010203040506\": {\"name\":\"Laptop\",\"connected\":false,\"playing\":false,\"auto_connect\":true}}"
            ),
            ("preferred_device", "010203040506")
        ]
    );
}

#[test]
fn other_replies() {
    let mut h = DualConnectHandler::new(true);
    let mut p = HuaweiSppPacket::new(CMD_DUAL_CONNECT_ENABLED_READ);
    p.parameters.insert(1, vec![1]);
    assert_eq!(updates(&h.report(&p)), vec![("enabled", "true")]);
    assert!(h.report(&HuaweiSppPacket::new(CMD_DUAL_CONNECT_CHANGE_EVENT)).is_empty());
    let mut short = HuaweiSppPacket::new(CMD_DUAL_CONNECT_ENUMERATE);
    short.parameters.insert(4, vec![1, 2, 3]);
    assert!(h.report(&short).is_empty());
    assert!(DualConnectDevice::from_packet(&short).is_none());
    let d = DualConnectDevice::from_packet(&source(0, 1, [1; 6], &[0xFF, 0xFE], true, false)).unwrap();
    assert_eq!(d.name, "");
    assert_eq!(d.mac, "010101010101");
    assert_eq!(d.to_json_value(), "{\"name\":\"\",\"connected\":true,\"playing\":false,\"auto_connect\":true}");
}

#[test]
fn requests() {
    let mut h = DualConnectHandler::new(true);
    let (p, _) = h.set_property("dual_connect", "enabled", "true").unwrap();
    assert_eq!(p[0].command_id, CMD_DUAL_CONNECT_ENABLED_WRITE);
    assert_eq!(p[0].find_param(1), &[1]);
    let (p, _) = h.set_property("dual_connect", "preferred_device", "01:02:03:0a:0B:ff").unwrap();
    assert_eq!(p[0].command_id, CMD_DUAL_CONNECT_PREFERRED_WRITE);
    assert_eq!(p[0].find_param(1), &[1, 2, 3, 10, 11, 255]);
    let (p, _) = h.set_property("dual_connect", "010203040506:connected", "false").unwrap();
    assert_eq!(p[0].command_id, CMD_DUAL_CONNECT_EXECUTE);
    assert_eq!(p[0].find_param(2), &[1, 2, 3, 4, 5, 6]);
    let (p, _) = h.set_property("dual_connect", "0102:name", "").unwrap();
    assert_eq!(p[0].find_param(3), &[1, 2]);
    let (p, _) = h.set_property("dual_connect", "0102:name", "x").unwrap();
    assert!(p.is_empty());
    assert_eq!(
        h.set_property("dual_connect", "zz:connected", "true").unwrap_err(),
        HandlerError::InvalidValue
    );
    assert_eq!(h.set_property("dual_connect", "preferred_device", "abc").unwrap_err(), HandlerError::InvalidValue);
    assert!(h.set_property("dual_connect", "other", "x").unwrap().0.is_empty());
    assert_eq!(h.on_init().len(), 2);
}

#[test]
fn hex_text() {
    assert_eq!(hex_to_bytes("a1-B2:c3"), Some(vec![0xA1, 0xB2, 0xC3]));
    assert_eq!(hex_to_bytes("+f0a"), None);
    assert_eq!(hex_to_bytes("+F"), None);
    assert_eq!(hex_to_bytes("é0"), None);
    assert_eq!(hex_to_bytes("0F-a0"), Some(vec![0x0F, 0xA0]));
    assert_eq!(hex_to_bytes(""), Some(vec![]));
    assert_eq!(hex_to_bytes("0g"), None);
    assert_eq!(hex_to_bytes("012"), None);
}

#[test]
fn profiles_include_dual_connect() {
    let names: Vec<&str> = freebuds_pro2().handlers.iter().map(|h| h.handler_id()).collect();
    assert_eq!(names[7], "dual_connect");
    assert_eq!(names.len(), 12);
}
