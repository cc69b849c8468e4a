use mybuds::aap::{
    AapPacket, CC_LISTENING_MODE, CMD_CC_PREFIX, CMD_PREFIX, LM_ANC, OP_BATTERY_INFO,
    OP_CONTROL_COMMAND, OP_REQUEST_NOTIFICATIONS, OP_SET_FEATURE_FLAGS,
};
use mybuds::crc::crc16_xmodem;
use mybuds::packet::{HuaweiSppPacket, PacketError};

#[test]
fn test_control_command_roundtrip() {
    let aap = AapPacket::control_command(CC_LISTENING_MODE, LM_ANC);
    let handler_pkt = aap.to_handler_packet();

    assert_eq!(handler_pkt.command_id, [CMD_CC_PREFIX, CC_LISTENING_MODE]);
    let data = handler_pkt.find_param(0);
    assert_eq!(data[0], LM_ANC);

    let bytes = AapPacket::from_handler_packet(&handler_pkt).unwrap();
    let parsed = AapPacket::from_bytes(&bytes).unwrap();
    assert_eq!(parsed.opcode, OP_CONTROL_COMMAND);
    assert_eq!(parsed.payload[0], CC_LISTENING_MODE);
    assert_eq!(parsed.payload[1], LM_ANC);
}

#[test]
fn test_general_opcode_roundtrip() {
    let aap = AapPacket::new(OP_BATTERY_INFO, vec![0x03, 0x02, 0x01, 0x64]);
    let handler_pkt = aap.to_handler_packet();

    assert_eq!(handler_pkt.command_id, [CMD_PREFIX, OP_BATTERY_INFO]);
    assert_eq!(handler_pkt.find_param(0), &[0x03, 0x02, 0x01, 0x64]);

    let bytes = AapPacket::from_handler_packet(&handler_pkt).unwrap();
    let parsed = AapPacket::from_bytes(&bytes).unwrap();
    assert_eq!(parsed.opcode, OP_BATTERY_INFO);
}

#[test]
fn test_init_packets() {
    let hs = AapPacket::handshake();
    assert_eq!(hs[0], 0x00);
    assert_eq!(hs.len(), 16);

    let ff = AapPacket::feature_flags();
    assert_eq!(ff[4], OP_SET_FEATURE_FLAGS);

    let rn = AapPacket::request_notifications();
    assert_eq!(rn[4], OP_REQUEST_NOTIFICATIONS);
}

#[test]
fn test_crc_known_value() {
    let data = b"\x5a\x00\x05\x00\x01\x08\x01\x00";
    let crc = crc16_xmodem(data);
    assert_eq!(crc.len(), 2);
}

#[test]
fn test_crc_empty() {
    let crc = crc16_xmodem(&[]);
    assert_eq!(crc, [0x00, 0x00]);
}

#[test]
fn test_roundtrip() {
    let mut pkt = HuaweiSppPacket::new([0x01, 0x08]);
    pkt.parameters.insert(1, vec![0x64]);
    pkt.parameters.insert(2, vec![0x50, 0x4E, 0x00]);

    let bytes = pkt.to_bytes();
    let parsed = HuaweiSppPacket::from_bytes_checked(&bytes).unwrap();

    assert_eq!(parsed.command_id, [0x01, 0x08]);
    assert_eq!(parsed.find_param(1), &[0x64]);
    assert_eq!(parsed.find_param(2), &[0x50, 0x4E, 0x00]);
}

#[test]
fn test_read_request() {
    let pkt = HuaweiSppPacket::read_request([0x01, 0x08], &[1, 2, 3]);
    assert_eq!(pkt.parameters.len(), 3);
    assert!(pkt.find_param(1).is_empty());
    assert!(pkt.find_param(2).is_empty());
    assert!(pkt.find_param(3).is_empty());
}

#[test]
fn test_write_request() {
    let pkt = HuaweiSppPacket::write_request([0x2B, 0x04], &[(1, vec![0x01, 0xFF])]);
    assert_eq!(pkt.command_id, [0x2B, 0x04]);
    assert_eq!(pkt.find_param(1), &[0x01, 0xFF]);
}

#[test]
fn test_packet_format() {
    let pkt = HuaweiSppPacket::read_request([0x01, 0x08], &[1, 2, 3]);
    let bytes = pkt.to_bytes();

    assert_eq!(bytes[0], 0x5A);
    assert_eq!(bytes[3], 0x00);
    assert_eq!(bytes[4], 0x01);
    assert_eq!(bytes[5], 0x08);

    let parsed = HuaweiSppPacket::from_bytes_checked(&bytes).unwrap();
    assert_eq!(parsed.command_id, [0x01, 0x08]);
}

#[test]
fn test_empty_param_not_found() {
    let pkt = HuaweiSppPacket::new([0x01, 0x08]);
    assert!(pkt.find_param(99).is_empty());
}

#[test]
fn test_crc_validation_fails_on_corrupt() {
    let pkt = HuaweiSppPacket::new([0x01, 0x08]);
    let mut bytes = pkt.to_bytes();
    let len = bytes.len();
    bytes[len - 1] ^= 0xFF;
    assert!(HuaweiSppPacket::from_bytes_checked(&bytes).is_err());
}

#[test]
fn crc_check_value_of_xmodem() {
    assert_eq!(crc16_xmodem(b"123456789"), [0x31, 0xC3]);
}

#[test]
fn frame_bytes_are_exact() {
    let mut pkt = HuaweiSppPacket::new([0x01, 0x08]);
    pkt.parameters.insert(2, vec![0x50]);
    pkt.parameters.insert(1, vec![]);
    let bytes = pkt.to_bytes();
    let head = [0x5A, 0x00, 0x08, 0x00, 0x01, 0x08, 0x01, 0x00, 0x02, 0x01, 0x50];
    assert_eq!(&bytes[..11], &head);
    assert_eq!(&bytes[11..], &crc16_xmodem(&head));
}

#[test]
fn battery_packet_round_trip() {
    let mut pkt = HuaweiSppPacket::new([0x01, 0x08]);
    pkt.parameters.insert(1, vec![0x64]);
    pkt.parameters.insert(2, vec![0x50, 0x4E, 0x00]);
    let parsed = HuaweiSppPacket::from_bytes(&pkt.to_bytes()).unwrap();
    assert_eq!(parsed.command_id, [0x01, 0x08]);
    assert_eq!(parsed.parameters, pkt.parameters);
}

#[test]
fn flipped_trailer_bytes_are_rejected() {
    let pkt = HuaweiSppPacket::read_request([0x2B, 0x2A], &[1, 2]);
    let good = pkt.to_bytes();
    let len = good.len();
    for (hi, lo) in [(0xFFu8, 0xFFu8), (0x01, 0x00), (0x00, 0x80)] {
        let mut bytes = good.clone();
        bytes[len - 2] ^= hi;
        bytes[len - 1] ^= lo;
        assert_eq!(
            HuaweiSppPacket::from_bytes_checked(&bytes).unwrap_err(),
            PacketError::CrcMismatch
        );
    }
}

#[test]
fn decode_errors() {
    assert_eq!(HuaweiSppPacket::from_bytes(&[0x5A, 0, 3, 0, 1]).unwrap_err(), PacketError::TooShort);
    assert_eq!(
        HuaweiSppPacket::from_bytes(&[0x5B, 0, 3, 0, 1, 8, 0, 0]).unwrap_err(),
        PacketError::BadMagic
    );
    assert_eq!(
        HuaweiSppPacket::from_bytes(&[0x5A, 0, 3, 1, 1, 8, 0, 0]).unwrap_err(),
        PacketError::BadReserved
    );
    assert_eq!(
        HuaweiSppPacket::from_bytes(&[0x5A, 0, 9, 0, 1, 8, 1, 9, 0, 0]).unwrap_err(),
        PacketError::ParamOverflow
    );
    assert_eq!(
        HuaweiSppPacket::from_bytes_checked(&[0x5A, 0, 3]).unwrap_err(),
        PacketError::TooShort
    );
}

#[test]
fn later_tag_wins_in_write_request() {
    let pkt = HuaweiSppPacket::write_request([0x2B, 0x04], &[(1, vec![1]), (1, vec![2, 3])]);
    assert_eq!(pkt.parameters.len(), 1);
    assert_eq!(pkt.find_param(1), &[2, 3]);
}

#[test]
fn short_message_frames() {
    assert!(AapPacket::from_bytes(&[0x04, 0x00, 0x04, 0x00]).is_none());
    let p = AapPacket::from_bytes(&[0x04, 0x00, 0x04, 0x00, 0x06]).unwrap();
    assert_eq!(p.opcode, 0x06);
    assert!(p.payload.is_empty());
}

#[test]
fn message_frame_bytes() {
    let p = AapPacket::new(0x4B, vec![0x01, 0x02]);
    assert_eq!(p.to_bytes(), vec![0x04, 0x00, 0x04, 0x00, 0x4B, 0x00, 0x01, 0x02]);
    assert_eq!(
        AapPacket::feature_flags(),
        vec![0x04, 0x00, 0x04, 0x00, 0x4D, 0x00, 0xFF, 0, 0, 0, 0, 0, 0, 0]
    );
    assert_eq!(
        AapPacket::request_notifications(),
        vec![0x04, 0x00, 0x04, 0x00, 0x0F, 0x00, 0xFF, 0xFF, 0xFE, 0xFF]
    );
}

#[test]
fn foreign_prefix_is_not_translated() {
    let pkt = HuaweiSppPacket::new([0x01, 0x08]);
    assert!(AapPacket::from_handler_packet(&pkt).is_none());
}

#[test]
fn control_command_with_listening_mode_translates_back() {
    let aap = AapPacket::new(OP_CONTROL_COMMAND, vec![0x0D, 0x02]);
    let pkt = aap.to_handler_packet();
    assert_eq!(pkt.command_id, [0xA9, 0x0D]);
    assert_eq!(pkt.find_param(0), &[0x02]);
    let back = AapPacket::from_bytes(&AapPacket::from_handler_packet(&pkt).unwrap()).unwrap();
    assert_eq!(back.opcode, 0x09);
    assert_eq!(back.payload, vec![0x0D, 0x02]);
}
