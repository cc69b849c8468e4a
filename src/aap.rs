//! The secondary protocol, spoken over a message-oriented link: a fixed
//! 4-byte header, an opcode, a reserved byte and a payload. Its packets are
//! translated to and from the primary packet shape under two synthetic
//! command-id prefixes, so that one dispatch table serves both protocols.

use vstd::prelude::*;

use crate::packet::HuaweiSppPacket;
use crate::text::{append_hex, hex_of};
use vstd::string::StringExecFns;

verus! {

broadcast use vstd::std_specs::btree::group_btree_axioms;

/// Battery levels of the buds and the case.
pub const OP_BATTERY_INFO: u8 = 0x04;

/// In-ear state of the buds.
pub const OP_EAR_DETECTION: u8 = 0x06;

/// A control command: the first payload byte names the setting.
pub const OP_CONTROL_COMMAND: u8 = 0x09;

/// Subscription to the device's notifications.
pub const OP_REQUEST_NOTIFICATIONS: u8 = 0x0F;

/// Device information strings.
pub const OP_DEVICE_INFO: u8 = 0x1D;

/// Conversation awareness state.
pub const OP_CONVERSATION_AWARENESS: u8 = 0x4B;

/// Feature flags set by the host after the handshake.
pub const OP_SET_FEATURE_FLAGS: u8 = 0x4D;

/// Control command setting: the listening mode.
pub const CC_LISTENING_MODE: u8 = 0x0D;

/// Listening mode: off.
pub const LM_OFF: u8 = 0x01;

/// Listening mode: noise cancellation.
pub const LM_ANC: u8 = 0x02;

/// Listening mode: transparency.
pub const LM_TRANSPARENCY: u8 = 0x03;

/// Listening mode: adaptive.
pub const LM_ADAPTIVE: u8 = 0x04;

/// Command-id prefix of translated packets of every opcode but control
/// commands: the command id is `[CMD_PREFIX, opcode]`.
pub const CMD_PREFIX: u8 = 0xAA;

/// Command-id prefix of translated control commands: the command id is
/// `[CMD_CC_PREFIX, setting]`.
pub const CMD_CC_PREFIX: u8 = 0xA9;

/// The header of every frame but the handshake.
pub open spec fn aap_header() -> Seq<u8> {
    seq![0x04u8, 0x00u8, 0x04u8, 0x00u8]
}

/// The frame of an opcode and a payload.
pub open spec fn aap_frame(opcode: u8, payload: Seq<u8>) -> Seq<u8> {
    aap_header() + seq![opcode, 0x00u8] + payload
}

/// What a received frame holds: its opcode and the bytes after the reserved
/// byte; nothing when it is shorter than five bytes.
pub open spec fn aap_decode(data: Seq<u8>) -> Option<(u8, Seq<u8>)> {
    if data.len() < 5 {
        None
    } else if data.len() > 6 {
        Some((data[4], data.subrange(6, data.len() as int)))
    } else {
        Some((data[4], Seq::empty()))
    }
}

/// The command id under which a packet of the secondary protocol is
/// dispatched.
pub open spec fn handler_command(opcode: u8, payload: Seq<u8>) -> Seq<u8> {
    if opcode == OP_CONTROL_COMMAND && payload.len() > 0 {
        seq![CMD_CC_PREFIX, payload[0]]
    } else {
        seq![CMD_PREFIX, opcode]
    }
}

/// The parameter 0 under which its payload is dispatched.
pub open spec fn handler_data(opcode: u8, payload: Seq<u8>) -> Seq<u8> {
    if opcode == OP_CONTROL_COMMAND && payload.len() > 0 {
        payload.subrange(1, payload.len() as int)
    } else {
        payload
    }
}

/// The frame that a translated packet stands for: `None` unless its command
/// id carries one of the two synthetic prefixes.
pub open spec fn frame_of_handler(cmd: Seq<u8>, data: Seq<u8>) -> Option<Seq<u8>> {
    if cmd[0] == CMD_CC_PREFIX {
        Some(aap_frame(OP_CONTROL_COMMAND, seq![cmd[1]] + data))
    } else if cmd[0] == CMD_PREFIX {
        Some(aap_frame(cmd[1], data))
    } else {
        None
    }
}

/// A packet of the secondary protocol.
#[derive(Debug, Clone)]
pub struct AapPacket {
    pub opcode: u8,
    pub payload: Vec<u8>,
}

/// Appends the bytes of `src` to `dst`.
fn push_all(dst: &mut Vec<u8>, src: &[u8])
    ensures
        final(dst)@ == old(dst)@ + src@,
{
    let mut i: usize = 0;
    while i < src.len()
        invariant
            i <= src@.len(),
            dst@ == old(dst)@ + src@.subrange(0, i as int),
        decreases src@.len() - i,
    {
        dst.push(src[i]);
        i += 1;
        assert(src@.subrange(0, i as int) =~= src@.subrange(0, i - 1) + seq![src@[i - 1]]);
    }
    assert(src@.subrange(0, i as int) =~= src@);
}

/// Appends the standard header.
fn push_header(dst: &mut Vec<u8>)
    ensures
        final(dst)@ == old(dst)@ + aap_header(),
{
    dst.push(0x04);
    dst.push(0x00);
    dst.push(0x04);
    dst.push(0x00);
    assert(dst@ =~= old(dst)@ + aap_header());
}

impl AapPacket {
    pub fn new(opcode: u8, payload: Vec<u8>) -> (r: Self)
        ensures
            r.opcode == opcode,
            r.payload@ == payload@,
    {
        AapPacket { opcode, payload }
    }

    /// The frame of this packet: header, opcode, reserved zero, payload.
    pub fn to_bytes(&self) -> (r: Vec<u8>)
        ensures
            r@ == aap_frame(self.opcode, self.payload@),
    {
        let mut bytes: Vec<u8> = Vec::new();
        push_header(&mut bytes);
        bytes.push(self.opcode);
        bytes.push(0x00);
        push_all(&mut bytes, self.payload.as_slice());
        assert(bytes@ =~= aap_frame(self.opcode, self.payload@));
        bytes
    }

    /// A one-line description: "AAP op=0x" and the opcode in upper-case
    /// hexadecimal, then " payload=" and the payload in lower-case
    /// hexadecimal unless it is empty.
    pub fn describe(&self) -> (r: String)
        ensures
            r@ == "AAP op=0x"@ + hex_of(seq![self.opcode], true) + (if self.payload@.len() > 0 {
                " payload="@ + hex_of(self.payload@, false)
            } else {
                Seq::empty()
            }),
    {
        let mut s = String::new();
        s.append("AAP op=0x");
        let op = [self.opcode];
        assert(op@ =~= seq![self.opcode]);
        append_hex(&mut s, op.as_slice(), true);
        if self.payload.len() > 0 {
            s.append(" payload=");
            append_hex(&mut s, self.payload.as_slice(), false);
        }
        s
    }

    /// Reads a received frame; `None` when it is shorter than five bytes.
    pub fn from_bytes(data: &[u8]) -> (r: Option<Self>)
        ensures
            match r {
                Some(p) => aap_decode(data@) == Some((p.opcode, p.payload@)),
                None => aap_decode(data@) is None,
            },
    {
        if data.len() < 5 {
            return None;
        }
        let opcode = data[4];
        let payload = if data.len() > 6 {
            vstd::slice::slice_to_vec(vstd::slice::slice_subrange(data, 6, data.len()))
        } else {
            Vec::new()
        };
        Some(AapPacket { opcode, payload })
    }

    /// The handshake frame, with its own header `00 00 04 00`.
    pub fn handshake() -> (r: Vec<u8>)
        ensures
            r@ == seq![
                0x00u8, 0x00u8, 0x04u8, 0x00u8, 0x01u8, 0x00u8, 0x02u8, 0x00u8,
                0x00u8, 0x00u8, 0x00u8, 0x00u8, 0x00u8, 0x00u8, 0x00u8, 0x00u8,
            ],
    {
        let r = vec![
            0x00u8, 0x00, 0x04, 0x00, 0x01, 0x00, 0x02, 0x00, 0x00, 0x00, 0x00, 0x00, 0x00, 0x00,
            0x00, 0x00,
        ];
        assert(r@ =~= seq![
            0x00u8, 0x00u8, 0x04u8, 0x00u8, 0x01u8, 0x00u8, 0x02u8, 0x00u8,
            0x00u8, 0x00u8, 0x00u8, 0x00u8, 0x00u8, 0x00u8, 0x00u8, 0x00u8,
        ]);
        r
    }

    /// The frame that sets the feature flags (conversation awareness and
    /// the like).
    pub fn feature_flags() -> (r: Vec<u8>)
        ensures
            r@ == aap_frame(
                OP_SET_FEATURE_FLAGS,
                seq![0xFFu8, 0x00u8, 0x00u8, 0x00u8, 0x00u8, 0x00u8, 0x00u8, 0x00u8],
            ),
    {
        let mut pkt: Vec<u8> = Vec::new();
        push_header(&mut pkt);
        pkt.push(OP_SET_FEATURE_FLAGS);
        pkt.push(0x00);
        pkt.push(0xFF);
        let mut i: usize = 0;
        while i < 7
            invariant
                i <= 7,
                pkt@ == aap_header() + seq![OP_SET_FEATURE_FLAGS, 0x00u8, 0xFFu8] + Seq::new(
                    i as nat,
                    |j: int| 0x00u8,
                ),
            decreases 7 - i,
        {
            pkt.push(0x00);
            i += 1;
            assert(pkt@ =~= aap_header() + seq![OP_SET_FEATURE_FLAGS, 0x00u8, 0xFFu8] + Seq::new(
                i as nat,
                |j: int| 0x00u8,
            ));
        }
        assert(pkt@ =~= aap_frame(
            OP_SET_FEATURE_FLAGS,
            seq![0xFFu8, 0x00u8, 0x00u8, 0x00u8, 0x00u8, 0x00u8, 0x00u8, 0x00u8],
        ));
        pkt
    }

    /// The frame that subscribes to all of the device's notifications.
    pub fn request_notifications() -> (r: Vec<u8>)
        ensures
            r@ == aap_frame(OP_REQUEST_NOTIFICATIONS, seq![0xFFu8, 0xFFu8, 0xFEu8, 0xFFu8]),
    {
        let mut pkt: Vec<u8> = Vec::new();
        push_header(&mut pkt);
        pkt.push(OP_REQUEST_NOTIFICATIONS);
        pkt.push(0x00);
        pkt.push(0xFF);
        pkt.push(0xFF);
        pkt.push(0xFE);
        pkt.push(0xFF);
        assert(pkt@ =~= aap_frame(OP_REQUEST_NOTIFICATIONS, seq![0xFFu8, 0xFFu8, 0xFEu8, 0xFFu8]));
        pkt
    }

    /// A control command that sets `identifier` to `value`.
    pub fn control_command(identifier: u8, value: u8) -> (r: Self)
        ensures
            r.opcode == OP_CONTROL_COMMAND,
            r.payload@ == seq![identifier, value, 0x00u8, 0x00u8, 0x00u8],
    {
        let payload = vec![identifier, value, 0x00, 0x00, 0x00];
        assert(payload@ =~= seq![identifier, value, 0x00u8, 0x00u8, 0x00u8]);
        AapPacket { opcode: OP_CONTROL_COMMAND, payload }
    }

    /// This packet in the primary shape: a control command goes under
    /// `[CMD_CC_PREFIX, setting]` with the rest of its payload as parameter
    /// 0; any other packet under `[CMD_PREFIX, opcode]` with its whole
    /// payload as parameter 0.
    pub fn to_handler_packet(&self) -> (r: HuaweiSppPacket)
        ensures
            r.command_id@ == handler_command(self.opcode, self.payload@),
            r.params() == Map::<u8, Seq<u8>>::empty().insert(
                0,
                handler_data(self.opcode, self.payload@),
            ),
    {
        let n = self.payload.len();
        if self.opcode == OP_CONTROL_COMMAND && n > 0 {
            let identifier = self.payload[0];
            let remaining = if n > 1 {
                vstd::slice::slice_to_vec(vstd::slice::slice_subrange(self.payload.as_slice(), 1, n))
            } else {
                Vec::new()
            };
            let mut pkt = HuaweiSppPacket::new([CMD_CC_PREFIX, identifier]);
            let ghost before = pkt.params();
            pkt.parameters.insert(0, remaining);
            assert(pkt.params() =~= before.insert(0, remaining@));
            assert(remaining@ =~= handler_data(self.opcode, self.payload@));
            assert(pkt.command_id@ =~= handler_command(self.opcode, self.payload@));
            pkt
        } else {
            let mut data: Vec<u8> = Vec::new();
            push_all(&mut data, self.payload.as_slice());
            let mut pkt = HuaweiSppPacket::new([CMD_PREFIX, self.opcode]);
            let ghost before = pkt.params();
            pkt.parameters.insert(0, data);
            assert(pkt.params() =~= before.insert(0, data@));
            assert(data@ =~= handler_data(self.opcode, self.payload@));
            assert(pkt.command_id@ =~= handler_command(self.opcode, self.payload@));
            pkt
        }
    }

    /// The frame that a translated packet stands for, built from its command
    /// id and parameter 0; `None` when the command id has neither synthetic
    /// prefix.
    pub fn from_handler_packet(pkt: &HuaweiSppPacket) -> (r: Option<Vec<u8>>)
        ensures
            match r {
                Some(b) => frame_of_handler(pkt.command_id@, param_zero(pkt)) == Some(b@),
                None => frame_of_handler(pkt.command_id@, param_zero(pkt)) is None,
            },
    {
        let prefix = pkt.command_id[0];
        let id = pkt.command_id[1];
        let data = pkt.find_param(0);
        if prefix == CMD_CC_PREFIX {
            let mut payload: Vec<u8> = Vec::new();
            payload.push(id);
            push_all(&mut payload, data);
            let aap = AapPacket::new(OP_CONTROL_COMMAND, payload);
            Some(aap.to_bytes())
        } else if prefix == CMD_PREFIX {
            let aap = AapPacket::new(id, vstd::slice::slice_to_vec(data));
            Some(aap.to_bytes())
        } else {
            None
        }
    }
}

/// Parameter 0 of a packet, or no bytes when it is absent.
pub open spec fn param_zero(pkt: &HuaweiSppPacket) -> Seq<u8> {
    if pkt.params().contains_key(0) {
        pkt.params()[0]
    } else {
        Seq::empty()
    }
}

/// Translating a packet of the secondary protocol to the primary shape,
/// back to a frame, and reading that frame gives the original opcode and
/// payload.
pub proof fn lemma_translation_round_trip(opcode: u8, payload: Seq<u8>)
    ensures
        ({
            let cmd = handler_command(opcode, payload);
            let data = handler_data(opcode, payload);
            &&& frame_of_handler(cmd, data) is Some
            &&& aap_decode(frame_of_handler(cmd, data).unwrap()) == Some((opcode, payload))
        }),
{
    let cmd = handler_command(opcode, payload);
    let data = handler_data(opcode, payload);
    if opcode == OP_CONTROL_COMMAND && payload.len() > 0 {
        assert(seq![cmd[1]] + data =~= payload);
    }
    let f = frame_of_handler(cmd, data).unwrap();
    assert(f.subrange(6, f.len() as int) =~= payload);
}

} // verus!
