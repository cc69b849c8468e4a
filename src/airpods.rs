//! Feature modules of the secondary protocol's devices. They consume packets
//! translated to the primary shape: general opcodes under
//! `[CMD_PREFIX, opcode]`, control commands under `[CMD_CC_PREFIX, setting]`,
//! the payload as parameter 0.

use vstd::prelude::*;

use crate::handler::{
    lemma_packets_view, packet_param, packet_view, packets_view, report_view, request_view,
    updates_view, PacketView,
};

use crate::aap::{
    CC_LISTENING_MODE, CMD_CC_PREFIX, CMD_PREFIX, LM_ADAPTIVE, LM_ANC, LM_OFF, LM_TRANSPARENCY,
    OP_BATTERY_INFO, OP_CONVERSATION_AWARENESS, OP_DEVICE_INFO, OP_EAR_DETECTION,
};
use crate::commands::CommandId;
use crate::handler::{
    command_key, key_of, keys_of, str_eq, DeviceHandler, HandlerError, PropertyUpdate,
};
use crate::packet::HuaweiSppPacket;
use crate::text::{bool_name, bool_text, decimal, decimal_text, join_comma, joined, text, views_of};

verus! {

broadcast use vstd::std_specs::btree::group_btree_axioms;

/// Control command setting: the listening mode configurations.
pub const CC_LISTENING_MODE_CONFIGS: u8 = 0x1A;

/// Control command setting: noise cancellation with one bud in.
pub const CC_ONE_BUD_ANC: u8 = 0x1B;

/// Control command setting: personalized volume.
pub const CC_ADAPTIVE_VOLUME: u8 = 0x26;

/// Control command setting: conversation detection.
pub const CC_CONVERSATION_DETECT: u8 = 0x28;

/// Control command setting: automatic noise-cancellation strength.
pub const CC_AUTO_ANC_STRENGTH: u8 = 0x2E;

/// Control command setting: ear detection.
pub const CC_EAR_DETECTION_CONFIG: u8 = 0x0A;

/// Battery component: right bud.
pub const BATT_RIGHT: u8 = 0x02;

/// Battery component: left bud.
pub const BATT_LEFT: u8 = 0x04;

/// Battery component: case.
pub const BATT_CASE: u8 = 0x08;

/// Battery status: charging.
pub const BATT_CHARGING: u8 = 0x01;

/// Battery status: component not connected.
pub const BATT_DISCONNECTED: u8 = 0x04;

/// Ear state: in the ear.
pub const EAR_IN: u8 = 0x00;

/// Ear state: out of the ear.
pub const EAR_OUT: u8 = 0x01;

/// Ear state: in the case.
pub const EAR_IN_CASE: u8 = 0x02;

pub const CMD_BATTERY: CommandId = [CMD_PREFIX, OP_BATTERY_INFO];

pub const CMD_EAR_DETECTION: CommandId = [CMD_PREFIX, OP_EAR_DETECTION];

pub const CMD_CA_NOTIFY: CommandId = [CMD_PREFIX, OP_CONVERSATION_AWARENESS];

pub const CMD_DEVICE_INFO: CommandId = [CMD_PREFIX, OP_DEVICE_INFO];

pub const CMD_LISTENING_MODE: CommandId = [CMD_CC_PREFIX, CC_LISTENING_MODE];

pub const CMD_CONVERSATION_DETECT: CommandId = [CMD_CC_PREFIX, CC_CONVERSATION_DETECT];

pub const CMD_ADAPTIVE_VOLUME: CommandId = [CMD_CC_PREFIX, CC_ADAPTIVE_VOLUME];

pub const CMD_EAR_DETECT_CONFIG: CommandId = [CMD_CC_PREFIX, CC_EAR_DETECTION_CONFIG];

pub const CMD_ANC_STRENGTH: CommandId = [CMD_CC_PREFIX, CC_AUTO_ANC_STRENGTH];

pub const CMD_LISTENING_CONFIGS: CommandId = [CMD_CC_PREFIX, CC_LISTENING_MODE_CONFIGS];

pub const CMD_ONE_BUD_ANC: CommandId = [CMD_CC_PREFIX, CC_ONE_BUD_ANC];

/// A control command in the primary shape: the setting's synthetic command
/// id, and the value followed by three zero bytes as parameter 0.
pub open spec fn is_control_command(p: HuaweiSppPacket, identifier: u8, value: u8) -> bool {
    &&& p.command_id@ == seq![CMD_CC_PREFIX, identifier]
    &&& p.params() == Map::<u8, Seq<u8>>::empty().insert(0, seq![value, 0u8, 0u8, 0u8])
}

/// The view of a control command.
pub open spec fn control_view(identifier: u8, value: u8) -> PacketView {
    (seq![CMD_CC_PREFIX, identifier], Map::<u8, Seq<u8>>::empty().insert(0, seq![value, 0u8, 0u8, 0u8]))
}

/// What a module whose one settable property is the toggle "enabled"
/// makes of a request.
pub open spec fn toggle_result(prop: Seq<char>, value: Seq<char>, identifier: u8) -> Result<
    (Seq<PacketView>, Seq<(Seq<char>, Seq<char>)>),
    HandlerError,
> {
    if prop == "enabled"@ {
        Ok((seq![control_view(identifier, toggle_byte(value))], Seq::empty()))
    } else {
        Ok((Seq::empty(), Seq::empty()))
    }
}

/// A control command that sets `identifier` to `value`, in the primary
/// shape.
pub fn build_control_command(identifier: u8, value: u8) -> (r: HuaweiSppPacket)
    ensures
        is_control_command(r, identifier, value),
{
    let mut pkt = HuaweiSppPacket::new([CMD_CC_PREFIX, identifier]);
    let v = vec![value, 0x00, 0x00, 0x00];
    let ghost before = pkt.params();
    pkt.parameters.insert(0, v);
    assert(pkt.params() =~= before.insert(0, seq![value, 0u8, 0u8, 0u8]));
    assert(pkt.command_id@ =~= seq![CMD_CC_PREFIX, identifier]);
    pkt
}

/// The byte of a toggle: 0x01 for "true", 0x02 for anything else.
pub open spec fn toggle_byte(value: Seq<char>) -> u8 {
    if value == "true"@ {
        0x01
    } else {
        0x02
    }
}

fn toggle_value(value: &str) -> (r: u8)
    ensures
        r == toggle_byte(value@),
{
    if str_eq(value, "true") {
        0x01
    } else {
        0x02
    }
}

/// The name of an ear state.
pub open spec fn ear_state_name(v: u8) -> Seq<char> {
    if v == EAR_IN {
        "in_ear"@
    } else if v == EAR_OUT {
        "out"@
    } else if v == EAR_IN_CASE {
        "in_case"@
    } else {
        "unknown"@
    }
}

pub fn ear_state_str(v: u8) -> (r: &'static str)
    ensures
        r@ == ear_state_name(v),
{
    if v == EAR_IN {
        "in_ear"
    } else if v == EAR_OUT {
        "out"
    } else if v == EAR_IN_CASE {
        "in_case"
    } else {
        "unknown"
    }
}

/// The name of a listening mode.
pub open spec fn listening_mode_name(v: u8) -> Seq<char> {
    if v == LM_OFF {
        "off"@
    } else if v == LM_ANC {
        "anc"@
    } else if v == LM_TRANSPARENCY {
        "transparency"@
    } else if v == LM_ADAPTIVE {
        "adaptive"@
    } else {
        "unknown"@
    }
}

pub fn listening_mode_str(v: u8) -> (r: &'static str)
    ensures
        r@ == listening_mode_name(v),
{
    if v == LM_OFF {
        "off"
    } else if v == LM_ANC {
        "anc"
    } else if v == LM_TRANSPARENCY {
        "transparency"
    } else if v == LM_ADAPTIVE {
        "adaptive"
    } else {
        "unknown"
    }
}

/// The listening mode of a name.
pub open spec fn listening_mode_of(s: Seq<char>) -> Option<u8> {
    if s == "off"@ {
        Some(LM_OFF)
    } else if s == "anc"@ {
        Some(LM_ANC)
    } else if s == "transparency"@ {
        Some(LM_TRANSPARENCY)
    } else if s == "adaptive"@ {
        Some(LM_ADAPTIVE)
    } else {
        None
    }
}

pub fn listening_mode_byte(s: &str) -> (r: Option<u8>)
    ensures
        r == listening_mode_of(s@),
{
    if str_eq(s, "off") {
        Some(LM_OFF)
    } else if str_eq(s, "anc") {
        Some(LM_ANC)
    } else if str_eq(s, "transparency") {
        Some(LM_TRANSPARENCY)
    } else if str_eq(s, "adaptive") {
        Some(LM_ADAPTIVE)
    } else {
        None
    }
}

/// What a battery report says of the buds and the case.
#[derive(Debug, Clone, Copy, PartialEq, Eq, Structural)]
pub struct PodsBattery {
    pub left: Option<u8>,
    pub right: Option<u8>,
    pub case: Option<u8>,
    pub left_charging: Option<bool>,
    pub right_charging: Option<bool>,
}

/// One entry of a battery report applied: a connected component's level is
/// recorded, and a bud's charging status in any case; other components are
/// passed over.
pub open spec fn apply_entry(st: PodsBattery, component: u8, level: u8, status: u8) -> PodsBattery {
    let lv = if status != BATT_DISCONNECTED { Some(level) } else { None };
    if component == BATT_LEFT {
        PodsBattery {
            left: if lv is Some { lv } else { st.left },
            left_charging: Some(status == BATT_CHARGING),
            ..st
        }
    } else if component == BATT_RIGHT {
        PodsBattery {
            right: if lv is Some { lv } else { st.right },
            right_charging: Some(status == BATT_CHARGING),
            ..st
        }
    } else if component == BATT_CASE {
        PodsBattery { case: if lv is Some { lv } else { st.case }, ..st }
    } else {
        st
    }
}

/// The entries of a battery report from `pos` on, at most `count` of them,
/// each five bytes (component, 0x01, level, status, 0x01), while a whole
/// entry and one byte more remain.
pub open spec fn scan_entries(data: Seq<u8>, pos: int, count: int, st: PodsBattery) -> PodsBattery
    decreases count,
{
    if count <= 0 || pos + 4 >= data.len() || pos < 0 {
        st
    } else {
        scan_entries(
            data,
            pos + 5,
            count - 1,
            apply_entry(st, data[pos], data[pos + 2], data[pos + 3]),
        )
    }
}

pub open spec fn no_battery() -> PodsBattery {
    PodsBattery { left: None, right: None, case: None, left_charging: None, right_charging: None }
}

/// What a battery payload says: a count byte, then the entries.
pub open spec fn pods_battery(data: Seq<u8>) -> PodsBattery {
    if data.len() == 0 {
        no_battery()
    } else {
        scan_entries(data, 1, data[0] as int, no_battery())
    }
}

/// An update of a level when it is known.
pub open spec fn level_update(key: Seq<char>, v: Option<u8>) -> Seq<(Seq<char>, Seq<char>)> {
    match v {
        Some(l) => seq![(key, decimal(l))],
        None => Seq::empty(),
    }
}

/// An update of a charging status when it is known.
pub open spec fn flag_update(key: Seq<char>, v: Option<bool>) -> Seq<(Seq<char>, Seq<char>)> {
    match v {
        Some(b) => seq![(key, bool_name(b))],
        None => Seq::empty(),
    }
}

/// The property updates of a battery payload: the known levels, the known
/// charging states of the buds, the mean of the two bud levels when both
/// are known, and whether either bud charges. An empty payload brings none.
pub open spec fn pods_report(data: Seq<u8>) -> Seq<(Seq<char>, Seq<char>)> {
    if data.len() == 0 {
        Seq::empty()
    } else {
        let st = pods_battery(data);
        level_update("left"@, st.left) + level_update("right"@, st.right) + level_update(
            "case"@,
            st.case,
        ) + flag_update("left_charging"@, st.left_charging) + flag_update(
            "right_charging"@,
            st.right_charging,
        ) + (if st.left is Some && st.right is Some {
            seq![
                (
                    "global"@,
                    decimal(((st.left.unwrap() as int + st.right.unwrap() as int) / 2) as u8),
                ),
            ]
        } else {
            Seq::empty()
        }) + seq![
            (
                "is_charging"@,
                bool_name(st.left_charging == Some(true) || st.right_charging == Some(true)),
            ),
        ]
    }
}

fn push_level(out: &mut Vec<PropertyUpdate>, key: &str, v: Option<u8>)
    ensures
        updates_view(final(out)@) == updates_view(old(out)@) + level_update(key@, v),
{
    let ghost before = out@;
    if let Some(l) = v {
        out.push((text(key), decimal_text(l)));
    }
    assert(updates_view(out@) =~= updates_view(before) + level_update(key@, v));
}

fn push_flag(out: &mut Vec<PropertyUpdate>, key: &str, v: Option<bool>)
    ensures
        updates_view(final(out)@) == updates_view(old(out)@) + flag_update(key@, v),
{
    let ghost before = out@;
    if let Some(b) = v {
        out.push((text(key), bool_text(b)));
    }
    assert(updates_view(out@) =~= updates_view(before) + flag_update(key@, v));
}

/// Reads the entries of a battery payload.
pub fn parse_pods_battery(data: &[u8]) -> (r: PodsBattery)
    ensures
        r == pods_battery(data@),
{
    let mut st = PodsBattery {
        left: None,
        right: None,
        case: None,
        left_charging: None,
        right_charging: None,
    };
    if data.len() == 0 {
        return st;
    }
    let count = data[0] as usize;
    let mut pos: usize = 1;
    let mut i: usize = 0;
    while i < count
        invariant
            data@.len() > 0,
            count == data@[0] as int,
            i <= count,
            pos == 1 + 5 * i,
            scan_entries(data@, 1, count as int, no_battery()) == scan_entries(
                data@,
                pos as int,
                count - i,
                st,
            ),
        ensures
            scan_entries(data@, pos as int, count - i, st) == st,
        decreases count - i,
    {
        if pos + 4 >= data.len() {
            break;
        }
        let component = data[pos];
        let level = data[pos + 2];
        let status = data[pos + 3];
        let lv = if status != BATT_DISCONNECTED {
            Some(level)
        } else {
            None
        };
        if component == BATT_LEFT {
            if lv.is_some() {
                st.left = lv;
            }
            st.left_charging = Some(status == BATT_CHARGING);
        } else if component == BATT_RIGHT {
            if lv.is_some() {
                st.right = lv;
            }
            st.right_charging = Some(status == BATT_CHARGING);
        } else if component == BATT_CASE {
            if lv.is_some() {
                st.case = lv;
            }
        }
        pos = pos + 5;
        i = i + 1;
    }
    st
}

/// The battery module of the secondary protocol's devices.
pub struct AirPodsBatteryHandler;

impl AirPodsBatteryHandler {
    /// The property updates of a battery notification.
    pub fn report(&self, packet: &HuaweiSppPacket) -> (r: Vec<PropertyUpdate>)
        ensures
            updates_view(r@) == pods_report(packet_param(packet, 0)),
    {
        let data = packet.find_param(0);
        let mut out: Vec<PropertyUpdate> = Vec::new();
        if data.len() == 0 {
            assert(updates_view(out@) =~= pods_report(data@));
            return out;
        }
        let st = parse_pods_battery(data);
        push_level(&mut out, "left", st.left);
        push_level(&mut out, "right", st.right);
        push_level(&mut out, "case", st.case);
        push_flag(&mut out, "left_charging", st.left_charging);
        push_flag(&mut out, "right_charging", st.right_charging);
        let ghost before = out@;
        match (st.left, st.right) {
            (Some(l), Some(r)) => {
                let mean = ((l as u16 + r as u16) / 2) as u8;
                out.push((text("global"), decimal_text(mean)));
            },
            _ => {},
        }
        let charging = st.left_charging == Some(true) || st.right_charging == Some(true);
        out.push((text("is_charging"), bool_text(charging)));
        assert(updates_view(out@) =~= pods_report(data@));
        out
    }
}

impl DeviceHandler for AirPodsBatteryHandler {
    open spec fn name(&self) -> Seq<char> {
        "battery"@
    }

    open spec fn group(&self) -> Seq<char> {
        "battery"@
    }

    open spec fn command_keys(&self) -> Seq<u16> {
        seq![key_of(CMD_BATTERY)]
    }

    open spec fn ignored_keys(&self) -> Seq<u16> {
        Seq::empty()
    }

    open spec fn init_requests(&self) -> Seq<PacketView> {
        Seq::empty()
    }

    open spec fn packet_result(&self, packet: HuaweiSppPacket) -> Result<Seq<(Seq<char>, Seq<char>)>, HandlerError> {
        Ok(pods_report(packet_param(&packet, 0)))
    }

    open spec fn set_result(&self, group: &str, prop: &str, value: &str) -> Result<(Seq<PacketView>, Seq<(Seq<char>, Seq<char>)>), HandlerError> {
        Ok((Seq::empty(), Seq::empty()))
    }

    fn handler_id(&self) -> (r: &'static str) {
        "battery"
    }

    fn property_group(&self) -> (r: &'static str) {
        "battery"
    }

    fn commands(&self) -> (r: Vec<CommandId>) {
        let r = vec![CMD_BATTERY];
        assert(keys_of(r@) =~= self.command_keys());
        r
    }

    fn ignore_commands(&self) -> (r: Vec<CommandId>) {
        let r: Vec<CommandId> = Vec::new();
        assert(keys_of(r@) =~= self.ignored_keys());
        r
    }

    fn on_init(&mut self) -> (r: Vec<HuaweiSppPacket>) {
        let r: Vec<HuaweiSppPacket> = Vec::new();
        proof {
            lemma_packets_view(r@);
        }
        r
    }

    fn on_packet(&mut self, packet: &HuaweiSppPacket) -> (r: Result<Vec<PropertyUpdate>, HandlerError>) {
        Ok(self.report(packet))
    }

    fn set_property(&mut self, group: &str, prop: &str, value: &str) -> (r: Result<
        (Vec<HuaweiSppPacket>, Vec<PropertyUpdate>),
        HandlerError,
    >) {
        let p: Vec<HuaweiSppPacket> = Vec::new();
        let u: Vec<PropertyUpdate> = Vec::new();
        proof {
            lemma_packets_view(p@);
            assert(updates_view(u@) =~= Seq::empty());
        }
        Ok((p, u))
    }
}

/// The outcome of a request on a module whose one settable property,
/// "enabled", is a toggle sent as a control command: the command for that
/// property, nothing for any other.
pub open spec fn toggle_request(
    prop: Seq<char>,
    value: Seq<char>,
    identifier: u8,
    r: Result<Vec<HuaweiSppPacket>, HandlerError>,
) -> bool {
    match r {
        Ok(pkts) => if prop == "enabled"@ {
            pkts@.len() == 1 && is_control_command(pkts@[0], identifier, toggle_byte(value))
        } else {
            pkts@.len() == 0
        },
        Err(_) => false,
    }
}

fn toggle_packets(prop: &str, value: &str, identifier: u8) -> (r: Result<
    Vec<HuaweiSppPacket>,
    HandlerError,
>)
    ensures
        toggle_request(prop@, value@, identifier, r),
{
    if str_eq(prop, "enabled") {
        Ok(vec![build_control_command(identifier, toggle_value(value))])
    } else {
        Ok(Vec::new())
    }
}

/// A one-entry update that a toggle's state byte brings: 0x01 is on.
pub open spec fn toggle_update(key: Seq<char>, data: Seq<u8>) -> Seq<(Seq<char>, Seq<char>)> {
    if data.len() > 0 {
        seq![(key, bool_name(data[0] == 0x01))]
    } else {
        Seq::empty()
    }
}

fn toggle_report(key: &str, data: &[u8]) -> (r: Vec<PropertyUpdate>)
    ensures
        updates_view(r@) == toggle_update(key@, data@),
{
    let mut out: Vec<PropertyUpdate> = Vec::new();
    if data.len() > 0 {
        out.push((text(key), bool_text(data[0] == 0x01)));
    }
    assert(updates_view(out@) =~= toggle_update(key@, data@));
    out
}

/// The in-ear state module.
pub struct AirPodsEarDetectionHandler;

/// The updates of an in-ear packet: the states of the two buds from an
/// ear-detection notice of at least two bytes, or whether detection is on
/// from its configuration reply.
pub open spec fn ear_report(key: u16, data: Seq<u8>) -> Seq<(Seq<char>, Seq<char>)> {
    if key == key_of(CMD_EAR_DETECTION) {
        if data.len() >= 2 {
            seq![("primary"@, ear_state_name(data[0])), ("secondary"@, ear_state_name(data[1]))]
        } else {
            Seq::empty()
        }
    } else if key == key_of(CMD_EAR_DETECT_CONFIG) {
        toggle_update("enabled"@, data)
    } else {
        Seq::empty()
    }
}

impl AirPodsEarDetectionHandler {
    pub fn report(&self, packet: &HuaweiSppPacket) -> (r: Vec<PropertyUpdate>)
        ensures
            updates_view(r@) == ear_report(key_of(packet.command_id), packet_param(packet, 0)),
    {
        let data = packet.find_param(0);
        let key = command_key(packet.command_id);
        if key == command_key(CMD_EAR_DETECTION) {
            let mut out: Vec<PropertyUpdate> = Vec::new();
            if data.len() >= 2 {
                out.push((text("primary"), text(ear_state_str(data[0]))));
                out.push((text("secondary"), text(ear_state_str(data[1]))));
            }
            assert(updates_view(out@) =~= ear_report(key, data@));
            out
        } else if key == command_key(CMD_EAR_DETECT_CONFIG) {
            toggle_report("enabled", data)
        } else {
            let out: Vec<PropertyUpdate> = Vec::new();
            assert(updates_view(out@) =~= ear_report(key, data@));
            out
        }
    }
}

impl DeviceHandler for AirPodsEarDetectionHandler {
    open spec fn name(&self) -> Seq<char> {
        "ear_detection"@
    }

    open spec fn group(&self) -> Seq<char> {
        "ear_detection"@
    }

    open spec fn command_keys(&self) -> Seq<u16> {
        seq![key_of(CMD_EAR_DETECTION), key_of(CMD_EAR_DETECT_CONFIG)]
    }

    open spec fn ignored_keys(&self) -> Seq<u16> {
        Seq::empty()
    }

    open spec fn init_requests(&self) -> Seq<PacketView> {
        Seq::empty()
    }

    open spec fn packet_result(&self, packet: HuaweiSppPacket) -> Result<Seq<(Seq<char>, Seq<char>)>, HandlerError> {
        Ok(ear_report(key_of(packet.command_id), packet_param(&packet, 0)))
    }

    open spec fn set_result(&self, group: &str, prop: &str, value: &str) -> Result<(Seq<PacketView>, Seq<(Seq<char>, Seq<char>)>), HandlerError> {
        toggle_result(prop@, value@, CC_EAR_DETECTION_CONFIG)
    }

    fn handler_id(&self) -> (r: &'static str) {
        "ear_detection"
    }

    fn property_group(&self) -> (r: &'static str) {
        "ear_detection"
    }

    fn commands(&self) -> (r: Vec<CommandId>) {
        let r = vec![CMD_EAR_DETECTION, CMD_EAR_DETECT_CONFIG];
        assert(keys_of(r@) =~= self.command_keys());
        r
    }

    fn ignore_commands(&self) -> (r: Vec<CommandId>) {
        let r: Vec<CommandId> = Vec::new();
        assert(keys_of(r@) =~= self.ignored_keys());
        r
    }

    fn on_init(&mut self) -> (r: Vec<HuaweiSppPacket>) {
        let r: Vec<HuaweiSppPacket> = Vec::new();
        proof {
            lemma_packets_view(r@);
        }
        r
    }

    fn on_packet(&mut self, packet: &HuaweiSppPacket) -> (r: Result<Vec<PropertyUpdate>, HandlerError>) {
        Ok(self.report(packet))
    }

    fn set_property(&mut self, group: &str, prop: &str, value: &str) -> (r: Result<
        (Vec<HuaweiSppPacket>, Vec<PropertyUpdate>),
        HandlerError,
    >) {
        let r = match toggle_packets(prop, value, CC_EAR_DETECTION_CONFIG) {
            Ok(pkts) => Ok((pkts, Vec::new())),
            Err(e) => Err(e),
        };
        proof {
            if let Ok((p, u)) = &r {
                lemma_packets_view(p@);
                assert(updates_view(u@) =~= Seq::empty());
            }
        }
        r
    }
}

/// The conversation awareness module.
pub struct AirPodsConversationAwarenessHandler;

/// The updates of a conversation awareness packet: whether the feature is
/// on, from its control reply; whether the wearer speaks (activity level
/// 0x01 or 0x02 in the third byte), from a notification.
pub open spec fn conversation_report(key: u16, data: Seq<u8>) -> Seq<(Seq<char>, Seq<char>)> {
    if key == key_of(CMD_CONVERSATION_DETECT) {
        toggle_update("enabled"@, data)
    } else if key == key_of(CMD_CA_NOTIFY) && data.len() >= 3 {
        seq![("speaking"@, bool_name(data[2] == 0x01 || data[2] == 0x02))]
    } else {
        Seq::empty()
    }
}

impl AirPodsConversationAwarenessHandler {
    pub fn report(&self, packet: &HuaweiSppPacket) -> (r: Vec<PropertyUpdate>)
        ensures
            updates_view(r@) == conversation_report(
                key_of(packet.command_id),
                packet_param(packet, 0),
            ),
    {
        let data = packet.find_param(0);
        let key = command_key(packet.command_id);
        if key == command_key(CMD_CONVERSATION_DETECT) {
            toggle_report("enabled", data)
        } else {
            let mut out: Vec<PropertyUpdate> = Vec::new();
            if key == command_key(CMD_CA_NOTIFY) && data.len() >= 3 {
                let level = data[2];
                out.push((text("speaking"), bool_text(level == 0x01 || level == 0x02)));
            }
            assert(updates_view(out@) =~= conversation_report(key, data@));
            out
        }
    }
}

impl DeviceHandler for AirPodsConversationAwarenessHandler {
    open spec fn name(&self) -> Seq<char> {
        "conversation_awareness"@
    }

    open spec fn group(&self) -> Seq<char> {
        "conversation_awareness"@
    }

    open spec fn command_keys(&self) -> Seq<u16> {
        seq![key_of(CMD_CONVERSATION_DETECT), key_of(CMD_CA_NOTIFY)]
    }

    open spec fn ignored_keys(&self) -> Seq<u16> {
        Seq::empty()
    }

    open spec fn init_requests(&self) -> Seq<PacketView> {
        Seq::empty()
    }

    open spec fn packet_result(&self, packet: HuaweiSppPacket) -> Result<Seq<(Seq<char>, Seq<char>)>, HandlerError> {
        Ok(conversation_report(key_of(packet.command_id), packet_param(&packet, 0)))
    }

    open spec fn set_result(&self, group: &str, prop: &str, value: &str) -> Result<(Seq<PacketView>, Seq<(Seq<char>, Seq<char>)>), HandlerError> {
        toggle_result(prop@, value@, CC_CONVERSATION_DETECT)
    }

    fn handler_id(&self) -> (r: &'static str) {
        "conversation_awareness"
    }

    fn property_group(&self) -> (r: &'static str) {
        "conversation_awareness"
    }

    fn commands(&self) -> (r: Vec<CommandId>) {
        let r = vec![CMD_CONVERSATION_DETECT, CMD_CA_NOTIFY];
        assert(keys_of(r@) =~= self.command_keys());
        r
    }

    fn ignore_commands(&self) -> (r: Vec<CommandId>) {
        let r: Vec<CommandId> = Vec::new();
        assert(keys_of(r@) =~= self.ignored_keys());
        r
    }

    fn on_init(&mut self) -> (r: Vec<HuaweiSppPacket>) {
        let r: Vec<HuaweiSppPacket> = Vec::new();
        proof {
            lemma_packets_view(r@);
        }
        r
    }

    fn on_packet(&mut self, packet: &HuaweiSppPacket) -> (r: Result<Vec<PropertyUpdate>, HandlerError>) {
        Ok(self.report(packet))
    }

    fn set_property(&mut self, group: &str, prop: &str, value: &str) -> (r: Result<
        (Vec<HuaweiSppPacket>, Vec<PropertyUpdate>),
        HandlerError,
    >) {
        let r = match toggle_packets(prop, value, CC_CONVERSATION_DETECT) {
            Ok(pkts) => Ok((pkts, Vec::new())),
            Err(e) => Err(e),
        };
        proof {
            if let Ok((p, u)) = &r {
                lemma_packets_view(p@);
                assert(updates_view(u@) =~= Seq::empty());
            }
        }
        r
    }
}

/// The personalized volume module.
pub struct AirPodsPersonalizedVolumeHandler;

impl AirPodsPersonalizedVolumeHandler {
    pub fn report(&self, packet: &HuaweiSppPacket) -> (r: Vec<PropertyUpdate>)
        ensures
            updates_view(r@) == toggle_update("enabled"@, packet_param(packet, 0)),
    {
        toggle_report("enabled", packet.find_param(0))
    }
}

impl DeviceHandler for AirPodsPersonalizedVolumeHandler {
    open spec fn name(&self) -> Seq<char> {
        "personalized_volume"@
    }

    open spec fn group(&self) -> Seq<char> {
        "personalized_volume"@
    }

    open spec fn command_keys(&self) -> Seq<u16> {
        seq![key_of(CMD_ADAPTIVE_VOLUME)]
    }

    open spec fn ignored_keys(&self) -> Seq<u16> {
        Seq::empty()
    }

    open spec fn init_requests(&self) -> Seq<PacketView> {
        Seq::empty()
    }

    open spec fn packet_result(&self, packet: HuaweiSppPacket) -> Result<Seq<(Seq<char>, Seq<char>)>, HandlerError> {
        Ok(toggle_update("enabled"@, packet_param(&packet, 0)))
    }

    open spec fn set_result(&self, group: &str, prop: &str, value: &str) -> Result<(Seq<PacketView>, Seq<(Seq<char>, Seq<char>)>), HandlerError> {
        toggle_result(prop@, value@, CC_ADAPTIVE_VOLUME)
    }

    fn handler_id(&self) -> (r: &'static str) {
        "personalized_volume"
    }

    fn property_group(&self) -> (r: &'static str) {
        "personalized_volume"
    }

    fn commands(&self) -> (r: Vec<CommandId>) {
        let r = vec![CMD_ADAPTIVE_VOLUME];
        assert(keys_of(r@) =~= self.command_keys());
        r
    }

    fn ignore_commands(&self) -> (r: Vec<CommandId>) {
        let r: Vec<CommandId> = Vec::new();
        assert(keys_of(r@) =~= self.ignored_keys());
        r
    }

    fn on_init(&mut self) -> (r: Vec<HuaweiSppPacket>) {
        let r: Vec<HuaweiSppPacket> = Vec::new();
        proof {
            lemma_packets_view(r@);
        }
        r
    }

    fn on_packet(&mut self, packet: &HuaweiSppPacket) -> (r: Result<Vec<PropertyUpdate>, HandlerError>) {
        Ok(self.report(packet))
    }

    fn set_property(&mut self, group: &str, prop: &str, value: &str) -> (r: Result<
        (Vec<HuaweiSppPacket>, Vec<PropertyUpdate>),
        HandlerError,
    >) {
        let r = match toggle_packets(prop, value, CC_ADAPTIVE_VOLUME) {
            Ok(pkts) => Ok((pkts, Vec::new())),
            Err(e) => Err(e),
        };
        proof {
            if let Ok((p, u)) = &r {
                lemma_packets_view(p@);
                assert(updates_view(u@) =~= Seq::empty());
            }
        }
        r
    }
}

/// The pieces of a byte sequence and the piece under way, after reading it
/// from the start: a zero byte ends a piece.
pub open spec fn zero_scan(d: Seq<u8>) -> (Seq<Seq<u8>>, Seq<u8>)
    decreases d.len(),
{
    if d.len() == 0 {
        (Seq::empty(), Seq::empty())
    } else {
        let (ps, cur) = zero_scan(d.drop_last());
        if d.last() == 0 {
            (if cur.len() > 0 { ps.push(cur) } else { ps }, Seq::empty())
        } else {
            (ps, cur.push(d.last()))
        }
    }
}

/// The non-empty pieces of a byte sequence separated by zero bytes.
pub open spec fn zero_pieces(d: Seq<u8>) -> Seq<Seq<u8>> {
    let (ps, cur) = zero_scan(d);
    if cur.len() > 0 {
        ps.push(cur)
    } else {
        ps
    }
}

/// Splits a byte sequence at its zero bytes, dropping empty pieces.
pub fn split_at_zeros(d: &[u8]) -> (r: Vec<Vec<u8>>)
    ensures
        r@.map_values(|v: Vec<u8>| v@) == zero_pieces(d@),
{
    let mut pieces: Vec<Vec<u8>> = Vec::new();
    let mut cur: Vec<u8> = Vec::new();
    let mut i: usize = 0;
    while i < d.len()
        invariant
            i <= d@.len(),
            pieces@.map_values(|v: Vec<u8>| v@) == zero_scan(d@.subrange(0, i as int)).0,
            cur@ == zero_scan(d@.subrange(0, i as int)).1,
        decreases d@.len() - i,
    {
        let ghost prev = d@.subrange(0, i as int);
        assert(d@.subrange(0, i + 1).drop_last() =~= prev);
        if d[i] == 0 {
            if cur.len() > 0 {
                let ghost before = pieces@;
                pieces.push(cur);
                assert(pieces@.map_values(|v: Vec<u8>| v@) =~= before.map_values(|v: Vec<u8>| v@).push(
                    zero_scan(prev).1,
                ));
            }
            cur = Vec::new();
        } else {
            cur.push(d[i]);
        }
        i += 1;
    }
    assert(d@.subrange(0, i as int) =~= d@);
    if cur.len() > 0 {
        let ghost before = pieces@;
        pieces.push(cur);
        assert(pieces@.map_values(|v: Vec<u8>| v@) =~= before.map_values(|v: Vec<u8>| v@).push(
            zero_scan(d@).1,
        ));
    }
    pieces
}

/// What `String::from_utf8_lossy` gives for some bytes.
pub uninterp spec fn utf8_lossy(b: Seq<u8>) -> Seq<char>;

/// Relies on `String::from_utf8_lossy`: the bytes read as UTF-8, each
/// invalid sequence replaced; the text depends on the bytes alone.
#[verifier::external_body]
pub(crate) fn utf8_text(b: &[u8]) -> (r: String)
    ensures
        r@ == utf8_lossy(b@),
{
    String::from_utf8_lossy(b).into_owned()
}

/// The property names of the device information strings, in order.
pub open spec fn info_fields() -> Seq<Seq<char>> {
    seq![
        "device_name"@,
        "device_model"@,
        "manufacturer"@,
        "serial_number"@,
        "firmware_ver_1"@,
        "firmware_ver_2"@,
        "hardware_ver"@,
        "updater_id"@,
        "left_serial"@,
        "right_serial"@,
    ]
}

/// The updates of a device information payload: its non-empty
/// zero-separated strings under the names of the fields, the first ten of
/// them, and the first firmware version again as the software version.
pub open spec fn info_report(d: Seq<u8>) -> Seq<(Seq<char>, Seq<char>)> {
    let ps = zero_pieces(d);
    let n = if ps.len() < 10 { ps.len() } else { 10 };
    Seq::new(n, |i: int| (info_fields()[i], utf8_lossy(ps[i]))) + (if ps.len() > 4 {
        seq![("software_ver"@, utf8_lossy(ps[4]))]
    } else {
        Seq::empty()
    })
}

/// The device information module of the secondary protocol's devices.
pub struct AirPodsInfoHandler;

impl AirPodsInfoHandler {
    pub fn report(&self, packet: &HuaweiSppPacket) -> (r: Vec<PropertyUpdate>)
        ensures
            updates_view(r@) == info_report(packet_param(packet, 0)),
    {
        let data = packet.find_param(0);
        let pieces = split_at_zeros(data);
        let ghost ps = zero_pieces(data@);
        let fields: Vec<&'static str> = vec![
            "device_name",
            "device_model",
            "manufacturer",
            "serial_number",
            "firmware_ver_1",
            "firmware_ver_2",
            "hardware_ver",
            "updater_id",
            "left_serial",
            "right_serial",
        ];
        assert(views_of(fields@) =~= info_fields());
        let n = if pieces.len() < 10 {
            pieces.len()
        } else {
            10
        };
        let mut out: Vec<PropertyUpdate> = Vec::new();
        let mut i: usize = 0;
        while i < n
            invariant
                i <= n,
                n <= pieces@.len(),
                n <= 10,
                fields@.len() == 10,
                views_of(fields@) == info_fields(),
                pieces@.map_values(|v: Vec<u8>| v@) == ps,
                out@.len() == i,
                updates_view(out@) == Seq::new(i as nat, |j: int| (info_fields()[j], utf8_lossy(ps[j]))),
            decreases n - i,
        {
            let ghost before = out@;
            let entry = (text(fields[i]), utf8_text(pieces[i].as_slice()));
            out.push(entry);
            proof {
                assert(views_of(fields@)[i as int] == fields@[i as int]@);
                assert(pieces@.map_values(|v: Vec<u8>| v@)[i as int] == pieces@[i as int]@);
                assert(entry.0@ == info_fields()[i as int]);
                assert(entry.1@ == utf8_lossy(ps[i as int]));
                let want = Seq::new((i + 1) as nat, |j: int| (info_fields()[j], utf8_lossy(ps[j])));
                assert forall|j: int| 0 <= j <= i implies #[trigger] updates_view(out@)[j] == want[j] by {
                    if j < i {
                        assert(out@[j] == before[j]);
                        assert(updates_view(before)[j] == updates_view(out@)[j]);
                    } else {
                        assert(out@[j] == entry);
                    }
                }
                assert(updates_view(out@) =~= want);
            }
            i += 1;
        }
        let ghost head = out@;
        if pieces.len() > 4 {
            proof {
                assert(pieces@.map_values(|v: Vec<u8>| v@)[4] == pieces@[4]@);
            }
            out.push((text("software_ver"), utf8_text(pieces[4].as_slice())));
        }
        assert(updates_view(out@) =~= info_report(data@));
        out
    }
}

impl DeviceHandler for AirPodsInfoHandler {
    open spec fn name(&self) -> Seq<char> {
        "device_info"@
    }

    open spec fn group(&self) -> Seq<char> {
        "info"@
    }

    open spec fn command_keys(&self) -> Seq<u16> {
        seq![key_of(CMD_DEVICE_INFO)]
    }

    open spec fn ignored_keys(&self) -> Seq<u16> {
        Seq::empty()
    }

    open spec fn init_requests(&self) -> Seq<PacketView> {
        Seq::empty()
    }

    open spec fn packet_result(&self, packet: HuaweiSppPacket) -> Result<Seq<(Seq<char>, Seq<char>)>, HandlerError> {
        Ok(info_report(packet_param(&packet, 0)))
    }

    open spec fn set_result(&self, group: &str, prop: &str, value: &str) -> Result<(Seq<PacketView>, Seq<(Seq<char>, Seq<char>)>), HandlerError> {
        Ok((Seq::empty(), Seq::empty()))
    }

    fn handler_id(&self) -> (r: &'static str) {
        "device_info"
    }

    fn property_group(&self) -> (r: &'static str) {
        "info"
    }

    fn commands(&self) -> (r: Vec<CommandId>) {
        let r = vec![CMD_DEVICE_INFO];
        assert(keys_of(r@) =~= self.command_keys());
        r
    }

    fn ignore_commands(&self) -> (r: Vec<CommandId>) {
        let r: Vec<CommandId> = Vec::new();
        assert(keys_of(r@) =~= self.ignored_keys());
        r
    }

    fn on_init(&mut self) -> (r: Vec<HuaweiSppPacket>) {
        let r: Vec<HuaweiSppPacket> = Vec::new();
        proof {
            lemma_packets_view(r@);
        }
        r
    }

    fn on_packet(&mut self, packet: &HuaweiSppPacket) -> (r: Result<Vec<PropertyUpdate>, HandlerError>) {
        Ok(self.report(packet))
    }

    fn set_property(&mut self, group: &str, prop: &str, value: &str) -> (r: Result<
        (Vec<HuaweiSppPacket>, Vec<PropertyUpdate>),
        HandlerError,
    >) {
        let p: Vec<HuaweiSppPacket> = Vec::new();
        let u: Vec<PropertyUpdate> = Vec::new();
        proof {
            lemma_packets_view(p@);
            assert(updates_view(u@) =~= Seq::empty());
        }
        Ok((p, u))
    }
}

/// Whether every character is an ASCII digit.
pub open spec fn all_digits(s: Seq<char>) -> bool {
    forall|i: int| 0 <= i < s.len() ==> '0' <= #[trigger] s[i] <= '9'
}

/// The value of a run of decimal digits.
pub open spec fn digits_value(s: Seq<char>) -> int
    decreases s.len(),
{
    if s.len() == 0 {
        0
    } else {
        digits_value(s.drop_last()) * 10 + (s.last() as u32 - '0' as u32)
    }
}

/// The byte that a text reads as in decimal, as `u8::from_str` reads it: an
/// optional '+' followed by one or more ASCII digits, with a value of at
/// most 255.
pub open spec fn parsed_u8(s: Seq<char>) -> Option<u8> {
    let d = if s.len() > 0 && s[0] == '+' {
        s.subrange(1, s.len() as int)
    } else {
        s
    };
    if d.len() > 0 && all_digits(d) && digits_value(d) <= 255 {
        Some(digits_value(d) as u8)
    } else {
        None
    }
}

proof fn lemma_digits_monotone(s: Seq<char>, k: int)
    requires
        0 <= k <= s.len(),
        all_digits(s),
    ensures
        digits_value(s.subrange(0, k)) <= digits_value(s),
        0 <= digits_value(s.subrange(0, k)),
    decreases s.len(),
{
    if s.len() > 0 {
        assert(all_digits(s.drop_last()));
        assert('0' <= s[s.len() - 1] <= '9');
        if k == s.len() {
            assert(s.subrange(0, k) =~= s);
            lemma_digits_monotone(s.drop_last(), k - 1);
            assert(s.drop_last().subrange(0, k - 1) =~= s.drop_last());
        } else {
            lemma_digits_monotone(s.drop_last(), k);
            assert(s.drop_last().subrange(0, k) =~= s.subrange(0, k));
            lemma_digits_monotone(s.drop_last(), s.len() - 1);
            assert(s.drop_last().subrange(0, s.len() - 1) =~= s.drop_last());
        }
    } else {
        assert(s.subrange(0, k) =~= s);
    }
}

/// Reads a byte written in decimal, as `str::parse::<u8>` does.
fn parse_u8(s: &str) -> (r: Option<u8>)
    ensures
        r == parsed_u8(s@),
{
    if !s.is_ascii() {
        proof {
            let i = choose|i: int| 0 <= i < s@.len() && !('\0' <= #[trigger] s@[i] <= '\u{7f}');
            let d = if s@.len() > 0 && s@[0] == '+' { s@.subrange(1, s@.len() as int) } else { s@ };
            if s@.len() > 0 && s@[0] == '+' {
                assert(i >= 1);
                assert(d[i - 1] == s@[i]);
            } else {
                assert(d[i] == s@[i]);
            }
        }
        return None;
    }
    let b = s.as_bytes();
    proof {
        vstd::string::is_ascii_spec_bytes(s);
    }
    let n = b.len();
    let ghost chars = s@;
    assert(forall|j: int| 0 <= j < n ==> b@[j] == chars[j] as u8);
    assert(forall|j: int| 0 <= j < n ==> '\0' <= #[trigger] chars[j] <= '\u{7f}');
    let start: usize = if n > 0 && b[0] == 0x2B {
        1
    } else {
        0
    };
    let ghost d = if chars.len() > 0 && chars[0] == '+' {
        chars.subrange(1, chars.len() as int)
    } else {
        chars
    };
    assert(d =~= chars.subrange(start as int, n as int));
    if start >= n {
        return None;
    }
    let mut v: u16 = 0;
    let mut i: usize = start;
    while i < n
        invariant
            start <= i <= n,
            n == b@.len(),
            n == chars.len(),
            chars == s@,
            d == (if chars.len() > 0 && chars[0] == '+' {
                chars.subrange(1, chars.len() as int)
            } else {
                chars
            }),
            d == chars.subrange(start as int, n as int),
            forall|j: int| 0 <= j < n ==> b@[j] == chars[j] as u8,
            forall|j: int| 0 <= j < n ==> '\0' <= #[trigger] chars[j] <= '\u{7f}',
            all_digits(chars.subrange(start as int, i as int)),
            v as int == digits_value(chars.subrange(start as int, i as int)),
            v <= 255,
        decreases n - i,
    {
        let c = b[i];
        if c < 0x30 || c > 0x39 {
            assert(!('0' <= d[i - start] <= '9'));
            assert(!all_digits(d));
            return None;
        }
        let ghost pre = chars.subrange(start as int, i as int);
        let ghost cur = chars.subrange(start as int, i + 1);
        assert(cur.drop_last() =~= pre);
        assert(cur.last() == chars[i as int]);
        v = v * 10 + (c - 0x30) as u16;
        i += 1;
        assert(all_digits(cur)) by {
            assert forall|j: int| 0 <= j < cur.len() implies '0' <= #[trigger] cur[j] <= '9' by {
                if j < pre.len() {
                    assert(cur[j] == pre[j]);
                }
            }
        }
        if v > 255 {
            proof {
                if all_digits(d) {
                    lemma_digits_monotone(d, (i - start) as int);
                    assert(d.subrange(0, (i - start) as int) =~= cur);
                    assert(digits_value(d) > 255);
                }
            }
            return None;
        }
    }
    assert(chars.subrange(start as int, n as int) =~= d);
    Some(v as u8)
}

/// The listening-mode module of the secondary protocol's devices.
pub struct AirPodsAncHandler {
    with_adaptive: bool,
}

/// The listening modes offered, with "adaptive" where the device has it.
pub open spec fn listening_options_spec(adaptive: bool) -> Seq<Seq<char>> {
    if adaptive {
        seq!["off"@, "anc"@, "transparency"@, "adaptive"@]
    } else {
        seq!["off"@, "anc"@, "transparency"@]
    }
}

/// The updates of a listening packet: the mode and the modes offered, the
/// strength of automatic cancellation, or whether cancellation with one bud
/// is on.
pub open spec fn listening_report(adaptive: bool, key: u16, data: Seq<u8>) -> Seq<
    (Seq<char>, Seq<char>),
> {
    if data.len() == 0 {
        Seq::empty()
    } else if key == key_of(CMD_LISTENING_MODE) {
        seq![
            ("mode"@, listening_mode_name(data[0])),
            ("mode_options"@, joined(listening_options_spec(adaptive))),
        ]
    } else if key == key_of(CMD_ANC_STRENGTH) {
        seq![("anc_strength"@, decimal(data[0]))]
    } else if key == key_of(CMD_ONE_BUD_ANC) {
        toggle_update("one_bud_anc"@, data)
    } else {
        Seq::empty()
    }
}

/// The byte sent for a listening property, or `None` when the value is not
/// one it takes; `Some(None)` for a property that sends nothing.
pub open spec fn listening_request(prop: Seq<char>, value: Seq<char>) -> Option<Option<(u8, u8)>> {
    if prop == "mode"@ {
        match listening_mode_of(value) {
            Some(b) => Some(Some((CC_LISTENING_MODE, b))),
            None => None,
        }
    } else if prop == "anc_strength"@ {
        match parsed_u8(value) {
            Some(b) => Some(Some((CC_AUTO_ANC_STRENGTH, b))),
            None => None,
        }
    } else if prop == "one_bud_anc"@ {
        Some(Some((CC_ONE_BUD_ANC, toggle_byte(value))))
    } else {
        Some(None)
    }
}

impl AirPodsAncHandler {
    pub closed spec fn adaptive(&self) -> bool {
        self.with_adaptive
    }

    pub fn new(with_adaptive: bool) -> (r: Self)
        ensures
            r.adaptive() == with_adaptive,
    {
        AirPodsAncHandler { with_adaptive }
    }

    /// The listening modes offered.
    pub fn mode_options(&self) -> (r: Vec<&'static str>)
        ensures
            views_of(r@) == listening_options_spec(self.adaptive()),
    {
        let mut opts = vec!["off", "anc", "transparency"];
        if self.with_adaptive {
            opts.push("adaptive");
        }
        assert(views_of(opts@) =~= listening_options_spec(self.with_adaptive));
        opts
    }

    pub fn report(&self, packet: &HuaweiSppPacket) -> (r: Vec<PropertyUpdate>)
        ensures
            updates_view(r@) == listening_report(
                self.adaptive(),
                key_of(packet.command_id),
                packet_param(packet, 0),
            ),
    {
        let data = packet.find_param(0);
        let key = command_key(packet.command_id);
        let mut out: Vec<PropertyUpdate> = Vec::new();
        if data.len() == 0 {
        } else if key == command_key(CMD_LISTENING_MODE) {
            out.push((text("mode"), text(listening_mode_str(data[0]))));
            out.push((text("mode_options"), join_comma(&self.mode_options())));
        } else if key == command_key(CMD_ANC_STRENGTH) {
            out.push((text("anc_strength"), decimal_text(data[0])));
        } else if key == command_key(CMD_ONE_BUD_ANC) {
            return toggle_report("one_bud_anc", data);
        }
        assert(updates_view(out@) =~= listening_report(self.with_adaptive, key, data@));
        out
    }

    pub fn request(&self, prop: &str, value: &str) -> (r: Result<Vec<HuaweiSppPacket>, HandlerError>)
        ensures
            match listening_request(prop@, value@) {
                None => r == Err::<Vec<HuaweiSppPacket>, _>(HandlerError::InvalidValue),
                Some(None) => r matches Ok(p) && p@.len() == 0,
                Some(Some((id, b))) => r matches Ok(p) && p@.len() == 1 && is_control_command(
                    p@[0],
                    id,
                    b,
                ),
            },
    {
        if str_eq(prop, "mode") {
            match listening_mode_byte(value) {
                Some(b) => Ok(vec![build_control_command(CC_LISTENING_MODE, b)]),
                None => Err(HandlerError::InvalidValue),
            }
        } else if str_eq(prop, "anc_strength") {
            match parse_u8(value) {
                Some(b) => Ok(vec![build_control_command(CC_AUTO_ANC_STRENGTH, b)]),
                None => Err(HandlerError::InvalidValue),
            }
        } else if str_eq(prop, "one_bud_anc") {
            Ok(vec![build_control_command(CC_ONE_BUD_ANC, toggle_value(value))])
        } else {
            Ok(Vec::new())
        }
    }
}

impl DeviceHandler for AirPodsAncHandler {
    open spec fn name(&self) -> Seq<char> {
        "anc"@
    }

    open spec fn group(&self) -> Seq<char> {
        "anc"@
    }

    open spec fn command_keys(&self) -> Seq<u16> {
        seq![
            key_of(CMD_LISTENING_MODE),
            key_of(CMD_LISTENING_CONFIGS),
            key_of(CMD_ANC_STRENGTH),
            key_of(CMD_ONE_BUD_ANC),
        ]
    }

    open spec fn ignored_keys(&self) -> Seq<u16> {
        Seq::empty()
    }

    open spec fn init_requests(&self) -> Seq<PacketView> {
        Seq::empty()
    }

    open spec fn packet_result(&self, packet: HuaweiSppPacket) -> Result<Seq<(Seq<char>, Seq<char>)>, HandlerError> {
        Ok(listening_report(self.adaptive(), key_of(packet.command_id), packet_param(&packet, 0)))
    }

    open spec fn set_result(&self, group: &str, prop: &str, value: &str) -> Result<(Seq<PacketView>, Seq<(Seq<char>, Seq<char>)>), HandlerError> {
        match listening_request(prop@, value@) {
            None => Err(HandlerError::InvalidValue),
            Some(None) => Ok((Seq::empty(), Seq::empty())),
            Some(Some((id, b))) => Ok((seq![control_view(id, b)], Seq::empty())),
        }
    }

    fn handler_id(&self) -> (r: &'static str) {
        "anc"
    }

    fn property_group(&self) -> (r: &'static str) {
        "anc"
    }

    fn commands(&self) -> (r: Vec<CommandId>) {
        let r = vec![CMD_LISTENING_MODE, CMD_LISTENING_CONFIGS, CMD_ANC_STRENGTH, CMD_ONE_BUD_ANC];
        assert(keys_of(r@) =~= self.command_keys());
        r
    }

    fn ignore_commands(&self) -> (r: Vec<CommandId>) {
        let r: Vec<CommandId> = Vec::new();
        assert(keys_of(r@) =~= self.ignored_keys());
        r
    }

    fn on_init(&mut self) -> (r: Vec<HuaweiSppPacket>) {
        let r: Vec<HuaweiSppPacket> = Vec::new();
        proof {
            lemma_packets_view(r@);
        }
        r
    }

    fn on_packet(&mut self, packet: &HuaweiSppPacket) -> (r: Result<Vec<PropertyUpdate>, HandlerError>) {
        Ok(self.report(packet))
    }

    fn set_property(&mut self, group: &str, prop: &str, value: &str) -> (r: Result<
        (Vec<HuaweiSppPacket>, Vec<PropertyUpdate>),
        HandlerError,
    >) {
        let r = match self.request(prop, value) {
            Ok(pkts) => Ok((pkts, Vec::new())),
            Err(e) => Err(e),
        };
        proof {
            if let Ok((p, u)) = &r {
                lemma_packets_view(p@);
                assert(updates_view(u@) =~= Seq::empty());
            }
        }
        r
    }
}

} // verus!
