//! Gesture settings of the primary protocol's devices: the actions of a
//! double or triple tap, of a long tap on each bud and the noise-control
//! cycle it steps through, and of a swipe. Reports update the "action"
//! group.

use vstd::prelude::*;

use crate::handler::{
    lemma_packets_view, packet_param, packet_view, packets_view, report_view, request_view,
    updates_view, PacketView,
};

use crate::commands::{
    CMD_DUAL_TAP_READ, CMD_DUAL_TAP_WRITE, CMD_LONG_TAP_SPLIT_READ_ANC,
    CMD_LONG_TAP_SPLIT_READ_BASE, CMD_LONG_TAP_SPLIT_WRITE_ANC, CMD_LONG_TAP_SPLIT_WRITE_BASE,
    CMD_SWIPE_READ, CMD_SWIPE_WRITE, CMD_TRIPLE_TAP_READ, CMD_TRIPLE_TAP_WRITE, CommandId,
};
use crate::config::{is_single, read_one, single_view, write_byte};
use crate::handler::{
    command_key, key_of, keys_of, str_eq, DeviceHandler, HandlerError, PropertyUpdate,
};
use crate::packet::{written, HuaweiSppPacket};
use crate::text::{contains, ends_with, join_comma, joined, occurs_at, starts_with, text, views_of};
use vstd::string::{StringExecFns, StringSliceAdditionalSpecFns};

verus! {

/// The name of a tap action.
pub open spec fn tap_action(v: i8) -> Seq<char> {
    if v == -1 {
        "tap_action_off"@
    } else if v == 0 {
        "tap_action_assistant"@
    } else if v == 1 {
        "tap_action_pause"@
    } else if v == 2 {
        "tap_action_next"@
    } else if v == 7 {
        "tap_action_prev"@
    } else {
        "unknown"@
    }
}

pub fn tap_action_name(value: i8) -> (r: &'static str)
    ensures
        r@ == tap_action(value),
{
    if value == -1 {
        "tap_action_off"
    } else if value == 0 {
        "tap_action_assistant"
    } else if value == 1 {
        "tap_action_pause"
    } else if value == 2 {
        "tap_action_next"
    } else if value == 7 {
        "tap_action_prev"
    } else {
        "unknown"
    }
}

/// The tap action of a name.
pub open spec fn tap_action_of(s: Seq<char>) -> Option<i8> {
    if s == "tap_action_off"@ {
        Some(-1i8)
    } else if s == "tap_action_assistant"@ {
        Some(0)
    } else if s == "tap_action_pause"@ {
        Some(1)
    } else if s == "tap_action_next"@ {
        Some(2)
    } else if s == "tap_action_prev"@ {
        Some(7)
    } else {
        None
    }
}

pub fn tap_action_value(name: &str) -> (r: Option<i8>)
    ensures
        r == tap_action_of(name@),
{
    if str_eq(name, "tap_action_off") {
        Some(-1i8)
    } else if str_eq(name, "tap_action_assistant") {
        Some(0)
    } else if str_eq(name, "tap_action_pause") {
        Some(1)
    } else if str_eq(name, "tap_action_next") {
        Some(2)
    } else if str_eq(name, "tap_action_prev") {
        Some(7)
    } else {
        None
    }
}

/// The name of an in-call action.
pub open spec fn call_action(v: i8) -> Seq<char> {
    if v == -1 {
        "tap_action_off"@
    } else if v == 0 {
        "tap_action_answer"@
    } else {
        "unknown"@
    }
}

pub fn call_action_name(value: i8) -> (r: &'static str)
    ensures
        r@ == call_action(value),
{
    if value == -1 {
        "tap_action_off"
    } else if value == 0 {
        "tap_action_answer"
    } else {
        "unknown"
    }
}

/// The in-call action of a name.
pub open spec fn call_action_of(s: Seq<char>) -> Option<i8> {
    if s == "tap_action_off"@ {
        Some(-1i8)
    } else if s == "tap_action_answer"@ {
        Some(0)
    } else {
        None
    }
}

pub fn call_action_value(name: &str) -> (r: Option<i8>)
    ensures
        r == call_action_of(name@),
{
    if str_eq(name, "tap_action_off") {
        Some(-1i8)
    } else if str_eq(name, "tap_action_answer") {
        Some(0)
    } else {
        None
    }
}

/// The name of a long-tap action.
pub open spec fn long_tap_action(v: i8) -> Seq<char> {
    if v == -1 {
        "tap_action_off"@
    } else if v == 10 {
        "tap_action_switch_anc"@
    } else {
        "unknown"@
    }
}

pub fn long_tap_action_name(value: i8) -> (r: &'static str)
    ensures
        r@ == long_tap_action(value),
{
    if value == -1 {
        "tap_action_off"
    } else if value == 10 {
        "tap_action_switch_anc"
    } else {
        "unknown"
    }
}

/// The long-tap action of a name.
pub open spec fn long_tap_action_of(s: Seq<char>) -> Option<i8> {
    if s == "tap_action_off"@ {
        Some(-1i8)
    } else if s == "tap_action_switch_anc"@ {
        Some(10)
    } else {
        None
    }
}

pub fn long_tap_action_value(name: &str) -> (r: Option<i8>)
    ensures
        r == long_tap_action_of(name@),
{
    if str_eq(name, "tap_action_off") {
        Some(-1i8)
    } else if str_eq(name, "tap_action_switch_anc") {
        Some(10)
    } else {
        None
    }
}

/// The name of a noise-control cycle.
pub open spec fn anc_cycle(v: i8) -> Seq<char> {
    if v == 1 {
        "noise_control_off_on"@
    } else if v == 2 {
        "noise_control_off_on_aw"@
    } else if v == 3 {
        "noise_control_on_aw"@
    } else if v == 4 {
        "noise_control_off_aw"@
    } else {
        "unknown"@
    }
}

pub fn anc_cycle_name(value: i8) -> (r: &'static str)
    ensures
        r@ == anc_cycle(value),
{
    if value == 1 {
        "noise_control_off_on"
    } else if value == 2 {
        "noise_control_off_on_aw"
    } else if value == 3 {
        "noise_control_on_aw"
    } else if value == 4 {
        "noise_control_off_aw"
    } else {
        "unknown"
    }
}

/// The noise-control cycle of a name.
pub open spec fn anc_cycle_of(s: Seq<char>) -> Option<i8> {
    if s == "noise_control_off_on"@ {
        Some(1)
    } else if s == "noise_control_off_on_aw"@ {
        Some(2)
    } else if s == "noise_control_on_aw"@ {
        Some(3)
    } else if s == "noise_control_off_aw"@ {
        Some(4)
    } else {
        None
    }
}

pub fn anc_cycle_value(name: &str) -> (r: Option<i8>)
    ensures
        r == anc_cycle_of(name@),
{
    if str_eq(name, "noise_control_off_on") {
        Some(1)
    } else if str_eq(name, "noise_control_off_on_aw") {
        Some(2)
    } else if str_eq(name, "noise_control_on_aw") {
        Some(3)
    } else if str_eq(name, "noise_control_off_aw") {
        Some(4)
    } else {
        None
    }
}

/// The name of a swipe action.
pub open spec fn swipe_action(v: i8) -> Seq<char> {
    if v == -1 {
        "tap_action_off"@
    } else if v == 0 {
        "tap_action_change_volume"@
    } else {
        "unknown"@
    }
}

pub fn swipe_action_name(value: i8) -> (r: &'static str)
    ensures
        r@ == swipe_action(value),
{
    if value == -1 {
        "tap_action_off"
    } else if value == 0 {
        "tap_action_change_volume"
    } else {
        "unknown"
    }
}

/// The swipe action of a name.
pub open spec fn swipe_action_of(s: Seq<char>) -> Option<i8> {
    if s == "tap_action_off"@ {
        Some(-1i8)
    } else if s == "tap_action_change_volume"@ {
        Some(0)
    } else {
        None
    }
}

pub fn swipe_action_value(name: &str) -> (r: Option<i8>)
    ensures
        r == swipe_action_of(name@),
{
    if str_eq(name, "tap_action_off") {
        Some(-1i8)
    } else if str_eq(name, "tap_action_change_volume") {
        Some(0)
    } else {
        None
    }
}

/// A setting byte read as a signed action value.
pub open spec fn signed(b: u8) -> i8 {
    if b < 128 {
        b as i8
    } else {
        (b as int - 256) as i8
    }
}

fn to_signed(b: u8) -> (r: i8)
    ensures
        r == signed(b),
{
    if b < 128 {
        b as i8
    } else {
        (b as i16 - 256) as i8
    }
}

/// The byte of a signed action value.
pub open spec fn unsigned(v: i8) -> u8 {
    if v >= 0 {
        v as u8
    } else {
        (v as int + 256) as u8
    }
}

fn to_unsigned(v: i8) -> (r: u8)
    ensures
        r == unsigned(v),
{
    if v >= 0 {
        v as u8
    } else {
        (v as i16 + 256) as u8
    }
}

fn joined_text(a: &str, b: &str) -> (r: String)
    ensures
        r@ == a@ + b@,
{
    let mut s = text(a);
    s.append(b);
    s
}

/// A request of both parameters 1 and 2.
pub open spec fn is_read_12(p: HuaweiSppPacket, cmd: CommandId) -> bool {
    &&& p.command_id == cmd
    &&& p.params() == Map::new(|t: u8| t == 1 || t == 2, |t: u8| Seq::<u8>::empty())
}

/// The view of a request of parameters 1 and 2.
pub open spec fn read_12_view(cmd: CommandId) -> PacketView {
    (cmd@, Map::new(|t: u8| t == 1 || t == 2, |t: u8| Seq::<u8>::empty()))
}

fn read_12(cmd: CommandId) -> (r: HuaweiSppPacket)
    ensures
        is_read_12(r, cmd),
{
    let tags: Vec<u8> = vec![1u8, 2u8];
    let r = HuaweiSppPacket::read_request(cmd, tags.as_slice());
    assert(r.params() =~= Map::new(|t: u8| t == 1 || t == 2, |t: u8| Seq::<u8>::empty())) by {
        assert(tags@[0] == 1u8 && tags@[1] == 2u8);
        assert(tags@.contains(1u8) && tags@.contains(2u8));
    }
    r
}

/// The one update of a one-byte parameter named by `f`, under `key`.
pub open spec fn byte_update(key: Seq<char>, p: Seq<u8>, on: bool, name: spec_fn(i8) -> Seq<char>) -> Seq<
    (Seq<char>, Seq<char>),
> {
    if p.len() == 1 && on {
        seq![(key, name(signed(p[0])))]
    } else {
        Seq::empty()
    }
}

/// The names of the tap actions that the device offers.
pub open spec fn tap_options(p: Seq<u8>) -> Seq<Seq<char>> {
    p.map_values(|b: u8| tap_action(signed(b)))
}

fn tap_option_names(p: &[u8]) -> (r: Vec<&'static str>)
    ensures
        views_of(r@) == tap_options(p@),
{
    let mut out: Vec<&'static str> = Vec::new();
    let mut i: usize = 0;
    while i < p.len()
        invariant
            i <= p@.len(),
            out@.len() == i,
            views_of(out@) == tap_options(p@.subrange(0, i as int)),
        decreases p@.len() - i,
    {
        let ghost before = out@;
        let name = tap_action_name(to_signed(p[i]));
        out.push(name);
        i += 1;
        proof {
            let cur = p@.subrange(0, i as int);
            let prev = p@.subrange(0, i - 1);
            assert forall|j: int| 0 <= j < i implies #[trigger] views_of(out@)[j] == tap_options(
                cur,
            )[j] by {
                if j < i - 1 {
                    assert(out@[j] == before[j]);
                    assert(cur[j] == prev[j]);
                    assert(views_of(before)[j] == tap_options(prev)[j]);
                } else {
                    assert(out@[j] == name);
                    assert(cur[j] == p@[i - 1]);
                }
            }
            assert(views_of(out@) =~= tap_options(cur));
        }
    }
    assert(p@.subrange(0, i as int) =~= p@);
    out
}

/// The double- or triple-tap module.
pub struct TapActionHandler {
    prop_prefix: &'static str,
    cmd_read: CommandId,
    cmd_write: CommandId,
    with_in_call: bool,
}

/// The updates of a tap report: the action of each bud, the actions
/// offered, and where the device has one the in-call action and its
/// options; each property is named after the tap.
pub open spec fn tap_report(
    prefix: Seq<char>,
    in_call: bool,
    param1: Seq<u8>,
    param2: Seq<u8>,
    param3: Seq<u8>,
    param4: Seq<u8>,
) -> Seq<(Seq<char>, Seq<char>)> {
    byte_update(prefix + "_left"@, param1, true, |v: i8| tap_action(v)) + byte_update(
        prefix + "_right"@,
        param2,
        true,
        |v: i8| tap_action(v),
    ) + (if param3.len() > 0 {
        seq![(prefix + "_options"@, joined(tap_options(param3)))]
    } else {
        Seq::empty()
    }) + (if in_call && param4.len() == 1 {
        seq![
            (prefix + "_in_call"@, call_action(signed(param4[0]))),
            (prefix + "_in_call_options"@, "tap_action_off,tap_action_answer"@),
        ]
    } else {
        Seq::empty()
    })
}

/// What a tap request writes: the parameter chosen by the property's
/// suffix ("_left" 1, "_right" 2, "_in_call" 4) and the action byte;
/// `Some(None)` when no suffix matches; `None` when the value is not an
/// action.
pub open spec fn tap_request(pb: Seq<u8>, value: Seq<char>) -> Option<Option<(u8, u8)>> {
    let tag: u8 = if occurs_at(pb, "_left".spec_bytes(), pb.len() - "_left".spec_bytes().len()) {
        1
    } else if occurs_at(pb, "_right".spec_bytes(), pb.len() - "_right".spec_bytes().len()) {
        2
    } else if occurs_at(pb, "_in_call".spec_bytes(), pb.len() - "_in_call".spec_bytes().len()) {
        4
    } else {
        0
    };
    if tag == 0 {
        Some(None)
    } else {
        let action = if tag == 4 {
            call_action_of(value)
        } else {
            tap_action_of(value)
        };
        match action {
            Some(v) => Some(Some((tag, unsigned(v)))),
            None => None,
        }
    }
}

impl TapActionHandler {
    pub closed spec fn prefix(&self) -> Seq<char> {
        self.prop_prefix@
    }

    pub closed spec fn read_cmd(&self) -> CommandId {
        self.cmd_read
    }

    pub closed spec fn write_cmd(&self) -> CommandId {
        self.cmd_write
    }

    pub closed spec fn in_call(&self) -> bool {
        self.with_in_call
    }

    /// The double-tap module, with or without the in-call action.
    pub fn double_tap(with_in_call: bool) -> (r: Self)
        ensures
            r.prefix() == "double_tap"@,
            r.read_cmd() == CMD_DUAL_TAP_READ,
            r.write_cmd() == CMD_DUAL_TAP_WRITE,
            r.in_call() == with_in_call,
    {
        TapActionHandler {
            prop_prefix: "double_tap",
            cmd_read: CMD_DUAL_TAP_READ,
            cmd_write: CMD_DUAL_TAP_WRITE,
            with_in_call,
        }
    }

    /// The triple-tap module.
    pub fn triple_tap() -> (r: Self)
        ensures
            r.prefix() == "triple_tap"@,
            r.read_cmd() == CMD_TRIPLE_TAP_READ,
            r.write_cmd() == CMD_TRIPLE_TAP_WRITE,
            !r.in_call(),
    {
        TapActionHandler {
            prop_prefix: "triple_tap",
            cmd_read: CMD_TRIPLE_TAP_READ,
            cmd_write: CMD_TRIPLE_TAP_WRITE,
            with_in_call: false,
        }
    }

    /// The updates of a report; none unless it answers the read request.
    pub fn report(&self, packet: &HuaweiSppPacket) -> (r: Vec<PropertyUpdate>)
        ensures
            updates_view(r@) == (if key_of(packet.command_id) == key_of(self.read_cmd()) {
                tap_report(
                    self.prefix(),
                    self.in_call(),
                    packet_param(packet, 1),
                    packet_param(packet, 2),
                    packet_param(packet, 3),
                    packet_param(packet, 4),
                )
            } else {
                Seq::empty()
            }),
    {
        let mut out: Vec<PropertyUpdate> = Vec::new();
        if command_key(packet.command_id) != command_key(self.cmd_read) {
            assert(updates_view(out@) =~= Seq::<(Seq<char>, Seq<char>)>::empty());
            return out;
        }
        let left = packet.find_param(1);
        if left.len() == 1 {
            out.push((joined_text(self.prop_prefix, "_left"), text(tap_action_name(to_signed(left[0])))));
        }
        let right = packet.find_param(2);
        if right.len() == 1 {
            out.push((joined_text(self.prop_prefix, "_right"), text(tap_action_name(to_signed(right[0])))));
        }
        let available = packet.find_param(3);
        if available.len() > 0 {
            out.push((joined_text(self.prop_prefix, "_options"), join_comma(&tap_option_names(available))));
        }
        let in_call = packet.find_param(4);
        if self.with_in_call && in_call.len() == 1 {
            out.push((joined_text(self.prop_prefix, "_in_call"), text(call_action_name(to_signed(in_call[0])))));
            out.push((joined_text(self.prop_prefix, "_in_call_options"), text("tap_action_off,tap_action_answer")));
        }
        assert(updates_view(out@) =~= tap_report(
            self.prop_prefix@,
            self.with_in_call,
            left@,
            right@,
            available@,
            in_call@,
        ));
        out
    }

    /// The write that carries out a request, and the requested value
    /// recorded at once.
    pub fn request(&self, prop: &str, value: &str) -> (r: Result<
        (Vec<HuaweiSppPacket>, Vec<PropertyUpdate>),
        HandlerError,
    >)
        ensures
            match tap_request(prop.spec_bytes(), value@) {
                None => r == Err::<(Vec<HuaweiSppPacket>, Vec<PropertyUpdate>), _>(
                    HandlerError::InvalidValue,
                ),
                Some(None) => r matches Ok((p, u)) && p@.len() == 0 && u@.len() == 0,
                Some(Some((tag, b))) => r matches Ok((p, u)) && p@.len() == 1 && is_single(
                    p@[0],
                    self.write_cmd(),
                    tag,
                    seq![b],
                ) && updates_view(u@) == seq![(prop@, value@)],
            },
    {
        let tag: u8 = if ends_with(prop, "_left") {
            1
        } else if ends_with(prop, "_right") {
            2
        } else if ends_with(prop, "_in_call") {
            4
        } else {
            0
        };
        if tag == 0 {
            return Ok((Vec::new(), Vec::new()));
        }
        let action = if tag == 4 {
            call_action_value(value)
        } else {
            tap_action_value(value)
        };
        match action {
            Some(v) => {
                let pkt = write_byte(self.cmd_write, tag, to_unsigned(v));
                let updates = vec![(text(prop), text(value))];
                assert(updates_view(updates@) =~= seq![(prop@, value@)]);
                Ok((vec![pkt], updates))
            },
            None => Err(HandlerError::InvalidValue),
        }
    }
}

impl DeviceHandler for TapActionHandler {
    open spec fn name(&self) -> Seq<char> {
        if self.prefix() == "double_tap"@ {
            "gesture_double"@
        } else if self.prefix() == "triple_tap"@ {
            "gesture_triple"@
        } else {
            "gesture_tap"@
        }
    }

    open spec fn group(&self) -> Seq<char> {
        "action"@
    }

    open spec fn command_keys(&self) -> Seq<u16> {
        if self.prefix() == "double_tap"@ {
            seq![key_of(CMD_DUAL_TAP_READ), key_of(CMD_DUAL_TAP_WRITE)]
        } else {
            seq![key_of(CMD_TRIPLE_TAP_READ), key_of(CMD_TRIPLE_TAP_WRITE)]
        }
    }

    open spec fn ignored_keys(&self) -> Seq<u16> {
        Seq::empty()
    }

    open spec fn init_requests(&self) -> Seq<PacketView> {
        seq![read_12_view(self.read_cmd())]
    }

    open spec fn packet_result(&self, packet: HuaweiSppPacket) -> Result<Seq<(Seq<char>, Seq<char>)>, HandlerError> {
        Ok(
            if key_of(packet.command_id) == key_of(self.read_cmd()) {
                tap_report(
                    self.prefix(),
                    self.in_call(),
                    packet_param(&packet, 1),
                    packet_param(&packet, 2),
                    packet_param(&packet, 3),
                    packet_param(&packet, 4),
                )
            } else {
                Seq::empty()
            },
        )
    }

    open spec fn set_result(&self, group: &str, prop: &str, value: &str) -> Result<(Seq<PacketView>, Seq<(Seq<char>, Seq<char>)>), HandlerError> {
        match tap_request(prop.spec_bytes(), value@) {
            None => Err(HandlerError::InvalidValue),
            Some(None) => Ok((Seq::empty(), Seq::empty())),
            Some(Some((tag, b))) => Ok(
                (
                    seq![(self.write_cmd()@, Map::<u8, Seq<u8>>::empty().insert(tag, seq![b]))],
                    seq![(prop@, value@)],
                ),
            ),
        }
    }

    fn handler_id(&self) -> (r: &'static str) {
        if str_eq(self.prop_prefix, "double_tap") {
            "gesture_double"
        } else if str_eq(self.prop_prefix, "triple_tap") {
            "gesture_triple"
        } else {
            "gesture_tap"
        }
    }

    fn property_group(&self) -> (r: &'static str) {
        "action"
    }

    fn commands(&self) -> (r: Vec<CommandId>) {
        let r = if str_eq(self.prop_prefix, "double_tap") {
            vec![CMD_DUAL_TAP_READ, CMD_DUAL_TAP_WRITE]
        } else {
            vec![CMD_TRIPLE_TAP_READ, CMD_TRIPLE_TAP_WRITE]
        };
        assert(keys_of(r@) =~= self.command_keys());
        r
    }

    fn ignore_commands(&self) -> (r: Vec<CommandId>) {
        let r: Vec<CommandId> = Vec::new();
        assert(keys_of(r@) =~= self.ignored_keys());
        r
    }

    fn on_init(&mut self) -> (r: Vec<HuaweiSppPacket>) {
        let r = vec![read_12(self.cmd_read)];
        proof {
            lemma_packets_view(r@);
        }
        r
    }

    fn on_packet(&mut self, packet: &HuaweiSppPacket) -> (r: Result<Vec<PropertyUpdate>, HandlerError>) {
        Ok(self.report(packet))
    }

    fn set_property(&mut self, group: &str, prop: &str, value: &str) -> (r: Result<
        (Vec<HuaweiSppPacket>, Vec<PropertyUpdate>),
        HandlerError,
    >) {
        let r = self.request(prop, value);
        proof {
            if let Ok((p, u)) = &r {
                lemma_packets_view(p@);
                if u@.len() == 0 {
                    assert(updates_view(u@) =~= Seq::empty());
                }
            }
        }
        r
    }
}

/// Whether the bytes of a literal occur in those of a text.
pub open spec fn has(pb: Seq<u8>, lit: Seq<u8>) -> bool {
    exists|i: int| occurs_at(pb, lit, i)
}

/// The long-tap module: the action of a long tap on each bud, the in-call
/// action, and the noise-control cycle that a long tap steps through.
pub struct LongTapSplitHandler {
    with_left: bool,
    with_right: bool,
    with_in_call: bool,
    with_anc: bool,
}

/// The updates of a long-tap report: from the base report, the actions of
/// the buds the device has, the in-call action where it has one, and the
/// actions offered; from the cycle report, the cycle of each bud and the
/// cycles offered.
pub open spec fn long_tap_report(
    h: LongTapSplitHandler,
    key: u16,
    param1: Seq<u8>,
    param2: Seq<u8>,
    param4: Seq<u8>,
) -> Seq<(Seq<char>, Seq<char>)> {
    if key == key_of(CMD_LONG_TAP_SPLIT_READ_BASE) {
        byte_update("long_tap_left"@, param1, h.left(), |v: i8| long_tap_action(v)) + byte_update(
            "long_tap_right"@,
            param2,
            h.right(),
            |v: i8| long_tap_action(v),
        ) + (if h.in_call() && param4.len() == 1 {
            seq![
                ("long_tap_in_call"@, call_action(signed(param4[0]))),
                ("long_tap_in_call_options"@, "tap_action_off,tap_action_answer"@),
            ]
        } else {
            Seq::empty()
        }) + seq![("long_tap_options"@, "tap_action_off,tap_action_switch_anc"@)]
    } else if key == key_of(CMD_LONG_TAP_SPLIT_READ_ANC) {
        byte_update("noise_control_left"@, param1, true, |v: i8| anc_cycle(v)) + byte_update(
            "noise_control_right"@,
            param2,
            h.right(),
            |v: i8| anc_cycle(v),
        ) + seq![
            (
                "noise_control_options"@,
                "noise_control_off_on,noise_control_off_on_aw,noise_control_on_aw,noise_control_off_aw"@,
            ),
        ]
    } else {
        Seq::empty()
    }
}

/// What a long-tap request does: the write it sends, if any, as command,
/// parameter and byte, and whether the requested value is recorded at once;
/// `None` when the value is not one the property takes.
///
/// A property starting with "long_tap" writes the base setting, parameter 1
/// if it mentions "left", 2 if "right", 4 if "in_call" (with an in-call
/// action), and is otherwise ignored; one starting with "noise_control"
/// writes the cycle of the left bud if it mentions "left", else of the
/// right; any other property is only recorded.
pub open spec fn long_tap_request(pb: Seq<u8>, value: Seq<char>) -> Option<
    (Option<(CommandId, u8, u8)>, bool),
> {
    if occurs_at(pb, "long_tap".spec_bytes(), 0) {
        let tag: u8 = if has(pb, "left".spec_bytes()) {
            1
        } else if has(pb, "right".spec_bytes()) {
            2
        } else if has(pb, "in_call".spec_bytes()) {
            4
        } else {
            0
        };
        if tag == 0 {
            Some((None, false))
        } else {
            let action = if has(pb, "in_call".spec_bytes()) {
                call_action_of(value)
            } else {
                long_tap_action_of(value)
            };
            match action {
                Some(v) => Some((Some((CMD_LONG_TAP_SPLIT_WRITE_BASE, tag, unsigned(v))), true)),
                None => None,
            }
        }
    } else if occurs_at(pb, "noise_control".spec_bytes(), 0) {
        let tag: u8 = if has(pb, "left".spec_bytes()) {
            1
        } else {
            2
        };
        match anc_cycle_of(value) {
            Some(v) => Some((Some((CMD_LONG_TAP_SPLIT_WRITE_ANC, tag, unsigned(v))), true)),
            None => None,
        }
    } else {
        Some((None, true))
    }
}

impl LongTapSplitHandler {
    pub closed spec fn left(&self) -> bool {
        self.with_left
    }

    pub closed spec fn right(&self) -> bool {
        self.with_right
    }

    pub closed spec fn in_call(&self) -> bool {
        self.with_in_call
    }

    pub closed spec fn anc(&self) -> bool {
        self.with_anc
    }

    pub fn new(with_left: bool, with_right: bool, with_in_call: bool, with_anc: bool) -> (r: Self)
        ensures
            r.left() == with_left,
            r.right() == with_right,
            r.in_call() == with_in_call,
            r.anc() == with_anc,
    {
        LongTapSplitHandler { with_left, with_right, with_in_call, with_anc }
    }

    pub fn report(&self, packet: &HuaweiSppPacket) -> (r: Vec<PropertyUpdate>)
        ensures
            updates_view(r@) == long_tap_report(
                *self,
                key_of(packet.command_id),
                packet_param(packet, 1),
                packet_param(packet, 2),
                packet_param(packet, 4),
            ),
    {
        let key = command_key(packet.command_id);
        let left = packet.find_param(1);
        let right = packet.find_param(2);
        let in_call = packet.find_param(4);
        let mut out: Vec<PropertyUpdate> = Vec::new();
        if key == command_key(CMD_LONG_TAP_SPLIT_READ_BASE) {
            if left.len() == 1 && self.with_left {
                out.push((text("long_tap_left"), text(long_tap_action_name(to_signed(left[0])))));
            }
            if right.len() == 1 && self.with_right {
                out.push((text("long_tap_right"), text(long_tap_action_name(to_signed(right[0])))));
            }
            if self.with_in_call && in_call.len() == 1 {
                out.push((text("long_tap_in_call"), text(call_action_name(to_signed(in_call[0])))));
                out.push((text("long_tap_in_call_options"), text("tap_action_off,tap_action_answer")));
            }
            out.push((text("long_tap_options"), text("tap_action_off,tap_action_switch_anc")));
        } else if key == command_key(CMD_LONG_TAP_SPLIT_READ_ANC) {
            if left.len() == 1 {
                out.push((text("noise_control_left"), text(anc_cycle_name(to_signed(left[0])))));
            }
            if right.len() == 1 && self.with_right {
                out.push((text("noise_control_right"), text(anc_cycle_name(to_signed(right[0])))));
            }
            out.push(
                (
                    text("noise_control_options"),
                    text(
                        "noise_control_off_on,noise_control_off_on_aw,noise_control_on_aw,noise_control_off_aw",
                    ),
                ),
            );
        }
        assert(updates_view(out@) =~= long_tap_report(*self, key, left@, right@, in_call@));
        out
    }

    pub fn request(&self, prop: &str, value: &str) -> (r: Result<
        (Vec<HuaweiSppPacket>, Vec<PropertyUpdate>),
        HandlerError,
    >)
        ensures
            match long_tap_request(prop.spec_bytes(), value@) {
                None => r == Err::<(Vec<HuaweiSppPacket>, Vec<PropertyUpdate>), _>(
                    HandlerError::InvalidValue,
                ),
                Some((w, rec)) => r matches Ok((p, u)) && (match w {
                    Some((cmd, tag, b)) => p@.len() == 1 && is_single(p@[0], cmd, tag, seq![b]),
                    None => p@.len() == 0,
                }) && updates_view(u@) == (if rec {
                    seq![(prop@, value@)]
                } else {
                    Seq::empty()
                }),
            },
    {
        let mut pkts: Vec<HuaweiSppPacket> = Vec::new();
        if starts_with(prop, "long_tap") {
            let tag: u8 = if contains(prop, "left") {
                1
            } else if contains(prop, "right") {
                2
            } else if contains(prop, "in_call") {
                4
            } else {
                0
            };
            if tag == 0 {
                return Ok((Vec::new(), Vec::new()));
            }
            let action = if contains(prop, "in_call") {
                call_action_value(value)
            } else {
                long_tap_action_value(value)
            };
            match action {
                Some(v) => pkts.push(write_byte(CMD_LONG_TAP_SPLIT_WRITE_BASE, tag, to_unsigned(v))),
                None => return Err(HandlerError::InvalidValue),
            }
        } else if starts_with(prop, "noise_control") {
            let tag: u8 = if contains(prop, "left") {
                1
            } else {
                2
            };
            match anc_cycle_value(value) {
                Some(v) => pkts.push(write_byte(CMD_LONG_TAP_SPLIT_WRITE_ANC, tag, to_unsigned(v))),
                None => return Err(HandlerError::InvalidValue),
            }
        }
        let updates = vec![(text(prop), text(value))];
        assert(updates_view(updates@) =~= seq![(prop@, value@)]);
        Ok((pkts, updates))
    }
}

impl DeviceHandler for LongTapSplitHandler {
    open spec fn name(&self) -> Seq<char> {
        "gesture_long_split"@
    }

    open spec fn group(&self) -> Seq<char> {
        "action"@
    }

    open spec fn command_keys(&self) -> Seq<u16> {
        seq![
            key_of(CMD_LONG_TAP_SPLIT_READ_BASE),
            key_of(CMD_LONG_TAP_SPLIT_READ_ANC),
            key_of(CMD_LONG_TAP_SPLIT_WRITE_BASE),
            key_of(CMD_LONG_TAP_SPLIT_WRITE_ANC),
        ]
    }

    open spec fn ignored_keys(&self) -> Seq<u16> {
        Seq::empty()
    }

    open spec fn init_requests(&self) -> Seq<PacketView> {
        if self.anc() {
            seq![read_12_view(CMD_LONG_TAP_SPLIT_READ_BASE), read_12_view(CMD_LONG_TAP_SPLIT_READ_ANC)]
        } else {
            seq![read_12_view(CMD_LONG_TAP_SPLIT_READ_BASE)]
        }
    }

    open spec fn packet_result(&self, packet: HuaweiSppPacket) -> Result<Seq<(Seq<char>, Seq<char>)>, HandlerError> {
        Ok(
            long_tap_report(
                *self,
                key_of(packet.command_id),
                packet_param(&packet, 1),
                packet_param(&packet, 2),
                packet_param(&packet, 4),
            ),
        )
    }

    open spec fn set_result(&self, group: &str, prop: &str, value: &str) -> Result<(Seq<PacketView>, Seq<(Seq<char>, Seq<char>)>), HandlerError> {
        match long_tap_request(prop.spec_bytes(), value@) {
            None => Err(HandlerError::InvalidValue),
            Some((w, rec)) => Ok(
                (
                    match w {
                        Some((cmd, tag, b)) => seq![
                            (cmd@, Map::<u8, Seq<u8>>::empty().insert(tag, seq![b])),
                        ],
                        None => Seq::empty(),
                    },
                    if rec {
                        seq![(prop@, value@)]
                    } else {
                        Seq::empty()
                    },
                ),
            ),
        }
    }

    fn handler_id(&self) -> (r: &'static str) {
        "gesture_long_split"
    }

    fn property_group(&self) -> (r: &'static str) {
        "action"
    }

    fn commands(&self) -> (r: Vec<CommandId>) {
        let r = vec![
            CMD_LONG_TAP_SPLIT_READ_BASE,
            CMD_LONG_TAP_SPLIT_READ_ANC,
            CMD_LONG_TAP_SPLIT_WRITE_BASE,
            CMD_LONG_TAP_SPLIT_WRITE_ANC,
        ];
        assert(keys_of(r@) =~= self.command_keys());
        r
    }

    fn ignore_commands(&self) -> (r: Vec<CommandId>) {
        let r: Vec<CommandId> = Vec::new();
        assert(keys_of(r@) =~= self.ignored_keys());
        r
    }

    fn on_init(&mut self) -> (r: Vec<HuaweiSppPacket>) {
        let r = {
            let mut r = vec![read_12(CMD_LONG_TAP_SPLIT_READ_BASE)];
            if self.with_anc {
                r.push(read_12(CMD_LONG_TAP_SPLIT_READ_ANC));
            }
            r
        };
        proof {
            lemma_packets_view(r@);
        }
        r
    }

    fn on_packet(&mut self, packet: &HuaweiSppPacket) -> (r: Result<Vec<PropertyUpdate>, HandlerError>) {
        Ok(self.report(packet))
    }

    fn set_property(&mut self, group: &str, prop: &str, value: &str) -> (r: Result<
        (Vec<HuaweiSppPacket>, Vec<PropertyUpdate>),
        HandlerError,
    >) {
        let r = self.request(prop, value);
        proof {
            if let Ok((p, u)) = &r {
                lemma_packets_view(p@);
                if u@.len() == 0 {
                    assert(updates_view(u@) =~= Seq::empty());
                }
            }
        }
        r
    }
}

/// The swipe module.
pub struct SwipeGestureHandler;

/// The updates of a swipe report: the action from a one-byte parameter 1,
/// and the actions offered.
pub open spec fn swipe_report(param1: Seq<u8>) -> Seq<(Seq<char>, Seq<char>)> {
    byte_update("swipe_gesture"@, param1, true, |v: i8| swipe_action(v)) + seq![
        ("swipe_gesture_options"@, "tap_action_off,tap_action_change_volume"@),
    ]
}

/// The write of a swipe action: the same byte as parameters 1 and 2.
pub open spec fn is_swipe_write(p: HuaweiSppPacket, b: u8) -> bool {
    &&& p.command_id == CMD_SWIPE_WRITE
    &&& p.params() == Map::<u8, Seq<u8>>::empty().insert(1, seq![b]).insert(2, seq![b])
}

impl SwipeGestureHandler {
    pub fn report(&self, packet: &HuaweiSppPacket) -> (r: Vec<PropertyUpdate>)
        ensures
            updates_view(r@) == (if key_of(packet.command_id) == key_of(CMD_SWIPE_READ) {
                swipe_report(packet_param(packet, 1))
            } else {
                Seq::empty()
            }),
    {
        let mut out: Vec<PropertyUpdate> = Vec::new();
        if command_key(packet.command_id) != command_key(CMD_SWIPE_READ) {
            assert(updates_view(out@) =~= Seq::<(Seq<char>, Seq<char>)>::empty());
            return out;
        }
        let action = packet.find_param(1);
        if action.len() == 1 {
            out.push((text("swipe_gesture"), text(swipe_action_name(to_signed(action[0])))));
        }
        out.push((text("swipe_gesture_options"), text("tap_action_off,tap_action_change_volume")));
        assert(updates_view(out@) =~= swipe_report(action@));
        out
    }

    pub fn request(&self, value: &str) -> (r: Result<
        (Vec<HuaweiSppPacket>, Vec<PropertyUpdate>),
        HandlerError,
    >)
        ensures
            match swipe_action_of(value@) {
                None => r == Err::<(Vec<HuaweiSppPacket>, Vec<PropertyUpdate>), _>(
                    HandlerError::InvalidValue,
                ),
                Some(v) => r matches Ok((p, u)) && p@.len() == 1 && is_swipe_write(
                    p@[0],
                    unsigned(v),
                ) && updates_view(u@) == seq![("swipe_gesture"@, value@)],
            },
    {
        match swipe_action_value(value) {
            Some(v) => {
                let b = to_unsigned(v);
                let params: Vec<(u8, Vec<u8>)> = vec![(1u8, vec![b]), (2u8, vec![b])];
                let pkt = HuaweiSppPacket::write_request(CMD_SWIPE_WRITE, params.as_slice());
                proof {
                    assert(params@.drop_last().drop_last() =~= Seq::<(u8, Vec<u8>)>::empty());
                    assert(params@.drop_last().last() == params@[0]);
                    assert(params@[0].1@ =~= seq![b]);
                    assert(params@[1].1@ =~= seq![b]);
                    assert(written(params@.drop_last().drop_last()) == Map::<u8, Seq<u8>>::empty());
                    assert(params@.drop_last().len() == 1);
                    assert(written(params@.drop_last()) == Map::<u8, Seq<u8>>::empty().insert(
                        1,
                        seq![b],
                    ));
                    assert(params@.last() == params@[1]);
                    assert(written(params@) == written(params@.drop_last()).insert(2, seq![b]));
                    assert(pkt.params() == Map::<u8, Seq<u8>>::empty().insert(1, seq![b]).insert(
                        2,
                        seq![b],
                    ));
                }
                let updates = vec![(text("swipe_gesture"), text(value))];
                assert(updates_view(updates@) =~= seq![("swipe_gesture"@, value@)]);
                Ok((vec![pkt], updates))
            },
            None => Err(HandlerError::InvalidValue),
        }
    }
}

impl DeviceHandler for SwipeGestureHandler {
    open spec fn name(&self) -> Seq<char> {
        "gesture_swipe"@
    }

    open spec fn group(&self) -> Seq<char> {
        "action"@
    }

    open spec fn command_keys(&self) -> Seq<u16> {
        seq![key_of(CMD_SWIPE_READ), key_of(CMD_SWIPE_WRITE)]
    }

    open spec fn ignored_keys(&self) -> Seq<u16> {
        Seq::empty()
    }

    open spec fn init_requests(&self) -> Seq<PacketView> {
        seq![read_12_view(CMD_SWIPE_READ)]
    }

    open spec fn packet_result(&self, packet: HuaweiSppPacket) -> Result<Seq<(Seq<char>, Seq<char>)>, HandlerError> {
        Ok(
            if key_of(packet.command_id) == key_of(CMD_SWIPE_READ) {
                swipe_report(packet_param(&packet, 1))
            } else {
                Seq::empty()
            },
        )
    }

    open spec fn set_result(&self, group: &str, prop: &str, value: &str) -> Result<(Seq<PacketView>, Seq<(Seq<char>, Seq<char>)>), HandlerError> {
        match swipe_action_of(value@) {
            None => Err(HandlerError::InvalidValue),
            Some(v) => Ok(
                (
                    seq![
                        (
                            CMD_SWIPE_WRITE@,
                            Map::<u8, Seq<u8>>::empty().insert(1, seq![unsigned(v)]).insert(
                                2,
                                seq![unsigned(v)],
                            ),
                        ),
                    ],
                    seq![("swipe_gesture"@, value@)],
                ),
            ),
        }
    }

    fn handler_id(&self) -> (r: &'static str) {
        "gesture_swipe"
    }

    fn property_group(&self) -> (r: &'static str) {
        "action"
    }

    fn commands(&self) -> (r: Vec<CommandId>) {
        let r = vec![CMD_SWIPE_READ, CMD_SWIPE_WRITE];
        assert(keys_of(r@) =~= self.command_keys());
        r
    }

    fn ignore_commands(&self) -> (r: Vec<CommandId>) {
        let r: Vec<CommandId> = Vec::new();
        assert(keys_of(r@) =~= self.ignored_keys());
        r
    }

    fn on_init(&mut self) -> (r: Vec<HuaweiSppPacket>) {
        let r = vec![read_12(CMD_SWIPE_READ)];
        proof {
            lemma_packets_view(r@);
        }
        r
    }

    fn on_packet(&mut self, packet: &HuaweiSppPacket) -> (r: Result<Vec<PropertyUpdate>, HandlerError>) {
        Ok(self.report(packet))
    }

    fn set_property(&mut self, group: &str, prop: &str, value: &str) -> (r: Result<
        (Vec<HuaweiSppPacket>, Vec<PropertyUpdate>),
        HandlerError,
    >) {
        let r = self.request(value);
        proof {
            if let Ok((p, u)) = &r {
                lemma_packets_view(p@);
                if u@.len() == 0 {
                    assert(updates_view(u@) =~= Seq::empty());
                }
            }
        }
        r
    }
}

} // verus!
