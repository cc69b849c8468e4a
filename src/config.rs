//! Settings of the primary protocol's devices: pause on removal of a bud,
//! low-latency mode, and the sound quality preference.

use vstd::prelude::*;

use crate::handler::{
    lemma_packets_view, packet_param, packet_view, packets_view, report_view, request_view,
    updates_view, PacketView,
};

use crate::commands::{
    CMD_AUTO_PAUSE_READ, CMD_AUTO_PAUSE_WRITE, CMD_LOW_LATENCY, CMD_SOUND_QUALITY_READ,
    CMD_SOUND_QUALITY_WRITE, CommandId,
};
use crate::handler::{keys_of, key_of, str_eq, DeviceHandler, HandlerError, PropertyUpdate};
use crate::packet::{written, HuaweiSppPacket};
use crate::text::{bool_name, bool_text, text};

verus! {

/// A packet with one parameter.
pub open spec fn is_single(p: HuaweiSppPacket, cmd: CommandId, tag: u8, value: Seq<u8>) -> bool {
    &&& p.command_id == cmd
    &&& p.params() == Map::<u8, Seq<u8>>::empty().insert(tag, value)
}

/// The view of a packet with one parameter.
pub open spec fn single_view(cmd: CommandId, tag: u8, value: Seq<u8>) -> PacketView {
    (cmd@, Map::<u8, Seq<u8>>::empty().insert(tag, value))
}

/// A write request of one one-byte parameter.
pub(crate) fn write_byte(cmd: CommandId, tag: u8, value: u8) -> (r: HuaweiSppPacket)
    ensures
        is_single(r, cmd, tag, seq![value]),
{
    let v = vec![value];
    let ghost vv = v@;
    let params: Vec<(u8, Vec<u8>)> = vec![(tag, v)];
    let r = HuaweiSppPacket::write_request(cmd, params.as_slice());
    assert(params@.drop_last() =~= Seq::<(u8, Vec<u8>)>::empty());
    assert(written(params@.drop_last()) == Map::<u8, Seq<u8>>::empty());
    assert(vv =~= seq![value]);
    r
}

/// A read request of one parameter.
pub(crate) fn read_one(cmd: CommandId, tag: u8) -> (r: HuaweiSppPacket)
    ensures
        is_single(r, cmd, tag, Seq::empty()),
{
    let tags: Vec<u8> = vec![tag];
    let r = HuaweiSppPacket::read_request(cmd, tags.as_slice());
    assert(r.params() =~= Map::<u8, Seq<u8>>::empty().insert(tag, Seq::empty())) by {
        assert(tags@[0] == tag);
        assert forall|t: u8| tags@.contains(t) <==> t == tag by {
            if tags@.contains(t) {
                let i = choose|i: int| 0 <= i < tags@.len() && tags@[i] == t;
            }
        }
    }
    r
}

/// The byte of a switch: 1 for "true", 0 for anything else.
pub open spec fn switch_byte(value: Seq<char>) -> u8 {
    if value == "true"@ {
        1
    } else {
        0
    }
}

fn switch_value(value: &str) -> (r: u8)
    ensures
        r == switch_byte(value@),
{
    if str_eq(value, "true") {
        1
    } else {
        0
    }
}

/// Pause on removal of a bud.
pub struct AutoPauseHandler;

/// The update of a pause-on-removal report: whether it is on, from a
/// one-byte parameter 1.
pub open spec fn auto_pause_report(param1: Seq<u8>) -> Seq<(Seq<char>, Seq<char>)> {
    if param1.len() == 1 {
        seq![("auto_pause"@, bool_name(param1[0] == 1))]
    } else {
        Seq::empty()
    }
}

impl AutoPauseHandler {
    pub fn report(&self, packet: &HuaweiSppPacket) -> (r: Vec<PropertyUpdate>)
        ensures
            updates_view(r@) == auto_pause_report(packet_param(packet, 1)),
    {
        let data = packet.find_param(1);
        let mut out: Vec<PropertyUpdate> = Vec::new();
        if data.len() == 1 {
            out.push((text("auto_pause"), bool_text(data[0] == 1)));
        }
        assert(updates_view(out@) =~= auto_pause_report(data@));
        out
    }

    /// A request writes the switch and records the requested value at once,
    /// as the device sends no report of the change.
    pub fn request(&self, prop: &str, value: &str) -> (r: (Vec<HuaweiSppPacket>, Vec<PropertyUpdate>))
        ensures
            r.0@.len() == 1,
            is_single(r.0@[0], CMD_AUTO_PAUSE_WRITE, 1, seq![switch_byte(value@)]),
            updates_view(r.1@) == seq![(prop@, value@)],
    {
        let pkt = write_byte(CMD_AUTO_PAUSE_WRITE, 1, switch_value(value));
        let updates = vec![(text(prop), text(value))];
        assert(updates_view(updates@) =~= seq![(prop@, value@)]);
        (vec![pkt], updates)
    }
}

impl DeviceHandler for AutoPauseHandler {
    open spec fn name(&self) -> Seq<char> {
        "tws_auto_pause"@
    }

    open spec fn group(&self) -> Seq<char> {
        "config"@
    }

    open spec fn command_keys(&self) -> Seq<u16> {
        seq![key_of(CMD_AUTO_PAUSE_READ), key_of(CMD_AUTO_PAUSE_WRITE)]
    }

    open spec fn ignored_keys(&self) -> Seq<u16> {
        Seq::empty()
    }

    open spec fn init_requests(&self) -> Seq<PacketView> {
        seq![single_view(CMD_AUTO_PAUSE_READ, 1, Seq::empty())]
    }

    open spec fn packet_result(&self, packet: HuaweiSppPacket) -> Result<Seq<(Seq<char>, Seq<char>)>, HandlerError> {
        Ok(auto_pause_report(packet_param(&packet, 1)))
    }

    open spec fn set_result(&self, group: &str, prop: &str, value: &str) -> Result<(Seq<PacketView>, Seq<(Seq<char>, Seq<char>)>), HandlerError> {
        Ok((seq![single_view(CMD_AUTO_PAUSE_WRITE, 1, seq![switch_byte(value@)])], seq![(prop@, value@)]))
    }

    fn handler_id(&self) -> (r: &'static str) {
        "tws_auto_pause"
    }

    fn property_group(&self) -> (r: &'static str) {
        "config"
    }

    fn commands(&self) -> (r: Vec<CommandId>) {
        let r = vec![CMD_AUTO_PAUSE_READ, CMD_AUTO_PAUSE_WRITE];
        assert(keys_of(r@) =~= self.command_keys());
        r
    }

    fn ignore_commands(&self) -> (r: Vec<CommandId>) {
        let r: Vec<CommandId> = Vec::new();
        assert(keys_of(r@) =~= self.ignored_keys());
        r
    }

    fn on_init(&mut self) -> (r: Vec<HuaweiSppPacket>) {
        let r = vec![read_one(CMD_AUTO_PAUSE_READ, 1)];
        proof {
            lemma_packets_view(r@);
        }
        r
    }

    fn on_packet(&mut self, packet: &HuaweiSppPacket) -> (r: Result<Vec<PropertyUpdate>, HandlerError>) {
        Ok(self.report(packet))
    }

    fn set_property(&mut self, group: &str, prop: &str, value: &str) -> (r: Result<
        (Vec<HuaweiSppPacket>, Vec<PropertyUpdate>),
        HandlerError,
    >) {
        let r = Ok(self.request(prop, value));
        proof {
            if let Ok((p, u)) = &r {
                lemma_packets_view(p@);
                if u@.len() == 0 {
                    assert(updates_view(u@) =~= Seq::empty());
                }
            }
        }
        r
    }
}

/// Low-latency mode.
pub struct LowLatencyHandler;

/// The update of a low-latency report: whether it is on, from the first
/// byte of parameter 2.
pub open spec fn low_latency_report(param2: Seq<u8>) -> Seq<(Seq<char>, Seq<char>)> {
    if param2.len() > 0 {
        seq![("low_latency"@, bool_name(param2[0] == 1))]
    } else {
        Seq::empty()
    }
}

impl LowLatencyHandler {
    pub fn report(&self, packet: &HuaweiSppPacket) -> (r: Vec<PropertyUpdate>)
        ensures
            updates_view(r@) == low_latency_report(packet_param(packet, 2)),
    {
        let data = packet.find_param(2);
        let mut out: Vec<PropertyUpdate> = Vec::new();
        if data.len() > 0 {
            out.push((text("low_latency"), bool_text(data[0] == 1)));
        }
        assert(updates_view(out@) =~= low_latency_report(data@));
        out
    }

    /// A request writes the switch, whatever the property, then reads the
    /// mode back.
    pub fn request(&self, value: &str) -> (r: Vec<HuaweiSppPacket>)
        ensures
            r@.len() == 2,
            is_single(r@[0], CMD_LOW_LATENCY, 1, seq![switch_byte(value@)]),
            is_single(r@[1], CMD_LOW_LATENCY, 2, Seq::empty()),
    {
        vec![write_byte(CMD_LOW_LATENCY, 1, switch_value(value)), read_one(CMD_LOW_LATENCY, 2)]
    }
}

impl DeviceHandler for LowLatencyHandler {
    open spec fn name(&self) -> Seq<char> {
        "low_latency"@
    }

    open spec fn group(&self) -> Seq<char> {
        "config"@
    }

    open spec fn command_keys(&self) -> Seq<u16> {
        seq![key_of(CMD_LOW_LATENCY)]
    }

    open spec fn ignored_keys(&self) -> Seq<u16> {
        Seq::empty()
    }

    open spec fn init_requests(&self) -> Seq<PacketView> {
        seq![single_view(CMD_LOW_LATENCY, 2, Seq::empty())]
    }

    open spec fn packet_result(&self, packet: HuaweiSppPacket) -> Result<Seq<(Seq<char>, Seq<char>)>, HandlerError> {
        Ok(low_latency_report(packet_param(&packet, 2)))
    }

    open spec fn set_result(&self, group: &str, prop: &str, value: &str) -> Result<(Seq<PacketView>, Seq<(Seq<char>, Seq<char>)>), HandlerError> {
        Ok(
            (
                seq![
                    single_view(CMD_LOW_LATENCY, 1, seq![switch_byte(value@)]),
                    single_view(CMD_LOW_LATENCY, 2, Seq::empty()),
                ],
                Seq::empty(),
            ),
        )
    }

    fn handler_id(&self) -> (r: &'static str) {
        "low_latency"
    }

    fn property_group(&self) -> (r: &'static str) {
        "config"
    }

    fn commands(&self) -> (r: Vec<CommandId>) {
        let r = vec![CMD_LOW_LATENCY];
        assert(keys_of(r@) =~= self.command_keys());
        r
    }

    fn ignore_commands(&self) -> (r: Vec<CommandId>) {
        let r: Vec<CommandId> = Vec::new();
        assert(keys_of(r@) =~= self.ignored_keys());
        r
    }

    fn on_init(&mut self) -> (r: Vec<HuaweiSppPacket>) {
        let r = vec![read_one(CMD_LOW_LATENCY, 2)];
        proof {
            lemma_packets_view(r@);
        }
        r
    }

    fn on_packet(&mut self, packet: &HuaweiSppPacket) -> (r: Result<Vec<PropertyUpdate>, HandlerError>) {
        Ok(self.report(packet))
    }

    fn set_property(&mut self, group: &str, prop: &str, value: &str) -> (r: Result<
        (Vec<HuaweiSppPacket>, Vec<PropertyUpdate>),
        HandlerError,
    >) {
        let r = match Ok::<Vec<HuaweiSppPacket>, HandlerError>(self.request(value)) {
            Ok(pkts) => Ok((pkts, Vec::new())),
            Err(e) => Err(e),
        };
        proof {
            if let Ok((p, u)) = &r {
                lemma_packets_view(p@);
                assert(updates_view(u@) =~= Seq::empty());
            }
        }
        r
    }
}

/// The name of a sound quality preference.
pub open spec fn quality_name(v: u8) -> Seq<char> {
    if v == 0 {
        "sqp_connectivity"@
    } else if v == 1 {
        "sqp_quality"@
    } else {
        "unknown"@
    }
}

pub fn quality_pref_name(value: u8) -> (r: &'static str)
    ensures
        r@ == quality_name(value),
{
    if value == 0 {
        "sqp_connectivity"
    } else if value == 1 {
        "sqp_quality"
    } else {
        "unknown"
    }
}

/// The sound quality preference of a name.
pub open spec fn quality_of(name: Seq<char>) -> Option<u8> {
    if name == "sqp_connectivity"@ {
        Some(0)
    } else if name == "sqp_quality"@ {
        Some(1)
    } else {
        None
    }
}

pub fn quality_pref_value(name: &str) -> (r: Option<u8>)
    ensures
        r == quality_of(name@),
{
    if str_eq(name, "sqp_connectivity") {
        Some(0)
    } else if str_eq(name, "sqp_quality") {
        Some(1)
    } else {
        None
    }
}

/// The sound quality preference: connectivity or quality.
pub struct SoundQualityHandler;

/// The updates of a preference report: the preference from a one-byte
/// parameter 2, and the preferences offered.
pub open spec fn quality_report(param2: Seq<u8>) -> Seq<(Seq<char>, Seq<char>)> {
    if param2.len() == 1 {
        seq![
            ("quality_preference"@, quality_name(param2[0])),
            ("quality_preference_options"@, "sqp_connectivity,sqp_quality"@),
        ]
    } else {
        Seq::empty()
    }
}

impl SoundQualityHandler {
    pub fn report(&self, packet: &HuaweiSppPacket) -> (r: Vec<PropertyUpdate>)
        ensures
            updates_view(r@) == quality_report(packet_param(packet, 2)),
    {
        let data = packet.find_param(2);
        let mut out: Vec<PropertyUpdate> = Vec::new();
        if data.len() == 1 {
            out.push((text("quality_preference"), text(quality_pref_name(data[0]))));
            out.push((text("quality_preference_options"), text("sqp_connectivity,sqp_quality")));
        }
        assert(updates_view(out@) =~= quality_report(data@));
        out
    }

    /// A request writes the preference named by the value, whatever the
    /// property, then reads it back.
    pub fn request(&self, value: &str) -> (r: Result<Vec<HuaweiSppPacket>, HandlerError>)
        ensures
            match quality_of(value@) {
                Some(b) => r matches Ok(p) && p@.len() == 2 && is_single(
                    p@[0],
                    CMD_SOUND_QUALITY_WRITE,
                    1,
                    seq![b],
                ) && is_single(p@[1], CMD_SOUND_QUALITY_READ, 1, Seq::empty()),
                None => r == Err::<Vec<HuaweiSppPacket>, _>(HandlerError::InvalidValue),
            },
    {
        match quality_pref_value(value) {
            Some(b) => Ok(
                vec![write_byte(CMD_SOUND_QUALITY_WRITE, 1, b), read_one(CMD_SOUND_QUALITY_READ, 1)],
            ),
            None => Err(HandlerError::InvalidValue),
        }
    }
}

impl DeviceHandler for SoundQualityHandler {
    open spec fn name(&self) -> Seq<char> {
        "config_sound_quality"@
    }

    open spec fn group(&self) -> Seq<char> {
        "sound"@
    }

    open spec fn command_keys(&self) -> Seq<u16> {
        seq![key_of(CMD_SOUND_QUALITY_READ)]
    }

    open spec fn ignored_keys(&self) -> Seq<u16> {
        seq![key_of(CMD_SOUND_QUALITY_WRITE)]
    }

    open spec fn init_requests(&self) -> Seq<PacketView> {
        seq![single_view(CMD_SOUND_QUALITY_READ, 1, Seq::empty())]
    }

    open spec fn packet_result(&self, packet: HuaweiSppPacket) -> Result<Seq<(Seq<char>, Seq<char>)>, HandlerError> {
        Ok(quality_report(packet_param(&packet, 2)))
    }

    open spec fn set_result(&self, group: &str, prop: &str, value: &str) -> Result<(Seq<PacketView>, Seq<(Seq<char>, Seq<char>)>), HandlerError> {
        match quality_of(value@) {
            Some(b) => Ok(
                (
                    seq![
                        single_view(CMD_SOUND_QUALITY_WRITE, 1, seq![b]),
                        single_view(CMD_SOUND_QUALITY_READ, 1, Seq::empty()),
                    ],
                    Seq::empty(),
                ),
            ),
            None => Err(HandlerError::InvalidValue),
        }
    }

    fn handler_id(&self) -> (r: &'static str) {
        "config_sound_quality"
    }

    fn property_group(&self) -> (r: &'static str) {
        "sound"
    }

    fn commands(&self) -> (r: Vec<CommandId>) {
        let r = vec![CMD_SOUND_QUALITY_READ];
        assert(keys_of(r@) =~= self.command_keys());
        r
    }

    fn ignore_commands(&self) -> (r: Vec<CommandId>) {
        let r = vec![CMD_SOUND_QUALITY_WRITE];
        assert(keys_of(r@) =~= self.ignored_keys());
        r
    }

    fn on_init(&mut self) -> (r: Vec<HuaweiSppPacket>) {
        let r = vec![read_one(CMD_SOUND_QUALITY_READ, 1)];
        proof {
            lemma_packets_view(r@);
        }
        r
    }

    fn on_packet(&mut self, packet: &HuaweiSppPacket) -> (r: Result<Vec<PropertyUpdate>, HandlerError>) {
        Ok(self.report(packet))
    }

    fn set_property(&mut self, group: &str, prop: &str, value: &str) -> (r: Result<
        (Vec<HuaweiSppPacket>, Vec<PropertyUpdate>),
        HandlerError,
    >) {
        let r = match self.request(value) {
            Ok(pkts) => Ok((pkts, Vec::new())),
            Err(e) => Err(e),
        };
        proof {
            if let Ok((p, u)) = &r {
                lemma_packets_view(p@);
                assert(updates_view(u@) =~= Seq::empty());
            }
        }
        r
    }
}

} // verus!
