//! Noise control of the primary protocol's devices: the mode (normal,
//! cancellation, awareness) and, where the device has them, the level
//! within cancellation or awareness.

use vstd::prelude::*;

use crate::commands::{CMD_ANC_LEGACY_NOTIFY, CMD_ANC_READ, CMD_ANC_WRITE, CommandId};
use crate::handler::{
    lemma_packets_view, report_view, request_view,
    keys_of, key_of, packet_param, packet_view, packets_view, str_eq, updates_view, DeviceHandler,
    HandlerError, PacketView, PropertyUpdate,
};
use crate::packet::{written, HuaweiSppPacket};
use crate::text::{join_comma, joined, text, views_of};

verus! {

/// The noise-control mode.
#[derive(Debug, Clone, Copy, PartialEq, Eq, Structural)]
pub enum AncMode {
    Normal,
    Cancellation,
    Awareness,
}

impl AncMode {
    /// The byte that stands for the mode.
    pub open spec fn byte(self) -> u8 {
        match self {
            AncMode::Normal => 0,
            AncMode::Cancellation => 1,
            AncMode::Awareness => 2,
        }
    }

    /// The name of the mode.
    pub open spec fn name(self) -> Seq<char> {
        match self {
            AncMode::Normal => "normal"@,
            AncMode::Cancellation => "cancellation"@,
            AncMode::Awareness => "awareness"@,
        }
    }

    /// The mode a byte stands for.
    pub fn from_byte(b: u8) -> (r: Option<Self>)
        ensures
            match r {
                Some(m) => m.byte() == b,
                None => b > 2,
            },
    {
        match b {
            0 => Some(AncMode::Normal),
            1 => Some(AncMode::Cancellation),
            2 => Some(AncMode::Awareness),
            _ => None,
        }
    }

    /// The byte that stands for the mode.
    pub fn to_byte(&self) -> (r: u8)
        ensures
            r == self.byte(),
    {
        match self {
            AncMode::Normal => 0,
            AncMode::Cancellation => 1,
            AncMode::Awareness => 2,
        }
    }

    /// The name of the mode.
    pub fn as_str(&self) -> (r: &'static str)
        ensures
            r@ == self.name(),
    {
        match self {
            AncMode::Normal => "normal",
            AncMode::Cancellation => "cancellation",
            AncMode::Awareness => "awareness",
        }
    }

    /// The mode of a name.
    pub fn from_str(s: &str) -> (r: Option<Self>)
        ensures
            match r {
                Some(m) => m.name() == s@,
                None => forall|m: AncMode| m.name() != s@,
            },
    {
        if str_eq(s, "normal") {
            Some(AncMode::Normal)
        } else if str_eq(s, "cancellation") {
            Some(AncMode::Cancellation)
        } else if str_eq(s, "awareness") {
            Some(AncMode::Awareness)
        } else {
            None
        }
    }
}

/// The level within noise cancellation.
#[derive(Debug, Clone, Copy, PartialEq, Eq, Structural)]
pub enum CancelLevel {
    Normal,
    Comfort,
    Ultra,
    Dynamic,
}

impl CancelLevel {
    /// The byte that stands for the level.
    pub open spec fn byte(self) -> u8 {
        match self {
            CancelLevel::Normal => 0,
            CancelLevel::Comfort => 1,
            CancelLevel::Ultra => 2,
            CancelLevel::Dynamic => 3,
        }
    }

    /// The name of the level.
    pub open spec fn name(self) -> Seq<char> {
        match self {
            CancelLevel::Normal => "normal"@,
            CancelLevel::Comfort => "comfort"@,
            CancelLevel::Ultra => "ultra"@,
            CancelLevel::Dynamic => "dynamic"@,
        }
    }

    /// The level a byte stands for.
    pub fn from_byte(b: u8) -> (r: Option<Self>)
        ensures
            match r {
                Some(l) => l.byte() == b,
                None => b > 3,
            },
    {
        match b {
            0 => Some(CancelLevel::Normal),
            1 => Some(CancelLevel::Comfort),
            2 => Some(CancelLevel::Ultra),
            3 => Some(CancelLevel::Dynamic),
            _ => None,
        }
    }

    /// The byte that stands for the level.
    pub fn to_byte(&self) -> (r: u8)
        ensures
            r == self.byte(),
    {
        match self {
            CancelLevel::Normal => 0,
            CancelLevel::Comfort => 1,
            CancelLevel::Ultra => 2,
            CancelLevel::Dynamic => 3,
        }
    }

    /// The name of the level.
    pub fn as_str(&self) -> (r: &'static str)
        ensures
            r@ == self.name(),
    {
        match self {
            CancelLevel::Normal => "normal",
            CancelLevel::Comfort => "comfort",
            CancelLevel::Ultra => "ultra",
            CancelLevel::Dynamic => "dynamic",
        }
    }

    /// The level of a name.
    pub fn from_str(s: &str) -> (r: Option<Self>)
        ensures
            match r {
                Some(l) => l.name() == s@,
                None => forall|l: CancelLevel| l.name() != s@,
            },
    {
        if str_eq(s, "normal") {
            Some(CancelLevel::Normal)
        } else if str_eq(s, "comfort") {
            Some(CancelLevel::Comfort)
        } else if str_eq(s, "ultra") {
            Some(CancelLevel::Ultra)
        } else if str_eq(s, "dynamic") {
            Some(CancelLevel::Dynamic)
        } else {
            None
        }
    }
}

/// The level within awareness.
#[derive(Debug, Clone, Copy, PartialEq, Eq, Structural)]
pub enum AwarenessLevel {
    VoiceBoost,
    Normal,
}

impl AwarenessLevel {
    /// The byte that stands for the level.
    pub open spec fn byte(self) -> u8 {
        match self {
            AwarenessLevel::VoiceBoost => 1,
            AwarenessLevel::Normal => 2,
        }
    }

    /// The name of the level.
    pub open spec fn name(self) -> Seq<char> {
        match self {
            AwarenessLevel::VoiceBoost => "voice_boost"@,
            AwarenessLevel::Normal => "normal"@,
        }
    }

    /// The byte that stands for the level.
    pub fn to_byte(&self) -> (r: u8)
        ensures
            r == self.byte(),
    {
        match self {
            AwarenessLevel::VoiceBoost => 1,
            AwarenessLevel::Normal => 2,
        }
    }

    /// The name of the level.
    pub fn as_str(&self) -> (r: &'static str)
        ensures
            r@ == self.name(),
    {
        match self {
            AwarenessLevel::VoiceBoost => "voice_boost",
            AwarenessLevel::Normal => "normal",
        }
    }

    /// The level of a name.
    pub fn from_str(s: &str) -> (r: Option<Self>)
        ensures
            match r {
                Some(l) => l.name() == s@,
                None => forall|l: AwarenessLevel| l.name() != s@,
            },
    {
        if str_eq(s, "voice_boost") {
            Some(AwarenessLevel::VoiceBoost)
        } else if str_eq(s, "normal") {
            Some(AwarenessLevel::Normal)
        } else {
            None
        }
    }
}

proof fn lemma_names_distinct()
    ensures
        forall|a: AncMode, b: AncMode| a.name() == b.name() ==> a == b,
        forall|a: CancelLevel, b: CancelLevel| a.name() == b.name() ==> a == b,
        forall|a: AwarenessLevel, b: AwarenessLevel| a.name() == b.name() ==> a == b,
{
    reveal_strlit("normal");
    reveal_strlit("cancellation");
    reveal_strlit("awareness");
    reveal_strlit("comfort");
    reveal_strlit("ultra");
    reveal_strlit("dynamic");
    reveal_strlit("voice_boost");
    assert("normal"@.len() == 6);
    assert("cancellation"@.len() == 12);
    assert("awareness"@.len() == 9);
    assert("comfort"@.len() == 7);
    assert("ultra"@.len() == 5);
    assert("dynamic"@.len() == 7);
    assert("comfort"@[0] != "dynamic"@[0]);
    assert("comfort"@ != "dynamic"@);
}

/// The name of the mode a byte stands for, or "unknown".
pub open spec fn mode_name_of(b: u8) -> Seq<char> {
    if b == 0 {
        "normal"@
    } else if b == 1 {
        "cancellation"@
    } else if b == 2 {
        "awareness"@
    } else {
        "unknown"@
    }
}

/// The name of the cancellation level a byte stands for, or "unknown".
pub open spec fn cancel_name_of(b: u8) -> Seq<char> {
    if b == 0 {
        "normal"@
    } else if b == 1 {
        "comfort"@
    } else if b == 2 {
        "ultra"@
    } else if b == 3 {
        "dynamic"@
    } else {
        "unknown"@
    }
}

/// The name of the awareness level a byte stands for, or "unknown".
pub open spec fn awareness_name_of(b: u8) -> Seq<char> {
    if b == 1 {
        "voice_boost"@
    } else if b == 2 {
        "normal"@
    } else {
        "unknown"@
    }
}

/// The modes offered.
pub open spec fn mode_options_spec() -> Seq<Seq<char>> {
    seq!["normal"@, "cancellation"@, "awareness"@]
}

/// The cancellation levels offered, with "dynamic" where the device has it.
pub open spec fn cancel_options_spec(dynamic: bool) -> Seq<Seq<char>> {
    if dynamic {
        seq!["comfort"@, "normal"@, "ultra"@, "dynamic"@]
    } else {
        seq!["comfort"@, "normal"@, "ultra"@]
    }
}

/// The awareness levels offered.
pub open spec fn awareness_options_spec() -> Seq<Seq<char>> {
    seq!["voice_boost"@, "normal"@]
}

/// The noise-control module.
pub struct AncHandler {
    with_cancel_levels: bool,
    with_cancel_dynamic: bool,
    with_voice_boost: bool,
    active_mode: u8,
}

/// The property updates that a state report brings: none unless parameter
/// 1 holds a level byte and a mode byte; then the mode and the modes
/// offered, and the level and the levels offered where the mode has levels
/// on this device.
pub open spec fn anc_report(h: AncHandler, data: Seq<u8>) -> Seq<(Seq<char>, Seq<char>)> {
    if data.len() != 2 {
        Seq::empty()
    } else {
        let level = data[0];
        let mode = data[1];
        let base = seq![
            ("mode"@, mode_name_of(mode)),
            ("mode_options"@, joined(mode_options_spec())),
        ];
        if mode == 1 && h.levels() {
            base + seq![
                ("level"@, cancel_name_of(level)),
                ("level_options"@, joined(cancel_options_spec(h.dynamic()))),
            ]
        } else if mode == 2 && h.voice_boost() {
            base + seq![
                ("level"@, awareness_name_of(level)),
                ("level_options"@, joined(awareness_options_spec())),
            ]
        } else {
            base
        }
    }
}

/// The two bytes of a noise-control write, or `None` when the value is not
/// one the property takes: for "mode", the mode byte and a level byte (0
/// for normal, 0xFF otherwise); for any other property, the active mode and
/// the level byte, a cancellation level unless awareness is active.
pub open spec fn anc_write(active_mode: u8, prop: Seq<char>, value: Seq<char>) -> Option<Seq<u8>> {
    if prop == "mode"@ {
        if exists|m: AncMode| m.name() == value {
            let m = choose|m: AncMode| m.name() == value;
            Some(seq![m.byte(), if m.byte() == 0 { 0x00u8 } else { 0xFFu8 }])
        } else {
            None
        }
    } else if active_mode != 2 {
        if exists|l: CancelLevel| l.name() == value {
            let l = choose|l: CancelLevel| l.name() == value;
            Some(seq![active_mode, l.byte()])
        } else {
            None
        }
    } else {
        if exists|l: AwarenessLevel| l.name() == value {
            let l = choose|l: AwarenessLevel| l.name() == value;
            Some(seq![active_mode, l.byte()])
        } else {
            None
        }
    }
}

/// The request for the noise-control state: parameters 1 and 2.
pub open spec fn is_anc_read(p: HuaweiSppPacket) -> bool {
    &&& p.command_id == CMD_ANC_READ
    &&& p.params() == Map::new(|t: u8| t == 1 || t == 2, |t: u8| Seq::<u8>::empty())
}

/// The view of the request for the noise-control state.
pub open spec fn anc_read_view() -> PacketView {
    (CMD_ANC_READ@, Map::new(|t: u8| t == 1 || t == 2, |t: u8| Seq::<u8>::empty()))
}

/// The read request for the noise-control state.
fn anc_read_request() -> (r: HuaweiSppPacket)
    ensures
        is_anc_read(r),
{
    let tags: Vec<u8> = vec![1u8, 2u8];
    let r = HuaweiSppPacket::read_request(CMD_ANC_READ, tags.as_slice());
    assert(r.params() =~= Map::new(|t: u8| t == 1 || t == 2, |t: u8| Seq::<u8>::empty())) by {
        assert(tags@.contains(1u8) && tags@.contains(2u8)) by {
            assert(tags@[0] == 1u8 && tags@[1] == 2u8);
        }
    }
    r
}

impl AncHandler {
    pub closed spec fn levels(&self) -> bool {
        self.with_cancel_levels
    }

    pub closed spec fn dynamic(&self) -> bool {
        self.with_cancel_dynamic
    }

    pub closed spec fn voice_boost(&self) -> bool {
        self.with_voice_boost
    }

    /// The mode last reported by the device.
    pub closed spec fn active(&self) -> u8 {
        self.active_mode
    }

    /// A module for a device with or without cancellation levels, the
    /// dynamic level, and the voice-boost awareness level.
    pub fn new(with_cancel_levels: bool, with_cancel_dynamic: bool, with_voice_boost: bool) -> (r: Self)
        ensures
            r.levels() == with_cancel_levels,
            r.dynamic() == with_cancel_dynamic,
            r.voice_boost() == with_voice_boost,
            r.active() == 0,
    {
        AncHandler { with_cancel_levels, with_cancel_dynamic, with_voice_boost, active_mode: 0 }
    }

    /// The modes offered.
    pub fn mode_options(&self) -> (r: Vec<&'static str>)
        ensures
            views_of(r@) == mode_options_spec(),
    {
        let r = vec!["normal", "cancellation", "awareness"];
        assert(views_of(r@) =~= mode_options_spec());
        r
    }

    /// The cancellation levels offered.
    pub fn cancel_level_options(&self) -> (r: Vec<&'static str>)
        ensures
            views_of(r@) == cancel_options_spec(self.dynamic()),
    {
        let mut opts = vec!["comfort", "normal", "ultra"];
        if self.with_cancel_dynamic {
            opts.push("dynamic");
        }
        assert(views_of(opts@) =~= cancel_options_spec(self.with_cancel_dynamic));
        opts
    }

    /// The awareness levels offered.
    pub fn awareness_level_options(&self) -> (r: Vec<&'static str>)
        ensures
            views_of(r@) == awareness_options_spec(),
    {
        let r = vec!["voice_boost", "normal"];
        assert(views_of(r@) =~= awareness_options_spec());
        r
    }

    /// Reads a state report: remembers the active mode and gives the
    /// property updates of the report.
    pub fn report(&mut self, packet: &HuaweiSppPacket) -> (r: Vec<PropertyUpdate>)
        ensures
            updates_view(r@) == anc_report(*old(self), packet_param(packet, 1)),
            final(self).levels() == old(self).levels(),
            final(self).dynamic() == old(self).dynamic(),
            final(self).voice_boost() == old(self).voice_boost(),
            final(self).active() == (if packet_param(packet, 1).len() == 2 {
                packet_param(packet, 1)[1]
            } else {
                old(self).active()
            }),
    {
        let data = packet.find_param(1);
        let mut out: Vec<PropertyUpdate> = Vec::new();
        if data.len() != 2 {
            assert(updates_view(out@) =~= anc_report(*old(self), data@));
            return out;
        }
        let level_byte = data[0];
        let mode_byte = data[1];
        self.active_mode = mode_byte;
        let mode = match AncMode::from_byte(mode_byte) {
            Some(m) => m.as_str(),
            None => "unknown",
        };
        out.push((text("mode"), text(mode)));
        out.push((text("mode_options"), join_comma(&self.mode_options())));
        if mode_byte == 1 && self.with_cancel_levels {
            let level = match CancelLevel::from_byte(level_byte) {
                Some(l) => l.as_str(),
                None => "unknown",
            };
            out.push((text("level"), text(level)));
            out.push((text("level_options"), join_comma(&self.cancel_level_options())));
        } else if mode_byte == 2 && self.with_voice_boost {
            let level = if level_byte == 1 {
                "voice_boost"
            } else if level_byte == 2 {
                "normal"
            } else {
                "unknown"
            };
            out.push((text("level"), text(level)));
            out.push((text("level_options"), join_comma(&self.awareness_level_options())));
        }
        assert(updates_view(out@) =~= anc_report(*old(self), data@));
        out
    }

    /// The packets that carry out a property request: the write, then a read
    /// of the new state.
    pub fn request(&self, prop: &str, value: &str) -> (r: Result<Vec<HuaweiSppPacket>, HandlerError>)
        ensures
            match anc_write(self.active(), prop@, value@) {
                Some(data) => r matches Ok(pkts) && pkts@.len() == 2 && pkts@[0].command_id
                    == CMD_ANC_WRITE && pkts@[0].params() == Map::<u8, Seq<u8>>::empty().insert(
                    1,
                    data,
                ) && is_anc_read(pkts@[1]),
                None => r == Err::<Vec<HuaweiSppPacket>, _>(HandlerError::InvalidValue),
            },
    {
        proof { lemma_names_distinct(); }
        let data: Vec<u8> = if str_eq(prop, "mode") {
            match AncMode::from_str(value) {
                Some(m) => {
                    let b = m.to_byte();
                    proof {
                        assert(forall|x: AncMode| x.name() == value@ ==> x == m);
                    }
                    vec![b, if b == 0 { 0x00 } else { 0xFF }]
                },
                None => return Err(HandlerError::InvalidValue),
            }
        } else if self.active_mode != 2 {
            match CancelLevel::from_str(value) {
                Some(l) => {
                    proof {
                        assert(forall|x: CancelLevel| x.name() == value@ ==> x == l);
                    }
                    vec![self.active_mode, l.to_byte()]
                },
                None => return Err(HandlerError::InvalidValue),
            }
        } else {
            match AwarenessLevel::from_str(value) {
                Some(l) => {
                    proof {
                        assert(forall|x: AwarenessLevel| x.name() == value@ ==> x == l);
                    }
                    vec![self.active_mode, l.to_byte()]
                },
                None => return Err(HandlerError::InvalidValue),
            }
        };
        let ghost d = data@;
        assert(anc_write(self.active_mode, prop@, value@) == Some(d));
        let params: Vec<(u8, Vec<u8>)> = vec![(1u8, data)];
        let write = HuaweiSppPacket::write_request(CMD_ANC_WRITE, params.as_slice());
        assert(params@.drop_last() =~= Seq::<(u8, Vec<u8>)>::empty());
        assert(params@.last().0 == 1u8 && params@.last().1@ == d);
        assert(written(params@) == written(params@.drop_last()).insert(1u8, d));
        assert(written(params@.drop_last()) == Map::<u8, Seq<u8>>::empty());
        assert(write.params() == Map::<u8, Seq<u8>>::empty().insert(1, d));
        let read = anc_read_request();
        Ok(vec![write, read])
    }
}

impl DeviceHandler for AncHandler {
    open spec fn name(&self) -> Seq<char> {
        "anc"@
    }

    open spec fn group(&self) -> Seq<char> {
        "anc"@
    }

    open spec fn command_keys(&self) -> Seq<u16> {
        seq![key_of(CMD_ANC_READ)]
    }

    open spec fn ignored_keys(&self) -> Seq<u16> {
        seq![key_of(CMD_ANC_WRITE)]
    }

    open spec fn init_requests(&self) -> Seq<PacketView> {
        seq![anc_read_view()]
    }

    open spec fn packet_result(&self, packet: HuaweiSppPacket) -> Result<Seq<(Seq<char>, Seq<char>)>, HandlerError> {
        Ok(anc_report(*self, packet_param(&packet, 1)))
    }

    open spec fn set_result(&self, group: &str, prop: &str, value: &str) -> Result<(Seq<PacketView>, Seq<(Seq<char>, Seq<char>)>), HandlerError> {
        match anc_write(self.active(), prop@, value@) {
            Some(data) => Ok(
                (
                    seq![(CMD_ANC_WRITE@, Map::<u8, Seq<u8>>::empty().insert(1, data)), anc_read_view()],
                    Seq::empty(),
                ),
            ),
            None => Err(HandlerError::InvalidValue),
        }
    }

    fn handler_id(&self) -> (r: &'static str) {
        "anc"
    }

    fn property_group(&self) -> (r: &'static str) {
        "anc"
    }

    fn commands(&self) -> (r: Vec<CommandId>) {
        let r = vec![CMD_ANC_READ];
        assert(keys_of(r@) =~= self.command_keys());
        r
    }

    fn ignore_commands(&self) -> (r: Vec<CommandId>) {
        let r = vec![CMD_ANC_WRITE];
        assert(keys_of(r@) =~= self.ignored_keys());
        r
    }

    fn on_init(&mut self) -> (r: Vec<HuaweiSppPacket>) {
        let r = vec![anc_read_request()];
        proof {
            lemma_packets_view(r@);
        }
        r
    }

    fn on_packet(&mut self, packet: &HuaweiSppPacket) -> (r: Result<Vec<PropertyUpdate>, HandlerError>) {
        Ok(self.report(packet))
    }

    fn set_property(&mut self, group: &str, prop: &str, value: &str) -> (r: Result<
        (Vec<HuaweiSppPacket>, Vec<PropertyUpdate>),
        HandlerError,
    >) {
        let r = match self.request(prop, value) {
            Ok(pkts) => Ok((pkts, Vec::new())),
            Err(e) => Err(e),
        };
        proof {
            if let Ok((p, u)) = &r {
                lemma_packets_view(p@);
                assert(updates_view(u@) =~= Seq::empty());
            }
        }
        r
    }
}

/// Notices of a noise-control change made on the device; the state itself
/// comes with the next report.
pub struct AncLegacyChangeHandler;

impl DeviceHandler for AncLegacyChangeHandler {
    open spec fn name(&self) -> Seq<char> {
        "anc_change"@
    }

    open spec fn group(&self) -> Seq<char> {
        "anc_change"@
    }

    open spec fn command_keys(&self) -> Seq<u16> {
        seq![key_of(CMD_ANC_LEGACY_NOTIFY)]
    }

    open spec fn ignored_keys(&self) -> Seq<u16> {
        Seq::empty()
    }

    open spec fn init_requests(&self) -> Seq<PacketView> {
        Seq::empty()
    }

    open spec fn packet_result(&self, packet: HuaweiSppPacket) -> Result<Seq<(Seq<char>, Seq<char>)>, HandlerError> {
        Ok(Seq::empty())
    }

    open spec fn set_result(&self, group: &str, prop: &str, value: &str) -> Result<(Seq<PacketView>, Seq<(Seq<char>, Seq<char>)>), HandlerError> {
        Ok((Seq::empty(), Seq::empty()))
    }

    fn handler_id(&self) -> (r: &'static str) {
        "anc_change"
    }

    fn property_group(&self) -> (r: &'static str) {
        "anc_change"
    }

    fn commands(&self) -> (r: Vec<CommandId>) {
        let r = vec![CMD_ANC_LEGACY_NOTIFY];
        assert(keys_of(r@) =~= self.command_keys());
        r
    }

    fn ignore_commands(&self) -> (r: Vec<CommandId>) {
        let r: Vec<CommandId> = Vec::new();
        assert(keys_of(r@) =~= self.ignored_keys());
        r
    }

    fn on_init(&mut self) -> (r: Vec<HuaweiSppPacket>) {
        let r: Vec<HuaweiSppPacket> = Vec::new();
        proof {
            lemma_packets_view(r@);
        }
        r
    }

    fn on_packet(&mut self, packet: &HuaweiSppPacket) -> (r: Result<Vec<PropertyUpdate>, HandlerError>) {
        let u: Vec<PropertyUpdate> = Vec::new();
        assert(updates_view(u@) =~= Seq::empty());
        Ok(u)
    }

    fn set_property(&mut self, group: &str, prop: &str, value: &str) -> (r: Result<
        (Vec<HuaweiSppPacket>, Vec<PropertyUpdate>),
        HandlerError,
    >) {
        let p: Vec<HuaweiSppPacket> = Vec::new();
        let u: Vec<PropertyUpdate> = Vec::new();
        proof {
            lemma_packets_view(p@);
            assert(updates_view(u@) =~= Seq::empty());
        }
        Ok((p, u))
    }
}

} // verus!
