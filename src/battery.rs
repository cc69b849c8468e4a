//! Battery levels of the primary protocol's devices: the global level, the
//! levels of the left bud, the right bud and the case, and whether charging.

use vstd::prelude::*;

use crate::handler::{
    lemma_packets_view, packet_param, packet_view, packets_view, report_view, request_view,
    updates_view, PacketView,
};

use crate::commands::{CMD_BATTERY_NOTIFY, CMD_BATTERY_READ, CommandId};
use crate::handler::{keys_of, key_of, DeviceHandler, HandlerError, PropertyUpdate};
use crate::packet::HuaweiSppPacket;
use crate::text::{decimal, decimal_text, text};

verus! {

/// The battery module.
pub struct BatteryHandler {
    with_tws: bool,
}

/// The property updates of a battery report: the global level from a
/// one-byte parameter 1; the levels of the left bud, the right bud and the
/// case from a three-byte parameter 2 where the device reports them; and
/// from a non-empty parameter 3 whether any byte of it marks charging.
pub open spec fn battery_report(with_tws: bool, param1: Seq<u8>, param2: Seq<u8>, param3: Seq<u8>) -> Seq<
    (Seq<char>, Seq<char>),
> {
    let a = if param1.len() == 1 {
        seq![("global"@, decimal(param1[0]))]
    } else {
        Seq::empty()
    };
    let b = if param2.len() == 3 && with_tws {
        seq![("left"@, decimal(param2[0])), ("right"@, decimal(param2[1])), ("case"@, decimal(param2[2]))]
    } else {
        Seq::empty()
    };
    let c = if param3.len() > 0 {
        seq![("is_charging"@, if param3.contains(1u8) { "true"@ } else { "false"@ })]
    } else {
        Seq::empty()
    };
    a + b + c
}

/// Whether a byte occurs in a slice.
fn contains_byte(data: &[u8], b: u8) -> (r: bool)
    ensures
        r == data@.contains(b),
{
    let mut i: usize = 0;
    while i < data.len()
        invariant
            i <= data@.len(),
            forall|j: int| 0 <= j < i ==> data@[j] != b,
        decreases data@.len() - i,
    {
        if data[i] == b {
            assert(data@[i as int] == b);
            return true;
        }
        i += 1;
    }
    false
}

impl BatteryHandler {
    /// Whether the device reports the levels of each bud and the case.
    pub closed spec fn tws(&self) -> bool {
        self.with_tws
    }

    pub fn new(with_tws: bool) -> (r: Self)
        ensures
            r.tws() == with_tws,
    {
        BatteryHandler { with_tws }
    }

    /// The property updates of a battery report.
    pub fn report(&self, packet: &HuaweiSppPacket) -> (r: Vec<PropertyUpdate>)
        ensures
            updates_view(r@) == battery_report(
                self.tws(),
                packet_param(packet, 1),
                packet_param(packet, 2),
                packet_param(packet, 3),
            ),
    {
        let mut out: Vec<PropertyUpdate> = Vec::new();
        let global = packet.find_param(1);
        if global.len() == 1 {
            out.push((text("global"), decimal_text(global[0])));
        }
        let per_bud = packet.find_param(2);
        if per_bud.len() == 3 && self.with_tws {
            out.push((text("left"), decimal_text(per_bud[0])));
            out.push((text("right"), decimal_text(per_bud[1])));
            out.push((text("case"), decimal_text(per_bud[2])));
        }
        let charging = packet.find_param(3);
        if charging.len() > 0 {
            let v = if contains_byte(charging, 1) {
                text("true")
            } else {
                text("false")
            };
            out.push((text("is_charging"), v));
        }
        assert(updates_view(out@) =~= battery_report(self.with_tws, global@, per_bud@, charging@));
        out
    }
}

/// The request for the battery levels: parameters 1, 2 and 3.
fn battery_read_request() -> (r: HuaweiSppPacket)
    ensures
        r.command_id == CMD_BATTERY_READ,
        r.params() == Map::new(|t: u8| t == 1 || t == 2 || t == 3, |t: u8| Seq::<u8>::empty()),
{
    let tags: Vec<u8> = vec![1u8, 2u8, 3u8];
    let r = HuaweiSppPacket::read_request(CMD_BATTERY_READ, tags.as_slice());
    assert(r.params() =~= Map::new(|t: u8| t == 1 || t == 2 || t == 3, |t: u8| Seq::<u8>::empty()))
        by {
        assert(tags@[0] == 1u8 && tags@[1] == 2u8 && tags@[2] == 3u8);
        assert(tags@.contains(1u8) && tags@.contains(2u8) && tags@.contains(3u8));
    }
    r
}

/// The view of the request for the battery levels.
pub open spec fn battery_read_view() -> PacketView {
    (CMD_BATTERY_READ@, Map::new(|t: u8| t == 1 || t == 2 || t == 3, |t: u8| Seq::<u8>::empty()))
}

impl DeviceHandler for BatteryHandler {
    open spec fn name(&self) -> Seq<char> {
        "battery"@
    }

    open spec fn group(&self) -> Seq<char> {
        "battery"@
    }

    open spec fn command_keys(&self) -> Seq<u16> {
        seq![key_of(CMD_BATTERY_READ), key_of(CMD_BATTERY_NOTIFY)]
    }

    open spec fn ignored_keys(&self) -> Seq<u16> {
        Seq::empty()
    }

    open spec fn init_requests(&self) -> Seq<PacketView> {
        seq![battery_read_view()]
    }

    open spec fn packet_result(&self, packet: HuaweiSppPacket) -> Result<Seq<(Seq<char>, Seq<char>)>, HandlerError> {
        Ok(battery_report(self.tws(), packet_param(&packet, 1), packet_param(&packet, 2), packet_param(&packet, 3)))
    }

    open spec fn set_result(&self, group: &str, prop: &str, value: &str) -> Result<(Seq<PacketView>, Seq<(Seq<char>, Seq<char>)>), HandlerError> {
        Ok((Seq::empty(), Seq::empty()))
    }

    fn handler_id(&self) -> (r: &'static str) {
        "battery"
    }

    fn property_group(&self) -> (r: &'static str) {
        "battery"
    }

    fn commands(&self) -> (r: Vec<CommandId>) {
        let r = vec![CMD_BATTERY_READ, CMD_BATTERY_NOTIFY];
        assert(keys_of(r@) =~= self.command_keys());
        r
    }

    fn ignore_commands(&self) -> (r: Vec<CommandId>) {
        let r: Vec<CommandId> = Vec::new();
        assert(keys_of(r@) =~= self.ignored_keys());
        r
    }

    fn on_init(&mut self) -> (r: Vec<HuaweiSppPacket>) {
        let r = vec![battery_read_request()];
        proof {
            lemma_packets_view(r@);
        }
        r
    }

    fn on_packet(&mut self, packet: &HuaweiSppPacket) -> (r: Result<Vec<PropertyUpdate>, HandlerError>) {
        Ok(self.report(packet))
    }

    fn set_property(&mut self, group: &str, prop: &str, value: &str) -> (r: Result<
        (Vec<HuaweiSppPacket>, Vec<PropertyUpdate>),
        HandlerError,
    >) {
        let p: Vec<HuaweiSppPacket> = Vec::new();
        let u: Vec<PropertyUpdate> = Vec::new();
        proof {
            lemma_packets_view(p@);
            assert(updates_view(u@) =~= Seq::empty());
        }
        Ok((p, u))
    }
}

} // verus!
