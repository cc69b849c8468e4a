//! Device information of the primary protocol's devices: model, versions
//! and serial numbers, each a parameter of the information report.

use vstd::prelude::*;

use crate::handler::{
    lemma_packets_view, packet_param, packet_view, packets_view, report_view, request_view,
    updates_view, PacketView,
};

use crate::airpods::{utf8_lossy, utf8_text};
use crate::commands::{CMD_DEVICE_INFO, CommandId};
use crate::handler::{keys_of, key_of, str_eq, DeviceHandler, HandlerError, PropertyUpdate};
use crate::packet::HuaweiSppPacket;
use crate::text::{append_hex, decimal, decimal_text, hex_of, occurs_at, text};
use vstd::string::StringExecFns;

verus! {

broadcast use vstd::std_specs::btree::group_btree_axioms;

/// The property name of an information parameter, or nothing.
pub open spec fn descriptor(key: u8) -> Seq<char> {
    if key == 3 {
        "hardware_ver"@
    } else if key == 7 {
        "software_ver"@
    } else if key == 9 {
        "serial_number"@
    } else if key == 10 {
        "device_submodel"@
    } else if key == 15 {
        "device_model"@
    } else {
        ""@
    }
}

pub fn param_descriptor(key: u8) -> (r: &'static str)
    ensures
        r@ == descriptor(key),
{
    if key == 3 {
        "hardware_ver"
    } else if key == 7 {
        "software_ver"
    } else if key == 9 {
        "serial_number"
    } else if key == 10 {
        "device_submodel"
    } else if key == 15 {
        "device_model"
    } else {
        ""
    }
}

/// The product name of a model code, where it is known.
pub open spec fn friendly_name(code: Seq<char>) -> Option<Seq<char>> {
    if code == "BTFT0013"@ {
        Some("FreeBuds 5"@)
    } else if code == "CD-R551"@ {
        Some("FreeBuds Pro 3"@)
    } else if code == "T0003"@ {
        Some("FreeBuds Pro 2"@)
    } else if code == "T0006"@ {
        Some("FreeBuds 5i"@)
    } else if code == "T0017"@ {
        Some("FreeBuds 6i"@)
    } else if code == "T0020"@ {
        Some("FreeBuds SE 2"@)
    } else {
        None
    }
}

pub fn friendly_device_name(model_code: &str) -> (r: Option<&'static str>)
    ensures
        match r {
            Some(n) => friendly_name(model_code@) == Some(n@),
            None => friendly_name(model_code@) is None,
        },
{
    if str_eq(model_code, "BTFT0013") {
        Some("FreeBuds 5")
    } else if str_eq(model_code, "CD-R551") {
        Some("FreeBuds Pro 3")
    } else if str_eq(model_code, "T0003") {
        Some("FreeBuds Pro 2")
    } else if str_eq(model_code, "T0006") {
        Some("FreeBuds 5i")
    } else if str_eq(model_code, "T0017") {
        Some("FreeBuds 6i")
    } else if str_eq(model_code, "T0020") {
        Some("FreeBuds SE 2")
    } else {
        None
    }
}

/// What `String::from_utf8` gives for some bytes: their text when they are
/// valid UTF-8.
pub uninterp spec fn utf8_strict(b: Seq<u8>) -> Option<Seq<char>>;

/// Relies on `String::from_utf8`: the text of bytes that are valid UTF-8,
/// an error otherwise; the outcome depends on the bytes alone.
#[verifier::external_body]
pub(crate) fn utf8_decode(b: &[u8]) -> (r: Option<String>)
    ensures
        match r {
            Some(s) => utf8_strict(b@) == Some(s@),
            None => utf8_strict(b@) is None,
        },
{
    String::from_utf8(b.to_vec()).ok()
}

/// The text of an information value: the value itself when it is valid
/// UTF-8, else its bytes in hexadecimal.
pub open spec fn value_text(b: Seq<u8>) -> Seq<char> {
    match utf8_strict(b) {
        Some(s) => s,
        None => hex_of(b, false),
    }
}

/// The position of the first comma, if any.
pub open spec fn first_comma(b: Seq<u8>) -> Option<int> {
    if exists|i: int| 0 <= i < b.len() && b[i] == 0x2C {
        Some(choose|i: int| 0 <= i < b.len() && b[i] == 0x2C && forall|j: int| 0 <= j < i ==> b[j] != 0x2C)
    } else {
        None
    }
}

/// The serial numbers of the two buds in a value `L-<left>,R-<right>`:
/// each part that carries its prefix gives the serial number after it.
pub open spec fn earphone_serials(b: Seq<u8>) -> Seq<(Seq<char>, Seq<char>)> {
    match first_comma(b) {
        None => Seq::empty(),
        Some(c) => {
            let left = b.subrange(0, c);
            let right = b.subrange(c + 1, b.len() as int);
            (if occurs_at(left, seq![0x4Cu8, 0x2Du8], 0) {
                seq![("left_serial_number"@, utf8_lossy(left.subrange(2, left.len() as int)))]
            } else {
                Seq::empty()
            }) + (if occurs_at(right, seq![0x52u8, 0x2Du8], 0) {
                seq![("right_serial_number"@, utf8_lossy(right.subrange(2, right.len() as int)))]
            } else {
                Seq::empty()
            })
        },
    }
}

fn find_comma(b: &[u8]) -> (r: Option<usize>)
    ensures
        match r {
            Some(i) => i < b@.len() && first_comma(b@) == Some(i as int),
            None => first_comma(b@) is None,
        },
{
    let mut i: usize = 0;
    while i < b.len()
        invariant
            i <= b@.len(),
            forall|j: int| 0 <= j < i ==> b@[j] != 0x2C,
        decreases b@.len() - i,
    {
        if b[i] == 0x2C {
            proof {
                let f = first_comma(b@).unwrap();
                assert(f == i as int) by {
                    if f < i {
                        assert(b@[f] != 0x2C);
                    } else if f > i {
                        assert(b@[i as int] == 0x2C);
                    }
                }
            }
            return Some(i);
        }
        i += 1;
    }
    None
}

fn prefixed(b: &[u8], first: u8) -> (r: bool)
    ensures
        r == occurs_at(b@, seq![first, 0x2Du8], 0),
{
    if b.len() < 2 {
        return false;
    }
    let r = b[0] == first && b[1] == 0x2D;
    assert(r == (b@.subrange(0, 2) =~= seq![first, 0x2Du8]));
    r
}

/// The serial numbers of the two buds, from a value `L-<left>,R-<right>`.
pub fn parse_per_earphone_sn(data: &[u8]) -> (r: Vec<PropertyUpdate>)
    ensures
        updates_view(r@) == earphone_serials(data@),
{
    let mut out: Vec<PropertyUpdate> = Vec::new();
    let n = data.len();
    match find_comma(data) {
        None => {
            assert(updates_view(out@) =~= earphone_serials(data@));
        },
        Some(c) => {
            let left = vstd::slice::slice_subrange(data, 0, c);
            let right = vstd::slice::slice_subrange(data, c + 1, n);
            if prefixed(left, 0x4C) {
                let rest = vstd::slice::slice_subrange(left, 2, left.len());
                out.push((text("left_serial_number"), utf8_text(rest)));
            }
            if prefixed(right, 0x52) {
                let rest = vstd::slice::slice_subrange(right, 2, right.len());
                out.push((text("right_serial_number"), utf8_text(rest)));
            }
            assert(updates_view(out@) =~= earphone_serials(data@));
        },
    }
    out
}

/// The property name of an information parameter: its descriptor, or
/// "field_" and the tag in decimal.
pub open spec fn field_name(key: u8) -> Seq<char> {
    if descriptor(key) == ""@ {
        "field_"@ + decimal(key)
    } else {
        descriptor(key)
    }
}

/// Whether the information parameter is the pair of bud serial numbers.
pub open spec fn is_serial_pair(key: u8, b: Seq<u8>) -> bool {
    key == 24 && utf8_strict(b) is Some && occurs_at(b, seq![0x4Cu8, 0x2Du8], 0)
}

/// The updates of the parameters with a tag below `n`, in tag order.
pub open spec fn info_updates(m: Map<u8, Seq<u8>>, n: int) -> Seq<(Seq<char>, Seq<char>)>
    decreases n,
{
    if n <= 0 {
        Seq::empty()
    } else {
        let k = (n - 1) as u8;
        info_updates(m, n - 1) + if !m.contains_key(k) {
            Seq::empty()
        } else if is_serial_pair(k, m[k]) {
            earphone_serials(m[k])
        } else {
            seq![(field_name(k), value_text(m[k]))]
        }
    }
}

/// The model code of a report: the text of its parameter 15, else of its
/// parameter 10.
pub open spec fn model_code(m: Map<u8, Seq<u8>>) -> Option<Seq<char>> {
    if m.contains_key(15) {
        Some(value_text(m[15]))
    } else if m.contains_key(10) {
        Some(value_text(m[10]))
    } else {
        None
    }
}

/// The updates of an information report: each parameter in tag order,
/// then the product name where the model code is known.
pub open spec fn info_report(m: Map<u8, Seq<u8>>) -> Seq<(Seq<char>, Seq<char>)> {
    info_updates(m, 256) + match model_code(m) {
        Some(code) => match friendly_name(code) {
            Some(name) => seq![("device_name"@, name)],
            None => Seq::empty(),
        },
        None => Seq::empty(),
    }
}

/// The text of an information value.
fn value_string(b: &[u8]) -> (r: String)
    ensures
        r@ == value_text(b@),
{
    match utf8_decode(b) {
        Some(s) => s,
        None => {
            let mut s = String::new();
            append_hex(&mut s, b, false);
            s
        },
    }
}

/// The view of the request for parameters 0 to 31.
pub open spec fn info_read_view() -> PacketView {
    (CMD_DEVICE_INFO@, Map::new(|t: u8| t < 32, |t: u8| Seq::<u8>::empty()))
}

/// The information module.
pub struct InfoHandler;

impl InfoHandler {
    pub fn report(&self, packet: &HuaweiSppPacket) -> (r: Vec<PropertyUpdate>)
        ensures
            updates_view(r@) == info_report(packet.params()),
    {
        let ghost m = packet.params();
        let mut out: Vec<PropertyUpdate> = Vec::new();
        let mut model: Option<String> = None;
        let mut t: u16 = 0;
        while t < 256
            invariant
                t <= 256,
                m == packet.params(),
                updates_view(out@) == info_updates(m, t as int),
                match model {
                    Some(s) => (if t > 15 && m.contains_key(15) {
                        Some(value_text(m[15]))
                    } else if t > 10 && m.contains_key(10) {
                        Some(value_text(m[10]))
                    } else {
                        None
                    }) == Some(s@),
                    None => !(t > 15 && m.contains_key(15)) && !(t > 10 && m.contains_key(10)),
                },
            decreases 256 - t,
        {
            let key = t as u8;
            let ghost before = out@;
            match packet.parameters.get(&key) {
                None => {
                    assert(updates_view(out@) =~= info_updates(m, t + 1));
                },
                Some(value) => {
                    let v = value.as_slice();
                    assert(m.contains_key(key) && m[key] == v@);
                    let mut special = false;
                    if key == 24 {
                        if let Some(_) = utf8_decode(v) {
                            if prefixed(v, 0x4C) {
                                special = true;
                            }
                        }
                    }
                    assert(special == is_serial_pair(key, v@));
                    if special {
                        let mut serials = parse_per_earphone_sn(v);
                        let ghost sv = serials@;
                        out.append(&mut serials);
                        assert(updates_view(out@) =~= updates_view(before) + updates_view(sv));
                    } else {
                        let d = param_descriptor(key);
                        let name = if str_eq(d, "") {
                            let mut n = text("field_");
                            n.append(decimal_text(key).as_str());
                            n
                        } else {
                            text(d)
                        };
                        let vt = value_string(v);
                        if key == 15 || key == 10 {
                            model = Some(value_string(v));
                        }
                        out.push((name, vt));
                    }
                    assert(updates_view(out@) =~= info_updates(m, t + 1));
                },
            }
            t += 1;
        }
        let ghost head = out@;
        if let Some(code) = model {
            if let Some(name) = friendly_device_name(code.as_str()) {
                out.push((text("device_name"), text(name)));
            }
        }
        assert(updates_view(out@) =~= info_report(m));
        out
    }
}

impl DeviceHandler for InfoHandler {
    open spec fn name(&self) -> Seq<char> {
        "device_info"@
    }

    open spec fn group(&self) -> Seq<char> {
        "info"@
    }

    open spec fn command_keys(&self) -> Seq<u16> {
        seq![key_of(CMD_DEVICE_INFO)]
    }

    open spec fn ignored_keys(&self) -> Seq<u16> {
        Seq::empty()
    }

    open spec fn init_requests(&self) -> Seq<PacketView> {
        seq![info_read_view()]
    }

    open spec fn packet_result(&self, packet: HuaweiSppPacket) -> Result<Seq<(Seq<char>, Seq<char>)>, HandlerError> {
        Ok(info_report(packet.params()))
    }

    open spec fn set_result(&self, group: &str, prop: &str, value: &str) -> Result<(Seq<PacketView>, Seq<(Seq<char>, Seq<char>)>), HandlerError> {
        Ok((Seq::empty(), Seq::empty()))
    }

    fn handler_id(&self) -> (r: &'static str) {
        "device_info"
    }

    fn property_group(&self) -> (r: &'static str) {
        "info"
    }

    fn commands(&self) -> (r: Vec<CommandId>) {
        let r = vec![CMD_DEVICE_INFO];
        assert(keys_of(r@) =~= self.command_keys());
        r
    }

    fn ignore_commands(&self) -> (r: Vec<CommandId>) {
        let r: Vec<CommandId> = Vec::new();
        assert(keys_of(r@) =~= self.ignored_keys());
        r
    }

    /// Asks for every parameter from 0 to 31.
    fn on_init(&mut self) -> (r: Vec<HuaweiSppPacket>) {
        let mut tags: Vec<u8> = Vec::new();
        let mut i: u8 = 0;
        while i < 32
            invariant
                i <= 32,
                tags@ == Seq::new(i as nat, |j: int| j as u8),
            decreases 32 - i,
        {
            tags.push(i);
            i += 1;
            assert(tags@ =~= Seq::new(i as nat, |j: int| j as u8));
        }
        let p = HuaweiSppPacket::read_request(CMD_DEVICE_INFO, tags.as_slice());
        assert(p.params() =~= Map::new(|t: u8| t < 32, |t: u8| Seq::<u8>::empty())) by {
            assert forall|t: u8| tags@.contains(t) <==> t < 32 by {
                if t < 32 {
                    assert(tags@[t as int] == t);
                }
            }
        }
        let r = vec![p];
        proof {
            lemma_packets_view(r@);
        }
        r
    }

    fn on_packet(&mut self, packet: &HuaweiSppPacket) -> (r: Result<Vec<PropertyUpdate>, HandlerError>) {
        Ok(self.report(packet))
    }

    fn set_property(&mut self, group: &str, prop: &str, value: &str) -> (r: Result<
        (Vec<HuaweiSppPacket>, Vec<PropertyUpdate>),
        HandlerError,
    >) {
        let p: Vec<HuaweiSppPacket> = Vec::new();
        let u: Vec<PropertyUpdate> = Vec::new();
        proof {
            lemma_packets_view(p@);
            assert(updates_view(u@) =~= Seq::empty());
        }
        Ok((p, u))
    }
}

} // verus!
