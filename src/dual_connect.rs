//! Connection to two sources at once: whether it is on, the paired sources
//! as the device enumerates them, the preferred one, and actions on each.

use vstd::prelude::*;

use crate::handler::{
    lemma_packets_view, packet_param, packet_view, packets_view, report_view, request_view,
    updates_view, PacketView,
};

use crate::commands::{
    CMD_DUAL_CONNECT_CHANGE_EVENT, CMD_DUAL_CONNECT_ENABLED_READ, CMD_DUAL_CONNECT_ENABLED_WRITE,
    CMD_DUAL_CONNECT_ENUMERATE, CMD_DUAL_CONNECT_EXECUTE, CMD_DUAL_CONNECT_PREFERRED_WRITE,
    CommandId,
};
use crate::config::{is_single, read_one, single_view, write_byte};
use crate::equalizer::{bytes_until_zero, until_zero};
use crate::gestures::signed;
use crate::handler::{
    command_key, key_of, keys_of, str_eq, DeviceHandler, HandlerError, PropertyUpdate,
};
use crate::info::{utf8_decode, utf8_strict};
use crate::packet::HuaweiSppPacket;
use crate::text::{append_hex, bool_name, bool_text, hex_of, join_strings, joined, text};
use vstd::string::{StringExecFns, StringSliceAdditionalSpecFns};

verus! {

broadcast use vstd::std_specs::btree::group_btree_axioms;

/// Action on a source: connect.
pub const EXEC_CONNECT: u8 = 1;

/// Action on a source: disconnect.
pub const EXEC_DISCONNECT: u8 = 2;

/// Action on a source: forget the pairing.
pub const EXEC_UNPAIR: u8 = 3;

/// Action on a source: connect to it automatically.
pub const EXEC_ENABLE_AUTO: u8 = 4;

/// Action on a source: stop connecting to it automatically.
pub const EXEC_DISABLE_AUTO: u8 = 5;

/// A paired source.
pub struct DualConnectDevice {
    pub mac: String,
    pub name: String,
    pub connected: bool,
    pub playing: bool,
    pub preferred: bool,
    pub auto_connect: bool,
}

/// What a source holds: address text, name, connected, playing, preferred,
/// automatic connection.
pub type DeviceView = (Seq<char>, Seq<char>, bool, bool, bool, bool);

pub open spec fn device_view(d: DualConnectDevice) -> DeviceView {
    (d.mac@, d.name@, d.connected, d.playing, d.preferred, d.auto_connect)
}

/// A byte of a parameter, or 0 when it is too short.
pub open spec fn byte_or_zero(b: Seq<u8>, i: int) -> u8 {
    if 0 <= i < b.len() {
        b[i]
    } else {
        0
    }
}

fn byte_at(b: &[u8], i: usize) -> (r: u8)
    ensures
        r == byte_or_zero(b@, i as int),
{
    if i < b.len() {
        b[i]
    } else {
        0
    }
}

/// The source of an enumeration reply: none unless parameter 4 holds an
/// address of at least six bytes; its name is parameter 5 up to a zero byte
/// when that is valid UTF-8, else empty.
pub open spec fn device_of(
    param4: Seq<u8>,
    param5: Seq<u8>,
    param6: Seq<u8>,
    param7: Seq<u8>,
    param8: Seq<u8>,
) -> Option<DeviceView> {
    if param4.len() < 6 {
        None
    } else {
        Some(
            (
                hex_of(param4, false),
                match utf8_strict(until_zero(param5)) {
                    Some(s) => s,
                    None => Seq::empty(),
                },
                byte_or_zero(param6, 0) == 1,
                byte_or_zero(param6, 1) == 1,
                byte_or_zero(param7, 0) == 1,
                byte_or_zero(param8, 0) == 1,
            ),
        )
    }
}

/// The JSON object of a source.
pub open spec fn json_of(d: DeviceView) -> Seq<char> {
    "{\"name\":\""@ + d.1 + "\",\"connected\":"@ + bool_name(d.2) + ",\"playing\":"@ + bool_name(d.3)
        + ",\"auto_connect\":"@ + bool_name(d.5) + "}"@
}

impl DualConnectDevice {
    pub fn from_packet(packet: &HuaweiSppPacket) -> (r: Option<Self>)
        ensures
            match r {
                Some(d) => device_of(
                    packet_param(packet, 4),
                    packet_param(packet, 5),
                    packet_param(packet, 6),
                    packet_param(packet, 7),
                    packet_param(packet, 8),
                ) == Some(device_view(d)),
                None => device_of(
                    packet_param(packet, 4),
                    packet_param(packet, 5),
                    packet_param(packet, 6),
                    packet_param(packet, 7),
                    packet_param(packet, 8),
                ) is None,
            },
    {
        let mac_bytes = packet.find_param(4);
        if mac_bytes.len() < 6 {
            return None;
        }
        let mut mac = String::new();
        append_hex(&mut mac, mac_bytes, false);
        let name = match utf8_decode(bytes_until_zero(packet.find_param(5))) {
            Some(s) => s,
            None => String::new(),
        };
        let status = packet.find_param(6);
        let connected = byte_at(status, 0) == 1;
        let playing = byte_at(status, 1) == 1;
        let preferred = byte_at(packet.find_param(7), 0) == 1;
        let auto_connect = byte_at(packet.find_param(8), 0) == 1;
        Some(DualConnectDevice { mac, name, connected, playing, preferred, auto_connect })
    }

    pub fn to_json_value(&self) -> (r: String)
        ensures
            r@ == json_of(device_view(*self)),
    {
        let mut s = text("{\"name\":\"");
        s.append(self.name.as_str());
        s.append("\",\"connected\":");
        s.append(bool_text(self.connected).as_str());
        s.append(",\"playing\":");
        s.append(bool_text(self.playing).as_str());
        s.append(",\"auto_connect\":");
        s.append(bool_text(self.auto_connect).as_str());
        s.append("}");
        s
    }
}

/// The value of a hexadecimal digit byte.
pub open spec fn hex_value(b: u8) -> Option<u8> {
    if 0x30 <= b <= 0x39 {
        Some((b - 0x30) as u8)
    } else if 0x61 <= b <= 0x66 {
        Some((b - 0x57) as u8)
    } else if 0x41 <= b <= 0x46 {
        Some((b - 0x37) as u8)
    } else {
        None
    }
}

fn hex_digit(b: u8) -> (r: Option<u8>)
    ensures
        r == hex_value(b),
{
    if 0x30 <= b && b <= 0x39 {
        Some(b - 0x30)
    } else if 0x61 <= b && b <= 0x66 {
        Some(b - 0x57)
    } else if 0x41 <= b && b <= 0x46 {
        Some(b - 0x37)
    } else {
        None
    }
}

/// The byte of two hexadecimal digits, high digit first; `None` unless
/// both are ASCII hexadecimal digits.
pub open spec fn pair_value(c1: u8, c2: u8) -> Option<u8> {
    match (hex_value(c1), hex_value(c2)) {
        (Some(a), Some(b)) => Some((a * 16 + b) as u8),
        _ => None,
    }
}

/// The bytes without the separators ':' and '-'.
pub open spec fn strip_separators(b: Seq<u8>) -> Seq<u8>
    decreases b.len(),
{
    if b.len() == 0 {
        Seq::empty()
    } else {
        strip_separators(b.drop_last()) + if b.last() == 0x3A || b.last() == 0x2D {
            Seq::empty()
        } else {
            seq![b.last()]
        }
    }
}

/// The bytes of the first `n` pairs, or `None` when one is not a byte.
pub open spec fn hex_pairs(h: Seq<u8>, n: int) -> Option<Seq<u8>>
    decreases n,
{
    if n <= 0 {
        Some(Seq::empty())
    } else {
        match (hex_pairs(h, n - 1), pair_value(h[2 * n - 2], h[2 * n - 1])) {
            (Some(s), Some(v)) => Some(s.push(v)),
            _ => None,
        }
    }
}

/// The bytes of a hexadecimal text with optional separators; `None` when
/// what remains has an odd length or holds a character that is not an
/// ASCII hexadecimal digit.
pub open spec fn hex_bytes(b: Seq<u8>) -> Option<Seq<u8>> {
    let h = strip_separators(b);
    if h.len() % 2 == 1 {
        None
    } else {
        hex_pairs(h, h.len() as int / 2)
    }
}

/// The bytes of a hexadecimal text with optional separators ':' and '-'.
pub fn hex_to_bytes(hex: &str) -> (r: Option<Vec<u8>>)
    ensures
        match r {
            Some(v) => hex_bytes(hex.spec_bytes()) == Some(v@),
            None => hex_bytes(hex.spec_bytes()) is None,
        },
{
    hex_slice_to_bytes(hex.as_bytes())
}

fn hex_slice_to_bytes(b: &[u8]) -> (r: Option<Vec<u8>>)
    ensures
        match r {
            Some(v) => hex_bytes(b@) == Some(v@),
            None => hex_bytes(b@) is None,
        },
{
    let mut h: Vec<u8> = Vec::new();
    let mut i: usize = 0;
    while i < b.len()
        invariant
            i <= b@.len(),
            h@ == strip_separators(b@.subrange(0, i as int)),
        decreases b@.len() - i,
    {
        if b[i] != 0x3A && b[i] != 0x2D {
            h.push(b[i]);
        }
        i += 1;
        assert(b@.subrange(0, i as int).drop_last() =~= b@.subrange(0, i - 1));
        assert(h@ =~= strip_separators(b@.subrange(0, i as int)));
    }
    assert(b@.subrange(0, i as int) =~= b@);
    if h.len() % 2 == 1 {
        return None;
    }
    let n = h.len() / 2;
    let mut out: Vec<u8> = Vec::new();
    let mut k: usize = 0;
    while k < n
        invariant
            k <= n,
            n * 2 == h@.len(),
            h@ == strip_separators(b@),
            hex_pairs(h@, k as int) == Some(out@),
        decreases n - k,
    {
        let c1 = h[2 * k];
        let c2 = h[2 * k + 1];
        let v = match (hex_digit(c1), hex_digit(c2)) {
            (Some(a), Some(b)) => Some(a * 16 + b),
            _ => None,
        };
        match v {
            Some(x) => {
                out.push(x);
            },
            None => {
                assert(hex_pairs(h@, k + 1) is None);
                proof {
                    lemma_pairs_fail_later(h@, k + 1, n as int);
                }
                return None;
            },
        }
        k += 1;
    }
    Some(out)
}

proof fn lemma_pairs_fail_later(h: Seq<u8>, k: int, n: int)
    requires
        0 < k <= n,
        hex_pairs(h, k) is None,
    ensures
        hex_pairs(h, n) is None,
    decreases n - k,
{
    if k < n {
        lemma_pairs_fail_later(h, k, n - 1);
    }
}

/// A hexadecimal text is malformed, and read as no bytes, as soon as a
/// character other than a hexadecimal digit or a separator remains in it.
pub proof fn lemma_hex_rejects_non_digits(b: Seq<u8>, i: int)
    requires
        0 <= i < strip_separators(b).len(),
        hex_value(strip_separators(b)[i]) is None,
    ensures
        hex_bytes(b) is None,
{
    let h = strip_separators(b);
    if h.len() % 2 == 0 {
        let n = h.len() as int / 2;
        let k = i / 2;
        assert(2 * k == i || 2 * k + 1 == i);
        assert(0 <= k < n);
        assert(pair_value(h[2 * k], h[2 * k + 1]) is None);
        assert(hex_pairs(h, k + 1) is None);
        lemma_pairs_fail_later(h, k + 1, n);
    }
}

/// The sources enumerated so far, by index, after one more reply: a reply
/// for an index already held replaces it.
pub open spec fn upsert<K, V>(p: Seq<(K, V)>, k: K, v: V) -> Seq<(K, V)> {
    match first_key(p, k) {
        Some(i) => p.update(i, (k, v)),
        None => p.push((k, v)),
    }
}

/// The first position of a key.
pub open spec fn first_key<K, V>(p: Seq<(K, V)>, k: K) -> Option<int> {
    if exists|i: int| 0 <= i < p.len() && p[i].0 == k {
        Some(choose|i: int| 0 <= i < p.len() && p[i].0 == k && forall|j: int| 0 <= j < i ==> p[j].0 != k)
    } else {
        None
    }
}

/// The JSON entries by address and the preferred address, from the sources
/// of index 0 up to `n`: a later source with the same address replaces the
/// entry; the last preferred source wins.
pub open spec fn collect(p: Seq<(i8, DeviceView)>, n: int) -> (Seq<(Seq<char>, Seq<char>)>, Seq<char>)
    decreases n,
{
    if n <= 0 {
        (Seq::empty(), Seq::empty())
    } else {
        let (e, pref) = collect(p, n - 1);
        match first_key(p, (n - 1) as i8) {
            Some(i) => {
                let d = p[i].1;
                (upsert(e, d.0, json_of(d)), if d.4 { d.0 } else { pref })
            },
            None => (e, pref),
        }
    }
}

/// The JSON object of the sources, keyed by address.
pub open spec fn devices_json(e: Seq<(Seq<char>, Seq<char>)>) -> Seq<char> {
    "{"@ + joined(e.map_values(|kv: (Seq<char>, Seq<char>)| "\""@ + kv.0 + "\": "@ + kv.1)) + "}"@
}

/// The updates once every source is enumerated.
pub open spec fn devices_report(p: Seq<(i8, DeviceView)>, count: i8) -> Seq<(Seq<char>, Seq<char>)> {
    let (e, pref) = collect(p, count as int);
    seq![("devices"@, devices_json(e)), ("preferred_device"@, pref)]
}

pub open spec fn pending_view(p: Seq<(i8, DualConnectDevice)>) -> Seq<(i8, DeviceView)> {
    p.map_values(|x: (i8, DualConnectDevice)| (x.0, device_view(x.1)))
}

fn find_index(p: &Vec<(i8, DualConnectDevice)>, k: i8) -> (r: Option<usize>)
    ensures
        match r {
            Some(i) => i < p@.len() && first_key(pending_view(p@), k) == Some(i as int),
            None => first_key(pending_view(p@), k) is None,
        },
{
    let ghost pv = pending_view(p@);
    let mut j: usize = 0;
    while j < p.len()
        invariant
            j <= p@.len(),
            pv == pending_view(p@),
            forall|x: int| 0 <= x < j ==> pv[x].0 != k,
        decreases p@.len() - j,
    {
        if p[j].0 == k {
            proof {
                assert(pv[j as int].0 == k);
                let w = first_key(pv, k).unwrap();
                assert(w == j as int) by {
                    if w < j {
                        assert(pv[w].0 != k);
                    } else if w > j {
                        assert(pv[j as int].0 == k);
                    }
                }
            }
            return Some(j);
        }
        j += 1;
    }
    None
}

fn find_text(p: &Vec<(String, String)>, k: &str) -> (r: Option<usize>)
    ensures
        match r {
            Some(i) => i < p@.len() && first_key(text_pairs(p@), k@) == Some(i as int),
            None => first_key(text_pairs(p@), k@) is None,
        },
{
    let ghost pv = text_pairs(p@);
    let mut j: usize = 0;
    while j < p.len()
        invariant
            j <= p@.len(),
            pv == text_pairs(p@),
            forall|x: int| 0 <= x < j ==> pv[x].0 != k@,
        decreases p@.len() - j,
    {
        if str_eq(p[j].0.as_str(), k) {
            proof {
                assert(pv[j as int].0 == k@);
                let w = first_key(pv, k@).unwrap();
                assert(w == j as int) by {
                    if w < j {
                        assert(pv[w].0 != k@);
                    } else if w > j {
                        assert(pv[j as int].0 == k@);
                    }
                }
            }
            return Some(j);
        }
        j += 1;
    }
    None
}

pub open spec fn text_pairs(p: Seq<(String, String)>) -> Seq<(Seq<char>, Seq<char>)> {
    p.map_values(|x: (String, String)| (x.0@, x.1@))
}

/// The JSON object of some entries.
fn entries_json(e: &Vec<(String, String)>) -> (r: String)
    ensures
        r@ == devices_json(text_pairs(e@)),
{
    let ghost ev = text_pairs(e@);
    let mut items: Vec<String> = Vec::new();
    let mut i: usize = 0;
    while i < e.len()
        invariant
            i <= e@.len(),
            ev == text_pairs(e@),
            items@.len() == i,
            items@.map_values(|t: String| t@) == ev.subrange(0, i as int).map_values(
                |kv: (Seq<char>, Seq<char>)| "\""@ + kv.0 + "\": "@ + kv.1,
            ),
        decreases e@.len() - i,
    {
        let mut item = text("\"");
        item.append(e[i].0.as_str());
        item.append("\": ");
        item.append(e[i].1.as_str());
        let ghost before = items@;
        items.push(item);
        proof {
            let want = ev.subrange(0, i + 1).map_values(
                |kv: (Seq<char>, Seq<char>)| "\""@ + kv.0 + "\": "@ + kv.1,
            );
            let had = ev.subrange(0, i as int).map_values(
                |kv: (Seq<char>, Seq<char>)| "\""@ + kv.0 + "\": "@ + kv.1,
            );
            let got = items@.map_values(|t: String| t@);
            assert forall|j: int| 0 <= j <= i implies #[trigger] got[j] == want[j] by {
                if j < i {
                    assert(items@[j] == before[j]);
                    assert(before.map_values(|t: String| t@)[j] == had[j]);
                } else {
                    assert(items@[j] == item);
                    assert(ev[j] == (e@[j].0@, e@[j].1@));
                }
            }
            assert(got =~= want);
        }
        i += 1;
    }
    assert(ev.subrange(0, i as int) =~= ev);
    let mut s = text("{");
    s.append(join_strings(&items).as_str());
    s.append("}");
    s
}

/// Records one source: its entry by address, and its address if it is the
/// preferred one.
fn add_device(entries: &mut Vec<(String, String)>, preferred: &mut String, d: &DualConnectDevice)
    ensures
        text_pairs(final(entries)@) == upsert(text_pairs(old(entries)@), d.mac@, json_of(device_view(*d))),
        final(preferred)@ == (if d.preferred {
            d.mac@
        } else {
            old(preferred)@
        }),
{
    let json = d.to_json_value();
    let ghost before = text_pairs(entries@);
    match find_text(entries, d.mac.as_str()) {
        Some(y) => {
            let _ = entries.remove(y);
            entries.insert(y, (d.mac.clone(), json));
            assert(text_pairs(entries@) =~= before.update(y as int, (d.mac@, json@)));
        },
        None => {
            entries.push((d.mac.clone(), json));
            assert(text_pairs(entries@) =~= before.push((d.mac@, json@)));
        },
    }
    if d.preferred {
        *preferred = d.mac.clone();
    }
}

/// The updates once every source is enumerated.
fn report_devices(pending: &Vec<(i8, DualConnectDevice)>, count: i8) -> (r: Vec<PropertyUpdate>)
    ensures
        updates_view(r@) == devices_report(pending_view(pending@), count),
{
    let ghost pv = pending_view(pending@);
    let mut entries: Vec<(String, String)> = Vec::new();
    let mut preferred = String::new();
    let mut i: i8 = 0;
    if count > 0 {
        while i < count
            invariant
                0 <= i <= count,
                pv == pending_view(pending@),
                (text_pairs(entries@), preferred@) == collect(pv, i as int),
            decreases count - i,
        {
            match find_index(pending, i) {
                Some(x) => {
                    let d = &pending[x].1;
                    add_device(&mut entries, &mut preferred, d);
                    assert(pv[x as int].1 == device_view(*d));
                },
                None => {},
            }
            i += 1;
        }
    }
    let mut out: Vec<PropertyUpdate> = Vec::new();
    out.push((text("devices"), entries_json(&entries)));
    out.push((text("preferred_device"), preferred));
    assert(updates_view(out@) =~= devices_report(pv, count));
    out
}

/// The action of a request on one source, by the property after the
/// address and the value.
pub open spec fn source_action(sub: Seq<u8>, value: Seq<char>) -> Option<u8> {
    if sub == "connected".spec_bytes() && value == "true"@ {
        Some(EXEC_CONNECT)
    } else if sub == "connected".spec_bytes() && value == "false"@ {
        Some(EXEC_DISCONNECT)
    } else if sub == "auto_connect".spec_bytes() && value == "true"@ {
        Some(EXEC_ENABLE_AUTO)
    } else if sub == "auto_connect".spec_bytes() && value == "false"@ {
        Some(EXEC_DISABLE_AUTO)
    } else if sub == "name".spec_bytes() && value == ""@ {
        Some(EXEC_UNPAIR)
    } else {
        None
    }
}

/// The first position of a colon.
pub open spec fn first_colon(b: Seq<u8>) -> Option<int> {
    if exists|i: int| 0 <= i < b.len() && b[i] == 0x3A {
        Some(choose|i: int| 0 <= i < b.len() && b[i] == 0x3A && forall|j: int| 0 <= j < i ==> b[j] != 0x3A)
    } else {
        None
    }
}

/// The write that carries out a request, as command, parameter and value;
/// `Some(None)` for a request that sends nothing; `None` for a malformed
/// address. "enabled" writes the switch; "preferred_device" the address
/// of its value; `<address>:<property>` an action on that source.
pub open spec fn dual_request(pb: Seq<u8>, prop: Seq<char>, value: Seq<char>, vb: Seq<u8>) -> Option<
    Option<(CommandId, u8, Seq<u8>)>,
> {
    if prop == "enabled"@ {
        Some(Some((CMD_DUAL_CONNECT_ENABLED_WRITE, 1u8, seq![if value == "true"@ { 1u8 } else { 0u8 }])))
    } else if prop == "preferred_device"@ {
        match hex_bytes(vb) {
            Some(m) => Some(Some((CMD_DUAL_CONNECT_PREFERRED_WRITE, 1u8, m))),
            None => None,
        }
    } else {
        match first_colon(pb) {
            Some(c) => match hex_bytes(pb.subrange(0, c)) {
                Some(m) => match source_action(pb.subrange(c + 1, pb.len() as int), value) {
                    Some(a) => Some(Some((CMD_DUAL_CONNECT_EXECUTE, a, m))),
                    None => Some(None),
                },
                None => None,
            },
            None => Some(None),
        }
    }
}

fn bytes_eq(a: &[u8], b: &[u8]) -> (r: bool)
    ensures
        r == (a@ == b@),
{
    if a.len() != b.len() {
        return false;
    }
    let mut i: usize = 0;
    while i < a.len()
        invariant
            a@.len() == b@.len(),
            i <= a@.len(),
            forall|j: int| 0 <= j < i ==> a@[j] == b@[j],
        decreases a@.len() - i,
    {
        if a[i] != b[i] {
            return false;
        }
        i += 1;
    }
    assert(a@ =~= b@);
    true
}

fn find_colon(b: &[u8]) -> (r: Option<usize>)
    ensures
        match r {
            Some(i) => i < b@.len() && first_colon(b@) == Some(i as int),
            None => first_colon(b@) is None,
        },
{
    let mut i: usize = 0;
    while i < b.len()
        invariant
            i <= b@.len(),
            forall|j: int| 0 <= j < i ==> b@[j] != 0x3A,
        decreases b@.len() - i,
    {
        if b[i] == 0x3A {
            proof {
                let f = first_colon(b@).unwrap();
                assert(f == i as int) by {
                    if f < i {
                        assert(b@[f] != 0x3A);
                    } else if f > i {
                        assert(b@[i as int] == 0x3A);
                    }
                }
            }
            return Some(i);
        }
        i += 1;
    }
    None
}

fn action_of(sub: &[u8], value: &str) -> (r: Option<u8>)
    ensures
        r == source_action(sub@, value@),
{
    let connected = bytes_eq(sub, "connected".as_bytes());
    let auto = bytes_eq(sub, "auto_connect".as_bytes());
    let name = bytes_eq(sub, "name".as_bytes());
    if connected && str_eq(value, "true") {
        Some(EXEC_CONNECT)
    } else if connected && str_eq(value, "false") {
        Some(EXEC_DISCONNECT)
    } else if auto && str_eq(value, "true") {
        Some(EXEC_ENABLE_AUTO)
    } else if auto && str_eq(value, "false") {
        Some(EXEC_DISABLE_AUTO)
    } else if name && str_eq(value, "") {
        Some(EXEC_UNPAIR)
    } else {
        None
    }
}

fn write_param(cmd: CommandId, tag: u8, value: Vec<u8>) -> (r: HuaweiSppPacket)
    ensures
        is_single(r, cmd, tag, value@),
{
    let mut p = HuaweiSppPacket::new(cmd);
    p.set_param(tag, value);
    p
}

/// The two-source module.
pub struct DualConnectHandler {
    with_auto_connect: bool,
    pending: Vec<(i8, DualConnectDevice)>,
    devices_count: i8,
}

/// The state after an enumeration reply, and its updates: the source is
/// recorded under its index and the count of sources is taken from the
/// reply; once as many sources are held as the count says, they are
/// reported.
pub open spec fn enumeration_step(
    pending: Seq<(i8, DeviceView)>,
    count: i8,
    d: Option<DeviceView>,
    param2: Seq<u8>,
    param3: Seq<u8>,
) -> (Seq<(i8, DeviceView)>, i8, Seq<(Seq<char>, Seq<char>)>) {
    match d {
        None => (pending, count, Seq::empty()),
        Some(dv) => {
            let idx = signed(byte_or_zero(param3, 0));
            let cnt = signed(byte_or_zero(param2, 0));
            let p = upsert(pending, idx, dv);
            (p, cnt, if signed((p.len() % 256) as u8) >= cnt {
                devices_report(p, cnt)
            } else {
                Seq::empty()
            })
        },
    }
}

/// The updates of a reply, and the state after it.
pub open spec fn dual_step(
    pending: Seq<(i8, DeviceView)>,
    count: i8,
    packet: HuaweiSppPacket,
) -> (Seq<(i8, DeviceView)>, i8, Seq<(Seq<char>, Seq<char>)>) {
    let k = key_of(packet.command_id);
    if k == key_of(CMD_DUAL_CONNECT_ENABLED_READ) {
        (pending, count, if packet_param(&packet, 1).len() == 1 {
            seq![("enabled"@, bool_name(packet_param(&packet, 1)[0] == 1))]
        } else {
            Seq::empty()
        })
    } else if k == key_of(CMD_DUAL_CONNECT_CHANGE_EVENT) {
        (pending, count, Seq::empty())
    } else {
        enumeration_step(
            pending,
            count,
            device_of(
                packet_param(&packet, 4),
                packet_param(&packet, 5),
                packet_param(&packet, 6),
                packet_param(&packet, 7),
                packet_param(&packet, 8),
            ),
            packet_param(&packet, 2),
            packet_param(&packet, 3),
        )
    }
}

impl DualConnectHandler {
    pub closed spec fn pending_spec(&self) -> Seq<(i8, DeviceView)> {
        pending_view(self.pending@)
    }

    pub closed spec fn count_spec(&self) -> i8 {
        self.devices_count
    }

    pub fn new(with_auto_connect: bool) -> (r: Self)
        ensures
            r.pending_spec().len() == 0,
            r.count_spec() == 0,
    {
        let r = DualConnectHandler { with_auto_connect, pending: Vec::new(), devices_count: 0 };
        assert(r.pending_spec() =~= Seq::empty());
        r
    }

    /// Takes in a reply.
    pub fn report(&mut self, packet: &HuaweiSppPacket) -> (r: Vec<PropertyUpdate>)
        ensures
            ({
                let k = key_of(packet.command_id);
                if k == key_of(CMD_DUAL_CONNECT_ENABLED_READ) {
                    &&& final(self).pending_spec() == old(self).pending_spec()
                    &&& final(self).count_spec() == old(self).count_spec()
                    &&& updates_view(r@) == (if packet_param(packet, 1).len() == 1 {
                        seq![("enabled"@, bool_name(packet_param(packet, 1)[0] == 1))]
                    } else {
                        Seq::empty()
                    })
                } else if k == key_of(CMD_DUAL_CONNECT_CHANGE_EVENT) {
                    &&& final(self).pending_spec() == old(self).pending_spec()
                    &&& final(self).count_spec() == old(self).count_spec()
                    &&& r@.len() == 0
                } else {
                    let s = enumeration_step(
                        old(self).pending_spec(),
                        old(self).count_spec(),
                        device_of(
                            packet_param(packet, 4),
                            packet_param(packet, 5),
                            packet_param(packet, 6),
                            packet_param(packet, 7),
                            packet_param(packet, 8),
                        ),
                        packet_param(packet, 2),
                        packet_param(packet, 3),
                    );
                    &&& final(self).pending_spec() == s.0
                    &&& final(self).count_spec() == s.1
                    &&& updates_view(r@) == s.2
                }
            }),
    {
        let key = command_key(packet.command_id);
        let mut out: Vec<PropertyUpdate> = Vec::new();
        if key == command_key(CMD_DUAL_CONNECT_ENABLED_READ) {
            let value = packet.find_param(1);
            if value.len() == 1 {
                out.push((text("enabled"), bool_text(value[0] == 1)));
            }
            assert(updates_view(out@) =~= (if value@.len() == 1 {
                seq![("enabled"@, bool_name(value@[0] == 1))]
            } else {
                Seq::empty()
            }));
            return out;
        }
        if key == command_key(CMD_DUAL_CONNECT_CHANGE_EVENT) {
            return out;
        }
        match DualConnectDevice::from_packet(packet) {
            None => {
                assert(updates_view(out@) =~= Seq::<(Seq<char>, Seq<char>)>::empty());
                out
            },
            Some(device) => {
                let idx = signed_byte(byte_at(packet.find_param(3), 0));
                self.devices_count = signed_byte(byte_at(packet.find_param(2), 0));
                let ghost before = pending_view(self.pending@);
                let ghost dv = device_view(device);
                match find_index(&self.pending, idx) {
                    Some(y) => {
                        let _ = self.pending.remove(y);
                        self.pending.insert(y, (idx, device));
                        assert(pending_view(self.pending@) =~= before.update(y as int, (idx, dv)));
                    },
                    None => {
                        self.pending.push((idx, device));
                        assert(pending_view(self.pending@) =~= before.push((idx, dv)));
                    },
                }
                let held = signed_byte((self.pending.len() % 256) as u8);
                if held >= self.devices_count {
                    report_devices(&self.pending, self.devices_count)
                } else {
                    assert(updates_view(out@) =~= Seq::<(Seq<char>, Seq<char>)>::empty());
                    out
                }
            },
        }
    }

    /// The packets that carry out a request.
    pub fn request(&self, prop: &str, value: &str) -> (r: Result<Vec<HuaweiSppPacket>, HandlerError>)
        ensures
            match dual_request(prop.spec_bytes(), prop@, value@, value.spec_bytes()) {
                None => r == Err::<Vec<HuaweiSppPacket>, _>(HandlerError::InvalidValue),
                Some(None) => r matches Ok(p) && p@.len() == 0,
                Some(Some((cmd, tag, v))) => r matches Ok(p) && p@.len() == 1 && is_single(
                    p@[0],
                    cmd,
                    tag,
                    v,
                ),
            },
    {
        if str_eq(prop, "enabled") {
            let b: u8 = if str_eq(value, "true") {
                1
            } else {
                0
            };
            return Ok(vec![write_byte(CMD_DUAL_CONNECT_ENABLED_WRITE, 1, b)]);
        }
        if str_eq(prop, "preferred_device") {
            return match hex_to_bytes(value) {
                Some(m) => Ok(vec![write_param(CMD_DUAL_CONNECT_PREFERRED_WRITE, 1, m)]),
                None => Err(HandlerError::InvalidValue),
            };
        }
        let pb = prop.as_bytes();
        match find_colon(pb) {
            Some(c) => {
                let n = pb.len();
                match hex_slice_to_bytes(vstd::slice::slice_subrange(pb, 0, c)) {
                    Some(m) => match action_of(vstd::slice::slice_subrange(pb, c + 1, n), value) {
                        Some(a) => Ok(vec![write_param(CMD_DUAL_CONNECT_EXECUTE, a, m)]),
                        None => Ok(Vec::new()),
                    },
                    None => Err(HandlerError::InvalidValue),
                }
            },
            None => Ok(Vec::new()),
        }
    }
}

fn signed_byte(b: u8) -> (r: i8)
    ensures
        r == signed(b),
{
    if b < 128 {
        b as i8
    } else {
        (b as i16 - 256) as i8
    }
}

impl DeviceHandler for DualConnectHandler {
    open spec fn name(&self) -> Seq<char> {
        "dual_connect"@
    }

    open spec fn group(&self) -> Seq<char> {
        "dual_connect"@
    }

    open spec fn command_keys(&self) -> Seq<u16> {
        seq![
            key_of(CMD_DUAL_CONNECT_ENUMERATE),
            key_of(CMD_DUAL_CONNECT_CHANGE_EVENT),
            key_of(CMD_DUAL_CONNECT_ENABLED_READ),
        ]
    }

    open spec fn ignored_keys(&self) -> Seq<u16> {
        seq![
            key_of(CMD_DUAL_CONNECT_PREFERRED_WRITE),
            key_of(CMD_DUAL_CONNECT_EXECUTE),
            key_of(CMD_DUAL_CONNECT_ENABLED_WRITE),
        ]
    }

    open spec fn init_requests(&self) -> Seq<PacketView> {
        seq![
            single_view(CMD_DUAL_CONNECT_ENABLED_READ, 1, Seq::empty()),
            single_view(CMD_DUAL_CONNECT_ENUMERATE, 1, Seq::empty()),
        ]
    }

    open spec fn packet_result(&self, packet: HuaweiSppPacket) -> Result<Seq<(Seq<char>, Seq<char>)>, HandlerError> {
        Ok(dual_step(self.pending_spec(), self.count_spec(), packet).2)
    }

    open spec fn set_result(&self, group: &str, prop: &str, value: &str) -> Result<(Seq<PacketView>, Seq<(Seq<char>, Seq<char>)>), HandlerError> {
        match dual_request(prop.spec_bytes(), prop@, value@, value.spec_bytes()) {
            None => Err(HandlerError::InvalidValue),
            Some(None) => Ok((Seq::empty(), Seq::empty())),
            Some(Some((cmd, tag, v))) => Ok((seq![single_view(cmd, tag, v)], Seq::empty())),
        }
    }

    fn handler_id(&self) -> (r: &'static str) {
        "dual_connect"
    }

    fn property_group(&self) -> (r: &'static str) {
        "dual_connect"
    }

    fn commands(&self) -> (r: Vec<CommandId>) {
        let r = vec![
            CMD_DUAL_CONNECT_ENUMERATE,
            CMD_DUAL_CONNECT_CHANGE_EVENT,
            CMD_DUAL_CONNECT_ENABLED_READ,
        ];
        assert(keys_of(r@) =~= self.command_keys());
        r
    }

    fn ignore_commands(&self) -> (r: Vec<CommandId>) {
        let r = vec![
            CMD_DUAL_CONNECT_PREFERRED_WRITE,
            CMD_DUAL_CONNECT_EXECUTE,
            CMD_DUAL_CONNECT_ENABLED_WRITE,
        ];
        assert(keys_of(r@) =~= self.ignored_keys());
        r
    }

    /// Reads whether two sources are allowed, and starts a fresh
    /// enumeration of the sources.
    fn on_init(&mut self) -> (r: Vec<HuaweiSppPacket>) {
        self.pending = Vec::new();
        self.devices_count = 0;
        let r = vec![
            read_one(CMD_DUAL_CONNECT_ENABLED_READ, 1),
            write_param(CMD_DUAL_CONNECT_ENUMERATE, 1, Vec::new()),
        ];
        proof {
            lemma_packets_view(r@);
        }
        r
    }

    fn on_packet(&mut self, packet: &HuaweiSppPacket) -> (r: Result<Vec<PropertyUpdate>, HandlerError>) {
        let ghost pending = self.pending_spec();
        let ghost count = self.count_spec();
        let u = self.report(packet);
        assert(updates_view(u@) == dual_step(pending, count, *packet).2);
        Ok(u)
    }

    fn set_property(&mut self, group: &str, prop: &str, value: &str) -> (r: Result<
        (Vec<HuaweiSppPacket>, Vec<PropertyUpdate>),
        HandlerError,
    >) {
        let r = match self.request(prop, value) {
            Ok(pkts) => Ok((pkts, Vec::new())),
            Err(e) => Err(e),
        };
        proof {
            if let Ok((p, u)) = &r {
                lemma_packets_view(p@);
                assert(updates_view(u@) =~= Seq::empty());
            }
        }
        r
    }
}

} // verus!
