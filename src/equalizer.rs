//! Equalizer presets of the primary protocol's devices: the built-in presets
//! that the device offers, the custom presets it holds (36 bytes each: id,
//! band count, band values, a zero-terminated label), and the preset in use.

use vstd::prelude::*;

use crate::handler::{
    lemma_packets_view, packet_param, packet_view, packets_view, report_view, request_view,
    updates_view, PacketView,
};

use crate::airpods::utf8_lossy;
use crate::commands::{CMD_EQUALIZER_READ, CMD_EQUALIZER_WRITE, CommandId};
use crate::gestures::signed;
use crate::handler::{keys_of, key_of, str_eq, DeviceHandler, HandlerError, PropertyUpdate};
use crate::info::{utf8_decode, utf8_strict};
use crate::packet::HuaweiSppPacket;
use crate::text::{decimal, decimal_text, join_strings, joined, text};
use vstd::string::{StringExecFns, StringSliceAdditionalSpecFns};

verus! {

broadcast use vstd::std_specs::btree::group_btree_axioms;

/// Size of a custom preset record.
pub const CUSTOM_RECORD: usize = 36;

/// Most custom presets a device holds.
pub const MAX_CUSTOM_PRESETS: usize = 3;

/// The name of a built-in preset.
pub open spec fn builtin_name(id: u8) -> Option<Seq<char>> {
    if id == 1 {
        Some("equalizer_preset_default"@)
    } else if id == 2 {
        Some("equalizer_preset_hardbass"@)
    } else if id == 3 {
        Some("equalizer_preset_treble"@)
    } else if id == 9 {
        Some("equalizer_preset_voices"@)
    } else {
        None
    }
}

pub fn builtin_preset_name(id: u8) -> (r: Option<&'static str>)
    ensures
        match r {
            Some(n) => builtin_name(id) == Some(n@),
            None => builtin_name(id) is None,
        },
{
    if id == 1 {
        Some("equalizer_preset_default")
    } else if id == 2 {
        Some("equalizer_preset_hardbass")
    } else if id == 3 {
        Some("equalizer_preset_treble")
    } else if id == 9 {
        Some("equalizer_preset_voices")
    } else {
        None
    }
}

/// A preset: its id, its label, and for a custom preset its band values.
pub struct PresetEntry {
    pub id: u8,
    pub label: String,
    pub data: Option<Vec<u8>>,
}

/// What a preset holds.
pub type PresetView = (u8, Seq<char>, Option<Seq<u8>>);

pub open spec fn entry_view(p: PresetEntry) -> PresetView {
    (p.id, p.label@, match p.data {
        Some(v) => Some(v@),
        None => None,
    })
}

pub open spec fn presets_view(s: Seq<PresetEntry>) -> Seq<PresetView> {
    s.map_values(|p: PresetEntry| entry_view(p))
}

/// The built-in presets that a device offers, named or "unknown".
pub open spec fn builtin_entries(avail: Seq<u8>) -> Seq<PresetView> {
    avail.map_values(
        |b: u8|
            (b, match builtin_name(b) {
                Some(n) => n,
                None => "unknown"@,
            }, None::<Seq<u8>>),
    )
}

/// The custom presets among some presets, in order.
pub open spec fn customs_of(s: Seq<PresetView>) -> Seq<PresetView>
    decreases s.len(),
{
    if s.len() == 0 {
        Seq::empty()
    } else {
        customs_of(s.drop_last()) + if s.last().2 is Some {
            seq![s.last()]
        } else {
            Seq::empty()
        }
    }
}

/// The bytes before the first zero byte.
pub open spec fn until_zero(b: Seq<u8>) -> Seq<u8> {
    if exists|i: int| 0 <= i < b.len() && b[i] == 0 {
        b.take(choose|i: int| 0 <= i < b.len() && b[i] == 0 && forall|j: int| 0 <= j < i ==> b[j] != 0)
    } else {
        b
    }
}

/// The preset of a custom record, `None` when its band count overruns it.
pub open spec fn record_entry(c: Seq<u8>) -> Option<PresetView> {
    let count = c[1] as int;
    if 2 + count > CUSTOM_RECORD {
        None
    } else {
        let label_bytes = until_zero(c.subrange(2 + count, CUSTOM_RECORD as int));
        Some(
            (c[0], match utf8_strict(label_bytes) {
                Some(s) => s,
                None => "custom_"@ + decimal(c[0]),
            }, Some(c.subrange(2, 2 + count))),
        )
    }
}

/// The presets of the first `k` custom records.
pub open spec fn record_entries(d: Seq<u8>, k: int) -> Seq<PresetView>
    decreases k,
{
    if k <= 0 {
        Seq::empty()
    } else {
        record_entries(d, k - 1) + match record_entry(
            d.subrange(CUSTOM_RECORD * (k - 1), CUSTOM_RECORD * k),
        ) {
            Some(e) => seq![e],
            None => Seq::empty(),
        }
    }
}

/// The presets after a report: the built-in presets offered (parameter 3),
/// where the report lists them, followed by the custom presets held so
/// far; then, where the device has custom presets, those of its records
/// (parameter 8).
pub open spec fn presets_after(
    prev: Seq<PresetView>,
    with_custom: bool,
    param3: Seq<u8>,
    param8: Seq<u8>,
) -> Seq<PresetView> {
    let a = if param3.len() > 0 {
        builtin_entries(param3) + customs_of(prev)
    } else {
        prev
    };
    if with_custom && param8.len() > 0 {
        a + record_entries(param8, param8.len() as int / CUSTOM_RECORD as int)
    } else {
        a
    }
}

/// The decimal form of a signed byte.
pub open spec fn signed_decimal(v: i8) -> Seq<char> {
    if v < 0 {
        "-"@ + decimal((-(v as int)) as u8)
    } else {
        decimal(v as u8)
    }
}

pub fn signed_decimal_text(v: i8) -> (r: String)
    ensures
        r@ == signed_decimal(v),
{
    if v < 0 {
        let mut s = text("-");
        s.append(decimal_text((-(v as i16)) as u8).as_str());
        s
    } else {
        decimal_text(v as u8)
    }
}

/// The band values of a custom preset: "[", the values as signed numbers
/// separated by commas, "]".
pub open spec fn rows_text(data: Seq<u8>) -> Seq<char> {
    "["@ + joined(data.map_values(|b: u8| signed_decimal(signed(b)))) + "]"@
}

/// The first preset with an id.
pub open spec fn first_with_id(s: Seq<PresetView>, id: i16) -> Option<int> {
    if exists|i: int| 0 <= i < s.len() && s[i].0 as i16 == id {
        Some(
            choose|i: int|
                0 <= i < s.len() && s[i].0 as i16 == id && forall|j: int| 0 <= j < i ==> s[j].0 as i16 != id,
        )
    } else {
        None
    }
}

/// The first preset with a label.
pub open spec fn first_with_label(s: Seq<PresetView>, label: Seq<char>) -> Option<int> {
    if exists|i: int| 0 <= i < s.len() && s[i].1 == label {
        Some(choose|i: int| 0 <= i < s.len() && s[i].1 == label && forall|j: int| 0 <= j < i ==> s[j].1 != label)
    } else {
        None
    }
}

/// The updates of a report, given the presets after it: the labels
/// offered, how many custom presets the device holds at most, and where
/// parameter 2 names the preset in use (a signed id), its label and, for a
/// custom preset, its band values.
pub open spec fn eq_report(presets: Seq<PresetView>, with_custom: bool, param2: Seq<u8>) -> Seq<
    (Seq<char>, Seq<char>),
> {
    seq![
        ("equalizer_preset_options"@, joined(presets.map_values(|p: PresetView| p.1))),
        ("equalizer_max_custom_modes"@, if with_custom { "3"@ } else { "0"@ }),
    ] + if param2.len() == 1 {
        let cid = signed(param2[0]) as i16;
        match first_with_id(presets, cid) {
            Some(i) => (if presets[i].2 is Some {
                seq![("equalizer_rows"@, rows_text(presets[i].2.unwrap()))]
            } else {
                Seq::empty()
            }) + seq![("equalizer_preset"@, presets[i].1)],
            None => seq![("equalizer_preset"@, "unknown_"@ + signed_decimal(cid as i8))],
        }
    } else {
        Seq::empty()
    }
}

fn copy_entry(p: &PresetEntry) -> (r: PresetEntry)
    ensures
        entry_view(r) == entry_view(*p),
{
    let data = match &p.data {
        Some(v) => Some(vstd::slice::slice_to_vec(v.as_slice())),
        None => None,
    };
    PresetEntry { id: p.id, label: p.label.clone(), data }
}

/// The built-in presets that a device offers.
fn builtin_list(avail: &[u8]) -> (r: Vec<PresetEntry>)
    ensures
        presets_view(r@) == builtin_entries(avail@),
{
    let mut out: Vec<PresetEntry> = Vec::new();
    let mut i: usize = 0;
    while i < avail.len()
        invariant
            i <= avail@.len(),
            out@.len() == i,
            presets_view(out@) == builtin_entries(avail@.subrange(0, i as int)),
        decreases avail@.len() - i,
    {
        let b = avail[i];
        let label = match builtin_preset_name(b) {
            Some(n) => text(n),
            None => text("unknown"),
        };
        let ghost before = out@;
        let entry = PresetEntry { id: b, label, data: None };
        out.push(entry);
        proof {
            let want = builtin_entries(avail@.subrange(0, i + 1));
            assert forall|j: int| 0 <= j <= i implies #[trigger] presets_view(out@)[j] == want[j] by {
                if j < i {
                    assert(out@[j] == before[j]);
                    assert(presets_view(before)[j] == builtin_entries(avail@.subrange(0, i as int))[j]);
                } else {
                    assert(out@[j] == entry);
                }
            }
            assert(presets_view(out@) =~= want);
        }
        i += 1;
    }
    assert(avail@.subrange(0, i as int) =~= avail@);
    out
}

/// Appends the custom presets among `s`.
fn append_customs(out: &mut Vec<PresetEntry>, s: &Vec<PresetEntry>)
    ensures
        presets_view(final(out)@) == presets_view(old(out)@) + customs_of(presets_view(s@)),
{
    let mut i: usize = 0;
    while i < s.len()
        invariant
            i <= s@.len(),
            presets_view(out@) == presets_view(old(out)@) + customs_of(
                presets_view(s@.subrange(0, i as int)),
            ),
        decreases s@.len() - i,
    {
        let ghost before = out@;
        if s[i].data.is_some() {
            let e = copy_entry(&s[i]);
            out.push(e);
            assert(presets_view(out@) =~= presets_view(before).push(entry_view(e)));
        }
        assert(presets_view(s@.subrange(0, i + 1)).drop_last() =~= presets_view(s@.subrange(0, i as int)));
        i += 1;
    }
    assert(s@.subrange(0, i as int) =~= s@);
}

/// The bytes before the first zero byte.
pub(crate) fn bytes_until_zero(b: &[u8]) -> (r: &[u8])
    ensures
        r@ == until_zero(b@),
{
    let mut i: usize = 0;
    while i < b.len()
        invariant
            i <= b@.len(),
            forall|j: int| 0 <= j < i ==> b@[j] != 0,
        decreases b@.len() - i,
    {
        if b[i] == 0 {
            proof {
                let f = choose|f: int| 0 <= f < b@.len() && b@[f] == 0 && forall|j: int| 0 <= j < f ==> b@[j] != 0;
                assert(f == i as int) by {
                    if f < i {
                        assert(b@[f] != 0);
                    } else if f > i {
                        assert(b@[i as int] == 0);
                    }
                }
            }
            return vstd::slice::slice_subrange(b, 0, i);
        }
        i += 1;
    }
    b
}

/// The preset of a custom record.
fn record_preset(c: &[u8]) -> (r: Option<PresetEntry>)
    requires
        c@.len() == CUSTOM_RECORD,
    ensures
        match r {
            Some(e) => record_entry(c@) == Some(entry_view(e)),
            None => record_entry(c@) is None,
        },
{
    let count = c[1] as usize;
    if 2 + count > CUSTOM_RECORD {
        return None;
    }
    let data = vstd::slice::slice_to_vec(vstd::slice::slice_subrange(c, 2, 2 + count));
    let label_bytes = bytes_until_zero(vstd::slice::slice_subrange(c, 2 + count, CUSTOM_RECORD));
    let label = match utf8_decode(label_bytes) {
        Some(s) => s,
        None => {
            let mut s = text("custom_");
            s.append(decimal_text(c[0]).as_str());
            s
        },
    };
    Some(PresetEntry { id: c[0], label, data: Some(data) })
}

/// The position of the first preset with a label.
fn first_label_index(s: &Vec<PresetEntry>, label: &str) -> (r: Option<usize>)
    ensures
        match r {
            Some(i) => i < s@.len() && first_with_label(presets_view(s@), label@) == Some(i as int),
            None => first_with_label(presets_view(s@), label@) is None,
        },
{
    let ghost ps = presets_view(s@);
    let mut j: usize = 0;
    while j < s.len()
        invariant
            j <= s@.len(),
            ps == presets_view(s@),
            forall|x: int| 0 <= x < j ==> ps[x].1 != label@,
        decreases s@.len() - j,
    {
        if str_eq(s[j].label.as_str(), label) {
            proof {
                assert(ps[j as int].1 == label@);
                let w = first_with_label(ps, label@).unwrap();
                assert(w == j as int) by {
                    if w < j {
                        assert(ps[w].1 != label@);
                    } else if w > j {
                        assert(ps[j as int].1 == label@);
                    }
                }
            }
            return Some(j);
        }
        j += 1;
    }
    None
}

/// The parameters of the write that selects a preset: its id; for a
/// custom preset also its band count, its band values, its label and 1.
pub open spec fn eq_write(p: PresetView, label_bytes: Seq<u8>) -> Map<u8, Seq<u8>> {
    let base = Map::<u8, Seq<u8>>::empty().insert(1, seq![p.0]);
    match p.2 {
        Some(d) => base.insert(2, seq![(d.len() % 256) as u8]).insert(3, d).insert(4, label_bytes).insert(
            5,
            seq![1u8],
        ),
        None => base,
    }
}

/// The view of the request for the whole equalizer state.
pub open spec fn eq_read_view() -> PacketView {
    (CMD_EQUALIZER_READ@, Map::new(|t: u8| 1 <= t <= 8, |t: u8| Seq::<u8>::empty()))
}

/// The request for the whole equalizer state: parameters 1 to 8.
pub open spec fn is_eq_read(p: HuaweiSppPacket) -> bool {
    &&& p.command_id == CMD_EQUALIZER_READ
    &&& p.params() == Map::new(|t: u8| 1 <= t <= 8, |t: u8| Seq::<u8>::empty())
}

fn eq_read_request() -> (r: HuaweiSppPacket)
    ensures
        is_eq_read(r),
{
    let tags: Vec<u8> = vec![1u8, 2, 3, 4, 5, 6, 7, 8];
    let r = HuaweiSppPacket::read_request(CMD_EQUALIZER_READ, tags.as_slice());
    assert(r.params() =~= Map::new(|t: u8| 1 <= t <= 8, |t: u8| Seq::<u8>::empty())) by {
        assert forall|t: u8| tags@.contains(t) <==> 1 <= t <= 8 by {
            if 1 <= t <= 8 {
                assert(tags@[t - 1] == t);
            }
        }
    }
    r
}

/// The labels of the presets joined by commas.
fn labels_text(s: &Vec<PresetEntry>) -> (r: String)
    ensures
        r@ == joined(presets_view(s@).map_values(|p: PresetView| p.1)),
{
    let ghost ps = presets_view(s@);
        let mut labels: Vec<String> = Vec::new();
        let mut i: usize = 0;
        while i < s.len()
            invariant
                i <= s@.len(),
                ps == presets_view(s@),
                labels@.len() == i,
                labels@.map_values(|t: String| t@) == ps.subrange(0, i as int).map_values(|p: PresetView| p.1),
            decreases s@.len() - i,
        {
            let ghost before = labels@;
            let l = s[i].label.clone();
            labels.push(l);
            proof {
                let want = ps.subrange(0, i + 1).map_values(|p: PresetView| p.1);
                let had = ps.subrange(0, i as int).map_values(|p: PresetView| p.1);
                assert(ps[i as int] == entry_view(s@[i as int]));
                let got = labels@.map_values(|t: String| t@);
                assert forall|j: int| 0 <= j <= i implies #[trigger] got[j] == want[j] by {
                    if j < i {
                        assert(labels@[j] == before[j]);
                        assert(before.map_values(|t: String| t@)[j] == had[j]);
                    } else {
                        assert(labels@[j] == l);
                    }
                }
                assert(got =~= want);
            }
            i += 1;
        }
        assert(ps.subrange(0, i as int) =~= ps);
    join_strings(&labels)
}

/// The position of the first preset with an id.
fn first_id_index(s: &Vec<PresetEntry>, id: i16) -> (r: Option<usize>)
    ensures
        match r {
            Some(i) => i < s@.len() && first_with_id(presets_view(s@), id) == Some(i as int),
            None => first_with_id(presets_view(s@), id) is None,
        },
{
    let ghost ps = presets_view(s@);
    let mut j: usize = 0;
    while j < s.len()
        invariant
            j <= s@.len(),
            ps == presets_view(s@),
            forall|x: int| 0 <= x < j ==> ps[x].0 as i16 != id,
        decreases s@.len() - j,
    {
        if s[j].id as i16 == id {
            proof {
                assert(ps[j as int].0 as i16 == id);
                let w = first_with_id(ps, id).unwrap();
                assert(w == j as int) by {
                    if w < j {
                        assert(ps[w].0 as i16 != id);
                    } else if w > j {
                        assert(ps[j as int].0 as i16 == id);
                    }
                }
            }
            return Some(j);
        }
        j += 1;
    }
    None
}

fn signed_byte(b: u8) -> (r: i8)
    ensures
        r == signed(b),
{
    if b < 128 {
        b as i8
    } else {
        (b as i16 - 256) as i8
    }
}

/// The band values of a custom preset as text.
fn rows_string(data: &[u8]) -> (r: String)
    ensures
        r@ == rows_text(data@),
{
    let mut items: Vec<String> = Vec::new();
    let mut i: usize = 0;
    while i < data.len()
        invariant
            i <= data@.len(),
            items@.len() == i,
            items@.map_values(|t: String| t@) == data@.subrange(0, i as int).map_values(
                |b: u8| signed_decimal(signed(b)),
            ),
        decreases data@.len() - i,
    {
        let ghost before = items@;
        let item = signed_decimal_text(signed_byte(data[i]));
        items.push(item);
        proof {
            let want = data@.subrange(0, i + 1).map_values(|b: u8| signed_decimal(signed(b)));
            let had = data@.subrange(0, i as int).map_values(|b: u8| signed_decimal(signed(b)));
            let got = items@.map_values(|t: String| t@);
            assert forall|j: int| 0 <= j <= i implies #[trigger] got[j] == want[j] by {
                if j < i {
                    assert(items@[j] == before[j]);
                    assert(before.map_values(|t: String| t@)[j] == had[j]);
                } else {
                    assert(items@[j] == item);
                }
            }
            assert(got =~= want);
        }
        i += 1;
    }
    assert(data@.subrange(0, i as int) =~= data@);
    let mut s = text("[");
    s.append(join_strings(&items).as_str());
    s.append("]");
    s
}

/// The equalizer module.
pub struct EqualizerHandler {
    with_custom: bool,
    preset_data: Vec<PresetEntry>,
}

impl EqualizerHandler {
    pub closed spec fn custom(&self) -> bool {
        self.with_custom
    }

    /// The presets known, in order.
    pub closed spec fn presets(&self) -> Seq<PresetView> {
        presets_view(self.preset_data@)
    }

    /// A module with the given built-in presets, labelled
    /// "equalizer_preset_" and their name, and with or without custom
    /// presets.
    pub fn new(presets: Vec<(u8, &'static str)>, with_custom: bool) -> (r: Self)
        ensures
            r.custom() == with_custom,
            r.presets() == presets@.map_values(
                |p: (u8, &'static str)| (p.0, "equalizer_preset_"@ + p.1@, None::<Seq<u8>>),
            ),
    {
        let mut preset_data: Vec<PresetEntry> = Vec::new();
        let mut i: usize = 0;
        while i < presets.len()
            invariant
                i <= presets@.len(),
                preset_data@.len() == i,
                presets_view(preset_data@) == presets@.subrange(0, i as int).map_values(
                    |p: (u8, &'static str)| (p.0, "equalizer_preset_"@ + p.1@, None::<Seq<u8>>),
                ),
            decreases presets@.len() - i,
        {
            let mut label = text("equalizer_preset_");
            label.append(presets[i].1);
            let ghost before = preset_data@;
            let entry = PresetEntry { id: presets[i].0, label, data: None };
            preset_data.push(entry);
            proof {
                let want = presets@.subrange(0, i + 1).map_values(
                    |p: (u8, &'static str)| (p.0, "equalizer_preset_"@ + p.1@, None::<Seq<u8>>),
                );
                let had = presets@.subrange(0, i as int).map_values(
                    |p: (u8, &'static str)| (p.0, "equalizer_preset_"@ + p.1@, None::<Seq<u8>>),
                );
                assert forall|j: int| 0 <= j <= i implies #[trigger] presets_view(preset_data@)[j]
                    == want[j] by {
                    if j < i {
                        assert(preset_data@[j] == before[j]);
                        assert(presets_view(before)[j] == had[j]);
                    } else {
                        assert(preset_data@[j] == entry);
                    }
                }
                assert(presets_view(preset_data@) =~= want);
            }
            i += 1;
        }
        assert(presets@.subrange(0, i as int) =~= presets@);
        EqualizerHandler { with_custom, preset_data }
    }

    /// Updates the presets from a report.
    fn update_presets(&mut self, packet: &HuaweiSppPacket)
        ensures
            final(self).custom() == old(self).custom(),
            final(self).presets() == presets_after(
                old(self).presets(),
                old(self).custom(),
                packet_param(packet, 3),
                packet_param(packet, 8),
            ),
    {
        let available = packet.find_param(3);
        if available.len() > 0 {
            let mut fresh = builtin_list(available);
            append_customs(&mut fresh, &self.preset_data);
            self.preset_data = fresh;
        }
        let records = packet.find_param(8);
        if self.with_custom && records.len() > 0 {
            let len = records.len();
            let n = len / CUSTOM_RECORD;
            let ghost base = presets_view(self.preset_data@);
            let mut k: usize = 0;
            while k < n
                invariant
                    k <= n,
                    len == records@.len(),
                    self.with_custom == old(self).with_custom,
                    n == records@.len() as int / CUSTOM_RECORD as int,
                    presets_view(self.preset_data@) == base + record_entries(records@, k as int),
                decreases n - k,
            {
                let ghost before = self.preset_data@;
                assert(CUSTOM_RECORD * k + CUSTOM_RECORD <= records@.len()) by (nonlinear_arith)
                    requires
                        k < n,
                        n == records@.len() as int / 36,
                        CUSTOM_RECORD == 36,
                ;
                let chunk = vstd::slice::slice_subrange(records, CUSTOM_RECORD * k, CUSTOM_RECORD * k + CUSTOM_RECORD);
                match record_preset(chunk) {
                    Some(e) => {
                        self.preset_data.push(e);
                        assert(presets_view(self.preset_data@) =~= presets_view(before).push(entry_view(e)));
                    },
                    None => {},
                }
                k += 1;
                assert(presets_view(self.preset_data@) =~= base + record_entries(records@, k as int));
            }
        }
    }

    /// The property updates after a report, given its parameter 2.
    fn preset_updates(&self, current: &[u8]) -> (r: Vec<PropertyUpdate>)
        ensures
            updates_view(r@) == eq_report(self.presets(), self.custom(), current@),
    {
        let ghost ps = presets_view(self.preset_data@);
        let mut out: Vec<PropertyUpdate> = Vec::new();
        out.push((text("equalizer_preset_options"), labels_text(&self.preset_data)));
        out.push((text("equalizer_max_custom_modes"), if self.with_custom { text("3") } else { text("0") }));
        if current.len() == 1 {
            let cid = signed_byte(current[0]) as i16;
            let found = first_id_index(&self.preset_data, cid);
            match found {
                Some(f) => {
                    match &self.preset_data[f].data {
                        Some(d) => {
                            out.push((text("equalizer_rows"), rows_string(d.as_slice())));
                        },
                        None => {},
                    }
                    out.push((text("equalizer_preset"), self.preset_data[f].label.clone()));
                },
                None => {
                    let mut s = text("unknown_");
                    s.append(signed_decimal_text(cid as i8).as_str());
                    out.push((text("equalizer_preset"), s));
                },
            }
        }
        assert(updates_view(out@) =~= eq_report(ps, self.with_custom, current@));
        out
    }


    /// Takes in a report: updates the presets, and gives the property
    /// updates.
    pub fn report(&mut self, packet: &HuaweiSppPacket) -> (r: Vec<PropertyUpdate>)
        ensures
            final(self).custom() == old(self).custom(),
            final(self).presets() == presets_after(
                old(self).presets(),
                old(self).custom(),
                packet_param(packet, 3),
                packet_param(packet, 8),
            ),
            updates_view(r@) == eq_report(final(self).presets(), old(self).custom(), packet_param(packet, 2)),
    {
        self.update_presets(packet);
        self.preset_updates(packet.find_param(2))
    }

    /// The packets that carry out a request: for "equalizer_preset", the
    /// write that selects the preset of that label (if one has it), then a
    /// read of the new state; nothing for any other property.
    pub fn request(&self, prop: &str, value: &str) -> (r: Vec<HuaweiSppPacket>)
        ensures
            prop@ != "equalizer_preset"@ ==> r@.len() == 0,
            prop@ == "equalizer_preset"@ ==> match first_with_label(self.presets(), value@) {
                Some(i) => r@.len() == 2 && r@[0].command_id == CMD_EQUALIZER_WRITE && r@[0].params()
                    == eq_write(self.presets()[i], value.spec_bytes()) && is_eq_read(r@[1]),
                None => r@.len() == 1 && is_eq_read(r@[0]),
            },
    {
        let mut pkts: Vec<HuaweiSppPacket> = Vec::new();
        if !str_eq(prop, "equalizer_preset") {
            return pkts;
        }
        match first_label_index(&self.preset_data, value) {
            Some(i) => {
                let p = &self.preset_data[i];
                let ghost pv = entry_view(*p);
                assert(self.presets()[i as int] == pv);
                let mut w = HuaweiSppPacket::new(CMD_EQUALIZER_WRITE);
                let idv = vec![p.id];
                assert(idv@ =~= seq![pv.0]);
                w.set_param(1, idv);
                let ghost base = w.params();
                assert(base == Map::<u8, Seq<u8>>::empty().insert(1, seq![pv.0]));
                match &p.data {
                    Some(d) => {
                        let lenv = vec![(d.len() % 256) as u8];
                        assert(lenv@ =~= seq![(d@.len() % 256) as u8]);
                        w.set_param(2, lenv);
                        w.set_param(3, vstd::slice::slice_to_vec(d.as_slice()));
                        w.set_param(4, vstd::slice::slice_to_vec(value.as_bytes()));
                        let one = vec![1u8];
                        assert(one@ =~= seq![1u8]);
                        w.set_param(5, one);
                        assert(pv.2 == Some(d@));
                        assert(w.params() =~= eq_write(pv, value.spec_bytes()));
                    },
                    None => {
                        assert(pv.2 is None);
                        assert(w.params() =~= eq_write(pv, value.spec_bytes()));
                    },
                }
                pkts.push(w);
            },
            None => {},
        }
        pkts.push(eq_read_request());
        pkts
    }

    /// A module with the given built-in presets and no custom presets.
    pub fn with_presets(presets: Vec<(u8, &'static str)>) -> (r: Self)
        ensures
            !r.custom(),
            r.presets() == presets@.map_values(
                |p: (u8, &'static str)| (p.0, "equalizer_preset_"@ + p.1@, None::<Seq<u8>>),
            ),
    {
        Self::new(presets, false)
    }
}

impl DeviceHandler for EqualizerHandler {
    open spec fn name(&self) -> Seq<char> {
        "config_eq"@
    }

    open spec fn group(&self) -> Seq<char> {
        "sound"@
    }

    open spec fn command_keys(&self) -> Seq<u16> {
        seq![key_of(CMD_EQUALIZER_READ)]
    }

    open spec fn ignored_keys(&self) -> Seq<u16> {
        seq![key_of(CMD_EQUALIZER_WRITE)]
    }

    open spec fn init_requests(&self) -> Seq<PacketView> {
        seq![eq_read_view()]
    }

    open spec fn packet_result(&self, packet: HuaweiSppPacket) -> Result<Seq<(Seq<char>, Seq<char>)>, HandlerError> {
        Ok(
            eq_report(
                presets_after(
                    self.presets(),
                    self.custom(),
                    packet_param(&packet, 3),
                    packet_param(&packet, 8),
                ),
                self.custom(),
                packet_param(&packet, 2),
            ),
        )
    }

    open spec fn set_result(&self, group: &str, prop: &str, value: &str) -> Result<(Seq<PacketView>, Seq<(Seq<char>, Seq<char>)>), HandlerError> {
        if prop@ != "equalizer_preset"@ {
            Ok((Seq::empty(), Seq::empty()))
        } else {
            match first_with_label(self.presets(), value@) {
                Some(i) => Ok(
                    (
                        seq![
                            (CMD_EQUALIZER_WRITE@, eq_write(self.presets()[i], value.spec_bytes())),
                            eq_read_view(),
                        ],
                        Seq::empty(),
                    ),
                ),
                None => Ok((seq![eq_read_view()], Seq::empty())),
            }
        }
    }

    fn handler_id(&self) -> (r: &'static str) {
        "config_eq"
    }

    fn property_group(&self) -> (r: &'static str) {
        "sound"
    }

    fn commands(&self) -> (r: Vec<CommandId>) {
        let r = vec![CMD_EQUALIZER_READ];
        assert(keys_of(r@) =~= self.command_keys());
        r
    }

    fn ignore_commands(&self) -> (r: Vec<CommandId>) {
        let r = vec![CMD_EQUALIZER_WRITE];
        assert(keys_of(r@) =~= self.ignored_keys());
        r
    }

    fn on_init(&mut self) -> (r: Vec<HuaweiSppPacket>) {
        let r = vec![eq_read_request()];
        proof {
            lemma_packets_view(r@);
        }
        r
    }

    fn on_packet(&mut self, packet: &HuaweiSppPacket) -> (r: Result<Vec<PropertyUpdate>, HandlerError>) {
        Ok(self.report(packet))
    }

    fn set_property(&mut self, group: &str, prop: &str, value: &str) -> (r: Result<
        (Vec<HuaweiSppPacket>, Vec<PropertyUpdate>),
        HandlerError,
    >) {
        let r = match Ok::<Vec<HuaweiSppPacket>, HandlerError>(self.request(prop, value)) {
            Ok(pkts) => Ok((pkts, Vec::new())),
            Err(e) => Err(e),
        };
        proof {
            if let Ok((p, u)) = &r {
                lemma_packets_view(p@);
                assert(updates_view(u@) =~= Seq::empty());
            }
        }
        r
    }
}

} // verus!
