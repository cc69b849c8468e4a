//! The primary protocol's packet: a command id and a tag-ordered list of
//! tag-length-value parameters, framed by a magic byte, a big-endian length,
//! a reserved zero byte and a CRC-16/XMODEM trailer.

use std::collections::BTreeMap;
use vstd::prelude::*;

use crate::crc::{be_bytes, crc16_xmodem, xmodem_of};
use crate::text::{append_hex, decimal, decimal_text, hex_of};
use vstd::string::StringExecFns;

verus! {

broadcast use vstd::std_specs::btree::group_btree_axioms;

/// Magic byte at the start of every frame.
pub const MAGIC: u8 = 0x5A;

/// Why a frame could not be decoded.
#[derive(Debug, Clone, Copy, PartialEq, Eq, Structural)]
pub enum PacketError {
    /// Fewer than the 8 bytes of an empty frame.
    TooShort,
    /// The first byte is not the magic byte.
    BadMagic,
    /// The byte after the length is not zero.
    BadReserved,
    /// A parameter claims more bytes than the buffer holds.
    ParamOverflow,
    /// The trailer does not match the checksum of the bytes before it.
    CrcMismatch,
}

/// A packet of the primary protocol.
#[derive(Debug, Clone)]
pub struct HuaweiSppPacket {
    pub command_id: [u8; 2],
    pub parameters: BTreeMap<u8, Vec<u8>>,
}

/// The parameters as a map from tag to value bytes.
pub open spec fn params_of(m: Map<u8, Vec<u8>>) -> Map<u8, Seq<u8>> {
    m.map_values(|v: Vec<u8>| v@)
}

/// The wire form of one parameter, empty when the tag is absent; the length
/// byte keeps the low 8 bits of the value's length.
pub open spec fn tlv_entry(m: Map<u8, Seq<u8>>, t: u8) -> Seq<u8> {
    if m.contains_key(t) {
        seq![t, (m[t].len() % 256) as u8] + m[t]
    } else {
        Seq::empty()
    }
}

/// The wire form of the parameters whose tag is below `n`, in tag order.
pub open spec fn tlv_upto(m: Map<u8, Seq<u8>>, n: int) -> Seq<u8>
    decreases n,
{
    if n <= 0 {
        Seq::empty()
    } else {
        tlv_upto(m, n - 1) + tlv_entry(m, (n - 1) as u8)
    }
}

/// The wire form of all parameters, in increasing tag order.
pub open spec fn tlv_all(m: Map<u8, Seq<u8>>) -> Seq<u8> {
    tlv_upto(m, 256)
}

/// The frame before its checksum: magic, length (of everything from the
/// reserved byte on, kept to 16 bits), reserved zero, command id, parameters.
pub open spec fn frame_head(cmd: Seq<u8>, m: Map<u8, Seq<u8>>) -> Seq<u8> {
    let body = cmd + tlv_all(m);
    seq![MAGIC] + be_bytes(((body.len() + 1) % 65536) as u16) + seq![0u8] + body
}

/// The whole frame: the head followed by the big-endian checksum of the head.
pub open spec fn frame_of(cmd: Seq<u8>, m: Map<u8, Seq<u8>>) -> Seq<u8> {
    frame_head(cmd, m) + be_bytes(xmodem_of(frame_head(cmd, m)))
}

/// The big-endian 16-bit value of two bytes.
pub open spec fn be_value(hi: u8, lo: u8) -> int {
    hi as int * 256 + lo as int
}

/// Parameters read from `pos` on while `pos < end` and a tag and a length
/// byte remain; a later tag replaces an earlier one. `None` when a value runs
/// past the buffer.
pub open spec fn parse_tlv(data: Seq<u8>, pos: int, end: int, acc: Map<u8, Seq<u8>>) -> Option<
    Map<u8, Seq<u8>>,
>
    decreases data.len() - pos,
{
    if pos < end && pos + 1 < data.len() && pos >= 0 {
        let p_end = pos + 2 + data[pos + 1] as int;
        if p_end > data.len() {
            None
        } else {
            parse_tlv(data, p_end, end, acc.insert(data[pos], data.subrange(pos + 2, p_end)))
        }
    } else {
        Some(acc)
    }
}

/// What decoding a buffer gives, without a check of its trailer: the command
/// id and the parameters, or the first fault found.
pub open spec fn decode_spec(data: Seq<u8>) -> Result<(Seq<u8>, Map<u8, Seq<u8>>), PacketError> {
    if data.len() < 8 {
        Err(PacketError::TooShort)
    } else if data[0] != MAGIC {
        Err(PacketError::BadMagic)
    } else if data[3] != 0 {
        Err(PacketError::BadReserved)
    } else {
        match parse_tlv(data, 6, be_value(data[1], data[2]) + 3, Map::empty()) {
            Some(m) => Ok((data.subrange(4, 6), m)),
            None => Err(PacketError::ParamOverflow),
        }
    }
}

/// Whether the trailer of a buffer of at least 8 bytes is the checksum of the
/// bytes before it.
pub open spec fn crc_ok(data: Seq<u8>) -> bool {
    data.subrange(data.len() - 2, data.len() as int) == be_bytes(
        xmodem_of(data.subrange(0, data.len() - 2)),
    )
}

/// What decoding a buffer with a check of its trailer gives.
pub open spec fn decode_checked_spec(data: Seq<u8>) -> Result<
    (Seq<u8>, Map<u8, Seq<u8>>),
    PacketError,
> {
    if data.len() < 8 {
        Err(PacketError::TooShort)
    } else if !crc_ok(data) {
        Err(PacketError::CrcMismatch)
    } else {
        decode_spec(data)
    }
}

/// The description of the parameters whose tag is below `n`: for each, in
/// tag order, " p", the tag in decimal, "=", and the value in lower-case
/// hexadecimal.
pub open spec fn params_text(m: Map<u8, Seq<u8>>, n: int) -> Seq<char>
    decreases n,
{
    if n <= 0 {
        Seq::empty()
    } else if m.contains_key((n - 1) as u8) {
        params_text(m, n - 1) + " p"@ + decimal((n - 1) as u8) + "="@ + hex_of(
            m[(n - 1) as u8],
            false,
        )
    } else {
        params_text(m, n - 1)
    }
}

/// Appends the bytes of `src` to `dst`.
fn append_bytes(dst: &mut Vec<u8>, src: &[u8])
    ensures
        final(dst)@ == old(dst)@ + src@,
{
    let mut i: usize = 0;
    while i < src.len()
        invariant
            i <= src@.len(),
            dst@ == old(dst)@ + src@.subrange(0, i as int),
        decreases src@.len() - i,
    {
        dst.push(src[i]);
        i += 1;
        assert(src@.subrange(0, i as int) =~= src@.subrange(0, i - 1) + seq![src@[i - 1]]);
    }
    assert(src@.subrange(0, i as int) =~= src@);
}

impl HuaweiSppPacket {
    /// The parameters as a map from tag to value bytes.
    pub open spec fn params(&self) -> Map<u8, Seq<u8>> {
        params_of(self.parameters@)
    }

    /// A packet whose wire form is faithful: every value fits its one-byte
    /// length and the body fits the 16-bit length field.
    pub open spec fn well_formed(&self) -> bool {
        &&& forall|t: u8| #[trigger] self.params().contains_key(t) ==> self.params()[t].len() <= 255
        &&& tlv_all(self.params()).len() + 3 <= 65535
    }

    /// A packet with the given command id and no parameters.
    pub fn new(command_id: [u8; 2]) -> (r: Self)
        ensures
            r.command_id == command_id,
            r.params() == Map::<u8, Seq<u8>>::empty(),
    {
        let r = HuaweiSppPacket { command_id, parameters: BTreeMap::new() };
        assert(r.params() =~= Map::<u8, Seq<u8>>::empty());
        r
    }

    /// Sets a parameter.
    pub fn set_param(&mut self, param_type: u8, value: Vec<u8>)
        ensures
            final(self).command_id == old(self).command_id,
            final(self).params() == old(self).params().insert(param_type, value@),
    {
        let ghost before = self.params();
        self.parameters.insert(param_type, value);
        assert(self.params() =~= before.insert(param_type, value@));
    }

    /// A read request: every requested tag with an empty value, which asks
    /// the device to report that parameter.
    pub fn read_request(command_id: [u8; 2], param_types: &[u8]) -> (r: Self)
        ensures
            r.command_id == command_id,
            r.params() == Map::new(|t: u8| param_types@.contains(t), |t: u8| Seq::<u8>::empty()),
    {
        let mut pkt = Self::new(command_id);
        let mut i: usize = 0;
        while i < param_types.len()
            invariant
                i <= param_types@.len(),
                pkt.command_id == command_id,
                pkt.params() == Map::new(
                    |t: u8| param_types@.subrange(0, i as int).contains(t),
                    |t: u8| Seq::<u8>::empty(),
                ),
            decreases param_types@.len() - i,
        {
            let t = param_types[i];
            let ghost before = pkt.params();
            pkt.parameters.insert(t, Vec::new());
            assert(pkt.params() =~= before.insert(t, Seq::<u8>::empty()));
            i += 1;
            assert(pkt.params() =~= Map::new(
                |u: u8| param_types@.subrange(0, i as int).contains(u),
                |u: u8| Seq::<u8>::empty(),
            )) by {
                assert forall|u: u8| param_types@.subrange(0, i as int).contains(u) <==> (
                param_types@.subrange(0, i - 1).contains(u) || u == t) by {
                    if param_types@.subrange(0, i as int).contains(u) {
                        let j = choose|j: int|
                            0 <= j < i && #[trigger] param_types@.subrange(0, i as int)[j] == u;
                        if j < i - 1 {
                            assert(param_types@.subrange(0, i - 1)[j] == u);
                        }
                    }
                    if param_types@.subrange(0, i - 1).contains(u) {
                        let j = choose|j: int|
                            0 <= j < i - 1 && #[trigger] param_types@.subrange(0, i - 1)[j] == u;
                        assert(param_types@.subrange(0, i as int)[j] == u);
                    }
                    if u == t {
                        assert(param_types@.subrange(0, i as int)[i - 1] == u);
                    }
                }
            }
        }
        assert(param_types@.subrange(0, i as int) =~= param_types@);
        pkt
    }

    /// A write request carrying the given parameters; where a tag repeats,
    /// the later value is kept.
    pub fn write_request(command_id: [u8; 2], params: &[(u8, Vec<u8>)]) -> (r: Self)
        ensures
            r.command_id == command_id,
            r.params() == written(params@),
    {
        let mut pkt = Self::new(command_id);
        let mut i: usize = 0;
        while i < params.len()
            invariant
                i <= params@.len(),
                pkt.command_id == command_id,
                pkt.params() == written(params@.subrange(0, i as int)),
            decreases params@.len() - i,
        {
            let t = params[i].0;
            let mut v: Vec<u8> = Vec::new();
            append_bytes(&mut v, params[i].1.as_slice());
            pkt.parameters.insert(t, v);
            i += 1;
            assert(params@.subrange(0, i as int).drop_last() =~= params@.subrange(0, i - 1));
            assert(pkt.params() =~= written(params@.subrange(0, i as int)));
        }
        assert(params@.subrange(0, i as int) =~= params@);
        pkt
    }

    /// The value of a parameter, or no bytes when the tag is absent.
    pub fn find_param(&self, param_type: u8) -> (r: &[u8])
        ensures
            r@ == (if self.params().contains_key(param_type) {
                self.params()[param_type]
            } else {
                Seq::empty()
            }),
    {
        match self.parameters.get(&param_type) {
            Some(v) => v.as_slice(),
            None => &[],
        }
    }

    /// Appends the wire form of the parameters, in increasing tag order.
    fn append_params(&self, body: &mut Vec<u8>)
        ensures
            final(body)@ == old(body)@ + tlv_all(self.params()),
    {
        let ghost m = self.params();
        assert(old(body)@ =~= old(body)@ + tlv_upto(m, 0));
        let mut t: u16 = 0;
        while t < 256
            invariant
                t <= 256,
                m == self.params(),
                body@ == old(body)@ + tlv_upto(m, t as int),
            decreases 256 - t,
        {
            let tag = t as u8;
            let ghost prev = body@;
            match self.parameters.get(&tag) {
                Some(v) => {
                    body.push(tag);
                    body.push((v.len() % 256) as u8);
                    append_bytes(body, v.as_slice());
                    assert(body@ =~= prev + tlv_entry(m, tag));
                },
                None => {
                    assert(tlv_entry(m, tag) =~= Seq::<u8>::empty());
                    assert(body@ =~= prev + tlv_entry(m, tag));
                },
            }
            assert(tlv_upto(m, t + 1) == tlv_upto(m, t as int) + tlv_entry(m, tag));
            assert(body@ =~= old(body)@ + tlv_upto(m, t + 1));
            t += 1;
        }
    }

    /// A one-line description: "cmd=" and the command id in upper-case
    /// hexadecimal, then each parameter.
    pub fn describe(&self) -> (r: String)
        ensures
            r@ == "cmd="@ + hex_of(self.command_id@, true) + params_text(self.params(), 256),
    {
        let ghost m = self.params();
        let mut s = String::new();
        s.append("cmd=");
        append_hex(&mut s, self.command_id.as_slice(), true);
        let ghost head = s@;
        let mut t: u16 = 0;
        while t < 256
            invariant
                t <= 256,
                m == self.params(),
                s@ == head + params_text(m, t as int),
            decreases 256 - t,
        {
            let tag = t as u8;
            match self.parameters.get(&tag) {
                Some(v) => {
                    s.append(" p");
                    s.append(decimal_text(tag).as_str());
                    s.append("=");
                    append_hex(&mut s, v.as_slice(), false);
                },
                None => {},
            }
            t += 1;
        }
        s
    }

    /// The frame that carries this packet.
    pub fn to_bytes(&self) -> (r: Vec<u8>)
        ensures
            r@ == frame_of(self.command_id@, self.params()),
    {
        let mut body: Vec<u8> = Vec::new();
        body.push(self.command_id[0]);
        body.push(self.command_id[1]);
        assert(body@ =~= self.command_id@);
        self.append_params(&mut body);
        let n = body.len() % 65536;
        let length: u16 = if n == 65535 {
            0
        } else {
            (n + 1) as u16
        };
        assert(length == ((body@.len() + 1) % 65536) as u16);
        let mut result: Vec<u8> = Vec::new();
        result.push(MAGIC);
        result.push((length / 256) as u8);
        result.push((length % 256) as u8);
        result.push(0u8);
        append_bytes(&mut result, body.as_slice());
        assert(result@ =~= frame_head(self.command_id@, self.params()));
        let crc = crc16_xmodem(result.as_slice());
        result.push(crc[0]);
        result.push(crc[1]);
        assert(result@ =~= frame_of(self.command_id@, self.params()));
        result
    }

    /// Decodes a frame without checking its trailer: the length field bounds
    /// the parameters that are read.
    pub fn from_bytes(data: &[u8]) -> (r: Result<Self, PacketError>)
        ensures
            match r {
                Ok(p) => decode_spec(data@) == Ok::<_, PacketError>((p.command_id@, p.params())),
                Err(e) => decode_spec(data@) == Err::<(Seq<u8>, Map<u8, Seq<u8>>), _>(e),
            },
    {
        if data.len() < 8 {
            return Err(PacketError::TooShort);
        }
        if data[0] != MAGIC {
            return Err(PacketError::BadMagic);
        }
        if data[3] != 0 {
            return Err(PacketError::BadReserved);
        }
        let length = (data[1] as usize) * 256 + data[2] as usize;
        let end = length + 3;
        let mut pkt = Self::new([data[4], data[5]]);
        assert(pkt.command_id@ =~= data@.subrange(4, 6));
        let mut pos: usize = 6;
        while pos < end && pos + 1 < data.len()
            invariant
                6 <= pos <= data@.len(),
                data@.len() >= 8,
                data@[0] == MAGIC,
                data@[3] == 0,
                end == be_value(data@[1], data@[2]) + 3,
                pkt.command_id@ == data@.subrange(4, 6),
                parse_tlv(data@, 6, end as int, Map::empty()) == parse_tlv(
                    data@,
                    pos as int,
                    end as int,
                    pkt.params(),
                ),
            decreases data@.len() - pos,
        {
            let p_type = data[pos];
            let p_len = data[pos + 1] as usize;
            let p_end = pos + 2 + p_len;
            if p_end > data.len() {
                assert(parse_tlv(data@, pos as int, end as int, pkt.params()) is None);
                assert(parse_tlv(data@, 6, be_value(data@[1], data@[2]) + 3, Map::empty()) is None);
                return Err(PacketError::ParamOverflow);
            }
            let value = vstd::slice::slice_to_vec(vstd::slice::slice_subrange(data, pos + 2, p_end));
            let ghost before = pkt.params();
            pkt.parameters.insert(p_type, value);
            assert(pkt.params() =~= before.insert(p_type, data@.subrange(pos + 2, p_end as int)));
            pos = p_end;
        }
        Ok(pkt)
    }

    /// Decodes a frame after checking that its trailer is the checksum of
    /// the bytes before it.
    pub fn from_bytes_checked(data: &[u8]) -> (r: Result<Self, PacketError>)
        ensures
            match r {
                Ok(p) => decode_checked_spec(data@) == Ok::<_, PacketError>(
                    (p.command_id@, p.params()),
                ),
                Err(e) => decode_checked_spec(data@) == Err::<(Seq<u8>, Map<u8, Seq<u8>>), _>(e),
            },
    {
        if data.len() < 8 {
            return Err(PacketError::TooShort);
        }
        let n = data.len();
        let computed = crc16_xmodem(vstd::slice::slice_subrange(data, 0, n - 2));
        if computed[0] != data[n - 2] || computed[1] != data[n - 1] {
            assert(!crc_ok(data@)) by {
                if crc_ok(data@) {
                    assert(data@.subrange(n - 2, n as int)[0] == data@[n - 2]);
                    assert(data@.subrange(n - 2, n as int)[1] == data@[n - 1]);
                }
            }
            return Err(PacketError::CrcMismatch);
        }
        assert(crc_ok(data@)) by {
            assert(data@.subrange(n - 2, n as int) =~= computed@);
        }
        Self::from_bytes(data)
    }
}

/// The parameters of a write request: each pair in turn, a later tag
/// replacing an earlier one.
pub open spec fn written(s: Seq<(u8, Vec<u8>)>) -> Map<u8, Seq<u8>>
    decreases s.len(),
{
    if s.len() == 0 {
        Map::empty()
    } else {
        written(s.drop_last()).insert(s.last().0, s.last().1@)
    }
}

/// The parameters whose tag is below `n`.
pub open spec fn params_below(m: Map<u8, Seq<u8>>, n: int) -> Map<u8, Seq<u8>> {
    m.restrict(Set::new(|t: u8| (t as int) < n))
}

proof fn lemma_tlv_prefix(m: Map<u8, Seq<u8>>, n: int, k: int)
    requires
        0 <= n <= k,
    ensures
        tlv_upto(m, n).len() <= tlv_upto(m, k).len(),
        tlv_upto(m, k).subrange(0, tlv_upto(m, n).len() as int) == tlv_upto(m, n),
    decreases k,
{
    if n < k {
        lemma_tlv_prefix(m, n, k - 1);
        let a = tlv_upto(m, k - 1);
        let b = tlv_upto(m, k);
        assert(b == a + tlv_entry(m, (k - 1) as u8));
        assert(b.subrange(0, tlv_upto(m, n).len() as int) =~= a.subrange(
            0,
            tlv_upto(m, n).len() as int,
        ));
    } else {
        assert(tlv_upto(m, k).subrange(0, tlv_upto(m, k).len() as int) =~= tlv_upto(m, k));
    }
}

proof fn lemma_be_value(v: u16)
    ensures
        be_value(be_bytes(v)[0], be_bytes(v)[1]) == v as int,
{
    assert((v / 256) as u8 as int == v as int / 256);
    assert((v % 256) as u8 as int == v as int % 256);
}

/// Parsing the frame of `m` consumes the parameters in tag order: after
/// those with a tag below `n` it stands just past them, holding exactly them.
proof fn lemma_parse_steps(
    data: Seq<u8>,
    m: Map<u8, Seq<u8>>,
    end: int,
    n: int,
)
    requires
        0 <= n <= 256,
        forall|t: u8| #[trigger] m.contains_key(t) ==> m[t].len() <= 255,
        end == 6 + tlv_all(m).len(),
        data.len() == end + 2,
        data.subrange(6, end) == tlv_all(m),
    ensures
        parse_tlv(data, 6, end, Map::empty()) == parse_tlv(
            data,
            6 + tlv_upto(m, n).len() as int,
            end,
            params_below(m, n),
        ),
    decreases n,
{
    if n == 0 {
        assert(params_below(m, 0) =~= Map::empty());
    } else {
        lemma_parse_steps(data, m, end, n - 1);
        let t = (n - 1) as u8;
        let prev = tlv_upto(m, n - 1);
        let cur = tlv_upto(m, n);
        let pl: int = prev.len() as int;
        let param1: int = 6 + pl;
        assert(cur == prev + tlv_entry(m, t));
        lemma_tlv_prefix(m, n, 256);
        let all = tlv_all(m);
        assert(all.subrange(0, cur.len() as int) == cur);
        if m.contains_key(t) {
            let v = m[t];
            let vl: int = v.len() as int;
            assert(vl <= 255);
            assert(cur.len() == pl + 2 + vl);
            assert(data[param1] == all[pl]);
            assert(all[pl] == cur[pl]);
            assert(cur[pl] == t);
            assert(data[param1 + 1] == all[pl + 1]);
            assert(cur[pl + 1] == (vl % 256) as u8);
            assert(data[param1 + 1] as int == vl);
            assert(data.subrange(param1 + 2, param1 + 2 + vl) =~= v) by {
                assert forall|i: int| 0 <= i < vl implies data.subrange(
                    param1 + 2,
                    param1 + 2 + vl,
                )[i] == v[i] by {
                    assert(data[param1 + 2 + i] == all[pl + 2 + i]);
                    assert(all[pl + 2 + i] == cur[pl + 2 + i]);
                }
            }
            assert(params_below(m, n - 1).insert(t, v) =~= params_below(m, n));
        } else {
            assert(tlv_entry(m, t) =~= Seq::<u8>::empty());
            assert(cur =~= prev);
            assert(params_below(m, n - 1) =~= params_below(m, n));
        }
    }
}

/// Decoding the frame of a well-formed packet gives back its command id and
/// its parameters, with or without the check of the trailer.
pub proof fn lemma_round_trip(p: HuaweiSppPacket)
    requires
        p.well_formed(),
    ensures
        decode_spec(frame_of(p.command_id@, p.params())) == Ok::<_, PacketError>(
            (p.command_id@, p.params()),
        ),
        decode_checked_spec(frame_of(p.command_id@, p.params())) == Ok::<_, PacketError>(
            (p.command_id@, p.params()),
        ),
{
    let cmd = p.command_id@;
    let m = p.params();
    let all = tlv_all(m);
    let head = frame_head(cmd, m);
    let data = frame_of(cmd, m);
    let len_field = ((cmd.len() + all.len() + 1) % 65536) as u16;
    assert(len_field as int == all.len() + 3);
    lemma_be_value(len_field);
    let end: int = 6 + all.len() as int;
    assert(head.len() == end);
    assert(data.len() == end + 2);
    assert(data.subrange(6, end) =~= all);
    assert(data.subrange(4, 6) =~= cmd);
    assert(be_value(data[1], data[2]) + 3 == end);
    lemma_parse_steps(data, m, end, 256);
    assert(params_below(m, 256) =~= m);
    assert(parse_tlv(data, end, end, m) == Some(m));
    assert(data.subrange(0, data.len() - 2) =~= head);
    assert(data.subrange(data.len() - 2, data.len() as int) =~= be_bytes(xmodem_of(head)));
}

/// A buffer whose last two bytes differ from the checksum of the bytes
/// before them is rejected by the checked decoder: changing the trailer of a
/// frame by any nonzero masks makes it fail with a checksum mismatch.
pub proof fn lemma_corrupt_trailer_rejected(head: Seq<u8>, mask_hi: u8, mask_lo: u8)
    requires
        head.len() >= 6,
        mask_hi != 0 || mask_lo != 0,
    ensures
        decode_checked_spec(
            head + seq![
                be_bytes(xmodem_of(head))[0] ^ mask_hi,
                be_bytes(xmodem_of(head))[1] ^ mask_lo,
            ],
        ) == Err::<(Seq<u8>, Map<u8, Seq<u8>>), _>(PacketError::CrcMismatch),
{
    let c = be_bytes(xmodem_of(head));
    let a = c[0];
    let b = c[1];
    let data = head + seq![a ^ mask_hi, b ^ mask_lo];
    assert(data.subrange(0, data.len() - 2) =~= head);
    if mask_hi != 0 {
        assert((a ^ mask_hi) != a) by (bit_vector)
            requires
                mask_hi != 0,
        ;
        assert(data.subrange(data.len() - 2, data.len() as int)[0] != c[0]);
    } else {
        assert((b ^ mask_lo) != b) by (bit_vector)
            requires
                mask_lo != 0,
        ;
        assert(data.subrange(data.len() - 2, data.len() as int)[1] != c[1]);
    }
}

} // verus!
