//! WebSocket frame codec: header layout, payload masking, and whole-frame
//! encode/decode over byte buffers. Header serialization and masking are done
//! by the `edge_ws` crate; the contracts here state its wire format exactly.
use vstd::prelude::*;

use vstd::slice::slice_to_vec;

verus! {

/// Largest payload a single frame may carry here: the size of the receive
/// buffer. A longer announced payload is treated as a protocol violation.
pub const MAX_FRAME_PAYLOAD: usize = 2048;

/// WebSocket frame kinds. For `Text` and `Binary` the flag means "fragmented"
/// (not final); for `Continue` it means "final".
#[derive(Clone, Copy, Debug, PartialEq, Eq, Structural)]
pub enum WsFrameType {
    Text(bool),
    Binary(bool),
    Ping,
    Pong,
    Close,
    Continue(bool),
}

impl WsFrameType {
    /// Whether a frame of this kind is the final fragment of its message.
    pub open spec fn spec_is_final(self) -> bool {
        match self {
            WsFrameType::Text(fragmented) => !fragmented,
            WsFrameType::Binary(fragmented) => !fragmented,
            WsFrameType::Continue(fin) => fin,
            _ => true,
        }
    }

    /// The four-bit opcode on the wire.
    pub open spec fn spec_opcode(self) -> u8 {
        match self {
            WsFrameType::Text(_) => 1,
            WsFrameType::Binary(_) => 2,
            WsFrameType::Ping => 9,
            WsFrameType::Pong => 10,
            WsFrameType::Close => 8,
            WsFrameType::Continue(_) => 0,
        }
    }

    /// Runtime check mirroring `spec_is_final`.
    pub fn is_final(&self) -> (r: bool)
        ensures
            r == self.spec_is_final(),
    {
        match self {
            WsFrameType::Text(fragmented) => !*fragmented,
            WsFrameType::Binary(fragmented) => !*fragmented,
            WsFrameType::Continue(fin) => *fin,
            _ => true,
        }
    }
}

/// A frame header: kind, payload length, and the masking key, if any.
/// Client-to-server frames carry a fresh mask key; server-to-client frames
/// carry none.
#[derive(Clone, Copy, Debug, PartialEq, Eq, Structural)]
pub struct WsFrameHeader {
    pub frame_type: WsFrameType,
    pub payload_len: u64,
    pub mask_key: Option<u32>,
}

/// The four big-endian bytes of a mask key.
pub open spec fn u32_be_bytes(k: u32) -> Seq<u8> {
    seq![(k >> 24u32) as u8, (k >> 16u32) as u8, (k >> 8u32) as u8, k as u8]
}

/// The two big-endian bytes of an extended 16-bit payload length.
pub open spec fn u16_be_bytes_of(n: u64) -> Seq<u8> {
    seq![(n >> 8u64) as u8, n as u8]
}

/// The eight big-endian bytes of an extended 64-bit payload length.
pub open spec fn u64_be_bytes(n: u64) -> Seq<u8> {
    seq![
        (n >> 56u64) as u8,
        (n >> 48u64) as u8,
        (n >> 40u64) as u8,
        (n >> 32u64) as u8,
        (n >> 24u64) as u8,
        (n >> 16u64) as u8,
        (n >> 8u64) as u8,
        n as u8,
    ]
}

/// First header byte: final-fragment bit and opcode.
pub open spec fn header_byte0(h: WsFrameHeader) -> u8 {
    (if h.frame_type.spec_is_final() {
        0x80u8
    } else {
        0u8
    }) | h.frame_type.spec_opcode()
}

/// Second header byte: mask bit and the 7-bit length code.
pub open spec fn header_byte1(h: WsFrameHeader) -> u8 {
    (if h.mask_key is Some {
        0x80u8
    } else {
        0u8
    }) | (if h.payload_len < 126 {
        h.payload_len as u8
    } else if h.payload_len < 65536 {
        126u8
    } else {
        127u8
    })
}

/// The extended-length bytes, empty for short payloads.
pub open spec fn header_len_ext(h: WsFrameHeader) -> Seq<u8> {
    if h.payload_len < 126 {
        Seq::empty()
    } else if h.payload_len < 65536 {
        u16_be_bytes_of(h.payload_len)
    } else {
        u64_be_bytes(h.payload_len)
    }
}

/// The mask-key bytes, empty for unmasked frames.
pub open spec fn header_mask_bytes(h: WsFrameHeader) -> Seq<u8> {
    match h.mask_key {
        None => Seq::empty(),
        Some(k) => u32_be_bytes(k),
    }
}

/// The serialized header: flags and opcode, length, then the mask key.
pub open spec fn header_bytes(h: WsFrameHeader) -> Seq<u8> {
    seq![header_byte0(h), header_byte1(h)] + header_len_ext(h) + header_mask_bytes(h)
}

/// The mask byte applied at absolute payload offset `j`.
pub open spec fn mask_byte(key: u32, j: int) -> u8 {
    u32_be_bytes(key)[j % 4]
}

/// `data` masked with `key`, where the first byte sits at offset `start` of
/// the mask cycle. Masking is its own inverse.
pub open spec fn masked_with(data: Seq<u8>, key: u32, start: int) -> Seq<u8> {
    Seq::new(data.len(), |i: int| data[i] ^ mask_byte(key, start + i))
}

/// Masking with an optional key: no key leaves the data untouched.
pub open spec fn masked(data: Seq<u8>, mask: Option<u32>, start: int) -> Seq<u8> {
    match mask {
        None => data,
        Some(k) => masked_with(data, k, start),
    }
}

/// A whole frame on the wire: the header followed by the masked payload.
pub open spec fn frame_bytes(h: WsFrameHeader, payload: Seq<u8>) -> Seq<u8> {
    header_bytes(h) + masked(payload, h.mask_key, 0)
}

/// Outcome of parsing a header from the front of a buffer.
pub enum HeaderParse {
    /// This many more bytes are needed before the header can be read.
    Incomplete(int),
    /// Reserved bits set or an unknown opcode.
    Malformed,
    /// The header and how many bytes of the buffer it occupied.
    Parsed(WsFrameHeader, int),
}

/// The frame type encoded by an opcode and the final-fragment bit.
pub open spec fn frame_type_of(opcode: u8, fin: bool) -> WsFrameType {
    if opcode == 0 {
        WsFrameType::Continue(fin)
    } else if opcode == 1 {
        WsFrameType::Text(!fin)
    } else if opcode == 2 {
        WsFrameType::Binary(!fin)
    } else if opcode == 8 {
        WsFrameType::Close
    } else if opcode == 9 {
        WsFrameType::Ping
    } else {
        WsFrameType::Pong
    }
}

/// Parse a frame header from the front of `buf`: flags and opcode first, then
/// the 7-bit length code with its extension, then the mask key if the mask
/// bit is set. Reserved bits or an opcode outside the known six are malformed.
pub open spec fn header_parse(buf: Seq<u8>) -> HeaderParse {
    if buf.len() < 2 {
        HeaderParse::Incomplete(2 - buf.len())
    } else {
        let fin = buf[0] & 0x80 != 0;
        let opcode = buf[0] & 0x0f;
        if buf[0] & 0x70 != 0 {
            HeaderParse::Malformed
        } else if (3 <= opcode && opcode <= 7) || opcode >= 11 {
            HeaderParse::Malformed
        } else {
            let len7 = buf[1] & 0x7f;
            let masked_bit = buf[1] & 0x80 != 0;
            let len_ext_n: int = if len7 == 126 {
                2
            } else if len7 == 127 {
                8
            } else {
                0
            };
            if buf.len() < 2 + len_ext_n {
                HeaderParse::Incomplete(2 + len_ext_n - buf.len())
            } else {
                let payload_len: u64 = if len7 == 126 {
                    (buf[2] as u64) << 8u64 | (buf[3] as u64)
                } else if len7 == 127 {
                    ((buf[2] as u64) << 56u64) | ((buf[3] as u64) << 48u64) | (
                    (buf[4] as u64) << 40u64) | ((buf[5] as u64) << 32u64) | (
                    (buf[6] as u64) << 24u64) | ((buf[7] as u64) << 16u64) | (
                    (buf[8] as u64) << 8u64) | (buf[9] as u64)
                } else {
                    len7 as u64
                };
                if masked_bit && buf.len() < 2 + len_ext_n + 4 {
                    HeaderParse::Incomplete(2 + len_ext_n + 4 - buf.len())
                } else {
                    let mask_key: Option<u32> = if masked_bit {
                        Some(
                            ((buf[2 + len_ext_n] as u32) << 24u32) | ((buf[3 + len_ext_n] as u32)
                                << 16u32) | ((buf[4 + len_ext_n] as u32) << 8u32) | (buf[5
                                + len_ext_n] as u32),
                        )
                    } else {
                        None
                    };
                    let consumed: int = 2 + len_ext_n + if masked_bit {
                        4int
                    } else {
                        0int
                    };
                    HeaderParse::Parsed(
                        WsFrameHeader {
                            frame_type: frame_type_of(opcode, fin),
                            payload_len,
                            mask_key,
                        },
                        consumed,
                    )
                }
            }
        }
    }
}

/// Errors of the byte-level frame reader.
#[derive(Clone, Copy, Debug, PartialEq, Eq, Structural)]
pub enum FrameDecodeErr {
    /// At least this many further bytes are needed.
    Incomplete(usize),
    /// A frame-level protocol violation; fatal to the session.
    Malformed,
}

/// Outcome of parsing one whole frame from the front of a buffer.
pub enum FrameParse {
    /// This many more bytes are needed before a whole frame can be read.
    Incomplete(int),
    /// A malformed header, or a payload longer than the receive buffer.
    Malformed,
    /// The header, the unmasked payload, and the bytes consumed.
    Frame(WsFrameHeader, Seq<u8>, int),
}

/// Parse one whole frame: the header, then exactly `payload_len` payload
/// bytes, unmasked when the header carries a key.
pub open spec fn frame_parse(buf: Seq<u8>) -> FrameParse {
    match header_parse(buf) {
        HeaderParse::Incomplete(k) => FrameParse::Incomplete(k),
        HeaderParse::Malformed => FrameParse::Malformed,
        HeaderParse::Parsed(h, n) => {
            if h.payload_len > MAX_FRAME_PAYLOAD {
                FrameParse::Malformed
            } else if buf.len() < n + h.payload_len {
                FrameParse::Incomplete(n + h.payload_len - buf.len())
            } else {
                FrameParse::Frame(
                    h,
                    masked(buf.subrange(n, n + h.payload_len), h.mask_key, 0),
                    n + h.payload_len,
                )
            }
        },
    }
}

/// A parsed header occupies at least the two fixed bytes and never more than
/// the buffer it was read from.
pub proof fn lemma_header_parse_bounds(buf: Seq<u8>)
    ensures
        header_parse(buf) matches HeaderParse::Parsed(h, n) ==> 2 <= n <= buf.len(),
{
}

/// Relies on `edge_ws::FrameHeader::serialize`: writes the final bit and
/// opcode, the mask bit with the 7-bit length code and its big-endian
/// extension, then the big-endian mask key, as `header_bytes` states.
#[verifier::external_body]
fn serialize_header(h: &WsFrameHeader) -> (r: Vec<u8>)
    ensures
        r@ == header_bytes(*h),
{
    let frame_type = match h.frame_type {
        WsFrameType::Text(f) => edge_ws::FrameType::Text(f),
        WsFrameType::Binary(f) => edge_ws::FrameType::Binary(f),
        WsFrameType::Ping => edge_ws::FrameType::Ping,
        WsFrameType::Pong => edge_ws::FrameType::Pong,
        WsFrameType::Close => edge_ws::FrameType::Close,
        WsFrameType::Continue(f) => edge_ws::FrameType::Continue(f),
    };
    let hdr = edge_ws::FrameHeader { frame_type, payload_len: h.payload_len, mask_key: h.mask_key };
    let mut buf = [0u8; 14];
    let n = hdr.serialize(&mut buf).unwrap();
    buf[..n].to_vec()
}

/// Relies on `edge_ws::FrameHeader::deserialize`: reads a header back from
/// the front of a buffer, reporting how many bytes are missing when the
/// buffer is short, exactly as `header_parse` states.
#[verifier::external_body]
fn deserialize_header(buf: &[u8]) -> (r: Result<(WsFrameHeader, usize), FrameDecodeErr>)
    ensures
        match r {
            Ok((h, n)) => header_parse(buf@) == HeaderParse::Parsed(h, n as int),
            Err(FrameDecodeErr::Incomplete(k)) => header_parse(buf@) == HeaderParse::Incomplete(
                k as int,
            ),
            Err(FrameDecodeErr::Malformed) => header_parse(buf@) == HeaderParse::Malformed,
        },
{
    match edge_ws::FrameHeader::deserialize(buf) {
        Ok((h, n)) => {
            let frame_type = match h.frame_type {
                edge_ws::FrameType::Text(f) => WsFrameType::Text(f),
                edge_ws::FrameType::Binary(f) => WsFrameType::Binary(f),
                edge_ws::FrameType::Ping => WsFrameType::Ping,
                edge_ws::FrameType::Pong => WsFrameType::Pong,
                edge_ws::FrameType::Close => WsFrameType::Close,
                edge_ws::FrameType::Continue(f) => WsFrameType::Continue(f),
            };
            Ok((WsFrameHeader { frame_type, payload_len: h.payload_len, mask_key: h.mask_key }, n))
        },
        Err(edge_ws::Error::Incomplete(k)) => Err(FrameDecodeErr::Incomplete(k)),
        Err(_) => Err(FrameDecodeErr::Malformed),
    }
}

/// Relies on `edge_ws::FrameHeader::mask_with`: XORs each byte with the mask
/// byte of its absolute offset, and leaves data untouched without a key.
#[verifier::external_body]
fn mask_in_place(data: &mut Vec<u8>, mask_key: Option<u32>, start: usize)
    ensures
        final(data)@ == masked(old(data)@, mask_key, start as int),
{
    edge_ws::FrameHeader::mask_with(data.as_mut_slice(), mask_key, start);
}

/// Encode one whole frame: the serialized header followed by the payload,
/// masked when the header carries a key.
pub fn encode_frame(h: &WsFrameHeader, payload: &[u8]) -> (r: Vec<u8>)
    requires
        payload@.len() == h.payload_len,
    ensures
        r@ == frame_bytes(*h, payload@),
{
    let mut out = serialize_header(h);
    let mut body = slice_to_vec(payload);
    mask_in_place(&mut body, h.mask_key, 0);
    out.append(&mut body);
    assert(out@ =~= frame_bytes(*h, payload@));
    out
}

/// Decode one whole frame from the front of `buf`. Reports how many more
/// bytes are needed when the buffer holds less than a frame, so a reader can
/// grow its buffer and try again; a malformed header or an oversized payload
/// is a protocol violation.
pub fn decode_frame(buf: &[u8]) -> (r: Result<(WsFrameHeader, Vec<u8>, usize), FrameDecodeErr>)
    ensures
        match r {
            Ok((h, payload, consumed)) => frame_parse(buf@) == FrameParse::Frame(
                h,
                payload@,
                consumed as int,
            ),
            Err(FrameDecodeErr::Incomplete(k)) => frame_parse(buf@) == FrameParse::Incomplete(
                k as int,
            ),
            Err(FrameDecodeErr::Malformed) => frame_parse(buf@) == FrameParse::Malformed,
        },
{
    let (h, n) = match deserialize_header(buf) {
        Ok(x) => x,
        Err(e) => {
            return Err(e);
        },
    };
    proof {
        lemma_header_parse_bounds(buf@);
    }
    if h.payload_len > MAX_FRAME_PAYLOAD as u64 {
        return Err(FrameDecodeErr::Malformed);
    }
    let plen = h.payload_len as usize;
    let rem = buf.len() - n;
    if plen > rem {
        return Err(FrameDecodeErr::Incomplete(plen - rem));
    }
    let mut payload = slice_to_vec(vstd::slice::slice_subrange(buf, n, n + plen));
    mask_in_place(&mut payload, h.mask_key, 0);
    Ok((h, payload, n + plen))
}

/// Masking is an involution: applying the same key at the same offset twice
/// gives the data back.
pub proof fn lemma_mask_involution(data: Seq<u8>, mask: Option<u32>, start: int)
    ensures
        masked(masked(data, mask, start), mask, start) == data,
{
    match mask {
        None => {},
        Some(k) => {
            let once = masked_with(data, k, start);
            let twice = masked_with(once, k, start);
            assert forall|i: int| 0 <= i < data.len() implies twice[i] == data[i] by {
                let a = data[i];
                let m = mask_byte(k, start + i);
                assert((a ^ m) ^ m == a) by (bit_vector);
            };
            assert(twice =~= data);
        },
    }
}

/// A serialized header parses back to itself, whatever follows it in the
/// buffer, and consumes exactly its own bytes.
#[verifier::rlimit(60)]
pub proof fn lemma_header_roundtrip(h: WsFrameHeader, rest: Seq<u8>)
    ensures
        header_parse(header_bytes(h) + rest) == HeaderParse::Parsed(
            h,
            header_bytes(h).len() as int,
        ),
{
    let b0 = header_byte0(h);
    let b1 = header_byte1(h);
    let ext = header_len_ext(h);
    let mk = header_mask_bytes(h);
    let hb = header_bytes(h);
    let buf = hb + rest;
    let op = h.frame_type.spec_opcode();
    let fin = h.frame_type.spec_is_final();
    let len = h.payload_len;
    let fb: u8 = if fin {
        0x80u8
    } else {
        0u8
    };
    let mb: u8 = if h.mask_key is Some {
        0x80u8
    } else {
        0u8
    };

    assert(hb.len() == 2 + ext.len() + mk.len());
    assert(buf[0] == b0 && buf[1] == b1);
    assert(forall|j: int| 0 <= j < ext.len() ==> buf[2 + j] == ext[j]);
    assert(forall|j: int|
        0 <= j < mk.len() ==> buf[2 + ext.len() + j] == mk[j]);

    // The first byte gives back the final bit and the opcode, with the
    // reserved bits clear.
    assert(op == 0 || op == 1 || op == 2 || op == 8 || op == 9 || op == 10);
    assert((fb == 0u8 || fb == 0x80u8) && (op == 0 || op == 1 || op == 2 || op == 8 || op == 9
        || op == 10) ==> ((fb | op) & 0x70 == 0 && (fb | op) & 0x0f == op && (((fb | op) & 0x80
        != 0) <==> fb == 0x80u8))) by (bit_vector);
    assert(b0 & 0x70 == 0);
    assert(b0 & 0x0f == op);
    assert((b0 & 0x80 != 0) == fin);
    assert(frame_type_of(op, fin) == h.frame_type);

    // The second byte gives back the mask bit and the length code.
    if len < 126 {
        let l8 = len as u8;
        assert((mb == 0u8 || mb == 0x80u8) && len < 126 && l8 == len as u8 ==> ((mb | l8) & 0x7f
            == l8 && (((mb | l8) & 0x80 != 0) <==> mb == 0x80u8) && l8 < 126 && (l8 as u64)
            == len)) by (bit_vector);
        assert(b1 & 0x7f == l8 && l8 < 126);
        assert((l8 as u64) == len);
    } else if len < 65536 {
        assert((mb == 0u8 || mb == 0x80u8) ==> ((mb | 126u8) & 0x7f == 126 && (((mb | 126u8)
            & 0x80 != 0) <==> mb == 0x80u8))) by (bit_vector);
        assert(ext.len() == 2);
        assert(buf[2] == (len >> 8u64) as u8 && buf[3] == len as u8);
        assert(126 <= len < 65536 ==> ((((len >> 8u64) as u8) as u64) << 8u64 | ((len as u8)
            as u64)) == len) by (bit_vector);
    } else {
        assert((mb == 0u8 || mb == 0x80u8) ==> ((mb | 127u8) & 0x7f == 127 && (((mb | 127u8)
            & 0x80 != 0) <==> mb == 0x80u8))) by (bit_vector);
        assert(ext.len() == 8);
        assert(buf[2] == (len >> 56u64) as u8 && buf[3] == (len >> 48u64) as u8 && buf[4] == (len
            >> 40u64) as u8 && buf[5] == (len >> 32u64) as u8 && buf[6] == (len >> 24u64) as u8
            && buf[7] == (len >> 16u64) as u8 && buf[8] == (len >> 8u64) as u8 && buf[9]
            == len as u8);
        assert(((((len >> 56u64) as u8) as u64) << 56u64) | ((((len >> 48u64) as u8) as u64)
            << 48u64) | ((((len >> 40u64) as u8) as u64) << 40u64) | ((((len >> 32u64) as u8)
            as u64) << 32u64) | ((((len >> 24u64) as u8) as u64) << 24u64) | ((((len >> 16u64)
            as u8) as u64) << 16u64) | ((((len >> 8u64) as u8) as u64) << 8u64) | ((len as u8)
            as u64) == len) by (bit_vector);
    }

    // The mask-key bytes give back the key.
    match h.mask_key {
        None => {},
        Some(k) => {
            assert(mk.len() == 4);
            let e = ext.len() as int;
            assert(buf[2 + e] == (k >> 24u32) as u8 && buf[3 + e] == (k >> 16u32) as u8 && buf[4
                + e] == (k >> 8u32) as u8 && buf[5 + e] == k as u8);
            assert(((((k >> 24u32) as u8) as u32) << 24u32) | ((((k >> 16u32) as u8) as u32)
                << 16u32) | ((((k >> 8u32) as u8) as u32) << 8u32) | ((k as u8) as u32) == k)
                by (bit_vector);
        },
    }
}

/// Round trip through the frame codec: a frame encoded from any header and
/// matching payload parses back to that header and payload, and consumes
/// exactly the encoded bytes.
pub proof fn lemma_frame_roundtrip(h: WsFrameHeader, payload: Seq<u8>)
    requires
        payload.len() == h.payload_len,
        h.payload_len <= MAX_FRAME_PAYLOAD,
    ensures
        frame_parse(frame_bytes(h, payload)) == FrameParse::Frame(
            h,
            payload,
            frame_bytes(h, payload).len() as int,
        ),
{
    let hb = header_bytes(h);
    let mp = masked(payload, h.mask_key, 0);
    let buf = frame_bytes(h, payload);
    lemma_header_roundtrip(h, mp);
    assert(buf.len() == hb.len() + mp.len());
    assert(mp.len() == payload.len());
    assert(buf.subrange(hb.len() as int, buf.len() as int) =~= mp);
    lemma_mask_involution(payload, h.mask_key, 0);
}

} // verus!
