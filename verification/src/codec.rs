//! Wire codec of the IPC protocol between this service and the
//! companion application.
//!
//! The encoding is versioned, length-delimited and self-describing:
//!
//! - every multi-byte integer is little-endian, 32 bits wide;
//! - a string is its UTF-8 byte length (u32) followed by those bytes;
//! - the request is the two bytes `[version, 0]`;
//! - a response is `[version, tag]` followed by the tag's payload:
//!   tag 0 (no selection) carries nothing; tag 1 (selection) carries the
//!   source-type string, the source-id string and a geometry flag byte,
//!   with the four geometry fields (origin as two's complement) after a
//!   flag of 1; tag 2 (error) carries the message string.
//!
//! A response must fill its buffer exactly; trailing bytes are rejected.

use vstd::prelude::*;
use crate::portal::{spec_wrap_to_i32, wrap_to_i32};
use crate::selection::{Geometry, IpcResponse, IpcResponseView};
use vstd::slice::slice_subrange;
use vstd::string::StrSliceExecFns;
use vstd::utf8::{decode_utf8, encode_utf8, encode_utf8_decode_utf8, encode_utf8_valid_utf8, valid_utf8};

verus! {

/// Version byte of the wire format.
pub const WIRE_VERSION: u8 = 1;

/// Request tag: "what is the current selection".
pub const REQUEST_QUERY_SELECTION: u8 = 0;

/// Response tag: no selection has been made.
pub const TAG_NO_SELECTION: u8 = 0;

/// Response tag: a selection, with optional geometry.
pub const TAG_SELECTION: u8 = 1;

/// Response tag: the companion application reports an error.
pub const TAG_ERROR: u8 = 2;

/// The four little-endian bytes of a 32-bit value.
pub open spec fn u32_le_bytes(n: u32) -> Seq<u8> {
    seq![
        (n % 0x100) as u8,
        ((n / 0x100) % 0x100) as u8,
        ((n / 0x10000) % 0x100) as u8,
        ((n / 0x1000000) % 0x100) as u8,
    ]
}

/// The 32-bit value four little-endian bytes carry.
pub open spec fn le_u32(b0: u8, b1: u8, b2: u8, b3: u8) -> u32 {
    (b0 + b1 * 0x100 + b2 * 0x10000 + b3 * 0x1000000) as u32
}

/// Law: reading back the four bytes of a value yields the value.
pub proof fn lemma_u32_le_roundtrip(n: u32)
    ensures
        le_u32(
            (n % 0x100) as u8,
            ((n / 0x100) % 0x100) as u8,
            ((n / 0x10000) % 0x100) as u8,
            ((n / 0x1000000) % 0x100) as u8,
        ) == n,
{
    assert(n == (n % 0x100) + (n / 0x100 % 0x100) * 0x100 + (n / 0x10000 % 0x100) * 0x10000 + (n
        / 0x1000000 % 0x100) * 0x1000000) by (bit_vector);
}

/// The unsigned 32-bit pattern of a signed value (two's complement).
pub open spec fn spec_i32_as_u32(x: i32) -> u32 {
    if x >= 0 {
        x as u32
    } else {
        (x + 0x1_0000_0000) as u32
    }
}

/// Reinterprets a signed 32-bit value as its unsigned bit pattern.
pub fn i32_as_u32(x: i32) -> (r: u32)
    ensures
        r == spec_i32_as_u32(x),
{
    if x >= 0 {
        x as u32
    } else {
        ((x as i64) + 0x1_0000_0000i64) as u32
    }
}

/// Law: the signed reading of a value's unsigned pattern is the value,
/// and conversely.
pub proof fn lemma_i32_u32_roundtrip(x: i32, u: u32)
    ensures
        spec_wrap_to_i32(spec_i32_as_u32(x)) == x,
        spec_i32_as_u32(spec_wrap_to_i32(u)) == u,
{
}

/// The wire form of a string: four length bytes, then the UTF-8 bytes.
pub open spec fn spec_encode_str(s: Seq<char>) -> Seq<u8> {
    u32_le_bytes(encode_utf8(s).len() as u32) + encode_utf8(s)
}

/// A string fits the wire's length field.
pub open spec fn str_len_fits(s: Seq<char>) -> bool {
    encode_utf8(s).len() <= 0xffff_ffff
}

/// A response is encodable when each of its strings fits the length
/// field.
pub open spec fn encodable(r: IpcResponseView) -> bool {
    match r {
        IpcResponseView::NoSelection => true,
        IpcResponseView::Error { message } => str_len_fits(message),
        IpcResponseView::Selection { source_type, source_id, geometry: _ } => str_len_fits(
            source_type,
        ) && str_len_fits(source_id),
    }
}

/// The wire form of the optional geometry.
pub open spec fn spec_encode_geometry(g: Option<Geometry>) -> Seq<u8> {
    match g {
        None => seq![0u8],
        Some(g) => seq![1u8] + u32_le_bytes(spec_i32_as_u32(g.x)) + u32_le_bytes(
            spec_i32_as_u32(g.y),
        ) + u32_le_bytes(g.width) + u32_le_bytes(g.height),
    }
}

/// The wire form of a response.
pub open spec fn spec_encode_response(r: IpcResponseView) -> Seq<u8> {
    match r {
        IpcResponseView::NoSelection => seq![WIRE_VERSION, TAG_NO_SELECTION],
        IpcResponseView::Error { message } => seq![WIRE_VERSION, TAG_ERROR] + spec_encode_str(
            message,
        ),
        IpcResponseView::Selection { source_type, source_id, geometry } => seq![
            WIRE_VERSION,
            TAG_SELECTION,
        ] + spec_encode_str(source_type) + spec_encode_str(source_id) + spec_encode_geometry(
            geometry,
        ),
    }
}

/// The wire form of the request.
pub open spec fn spec_encode_request() -> Seq<u8> {
    seq![WIRE_VERSION, REQUEST_QUERY_SELECTION]
}

/// One length-prefixed string read at `pos`: the decoded characters and
/// the position after them, or `None` when the bytes carry no
/// well-formed string there.
pub open spec fn spec_read_str(b: Seq<u8>, pos: int) -> Option<(Seq<char>, int)> {
    if pos + 4 <= b.len() {
        let n = le_u32(b[pos], b[pos + 1], b[pos + 2], b[pos + 3]) as int;
        if pos + 4 + n <= b.len() {
            let bytes = b.subrange(pos + 4, pos + 4 + n);
            if valid_utf8(bytes) {
                Some((decode_utf8(bytes), pos + 4 + n))
            } else {
                None
            }
        } else {
            None
        }
    } else {
        None
    }
}

/// The tail of a selection response after its two strings: the geometry
/// flag and, when the flag is 1, the four geometry fields.
pub open spec fn spec_decode_tail(
    b: Seq<u8>,
    pos: int,
    source_type: Seq<char>,
    source_id: Seq<char>,
) -> Option<IpcResponseView> {
    if pos < b.len() && b[pos] == 0 && pos + 1 == b.len() {
        Some(IpcResponseView::Selection { source_type, source_id, geometry: None })
    } else if pos < b.len() && b[pos] == 1 && pos + 17 == b.len() {
        Some(
            IpcResponseView::Selection {
                source_type,
                source_id,
                geometry: Some(
                    Geometry {
                        x: spec_wrap_to_i32(le_u32(b[pos + 1], b[pos + 2], b[pos + 3], b[pos + 4])),
                        y: spec_wrap_to_i32(le_u32(b[pos + 5], b[pos + 6], b[pos + 7], b[pos + 8])),
                        width: le_u32(b[pos + 9], b[pos + 10], b[pos + 11], b[pos + 12]),
                        height: le_u32(b[pos + 13], b[pos + 14], b[pos + 15], b[pos + 16]),
                    },
                ),
            },
        )
    } else {
        None
    }
}

/// The response a byte buffer carries, or `None` when it carries none.
/// The buffer must be consumed exactly.
pub open spec fn spec_decode_response(b: Seq<u8>) -> Option<IpcResponseView> {
    if b.len() < 2 || b[0] != WIRE_VERSION {
        None
    } else if b[1] == TAG_NO_SELECTION {
        if b.len() == 2 {
            Some(IpcResponseView::NoSelection)
        } else {
            None
        }
    } else if b[1] == TAG_ERROR {
        match spec_read_str(b, 2) {
            Some((message, end)) => if end == b.len() {
                Some(IpcResponseView::Error { message })
            } else {
                None
            },
            None => None,
        }
    } else if b[1] == TAG_SELECTION {
        match spec_read_str(b, 2) {
            Some((source_type, p1)) => match spec_read_str(b, p1) {
                Some((source_id, p2)) => spec_decode_tail(b, p2, source_type, source_id),
                None => None,
            },
            None => None,
        }
    } else {
        None
    }
}

proof fn lemma_read_encoded_str(b: Seq<u8>, pos: int, s: Seq<char>)
    requires
        str_len_fits(s),
        0 <= pos,
        pos + spec_encode_str(s).len() <= b.len(),
        b.subrange(pos, pos + spec_encode_str(s).len()) =~= spec_encode_str(s),
    ensures
        spec_read_str(b, pos) == Some((s, pos + spec_encode_str(s).len())),
{
    let e = encode_utf8(s);
    let n = e.len() as int;
    let enc = spec_encode_str(s);
    let n32 = e.len() as u32;
    assert(enc.len() == 4 + n);
    assert forall|k: int| 0 <= k < enc.len() implies b[pos + k] == enc[k] by {
        assert(b.subrange(pos, pos + enc.len())[k] == b[pos + k]);
    }
    assert(enc.subrange(0, 4) =~= u32_le_bytes(n32));
    assert(enc[0] == (n32 % 0x100) as u8);
    assert(enc[1] == ((n32 / 0x100) % 0x100) as u8);
    assert(enc[2] == ((n32 / 0x10000) % 0x100) as u8);
    assert(enc[3] == ((n32 / 0x1000000) % 0x100) as u8);
    lemma_u32_le_roundtrip(n32);
    assert(le_u32(b[pos], b[pos + 1], b[pos + 2], b[pos + 3]) == n32);
    assert(pos + 4 + n <= b.len());
    assert(b.subrange(pos + 4, pos + 4 + n) =~= e) by {
        assert forall|j: int| 0 <= j < n implies b[pos + 4 + j] == e[j] by {
            assert(b[pos + 4 + j] == enc[4 + j]);
            assert(enc[4 + j] == e[j]);
        }
    }
    encode_utf8_valid_utf8(s);
    encode_utf8_decode_utf8(s);
}

proof fn lemma_tail_roundtrip(
    b: Seq<u8>,
    pos: int,
    st: Seq<char>,
    sid: Seq<char>,
    g: Option<Geometry>,
)
    requires
        0 <= pos,
        b.len() == pos + spec_encode_geometry(g).len(),
        b.subrange(pos, b.len() as int) =~= spec_encode_geometry(g),
    ensures
        spec_decode_tail(b, pos, st, sid) == Some(
            IpcResponseView::Selection { source_type: st, source_id: sid, geometry: g },
        ),
{
    let gg = spec_encode_geometry(g);
    assert forall|k: int| 0 <= k < gg.len() implies b[pos + k] == gg[k] by {
        assert(b.subrange(pos, b.len() as int)[k] == b[pos + k]);
    }
    match g {
        None => {
            assert(gg.len() == 1);
            assert(b[pos + 0] == gg[0]);
            assert(b[pos] == 0u8);
        },
        Some(geo) => {
            let ux = spec_i32_as_u32(geo.x);
            let uy = spec_i32_as_u32(geo.y);
            assert(gg.len() == 17);
            assert(b[pos + 0] == gg[0]);
            assert(b[pos] == 1u8);
            assert(gg.subrange(1, 5) =~= u32_le_bytes(ux));
            assert(gg.subrange(5, 9) =~= u32_le_bytes(uy));
            assert(gg.subrange(9, 13) =~= u32_le_bytes(geo.width));
            assert(gg.subrange(13, 17) =~= u32_le_bytes(geo.height));
            assert forall|j: int| 0 <= j < 4 implies gg[1 + j] == u32_le_bytes(ux)[j] by {
                assert(gg.subrange(1, 5)[j] == gg[1 + j]);
            }
            assert forall|j: int| 0 <= j < 4 implies gg[5 + j] == u32_le_bytes(uy)[j] by {
                assert(gg.subrange(5, 9)[j] == gg[5 + j]);
            }
            assert forall|j: int| 0 <= j < 4 implies gg[9 + j] == u32_le_bytes(geo.width)[j] by {
                assert(gg.subrange(9, 13)[j] == gg[9 + j]);
            }
            assert forall|j: int| 0 <= j < 4 implies gg[13 + j] == u32_le_bytes(geo.height)[j] by {
                assert(gg.subrange(13, 17)[j] == gg[13 + j]);
            }
            lemma_u32_le_roundtrip(ux);
            lemma_u32_le_roundtrip(uy);
            lemma_u32_le_roundtrip(geo.width);
            lemma_u32_le_roundtrip(geo.height);
            lemma_i32_u32_roundtrip(geo.x, geo.width);
            lemma_i32_u32_roundtrip(geo.y, geo.height);
            assert(le_u32(b[pos + 1], b[pos + 2], b[pos + 3], b[pos + 4]) == ux);
            assert(le_u32(b[pos + 5], b[pos + 6], b[pos + 7], b[pos + 8]) == uy);
            assert(le_u32(b[pos + 9], b[pos + 10], b[pos + 11], b[pos + 12]) == geo.width);
            assert(le_u32(b[pos + 13], b[pos + 14], b[pos + 15], b[pos + 16]) == geo.height);
        },
    }
}

/// Law: decoding the wire form of an encodable response yields exactly
/// that response.
pub proof fn lemma_response_roundtrip(r: IpcResponseView)
    requires
        encodable(r),
    ensures
        spec_decode_response(spec_encode_response(r)) == Some(r),
{
    let b = spec_encode_response(r);
    match r {
        IpcResponseView::NoSelection => {
            assert(b.len() == 2);
            assert(b[0] == WIRE_VERSION);
            assert(b[1] == TAG_NO_SELECTION);
        },
        IpcResponseView::Error { message } => {
            let enc = spec_encode_str(message);
            assert(b.len() == 2 + enc.len());
            assert(b[0] == WIRE_VERSION);
            assert(b[1] == TAG_ERROR);
            assert(b.subrange(2, 2 + enc.len() as int) =~= enc);
            lemma_read_encoded_str(b, 2, message);
        },
        IpcResponseView::Selection { source_type, source_id, geometry } => {
            let e1 = spec_encode_str(source_type);
            let e2 = spec_encode_str(source_id);
            let gg = spec_encode_geometry(geometry);
            let p1 = 2 + e1.len() as int;
            let p2 = p1 + e2.len() as int;
            assert(b.len() == 2 + e1.len() + e2.len() + gg.len());
            assert(b[0] == WIRE_VERSION);
            assert(b[1] == TAG_SELECTION);
            assert(b.subrange(2, p1) =~= e1);
            lemma_read_encoded_str(b, 2, source_type);
            assert(b.subrange(p1, p2) =~= e2);
            lemma_read_encoded_str(b, p1, source_id);
            assert(b.subrange(p2, b.len() as int) =~= gg);
            lemma_tail_roundtrip(b, p2, source_type, source_id, geometry);
        },
    }
}

/// Appends the four little-endian bytes of `n`.
fn push_u32_le(out: &mut Vec<u8>, n: u32)
    ensures
        final(out)@ == old(out)@ + u32_le_bytes(n),
{
    out.push((n % 0x100) as u8);
    out.push(((n / 0x100) % 0x100) as u8);
    out.push(((n / 0x10000) % 0x100) as u8);
    out.push(((n / 0x1000000) % 0x100) as u8);
    proof {
        assert(out@ =~= old(out)@ + u32_le_bytes(n));
    }
}

/// Appends the wire form of `s`.
fn push_str_bytes(out: &mut Vec<u8>, s: &str)
    requires
        str_len_fits(s@),
    ensures
        final(out)@ == old(out)@ + spec_encode_str(s@),
{
    let n = s.len();
    push_u32_le(out, n as u32);
    let mut bytes = s.as_bytes_vec();
    out.append(&mut bytes);
    proof {
        assert(out@ =~= old(out)@ + spec_encode_str(s@));
    }
}

/// Encodes the single request of the protocol.
pub fn encode_request() -> (out: Vec<u8>)
    ensures
        out@ == spec_encode_request(),
{
    let mut out: Vec<u8> = Vec::new();
    out.push(WIRE_VERSION);
    out.push(REQUEST_QUERY_SELECTION);
    proof {
        assert(out@ =~= spec_encode_request());
    }
    out
}

/// Encodes a response for the wire.
pub fn encode_response(r: &IpcResponse) -> (out: Vec<u8>)
    requires
        encodable(r@),
    ensures
        out@ == spec_encode_response(r@),
{
    let mut out: Vec<u8> = Vec::new();
    out.push(WIRE_VERSION);
    match r {
        IpcResponse::NoSelection => {
            out.push(TAG_NO_SELECTION);
            proof {
                assert(out@ =~= spec_encode_response(r@));
            }
        },
        IpcResponse::Error { message } => {
            out.push(TAG_ERROR);
            push_str_bytes(&mut out, message.as_str());
            proof {
                assert(out@ =~= spec_encode_response(r@));
            }
        },
        IpcResponse::Selection { source_type, source_id, geometry } => {
            out.push(TAG_SELECTION);
            push_str_bytes(&mut out, source_type.as_str());
            push_str_bytes(&mut out, source_id.as_str());
            match geometry {
                None => {
                    out.push(0);
                },
                Some(g) => {
                    out.push(1);
                    push_u32_le(&mut out, i32_as_u32(g.x));
                    push_u32_le(&mut out, i32_as_u32(g.y));
                    push_u32_le(&mut out, g.width);
                    push_u32_le(&mut out, g.height);
                },
            }
            proof {
                assert(out@ =~= spec_encode_response(r@));
            }
        },
    }
    out
}

/// Relies on str::from_utf8: it returns `Ok` exactly when the bytes are
/// valid UTF-8, and then the returned slice is those bytes read as
/// UTF-8 characters.
#[verifier::external_body]
fn bytes_to_string(b: &[u8]) -> (r: Option<String>)
    ensures
        match r {
            Some(s) => valid_utf8(b@) && s@ == decode_utf8(b@),
            None => !valid_utf8(b@),
        },
{
    match core::str::from_utf8(b) {
        Ok(s) => Some(s.to_string()),
        Err(_) => None,
    }
}

/// Reads the 32-bit value at `pos`.
fn read_u32_le(data: &[u8], pos: usize) -> (r: u32)
    requires
        pos + 4 <= data@.len(),
    ensures
        r == le_u32(
            data@[pos as int],
            data@[pos as int + 1],
            data@[pos as int + 2],
            data@[pos as int + 3],
        ),
{
    let b0 = data[pos] as u32;
    let b1 = data[pos + 1] as u32;
    let b2 = data[pos + 2] as u32;
    let b3 = data[pos + 3] as u32;
    b0 + b1 * 0x100 + b2 * 0x10000 + b3 * 0x1000000
}

/// Reads one length-prefixed string at `pos`.
fn read_string(data: &[u8], pos: usize) -> (r: Option<(String, usize)>)
    requires
        pos <= data@.len(),
    ensures
        match r {
            Some(p) => spec_read_str(data@, pos as int) == Some((p.0@, p.1 as int)) && pos < p.1
                <= data@.len(),
            None => spec_read_str(data@, pos as int) is None,
        },
{
    if data.len() - pos < 4 {
        return None;
    }
    let n = read_u32_le(data, pos);
    let avail = data.len() - pos - 4;
    if (n as usize) > avail {
        return None;
    }
    let start = pos + 4;
    let end = start + (n as usize);
    let bytes = slice_subrange(data, start, end);
    match bytes_to_string(bytes) {
        Some(s) => Some((s, end)),
        None => None,
    }
}

/// Decodes one response; `None` exactly when the bytes are not the wire
/// form of any response.
pub fn decode_response(data: &[u8]) -> (r: Option<IpcResponse>)
    ensures
        match r {
            Some(resp) => spec_decode_response(data@) == Some(resp@),
            None => spec_decode_response(data@) is None,
        },
{
    if data.len() < 2 {
        return None;
    }
    if data[0] != WIRE_VERSION {
        return None;
    }
    let tag = data[1];
    if tag == TAG_NO_SELECTION {
        if data.len() == 2 {
            Some(IpcResponse::NoSelection)
        } else {
            None
        }
    } else if tag == TAG_ERROR {
        match read_string(data, 2) {
            Some((message, end)) => {
                if end == data.len() {
                    Some(IpcResponse::Error { message })
                } else {
                    None
                }
            },
            None => None,
        }
    } else if tag == TAG_SELECTION {
        match read_string(data, 2) {
            Some((source_type, p1)) => {
                match read_string(data, p1) {
                    Some((source_id, p2)) => {
                        if p2 < data.len() && data[p2] == 0 {
                            if data.len() - p2 == 1 {
                                Some(
                                    IpcResponse::Selection {
                                        source_type,
                                        source_id,
                                        geometry: None,
                                    },
                                )
                            } else {
                                None
                            }
                        } else if p2 < data.len() && data[p2] == 1 {
                            if data.len() - p2 == 17 {
                                let x = wrap_to_i32(read_u32_le(data, p2 + 1));
                                let y = wrap_to_i32(read_u32_le(data, p2 + 5));
                                let width = read_u32_le(data, p2 + 9);
                                let height = read_u32_le(data, p2 + 13);
                                Some(
                                    IpcResponse::Selection {
                                        source_type,
                                        source_id,
                                        geometry: Some(Geometry { x, y, width, height }),
                                    },
                                )
                            } else {
                                None
                            }
                        } else {
                            None
                        }
                    },
                    None => None,
                }
            },
            None => None,
        }
    } else {
        None
    }
}

} // verus!
