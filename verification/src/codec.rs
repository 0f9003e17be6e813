//! Wire format for the structured request/response protocol ("MCP") that
//! sandboxed apps use to reach out-of-process services.
//!
//! The envelope is a self-describing, length-prefixed byte format: every
//! field is written as an 8-byte little-endian length followed by that many
//! payload bytes; strings carry their UTF-8 encoding.  A decoder accepts a
//! byte sequence exactly when it is the encoding of some value, so encoding
//! and decoding round-trip in both directions.

use vstd::prelude::*;
use vstd::bytes::{spec_u64_to_le_bytes, spec_u64_from_le_bytes, u64_to_le_bytes, u64_from_le_bytes,
    lemma_auto_spec_u64_to_from_le_bytes};
use vstd::utf8::{valid_utf8, decode_utf8, encode_utf8, encode_utf8_valid_utf8,
    encode_utf8_decode_utf8, decode_utf8_encode_utf8};
use vstd::slice::{slice_subrange, slice_to_vec};
use vstd::string::StrSliceExecFns;

verus! {

/// A structured request from a sandboxed app: who asks, which protocol and
/// action, and an opaque payload for the handler.
#[derive(Debug, PartialEq, Eq)]
pub struct MCPRequest {
    pub app_id: String,
    pub protocol: String,
    pub action: String,
    pub data: Vec<u8>,
}

/// Mathematical image of an [`MCPRequest`].
pub struct RequestView {
    pub app_id: Seq<char>,
    pub protocol: Seq<char>,
    pub action: Seq<char>,
    pub data: Seq<u8>,
}

impl View for MCPRequest {
    type V = RequestView;

    open spec fn view(&self) -> RequestView {
        RequestView {
            app_id: self.app_id@,
            protocol: self.protocol@,
            action: self.action@,
            data: self.data@,
        }
    }
}

/// A structured response: a success flag, an optional error message, and an
/// optional payload.
#[derive(Debug, PartialEq, Eq)]
pub struct MCPResponse {
    pub success: bool,
    pub error: Option<String>,
    pub data: Option<Vec<u8>>,
}

/// Mathematical image of an [`MCPResponse`].
pub struct MCPResponseView {
    pub success: bool,
    pub error: Option<Seq<char>>,
    pub data: Option<Seq<u8>>,
}

impl View for MCPResponse {
    type V = MCPResponseView;

    open spec fn view(&self) -> MCPResponseView {
        MCPResponseView {
            success: self.success,
            error: match self.error {
                Some(e) => Some(e@),
                None => None,
            },
            data: match self.data {
                Some(d) => Some(d@),
                None => None,
            },
        }
    }
}

/// Decoding failure: the bytes are not the encoding of any value.
#[derive(Debug, PartialEq, Eq, Structural, Clone, Copy)]
pub enum CodecError {
    Malformed,
}

/// A length-prefixed block: 8 bytes of little-endian length, then the
/// payload.
pub open spec fn enc_block(b: Seq<u8>) -> Seq<u8> {
    spec_u64_to_le_bytes(b.len() as u64) + b
}

/// A string field: a block holding the string's UTF-8 bytes.
pub open spec fn enc_str(s: Seq<char>) -> Seq<u8> {
    enc_block(encode_utf8(s))
}

/// Whether a string field is representable on the wire.
pub open spec fn str_encodable(s: Seq<char>) -> bool {
    encode_utf8(s).len() <= u64::MAX
}

/// Whether a request is representable on the wire.
pub open spec fn request_encodable(r: RequestView) -> bool {
    &&& str_encodable(r.app_id)
    &&& str_encodable(r.protocol)
    &&& str_encodable(r.action)
    &&& r.data.len() <= u64::MAX
}

/// Whether a response is representable on the wire.
pub open spec fn response_encodable(r: MCPResponseView) -> bool {
    &&& (r.error matches Some(e) ==> str_encodable(e))
    &&& (r.data matches Some(d) ==> d.len() <= u64::MAX)
}

/// The encoding of a request: its four fields, each length-prefixed.
pub open spec fn encode_request_spec(r: RequestView) -> Seq<u8> {
    enc_str(r.app_id) + enc_str(r.protocol) + enc_str(r.action) + enc_block(r.data)
}

/// The encoding of an optional block: a presence byte, then the block when
/// present.
pub open spec fn enc_opt_block(b: Option<Seq<u8>>) -> Seq<u8> {
    match b {
        Some(inner) => seq![1u8] + enc_block(inner),
        None => seq![0u8],
    }
}

/// The encoding of a response: a success byte, then the optional error
/// string and the optional payload.
pub open spec fn encode_response_spec(r: MCPResponseView) -> Seq<u8> {
    seq![if r.success { 1u8 } else { 0u8 }] + enc_opt_block(
        match r.error {
            Some(e) => Some(encode_utf8(e)),
            None => None,
        },
    ) + enc_opt_block(r.data)
}

/// Reads the length-prefixed block starting at `off`; yields the payload
/// and the offset just past it.
pub open spec fn dec_block(b: Seq<u8>, off: int) -> Option<(Seq<u8>, int)> {
    if 0 <= off && off + 8 <= b.len() {
        let n = spec_u64_from_le_bytes(b.subrange(off, off + 8)) as int;
        if off + 8 + n <= b.len() {
            Some((b.subrange(off + 8, off + 8 + n), off + 8 + n))
        } else {
            None
        }
    } else {
        None
    }
}

/// Reads a string field starting at `off`: a block that must hold valid
/// UTF-8.
pub open spec fn dec_str(b: Seq<u8>, off: int) -> Option<(Seq<char>, int)> {
    match dec_block(b, off) {
        Some((bytes, next)) => if valid_utf8(bytes) {
            Some((decode_utf8(bytes), next))
        } else {
            None
        },
        None => None,
    }
}

/// Reads an optional block starting at `off`: a presence byte of 0 or 1,
/// then the block when the byte is 1.
pub open spec fn dec_opt_block(b: Seq<u8>, off: int) -> Option<(Option<Seq<u8>>, int)> {
    if 0 <= off < b.len() {
        if b[off] == 0u8 {
            Some((None, off + 1))
        } else if b[off] == 1u8 {
            match dec_block(b, off + 1) {
                Some((bytes, next)) => Some((Some(bytes), next)),
                None => None,
            }
        } else {
            None
        }
    } else {
        None
    }
}

/// The value whose encoding `b` is, when there is one: four fields in
/// order, consuming `b` exactly.
pub open spec fn decode_request_spec(b: Seq<u8>) -> Option<RequestView> {
    match dec_str(b, 0) {
        None => None,
        Some((app_id, o1)) => match dec_str(b, o1) {
            None => None,
            Some((protocol, o2)) => match dec_str(b, o2) {
                None => None,
                Some((action, o3)) => match dec_block(b, o3) {
                    None => None,
                    Some((data, o4)) => if o4 == b.len() {
                        Some(RequestView { app_id, protocol, action, data })
                    } else {
                        None
                    },
                },
            },
        },
    }
}

/// The response whose encoding `b` is, when there is one.
pub open spec fn decode_response_spec(b: Seq<u8>) -> Option<MCPResponseView> {
    if b.len() >= 1 && (b[0] == 0u8 || b[0] == 1u8) {
        let success = b[0] == 1u8;
        match dec_opt_block(b, 1) {
            None => None,
            Some((error_bytes, o1)) => {
                let error_ok = match error_bytes {
                    Some(bytes) => valid_utf8(bytes),
                    None => true,
                };
                if error_ok {
                    match dec_opt_block(b, o1) {
                        None => None,
                        Some((data, o2)) => if o2 == b.len() {
                            Some(MCPResponseView {
                                success,
                                error: match error_bytes {
                                    Some(bytes) => Some(decode_utf8(bytes)),
                                    None => None,
                                },
                                data,
                            })
                        } else {
                            None
                        },
                    }
                } else {
                    None
                }
            },
        }
    } else {
        None
    }
}

/// Reading a block at the start of `enc_block(x) + rest` yields `x` back.
proof fn lemma_dec_block_of_enc(b: Seq<u8>, off: int, x: Seq<u8>, rest: Seq<u8>)
    requires
        0 <= off <= b.len(),
        x.len() <= u64::MAX,
        b.subrange(off, b.len() as int) == enc_block(x) + rest,
    ensures
        dec_block(b, off) == Some((x, off + 8 + x.len() as int)),
{
    lemma_auto_spec_u64_to_from_le_bytes();
    let tail = b.subrange(off, b.len() as int);
    assert(tail.len() == 8 + x.len() + rest.len());
    assert(off + 8 <= b.len());
    assert(b.subrange(off, off + 8) =~= tail.subrange(0, 8));
    assert(tail.subrange(0, 8) =~= spec_u64_to_le_bytes(x.len() as u64));
    let n = spec_u64_from_le_bytes(b.subrange(off, off + 8)) as int;
    assert(n == x.len());
    assert(off + 8 + n <= b.len());
    assert(b.subrange(off + 8, off + 8 + n) =~= tail.subrange(8, 8 + n));
    assert(tail.subrange(8, 8 + n) =~= x);
}

/// Reading a block back reconstructs the bytes it was read from.
proof fn lemma_enc_of_dec_block(b: Seq<u8>, off: int, x: Seq<u8>, next: int)
    requires
        dec_block(b, off) == Some((x, next)),
    ensures
        0 <= off,
        off + 8 <= next <= b.len(),
        x.len() <= u64::MAX,
        b.subrange(off, next) == enc_block(x),
        next == off + 8 + x.len(),
{
    lemma_auto_spec_u64_to_from_le_bytes();
    let lenbytes = b.subrange(off, off + 8);
    let n = spec_u64_from_le_bytes(lenbytes) as int;
    assert(spec_u64_to_le_bytes(spec_u64_from_le_bytes(lenbytes)) == lenbytes);
    assert(x =~= b.subrange(off + 8, off + 8 + n));
    assert(x.len() == n);
    assert(b.subrange(off, next) =~= lenbytes + x);
    assert(enc_block(x) =~= spec_u64_to_le_bytes(x.len() as u64) + x);
    assert(spec_u64_to_le_bytes(x.len() as u64) == lenbytes);
}

/// Decoding the encoding of a request yields the request: the round trip
/// holds for every representable field combination, the empty payload
/// included.
pub proof fn lemma_request_round_trip(r: RequestView)
    requires
        request_encodable(r),
    ensures
        decode_request_spec(encode_request_spec(r)) == Some(r),
{
    lemma_auto_spec_u64_to_from_le_bytes();
    let b = encode_request_spec(r);
    let e1 = enc_str(r.app_id);
    let e2 = enc_str(r.protocol);
    let e3 = enc_str(r.action);
    let e4 = enc_block(r.data);
    let o1 = e1.len() as int;
    let o2 = o1 + e2.len();
    let o3 = o2 + e3.len();
    let o4 = o3 + e4.len();
    encode_utf8_valid_utf8(r.app_id);
    encode_utf8_valid_utf8(r.protocol);
    encode_utf8_valid_utf8(r.action);
    encode_utf8_decode_utf8(r.app_id);
    encode_utf8_decode_utf8(r.protocol);
    encode_utf8_decode_utf8(r.action);
    assert(b.subrange(0, b.len() as int) =~= e1 + (e2 + e3 + e4));
    lemma_dec_block_of_enc(b, 0, encode_utf8(r.app_id), e2 + e3 + e4);
    assert(dec_str(b, 0) == Some((r.app_id, o1)));
    assert(b.subrange(o1, b.len() as int) =~= e2 + (e3 + e4));
    lemma_dec_block_of_enc(b, o1, encode_utf8(r.protocol), e3 + e4);
    assert(dec_str(b, o1) == Some((r.protocol, o2)));
    assert(b.subrange(o2, b.len() as int) =~= e3 + e4);
    lemma_dec_block_of_enc(b, o2, encode_utf8(r.action), e4);
    assert(dec_str(b, o2) == Some((r.action, o3)));
    assert(b.subrange(o3, b.len() as int) =~= e4 + Seq::<u8>::empty());
    lemma_dec_block_of_enc(b, o3, r.data, Seq::<u8>::empty());
    assert(dec_block(b, o3) == Some((r.data, o4)));
    assert(o4 == b.len());
}

/// A decoded request re-encodes to the very bytes it came from: no byte
/// sequence is the encoding of two different requests, and every accepted
/// byte sequence is an encoding.
pub proof fn lemma_request_decode_encode(b: Seq<u8>, r: RequestView)
    requires
        decode_request_spec(b) == Some(r),
    ensures
        request_encodable(r),
        encode_request_spec(r) == b,
{
    broadcast use decode_utf8_encode_utf8;

    let (app_id, o1) = dec_str(b, 0)->0;
    let (protocol, o2) = dec_str(b, o1)->0;
    let (action, o3) = dec_str(b, o2)->0;
    let (data, o4) = dec_block(b, o3)->0;
    let b1 = (dec_block(b, 0)->0).0;
    let b2 = (dec_block(b, o1)->0).0;
    let b3 = (dec_block(b, o2)->0).0;
    lemma_enc_of_dec_block(b, 0, b1, o1);
    lemma_enc_of_dec_block(b, o1, b2, o2);
    lemma_enc_of_dec_block(b, o2, b3, o3);
    lemma_enc_of_dec_block(b, o3, data, o4);
    assert(encode_utf8(r.app_id) == b1);
    assert(encode_utf8(r.protocol) == b2);
    assert(encode_utf8(r.action) == b3);
    assert(encode_request_spec(r) =~= b.subrange(0, o1) + b.subrange(o1, o2) + b.subrange(o2, o3)
        + b.subrange(o3, o4));
    assert(b =~= b.subrange(0, o1) + b.subrange(o1, o2) + b.subrange(o2, o3) + b.subrange(o3, o4));
}

/// Decoding the encoding of a response yields the response.
pub proof fn lemma_response_round_trip(r: MCPResponseView)
    requires
        response_encodable(r),
    ensures
        decode_response_spec(encode_response_spec(r)) == Some(r),
{
    lemma_auto_spec_u64_to_from_le_bytes();
    let b = encode_response_spec(r);
    let eb = match r.error {
        Some(e) => Some(encode_utf8(e)),
        None => None,
    };
    let e1 = enc_opt_block(eb);
    let e2 = enc_opt_block(r.data);
    let o1 = 1 + e1.len() as int;
    assert(b[0] == (if r.success { 1u8 } else { 0u8 }));
    match eb {
        Some(bytes) => {
            let e = r.error->0;
            encode_utf8_valid_utf8(e);
            encode_utf8_decode_utf8(e);
            assert(b[1] == 1u8);
            assert(b.subrange(2, b.len() as int) =~= enc_block(bytes) + e2);
            lemma_dec_block_of_enc(b, 2, bytes, e2);
            assert(dec_opt_block(b, 1) == Some((Some(bytes), o1)));
        },
        None => {
            assert(b[1] == 0u8);
            assert(dec_opt_block(b, 1) == Some((Option::<Seq<u8>>::None, o1)));
        },
    }
    match r.data {
        Some(d) => {
            assert(b[o1] == 1u8);
            assert(b.subrange(o1 + 1, b.len() as int) =~= enc_block(d) + Seq::<u8>::empty());
            lemma_dec_block_of_enc(b, o1 + 1, d, Seq::<u8>::empty());
            assert(dec_block(b, o1 + 1) == Some((d, b.len() as int)));
            assert(dec_opt_block(b, o1) == Some((Some(d), b.len() as int)));
        },
        None => {
            assert(b[o1] == 0u8);
            assert(o1 + 1 == b.len());
            assert(dec_opt_block(b, o1) == Some((Option::<Seq<u8>>::None, b.len() as int)));
        },
    }
}

/// Appends `src` to `out`.
fn append_bytes(out: &mut Vec<u8>, src: &[u8])
    ensures
        final(out)@ == old(out)@ + src@,
{
    let mut i: usize = 0;
    while i < src.len()
        invariant
            0 <= i <= src.len(),
            out@ == old(out)@ + src@.subrange(0, i as int),
        decreases src.len() - i,
    {
        let b = *vstd::slice::slice_index_get(src, i);
        out.push(b);
        assert(out@ =~= old(out)@ + src@.subrange(0, i + 1));
        i += 1;
    }
    assert(final(out)@ =~= old(out)@ + src@);
}

/// Appends a length-prefixed block holding `payload` to `out`.
fn push_block(out: &mut Vec<u8>, payload: &[u8])
    ensures
        final(out)@ == old(out)@ + enc_block(payload@),
        payload@.len() <= u64::MAX,
{
    let n: u64 = payload.len() as u64;
    let lenbytes = u64_to_le_bytes(n);
    append_bytes(out, lenbytes.as_slice());
    append_bytes(out, payload);
    assert(final(out)@ =~= old(out)@ + enc_block(payload@));
}

/// Relies on `String::from_utf8`: it succeeds exactly on valid UTF-8 input
/// and yields the string those bytes encode.
#[verifier::external_body]
fn utf8_to_string(bytes: Vec<u8>) -> (r: Option<String>)
    ensures
        r is Some <==> valid_utf8(bytes@),
        r matches Some(s) ==> s@ == decode_utf8(bytes@),
{
    match String::from_utf8(bytes) {
        Ok(s) => Some(s),
        Err(_) => None,
    }
}

/// Reads the length-prefixed block at `*off`, advancing `*off` past it.
fn read_block(bytes: &Vec<u8>, off: &mut usize) -> (r: Result<Vec<u8>, CodecError>)
    requires
        *old(off) <= bytes@.len(),
    ensures
        match r {
            Ok(payload) => {
                &&& dec_block(bytes@, *old(off) as int) == Some((payload@, *final(off) as int))
                &&& *final(off) <= bytes@.len()
            },
            Err(e) => dec_block(bytes@, *old(off) as int) is None && e == CodecError::Malformed
                && *final(off) == *old(off),
        },
{
    proof {
        lemma_auto_spec_u64_to_from_le_bytes();
    }
    if bytes.len() - *off < 8 {
        return Err(CodecError::Malformed);
    }
    let start = *off;
    let lenslice = slice_subrange(bytes.as_slice(), start, start + 8);
    let n = u64_from_le_bytes(lenslice);
    let remaining = bytes.len() - start - 8;
    if n > remaining as u64 {
        return Err(CodecError::Malformed);
    }
    let n_usize = n as usize;
    let payload_slice = slice_subrange(bytes.as_slice(), start + 8, start + 8 + n_usize);
    let payload = slice_to_vec(payload_slice);
    *off = start + 8 + n_usize;
    Ok(payload)
}

/// Reads a string field at `*off`: a block that must hold valid UTF-8.
fn read_str(bytes: &Vec<u8>, off: &mut usize) -> (r: Result<String, CodecError>)
    requires
        *old(off) <= bytes@.len(),
    ensures
        match r {
            Ok(s) => {
                &&& dec_str(bytes@, *old(off) as int) == Some((s@, *final(off) as int))
                &&& *final(off) <= bytes@.len()
            },
            Err(e) => dec_str(bytes@, *old(off) as int) is None && e == CodecError::Malformed,
        },
{
    let block = read_block(bytes, off)?;
    match utf8_to_string(block) {
        Some(s) => Ok(s),
        None => Err(CodecError::Malformed),
    }
}

impl MCPRequest {
    /// Serializes the request into its length-prefixed byte envelope.
    pub fn into_bytes(&self) -> (out: Vec<u8>)
        ensures
            out@ == encode_request_spec(self@),
            request_encodable(self@),
    {
        let mut out: Vec<u8> = Vec::new();
        let app_bytes = self.app_id.as_str().as_bytes_vec();
        let protocol_bytes = self.protocol.as_str().as_bytes_vec();
        let action_bytes = self.action.as_str().as_bytes_vec();
        push_block(&mut out, app_bytes.as_slice());
        push_block(&mut out, protocol_bytes.as_slice());
        push_block(&mut out, action_bytes.as_slice());
        push_block(&mut out, self.data.as_slice());
        assert(out@ =~= encode_request_spec(self@));
        out
    }

    /// Parses a request from its byte envelope.  Fails exactly when the
    /// bytes are not the encoding of any request.
    pub fn from_bytes(bytes: &Vec<u8>) -> (r: Result<MCPRequest, CodecError>)
        ensures
            match r {
                Ok(req) => decode_request_spec(bytes@) == Some(req@),
                Err(e) => decode_request_spec(bytes@) is None && e == CodecError::Malformed,
            },
    {
        let mut off: usize = 0;
        let app_id = read_str(bytes, &mut off)?;
        let protocol = read_str(bytes, &mut off)?;
        let action = read_str(bytes, &mut off)?;
        let data = read_block(bytes, &mut off)?;
        if off != bytes.len() {
            return Err(CodecError::Malformed);
        }
        Ok(MCPRequest { app_id, protocol, action, data })
    }
}

impl MCPResponse {
    /// Serializes the response into its byte envelope.
    pub fn into_bytes(&self) -> (out: Vec<u8>)
        ensures
            out@ == encode_response_spec(self@),
            response_encodable(self@),
    {
        let mut out: Vec<u8> = Vec::new();
        if self.success {
            out.push(1u8);
        } else {
            out.push(0u8);
        }
        match &self.error {
            Some(e) => {
                out.push(1u8);
                let error_bytes = e.as_str().as_bytes_vec();
                push_block(&mut out, error_bytes.as_slice());
            },
            None => {
                out.push(0u8);
            },
        }
        match &self.data {
            Some(d) => {
                out.push(1u8);
                push_block(&mut out, d.as_slice());
            },
            None => {
                out.push(0u8);
            },
        }
        assert(out@ =~= encode_response_spec(self@));
        out
    }

    /// Parses a response from its byte envelope.  Fails exactly when the
    /// bytes are not the encoding of any response.
    pub fn from_bytes(bytes: &Vec<u8>) -> (r: Result<MCPResponse, CodecError>)
        ensures
            match r {
                Ok(resp) => decode_response_spec(bytes@) == Some(resp@),
                Err(e) => decode_response_spec(bytes@) is None && e == CodecError::Malformed,
            },
    {
        if bytes.len() < 1 {
            return Err(CodecError::Malformed);
        }
        let success_byte = bytes[0];
        if success_byte != 0u8 && success_byte != 1u8 {
            return Err(CodecError::Malformed);
        }
        let success = success_byte == 1u8;
        let mut off: usize = 1;

        let error: Option<String> = {
            if off >= bytes.len() {
                return Err(CodecError::Malformed);
            }
            let tag = bytes[off];
            if tag == 0u8 {
                off = off + 1;
                None
            } else if tag == 1u8 {
                let ghost tag_off = off as int;
                off = off + 1;
                let block = match read_block(bytes, &mut off) {
                    Ok(block) => block,
                    Err(e) => {
                        assert(dec_opt_block(bytes@, tag_off) is None);
                        return Err(CodecError::Malformed);
                    },
                };
                match utf8_to_string(block) {
                    Some(s) => Some(s),
                    None => {
                        return Err(CodecError::Malformed);
                    },
                }
            } else {
                return Err(CodecError::Malformed);
            }
        };
        let ghost o1 = off as int;

        let data: Option<Vec<u8>> = {
            if off >= bytes.len() {
                return Err(CodecError::Malformed);
            }
            let tag = bytes[off];
            if tag == 0u8 {
                off = off + 1;
                None
            } else if tag == 1u8 {
                let ghost tag_off = off as int;
                off = off + 1;
                match read_block(bytes, &mut off) {
                    Ok(block) => Some(block),
                    Err(e) => {
                        assert(dec_opt_block(bytes@, tag_off) is None);
                        return Err(CodecError::Malformed);
                    },
                }
            } else {
                return Err(CodecError::Malformed);
            }
        };

        if off != bytes.len() {
            return Err(CodecError::Malformed);
        }
        Ok(MCPResponse { success, error, data })
    }
}

} // verus!
