//! The binary frame codec.
//!
//! Each transport message carries exactly one logical frame. The first octet
//! is a frame-type tag: 1 is a notification, 2 a call request, 3 a reset, 4 a
//! call response. Notifications and calls carry a method name of at most 255
//! UTF-8 bytes, length-prefixed by one octet; calls and resets carry a 32-bit
//! big-endian call identifier chosen by the peer; the rest of the frame is an
//! opaque payload.

use vstd::prelude::*;
use vstd::slice::slice_subrange;
use vstd::utf8::{decode_utf8, encode_utf8, encode_utf8_decode_utf8, encode_utf8_valid_utf8,
    valid_utf8};

use crate::error::NotifyError;
use crate::wire::{be_u32, lemma_u32_be_round_trip, u32_be_bytes, u32_from_be, u32_to_be};

verus! {

/// A decode failure: the frame was shorter than its layout demands, its
/// method name was not valid UTF-8, or its tag octet was unknown.
#[derive(Debug, Clone, Copy, PartialEq, Eq, Structural)]
pub enum DecodeError {
    /// The buffer ended before the layout of its frame type was complete.
    InsufficientBytes,
    /// The method name bytes were not valid UTF-8.
    InvalidUtf8,
    /// The first octet was not a known frame-type tag.
    InvalidFrameTag,
}

/// The mathematical model of one decoded frame.
pub enum FrameSpec {
    /// A one-way notification: method name and payload.
    Notify { name: Seq<char>, payload: Seq<u8> },
    /// A call request: method name, peer-chosen call id, payload.
    Call { name: Seq<char>, id: u32, payload: Seq<u8> },
    /// A cancellation of the outstanding call with this id.
    Reset { id: u32 },
}

/// The bytes of a type-1 frame: tag, name length, name, payload.
pub open spec fn spec_notify_frame(name: Seq<char>, payload: Seq<u8>) -> Seq<u8> {
    seq![1u8, encode_utf8(name).len() as u8] + encode_utf8(name) + payload
}

/// The bytes of a type-2 frame: tag, name length, name, id, payload.
pub open spec fn spec_call_frame(name: Seq<char>, id: u32, payload: Seq<u8>) -> Seq<u8> {
    seq![2u8, encode_utf8(name).len() as u8] + encode_utf8(name) + u32_be_bytes(id) + payload
}

/// The bytes of a type-3 frame: tag and id.
pub open spec fn spec_reset_frame(id: u32) -> Seq<u8> {
    seq![3u8] + u32_be_bytes(id)
}

/// The bytes of a type-4 frame: tag, id, payload.
pub open spec fn spec_response_frame(id: u32, payload: Seq<u8>) -> Seq<u8> {
    seq![4u8] + u32_be_bytes(id) + payload
}

/// What decoding a buffer yields, by the layout rules of the four frame
/// types. Checks happen in the order the decoder reads: tag, name length,
/// name bytes, UTF-8 validity, call id.
pub open spec fn spec_parse_frame(b: Seq<u8>) -> Result<FrameSpec, DecodeError> {
    if b.len() < 1 {
        Err(DecodeError::InsufficientBytes)
    } else if b[0] == 1 {
        if b.len() < 2 {
            Err(DecodeError::InsufficientBytes)
        } else {
            let n = b[1] as int;
            if b.len() < 2 + n {
                Err(DecodeError::InsufficientBytes)
            } else if !valid_utf8(b.subrange(2, 2 + n)) {
                Err(DecodeError::InvalidUtf8)
            } else {
                Ok(FrameSpec::Notify { name: decode_utf8(b.subrange(2, 2 + n)), payload: b.skip(2 + n) })
            }
        }
    } else if b[0] == 2 {
        if b.len() < 2 {
            Err(DecodeError::InsufficientBytes)
        } else {
            let n = b[1] as int;
            if b.len() < 2 + n {
                Err(DecodeError::InsufficientBytes)
            } else if !valid_utf8(b.subrange(2, 2 + n)) {
                Err(DecodeError::InvalidUtf8)
            } else if b.len() < 6 + n {
                Err(DecodeError::InsufficientBytes)
            } else {
                Ok(FrameSpec::Call {
                    name: decode_utf8(b.subrange(2, 2 + n)),
                    id: be_u32(b.subrange(2 + n, 6 + n)),
                    payload: b.skip(6 + n),
                })
            }
        }
    } else if b[0] == 3 {
        if b.len() < 5 {
            Err(DecodeError::InsufficientBytes)
        } else {
            Ok(FrameSpec::Reset { id: be_u32(b.subrange(1, 5)) })
        }
    } else {
        Err(DecodeError::InvalidFrameTag)
    }
}

/// What a type-4 frame means to its receiver: the call id and the reply
/// payload, or nothing if the buffer is not a type-4 frame.
pub open spec fn spec_parse_response(b: Seq<u8>) -> Option<(u32, Seq<u8>)> {
    if b.len() >= 5 && b[0] == 4 {
        Some((be_u32(b.subrange(1, 5)), b.skip(5)))
    } else {
        None
    }
}

/// Relies on std's `str::from_utf8`: it returns `Ok` exactly when the bytes
/// are valid UTF-8, and the returned string slice views their decoding.
#[verifier::external_body]
pub(crate) fn try_utf8(b: &[u8]) -> (r: Option<&str>)
    ensures
        r is Some <==> valid_utf8(b@),
        r matches Some(s) ==> s@ == decode_utf8(b@),
{
    core::str::from_utf8(b).ok()
}

/// An incoming request: the owned bytes of one frame together with the
/// offsets of its method name and payload.
#[derive(Debug)]
pub struct Request {
    buf: Vec<u8>,
    method_offset: u8,
    method_len: u8,
    data_offset: u16,
}

impl Request {
    /// The whole frame this request was decoded from.
    pub closed spec fn buf_spec(&self) -> Seq<u8> {
        self.buf@
    }

    /// The bytes of the method name.
    pub closed spec fn method_bytes_spec(&self) -> Seq<u8> {
        self.buf@.subrange(
            self.method_offset as int,
            self.method_offset as int + self.method_len as int,
        )
    }

    /// The method name, as characters.
    pub open spec fn method_spec(&self) -> Seq<char> {
        decode_utf8(self.method_bytes_spec())
    }

    /// The payload bytes.
    pub closed spec fn data_spec(&self) -> Seq<u8> {
        self.buf@.skip(self.data_offset as int)
    }

    /// Well-formedness: the offsets lie inside the buffer in order, and the
    /// method name bytes are valid UTF-8.
    pub closed spec fn wf(&self) -> bool {
        &&& self.method_offset as int + self.method_len as int <= self.data_offset as int
        &&& self.data_offset as int <= self.buf@.len()
        &&& valid_utf8(self.method_bytes_spec())
    }

    /// The method name of this request.
    pub fn method(&self) -> (r: &str)
        requires
            self.wf(),
        ensures
            r@ == self.method_spec(),
    {
        let mo = self.method_offset as usize;
        let ml = self.method_len as usize;
        let name = slice_subrange(self.buf.as_slice(), mo, mo + ml);
        try_utf8(name).unwrap()
    }

    /// The payload of this request.
    pub fn data(&self) -> (r: &[u8])
        requires
            self.wf(),
        ensures
            r@ == self.data_spec(),
    {
        let r = slice_subrange(self.buf.as_slice(), self.data_offset as usize, self.buf.len());
        proof {
            assert(r@ =~= self.data_spec());
        }
        r
    }
}

/// One decoded inbound frame, before any per-connection bookkeeping.
#[derive(Debug)]
pub enum Decoded {
    /// A one-way notification.
    Notify(Request),
    /// A call request carrying its peer-chosen id.
    Call(Request, u32),
    /// A cancellation of the call with this id.
    Reset(u32),
}

/// The decoded value reflects the model of the given buffer exactly.
pub open spec fn decoded_matches(d: &Decoded, b: Seq<u8>) -> bool {
    match d {
        Decoded::Notify(req) => spec_parse_frame(b) matches Ok(FrameSpec::Notify { name, payload })
            && req.wf() && req.buf_spec() == b && req.method_spec() == name && req.data_spec()
            == payload,
        Decoded::Call(req, id) => spec_parse_frame(b) matches Ok(FrameSpec::Call { name, id: sid, payload })
            && req.wf() && req.buf_spec() == b && req.method_spec() == name && *id == sid
            && req.data_spec() == payload,
        Decoded::Reset(id) => spec_parse_frame(b) == Ok::<FrameSpec, DecodeError>(
            FrameSpec::Reset { id: *id },
        ),
    }
}

/// Decodes one inbound frame from an owned message buffer.
pub fn decode(buf: Vec<u8>) -> (r: Result<Decoded, DecodeError>)
    ensures
        match r {
            Ok(d) => decoded_matches(&d, buf@),
            Err(e) => spec_parse_frame(buf@) == Err::<FrameSpec, DecodeError>(e),
        },
{
    if buf.len() < 1 {
        return Err(DecodeError::InsufficientBytes);
    }
    let tag = buf[0];
    if tag == 1 {
        if buf.len() < 2 {
            return Err(DecodeError::InsufficientBytes);
        }
        let n = buf[1] as usize;
        if buf.len() < 2 + n {
            return Err(DecodeError::InsufficientBytes);
        }
        let name = slice_subrange(buf.as_slice(), 2, 2 + n);
        if try_utf8(name).is_none() {
            return Err(DecodeError::InvalidUtf8);
        }
        let req = Request { buf, method_offset: 2, method_len: n as u8, data_offset: (2 + n) as u16 };
        proof {
            assert(req.data_spec() =~= req.buf_spec().skip(2 + n as int));
        }
        Ok(Decoded::Notify(req))
    } else if tag == 2 {
        if buf.len() < 2 {
            return Err(DecodeError::InsufficientBytes);
        }
        let n = buf[1] as usize;
        if buf.len() < 2 + n {
            return Err(DecodeError::InsufficientBytes);
        }
        let name = slice_subrange(buf.as_slice(), 2, 2 + n);
        if try_utf8(name).is_none() {
            return Err(DecodeError::InvalidUtf8);
        }
        if buf.len() < 6 + n {
            return Err(DecodeError::InsufficientBytes);
        }
        let id = u32_from_be(buf[2 + n], buf[3 + n], buf[4 + n], buf[5 + n]);
        let req = Request { buf, method_offset: 2, method_len: n as u8, data_offset: (6 + n) as u16 };
        proof {
            assert(req.buf_spec().subrange(2 + n as int, 6 + n as int) =~= seq![
                req.buf_spec()[2 + n as int],
                req.buf_spec()[3 + n as int],
                req.buf_spec()[4 + n as int],
                req.buf_spec()[5 + n as int],
            ]);
            assert(req.data_spec() =~= req.buf_spec().skip(6 + n as int));
        }
        Ok(Decoded::Call(req, id))
    } else if tag == 3 {
        if buf.len() < 5 {
            return Err(DecodeError::InsufficientBytes);
        }
        let id = u32_from_be(buf[1], buf[2], buf[3], buf[4]);
        proof {
            assert(buf@.subrange(1, 5) =~= seq![buf@[1], buf@[2], buf@[3], buf@[4]]);
        }
        Ok(Decoded::Reset(id))
    } else {
        Err(DecodeError::InvalidFrameTag)
    }
}

/// Appends all bytes of a slice to a vector.
pub fn push_bytes(out: &mut Vec<u8>, src: &[u8])
    ensures
        final(out)@ == old(out)@ + src@,
{
    out.extend_from_slice(src);
    proof {
        assert(out@ =~= old(out)@ + src@);
    }
}

/// Encodes a type-1 notification frame. Fails exactly when the method name
/// is longer than 255 bytes, in which case nothing is produced.
pub fn encode_notify(name: &str, data: &[u8]) -> (r: Result<Vec<u8>, NotifyError>)
    ensures
        encode_utf8(name@).len() <= 255 ==> (r matches Ok(buf) && buf@ == spec_notify_frame(
            name@,
            data@,
        )),
        encode_utf8(name@).len() > 255 ==> r == Err::<Vec<u8>, NotifyError>(
            NotifyError::EventNameTooBig,
        ),
{
    let nb = name.as_bytes();
    if nb.len() > 255 {
        return Err(NotifyError::EventNameTooBig);
    }
    let mut buf: Vec<u8> = Vec::new();
    buf.push(1);
    buf.push(nb.len() as u8);
    push_bytes(&mut buf, nb);
    push_bytes(&mut buf, data);
    proof {
        assert(buf@ =~= spec_notify_frame(name@, data@));
    }
    Ok(buf)
}

/// Encodes a type-2 call-request frame. Fails exactly when the method name
/// is longer than 255 bytes.
pub fn encode_call(name: &str, id: u32, data: &[u8]) -> (r: Result<Vec<u8>, NotifyError>)
    ensures
        encode_utf8(name@).len() <= 255 ==> (r matches Ok(buf) && buf@ == spec_call_frame(
            name@,
            id,
            data@,
        )),
        encode_utf8(name@).len() > 255 ==> r == Err::<Vec<u8>, NotifyError>(
            NotifyError::EventNameTooBig,
        ),
{
    let nb = name.as_bytes();
    if nb.len() > 255 {
        return Err(NotifyError::EventNameTooBig);
    }
    let mut buf: Vec<u8> = Vec::new();
    buf.push(2);
    buf.push(nb.len() as u8);
    push_bytes(&mut buf, nb);
    let idb = u32_to_be(id);
    push_bytes(&mut buf, idb.as_slice());
    push_bytes(&mut buf, data);
    proof {
        assert(buf@ =~= spec_call_frame(name@, id, data@));
    }
    Ok(buf)
}

/// Encodes a type-4 call-response frame for the given call id.
pub fn encode_response(id: u32, data: &[u8]) -> (r: Vec<u8>)
    ensures
        r@ == spec_response_frame(id, data@),
{
    let mut buf: Vec<u8> = Vec::new();
    buf.push(4);
    let idb = u32_to_be(id);
    push_bytes(&mut buf, idb.as_slice());
    push_bytes(&mut buf, data);
    proof {
        assert(buf@ =~= spec_response_frame(id, data@));
    }
    buf
}

/// Law: decoding an encoded notification recovers the name and the payload
/// exactly, for every name of at most 255 UTF-8 bytes and every payload.
pub proof fn lemma_notify_round_trip(name: Seq<char>, payload: Seq<u8>)
    requires
        encode_utf8(name).len() <= 255,
    ensures
        spec_parse_frame(spec_notify_frame(name, payload)) == Ok::<FrameSpec, DecodeError>(
            FrameSpec::Notify { name, payload },
        ),
{
    let b = spec_notify_frame(name, payload);
    let n = encode_utf8(name).len() as int;
    encode_utf8_valid_utf8(name);
    encode_utf8_decode_utf8(name);
    assert(b.subrange(2, 2 + n) =~= encode_utf8(name));
    assert(b.skip(2 + n) =~= payload);
}

/// Law: decoding an encoded call request recovers the name, the call id and
/// the payload exactly, for every name of at most 255 UTF-8 bytes.
pub proof fn lemma_call_round_trip(name: Seq<char>, id: u32, payload: Seq<u8>)
    requires
        encode_utf8(name).len() <= 255,
    ensures
        spec_parse_frame(spec_call_frame(name, id, payload)) == Ok::<FrameSpec, DecodeError>(
            FrameSpec::Call { name, id, payload },
        ),
{
    let b = spec_call_frame(name, id, payload);
    let n = encode_utf8(name).len() as int;
    encode_utf8_valid_utf8(name);
    encode_utf8_decode_utf8(name);
    lemma_u32_be_round_trip(id);
    assert(b.subrange(2, 2 + n) =~= encode_utf8(name));
    assert(b.subrange(2 + n, 6 + n) =~= u32_be_bytes(id));
    assert(b.skip(6 + n) =~= payload);
}

/// Law: a reset frame decodes to a reset of the same call id.
pub proof fn lemma_reset_round_trip(id: u32)
    ensures
        spec_parse_frame(spec_reset_frame(id)) == Ok::<FrameSpec, DecodeError>(
            FrameSpec::Reset { id },
        ),
{
    let b = spec_reset_frame(id);
    lemma_u32_be_round_trip(id);
    assert(b.subrange(1, 5) =~= u32_be_bytes(id));
}

/// Law: an encoded response reads back as a type-4 frame with the same call
/// id and reply payload.
pub proof fn lemma_response_round_trip(id: u32, payload: Seq<u8>)
    ensures
        spec_parse_response(spec_response_frame(id, payload)) == Some((id, payload)),
{
    let b = spec_response_frame(id, payload);
    lemma_u32_be_round_trip(id);
    assert(b.subrange(1, 5) =~= u32_be_bytes(id));
    assert(b.skip(5) =~= payload);
}

} // verus!
