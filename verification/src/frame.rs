//! An untagged call-body codec: one method name, one 32-bit id and a payload,
//! without a leading frame-type octet. `Frame` borrows its parts for
//! encoding; `Request` owns the bytes of a parsed body.

use vstd::prelude::*;
use vstd::slice::slice_subrange;
use vstd::utf8::{decode_utf8, encode_utf8, encode_utf8_decode_utf8, encode_utf8_valid_utf8,
    valid_utf8};

use crate::codec::{push_bytes, try_utf8, DecodeError};
use crate::error::NotifyError;
use crate::wire::{be_u32, lemma_u32_be_round_trip, u32_be_bytes, u32_from_be, u32_to_be};

verus! {

/// A call body to encode: a method name and its argument.
#[derive(Debug)]
pub struct Frame<'a> {
    /// The method name; at most 255 UTF-8 bytes once encoded.
    pub method: &'a str,
    /// The call id and payload.
    pub arg: Argument<'a>,
}

/// The argument part of a call body: the id and the payload bytes.
#[derive(Debug)]
pub struct Argument<'a> {
    /// The peer-chosen 32-bit call id.
    pub id: u32,
    /// The opaque payload.
    pub data: &'a [u8],
}

/// The bytes of an encoded call body: one length octet, the method name in
/// UTF-8, the id in big-endian order, then the payload.
pub open spec fn spec_frame_bytes(method: Seq<char>, id: u32, data: Seq<u8>) -> Seq<u8> {
    seq![encode_utf8(method).len() as u8] + encode_utf8(method) + u32_be_bytes(id) + data
}

/// What parsing a call body yields: name, id and payload, or the first error
/// in read order (name length, name bytes, UTF-8 validity, id bytes).
pub open spec fn spec_parse_body(b: Seq<u8>) -> Result<(Seq<char>, u32, Seq<u8>), DecodeError> {
    if b.len() < 1 {
        Err(DecodeError::InsufficientBytes)
    } else {
        let n = b[0] as int;
        if b.len() < 1 + n {
            Err(DecodeError::InsufficientBytes)
        } else if !valid_utf8(b.subrange(1, 1 + n)) {
            Err(DecodeError::InvalidUtf8)
        } else if b.len() < 5 + n {
            Err(DecodeError::InsufficientBytes)
        } else {
            Ok((decode_utf8(b.subrange(1, 1 + n)), be_u32(b.subrange(1 + n, 5 + n)), b.skip(5 + n)))
        }
    }
}

impl<'a> Argument<'a> {
    /// Appends the big-endian id and the payload to the writer.
    pub fn encode(&self, writer: &mut Vec<u8>)
        ensures
            final(writer)@ == old(writer)@ + u32_be_bytes(self.id) + self.data@,
    {
        let idb = u32_to_be(self.id);
        push_bytes(writer, idb.as_slice());
        push_bytes(writer, self.data);
    }
}

impl<'a> Frame<'a> {
    /// Appends the encoded call body to the writer. Fails exactly when the
    /// method name is longer than 255 bytes, leaving the writer unchanged.
    pub fn encode(&self, writer: &mut Vec<u8>) -> (r: Result<(), NotifyError>)
        ensures
            encode_utf8(self.method@).len() <= 255 ==> r is Ok && final(writer)@ == old(writer)@
                + spec_frame_bytes(self.method@, self.arg.id, self.arg.data@),
            encode_utf8(self.method@).len() > 255 ==> r == Err::<(), NotifyError>(
                NotifyError::EventNameTooBig,
            ) && final(writer)@ == old(writer)@,
    {
        let method = self.method.as_bytes();
        if method.len() > 255 {
            return Err(NotifyError::EventNameTooBig);
        }
        writer.push(method.len() as u8);
        push_bytes(writer, method);
        self.arg.encode(writer);
        proof {
            assert(writer@ =~= old(writer)@ + spec_frame_bytes(
                self.method@,
                self.arg.id,
                self.arg.data@,
            ));
        }
        Ok(())
    }

    /// Encodes the call body into a fresh buffer. Fails exactly when the
    /// method name is longer than 255 bytes.
    pub fn to_bytes(&self) -> (r: Result<Vec<u8>, NotifyError>)
        ensures
            encode_utf8(self.method@).len() <= 255 ==> (r matches Ok(buf) && buf@
                == spec_frame_bytes(self.method@, self.arg.id, self.arg.data@)),
            encode_utf8(self.method@).len() > 255 ==> r == Err::<Vec<u8>, NotifyError>(
                NotifyError::EventNameTooBig,
            ),
    {
        let mut buf: Vec<u8> = Vec::new();
        match self.encode(&mut buf) {
            Ok(_) => Ok(buf),
            Err(e) => Err(e),
        }
    }
}

/// A parsed call body: the owned bytes, the method name, the id and the
/// offset of the payload.
#[derive(Debug)]
pub struct Request {
    buf: Vec<u8>,
    method: String,
    id: u32,
    data_offset: u16,
}

impl Request {
    /// The method name, as characters.
    pub closed spec fn method_spec(&self) -> Seq<char> {
        self.method@
    }

    /// The call id.
    pub closed spec fn id_spec(&self) -> u32 {
        self.id
    }

    /// The payload bytes.
    pub closed spec fn data_spec(&self) -> Seq<u8> {
        self.buf@.skip(self.data_offset as int)
    }

    /// Well-formedness: the payload offset lies inside the buffer.
    pub closed spec fn wf(&self) -> bool {
        self.data_offset as int <= self.buf@.len()
    }

    /// Parses a call body from an owned buffer.
    pub fn parse(buf: Vec<u8>) -> (r: Result<Request, DecodeError>)
        ensures
            match r {
                Ok(req) => spec_parse_body(buf@) matches Ok((name, id, payload)) && req.wf()
                    && req.method_spec() == name && req.id_spec() == id && req.data_spec()
                    == payload,
                Err(e) => spec_parse_body(buf@) == Err::<(Seq<char>, u32, Seq<u8>), DecodeError>(e),
            },
    {
        if buf.len() < 1 {
            return Err(DecodeError::InsufficientBytes);
        }
        let n = buf[0] as usize;
        if buf.len() < 1 + n {
            return Err(DecodeError::InsufficientBytes);
        }
        let name = slice_subrange(buf.as_slice(), 1, 1 + n);
        let method: String = match try_utf8(name) {
            Some(s) => s.to_owned(),
            None => {
                return Err(DecodeError::InvalidUtf8);
            },
        };
        if buf.len() < 5 + n {
            return Err(DecodeError::InsufficientBytes);
        }
        let id = u32_from_be(buf[1 + n], buf[2 + n], buf[3 + n], buf[4 + n]);
        let req = Request { buf, method, id, data_offset: (5 + n) as u16 };
        proof {
            assert(req.buf@.subrange(1 + n as int, 5 + n as int) =~= seq![
                req.buf@[1 + n as int],
                req.buf@[2 + n as int],
                req.buf@[3 + n as int],
                req.buf@[4 + n as int],
            ]);
            assert(req.data_spec() =~= req.buf@.skip(5 + n as int));
        }
        Ok(req)
    }

    /// The method name of this request.
    pub fn method(&self) -> (r: &str)
        ensures
            r@ == self.method_spec(),
    {
        self.method.as_str()
    }

    /// The call id of this request.
    pub fn id(&self) -> (r: u32)
        ensures
            r == self.id_spec(),
    {
        self.id
    }

    /// The payload of this request.
    pub fn data(&self) -> (r: &[u8])
        requires
            self.wf(),
        ensures
            r@ == self.data_spec(),
    {
        let r = slice_subrange(self.buf.as_slice(), self.data_offset as usize, self.buf.len());
        proof {
            assert(r@ =~= self.data_spec());
        }
        r
    }
}

/// A notification view over a parsed call body: the id is dropped, the
/// method name and payload remain.
pub struct Notify {
    buf: Vec<u8>,
    method: String,
    data_offset: u16,
}

impl Notify {
    /// The method name, as characters.
    pub closed spec fn method_spec(&self) -> Seq<char> {
        self.method@
    }

    /// The payload bytes.
    pub closed spec fn data_spec(&self) -> Seq<u8> {
        self.buf@.skip(self.data_offset as int)
    }

    /// Well-formedness: the payload offset lies inside the buffer.
    pub closed spec fn wf(&self) -> bool {
        self.data_offset as int <= self.buf@.len()
    }

    /// The method name of this notification.
    pub fn method(&self) -> (r: &str)
        ensures
            r@ == self.method_spec(),
    {
        self.method.as_str()
    }

    /// The payload of this notification.
    pub fn data(&self) -> (r: &[u8])
        requires
            self.wf(),
        ensures
            r@ == self.data_spec(),
    {
        let r = slice_subrange(self.buf.as_slice(), self.data_offset as usize, self.buf.len());
        proof {
            assert(r@ =~= self.data_spec());
        }
        r
    }
}

impl From<Request> for Notify {
    /// Reuses the request's buffer and method, forgetting the call id.
    fn from(req: Request) -> (r: Notify) {
        Notify { buf: req.buf, method: req.method, data_offset: req.data_offset }
    }
}

impl vstd::std_specs::convert::FromSpecImpl<Request> for Notify {
    open spec fn obeys_from_spec() -> bool {
        true
    }

    closed spec fn from_spec(req: Request) -> Notify {
        Notify { buf: req.buf, method: req.method, data_offset: req.data_offset }
    }
}

/// Law: the notification view of a request keeps its method name, its
/// payload and its well-formedness.
pub proof fn lemma_notify_from(req: Request)
    ensures
        ({
            let n = <Notify as vstd::std_specs::convert::FromSpec<Request>>::from_spec(req);
            &&& n.method_spec() == req.method_spec()
            &&& n.data_spec() == req.data_spec()
            &&& n.wf() == req.wf()
        }),
{
}

/// Law: parsing an encoded call body recovers the method, the id and the
/// payload exactly, for every method of at most 255 UTF-8 bytes.
pub proof fn lemma_frame_round_trip(method: Seq<char>, id: u32, data: Seq<u8>)
    requires
        encode_utf8(method).len() <= 255,
    ensures
        spec_parse_body(spec_frame_bytes(method, id, data)) == Ok::<
            (Seq<char>, u32, Seq<u8>),
            DecodeError,
        >((method, id, data)),
{
    let b = spec_frame_bytes(method, id, data);
    let n = encode_utf8(method).len() as int;
    encode_utf8_valid_utf8(method);
    encode_utf8_decode_utf8(method);
    lemma_u32_be_round_trip(id);
    assert(b.subrange(1, 1 + n) =~= encode_utf8(method));
    assert(b.subrange(1 + n, 5 + n) =~= u32_be_bytes(id));
    assert(b.skip(5 + n) =~= data);
}

} // verus!
