//! The upgrade handshake checks: case-insensitive header comparison, the
//! token search inside a `Connection` header, and the accept value derived
//! from the client key (SHA-1 over key and fixed GUID, then standard
//! base64). The HTTP plumbing around these checks stays outside this crate;
//! it hands in plain header bytes and takes back the accept string.

use vstd::prelude::*;
use vstd::utf8::{encode_utf8, valid_utf8};

use base64::Engine;
use sha1::Digest;

use crate::codec::{push_bytes, try_utf8};

verus! {

/// Lowercases one ASCII byte; other bytes stay as they are.
pub open spec fn ascii_lower(b: u8) -> u8 {
    if 0x41 <= b <= 0x5a {
        (b + 0x20) as u8
    } else {
        b
    }
}

/// Byte strings that are equal up to ASCII case.
pub open spec fn eq_ignore_case(a: Seq<u8>, b: Seq<u8>) -> bool {
    a.len() == b.len() && forall|i: int| 0 <= i < a.len() ==> ascii_lower(a[i]) == ascii_lower(b[i])
}

/// A byte string, lowercased byte by byte.
pub open spec fn lower_seq(s: Seq<u8>) -> Seq<u8> {
    s.map_values(|b: u8| ascii_lower(b))
}

/// The lowercased haystack contains the needle as a contiguous run.
pub open spec fn contains_lower(h: Seq<u8>, v: Seq<u8>) -> bool {
    exists|i: int|
        0 <= i && i + v.len() <= h.len() && #[trigger] lower_seq(h.subrange(i, i + v.len() as int))
            == v
}

/// Lowercases one ASCII byte.
fn lower_byte(b: u8) -> (r: u8)
    ensures
        r == ascii_lower(b),
{
    if 0x41 <= b && b <= 0x5a {
        b + 0x20
    } else {
        b
    }
}

/// Compares two header values, ignoring ASCII case.
pub fn header_eq(h: &[u8], v: &[u8]) -> (r: bool)
    ensures
        r == eq_ignore_case(h@, v@),
{
    if h.len() != v.len() {
        return false;
    }
    let mut i: usize = 0;
    while i < h.len()
        invariant
            h@.len() == v@.len(),
            i <= h@.len(),
            forall|j: int| 0 <= j < i ==> ascii_lower(h@[j]) == ascii_lower(v@[j]),
        decreases h@.len() - i,
    {
        if lower_byte(h[i]) != lower_byte(v[i]) {
            return false;
        }
        i = i + 1;
    }
    true
}

/// Whether one window of the haystack, lowercased, equals the needle.
fn window_eq(h: &[u8], at: usize, v: &[u8]) -> (r: bool)
    requires
        at + v@.len() <= h@.len(),
    ensures
        r == (lower_seq(h@.subrange(at as int, at as int + v@.len() as int)) == v@),
{
    let ghost win = h@.subrange(at as int, at as int + v@.len() as int);
    let hlen = h.len();
    let mut j: usize = 0;
    while j < v.len()
        invariant
            at + v@.len() <= h@.len(),
            hlen == h@.len(),
            win == h@.subrange(at as int, at as int + v@.len() as int),
            j <= v@.len(),
            forall|k: int| 0 <= k < j ==> ascii_lower(win[k]) == v@[k],
        decreases v@.len() - j,
    {
        if lower_byte(h[at + j]) != v[j] {
            proof {
                assert(lower_seq(win)[j as int] != v@[j as int]);
            }
            return false;
        }
        j = j + 1;
    }
    proof {
        assert(lower_seq(win) =~= v@);
    }
    true
}

/// Whether the header value is valid UTF-8 and, lowercased, contains the
/// needle as a contiguous run. This is the check a `Connection` header gets,
/// with needle `upgrade`.
pub fn header_contains(h: &[u8], v: &[u8]) -> (r: bool)
    ensures
        r == (valid_utf8(h@) && contains_lower(h@, v@)),
{
    if try_utf8(h).is_none() {
        return false;
    }
    if v.len() > h.len() {
        proof {
            assert(!contains_lower(h@, v@));
        }
        return false;
    }
    if v.len() == 0 {
        proof {
            assert(lower_seq(h@.subrange(0, 0 + v@.len() as int)) =~= v@);
            assert(contains_lower(h@, v@));
        }
        return true;
    }
    let last = h.len() - v.len();
    let mut i: usize = 0;
    while i <= last
        invariant
            valid_utf8(h@),
            1 <= v@.len() <= h@.len(),
            last == h@.len() - v@.len(),
            last < usize::MAX,
            i <= last + 1,
            forall|j: int|
                0 <= j < i ==> #[trigger] lower_seq(h@.subrange(j, j + v@.len() as int)) != v@,
        decreases last + 1 - i,
    {
        if window_eq(h, i, v) {
            proof {
                assert(lower_seq(h@.subrange(i as int, i as int + v@.len() as int)) == v@);
                assert(contains_lower(h@, v@));
            }
            return true;
        }
        i = i + 1;
    }
    proof {
        assert(!contains_lower(h@, v@));
    }
    false
}

/// The SHA-1 digest of a byte sequence, named: it is a pure function of the
/// bytes alone, and nothing more is assumed of it than its 20-byte length.
pub uninterp spec fn sha1_of(bytes: Seq<u8>) -> Seq<u8>;

/// Relies on the sha1 crate's `Sha1::digest`: the SHA-1 hash, a pure
/// function of the input bytes, 20 bytes long.
#[verifier::external_body]
fn sha1_digest(b: &[u8]) -> (r: Vec<u8>)
    ensures
        r@ == sha1_of(b@),
        r@.len() == 20,
{
    sha1::Sha1::digest(b).to_vec()
}

/// The character the standard base64 alphabet assigns to a 6-bit value.
pub open spec fn b64_char(v: u8) -> char {
    "ABCDEFGHIJKLMNOPQRSTUVWXYZabcdefghijklmnopqrstuvwxyz0123456789+/"@[v as int]
}

/// Standard base64 with `=` padding: three bytes become four characters; a
/// final group of one or two bytes is padded.
pub open spec fn b64_encode(bytes: Seq<u8>) -> Seq<char>
    decreases bytes.len(),
{
    if bytes.len() == 0 {
        Seq::empty()
    } else if bytes.len() == 1 {
        let b0 = bytes[0];
        seq![b64_char(b0 / 4), b64_char(((b0 % 4) * 16) as u8), '=', '=']
    } else if bytes.len() == 2 {
        let b0 = bytes[0];
        let b1 = bytes[1];
        seq![
            b64_char(b0 / 4),
            b64_char(((b0 % 4) * 16 + b1 / 16) as u8),
            b64_char(((b1 % 16) * 4) as u8),
            '=',
        ]
    } else {
        let b0 = bytes[0];
        let b1 = bytes[1];
        let b2 = bytes[2];
        seq![
            b64_char(b0 / 4),
            b64_char(((b0 % 4) * 16 + b1 / 16) as u8),
            b64_char(((b1 % 16) * 4 + b2 / 64) as u8),
            b64_char(b2 % 64),
        ] + b64_encode(bytes.skip(3))
    }
}

/// Relies on the base64 crate's `STANDARD` engine: RFC 4648 standard
/// alphabet with `=` padding.
#[verifier::external_body]
fn b64_standard(b: &[u8]) -> (r: String)
    ensures
        r@ == b64_encode(b@),
{
    base64::engine::general_purpose::STANDARD.encode(b)
}

/// The fixed GUID that the accept value appends to the client key.
pub open spec fn ws_guid() -> Seq<char> {
    "258EAFA5-E914-47DA-95CA-C5AB0DC85B11"@
}

/// The accept value derived from a client key: standard base64 of the SHA-1
/// digest of the key followed by the fixed GUID.
pub open spec fn spec_accept_key(key: Seq<u8>) -> Seq<char> {
    b64_encode(sha1_of(key + encode_utf8(ws_guid())))
}

/// Derives the accept value for a client key.
pub fn sign(key: &[u8]) -> (r: String)
    ensures
        r@ == spec_accept_key(key@),
{
    let guid = "258EAFA5-E914-47DA-95CA-C5AB0DC85B11".as_bytes();
    let mut input: Vec<u8> = Vec::new();
    push_bytes(&mut input, key);
    push_bytes(&mut input, guid);
    let digest = sha1_digest(input.as_slice());
    b64_standard(digest.as_slice())
}

/// The upgrade request is acceptable: it is a GET whose `Connection` header
/// contains `upgrade`, whose `Upgrade` header is `websocket`, whose version
/// is 13, whose subprotocol matches, and which carries a key.
pub open spec fn upgrade_accepted(
    is_get: bool,
    connection: Option<Seq<u8>>,
    upgrade: Option<Seq<u8>>,
    version: Option<Seq<u8>>,
    protocol: Option<Seq<u8>>,
    key: Option<Seq<u8>>,
) -> bool {
    &&& is_get
    &&& connection matches Some(c) && valid_utf8(c) && contains_lower(c, encode_utf8("upgrade"@))
    &&& upgrade matches Some(u) && eq_ignore_case(u, encode_utf8("websocket"@))
    &&& version matches Some(v) && eq_ignore_case(v, encode_utf8("13"@))
    &&& protocol matches Some(p) && eq_ignore_case(p, encode_utf8("websocket.io-rpc-v0.1"@))
    &&& key is Some
}

/// The view of an optional header value.
pub open spec fn opt_bytes(o: Option<&[u8]>) -> Option<Seq<u8>> {
    match o {
        Some(s) => Some(s@),
        None => None,
    }
}

/// Checks an upgrade request, given as plain values: the method flag and the
/// raw bytes of the relevant headers. Returns the accept value exactly when
/// every check passes.
pub fn accept_upgrade(
    is_get: bool,
    connection: Option<&[u8]>,
    upgrade: Option<&[u8]>,
    version: Option<&[u8]>,
    protocol: Option<&[u8]>,
    key: Option<&[u8]>,
) -> (r: Option<String>)
    ensures
        match r {
            Some(s) => upgrade_accepted(
                is_get,
                opt_bytes(connection),
                opt_bytes(upgrade),
                opt_bytes(version),
                opt_bytes(protocol),
                opt_bytes(key),
            ) && (key matches Some(k) && s@ == spec_accept_key(k@)),
            None => !upgrade_accepted(
                is_get,
                opt_bytes(connection),
                opt_bytes(upgrade),
                opt_bytes(version),
                opt_bytes(protocol),
                opt_bytes(key),
            ),
        },
{
    if !is_get {
        return None;
    }
    match connection {
        Some(c) => {
            if !header_contains(c, "upgrade".as_bytes()) {
                return None;
            }
        },
        None => {
            return None;
        },
    }
    match upgrade {
        Some(u) => {
            if !header_eq(u, "websocket".as_bytes()) {
                return None;
            }
        },
        None => {
            return None;
        },
    }
    match version {
        Some(v) => {
            if !header_eq(v, "13".as_bytes()) {
                return None;
            }
        },
        None => {
            return None;
        },
    }
    match protocol {
        Some(p) => {
            if !header_eq(p, "websocket.io-rpc-v0.1".as_bytes()) {
                return None;
            }
        },
        None => {
            return None;
        },
    }
    match key {
        Some(k) => Some(sign(k)),
        None => None,
    }
}

} // verus!
