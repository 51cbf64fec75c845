//! The frame every message travels in: a four-byte big-endian length
//! followed by the encoded message.

use vstd::prelude::*;

use crate::error::{protocol_error_with_count, RithmicError};
use crate::text::decimal;

verus! {

/// The four big-endian bytes of a length below 2^32.
pub open spec fn length_header(n: nat) -> Seq<u8> {
    seq![
        (n / 16777216 % 256) as u8,
        (n / 65536 % 256) as u8,
        (n / 256 % 256) as u8,
        (n % 256) as u8,
    ]
}

/// A payload with its length header in front.
pub open spec fn framed(payload: Seq<u8>) -> Seq<u8> {
    length_header(payload.len()) + payload
}

/// Puts the length header in front of an encoded message.
pub fn frame_message(payload: &[u8]) -> (buf: Vec<u8>)
    requires
        payload@.len() <= u32::MAX,
    ensures
        buf@ == framed(payload@),
{
    let n: usize = payload.len();
    let mut buf: Vec<u8> = Vec::new();
    buf.push((n / 16777216 % 256) as u8);
    buf.push((n / 65536 % 256) as u8);
    buf.push((n / 256 % 256) as u8);
    buf.push((n % 256) as u8);
    let mut i: usize = 0;
    while i < n
        invariant
            n == payload@.len(),
            i <= n,
            buf@ == length_header(n as nat) + payload@.take(i as int),
        decreases n - i,
    {
        buf.push(payload[i]);
        proof {
            assert(payload@.take(i + 1) =~= payload@.take(i as int).push(payload@[i as int]));
        }
        i = i + 1;
    }
    proof {
        assert(payload@.take(n as int) =~= payload@);
    }
    buf
}

/// The text of the error a frame shorter than its header gives.
pub open spec fn short_frame_text(n: nat) -> Seq<char> {
    "Message too short: "@ + decimal(n) + " bytes"@
}

/// The message inside a frame: everything after the four header bytes. A
/// frame shorter than its header is a protocol error naming its length. The
/// header's value is not checked against the payload.
pub fn frame_payload(data: &[u8]) -> (r: Result<Vec<u8>, RithmicError>)
    ensures
        data@.len() < 4 ==> (r matches Err(RithmicError::ProtocolError(m)) && m@ == short_frame_text(data@.len())),
        data@.len() >= 4 ==> (r matches Ok(p) && p@ == data@.skip(4)),
{
    let n = data.len();
    if n < 4 {
        return Err(protocol_error_with_count("Message too short: ", n as u64, " bytes"));
    }
    let mut payload: Vec<u8> = Vec::with_capacity(n - 4);
    let mut i: usize = 4;
    while i < n
        invariant
            n == data@.len(),
            4 <= i <= n,
            payload@ == data@.subrange(4, i as int),
        decreases n - i,
    {
        payload.push(data[i]);
        proof {
            assert(data@.subrange(4, i + 1) =~= data@.subrange(4, i as int).push(data@[i as int]));
        }
        i = i + 1;
    }
    proof {
        assert(data@.subrange(4, n as int) =~= data@.skip(4));
    }
    Ok(payload)
}

/// Taking the payload out of a frame gives back the message framed.
pub proof fn lemma_frame_roundtrip(payload: Seq<u8>)
    ensures
        framed(payload).len() >= 4,
        framed(payload).skip(4) == payload,
{
    assert(framed(payload).skip(4) =~= payload);
}

} // verus!
