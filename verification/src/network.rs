//! The byte-level rules of the wire: read limits and the frame that carries a pushed
//! message (a little-endian `u32` length, then the payload).

use vstd::prelude::*;

use crate::constant::MAXIMUM_MESSAGE_LENGTH;
use crate::error::network::Error as NetworkError;
use crate::error::Error;

verus! {

/// Most bytes read for the first request of a connection, the login.
pub const AUTHENTICATION_MAX_READ_LENGHT: usize = 64;

/// Most bytes read for any other request.
pub const REQUEST_MAX_READ_LENGHT: usize = MAXIMUM_MESSAGE_LENGTH * 2;

/// Most bytes read for a response or a pushed message.
pub const RESPONCE_MAX_READ_LENGHT: usize = MAXIMUM_MESSAGE_LENGTH * 2;

/// The four little-endian bytes of a number below 2^32.
pub open spec fn le_bytes(value: nat) -> Seq<u8> {
    seq![
        (value % 256) as u8,
        (value / 256 % 256) as u8,
        (value / 65536 % 256) as u8,
        (value / 16777216 % 256) as u8,
    ]
}

/// The number that four little-endian bytes stand for.
pub open spec fn le_value(bytes: Seq<u8>) -> nat {
    (bytes[0] + 256 * bytes[1] + 65536 * bytes[2] + 16777216 * bytes[3]) as nat
}

/// A payload preceded by its length as a `u32` (the length taken modulo 2^32, as the
/// cast to `u32` does).
pub open spec fn framed(payload: Seq<u8>) -> Seq<u8> {
    le_bytes(payload.len() % 4294967296) + payload
}

/// What a frame header announces: the length, or the error when it exceeds the bound.
pub open spec fn announced_length(header: Seq<u8>) -> Result<usize, Error> {
    if le_value(header) > RESPONCE_MAX_READ_LENGHT {
        Err(
            Error::Network(
                NetworkError::ReadBoundExceed(le_value(header) as usize, RESPONCE_MAX_READ_LENGHT),
            ),
        )
    } else {
        Ok(le_value(header) as usize)
    }
}

proof fn lemma_le_round_trip(value: nat)
    requires
        value < 4294967296,
    ensures
        le_value(le_bytes(value)) == value,
{
    let b0 = value % 256;
    let b1 = value / 256 % 256;
    let b2 = value / 65536 % 256;
    let b3 = value / 16777216 % 256;
    assert(b0 + 256 * b1 + 65536 * b2 + 16777216 * b3 == value) by (nonlinear_arith)
        requires
            value < 4294967296,
            b0 == value % 256,
            b1 == value / 256 % 256,
            b2 == value / 65536 % 256,
            b3 == value / 16777216 % 256,
    ;
}

/// The transport of requests, responses and pushed messages.
pub struct Network;

impl Network {
    /// The bound on a request's size: the one given, else `REQUEST_MAX_READ_LENGHT`.
    pub fn request_read_limit(size_limit: Option<usize>) -> (limit: usize)
        ensures
            limit == match size_limit {
                Some(given) => given,
                None => REQUEST_MAX_READ_LENGHT,
            },
    {
        match size_limit {
            Some(given) => given,
            None => REQUEST_MAX_READ_LENGHT,
        }
    }

    /// The bytes that carry a pushed message: its length, then the payload.
    pub fn frame(payload: &[u8]) -> (bytes: Vec<u8>)
        ensures
            bytes@ == framed(payload@),
    {
        let length: u64 = payload.len() as u64 % 4294967296;
        let mut bytes: Vec<u8> = Vec::new();
        bytes.push((length % 256) as u8);
        bytes.push((length / 256 % 256) as u8);
        bytes.push((length / 65536 % 256) as u8);
        bytes.push((length / 16777216 % 256) as u8);
        assert(bytes@ =~= le_bytes(payload@.len() % 4294967296));
        let ghost header = bytes@;
        let mut i: usize = 0;
        while i < payload.len()
            invariant
                i <= payload.len(),
                bytes@ == header + payload@.take(i as int),
            decreases payload.len() - i,
        {
            bytes.push(payload[i]);
            i = i + 1;
            assert(bytes@ =~= header + payload@.take(i as int));
        }
        assert(payload@.take(payload.len() as int) =~= payload@);
        bytes
    }

    /// Reads a frame header: the length it announces, refused when above
    /// `RESPONCE_MAX_READ_LENGHT`.
    pub fn frame_length(header: [u8; 4]) -> (length: Result<usize, Error>)
        ensures
            length == announced_length(header@),
    {
        let announced: u64 = header[0] as u64 + 256 * header[1] as u64 + 65536 * header[2] as u64
            + 16777216 * header[3] as u64;
        if announced > RESPONCE_MAX_READ_LENGHT as u64 {
            Err(
                Error::Network(
                    NetworkError::ReadBoundExceed(announced as usize, RESPONCE_MAX_READ_LENGHT),
                ),
            )
        } else {
            Ok(announced as usize)
        }
    }
}

/// A frame read back gives the payload that was framed: its header announces the
/// payload's length, and the payload follows it, whenever the payload is within the
/// bound.
pub proof fn law_frame_round_trip(payload: Seq<u8>)
    requires
        payload.len() <= RESPONCE_MAX_READ_LENGHT,
    ensures
        announced_length(framed(payload).take(4)) == Ok::<usize, Error>(payload.len() as usize),
        framed(payload).skip(4) == payload,
{
    lemma_le_round_trip(payload.len());
    assert(framed(payload).take(4) =~= le_bytes(payload.len()));
    assert(framed(payload).skip(4) =~= payload);
}

} // verus!
