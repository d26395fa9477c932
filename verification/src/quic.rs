//! Framing of protocol messages on QUIC streams, and the stream layout.
//!
//! Each reliable message travels on a unidirectional stream of its own as a
//! 4-byte big-endian length followed by the encoded message. Opening
//! streams, the transport and the encoding of messages are the program's;
//! the framing and its checks are here.
use vstd::prelude::*;
use crate::bytes::{be32, be32_value, push_be32, read_be32, lemma_be32_bytes, push_range};
use crate::protocol::MAX_MESSAGE_SIZE;
use crate::text::{decimal, push_decimal};

verus! {

/// Stream IDs for the multi-stream architecture.
pub const STREAM_CONTROL: u8 = 0;
pub const STREAM_INPUT: u8 = 1;
pub const STREAM_DATA: u8 = 2;

/// Errors of the QUIC transport.
#[derive(Debug)]
pub enum QuicError {
    Bind(String),
    Connect(String),
    Accept(String),
    Stream(String),
    Write(String),
    Read(String),
    Datagram(String),
    Serialization(String),
    Tls(String),
}

/// The frame of an encoded message: its length as 4 big-endian bytes (the
/// length truncated to 32 bits), then the message.
pub open spec fn frame(data: Seq<u8>) -> Seq<u8> {
    be32((data.len() % 0x1_0000_0000) as u32) + data
}

/// The frame of an encoded message, as it is written to a stream.
pub fn encode_frame(data: &[u8]) -> (f: Vec<u8>)
    ensures
        f@ == frame(data@),
{
    let mut f: Vec<u8> = Vec::new();
    let len: u32 = (data.len() as u64 % 0x1_0000_0000u64) as u32;
    push_be32(&mut f, len);
    push_range(&mut f, data, 0, data.len());
    proof {
        assert(data@.subrange(0, data@.len() as int) =~= data@);
        assert(f@ =~= frame(data@));
    }
    f
}

/// The text of the error for a frame whose announced length exceeds the
/// limit.
pub open spec fn too_large_text(len: nat) -> Seq<char> {
    "Message too large: "@ + decimal(len) + " bytes"@
}

/// Checks the length prefix of a received frame: the announced length, or
/// a `Read` error when it exceeds `MAX_MESSAGE_SIZE`.
pub fn check_frame_length(prefix: [u8; 4]) -> (r: Result<usize, QuicError>)
    ensures
        be32_value(prefix@) <= MAX_MESSAGE_SIZE ==> (r matches Ok(n) && n == be32_value(prefix@)),
        be32_value(prefix@) > MAX_MESSAGE_SIZE ==> (r matches Err(QuicError::Read(m))
            && m@ == too_large_text(be32_value(prefix@) as nat)),
{
    let len = read_be32(prefix[0], prefix[1], prefix[2], prefix[3]);
    proof {
        assert(prefix@ =~= seq![prefix[0], prefix[1], prefix[2], prefix[3]]);
    }
    if len as usize > MAX_MESSAGE_SIZE {
        let mut m = String::from_str("Message too large: ");
        push_decimal(&mut m, len as u64);
        m.append(" bytes");
        proof {
            reveal_strlit(" bytes");
        }
        Err(QuicError::Read(m))
    } else {
        Ok(len as usize)
    }
}

/// Framing law: the length prefix of the frame of a message that fits the
/// limit passes the check and announces the message's length, and the rest
/// of the frame is the message.
pub proof fn law_frame_roundtrip(data: Seq<u8>)
    requires
        data.len() <= MAX_MESSAGE_SIZE,
    ensures
        frame(data).len() == data.len() + 4,
        be32_value(frame(data).subrange(0, 4)) == data.len(),
        frame(data).subrange(4, frame(data).len() as int) == data,
{
    let n = (data.len() % 0x1_0000_0000) as u32;
    lemma_be32_bytes(n);
    assert(frame(data).subrange(0, 4) =~= be32(n));
    assert(frame(data).subrange(4, frame(data).len() as int) =~= data);
}

} // verus!
