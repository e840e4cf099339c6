//! The wire format: the fixed 28-byte message shared across the process
//! boundary, with byte-exact little-endian encode and decode. The byte
//! layout, not the compiler's memory layout, is the contract: the same
//! encoding is used for the handshake segment and for buffers read out of
//! the target process's memory.

use vstd::prelude::*;

use crate::consts::{IN_MESSAGE_ID, MESSAGE_SIZE, RESPONSE_SIZE};
use crate::enums::LoaderError;

verus! {

/// Generic 8-byte argument pair; its meaning depends on the request kind.
#[derive(Debug, Clone, Copy, PartialEq, Eq)]
#[verifier::ext_equal]
pub struct Payload {
    pub address: u32,
    pub value: u32,
}

/// The handshake/request record shared with the target process. Field order
/// is the wire contract: `unk_var(4) | window_handle(4) | pad(8) |
/// in_message_id(4) | payload.address(4) | payload.value(4)`, little-endian.
/// `unk_var` and `pad` are reserved and carry no meaning here, but round-trip
/// unchanged.
#[derive(Debug, Clone, Copy, PartialEq, Eq)]
#[verifier::ext_equal]
pub struct Message {
    pub unk_var: u32,
    pub window_handle: u32,
    pub pad: [u32; 2],
    pub in_message_id: u32,
    pub payload: Payload,
}

/// The four little-endian bytes of a 32-bit value, low byte first.
pub open spec fn u32_le_bytes(v: u32) -> Seq<u8> {
    seq![
        (v & 0xff) as u8,
        ((v >> 8) & 0xff) as u8,
        ((v >> 16) & 0xff) as u8,
        ((v >> 24) & 0xff) as u8,
    ]
}

/// The 32-bit value whose little-endian bytes are `b0`, `b1`, `b2`, `b3`.
pub open spec fn u32_from_le(b0: u8, b1: u8, b2: u8, b3: u8) -> u32 {
    (b0 as u32) | ((b1 as u32) << 8) | ((b2 as u32) << 16) | ((b3 as u32) << 24)
}

/// The 32-bit field starting at byte offset `i` of an encoded buffer.
pub open spec fn u32_at(s: Seq<u8>, i: int) -> u32
    recommends
        0 <= i,
        i + 4 <= s.len(),
{
    u32_from_le(s[i], s[i + 1], s[i + 2], s[i + 3])
}

/// The canonical 28-byte encoding of a message, field by field in wire
/// order.
pub open spec fn spec_encode(m: Message) -> Seq<u8> {
    u32_le_bytes(m.unk_var) + u32_le_bytes(m.window_handle) + u32_le_bytes(m.pad[0])
        + u32_le_bytes(m.pad[1]) + u32_le_bytes(m.in_message_id) + u32_le_bytes(
        m.payload.address,
    ) + u32_le_bytes(m.payload.value)
}

/// The message held in the first 28 bytes of a buffer.
pub open spec fn spec_decode(s: Seq<u8>) -> Message
    recommends
        MESSAGE_SIZE <= s.len(),
{
    Message {
        unk_var: u32_at(s, 0),
        window_handle: u32_at(s, 4),
        pad: [u32_at(s, 8), u32_at(s, 12)],
        in_message_id: u32_at(s, 16),
        payload: Payload { address: u32_at(s, 20), value: u32_at(s, 24) },
    }
}

fn push_u32_le(buf: &mut Vec<u8>, v: u32)
    ensures
        final(buf)@ == old(buf)@ + u32_le_bytes(v),
{
    buf.push((v & 0xff) as u8);
    buf.push(((v >> 8) & 0xff) as u8);
    buf.push(((v >> 16) & 0xff) as u8);
    buf.push(((v >> 24) & 0xff) as u8);
    proof {
        assert(buf@ =~= old(buf)@ + u32_le_bytes(v));
    }
}

fn read_u32_le(buf: &[u8], i: usize) -> (r: u32)
    requires
        i + 4 <= buf@.len(),
    ensures
        r == u32_at(buf@, i as int),
{
    let b0 = buf[i];
    let b1 = buf[i + 1];
    let b2 = buf[i + 2];
    let b3 = buf[i + 3];
    (b0 as u32) | ((b1 as u32) << 8) | ((b2 as u32) << 16) | ((b3 as u32) << 24)
}

/// Encodes a message into its fixed 28-byte wire form. Encoding never
/// fails.
pub fn struct_to_bytes(m: &Message) -> (r: Vec<u8>)
    ensures
        r@ == spec_encode(*m),
        r@.len() == MESSAGE_SIZE,
{
    let mut buf: Vec<u8> = Vec::new();
    push_u32_le(&mut buf, m.unk_var);
    push_u32_le(&mut buf, m.window_handle);
    push_u32_le(&mut buf, m.pad[0]);
    push_u32_le(&mut buf, m.pad[1]);
    push_u32_le(&mut buf, m.in_message_id);
    push_u32_le(&mut buf, m.payload.address);
    push_u32_le(&mut buf, m.payload.value);
    proof {
        assert(buf@ =~= spec_encode(*m));
    }
    buf
}

/// Decodes the message held in the first 28 bytes of a buffer. A buffer
/// shorter than one encoded message is rejected as truncated; decoding
/// never fails otherwise.
pub fn bytes_to_struct(buf: &[u8]) -> (r: Result<Message, LoaderError>)
    ensures
        buf@.len() >= MESSAGE_SIZE ==> r == Ok::<Message, LoaderError>(spec_decode(buf@)),
        buf@.len() < MESSAGE_SIZE ==> r == Err::<Message, LoaderError>(
            LoaderError::TruncatedMessage,
        ),
{
    if buf.len() < MESSAGE_SIZE {
        return Err(LoaderError::TruncatedMessage);
    }
    let m = Message {
        unk_var: read_u32_le(buf, 0),
        window_handle: read_u32_le(buf, 4),
        pad: [read_u32_le(buf, 8), read_u32_le(buf, 12)],
        in_message_id: read_u32_le(buf, 16),
        payload: Payload { address: read_u32_le(buf, 20), value: read_u32_le(buf, 24) },
    };
    proof {
        assert(m.pad =~= spec_decode(buf@).pad);
        assert(m =~= spec_decode(buf@));
    }
    Ok(m)
}

/// Encodes the fixed 4-byte response record written into the target for a
/// `Fly` request: one 32-bit value in little-endian order.
pub fn encode_response(value: u32) -> (r: Vec<u8>)
    ensures
        r@ == u32_le_bytes(value),
        r@.len() == RESPONSE_SIZE,
{
    let mut buf: Vec<u8> = Vec::new();
    push_u32_le(&mut buf, value);
    proof {
        assert(buf@ =~= u32_le_bytes(value));
    }
    buf
}

impl Message {
    /// The handshake message: it announces the transport handle under the
    /// well-known protocol identifier; every reserved field is zero.
    pub fn handshake(window_handle: u32) -> (m: Message)
        ensures
            m.unk_var == 0,
            m.window_handle == window_handle,
            m.pad[0] == 0,
            m.pad[1] == 0,
            m.in_message_id == IN_MESSAGE_ID,
            m.payload.address == 0,
            m.payload.value == 0,
    {
        Message {
            unk_var: 0,
            window_handle,
            pad: [0, 0],
            in_message_id: IN_MESSAGE_ID,
            payload: Payload { address: 0, value: 0 },
        }
    }
}

proof fn lemma_u32_le_round(v: u32)
    ensures
        u32_from_le(
            (v & 0xff) as u8,
            ((v >> 8) & 0xff) as u8,
            ((v >> 16) & 0xff) as u8,
            ((v >> 24) & 0xff) as u8,
        ) == v,
{
    assert(u32_from_le(
        (v & 0xff) as u8,
        ((v >> 8) & 0xff) as u8,
        ((v >> 16) & 0xff) as u8,
        ((v >> 24) & 0xff) as u8,
    ) == v) by (bit_vector);
}

/// Round trip: decoding an encoded message yields the message back, for
/// every representable field value, and the encoding is exactly
/// `MESSAGE_SIZE` bytes long.
pub proof fn lemma_round_trip(m: Message)
    ensures
        spec_encode(m).len() == MESSAGE_SIZE,
        spec_decode(spec_encode(m)) == m,
{
    lemma_u32_le_round(m.unk_var);
    lemma_u32_le_round(m.window_handle);
    lemma_u32_le_round(m.pad[0]);
    lemma_u32_le_round(m.pad[1]);
    lemma_u32_le_round(m.in_message_id);
    lemma_u32_le_round(m.payload.address);
    lemma_u32_le_round(m.payload.value);
    assert(spec_decode(spec_encode(m)).pad =~= m.pad);
    assert(spec_decode(spec_encode(m)) =~= m);
}

} // verus!
