//! Protocol constants fixed by the target process's logic. The numeric
//! values are an external contract: they are not chosen here and carry no
//! further meaning of their own.

use vstd::prelude::*;

verus! {

/// Request code that classifies as a `Hit` request.
pub const HIT_CODE: u32 = 51;

/// Request code that classifies as a `Fly` request.
pub const FLY_CODE: u32 = 100;

/// The well-known protocol identifier. It plays two roles on purpose: it is
/// the OS notification number the target uses to call back into the loader,
/// and it is the `in_message_id` value written into the handshake message.
pub const IN_MESSAGE_ID: u32 = 1024;

/// OS notification number meaning the transport window is being destroyed.
pub const NOTIFY_DESTROY: u32 = 2;

/// OS notification number meaning the transport window was asked to close.
pub const NOTIFY_CLOSE: u32 = 16;

/// Size in bytes of the encoded wire message.
pub const MESSAGE_SIZE: usize = 28;

/// Size in bytes of the response record written for a `Fly` request.
pub const RESPONSE_SIZE: usize = 4;

/// Fixed capacity in bytes of the handshake shared-memory segment.
pub const HANDSHAKE_CAPACITY: usize = 256;

/// Generic acknowledgement value returned for `Fly` and `Unknown` requests,
/// and the value written into the target's memory for a `Fly` request.
pub const ACK_VALUE: u32 = 1;

/// Exit code of a session that ends through target exit or transport
/// shutdown.
pub const EXIT_SUCCESS: u32 = 0;

} // verus!
