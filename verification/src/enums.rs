//! Request classification and the library's error vocabulary.

use vstd::prelude::*;

use crate::consts::{FLY_CODE, HIT_CODE};

verus! {

/// The kind of request the target's anti-tamper subsystem issued. The
/// enumeration is closed: every code maps to a kind, unrecognized codes map
/// to `Unknown` and never to an error.
#[derive(Debug, Clone, Copy, PartialEq, Eq, Structural)]
pub enum SecuRomRequest {
    Hit,
    Fly,
    Unknown,
}

/// Errors of the loader session. The first tier (`ChannelUnavailable`,
/// `SpawnFailed`) is fatal at startup; the rest are recoverable per-request
/// conditions.
#[derive(Debug, Clone, Copy, PartialEq, Eq, Structural)]
pub enum LoaderError {
    /// The named shared-memory segment could not be created.
    ChannelUnavailable,
    /// A handshake payload exceeded the channel's fixed capacity.
    BufferTooLarge,
    /// The target executable could not be launched.
    SpawnFailed,
    /// The target process could not be opened for memory access.
    AccessDenied,
    /// A remote read was refused or transferred fewer bytes than asked.
    ReadFault,
    /// A remote write was refused or transferred fewer bytes than asked.
    WriteFault,
    /// A request buffer was shorter than one encoded wire message.
    TruncatedMessage,
}

/// Total classification of a request code: `HIT_CODE` is `Hit`, `FLY_CODE`
/// is `Fly`, and every other code is `Unknown`.
pub open spec fn classify(code: u32) -> SecuRomRequest {
    if code == HIT_CODE {
        SecuRomRequest::Hit
    } else if code == FLY_CODE {
        SecuRomRequest::Fly
    } else {
        SecuRomRequest::Unknown
    }
}

impl From<u32> for SecuRomRequest {
    fn from(i: u32) -> Self {
        if i == HIT_CODE {
            SecuRomRequest::Hit
        } else if i == FLY_CODE {
            SecuRomRequest::Fly
        } else {
            SecuRomRequest::Unknown
        }
    }
}

impl vstd::std_specs::convert::FromSpecImpl<u32> for SecuRomRequest {
    open spec fn obeys_from_spec() -> bool {
        true
    }

    open spec fn from_spec(v: u32) -> Self {
        classify(v)
    }
}

/// The classification is total: every code resolves to exactly one of the
/// three kinds, the two recognized codes to theirs and all others to
/// `Unknown`.
pub proof fn lemma_classify_total(code: u32)
    ensures
        code == HIT_CODE ==> classify(code) == SecuRomRequest::Hit,
        code == FLY_CODE ==> classify(code) == SecuRomRequest::Fly,
        code != HIT_CODE && code != FLY_CODE ==> classify(code) == SecuRomRequest::Unknown,
{
}

} // verus!
