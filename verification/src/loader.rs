//! The loader session: request dispatch, the transport's notification
//! decisions, and the supervisor's liveness decisions, all folded into one
//! cooperative single-threaded loop. The library decides; the surrounding
//! process performs the OS work (the window, the remote reads and writes,
//! waiting on the target) and hands the observations back as events.

use vstd::prelude::*;

use crate::channel::HandshakeChannel;
use crate::consts::{ACK_VALUE, EXIT_SUCCESS, IN_MESSAGE_ID, MESSAGE_SIZE, NOTIFY_CLOSE,
    NOTIFY_DESTROY};
use crate::enums::{classify, LoaderError, SecuRomRequest};
use crate::message::{bytes_to_struct, encode_response, spec_decode, u32_le_bytes, Message};

verus! {

/// A pending write of raw bytes into the target process, to be carried out
/// by the remote-memory accessor.
pub struct WriteCommand {
    pub address: u32,
    pub bytes: Vec<u8>,
}

/// What one request resolves to: the synchronous reply owed to the sender,
/// and at most one remote write.
pub struct Outcome {
    pub reply: u32,
    pub write: Option<WriteCommand>,
}

/// An event the session's single event loop can observe.
#[derive(Debug, Clone, Copy, PartialEq, Eq)]
pub enum LoopEvent {
    /// An inbound OS notification, with its kind and attached parameter.
    Notification { kind: u32, param: isize },
    /// One idle cycle; `target_exited` is what the liveness probe saw.
    Idle { target_exited: bool },
}

/// What the loop must do with one event.
#[derive(Debug, Clone, Copy, PartialEq, Eq)]
pub enum LoopAction {
    /// End the whole session now, with exit code `EXIT_SUCCESS`.
    Exit,
    /// Read and dispatch the request at this virtual address in the target.
    Dispatch { address: usize },
    /// Nothing to do; the event is left to the transport's default path.
    Ignore,
}

/// The session's lifecycle state.
#[derive(Debug, Clone, Copy, PartialEq, Eq)]
pub enum SessionState {
    Running,
    Terminated,
}

/// 32-bit wrapping addition: the sum reduced modulo 2^32. Overflow wraps,
/// it is not an error.
pub open spec fn wrap_add(a: u32, b: u32) -> u32 {
    ((a + b) % 0x1_0000_0000) as u32
}

/// What the outcome of a decoded request must look like, kind by kind:
/// a `Hit` answers with the wrapping sum of the payload pair and touches no
/// memory; a `Fly` answers with the acknowledgement and writes the 4-byte
/// response record with value `ACK_VALUE` at the payload address; an
/// `Unknown` answers with the acknowledgement and touches nothing.
pub open spec fn outcome_matches(o: Outcome, m: Message) -> bool {
    match classify(m.in_message_id) {
        SecuRomRequest::Hit => {
            &&& o.reply == wrap_add(m.payload.address, m.payload.value)
            &&& o.write is None
        },
        SecuRomRequest::Fly => {
            &&& o.reply == ACK_VALUE
            &&& o.write matches Some(wc) && wc.address == m.payload.address && wc.bytes@
                == u32_le_bytes(ACK_VALUE)
        },
        SecuRomRequest::Unknown => {
            &&& o.reply == ACK_VALUE
            &&& o.write is None
        },
    }
}

/// The action the loop owes each event: destroy or close notifications end
/// the session; the well-known protocol notification with a positive
/// parameter is a request at that address; everything else is ignored, and
/// so is an idle cycle whose probe saw the target still alive.
pub open spec fn spec_step_action(e: LoopEvent) -> LoopAction {
    match e {
        LoopEvent::Notification { kind, param } => if kind == NOTIFY_DESTROY || kind
            == NOTIFY_CLOSE {
            LoopAction::Exit
        } else if kind == IN_MESSAGE_ID && param > 0 {
            LoopAction::Dispatch { address: param as usize }
        } else {
            LoopAction::Ignore
        },
        LoopEvent::Idle { target_exited } => if target_exited {
            LoopAction::Exit
        } else {
            LoopAction::Ignore
        },
    }
}

/// True of the events on which the loop ends the session.
pub open spec fn spec_terminates(e: LoopEvent) -> bool {
    spec_step_action(e) is Exit
}

/// The loader session: it tracks the target process identifier and whether
/// the single event loop is still running.
pub struct Loader {
    pid: u32,
    state: SessionState,
    code: u32,
}

impl Loader {
    /// True while the event loop serves events.
    pub closed spec fn running(&self) -> bool {
        self.state is Running
    }

    /// True once the session has ended.
    pub closed spec fn terminated(&self) -> bool {
        self.state is Terminated
    }

    /// The exit code of a terminated session.
    pub closed spec fn exit_code(&self) -> u32 {
        self.code
    }

    /// The identifier of the tracked target process.
    pub closed spec fn spec_pid(&self) -> u32 {
        self.pid
    }

    /// A session for a freshly spawned target process, ready to serve.
    pub fn new(pid: u32) -> (l: Loader)
        ensures
            l.running(),
            l.spec_pid() == pid,
    {
        Loader { pid, state: SessionState::Running, code: EXIT_SUCCESS }
    }

    /// The identifier of the tracked target process.
    pub fn pid(&self) -> (p: u32)
        ensures
            p == self.spec_pid(),
    {
        self.pid
    }

    /// True while the event loop serves events.
    pub fn is_running(&self) -> (r: bool)
        ensures
            r == self.running(),
    {
        match self.state {
            SessionState::Running => true,
            SessionState::Terminated => false,
        }
    }

    /// The exit code the session ends with.
    pub fn exit_status(&self) -> (c: u32)
        ensures
            c == self.exit_code(),
    {
        self.code
    }

    /// Resolves one request that was read out of the target's memory at a
    /// remote address. A failed read is handed in as its error and passed
    /// through; a buffer shorter than one wire message is truncated; any
    /// complete buffer decodes and dispatches, with no further failure.
    pub fn process(read: Result<Vec<u8>, LoaderError>) -> (r: Result<Outcome, LoaderError>)
        ensures
            match read {
                Err(e) => r == Err::<Outcome, LoaderError>(e),
                Ok(buf) => if buf@.len() < MESSAGE_SIZE {
                    r == Err::<Outcome, LoaderError>(LoaderError::TruncatedMessage)
                } else {
                    r matches Ok(o) && outcome_matches(o, spec_decode(buf@))
                },
            },
    {
        let buf = match read {
            Ok(b) => b,
            Err(e) => { return Err(e) },
        };
        let msg = match bytes_to_struct(buf.as_slice()) {
            Ok(m) => m,
            Err(e) => { return Err(e) },
        };
        Ok(Self::dispatch(&msg))
    }

    /// The closed three-way dispatch from a decoded message to its outcome.
    pub fn dispatch(msg: &Message) -> (o: Outcome)
        ensures
            outcome_matches(o, *msg),
    {
        let req = SecuRomRequest::from(msg.in_message_id);
        match req {
            SecuRomRequest::Hit => {
                let reply = msg.payload.address.wrapping_add(msg.payload.value);
                proof {
                    lemma_wrapping_is_mod(msg.payload.address, msg.payload.value);
                }
                Outcome { reply, write: None }
            },
            SecuRomRequest::Fly => Outcome {
                reply: ACK_VALUE,
                write: Some(
                    WriteCommand { address: msg.payload.address, bytes: encode_response(ACK_VALUE) },
                ),
            },
            SecuRomRequest::Unknown => Outcome { reply: ACK_VALUE, write: None },
        }
    }

    /// The synchronous reply owed to the sender once the outcome's write, if
    /// any, has been attempted. The reply never depends on whether that
    /// write succeeded: a failed write is a recoverable per-request error,
    /// logged by the caller, and the same value still goes back.
    pub fn reply_after_write(o: &Outcome, _write_ok: bool) -> (r: u32)
        ensures
            r == o.reply,
    {
        o.reply
    }

    /// One step of the session's single cooperative loop: both the
    /// notification handler and the idle-cycle liveness probe. An event
    /// whose action is `Exit` terminates the session with `EXIT_SUCCESS`;
    /// every other event leaves the session exactly as it was.
    pub fn step(&mut self, event: LoopEvent) -> (a: LoopAction)
        requires
            old(self).running(),
        ensures
            a == spec_step_action(event),
            a is Exit ==> final(self).terminated() && final(self).exit_code() == EXIT_SUCCESS
                && final(self).spec_pid() == old(self).spec_pid(),
            !(a is Exit) ==> *final(self) == *old(self),
    {
        let action = match event {
            LoopEvent::Notification { kind, param } => {
                if kind == NOTIFY_DESTROY || kind == NOTIFY_CLOSE {
                    LoopAction::Exit
                } else if kind == IN_MESSAGE_ID && param > 0 {
                    LoopAction::Dispatch { address: param as usize }
                } else {
                    LoopAction::Ignore
                }
            },
            LoopEvent::Idle { target_exited } => {
                if target_exited {
                    LoopAction::Exit
                } else {
                    LoopAction::Ignore
                }
            },
        };
        if let LoopAction::Exit = action {
            self.state = SessionState::Terminated;
            self.code = EXIT_SUCCESS;
        }
        action
    }

    /// Drives the session over a script of events in order, as the single
    /// event loop does, and returns how far it got: the index of the event
    /// that ended the session, or the script's length if none did. The loop
    /// stops at the first terminating event, so no event, probe or
    /// notification alike, is observed after termination.
    pub fn run_session(&mut self, events: &Vec<LoopEvent>) -> (n: usize)
        requires
            old(self).running(),
        ensures
            n <= events@.len(),
            forall|i: int| 0 <= i < n ==> !spec_terminates(events@[i]),
            n < events@.len() ==> spec_terminates(events@[n as int]) && final(self).terminated()
                && final(self).exit_code() == EXIT_SUCCESS,
            n == events@.len() ==> *final(self) == *old(self),
    {
        let mut i: usize = 0;
        while i < events.len()
            invariant
                i <= events@.len(),
                *self == *old(self),
                self.running(),
                forall|j: int| 0 <= j < i ==> !spec_terminates(events@[j]),
            decreases events@.len() - i,
        {
            let action = self.step(events[i]);
            if let LoopAction::Exit = action {
                return i;
            }
            i = i + 1;
        }
        i
    }
}

/// The one-time startup sequence, in its required order: the handshake is
/// published into the channel exactly once, and only then may the target be
/// spawned. The channel is single-writer with no concurrent reader at write
/// time, because the only reader does not exist yet.
pub struct Bootstrap {
    published: bool,
    spawned: bool,
}

impl Bootstrap {
    /// True once the handshake has been copied into the channel.
    pub closed spec fn handshake_published(&self) -> bool {
        self.published
    }

    /// True once the target process has been spawned.
    pub closed spec fn target_spawned(&self) -> bool {
        self.spawned
    }

    /// A fresh startup: nothing published, nothing spawned.
    pub fn new() -> (b: Bootstrap)
        ensures
            !b.handshake_published(),
            !b.target_spawned(),
    {
        Bootstrap { published: false, spawned: false }
    }

    /// Publishes the handshake bytes into the channel, at most once and only
    /// before the target exists. Publication succeeds exactly when the
    /// payload fits the channel's capacity.
    pub fn publish(&mut self, channel: &mut HandshakeChannel, bytes: &[u8]) -> (r: Result<
        (),
        LoaderError,
    >)
        requires
            !old(self).handshake_published(),
            !old(self).target_spawned(),
        ensures
            !final(self).target_spawned(),
            bytes@.len() <= old(channel).capacity() ==> {
                &&& r == Ok::<(), LoaderError>(())
                &&& final(self).handshake_published()
                &&& final(channel).capacity() == old(channel).capacity()
                &&& final(channel).contents() == bytes@ + old(channel).contents().skip(
                    bytes@.len() as int,
                )
            },
            bytes@.len() > old(channel).capacity() ==> {
                &&& r == Err::<(), LoaderError>(LoaderError::BufferTooLarge)
                &&& !final(self).handshake_published()
                &&& *final(channel) == *old(channel)
            },
    {
        let r = channel.write(bytes);
        if r.is_ok() {
            self.published = true;
        }
        r
    }

    /// Hands out the session for a target that was just spawned. The target
    /// may be spawned only once, and only after the handshake stands
    /// published for it to read.
    pub fn spawn(&mut self, pid: u32) -> (l: Loader)
        requires
            old(self).handshake_published(),
            !old(self).target_spawned(),
        ensures
            final(self).handshake_published(),
            final(self).target_spawned(),
            l.running(),
            l.spec_pid() == pid,
    {
        self.spawned = true;
        Loader::new(pid)
    }
}

/// A session is never both running and terminated: once the loop has
/// stopped, no step's precondition can be met again, so a later probe or
/// notification is not observable.
pub proof fn lemma_terminated_is_final(l: Loader)
    ensures
        l.terminated() <==> !l.running(),
{
}

impl Default for Loader {
    /// A session with no meaningful target yet; the loop is ready to serve.
    fn default() -> (l: Self)
        ensures
            l.running(),
    {
        Loader::new(0)
    }
}

proof fn lemma_wrapping_is_mod(a: u32, b: u32)
    ensures
        vstd::wrapping::u32_specs::wrapping_add(a, b) == wrap_add(a, b),
{
    if a + b > u32::MAX {
        assert((a + b) % 0x1_0000_0000 == a + b - 0x1_0000_0000) by (nonlinear_arith)
            requires
                0x1_0000_0000 <= a + b < 0x2_0000_0000,
        ;
    } else {
        assert((a + b) % 0x1_0000_0000 == a + b) by (nonlinear_arith)
            requires
                0 <= a + b < 0x1_0000_0000,
        ;
    }
}

} // verus!
