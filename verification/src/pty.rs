//! Decisions of the terminal helper that runs inside the sandbox.
//!
//! The helper forks a child on a new pseudo-terminal, then waits on the
//! signal, input and terminal descriptors: a signal ends it, input is
//! decoded and passed to the terminal, terminal output is passed on.

use vstd::prelude::*;

verus! {

/// Size hint given when the event queue is created.
pub const EPOLL_SIZE_HINT: i32 = 10;

/// Number of readiness events taken from the queue at once.
pub const EVENT_BATCH_LEN: usize = 20;

/// Largest number of bytes passed on from the terminal at once.
pub const TRANSFER_LEN: usize = 1024000;

/// Which side of a fork a process is on.
#[derive(Debug, Clone, Copy, PartialEq, Eq, Structural)]
pub enum ForkRole {
    /// The fork failed.
    Failed,
    /// This is the child.
    Child,
    /// This is the parent of the child with this process id.
    Parent { child: i32 },
}

/// Tells from the value that a fork returned which side this process is on:
/// `-1` is a failure, `0` the child, anything else the parent.
pub fn fork_role(ret: i32) -> (role: ForkRole)
    ensures
        ret == -1 ==> role == ForkRole::Failed,
        ret == 0 ==> role == ForkRole::Child,
        ret != -1 && ret != 0 ==> role == (ForkRole::Parent { child: ret }),
{
    if ret == -1 {
        ForkRole::Failed
    } else if ret == 0 {
        ForkRole::Child
    } else {
        ForkRole::Parent { child: ret }
    }
}

/// The descriptors that the helper waits on.
#[derive(Debug, Clone, Copy, PartialEq, Eq, Structural)]
pub struct PtyFds {
    /// Delivers the signals that end the helper.
    pub signal: i32,
    /// The helper's standard input, which carries framed messages.
    pub input: i32,
    /// The pseudo-terminal's controlling side.
    pub pty: i32,
}

/// What to do about a ready descriptor.
#[derive(Debug, Clone, Copy, PartialEq, Eq, Structural)]
pub enum Readiness {
    /// A signal arrived: stop.
    Stop,
    /// Read one message from the input and pass it to the terminal.
    ForwardInput,
    /// Pass the terminal's output on to the standard output.
    ForwardOutput,
    /// The descriptor is none of those waited on.
    Unknown,
}

/// The action for descriptor `fd`; the signal descriptor is tested first,
/// then the input, then the terminal.
pub open spec fn readiness_of(fds: PtyFds, fd: i32) -> Readiness {
    if fd == fds.signal {
        Readiness::Stop
    } else if fd == fds.input {
        Readiness::ForwardInput
    } else if fd == fds.pty {
        Readiness::ForwardOutput
    } else {
        Readiness::Unknown
    }
}

/// The token under which descriptor `fd` is registered with the event queue.
pub fn event_token(fd: i32) -> (token: u64)
    ensures
        token == fd as u64,
{
    fd as u64
}

/// The descriptor that a readiness event's token names.
pub fn token_fd(token: u64) -> (fd: i32)
    ensures
        fd == token as i32,
{
    token as i32
}

/// Decides what to do about the readiness event that carries `token`.
pub fn classify_ready(fds: &PtyFds, token: u64) -> (r: Readiness)
    ensures
        r == readiness_of(*fds, token as i32),
{
    let fd = token_fd(token);
    if fd == fds.signal {
        Readiness::Stop
    } else if fd == fds.input {
        Readiness::ForwardInput
    } else if fd == fds.pty {
        Readiness::ForwardOutput
    } else {
        Readiness::Unknown
    }
}

/// A descriptor registered under its token is recognised as itself when its
/// readiness is reported: the token gives the descriptor back, and the
/// action is the one for that descriptor.
pub proof fn lemma_token_names_descriptor(fds: PtyFds, fd: i32)
    ensures
        (fd as u64) as i32 == fd,
        readiness_of(fds, (fd as u64) as i32) == readiness_of(fds, fd),
{
    assert((fd as u64) as i32 == fd) by (bit_vector);
}

/// A terminal size as the terminal driver takes it.
#[derive(Debug, Clone, Copy, PartialEq, Eq, Structural)]
pub struct WindowSize {
    pub rows: u16,
    pub cols: u16,
    pub x_pixels: u16,
    pub y_pixels: u16,
}

/// The terminal size for a resize to `width` columns and `height` rows,
/// with no pixel size.
pub fn window_size(width: u16, height: u16) -> (ws: WindowSize)
    ensures
        ws == (WindowSize { rows: height, cols: width, x_pixels: 0, y_pixels: 0 }),
{
    WindowSize { rows: height, cols: width, x_pixels: 0, y_pixels: 0 }
}

} // verus!
