//! File descriptors that plugins register with the host's event reactor.

use crate::flags::{FlagKind, Flags};
use vstd::prelude::*;

verus! {

/// The family of file descriptor event flags.
#[derive(Debug)]
pub struct FdFlagsKind;

impl FlagKind for FdFlagsKind {
    open spec fn spec_all_bits() -> u32 {
        7u32
    }

    fn all_bits() -> (bits: u32) {
        7u32
    }
}

/// Events of a file descriptor.
pub type FdFlags = Flags<FdFlagsKind>;

/// A read event.
pub const CLAP_POSIX_FD_READ: u32 = 1u32;
/// A write event.
pub const CLAP_POSIX_FD_WRITE: u32 = 2u32;
/// An error event.
pub const CLAP_POSIX_FD_ERROR: u32 = 4u32;

/// Every file descriptor event flag is a known bit.
proof fn lemma_fd_bits()
    by (bit_vector)
    ensures
        CLAP_POSIX_FD_READ & !7u32 == 0,
        CLAP_POSIX_FD_WRITE & !7u32 == 0,
        CLAP_POSIX_FD_ERROR & !7u32 == 0,
{
}

impl Flags<FdFlagsKind> {
    /// A read event.
    pub fn read() -> (f: Self)
        ensures
            f.spec_bits() == CLAP_POSIX_FD_READ,
            f.wf(),
    {
        proof {
            lemma_fd_bits();
        }
        Self::from_known_bits(CLAP_POSIX_FD_READ)
    }

    /// A write event.
    pub fn write() -> (f: Self)
        ensures
            f.spec_bits() == CLAP_POSIX_FD_WRITE,
            f.wf(),
    {
        proof {
            lemma_fd_bits();
        }
        Self::from_known_bits(CLAP_POSIX_FD_WRITE)
    }

    /// An error event.
    pub fn error() -> (f: Self)
        ensures
            f.spec_bits() == CLAP_POSIX_FD_ERROR,
            f.wf(),
    {
        proof {
            lemma_fd_bits();
        }
        Self::from_known_bits(CLAP_POSIX_FD_ERROR)
    }
}

/// Errors that can occur with file descriptors.
#[derive(Copy, Clone, Eq, PartialEq, Debug)]
pub enum FdError {
    /// Registering the given file descriptor for the given events failed.
    Register((i32, FdFlags)),
    /// Changing the events of the given file descriptor failed.
    Modify((i32, FdFlags)),
    /// Unregistering the given file descriptor failed.
    Unregister(i32),
}

/// The outcome of asking a host to register a file descriptor: an error, which names the
/// descriptor and its events, if the host offers no way to register (`None`) or reported failure.
pub fn register_outcome(fd: i32, flags: FdFlags, host_answer: Option<bool>) -> (r: Result<
    (),
    FdError,
>)
    ensures
        r == if host_answer == Some(true) {
            Ok::<(), FdError>(())
        } else {
            Err(FdError::Register((fd, flags)))
        },
{
    match host_answer {
        Some(true) => Ok(()),
        _ => Err(FdError::Register((fd, flags))),
    }
}

/// The outcome of asking a host to change the events of a file descriptor.
pub fn modify_outcome(fd: i32, flags: FdFlags, host_answer: Option<bool>) -> (r: Result<
    (),
    FdError,
>)
    ensures
        r == if host_answer == Some(true) {
            Ok::<(), FdError>(())
        } else {
            Err(FdError::Modify((fd, flags)))
        },
{
    match host_answer {
        Some(true) => Ok(()),
        _ => Err(FdError::Modify((fd, flags))),
    }
}

/// The outcome of asking a host to unregister a file descriptor.
pub fn unregister_outcome(fd: i32, host_answer: Option<bool>) -> (r: Result<(), FdError>)
    ensures
        r == if host_answer == Some(true) {
            Ok::<(), FdError>(())
        } else {
            Err(FdError::Unregister(fd))
        },
{
    match host_answer {
        Some(true) => Ok(()),
        _ => Err(FdError::Unregister(fd)),
    }
}

/// The plugin side of the POSIX file descriptor extension.
pub trait PluginPosixFdImpl {
    /// An event of the given kinds fired on a registered file descriptor.
    fn on_fd(&mut self, fd: i32, flags: FdFlags);
}

} // verus!
