//! The calls the library asks of the platform, and the platform's answers.

use libc::c_int;
use vstd::prelude::*;

verus! {

/// One call of the platform's socket interface, for the caller to make.
#[derive(Clone, Copy, Debug, PartialEq, Eq, Structural)]
pub enum Call {
    /// `socket(domain, ty, protocol)`: asks for a new descriptor.
    Socket { domain: c_int, ty: c_int, protocol: c_int },
    /// `fcntl(fd, cmd)`: sets a flag on a descriptor.
    Fcntl { fd: c_int, cmd: c_int },
    /// `close(fd)`: releases a descriptor.
    Close { fd: c_int },
}

/// What the platform answered to a call: the value the call returned and
/// the error number as it stood right after the call.
#[derive(Clone, Copy, Debug, PartialEq, Eq, Structural)]
pub struct Reply {
    pub ret: c_int,
    pub errno: c_int,
}

/// A failed platform call, by its error number.
#[derive(Clone, Copy, Debug, PartialEq, Eq, Structural)]
pub struct OsError {
    pub errno: c_int,
}

/// Reads a platform answer: `-1` is a failure and carries the error
/// number, every other value is the call's result.
pub open spec fn cvt_spec(reply: Reply) -> Result<c_int, OsError> {
    if reply.ret == -1 {
        Err(OsError { errno: reply.errno })
    } else {
        Ok(reply.ret)
    }
}

/// Turns a platform answer into a `Result`.
pub fn cvt(reply: Reply) -> (r: Result<c_int, OsError>)
    ensures
        r == cvt_spec(reply),
{
    if reply.ret == -1 {
        Err(OsError { errno: reply.errno })
    } else {
        Ok(reply.ret)
    }
}

} // verus!
