//! The handle that owns one socket descriptor.
//!
//! A handle is in one of two states. While it exists it owns its
//! descriptor and answers for the release. It leaves that state exactly
//! once, by a method that takes it by value: a conversion hands the
//! descriptor to a listener, a stream or a datagram socket without
//! releasing it, and [`Socket::release`] gives the one `close` that is owed.
//! A handle cannot be copied, so a descriptor never has two owners.

use crate::c::FD_CLOEXEC;
use crate::platform::{cvt, Call, OsError, Reply};
use libc::c_int;
use vstd::prelude::*;

verus! {

/// The exclusive owner of one raw socket descriptor.
#[derive(Debug)]
pub struct Socket {
    fd: c_int,
}

/// A listening, connection-oriented socket that owns its descriptor.
#[derive(Debug)]
pub struct TcpListener {
    fd: c_int,
}

/// A connected byte stream that owns its descriptor.
#[derive(Debug)]
pub struct TcpStream {
    fd: c_int,
}

/// A connectionless, message-oriented socket that owns its descriptor.
#[derive(Debug)]
pub struct UdpSocket {
    fd: c_int,
}

impl View for Socket {
    type V = int;

    /// The descriptor that the handle owns.
    closed spec fn view(&self) -> int {
        self.fd as int
    }
}

impl View for TcpListener {
    type V = int;

    /// The descriptor that the listener owns.
    closed spec fn view(&self) -> int {
        self.fd as int
    }
}

impl View for TcpStream {
    type V = int;

    /// The descriptor that the stream owns.
    closed spec fn view(&self) -> int {
        self.fd as int
    }
}

impl View for UdpSocket {
    type V = int;

    /// The descriptor that the datagram socket owns.
    closed spec fn view(&self) -> int {
        self.fd as int
    }
}

impl Socket {
    /// The call that asks the platform for a new descriptor of the given
    /// address family and socket type.
    pub fn request(family: c_int, ty: c_int) -> (call: Call)
        ensures
            call == (Call::Socket { domain: family, ty: ty, protocol: 0 }),
    {
        Call::Socket { domain: family, ty: ty, protocol: 0 }
    }

    /// Creates the handle from the platform's answer to [`Socket::request`].
    ///
    /// A failed call is the error, with the platform's error number, and
    /// no handle. Any other answer is a handle on the descriptor that the
    /// platform returned, together with the call that sets the
    /// close-on-exec flag on it. The answer to that second call does not
    /// matter: the flag is set as far as the platform can.
    pub fn new(reply: Reply) -> (r: Result<(Socket, Call), OsError>)
        ensures
            reply.ret == -1 ==> r == Err::<(Socket, Call), OsError>(
                OsError { errno: reply.errno },
            ),
            reply.ret != -1 ==> ({
                &&& r matches Ok((socket, then))
                &&& socket@ == reply.ret
                &&& then == (Call::Fcntl { fd: reply.ret, cmd: FD_CLOEXEC })
            }),
    {
        match cvt(reply) {
            Ok(fd) => Ok((Socket { fd: fd }, Call::Fcntl { fd: fd, cmd: FD_CLOEXEC })),
            Err(e) => Err(e),
        }
    }

    /// The handle on a descriptor that the caller already owns.
    pub fn from_inner(fd: c_int) -> (socket: Socket)
        ensures
            socket@ == fd,
    {
        Socket { fd: fd }
    }

    /// The descriptor, which stays with the handle.
    pub fn raw(&self) -> (fd: c_int)
        ensures
            fd == self@,
    {
        self.fd
    }

    /// Gives the descriptor up without releasing it.
    fn into_fd(self) -> (fd: c_int)
        ensures
            fd == self@,
    {
        self.fd
    }

    /// Hands the descriptor to a listener. Nothing is released.
    pub fn into_tcp_listener(self) -> (listener: TcpListener)
        ensures
            listener@ == self@,
    {
        TcpListener { fd: self.into_fd() }
    }

    /// Hands the descriptor to a stream. Nothing is released.
    pub fn into_tcp_stream(self) -> (stream: TcpStream)
        ensures
            stream@ == self@,
    {
        TcpStream { fd: self.into_fd() }
    }

    /// Hands the descriptor to a datagram socket. Nothing is released.
    pub fn into_udp_socket(self) -> (socket: UdpSocket)
        ensures
            socket@ == self@,
    {
        UdpSocket { fd: self.into_fd() }
    }

    /// Ends a handle that was never converted: the one call that releases
    /// its descriptor.
    pub fn release(self) -> (call: Call)
        ensures
            call matches Call::Close { fd } && fd == self@,
    {
        Call::Close { fd: self.into_fd() }
    }
}

impl TcpListener {
    /// The descriptor that the listener owns.
    pub fn as_raw_fd(&self) -> (fd: c_int)
        ensures
            fd == self@,
    {
        self.fd
    }
}

impl TcpStream {
    /// The descriptor that the stream owns.
    pub fn as_raw_fd(&self) -> (fd: c_int)
        ensures
            fd == self@,
    {
        self.fd
    }
}

impl UdpSocket {
    /// The descriptor that the datagram socket owns.
    pub fn as_raw_fd(&self) -> (fd: c_int)
        ensures
            fd == self@,
    {
        self.fd
    }
}

} // verus!
