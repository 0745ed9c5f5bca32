//! Ownership of raw socket descriptors on a sandboxed platform.
//!
//! The library never talks to the platform itself. It says which calls are
//! to be made ([`platform::Call`]), reads what the platform answered
//! ([`platform::Reply`]) and keeps track of who owns a descriptor
//! ([`socket::Socket`]).

pub mod byteorder;
pub mod c;
pub mod platform;
pub mod socket;

pub use byteorder::ntoh;
pub use platform::{cvt, Call, OsError, Reply};
pub use socket::{Socket, TcpListener, TcpStream, UdpSocket};
