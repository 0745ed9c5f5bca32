//! The platform's socket ABI: constants, address layouts, and how an IPv4
//! address is read out of them.

#![allow(non_camel_case_types)]

use crate::byteorder::{host_order, ntoh};
use libc::{c_char, c_int};
use vstd::prelude::*;

verus! {

pub type in_port_t = u16;

pub type sa_family_t = u16;

pub type socklen_t = u32;

/// The platform has one socket type value for datagrams, and it is zero.
pub const SOCK_DGRAM: c_int = 0x00;

/// Close-on-exec. The platform never replaces a process image, so the
/// flag has no bit: setting it changes nothing.
pub const FD_CLOEXEC: c_int = 0x0;

pub const SO_REUSEPORT: c_int = 0x0;

/// An IPv4 address, in network byte order.
pub struct in_addr {
    pub s_addr: u32,
}

/// An IPv6 address.
pub struct in6_addr {
    pub s6_addr: [u8; 16],
}

pub struct sockaddr_storage {
    pub ss_family: sa_family_t,
}

pub struct sockaddr {
    pub sa_family: sa_family_t,
    pub sa_data: [c_char; 14],
}

pub struct sockaddr_in6 {
    pub sin6_family: sa_family_t,
    pub sin6_port: in_port_t,
    pub sin6_flowinfo: u32,
    pub sin6_addr: in6_addr,
    pub sin6_scope_id: u32,
}

pub struct sockaddr_in {
    pub sin_family: sa_family_t,
    pub sin_port: in_port_t,
    pub sin_addr: in_addr,
    pub sin_zero: [u8; 8],
}

/// The IPv4 address of a socket address, in host byte order.
pub fn sockaddr_in_u32(sa: &sockaddr_in) -> (r: u32)
    ensures
        r == host_order(sa.sin_addr.s_addr),
{
    ntoh(sa.sin_addr.s_addr)
}

/// An IPv4 address in host byte order.
pub fn in_addr_to_u32(addr: &in_addr) -> (r: u32)
    ensures
        r == host_order(addr.s_addr),
{
    ntoh(addr.s_addr)
}

} // verus!
