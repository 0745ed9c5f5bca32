use wasi_socket::c::{in_addr, in_addr_to_u32, sockaddr_in, sockaddr_in_u32};
use wasi_socket::ntoh;

/// The integer that holds the four bytes in memory in this order.
fn network(bytes: [u8; 4]) -> u32 {
    u32::from_ne_bytes(bytes)
}

#[test]
fn ntoh_reads_the_first_byte_as_the_highest() {
    assert_eq!(ntoh(network([127, 0, 0, 1])), 0x7f00_0001);
    assert_eq!(ntoh(network([0x12, 0x34, 0x56, 0x78])), 0x1234_5678);
    assert_eq!(ntoh(network([0, 0, 0, 0])), 0);
    assert_eq!(ntoh(network([255, 255, 255, 255])), u32::MAX);
}

#[test]
fn ntoh_twice_is_the_identity() {
    for x in [0u32, 1, 0x7f00_0001, 0x1234_5678, 0xff00_0000, u32::MAX] {
        assert_eq!(ntoh(ntoh(x)), x);
    }
}

#[test]
fn in_addr_to_u32_is_host_order() {
    let addr = in_addr { s_addr: network([192, 168, 1, 20]) };
    assert_eq!(in_addr_to_u32(&addr), 0xc0a8_0114);
    let addr = in_addr { s_addr: network([10, 0, 0, 0]) };
    assert_eq!(in_addr_to_u32(&addr), 0x0a00_0000);
}

#[test]
fn sockaddr_in_u32_is_host_order_of_the_address() {
    let sa = sockaddr_in {
        sin_family: 2,
        sin_port: 8080u16.to_be(),
        sin_addr: in_addr { s_addr: network([127, 0, 0, 1]) },
        sin_zero: [0; 8],
    };
    assert_eq!(sockaddr_in_u32(&sa), 0x7f00_0001);
    assert_eq!(sockaddr_in_u32(&sa), in_addr_to_u32(&sa.sin_addr));
}
