use vstd::prelude::*;

verus! {

/// The OS's IPv4 socket address structure.
#[verifier::external_type_specification]
#[verifier::external_body]
pub struct ExSockaddrIn(libc::sockaddr_in);

/// The OS's IPv6 socket address structure.
#[verifier::external_type_specification]
#[verifier::external_body]
pub struct ExSockaddrIn6(libc::sockaddr_in6);

/// A socket address, held in the OS's own binary layout.
pub enum SocketAddress {
    V4(libc::sockaddr_in),
    V6(libc::sockaddr_in6),
}

impl SocketAddress {
    pub open spec fn is_v4(&self) -> bool {
        self is V4
    }

    /// Size in bytes of the OS structure that holds this address.
    pub open spec fn os_len(&self) -> nat {
        match self {
            SocketAddress::V4(_) => vstd::layout::size_of::<libc::sockaddr_in>(),
            SocketAddress::V6(_) => vstd::layout::size_of::<libc::sockaddr_in6>(),
        }
    }
}

/// The address bytes and their length, as address-taking OS calls want them.
/// It borrows the address and lives no longer than it.
pub struct RawAddressView<'a> {
    /// The address whose OS structure the view points at.
    pub addr: &'a SocketAddress,
    /// Length in bytes of that structure.
    pub len: usize,
}

/// The raw view of `addr`: the address itself, with the size of the OS
/// structure of its family (not that of the enum around it).
pub fn socket_addr(addr: &SocketAddress) -> (r: RawAddressView)
    ensures
        r.addr == addr,
        r.len as nat == addr.os_len(),
{
    let len = match addr {
        SocketAddress::V4(_) => core::mem::size_of::<libc::sockaddr_in>(),
        SocketAddress::V6(_) => core::mem::size_of::<libc::sockaddr_in6>(),
    };
    RawAddressView { addr, len }
}

} // verus!
