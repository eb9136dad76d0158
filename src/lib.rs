//! Creation of non-blocking, close-on-exec sockets, the raw form of socket
//! addresses for address-taking OS calls, and the non-blocking test on a
//! descriptor's flag word.
//!
//! The OS calls themselves are made by the caller: the library says which
//! call to make and decides what its outcome means.
pub mod addr;
pub mod platform;
pub mod socket;

pub use addr::{socket_addr, RawAddressView, SocketAddress};
pub use platform::{FlagStrategy, IoError, Platform};
pub use socket::{
    after_configure, after_create, domain, flags_query, is_non_blocking, new_socket, ControlCall,
    SocketCall, Step,
};
