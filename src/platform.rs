use vstd::prelude::*;

verus! {

/// A failed OS call, carrying the OS error code.
#[derive(Clone, Copy, Debug, PartialEq, Eq, Structural)]
pub struct IoError {
    pub code: i32,
}

/// How a platform makes a new socket non-blocking and close-on-exec.
#[derive(Clone, Copy, Debug, PartialEq, Eq, Structural)]
pub enum FlagStrategy {
    /// The creation call accepts modifier bits in its type argument.
    AtCreation { nonblock: i32, cloexec: i32 },
    /// The modifiers are set by control calls on the new descriptor: the
    /// non-blocking status flag, then the close-on-exec descriptor flag.
    AfterCreation,
}

/// The constants of the host OS that the library's decisions depend on.
#[derive(Clone, Copy, Debug, PartialEq, Eq, Structural)]
pub struct Platform {
    /// Address family of IPv4 sockets.
    pub af_inet: i32,
    /// Address family of IPv6 sockets.
    pub af_inet6: i32,
    pub strategy: FlagStrategy,
    /// Control command that reads a descriptor's status flags.
    pub f_getfl: i32,
    /// Control command that replaces a descriptor's status flags.
    pub f_setfl: i32,
    /// Control command that replaces a descriptor's descriptor flags.
    pub f_setfd: i32,
    /// Status flag of a non-blocking descriptor.
    pub o_nonblock: i32,
    /// Descriptor flag of a close-on-exec descriptor.
    pub fd_cloexec: i32,
}

impl Platform {
    /// The two families differ, the control commands differ from one
    /// another, and every flag has at least one bit.
    pub open spec fn wf(&self) -> bool {
        &&& self.af_inet != self.af_inet6
        &&& self.f_getfl != self.f_setfl
        &&& self.f_getfl != self.f_setfd
        &&& self.f_setfl != self.f_setfd
        &&& self.o_nonblock != 0
        &&& self.fd_cloexec != 0
        &&& match self.strategy {
            FlagStrategy::AtCreation { nonblock, cloexec } => nonblock != 0 && cloexec != 0,
            FlagStrategy::AfterCreation => true,
        }
    }

    /// The bits that a base socket type must leave clear: the creation-time
    /// modifiers where the platform has them, none otherwise.
    pub open spec fn reserved_bits(&self) -> i32 {
        match self.strategy {
            FlagStrategy::AtCreation { nonblock, cloexec } => nonblock | cloexec,
            FlagStrategy::AfterCreation => 0,
        }
    }

    /// `socket_type` is a base type: it holds none of the reserved bits.
    pub open spec fn is_base_type(&self, socket_type: i32) -> bool {
        socket_type & self.reserved_bits() == 0
    }
}

} // verus!
