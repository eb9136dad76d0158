use vstd::prelude::*;

use crate::addr::SocketAddress;
use crate::platform::{FlagStrategy, IoError, Platform};

verus! {

/// The arguments of a socket creation call: `socket(domain, socket_type, protocol)`.
#[derive(Clone, Copy, Debug, PartialEq, Eq, Structural)]
pub struct SocketCall {
    pub domain: i32,
    pub socket_type: i32,
    pub protocol: i32,
}

/// The arguments of a descriptor control call: `fcntl(fd, cmd, arg)`.
#[derive(Clone, Copy, Debug, PartialEq, Eq, Structural)]
pub struct ControlCall {
    pub fd: i32,
    pub cmd: i32,
    pub arg: i32,
}

/// What socket creation does next, after an OS call has returned.
#[derive(Clone, Copy, Debug)]
pub enum Step {
    /// Make this control call, then hand it and its outcome to `after_configure`.
    Configure(ControlCall),
    /// Close `fd`, whose configuration failed, and end creation with `error`.
    Close { fd: i32, error: IoError },
    /// Creation is over, with this result.
    Done(Result<i32, IoError>),
}

/// The address family of sockets that talk to `addr`.
pub open spec fn family_of(p: Platform, addr: &SocketAddress) -> i32 {
    if addr.is_v4() {
        p.af_inet
    } else {
        p.af_inet6
    }
}

/// The type argument of the creation call for the base type `socket_type`.
pub open spec fn creation_type(p: Platform, socket_type: i32) -> i32 {
    match p.strategy {
        FlagStrategy::AtCreation { nonblock, cloexec } => socket_type | nonblock | cloexec,
        FlagStrategy::AfterCreation => socket_type,
    }
}

/// The control call that makes `fd` non-blocking.
pub open spec fn nonblock_call(p: Platform, fd: i32) -> ControlCall {
    ControlCall { fd, cmd: p.f_setfl, arg: p.o_nonblock }
}

/// The control call that makes `fd` close-on-exec.
pub open spec fn cloexec_call(p: Platform, fd: i32) -> ControlCall {
    ControlCall { fd, cmd: p.f_setfd, arg: p.fd_cloexec }
}

/// The step that follows the creation call's outcome `created`.
pub open spec fn step_after_create(p: Platform, created: Result<i32, IoError>) -> Step {
    match created {
        Err(e) => Step::Done(Err(e)),
        Ok(fd) => match p.strategy {
            FlagStrategy::AtCreation { .. } => Step::Done(Ok(fd)),
            FlagStrategy::AfterCreation => Step::Configure(nonblock_call(p, fd)),
        },
    }
}

/// The step that follows the outcome `configured` of the control call `call`:
/// close-on-exec after non-blocking, then the descriptor itself; on a failure,
/// closing the descriptor.
pub open spec fn step_after_configure(
    p: Platform,
    call: ControlCall,
    configured: Result<i32, IoError>,
) -> Step {
    match configured {
        Err(e) => Step::Close { fd: call.fd, error: e },
        Ok(_) => if call.cmd == p.f_setfl {
            Step::Configure(cloexec_call(p, call.fd))
        } else {
            Step::Done(Ok(call.fd))
        },
    }
}

/// The step where socket creation stops, given the outcome of the creation
/// call and of the first and second control calls, where they are made.
pub open spec fn final_step(
    p: Platform,
    created: Result<i32, IoError>,
    first: Result<i32, IoError>,
    second: Result<i32, IoError>,
) -> Step {
    match step_after_create(p, created) {
        Step::Configure(c) => match step_after_configure(p, c, first) {
            Step::Configure(d) => step_after_configure(p, d, second),
            s => s,
        },
        s => s,
    }
}

/// What the non-blocking test reports for the outcome `flags` of the flag query.
pub open spec fn non_blocking_result(p: Platform, flags: Result<i32, IoError>) -> Result<
    bool,
    IoError,
> {
    match flags {
        Ok(f) => Ok(f & p.o_nonblock == p.o_nonblock),
        Err(e) => Err(e),
    }
}

/// The address family for `addr`: IPv4's for an IPv4 address, IPv6's for an IPv6 one.
pub fn domain(p: &Platform, addr: &SocketAddress) -> (r: i32)
    ensures
        r == family_of(*p, addr),
{
    match addr {
        SocketAddress::V4(_) => p.af_inet,
        SocketAddress::V6(_) => p.af_inet6,
    }
}

/// The creation call of a socket for `addr`, of the base type `socket_type`.
/// Where the platform allows, the call itself asks for a non-blocking,
/// close-on-exec socket; its outcome goes to `after_create`.
pub fn new_socket(p: &Platform, addr: &SocketAddress, socket_type: i32) -> (r: SocketCall)
    requires
        p.is_base_type(socket_type),
    ensures
        r.domain == family_of(*p, addr),
        r.socket_type == creation_type(*p, socket_type),
        r.protocol == 0,
{
    let domain = domain(p, addr);
    let socket_type = match p.strategy {
        FlagStrategy::AtCreation { nonblock, cloexec } => socket_type | nonblock | cloexec,
        FlagStrategy::AfterCreation => socket_type,
    };
    SocketCall { domain, socket_type, protocol: 0 }
}

/// The step after the creation call returned `created`. A failure ends
/// creation with that error. A new descriptor is the result where the
/// platform set the modifiers at creation; otherwise the control call that
/// makes it non-blocking comes next.
pub fn after_create(p: &Platform, created: Result<i32, IoError>) -> (r: Step)
    ensures
        r == step_after_create(*p, created),
{
    match created {
        Err(e) => Step::Done(Err(e)),
        Ok(fd) => match p.strategy {
            FlagStrategy::AtCreation { .. } => Step::Done(Ok(fd)),
            FlagStrategy::AfterCreation => Step::Configure(
                ControlCall { fd, cmd: p.f_setfl, arg: p.o_nonblock },
            ),
        },
    }
}

/// The step after `call`, one of the two control calls that configure a new
/// descriptor, returned `configured`. After the non-blocking call comes the
/// close-on-exec call, and after that the descriptor is the result. When
/// either fails, the descriptor is closed, so that none leaks, and creation
/// ends with the call's error.
pub fn after_configure(p: &Platform, call: ControlCall, configured: Result<i32, IoError>) -> (r:
    Step)
    ensures
        r == step_after_configure(*p, call, configured),
{
    match configured {
        Err(e) => Step::Close { fd: call.fd, error: e },
        Ok(_) => if call.cmd == p.f_setfl {
            Step::Configure(ControlCall { fd: call.fd, cmd: p.f_setfd, arg: p.fd_cloexec })
        } else {
            Step::Done(Ok(call.fd))
        },
    }
}

/// The control call that reads the status flags of `fd`.
pub fn flags_query(p: &Platform, fd: i32) -> (r: ControlCall)
    ensures
        r == (ControlCall { fd, cmd: p.f_getfl, arg: p.o_nonblock }),
{
    ControlCall { fd, cmd: p.f_getfl, arg: p.o_nonblock }
}

/// Whether a descriptor is non-blocking, from the outcome `flags` of its
/// flag query: the query's error if it failed, else whether the flag word
/// holds the non-blocking flag.
pub fn is_non_blocking(p: &Platform, flags: Result<i32, IoError>) -> (r: Result<bool, IoError>)
    ensures
        r == non_blocking_result(*p, flags),
{
    match flags {
        Ok(f) => Ok(f & p.o_nonblock == p.o_nonblock),
        Err(e) => Err(e),
    }
}

/// Every descriptor that socket creation hands back was made non-blocking and
/// close-on-exec, whatever the platform's strategy: either the creation call
/// that returned it asked for both modifiers, or the control call that sets
/// the non-blocking status flag and then the one that sets the close-on-exec
/// descriptor flag were both made on it and both succeeded. Creation stops
/// after at most those two control calls. A failed creation call ends it with
/// that call's error; a failed control call closes the new descriptor and ends
/// it with that call's error.
pub proof fn lemma_created_socket_is_configured(
    p: Platform,
    socket_type: i32,
    created: Result<i32, IoError>,
    first: Result<i32, IoError>,
    second: Result<i32, IoError>,
)
    requires
        p.wf(),
        p.is_base_type(socket_type),
    ensures
        !(final_step(p, created, first, second) is Configure),
        final_step(p, created, first, second) matches Step::Done(Ok(fd)) ==> {
            &&& created == Ok::<i32, IoError>(fd)
            &&& match p.strategy {
                FlagStrategy::AtCreation { nonblock, cloexec } => {
                    &&& creation_type(p, socket_type) & nonblock == nonblock
                    &&& creation_type(p, socket_type) & cloexec == cloexec
                },
                FlagStrategy::AfterCreation => {
                    &&& step_after_create(p, created) == Step::Configure(nonblock_call(p, fd))
                    &&& nonblock_call(p, fd).cmd == p.f_setfl
                    &&& nonblock_call(p, fd).arg == p.o_nonblock
                    &&& first is Ok
                    &&& step_after_configure(p, nonblock_call(p, fd), first) == Step::Configure(
                        cloexec_call(p, fd),
                    )
                    &&& cloexec_call(p, fd).cmd == p.f_setfd
                    &&& cloexec_call(p, fd).arg == p.fd_cloexec
                    &&& second is Ok
                },
            }
        },
        final_step(p, created, first, second) matches Step::Done(Err(e)) ==> created == Err::<
            i32,
            IoError,
        >(e),
        final_step(p, created, first, second) matches Step::Close { fd, error } ==> {
            &&& p.strategy is AfterCreation
            &&& created == Ok::<i32, IoError>(fd)
            &&& (first == Err::<i32, IoError>(error) || (first is Ok && second == Err::<
                i32,
                IoError,
            >(error)))
        },
{
    match p.strategy {
        FlagStrategy::AtCreation { nonblock, cloexec } => {
            assert((socket_type | nonblock | cloexec) & nonblock == nonblock
                && (socket_type | nonblock | cloexec) & cloexec == cloexec) by (bit_vector);
        },
        FlagStrategy::AfterCreation => {},
    }
}

/// A descriptor whose flag word still holds the flag that the non-blocking
/// control call set reads as non-blocking.
pub proof fn lemma_configured_flags_read_non_blocking(p: Platform, fd: i32, flags: i32)
    requires
        flags & nonblock_call(p, fd).arg == nonblock_call(p, fd).arg,
    ensures
        non_blocking_result(p, Ok(flags)) == Ok::<bool, IoError>(true),
{
}

} // verus!
