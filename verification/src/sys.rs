//! The calls that leave the library: the kernel's epoll interface through
//! `nix`, and the clock. Nothing here is proved; each contract says what the
//! rest of the library takes on trust.

use vstd::prelude::*;
use nix::errno::Errno;
use nix::sys::epoll::{epoll_create1, epoll_ctl, epoll_wait};
use nix::sys::epoll::{EpollCreateFlags, EpollEvent, EpollFlags, EpollOp};
use std::time::{Duration, Instant};
use crate::error::{Cause, Operation};
use crate::event::NativeEvent;

verus! {

/// `nix::errno::Errno`, carried from a failed call to `errno_cause`.
#[verifier::external_type_specification]
#[verifier::external_body]
pub struct ExErrno(Errno);

/// `std::time::Instant`, carried from `clock_now` to `clock_elapsed`.
#[verifier::external_type_specification]
#[verifier::external_body]
pub struct ExInstant(Instant);

/// Calls `nix::sys::epoll::epoll_create1` with the close-on-exec flag.
/// Nothing is claimed of the outcome: the kernel decides it.
#[verifier::external_body]
pub(crate) fn sys_create() -> (r: Result<i32, Errno>) {
    epoll_create1(EpollCreateFlags::EPOLL_CLOEXEC)
}

/// Calls `nix::sys::epoll::epoll_ctl` on the instance `epfd` for the
/// descriptor `fd`: an add or a modify with `record` as the event (its mask
/// cut down to the bits that `EpollFlags` knows), a delete with no event.
/// `Operation::Create` and `Operation::Wait` are no changes of the watched
/// set and are left out. Nothing is claimed of the outcome: the kernel
/// decides it.
#[verifier::external_body]
pub(crate) fn sys_ctl(epfd: i32, op: Operation, fd: i32, record: NativeEvent) -> (r: Result<
    (),
    Errno,
>)
    requires
        op == Operation::Add || op == Operation::Modify || op == Operation::Delete,
{
    let mut event = EpollEvent::new(EpollFlags::from_bits_truncate(record.flags as i32), record.data);
    match op {
        Operation::Add => epoll_ctl(epfd, EpollOp::EpollCtlAdd, fd, &mut event),
        Operation::Modify => epoll_ctl(epfd, EpollOp::EpollCtlMod, fd, &mut event),
        _ => epoll_ctl(epfd, EpollOp::EpollCtlDel, fd, None),
    }
}

/// Calls `nix::sys::epoll::epoll_wait` on the instance `epfd` with a fresh
/// buffer of `capacity` zeroed events, and hands out the whole buffer, each
/// event as its mask and user data, with the number of events that the
/// kernel filled in at its front.
///
/// Claimed: the buffer keeps its length, and the number is no more than
/// that length, which is the bound that the kernel documents for the call.
/// `nix` reads a mask with `EpollEvent::events`, which panics on a bit that
/// `EpollFlags` does not know; the kernel reports only bits that were asked
/// for, the error bit and the hang-up bit, and `sys_ctl` asks for known
/// bits only.
#[verifier::external_body]
pub(crate) fn sys_wait(epfd: i32, capacity: usize, timeout_ms: i32) -> (r: Result<
    (Vec<NativeEvent>, usize),
    Errno,
>)
    requires
        capacity <= i32::MAX,
    ensures
        r matches Ok((buffer, count)) ==> buffer@.len() == capacity && count <= capacity,
{
    let mut buffer = vec![EpollEvent::empty(); capacity];
    let count = epoll_wait(epfd, &mut buffer, timeout_ms as isize)?;
    let raw = buffer.iter().map(|e| NativeEvent { flags: e.events().bits() as u32, data: e.data() });
    Ok((raw.collect(), count))
}

/// Calls `nix::unistd::close` on `fd` and drops the outcome. The call
/// returns an `Errno` on failure and does not panic.
#[verifier::external_body]
pub(crate) fn sys_close(fd: i32)
    opens_invariants none
    no_unwind
{
    let _ = nix::unistd::close(fd);
}

/// Tells the variants of `nix::errno::Errno` apart that the library has a
/// cause for; every other variant is `Cause::Other`. Nothing is claimed of
/// the result.
#[verifier::external_body]
pub(crate) fn errno_cause(errno: Errno) -> (cause: Cause) {
    match errno {
        Errno::EEXIST => Cause::Exists,
        Errno::ENOENT => Cause::NoEntry,
        Errno::EBADF => Cause::BadDescriptor,
        Errno::EPERM => Cause::NotPermitted,
        Errno::EINVAL => Cause::InvalidArgument,
        Errno::ELOOP => Cause::Loop,
        Errno::EINTR => Cause::Interrupted,
        Errno::ENOSYS => Cause::NotImplemented,
        _ => Cause::Other,
    }
}

/// Calls `std::time::Instant::now`. Nothing is claimed of the result.
#[verifier::external_body]
pub(crate) fn clock_now() -> (now: Instant) {
    Instant::now()
}

/// Calls `std::time::Instant::elapsed`: the time since `start`. Nothing is
/// claimed of the result.
#[verifier::external_body]
pub(crate) fn clock_elapsed(start: &Instant) -> (elapsed: Duration) {
    start.elapsed()
}

/// Calls `std::time::Duration::as_nanos`: the whole nanoseconds in
/// `duration`. Nothing is claimed of the result.
#[verifier::external_body]
pub(crate) fn duration_nanos(duration: &Duration) -> (nanos: u128) {
    duration.as_nanos()
}

} // verus!
