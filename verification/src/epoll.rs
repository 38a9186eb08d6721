//! The multiplexer instance: one kernel handle, and the operations on it.

use vstd::prelude::*;
use std::time::Duration;
use crate::error::{error_for, reportable, Cause, Error, Operation};
use crate::event::{decode_batch, decoded_batch, filled, request, Event, NativeEvent};
use crate::flags::{Interest, Mode};
use crate::sys::{clock_elapsed, clock_now, duration_nanos, errno_cause, sys_close, sys_create, sys_ctl, sys_wait};
use crate::token::Token;

verus! {

/// The most notifications that one `poll` hands out. Readiness beyond it
/// waits for the next call.
pub const MAX_EVENTS: usize = 32;

/// The native timeout that means "wait without limit".
pub const WAIT_FOREVER: i32 = -1;

/// Nanoseconds in a millisecond, the unit of the native timeout.
pub const NANOS_PER_MILLI: u128 = 1_000_000;

/// The fewest whole milliseconds that cover `nanos` nanoseconds.
pub open spec fn millis_covering(nanos: u128) -> u128 {
    if nanos % NANOS_PER_MILLI == 0 {
        nanos / NANOS_PER_MILLI
    } else {
        (nanos / NANOS_PER_MILLI + 1) as u128
    }
}

/// The whole milliseconds that have passed after `nanos` nanoseconds.
pub open spec fn millis_passed(nanos: u128) -> u128 {
    nanos / NANOS_PER_MILLI
}

/// The budget in milliseconds for a timeout of `nanos` nanoseconds, rounded
/// up, so that a wait for it does not end before the timeout.
pub fn budget_millis(nanos: u128) -> (ms: u128)
    ensures
        ms == millis_covering(nanos),
        ms * NANOS_PER_MILLI >= nanos,
        ms > 0 ==> (ms - 1) * NANOS_PER_MILLI < nanos,
{
    let whole: u128 = nanos / NANOS_PER_MILLI;
    if nanos % NANOS_PER_MILLI == 0 {
        whole
    } else {
        whole + 1
    }
}

/// The milliseconds that have passed after `nanos` nanoseconds, rounded
/// down, so that time is never counted before it has passed.
pub fn elapsed_millis(nanos: u128) -> (ms: u128)
    ensures
        ms == millis_passed(nanos),
        ms * NANOS_PER_MILLI <= nanos,
        nanos < (ms + 1) * NANOS_PER_MILLI,
{
    nanos / NANOS_PER_MILLI
}

/// While less than the timeout has passed, the budget is not spent: a
/// blocking wait is never given up early.
pub proof fn lemma_budget_outlasts_timeout(timeout_nanos: u128, elapsed_nanos: u128)
    requires
        elapsed_nanos < timeout_nanos,
    ensures
        millis_passed(elapsed_nanos) < millis_covering(timeout_nanos),
        native_timeout(Some(millis_covering(timeout_nanos)), millis_passed(elapsed_nanos)) > 0,
{
}

/// A timeout of zero has a budget of zero, and its wait does not block,
/// however much time has passed.
pub proof fn lemma_zero_timeout_never_blocks(elapsed: u128)
    ensures
        millis_covering(0) == 0,
        native_timeout(Some(millis_covering(0)), elapsed) == 0,
{
}

/// The native timeout, in milliseconds, for a wait that may last `budget`
/// milliseconds in all (`None`: without limit) of which `elapsed` have
/// passed: what is left of the budget, at most `i32::MAX`, and zero once
/// the budget is spent.
pub open spec fn native_timeout(budget: Option<u128>, elapsed: u128) -> i32 {
    match budget {
        None => WAIT_FOREVER,
        Some(total) => if elapsed >= total {
            0i32
        } else if total - elapsed > i32::MAX {
            i32::MAX
        } else {
            (total - elapsed) as i32
        },
    }
}

/// What `poll` does after one wait.
#[derive(Debug, PartialEq, Eq)]
pub enum Step {
    /// Hand these notifications to the caller.
    Deliver(Vec<Event>),
    /// Report this error to the caller.
    Fail(Error),
    /// Wait again, with what is left of the budget.
    Again,
}

/// Computes the native timeout for the next wait.
pub fn next_timeout(budget: Option<u128>, elapsed: u128) -> (ms: i32)
    ensures
        ms == native_timeout(budget, elapsed),
        ms >= WAIT_FOREVER,
        budget is None <==> ms == WAIT_FOREVER,
        ms == 0 <==> budget is Some && elapsed >= budget->Some_0,
{
    match budget {
        None => WAIT_FOREVER,
        Some(total) => {
            if elapsed >= total {
                0
            } else {
                let left: u128 = total - elapsed;
                if left > 0x7fff_ffffu128 {
                    i32::MAX
                } else {
                    left as i32
                }
            }
        },
    }
}

/// A wait never outlasts the budget: the native timeout is zero exactly
/// when the budget is spent, and otherwise ends no later than the budget.
pub proof fn lemma_timeout_within_budget(total: u128, elapsed: u128)
    ensures
        native_timeout(Some(total), elapsed) >= 0,
        native_timeout(Some(total), elapsed) == 0 <==> elapsed >= total,
        elapsed < total ==> elapsed + native_timeout(Some(total), elapsed) <= total,
        total - elapsed <= i32::MAX ==> elapsed + native_timeout(Some(total), elapsed) >= total,
{
}

/// As time passes, the native timeout does not grow.
pub proof fn lemma_timeout_shrinks(budget: Option<u128>, earlier: u128, later: u128)
    requires
        earlier <= later,
    ensures
        native_timeout(budget, later) <= native_timeout(budget, earlier),
{
}

/// Decides what follows one wait that ran with the native timeout
/// `timeout_ms` and ended in `outcome`: on success the buffer and the number
/// of notifications at its front, else the cause of the failure.
///
/// Notifications are delivered decoded and in the order they came. An empty
/// batch is delivered only from a wait that did not block (`timeout_ms` is
/// zero): a blocking wait that came back empty is repeated, so that the
/// caller sees an empty batch only once the budget is spent. An interrupted
/// wait is repeated too. Every other failure is reported.
pub fn after_wait(timeout_ms: i32, outcome: Result<(Vec<NativeEvent>, usize), Cause>) -> (step:
    Step)
    ensures
        match outcome {
            Ok((buffer, count)) => if filled(buffer@, count as nat).len() > 0 || timeout_ms == 0 {
                step matches Step::Deliver(events) && events@ == decoded_batch(
                    filled(buffer@, count as nat),
                )
            } else {
                step == Step::Again
            },
            Err(Cause::Interrupted) => step == Step::Again,
            Err(cause) => step == Step::Fail(error_for(Operation::Wait, cause)),
        },
{
    match outcome {
        Ok((buffer, count)) => {
            let events = decode_batch(&buffer, count);
            if events.len() > 0 || timeout_ms == 0 {
                Step::Deliver(events)
            } else {
                Step::Again
            }
        },
        Err(cause) => match cause {
            Cause::Interrupted => Step::Again,
            _ => Step::Fail(Error::from_cause(Operation::Wait, cause)),
        },
    }
}

/// The one failure that is passed over: removing a descriptor that is
/// closed. The kernel drops a descriptor from the watched set when its
/// last holder closes it, so there is nothing left to remove.
pub open spec fn tolerated(op: Operation, cause: Cause) -> bool {
    op == Operation::Delete && cause == Cause::BadDescriptor
}

/// The caller's result for a kernel call on the watched set: success stays
/// success, a tolerated failure counts as success, and every other failure
/// is sorted into its error kind.
pub open spec fn result_of(op: Operation, outcome: Result<(), Cause>) -> Result<(), Error> {
    match outcome {
        Ok(()) => Ok(()),
        Err(cause) => if tolerated(op, cause) {
            Ok(())
        } else {
            Err(error_for(op, cause))
        },
    }
}

/// How failures on the watched set reach the caller: an entry that exists
/// already makes an add fail as `AlreadyRegistered`, and nothing else ends
/// so; a missing entry makes a modify or a delete fail as `NotRegistered`,
/// and nothing else ends so; only a tolerated failure ends in success.
pub proof fn lemma_watched_set_results(op: Operation, cause: Cause)
    requires
        op == Operation::Add || op == Operation::Modify || op == Operation::Delete,
    ensures
        result_of(op, Err(cause)) == Err::<(), Error>(Error::AlreadyRegistered) <==> op
            == Operation::Add && cause == Cause::Exists,
        result_of(op, Err(cause)) == Err::<(), Error>(Error::NotRegistered) <==> op
            != Operation::Add && cause == Cause::NoEntry,
        result_of(op, Err(cause)) is Ok <==> tolerated(op, cause),
        result_of(op, Err(cause)) matches Err(e) ==> reportable(op, e),
{
}

/// Turns the outcome of a kernel call into the caller's result.
pub fn outcome_of(op: Operation, outcome: Result<(), Cause>) -> (r: Result<(), Error>)
    ensures
        r == result_of(op, outcome),
        r matches Err(e) ==> reportable(op, e),
{
    match outcome {
        Ok(()) => Ok(()),
        Err(cause) => match (op, cause) {
            (Operation::Delete, Cause::BadDescriptor) => Ok(()),
            _ => Err(Error::from_cause(op, cause)),
        },
    }
}

/// One epoll instance. It owns its kernel handle from `create` until it is
/// dropped, and closes it then, once.
#[derive(Debug)]
pub struct Epoll {
    epoll_fd: i32,
}

impl Epoll {
    /// The instance's kernel handle.
    pub closed spec fn handle(&self) -> int {
        self.epoll_fd as int
    }

    /// Creates a new instance whose handle is closed across `exec`.
    ///
    /// Fails as `Unsupported` where the kernel has no epoll and as
    /// `SystemResource` on every other refusal.
    pub fn create() -> (r: Result<Epoll, Error>)
        ensures
            r matches Err(e) ==> e == Error::Unsupported || e == Error::SystemResource,
    {
        match sys_create() {
            Ok(epoll_fd) => Ok(Epoll { epoll_fd }),
            Err(errno) => Err(Error::from_cause(Operation::Create, errno_cause(errno))),
        }
    }

    /// The instance's kernel handle, to read only: the instance keeps
    /// owning it.
    pub fn as_raw_fd(&self) -> (fd: i32)
        ensures
            fd == self.handle(),
    {
        self.epoll_fd
    }

    fn change(&mut self, op: Operation, fd: i32, record: NativeEvent) -> (r: Result<(), Error>)
        requires
            op == Operation::Add || op == Operation::Modify || op == Operation::Delete,
        ensures
            final(self).handle() == old(self).handle(),
            r matches Err(e) ==> reportable(op, e),
    {
        let outcome = match sys_ctl(self.epoll_fd, op, fd, record) {
            Ok(()) => Ok(()),
            Err(errno) => Err(errno_cause(errno)),
        };
        outcome_of(op, outcome)
    }

    /// Adds `fd` to the watched set with `interest` under `mode`; its
    /// notifications will carry `token`.
    ///
    /// The kernel is handed `request(token, interest, mode)`. Whether it
    /// accepts is its decision; a refusal comes back as
    /// `result_of(Operation::Add, ..)` of its cause: `AlreadyRegistered`
    /// for a descriptor that is in the set, `InvalidDescriptor` for one
    /// that is closed or cannot be polled.
    pub fn register(&mut self, fd: i32, token: Token, interest: Interest, mode: Mode) -> (r:
        Result<(), Error>)
        ensures
            final(self).handle() == old(self).handle(),
            r matches Err(e) ==> e == Error::AlreadyRegistered || e == Error::InvalidDescriptor
                || e == Error::SystemResource,
    {
        self.change(Operation::Add, fd, request(token, interest, mode))
    }

    /// Replaces the registration of `fd`: new token, interest and mode.
    /// Re-arms a one-shot registration that has fired.
    ///
    /// A refusal comes back as `result_of(Operation::Modify, ..)` of its
    /// cause: `NotRegistered` for a descriptor that is not in the set.
    pub fn reregister(&mut self, fd: i32, token: Token, interest: Interest, mode: Mode) -> (r:
        Result<(), Error>)
        ensures
            final(self).handle() == old(self).handle(),
            r matches Err(e) ==> e == Error::NotRegistered || e == Error::InvalidDescriptor || e
                == Error::SystemResource,
    {
        self.change(Operation::Modify, fd, request(token, interest, mode))
    }

    /// Removes `fd` from the watched set.
    ///
    /// A refusal comes back as `result_of(Operation::Delete, ..)` of its
    /// cause: `NotRegistered` for an open descriptor that is not in the
    /// set. Removing a descriptor that the caller has closed already is no
    /// failure: the kernel dropped it from the set when it was closed. This
    /// holds as long as the number has not been given to a new descriptor
    /// since; one that has is an open descriptor like any other.
    pub fn unregister(&mut self, fd: i32) -> (r: Result<(), Error>)
        ensures
            final(self).handle() == old(self).handle(),
            r matches Err(e) ==> e == Error::NotRegistered || e == Error::InvalidDescriptor || e
                == Error::SystemResource,
    {
        self.change(Operation::Delete, fd, NativeEvent { flags: 0, data: 0 })
    }

    /// Waits until a watched descriptor is ready or `timeout` has passed
    /// (`None`: without limit; zero: no waiting at all), and returns the
    /// notifications in the kernel's order, at most `MAX_EVENTS` of them.
    /// An empty batch means that the time ran out, so a wait without limit
    /// never ends in one.
    ///
    /// The kernel counts in milliseconds: the timeout is rounded up to a
    /// budget of whole milliseconds and the time that has passed is rounded
    /// down. Each wait runs with `native_timeout` of what is left, and
    /// `after_wait` decides what follows it: an interrupted wait is
    /// repeated and not reported. `Interrupted` is reported only when
    /// `u64::MAX` waits in a row were cut short.
    pub fn poll(&mut self, timeout: Option<Duration>) -> (r: Result<Vec<Event>, Error>)
        ensures
            final(self).handle() == old(self).handle(),
            r matches Ok(events) ==> events@.len() <= MAX_EVENTS,
            r matches Ok(events) ==> timeout is None ==> events@.len() > 0,
            r matches Err(e) ==> e == Error::Interrupted || e == Error::InvalidDescriptor || e
                == Error::SystemResource,
    {
        let budget: Option<u128> = match timeout {
            None => None,
            Some(limit) => Some(budget_millis(duration_nanos(&limit))),
        };
        let start = clock_now();
        let mut attempts: u64 = u64::MAX;
        while attempts > 0
            invariant
                self.handle() == old(self).handle(),
                budget is None <==> timeout is None,
            decreases attempts,
        {
            let elapsed: u128 = elapsed_millis(duration_nanos(&clock_elapsed(&start)));
            let timeout_ms: i32 = next_timeout(budget, elapsed);
            let outcome = match sys_wait(self.epoll_fd, MAX_EVENTS, timeout_ms) {
                Ok(batch) => Ok(batch),
                Err(errno) => Err(errno_cause(errno)),
            };
            match after_wait(timeout_ms, outcome) {
                Step::Deliver(events) => {
                    return Ok(events);
                },
                Step::Fail(e) => {
                    return Err(e);
                },
                Step::Again => {},
            }
            attempts -= 1;
        }
        Err(Error::Interrupted)
    }
}

impl Drop for Epoll {
    fn drop(&mut self)
        opens_invariants none
        no_unwind
    {
        sys_close(self.epoll_fd);
    }
}

} // verus!
