//! Error kinds and how kernel failures are sorted into them.

use vstd::prelude::*;

verus! {

/// Why an operation on the multiplexer failed.
#[derive(Debug, Copy, Clone, PartialEq, Eq, Structural)]
pub enum Error {
    /// The kernel refused to allocate or create something.
    SystemResource,
    /// The descriptor is closed, or cannot be polled.
    InvalidDescriptor,
    /// The descriptor is already in the watched set.
    AlreadyRegistered,
    /// The descriptor is not in the watched set.
    NotRegistered,
    /// A signal interrupted the wait.
    Interrupted,
    /// The platform lacks the facility.
    Unsupported,
}

/// The kernel failures that this library tells apart.
#[derive(Debug, Copy, Clone, PartialEq, Eq, Structural)]
pub enum Cause {
    /// `EEXIST`
    Exists,
    /// `ENOENT`
    NoEntry,
    /// `EBADF`
    BadDescriptor,
    /// `EPERM`
    NotPermitted,
    /// `EINVAL`
    InvalidArgument,
    /// `ELOOP`
    Loop,
    /// `EINTR`
    Interrupted,
    /// `ENOSYS`
    NotImplemented,
    /// Any other failure.
    Other,
}

/// The operation that a failure came from.
#[derive(Debug, Copy, Clone, PartialEq, Eq, Structural)]
pub enum Operation {
    Create,
    Add,
    Modify,
    Delete,
    Wait,
}

/// Whether `cause` blames the descriptor: closed, not pollable, not an
/// epoll handle, or part of a cycle of epoll handles.
pub open spec fn blames_descriptor(cause: Cause) -> bool {
    cause == Cause::BadDescriptor || cause == Cause::NotPermitted || cause
        == Cause::InvalidArgument || cause == Cause::Loop
}

/// The error that a failure of `op` with cause `cause` is reported as.
///
/// Creating an instance touches no descriptor of the caller: a missing
/// facility is `Unsupported`, every other failure a resource failure. Of
/// the other operations each has one failure of its own: an add finds the
/// entry there already, a modify or a delete finds none, a wait is
/// interrupted. A cause that blames the descriptor is `InvalidDescriptor`
/// for all of them, and everything else is a resource failure.
pub open spec fn error_for(op: Operation, cause: Cause) -> Error {
    match op {
        Operation::Create => if cause == Cause::NotImplemented {
            Error::Unsupported
        } else {
            Error::SystemResource
        },
        Operation::Add => if cause == Cause::Exists {
            Error::AlreadyRegistered
        } else if blames_descriptor(cause) {
            Error::InvalidDescriptor
        } else {
            Error::SystemResource
        },
        Operation::Modify | Operation::Delete => if cause == Cause::NoEntry {
            Error::NotRegistered
        } else if blames_descriptor(cause) {
            Error::InvalidDescriptor
        } else {
            Error::SystemResource
        },
        Operation::Wait => if cause == Cause::Interrupted {
            Error::Interrupted
        } else if blames_descriptor(cause) {
            Error::InvalidDescriptor
        } else {
            Error::SystemResource
        },
    }
}

/// The errors that `op` can end in.
pub open spec fn reportable(op: Operation, e: Error) -> bool {
    match op {
        Operation::Create => e == Error::SystemResource || e == Error::Unsupported,
        Operation::Add => e == Error::AlreadyRegistered || e == Error::InvalidDescriptor || e
            == Error::SystemResource,
        Operation::Modify | Operation::Delete => e == Error::NotRegistered || e
            == Error::InvalidDescriptor || e == Error::SystemResource,
        Operation::Wait => e == Error::Interrupted || e == Error::InvalidDescriptor || e
            == Error::SystemResource,
    }
}

impl Error {
    /// Sorts a kernel failure into an error kind.
    pub fn from_cause(op: Operation, cause: Cause) -> (e: Error)
        ensures
            e == error_for(op, cause),
            reportable(op, e),
    {
        let own = match (op, cause) {
            (Operation::Create, Cause::NotImplemented) => Some(Error::Unsupported),
            (Operation::Create, _) => Some(Error::SystemResource),
            (Operation::Add, Cause::Exists) => Some(Error::AlreadyRegistered),
            (Operation::Modify, Cause::NoEntry) => Some(Error::NotRegistered),
            (Operation::Delete, Cause::NoEntry) => Some(Error::NotRegistered),
            (Operation::Wait, Cause::Interrupted) => Some(Error::Interrupted),
            _ => None,
        };
        match own {
            Some(e) => e,
            None => match cause {
                Cause::BadDescriptor | Cause::NotPermitted | Cause::InvalidArgument
                | Cause::Loop => Error::InvalidDescriptor,
                _ => Error::SystemResource,
            },
        }
    }

    /// A short description of the error.
    pub fn message(&self) -> (s: &'static str)
        ensures
            s@ == message_of(*self),
    {
        match self {
            Error::SystemResource => "the kernel refused a resource",
            Error::InvalidDescriptor => "the descriptor is closed or cannot be polled",
            Error::AlreadyRegistered => "the descriptor is already registered",
            Error::NotRegistered => "the descriptor is not registered",
            Error::Interrupted => "the wait was interrupted",
            Error::Unsupported => "the platform has no readiness multiplexer",
        }
    }
}

/// The text that describes an error.
pub open spec fn message_of(e: Error) -> Seq<char> {
    match e {
        Error::SystemResource => "the kernel refused a resource"@,
        Error::InvalidDescriptor => "the descriptor is closed or cannot be polled"@,
        Error::AlreadyRegistered => "the descriptor is already registered"@,
        Error::NotRegistered => "the descriptor is not registered"@,
        Error::Interrupted => "the wait was interrupted"@,
        Error::Unsupported => "the platform has no readiness multiplexer"@,
    }
}

/// An operation ends in exactly the errors that are reportable for it:
/// every cause is sorted into one of them, and each of them has a cause.
pub proof fn lemma_error_range(op: Operation, e: Error)
    ensures
        reportable(op, e) <==> exists|cause: Cause| error_for(op, cause) == e,
{
    if reportable(op, e) {
        let cause = match e {
            Error::SystemResource => Cause::Other,
            Error::InvalidDescriptor => Cause::BadDescriptor,
            Error::AlreadyRegistered => Cause::Exists,
            Error::NotRegistered => Cause::NoEntry,
            Error::Interrupted => Cause::Interrupted,
            Error::Unsupported => Cause::NotImplemented,
        };
        assert(error_for(op, cause) == e);
    }
}

/// Each operation's own failure comes from one cause only: `Unsupported`
/// from a missing facility, `AlreadyRegistered` from an entry that exists,
/// `NotRegistered` from a missing entry, `Interrupted` from an interrupted
/// wait.
pub proof fn lemma_registration_errors(op: Operation, cause: Cause)
    ensures
        error_for(op, cause) == Error::Unsupported <==> op == Operation::Create && cause
            == Cause::NotImplemented,
        error_for(op, cause) == Error::AlreadyRegistered <==> op == Operation::Add && cause
            == Cause::Exists,
        error_for(op, cause) == Error::NotRegistered <==> (op == Operation::Modify || op
            == Operation::Delete) && cause == Cause::NoEntry,
        error_for(op, cause) == Error::Interrupted <==> op == Operation::Wait && cause
            == Cause::Interrupted,
        error_for(op, cause) == Error::InvalidDescriptor <==> op != Operation::Create
            && blames_descriptor(cause),
{
}

} // verus!
