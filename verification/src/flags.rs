//! Translation between the typed interest/mode/readiness model and the
//! native epoll bitmask.

use vstd::prelude::*;

verus! {

/// Bit set in a native mask when a descriptor is, or should be watched for
/// being, readable.
pub const EPOLLIN: u32 = 0x001;

/// Bit set in a native mask when a descriptor is, or should be watched for
/// being, writable.
pub const EPOLLOUT: u32 = 0x004;

/// Bit the kernel sets when the descriptor itself reports an error.
pub const EPOLLERR: u32 = 0x008;

/// Bit that asks for a registration to be disarmed after one notification.
pub const EPOLLONESHOT: u32 = 0x4000_0000;

/// Bit that asks for edge-triggered notification.
pub const EPOLLET: u32 = 0x8000_0000;

/// Which readiness transitions the caller wants to hear about.
#[derive(Debug, Copy, Clone, PartialEq, Eq, Structural)]
pub enum Interest {
    Readable,
    Writable,
    Both,
}

/// How notifications are triggered.
///
/// `Level` repeats while the condition holds, `Edge` fires on a transition
/// into readiness only, `OneShot` disarms the registration after one
/// notification.
#[derive(Debug, Copy, Clone, PartialEq, Eq, Structural)]
pub enum Mode {
    Level,
    Edge,
    OneShot,
}

/// What happened on a descriptor, as three independent facts.
#[derive(Debug, Copy, Clone, PartialEq, Eq, Structural)]
pub struct Readiness {
    pub readable: bool,
    pub writable: bool,
    pub error: bool,
}

impl Interest {
    /// Whether this interest asks for readable notifications.
    pub open spec fn wants_read(self) -> bool {
        self == Interest::Readable || self == Interest::Both
    }

    /// Whether this interest asks for writable notifications.
    pub open spec fn wants_write(self) -> bool {
        self == Interest::Writable || self == Interest::Both
    }
}

/// `mask` has every bit of `bit` set.
pub open spec fn has_bit(mask: u32, bit: u32) -> bool {
    mask & bit == bit
}

/// The bits that an interest contributes to a native mask.
pub open spec fn interest_bits(interest: Interest) -> u32 {
    match interest {
        Interest::Readable => EPOLLIN,
        Interest::Writable => EPOLLOUT,
        Interest::Both => EPOLLIN | EPOLLOUT,
    }
}

/// The bits that a mode contributes to a native mask.
pub open spec fn mode_bits(mode: Mode) -> u32 {
    match mode {
        Mode::Level => 0u32,
        Mode::Edge => EPOLLET,
        Mode::OneShot => EPOLLONESHOT,
    }
}

/// The native mask that requests `interest` under `mode`.
pub open spec fn native_flags(interest: Interest, mode: Mode) -> u32 {
    interest_bits(interest) | mode_bits(mode)
}

/// The readiness that a native mask reports.
pub open spec fn readiness_of(mask: u32) -> Readiness {
    Readiness {
        readable: has_bit(mask, EPOLLIN),
        writable: has_bit(mask, EPOLLOUT),
        error: has_bit(mask, EPOLLERR),
    }
}

proof fn lemma_request_bits(i: u32, m: u32)
    by (bit_vector)
    requires
        i == 0x001u32 || i == 0x004u32 || i == (0x001u32 | 0x004u32),
        m == 0u32 || m == 0x4000_0000u32 || m == 0x8000_0000u32,
    ensures
        ((i | m) & 0x001u32 == 0x001u32) == (i != 0x004u32),
        ((i | m) & 0x004u32 == 0x004u32) == (i != 0x001u32),
        (i | m) & 0x008u32 != 0x008u32,
        ((i | m) & 0x4000_0000u32 == 0x4000_0000u32) == (m == 0x4000_0000u32),
        ((i | m) & 0x8000_0000u32 == 0x8000_0000u32) == (m == 0x8000_0000u32),
        (i | m) & !(0x001u32 | 0x004u32 | 0x4000_0000u32 | 0x8000_0000u32) == 0u32,
        0x001u32 != 0x004u32,
        0x001u32 != (0x001u32 | 0x004u32),
        0x004u32 != (0x001u32 | 0x004u32),
{
}

/// Which bits a request mask holds: the readable bit exactly when the
/// interest covers reading, the writable bit exactly when it covers writing,
/// the edge bit exactly for `Edge`, the one-shot bit exactly for `OneShot`,
/// never the error bit, and nothing outside those four request bits.
pub proof fn lemma_native_flags_bits(interest: Interest, mode: Mode)
    ensures
        has_bit(native_flags(interest, mode), EPOLLIN) == interest.wants_read(),
        has_bit(native_flags(interest, mode), EPOLLOUT) == interest.wants_write(),
        has_bit(native_flags(interest, mode), EPOLLET) == (mode == Mode::Edge),
        has_bit(native_flags(interest, mode), EPOLLONESHOT) == (mode == Mode::OneShot),
        !has_bit(native_flags(interest, mode), EPOLLERR),
        native_flags(interest, mode) & !(EPOLLIN | EPOLLOUT | EPOLLONESHOT | EPOLLET) == 0,
{
    lemma_request_bits(interest_bits(interest), mode_bits(mode));
}

/// Decoding a request mask gives back the interest it was built from,
/// whatever the mode: readable and writable match the interest exactly and
/// the error flag is clear.
pub proof fn lemma_request_round_trip(interest: Interest, mode: Mode)
    ensures
        readiness_of(native_flags(interest, mode)) == (Readiness {
            readable: interest.wants_read(),
            writable: interest.wants_write(),
            error: false,
        }),
{
    lemma_native_flags_bits(interest, mode);
}

/// Two requests have the same mask only if they are the same request.
pub proof fn lemma_native_flags_injective(i1: Interest, m1: Mode, i2: Interest, m2: Mode)
    requires
        native_flags(i1, m1) == native_flags(i2, m2),
    ensures
        i1 == i2,
        m1 == m2,
{
    lemma_native_flags_bits(i1, m1);
    lemma_native_flags_bits(i2, m2);
}

/// Encodes a request as the native mask.
pub fn make_flags(interest: Interest, mode: Mode) -> (mask: u32)
    ensures
        mask == native_flags(interest, mode),
        has_bit(mask, EPOLLIN) == interest.wants_read(),
        has_bit(mask, EPOLLOUT) == interest.wants_write(),
        has_bit(mask, EPOLLET) == (mode == Mode::Edge),
        has_bit(mask, EPOLLONESHOT) == (mode == Mode::OneShot),
        !has_bit(mask, EPOLLERR),
{
    let mut mask: u32 = 0;
    match interest {
        Interest::Readable => mask |= EPOLLIN,
        Interest::Writable => mask |= EPOLLOUT,
        Interest::Both => {
            mask |= EPOLLIN;
            mask |= EPOLLOUT;
        },
    }
    proof {
        assert(0u32 | 0x001u32 == 0x001u32) by (bit_vector);
        assert(0u32 | 0x004u32 == 0x004u32) by (bit_vector);
    }
    match mode {
        Mode::Level => {},
        Mode::Edge => mask |= EPOLLET,
        Mode::OneShot => mask |= EPOLLONESHOT,
    }
    proof {
        assert(mask | 0u32 == mask) by (bit_vector);
        lemma_native_flags_bits(interest, mode);
    }
    mask
}

/// Decodes a native mask into a readiness.
pub fn flags_to_readiness(mask: u32) -> (r: Readiness)
    ensures
        r == readiness_of(mask),
{
    Readiness {
        readable: mask & EPOLLIN == EPOLLIN,
        writable: mask & EPOLLOUT == EPOLLOUT,
        error: mask & EPOLLERR == EPOLLERR,
    }
}

} // verus!
