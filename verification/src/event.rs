//! Notifications: the native pair of mask and user data, and its decoded
//! form.

use vstd::prelude::*;
use crate::flags::{flags_to_readiness, make_flags, native_flags, readiness_of, Interest, Mode, Readiness};
use crate::token::{data_of, token_of, Token};

verus! {

/// A native notification or registration record: a bitmask and the
/// user-data word stored with the descriptor.
#[derive(Debug, Copy, Clone, PartialEq, Eq, Structural)]
pub struct NativeEvent {
    pub flags: u32,
    pub data: u64,
}

/// A decoded notification: what happened, and the token of the descriptor
/// it happened on.
#[derive(Debug, Copy, Clone, PartialEq, Eq, Structural)]
pub struct Event {
    pub token: Token,
    pub readiness: Readiness,
}

/// The record that registers `token` with `interest` under `mode`.
pub open spec fn request_of(token: Token, interest: Interest, mode: Mode) -> NativeEvent {
    NativeEvent { flags: native_flags(interest, mode), data: data_of(token) }
}

/// The decoded form of a native notification.
pub open spec fn decoded(event: NativeEvent) -> Event {
    Event { token: token_of(event.data), readiness: readiness_of(event.flags) }
}

/// The events that the kernel filled in: the first `count` of the buffer
/// (all of it, should `count` exceed its length).
pub open spec fn filled(buffer: Seq<NativeEvent>, count: nat) -> Seq<NativeEvent> {
    if count <= buffer.len() {
        buffer.take(count as int)
    } else {
        buffer
    }
}

/// The decoded form of a batch, in the same order.
pub open spec fn decoded_batch(raw: Seq<NativeEvent>) -> Seq<Event> {
    Seq::new(raw.len(), |i: int| decoded(raw[i]))
}

/// The token of a native notification.
pub fn token(event: &NativeEvent) -> (t: Token)
    ensures
        t == token_of(event.data),
{
    Token::from_data(event.data)
}

/// The readiness of a native notification.
pub fn readiness(event: &NativeEvent) -> (r: Readiness)
    ensures
        r == readiness_of(event.flags),
{
    flags_to_readiness(event.flags)
}

/// Builds the record that registers `token` with `interest` under `mode`.
pub fn request(token: Token, interest: Interest, mode: Mode) -> (record: NativeEvent)
    ensures
        record == request_of(token, interest, mode),
{
    NativeEvent { flags: make_flags(interest, mode), data: token.to_data() }
}

/// Decodes one native notification.
pub fn decode(event: &NativeEvent) -> (e: Event)
    ensures
        e == decoded(*event),
{
    Event { token: token(event), readiness: readiness(event) }
}

/// Decodes the first `count` notifications of a buffer, keeping their
/// order; what lies behind them in the buffer is left out.
pub fn decode_batch(buffer: &Vec<NativeEvent>, count: usize) -> (events: Vec<Event>)
    ensures
        events@ == decoded_batch(filled(buffer@, count as nat)),
        events@.len() <= count,
        events@.len() <= buffer@.len(),
{
    let end: usize = if count <= buffer.len() {
        count
    } else {
        buffer.len()
    };
    let mut events: Vec<Event> = Vec::new();
    let mut i: usize = 0;
    while i < end
        invariant
            i <= end,
            end <= buffer@.len(),
            events@.len() == i,
            forall|k: int| 0 <= k < i ==> events@[k] == decoded(buffer@[k]),
        decreases end - i,
    {
        events.push(decode(&buffer[i]));
        i += 1;
    }
    assert(events@ =~= decoded_batch(filled(buffer@, count as nat)));
    events
}

/// A notification that echoes a registration back decodes to the token it
/// was registered with and to the readiness that the interest names.
pub proof fn lemma_request_decodes(token: Token, interest: Interest, mode: Mode)
    ensures
        decoded(request_of(token, interest, mode)) == (Event {
            token,
            readiness: Readiness {
                readable: interest.wants_read(),
                writable: interest.wants_write(),
                error: false,
            },
        }),
{
    crate::flags::lemma_request_round_trip(interest, mode);
    crate::token::lemma_token_round_trip(token);
}

} // verus!
