//! A small, typed layer over the Linux `epoll` readiness multiplexer.
//!
//! Callers describe what they want with [`Interest`] and [`Mode`], attach a
//! [`Token`] to every watched descriptor and get back [`Event`]s that pair the
//! token with a decoded [`Readiness`]. The bit-level encoding lives in
//! [`flags`] alone.

pub mod epoll;
pub mod error;
pub mod event;
pub mod flags;
pub mod sys;
pub mod token;

pub use epoll::Epoll;
pub use error::Error;
pub use event::{Event, NativeEvent};
pub use flags::{Interest, Mode, Readiness};
pub use token::Token;
