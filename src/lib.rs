//! Lifetime variance, shown on small verified types.
//!
//! Each item here compiles only because the lifetime parameters it touches
//! have the variance that its signature needs: covariant parameters may be
//! shortened, invariant ones may not move at all. Verus ignores lifetimes
//! when it proves, so the contracts state what the values are: a coercion
//! keeps every field, a collector appends, a displayer renders each message
//! on its own line.

mod interior;

pub mod intuition;
pub mod messages;
pub mod variance;

pub use intuition::lifetime_shortener;
pub use messages::{
    collect_and_display, collect_and_display_2, collect_messages, collect_messages_simple,
    message_example, Message, MessageCollector, MessageDisplayer, SimpleMessageCollector,
    SimpleMessageDisplayer,
};
pub use variance::{a, d1, Multi, OutlivesExample, TwoSpots};
