//! Idle time of the X11 user, read through the screen-saver extension.
//!
//! The native round-trips (open the display, ask for the extension, allocate
//! the info buffer, query it, free it, close the display) are made by the
//! caller. This crate decides, one reply at a time, which of them comes next,
//! and proves that every resource it has the caller acquire is released once,
//! buffer before display.
mod error;
mod session;
mod safety;

pub use error::{message_text, Error};
pub use session::{after, next, occurrences, pending, Action, Event, IdleQuery, Phase};
pub use safety::{
    lemma_all_released, lemma_every_reading_is_returned, lemma_freed_before_close,
    lemma_never_released_twice, lemma_no_allocation_without_extension, lemma_reading_is_reported,
    allocation_attempts, buffers_allocated, buffers_freed, displays_closed, displays_opened};
