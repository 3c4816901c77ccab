//! Unwrapping `Result` and `Option` values where the wrong variant is a fatal
//! condition that must be reported at critical severity before the thread stops.
//!
//! The library decides, for each unwrap operation, whether the payload comes out
//! or a [`Failure`] is due, and what that failure's critical record says. The
//! caller that owns the logger emits [`Failure::record`] and then terminates with
//! [`Failure::panic_message`].

mod failure;
mod unwrap;

pub use crate::failure::{
    failed, failed_with, lemma_record_holds_message_and_value, record_text, Failure,
    OPTION_UNWRAP_MSG, OPTION_UNWRAP_NONE_MSG, RESULT_UNWRAP_ERR_MSG, RESULT_UNWRAP_MSG,
};
pub use crate::unwrap::{OptionExt, ResultExt};
