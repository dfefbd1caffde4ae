//! Transcribing a failed recording again: what the retry ends with.
use vstd::prelude::*;

use crate::text::{append_str, owned};

verus! {

/// The error recorded when a retry gives no text.
pub const EMPTY_RETRY_ERROR: &'static str = "Retry produced empty transcription";

/// How a retry ends for the history entry and the caller.
#[derive(Debug)]
pub enum RetryOutcome {
    /// The entry gets this text.
    Succeeded(String),
    /// The entry is marked with `entry_error`; the caller gets `error`.
    Failed { entry_error: String, error: String },
}

/// Whether a retry's transcript is polished: only when there is one.
pub open spec fn retry_needs_polish(transcript: Result<String, String>) -> bool {
    transcript matches Ok(t) && t@.len() > 0
}

/// The end of a retry: a failed transcription is reported with its error;
/// text that comes out empty (before or after polishing) fails the retry;
/// otherwise the text is kept.
pub open spec fn retry_outcome_spec(transcript: Result<String, String>, final_text: String, r: RetryOutcome) -> bool {
    match transcript {
        Err(e) => r matches RetryOutcome::Failed { entry_error, error } && entry_error == e && error@
            == "Transcription failed: "@ + e@,
        Ok(_) => if final_text@.len() == 0 {
            r matches RetryOutcome::Failed { entry_error, error } && entry_error@ == EMPTY_RETRY_ERROR@
                && error@ == EMPTY_RETRY_ERROR@
        } else {
            r == RetryOutcome::Succeeded(final_text)
        },
    }
}

/// Whether to polish a retry's transcript.
pub fn should_polish_retry(transcript: &Result<String, String>) -> (b: bool)
    ensures
        b == retry_needs_polish(*transcript),
{
    match transcript {
        Ok(t) => t.unicode_len() > 0,
        Err(_) => false,
    }
}

/// How a retry ends, given the transcript and the text after polishing
/// (empty when the transcript was empty).
pub fn retry_outcome(transcript: Result<String, String>, final_text: String) -> (r: RetryOutcome)
    ensures
        retry_outcome_spec(transcript, final_text, r),
{
    match transcript {
        Err(e) => {
            let mut error = owned("Transcription failed: ");
            append_str(&mut error, e.as_str());
            RetryOutcome::Failed { entry_error: e, error }
        },
        Ok(_) => {
            if final_text.unicode_len() == 0 {
                RetryOutcome::Failed { entry_error: owned(EMPTY_RETRY_ERROR), error: owned(EMPTY_RETRY_ERROR) }
            } else {
                RetryOutcome::Succeeded(final_text)
            }
        },
    }
}

} // verus!
