//! Decisions around one posting attempt: what to do after it, and the alt
//! text that describes the posted frame.

use vstd::prelude::*;
use vstd::string::*;

use crate::frame_store::{append_decimal, decimal};

verus! {

/// What follows a posting attempt.
#[derive(Debug, Clone, Copy, PartialEq, Eq, Structural)]
pub enum RetryAction {
    /// The post went out: stop.
    Done,
    /// It failed and attempts are left: wait, then try again.
    RetryAfterDelay,
    /// It failed and that was the last attempt.
    GiveUp,
}

pub open spec fn retry_action(attempt: u32, max_attempts: u32, succeeded: bool) -> RetryAction {
    if succeeded {
        RetryAction::Done
    } else if attempt < max_attempts {
        RetryAction::RetryAfterDelay
    } else {
        RetryAction::GiveUp
    }
}

/// Decides what follows attempt number `attempt` (1-based) out of
/// `max_attempts`.
pub fn after_attempt(attempt: u32, max_attempts: u32, succeeded: bool) -> (r: RetryAction)
    ensures
        r == retry_action(attempt, max_attempts, succeeded),
{
    if succeeded {
        RetryAction::Done
    } else if attempt < max_attempts {
        RetryAction::RetryAfterDelay
    } else {
        RetryAction::GiveUp
    }
}

/// The alt text of a posted frame.
pub open spec fn alt_text_spec(movie_name: Seq<char>, current_frame: u32, total_frames: u32) -> Seq<char> {
    "A frame from the movie '"@ + movie_name + "', specifically frame "@ + decimal(current_frame as nat) + " of "@
        + decimal(total_frames as nat)
}

/// Describes frame `current_frame` of `total_frames` of the movie.
pub fn alt_text(movie_name: &str, current_frame: u32, total_frames: u32) -> (r: String)
    ensures
        r@ == alt_text_spec(movie_name@, current_frame, total_frames),
{
    let mut text = String::from_str("A frame from the movie '");
    text.append(movie_name);
    text.append("', specifically frame ");
    append_decimal(&mut text, current_frame);
    text.append(" of ");
    append_decimal(&mut text, total_frames);
    text
}

} // verus!
