//! Settings of the bot: the limits of recompression and the account and
//! movie that frames are posted for.

use vstd::prelude::*;

verus! {

/// Largest JPEG, in bytes, that is uploaded without lowering its quality.
pub const MAX_JPEG_SIZE: usize = 1_000_000;

/// Lowest JPEG quality tried before giving up.
pub const MIN_JPEG_QUALITY: u8 = 10;

/// How much the JPEG quality drops between two attempts.
pub const JPEG_QUALITY_STEP: u8 = 5;

/// Account and movie settings, read from the environment at start-up.
#[derive(Debug, Clone)]
pub struct Config {
    /// Account identifier on the posting service.
    pub identifier: String,
    /// App password of that account.
    pub app_password: String,
    /// Name of the movie, used in the alt text of each post.
    pub movie_name: String,
}

} // verus!
