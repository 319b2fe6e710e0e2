//! How the bot answers Lavalink's events.

use vstd::prelude::*;

verus! {

/// Handles the events of the Lavalink connection.
#[derive(Debug)]
pub struct LavalinkHandler;

impl LavalinkHandler {
    /// After a track failed or got stuck, the guild's queue is skipped to the
    /// next track; where there was none to skip to, playback is stopped.
    pub fn stop_after_skip(&self, skipped_to_next: bool) -> (stop: bool)
        ensures
            stop == !skipped_to_next,
    {
        !skipped_to_next
    }
}

} // verus!
