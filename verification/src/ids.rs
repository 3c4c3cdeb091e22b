//! Reference-id issue for graph nodes.
//!
//! Channels and mixers each draw their ids from a monotonic counter, so
//! every node attached through one source carries a distinct id.  The
//! engine has no global state; a caller owns one `RefIdSource` and hands
//! it to the constructors.

use vstd::prelude::*;

verus! {

/// Issues reference ids for channels and for mixers, independently.
pub struct RefIdSource {
    pub next_channel_id: u64,
    pub next_mixer_id: u64,
}

impl RefIdSource {
    /// A source whose counters start at zero.
    pub fn new() -> (r: RefIdSource)
        ensures
            r == (RefIdSource { next_channel_id: 0, next_mixer_id: 0 }),
    {
        RefIdSource { next_channel_id: 0, next_mixer_id: 0 }
    }

    /// The next channel id, wrapping once the counter is exhausted.
    pub fn fresh_channel_id(&mut self) -> (r: u64)
        ensures
            r == old(self).next_channel_id,
            final(self).next_mixer_id == old(self).next_mixer_id,
            final(self).next_channel_id == if old(self).next_channel_id == u64::MAX {
                0
            } else {
                old(self).next_channel_id + 1
            },
    {
        let id = self.next_channel_id;
        self.next_channel_id = if id == u64::MAX {
            0
        } else {
            id + 1
        };
        id
    }

    /// The next mixer id, wrapping once the counter is exhausted.
    pub fn fresh_mixer_id(&mut self) -> (r: u64)
        ensures
            r == old(self).next_mixer_id,
            final(self).next_channel_id == old(self).next_channel_id,
            final(self).next_mixer_id == if old(self).next_mixer_id == u64::MAX {
                0
            } else {
                old(self).next_mixer_id + 1
            },
    {
        let id = self.next_mixer_id;
        self.next_mixer_id = if id == u64::MAX {
            0
        } else {
            id + 1
        };
        id
    }
}

} // verus!
