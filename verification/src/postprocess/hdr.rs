//! The HDR target pair: each frame renders into one texture while the
//! other holds the previous frame.

use vstd::prelude::*;

verus! {

/// Which of the two HDR textures is current and which holds the history.
#[derive(Clone, Copy, PartialEq, Eq, Debug, Structural)]
pub struct PingPong {
    frame_index: usize,
}

impl PingPong {
    /// The number of frames advanced so far.
    pub closed spec fn spec_frame_index(self) -> usize {
        self.frame_index
    }

    /// Texture 0 current, texture 1 history.
    pub fn new() -> (p: Self)
        ensures
            p.spec_frame_index() == 0,
    {
        PingPong { frame_index: 0 }
    }

    /// The number of frames advanced so far.
    pub fn frame_index(&self) -> (i: usize)
        ensures
            i == self.spec_frame_index(),
    {
        self.frame_index
    }

    /// The texture rendered into this frame.
    pub open spec fn spec_current(self) -> int {
        self.spec_frame_index() as int % 2
    }

    /// The texture holding the previous frame.
    pub open spec fn spec_history(self) -> int {
        (self.spec_frame_index() + 1) % 2
    }

    /// The texture rendered into this frame.
    pub fn current_index(&self) -> (i: usize)
        ensures
            i == self.spec_current(),
            i < 2,
    {
        self.frame_index % 2
    }

    /// The texture that holds the previous frame.
    pub fn history_index(&self) -> (i: usize)
        requires
            self.spec_frame_index() < usize::MAX,
        ensures
            i == self.spec_history(),
            i < 2,
    {
        (self.frame_index + 1) % 2
    }

    /// Moves to the next frame.
    pub fn advance_frame(&mut self)
        requires
            old(self).spec_frame_index() < usize::MAX,
        ensures
            final(self).spec_frame_index() == old(self).spec_frame_index() + 1,
    {
        self.frame_index += 1;
    }
}

/// The current texture and the history texture are never the same one, and
/// advancing a frame swaps them.
pub proof fn law_ping_pong(before: PingPong, after: PingPong)
    requires
        after.spec_frame_index() == before.spec_frame_index() + 1,
    ensures
        before.spec_current() != before.spec_history(),
        after.spec_current() == before.spec_history(),
        after.spec_history() == before.spec_current(),
{
}

} // verus!
