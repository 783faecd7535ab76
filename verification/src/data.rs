//! Double-buffered simulation state: the display surface and the two
//! generations of the per-cell storage buffer, with the constant-time swap
//! that exchanges the committed and write-target roles.

use vstd::prelude::*;

verus! {

/// The simulation's GPU-resident state, each resource named by the handle
/// the compute backend allocated for it: one 2D display surface the stages
/// write pixels to, the committed previous-generation cell buffer every
/// stage reads, and the next-generation cell buffer every stage writes.
/// `data_size` is the byte size each cell buffer was allocated with; the
/// buffers are allocated once and never resized.
#[derive(Clone, Copy, Debug, PartialEq, Eq, Structural)]
pub struct GameWorldData {
    pub image: u64,
    pub data_prev: u64,
    pub data_next: u64,
    pub data_size: u64,
}

impl GameWorldData {
    /// The two buffer roles are backed by distinct buffers, so a stage never
    /// reads the buffer it is writing.
    pub open spec fn wf(self) -> bool {
        self.data_prev != self.data_next
    }

    /// The same state with the previous and next roles exchanged.
    pub open spec fn swapped(self) -> GameWorldData {
        GameWorldData {
            image: self.image,
            data_prev: self.data_next,
            data_next: self.data_prev,
            data_size: self.data_size,
        }
    }

    /// Take ownership of the allocated resources.
    pub fn new(image: u64, data_prev: u64, data_next: u64, data_size: u64) -> (data:
        GameWorldData)
        requires
            data_prev != data_next,
        ensures
            data == (GameWorldData { image, data_prev, data_next, data_size }),
            data.wf(),
    {
        GameWorldData { image, data_prev, data_next, data_size }
    }

    /// Swaps the previous and next state of the world: a constant-time
    /// exchange of the two buffer handles, never a data copy.
    pub fn swap(&mut self)
        ensures
            *final(self) == old(self).swapped(),
            final(self).wf() == old(self).wf(),
    {
        let prev = self.data_prev;
        self.data_prev = self.data_next;
        self.data_next = prev;
    }
}

/// Swapping is its own inverse: exchanging the buffer roles twice restores
/// the original previous and next identities.
pub proof fn lemma_swap_involution(data: GameWorldData)
    ensures
        data.swapped().swapped() == data,
{
}

} // verus!
