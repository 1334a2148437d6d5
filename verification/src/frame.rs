//! The frame data model: one timed sample of pixel-color data for every
//! cell of the matrix.

use vstd::prelude::*;

verus! {

/// Number of cells in the matrix, and so the length of each color sequence.
pub const FRAME_CELLS: usize = 64;

/// One frame of pixel-color data: three equal-length sequences of bytes
/// (red, green, blue), one sample per matrix cell. A frame is created
/// fresh for each tick and is not mutated after it is handed to the
/// consumer's channel.
pub struct Frame {
    pub r: Vec<u8>,
    pub g: Vec<u8>,
    pub b: Vec<u8>,
}

impl Frame {
    /// All three color sequences hold exactly one sample per matrix cell.
    pub open spec fn wf(self) -> bool {
        &&& self.r@.len() == FRAME_CELLS
        &&& self.g@.len() == FRAME_CELLS
        &&& self.b@.len() == FRAME_CELLS
    }

    /// A frame with every sample at zero.
    pub fn new() -> (f: Frame)
        ensures
            f.wf(),
            forall|i: int| 0 <= i < FRAME_CELLS ==> f.r@[i] == 0,
            forall|i: int| 0 <= i < FRAME_CELLS ==> f.g@[i] == 0,
            forall|i: int| 0 <= i < FRAME_CELLS ==> f.b@[i] == 0,
    {
        Frame { r: zero_cells(), g: zero_cells(), b: zero_cells() }
    }
}

/// Every well-formed frame has exactly one sample per matrix cell in each
/// color sequence, and every sample lies within the byte range.
pub proof fn lemma_frame_cells_in_range(f: Frame)
    requires
        f.wf(),
    ensures
        f.r@.len() == FRAME_CELLS,
        f.g@.len() == FRAME_CELLS,
        f.b@.len() == FRAME_CELLS,
        forall|i: int| 0 <= i < FRAME_CELLS ==> 0 <= #[trigger] f.r@[i] <= 255,
        forall|i: int| 0 <= i < FRAME_CELLS ==> 0 <= #[trigger] f.g@[i] <= 255,
        forall|i: int| 0 <= i < FRAME_CELLS ==> 0 <= #[trigger] f.b@[i] <= 255,
{
}

/// A frame whose samples are all drawn from the uniform random source.
/// Nothing is promised of the sample values beyond their count and their
/// type's range.
pub fn random_frame() -> (f: Frame)
    ensures
        f.wf(),
{
    Frame { r: random_cells(), g: random_cells(), b: random_cells() }
}

/// Relies on rand::random: one byte drawn from the thread's uniform
/// random source. No promise is made about the value.
#[verifier::external_body]
fn random_byte() -> u8 {
    rand::random()
}

fn zero_cells() -> (v: Vec<u8>)
    ensures
        v@.len() == FRAME_CELLS,
        forall|i: int| 0 <= i < FRAME_CELLS ==> v@[i] == 0,
{
    let mut v: Vec<u8> = Vec::new();
    while v.len() < FRAME_CELLS
        invariant
            v@.len() <= FRAME_CELLS,
            forall|i: int| 0 <= i < v@.len() ==> v@[i] == 0,
        decreases FRAME_CELLS - v@.len(),
    {
        v.push(0);
    }
    v
}

fn random_cells() -> (v: Vec<u8>)
    ensures
        v@.len() == FRAME_CELLS,
{
    let mut v: Vec<u8> = Vec::new();
    while v.len() < FRAME_CELLS
        invariant
            v@.len() <= FRAME_CELLS,
        decreases FRAME_CELLS - v@.len(),
    {
        v.push(random_byte());
    }
    v
}

} // verus!
