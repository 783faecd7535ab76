//! The fixed binary layout of one grid cell's physical state, and the
//! construction of the zero-initialised storage buffer contents that the
//! init stage overwrites.
//!
//! The GPU shader reads the cell buffer as an array of records of nine
//! consecutive 32-bit words. Real-valued fields are carried as the raw bit
//! patterns of their 32-bit machine representation, so the layout stated
//! here is exact down to the word; the default record is the all-zero word
//! pattern (zero mass, zero impulse, zero gravity).

use vstd::prelude::*;

verus! {

/// Number of 32-bit words in one cell record.
pub const CELL_WORDS: usize = 9;

/// Size in bytes of one cell record.
pub const CELL_BYTES: u64 = 36;

/// Bit patterns of a two-component vector field.
#[derive(Clone, Copy, Debug, PartialEq, Eq, Structural)]
pub struct Vec2Bits {
    pub x: u32,
    pub y: u32,
}

/// One grid cell's physical state, word for word as the shader stages read
/// and write it: direction to the acting gravity source, gravity strength,
/// particle type tag, mass, accumulated impulse, and position of the
/// particle relative to its cell.
#[derive(Clone, Copy, Debug, PartialEq, Eq, Structural)]
pub struct CellData {
    pub to_gravity_source: Vec2Bits,
    pub gravity_strength: u32,
    pub particle_type: u32,
    pub mass: u32,
    pub impulse: Vec2Bits,
    pub relative_pos: Vec2Bits,
}

impl CellData {
    /// The record's words in buffer order.
    pub open spec fn words(self) -> Seq<u32> {
        seq![
            self.to_gravity_source.x,
            self.to_gravity_source.y,
            self.gravity_strength,
            self.particle_type,
            self.mass,
            self.impulse.x,
            self.impulse.y,
            self.relative_pos.x,
            self.relative_pos.y,
        ]
    }

    /// True of the default record: every word zero.
    pub open spec fn is_zeroed(self) -> bool {
        forall|i: int| 0 <= i < self.words().len() ==> self.words()[i] == 0u32
    }

    /// The record's words in buffer order, as a value.
    pub fn to_words(&self) -> (words: Vec<u32>)
        ensures
            words@ == self.words(),
    {
        let mut words: Vec<u32> = Vec::new();
        words.push(self.to_gravity_source.x);
        words.push(self.to_gravity_source.y);
        words.push(self.gravity_strength);
        words.push(self.particle_type);
        words.push(self.mass);
        words.push(self.impulse.x);
        words.push(self.impulse.y);
        words.push(self.relative_pos.x);
        words.push(self.relative_pos.y);
        proof {
            assert(words@ =~= self.words());
        }
        words
    }

    /// Size in bytes of a storage buffer holding one record per cell of a
    /// `world_size.0` by `world_size.1` grid.
    pub fn get_world_data_size(world_size: (u32, u32)) -> (size: u64)
        requires
            world_size.0 as int * world_size.1 as int * CELL_BYTES as int <= u64::MAX as int,
        ensures
            size as int == world_size.0 as int * world_size.1 as int * CELL_BYTES as int,
    {
        let cells: u64 = (world_size.0 as u64) * (world_size.1 as u64);
        cells * CELL_BYTES
    }
}

impl Default for CellData {
    /// The default record is the all-zero word pattern.
    fn default() -> (cell: Self)
        ensures
            cell.is_zeroed(),
    {
        let cell = CellData {
            to_gravity_source: Vec2Bits { x: 0, y: 0 },
            gravity_strength: 0,
            particle_type: 0,
            mass: 0,
            impulse: Vec2Bits { x: 0, y: 0 },
            relative_pos: Vec2Bits { x: 0, y: 0 },
        };
        proof {
            assert forall|i: int| 0 <= i < cell.words().len() implies cell.words()[i] == 0u32 by {
            }
        }
        cell
    }
}

/// Relies on bytemuck::cast_slice: reinterprets a slice of 32-bit words as
/// its raw bytes, four bytes per word in the machine's own byte order; a
/// zero word is four zero bytes in any byte order.
#[verifier::external_body]
fn words_to_bytes(words: &Vec<u32>) -> (bytes: Vec<u8>)
    ensures
        bytes@.len() == 4 * words@.len(),
        (forall|i: int| 0 <= i < words@.len() ==> words@[i] == 0u32) ==> (forall|i: int|
            0 <= i < bytes@.len() ==> bytes@[i] == 0u8),
{
    bytemuck::cast_slice::<u32, u8>(words.as_slice()).to_vec()
}

/// The words of `cell_count` default records laid end to end: all zero.
pub fn initial_world_words(cell_count: usize) -> (words: Vec<u32>)
    requires
        cell_count * CELL_WORDS as int <= usize::MAX as int,
    ensures
        words@.len() == cell_count * CELL_WORDS as int,
        forall|i: int| 0 <= i < words@.len() ==> words@[i] == 0u32,
{
    let total: usize = cell_count * CELL_WORDS;
    let mut words: Vec<u32> = Vec::new();
    let mut filled: usize = 0;
    while filled < total
        invariant
            filled <= total,
            words@.len() == filled,
            forall|i: int| 0 <= i < words@.len() ==> words@[i] == 0u32,
        decreases total - filled,
    {
        words.push(0);
        filled = filled + 1;
    }
    words
}

/// Initial contents of a freshly allocated cell buffer for `cell_count`
/// cells: every record the default record, hence every byte zero, so the
/// init stage starts from deterministic storage whatever the allocator
/// handed out.
pub fn initial_buffer_bytes(cell_count: usize) -> (bytes: Vec<u8>)
    requires
        cell_count * CELL_WORDS as int <= usize::MAX as int,
    ensures
        bytes@.len() == cell_count * CELL_BYTES as int,
        forall|i: int| 0 <= i < bytes@.len() ==> bytes@[i] == 0u8,
{
    let words = initial_world_words(cell_count);
    let bytes = words_to_bytes(&words);
    bytes
}

} // verus!
