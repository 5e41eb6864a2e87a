use vstd::prelude::*;

verus! {

/// The engine's discriminator for a compressed unit.
#[derive(Clone, Copy, Debug, PartialEq, Eq, Structural)]
pub enum ChunkType {
    /// Decodable on its own.
    Key,
    /// Depends on earlier units.
    Delta,
}

/// The discriminator for a unit with the given keyframe flag.
pub fn chunk_type(keyframe: bool) -> (r: ChunkType)
    ensures
        keyframe ==> r == ChunkType::Key,
        !keyframe ==> r == ChunkType::Delta,
{
    if keyframe {
        ChunkType::Key
    } else {
        ChunkType::Delta
    }
}

} // verus!
