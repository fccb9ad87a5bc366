use vstd::prelude::*;

use crate::format::DataKind;

verus! {

/// Why a light cache could not be turned into texture containers.
///
/// Every one of these is fatal for the run: a cache that triggers one does
/// not have the layout this library knows, and nothing is guessed.
#[derive(Clone, Copy, Debug, PartialEq, Eq, Structural)]
pub enum ExtractError {
    /// The data type tag of a texture is none of the known ones.
    UnknownDataKind { data_type: i8 },
    /// The data kind is known, but not with this number of components.
    UnsupportedComponents { kind: DataKind, components: i8 },
    /// A cube texture whose slice count is not a multiple of six.
    InvalidCubeGeometry { depth: i32 },
    /// The source at `index` has `length` bytes, but only `remaining` bytes
    /// of the destination are still unfilled.
    SourceOverrun { index: usize, length: usize, remaining: usize },
    /// All sources were copied and `remaining` bytes of the destination are
    /// still unfilled.
    IncompletePayload { remaining: usize },
}

} // verus!
