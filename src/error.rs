use vstd::prelude::*;

verus! {

/// The failures of the generator and of its caches.
#[derive(Debug, Clone, Copy, PartialEq, Eq, Structural)]
pub enum GeneratorError {
    /// The engine returned a biome code that names no known biome.
    BiomeIDOutOfRange(i32),
    /// A single-point query failed; most often the seed was never applied.
    GetBiomeAtFailure,
    /// The bulk fill of a cache returned this non-zero status.
    GenBiomeToCacheFailure(i32),
    /// A lookup fell outside the region or the filled buffer.
    IndexOutOfBound,
}

} // verus!
