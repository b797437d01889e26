use vstd::prelude::*;

use crate::biome::{biome_from_code, code_result, BiomeId};
use crate::cache::{Cache, Range};
use crate::error::GeneratorError;

verus! {

/// The engine's flag for large biomes.
pub const LARGE_BIOMES: u32 = 0x1;

/// The engine's flag that turns beta oceans off.
pub const NO_BETA_OCEAN: u32 = 0x2;

/// The engine's flag that forces ocean variants.
pub const FORCE_OCEAN_VARIANTS: u32 = 0x4;

/// The behaviour flags of a generator: an open set of bits. The known bits have
/// names; any other bit is kept and handed to the engine as it is.
#[derive(Debug, Clone, Copy, PartialEq, Eq, Structural)]
pub struct Flags {
    pub bits: u32,
}

impl Flags {
    /// The set with no bit.
    pub fn empty() -> (r: Flags)
        ensures
            r.bits == 0,
    {
        Flags { bits: 0 }
    }

    /// The set of exactly these bits, known or not.
    pub fn from_bits_retain(bits: u32) -> (r: Flags)
        ensures
            r.bits == bits,
    {
        Flags { bits }
    }

    /// The set with the large-biomes flag alone.
    pub fn large_biomes() -> (r: Flags)
        ensures
            r.bits == LARGE_BIOMES,
    {
        Flags { bits: LARGE_BIOMES }
    }

    /// The set with the no-beta-ocean flag alone.
    pub fn no_beta_ocean() -> (r: Flags)
        ensures
            r.bits == NO_BETA_OCEAN,
    {
        Flags { bits: NO_BETA_OCEAN }
    }

    /// The set with the force-ocean-variants flag alone.
    pub fn force_ocean_variants() -> (r: Flags)
        ensures
            r.bits == FORCE_OCEAN_VARIANTS,
    {
        Flags { bits: FORCE_OCEAN_VARIANTS }
    }

    /// The bits of the set.
    pub fn bits(&self) -> (r: u32)
        ensures
            r == self.bits,
    {
        self.bits
    }

    /// The bits that are in either set.
    pub fn union(&self, other: Flags) -> (r: Flags)
        ensures
            r.bits == self.bits | other.bits,
    {
        Flags { bits: self.bits | other.bits }
    }

    /// Whether every bit of `other` is in this set.
    pub fn contains(&self, other: Flags) -> (r: bool)
        ensures
            r == (self.bits & other.bits == other.bits),
    {
        self.bits & other.bits == other.bits
    }
}

/// The sampling granularity: one sample per block, or one per 4x4x4 cell.
#[derive(Debug, Clone, Copy, PartialEq, Eq, Structural)]
pub enum Scale {
    Block,
    Biome,
}

impl Scale {
    /// The number of blocks along each axis that one sample stands for.
    pub open spec fn spec_value(self) -> i32 {
        match self {
            Scale::Block => 1,
            Scale::Biome => 4,
        }
    }

    /// The engine's code of this scale.
    pub fn value(&self) -> (r: i32)
        ensures
            r == self.spec_value(),
    {
        match self {
            Scale::Block => 1,
            Scale::Biome => 4,
        }
    }
}

/// A world layer, with its own rules of generation.
#[derive(Debug, Clone, Copy, PartialEq, Eq, Structural)]
pub enum Dimension {
    Nether,
    Overworld,
    End,
}

impl Dimension {
    /// The engine's code of this dimension.
    pub open spec fn spec_id(self) -> i32 {
        match self {
            Dimension::Nether => -1i32,
            Dimension::Overworld => 0,
            Dimension::End => 1,
        }
    }

    /// The engine's code of this dimension.
    pub fn id(&self) -> (r: i32)
        ensures
            r == self.spec_id(),
    {
        match self {
            Dimension::Nether => -1i32,
            Dimension::Overworld => 0,
            Dimension::End => 1,
        }
    }
}

/// The engine's answer to a single-point query on a handle that is in the
/// given seeding state: a query before any seed, or the engine's failure
/// sentinel, is a `GetBiomeAtFailure`; any other reply is converted as a
/// biome code.
pub open spec fn point_result(seeded: bool, reply: i32) -> Result<BiomeId, GeneratorError> {
    if !seeded || reply == -1 {
        Err(GeneratorError::GetBiomeAtFailure)
    } else {
        code_result(reply)
    }
}

/// A single-point query on a handle that no seed was applied to fails with
/// `GetBiomeAtFailure`, whatever the engine replied.
pub proof fn lemma_unseeded_query_fails(reply: i32)
    ensures
        point_result(false, reply) == Err::<BiomeId, GeneratorError>(
            GeneratorError::GetBiomeAtFailure,
        ),
{
}

/// The state of a generator handle: the version and flags it was set up with,
/// and the dimension and seed last applied to it, if any.
pub struct Generator {
    version: i32,
    flags: Flags,
    seeding: Option<(Dimension, i64)>,
}

impl Generator {
    /// The version the handle was set up for.
    pub closed spec fn spec_version(&self) -> i32 {
        self.version
    }

    /// The flags the handle was set up with.
    pub closed spec fn spec_flags(&self) -> Flags {
        self.flags
    }

    /// The dimension and seed last applied, or `None` before the first.
    pub closed spec fn spec_seeding(&self) -> Option<(Dimension, i64)> {
        self.seeding
    }

    /// Sets up a handle for the given version and flags, with no seed yet.
    pub fn new(version: i32, flags: Flags) -> (r: Generator)
        ensures
            r.spec_version() == version,
            r.spec_flags() == flags,
            r.spec_seeding() is None,
    {
        Generator { version, flags, seeding: None }
    }

    /// Applies a seed in a dimension; it supersedes any earlier one.
    pub fn apply_seed(&mut self, dimension: Dimension, seed: i64)
        ensures
            final(self).spec_seeding() == Some((dimension, seed)),
            final(self).spec_version() == old(self).spec_version(),
            final(self).spec_flags() == old(self).spec_flags(),
    {
        self.seeding = Some((dimension, seed));
    }

    /// The version the handle was set up for.
    pub fn version(&self) -> (r: i32)
        ensures
            r == self.spec_version(),
    {
        self.version
    }

    /// The flags the handle was set up with.
    pub fn flags(&self) -> (r: Flags)
        ensures
            r == self.spec_flags(),
    {
        self.flags
    }

    /// The dimension and seed last applied, if any.
    pub fn seeding(&self) -> (r: Option<(Dimension, i64)>)
        ensures
            r == self.spec_seeding(),
    {
        self.seeding
    }

    /// Whether a seed has been applied.
    pub fn is_seeded(&self) -> (r: bool)
        ensures
            r == (self.spec_seeding() is Some),
    {
        self.seeding.is_some()
    }

    /// Turns the engine's reply to a single-point query on this handle into
    /// a classification or an error.
    pub fn get_biome_at(&self, reply: i32) -> (r: Result<BiomeId, GeneratorError>)
        ensures
            r == point_result(self.spec_seeding() is Some, reply),
    {
        if self.seeding.is_none() || reply == -1 {
            Err(GeneratorError::GetBiomeAtFailure)
        } else {
            biome_from_code(reply)
        }
    }

    /// Binds an empty, unfilled cache for a region to this generator, with
    /// room for `capacity` samples: the number the engine reports for this
    /// handle and region.
    pub fn new_cache(&self, range: Range, capacity: usize) -> (r: Cache<'_>)
        requires
            range.wf(),
        ensures
            r.spec_generator() == self,
            r.spec_range() == range,
            r.spec_capacity() == capacity,
            r.spec_state() == crate::cache::FillState::Unfilled,
            r.spec_buffer().len() == 0,
    {
        Cache::bind(self, range, capacity)
    }
}

} // verus!
