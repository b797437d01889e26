use vstd::prelude::*;

use crate::biome::{biome_from_code, code_result, BiomeId};
use crate::error::GeneratorError;
use crate::generator::{Generator, Scale};

verus! {

/// A rectangular region of samples: its scale, its origin, and its extent
/// along each axis.
#[derive(Debug, Clone, Copy, PartialEq, Eq, Structural)]
pub struct Range {
    pub scale: Scale,
    pub x: i32,
    pub z: i32,
    pub sx: i32,
    pub sz: i32,
    pub y: i32,
    pub sy: i32,
}

impl Range {
    /// Every extent is positive.
    pub open spec fn wf(&self) -> bool {
        self.sx > 0 && self.sy > 0 && self.sz > 0
    }

    /// Whether every extent is positive.
    pub fn is_valid(&self) -> (r: bool)
        ensures
            r == self.wf(),
    {
        self.sx > 0 && self.sy > 0 && self.sz > 0
    }
}

/// The number of samples in a region.
pub open spec fn region_volume(sx: int, sy: int, sz: int) -> int {
    sx * sy * sz
}

/// Whether a position, relative to the region's origin, lies in the region.
pub open spec fn in_region(r: Range, x: i32, y: i32, z: i32) -> bool {
    0 <= x < r.sx && 0 <= y < r.sy && 0 <= z < r.sz
}

/// Where the sample at a position lies in the filled buffer: y is the
/// outermost stride, then z, then x.
pub open spec fn sample_index(r: Range, x: i32, y: i32, z: i32) -> int {
    y * r.sx * r.sz + z * r.sx + x
}

/// A region with positive extents holds at least one sample, and growing any
/// extent never makes it hold fewer.
pub proof fn lemma_region_volume_positive_monotone(
    sx: int,
    sy: int,
    sz: int,
    tx: int,
    ty: int,
    tz: int,
)
    requires
        0 < sx <= tx,
        0 < sy <= ty,
        0 < sz <= tz,
    ensures
        region_volume(sx, sy, sz) > 0,
        region_volume(sx, sy, sz) <= region_volume(tx, sy, sz),
        region_volume(sx, sy, sz) <= region_volume(sx, ty, sz),
        region_volume(sx, sy, sz) <= region_volume(sx, sy, tz),
        region_volume(sx, sy, sz) <= region_volume(tx, ty, tz),
{
    assert(sx * sy > 0) by (nonlinear_arith)
        requires
            sx > 0,
            sy > 0,
    ;
    assert(sx * sy * sz > 0) by (nonlinear_arith)
        requires
            sx * sy > 0,
            sz > 0,
    ;
    assert(sx * sy * sz <= tx * sy * sz) by (nonlinear_arith)
        requires
            0 < sx <= tx,
            sy > 0,
            sz > 0,
    ;
    assert(sx * sy * sz <= sx * ty * sz) by (nonlinear_arith)
        requires
            0 < sy <= ty,
            sx > 0,
            sz > 0,
    ;
    assert(sx * sy * sz <= sx * sy * tz) by (nonlinear_arith)
        requires
            0 < sz <= tz,
            sx * sy > 0,
    ;
    assert(sx * sy * sz <= tx * ty * tz) by (nonlinear_arith)
        requires
            0 < sx <= tx,
            0 < sy <= ty,
            0 < sz <= tz,
    ;
}

/// Whether a cache has been filled, and how.
#[derive(Debug, Clone, Copy, PartialEq, Eq, Structural)]
pub enum FillState {
    /// Never filled.
    Unfilled,
    /// The last fill succeeded: the buffer holds the region's samples.
    Filled,
    /// The last fill returned this non-zero status: the buffer is not to be
    /// read.
    Failed(i32),
}

/// The result of a lookup in a cache in the given state, with the given
/// buffer, for the given region.
pub open spec fn lookup_result(
    state: FillState,
    buffer: Seq<i32>,
    r: Range,
    x: i32,
    y: i32,
    z: i32,
) -> Result<BiomeId, GeneratorError> {
    if state == FillState::Filled && in_region(r, x, y, z) && sample_index(r, x, y, z)
        < buffer.len() {
        code_result(buffer[sample_index(r, x, y, z)])
    } else {
        Err(GeneratorError::IndexOutOfBound)
    }
}

/// A cache that was never filled, or whose last fill failed, fails every
/// lookup with `IndexOutOfBound`, whatever the position and the buffer.
pub proof fn lemma_unfilled_lookup_fails(
    state: FillState,
    buffer: Seq<i32>,
    r: Range,
    x: i32,
    y: i32,
    z: i32,
)
    requires
        state != FillState::Filled,
    ensures
        lookup_result(state, buffer, r, x, y, z) == Err::<BiomeId, GeneratorError>(
            GeneratorError::IndexOutOfBound,
        ),
{
}

/// In a filled cache, a lookup at a position of the region whose sample lies
/// in the buffer gives the classification of the stored code, or
/// `BiomeIDOutOfRange` with that code.
pub proof fn lemma_filled_lookup_in_range(buffer: Seq<i32>, r: Range, x: i32, y: i32, z: i32)
    requires
        r.wf(),
        in_region(r, x, y, z),
        sample_index(r, x, y, z) < buffer.len(),
    ensures
        0 <= sample_index(r, x, y, z),
        lookup_result(FillState::Filled, buffer, r, x, y, z) matches Ok(b) && b@ == buffer[sample_index(r, x, y, z)]
            || lookup_result(FillState::Filled, buffer, r, x, y, z) == Err::<BiomeId, GeneratorError>(
            GeneratorError::BiomeIDOutOfRange(buffer[sample_index(r, x, y, z)]),
        ),
{
    assert(0 <= y * r.sx * r.sz) by (nonlinear_arith)
        requires
            0 <= y,
            0 < r.sx,
            0 < r.sz,
    ;
    assert(0 <= z * r.sx) by (nonlinear_arith)
        requires
            0 <= z,
            0 < r.sx,
    ;
    crate::biome::lemma_code_result(buffer[sample_index(r, x, y, z)]);
}

/// A lookup at a negative coordinate, or at a position whose sample would lie
/// at or past the end of the buffer, fails with `IndexOutOfBound`.
pub proof fn lemma_lookup_out_of_bounds(
    state: FillState,
    buffer: Seq<i32>,
    r: Range,
    x: i32,
    y: i32,
    z: i32,
)
    requires
        x < 0 || y < 0 || z < 0 || sample_index(r, x, y, z) >= buffer.len(),
    ensures
        lookup_result(state, buffer, r, x, y, z) == Err::<BiomeId, GeneratorError>(
            GeneratorError::IndexOutOfBound,
        ),
{
}

/// A buffer of raw biome codes for one region, bound to the generator that
/// fills it.
pub struct Cache<'a> {
    cache: Vec<i32>,
    range: Range,
    capacity: usize,
    state: FillState,
    generator: &'a Generator,
}

impl<'a> Cache<'a> {
    /// The buffer's contents.
    pub closed spec fn spec_buffer(&self) -> Seq<i32> {
        self.cache@
    }

    /// The region the cache was bound to.
    pub closed spec fn spec_range(&self) -> Range {
        self.range
    }

    /// The number of samples the engine last reported for the region.
    pub closed spec fn spec_capacity(&self) -> usize {
        self.capacity
    }

    /// Whether the cache has been filled, and how.
    pub closed spec fn spec_state(&self) -> FillState {
        self.state
    }

    /// The generator the cache is bound to.
    pub closed spec fn spec_generator(&self) -> &'a Generator {
        self.generator
    }

    /// Binds an empty, unfilled cache to a generator and a region, with room
    /// for the number of samples that the engine reports for them.
    pub fn bind(generator: &'a Generator, range: Range, capacity: usize) -> (r: Cache<'a>)
        requires
            range.wf(),
        ensures
            r.spec_generator() == generator,
            r.spec_range() == range,
            r.spec_capacity() == capacity,
            r.spec_state() == FillState::Unfilled,
            r.spec_buffer().len() == 0,
    {
        Cache { cache: Vec::with_capacity(capacity), range, capacity, state: FillState::Unfilled, generator }
    }

    /// Takes in the buffer that the engine's bulk fill wrote, at the length it
    /// reports for the region, and its status: zero marks the cache filled;
    /// any other status is returned as `GenBiomeToCacheFailure` and marks the
    /// buffer unreadable.
    pub fn fill_cache(&mut self, status: i32, written: Vec<i32>) -> (r: Result<(), GeneratorError>)
        ensures
            final(self).spec_buffer() == written@,
            final(self).spec_capacity() == written@.len(),
            final(self).spec_range() == old(self).spec_range(),
            final(self).spec_generator() == old(self).spec_generator(),
            final(self).spec_state() == (if status == 0 {
                FillState::Filled
            } else {
                FillState::Failed(status)
            }),
            r == (if status == 0 {
                Ok::<(), GeneratorError>(())
            } else {
                Err(GeneratorError::GenBiomeToCacheFailure(status))
            }),
    {
        self.capacity = written.len();
        self.cache = written;
        if status != 0 {
            self.state = FillState::Failed(status);
            return Err(GeneratorError::GenBiomeToCacheFailure(status));
        }
        self.state = FillState::Filled;
        Ok(())
    }

    /// The raw buffer, for bulk reading with the same layout as lookups.
    pub fn get_cache(&self) -> (r: &Vec<i32>)
        ensures
            r@ == self.spec_buffer(),
    {
        &self.cache
    }

    /// The region the cache was bound to.
    pub fn range(&self) -> (r: Range)
        ensures
            r == self.spec_range(),
    {
        self.range
    }

    /// The number of samples the engine last reported for the region.
    pub fn capacity(&self) -> (r: usize)
        ensures
            r == self.spec_capacity(),
    {
        self.capacity
    }

    /// Whether the cache has been filled, and how.
    pub fn state(&self) -> (r: FillState)
        ensures
            r == self.spec_state(),
    {
        self.state
    }

    /// The generator the cache is bound to.
    pub fn generator(&self) -> (r: &'a Generator)
        ensures
            r == self.spec_generator(),
    {
        self.generator
    }

    /// The classification at a position relative to the region's origin. The
    /// position must lie in the region and the cache must have been filled
    /// with success; else the lookup fails with `IndexOutOfBound`.
    pub fn get_biome_at(&self, x: i32, y: i32, z: i32) -> (r: Result<BiomeId, GeneratorError>)
        ensures
            r == lookup_result(self.spec_state(), self.spec_buffer(), self.spec_range(), x, y, z),
    {
        let rg = self.range;
        if self.state != FillState::Filled || x < 0 || y < 0 || z < 0 || x >= rg.sx || y >= rg.sy
            || z >= rg.sz {
            return Err(GeneratorError::IndexOutOfBound);
        }
        let sx = rg.sx as u128;
        let sz = rg.sz as u128;
        let yy = y as u128;
        let zz = z as u128;
        let xx = x as u128;
        assert(yy * sx < 0x1_0000_0000_0000_0000) by (nonlinear_arith)
            requires
                yy < 0x8000_0000,
                sx < 0x8000_0000,
        ;
        assert(yy * sx * sz < 0x1_0000_0000_0000_0000_0000_0000) by (nonlinear_arith)
            requires
                yy * sx < 0x1_0000_0000_0000_0000,
                sz < 0x8000_0000,
        ;
        assert(zz * sx < 0x1_0000_0000_0000_0000) by (nonlinear_arith)
            requires
                zz < 0x8000_0000,
                sx < 0x8000_0000,
        ;
        let idx: u128 = yy * sx * sz + zz * sx + xx;
        assert(idx == sample_index(rg, x, y, z));
        if idx >= self.cache.len() as u128 {
            return Err(GeneratorError::IndexOutOfBound);
        }
        biome_from_code(self.cache[idx as usize])
    }
}

} // verus!
