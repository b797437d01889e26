use vstd::prelude::*;

use crate::error::GeneratorError;

verus! {

/// The raw codes that name a known biome: the classic biomes, the void, their
/// mutated variants, and the cave, mountain and later biomes.
pub open spec fn is_known_biome_code(c: i32) -> bool {
    ||| 0 <= c <= 53
    ||| c == 127
    ||| 129 <= c <= 134
    ||| c == 140
    ||| c == 149
    ||| c == 151
    ||| 155 <= c <= 158
    ||| 160 <= c <= 175
    ||| 177 <= c <= 185
}

/// One biome classification: a raw code of the engine that is known to name a
/// biome.
#[derive(Debug, Clone, Copy, PartialEq, Eq, Structural)]
pub struct BiomeId {
    code: i32,
}

impl View for BiomeId {
    type V = i32;

    closed spec fn view(&self) -> i32 {
        self.code
    }
}

/// What converting a raw code gives: the classification of that code where
/// the code is known, else nothing.
pub closed spec fn biome_of_code(c: i32) -> Option<BiomeId> {
    if is_known_biome_code(c) {
        Some(BiomeId { code: c })
    } else {
        None
    }
}

impl BiomeId {
    #[verifier::type_invariant]
    spec fn inv(self) -> bool {
        is_known_biome_code(self.code)
    }

    /// The classification of a raw code, or `None` where the code names no
    /// known biome.
    pub fn from_i32(c: i32) -> (r: Option<BiomeId>)
        ensures
            r == biome_of_code(c),
            r is Some <==> is_known_biome_code(c),
            r matches Some(b) ==> b@ == c,
    {
        if (0 <= c && c <= 53) || c == 127 || (129 <= c && c <= 134) || c == 140 || c == 149
            || c == 151 || (155 <= c && c <= 158) || (160 <= c && c <= 175) || (177 <= c && c
            <= 185) {
            Some(BiomeId { code: c })
        } else {
            None
        }
    }

    /// What `to_i32` returns.
    pub open spec fn to_i32_spec(&self) -> i32 {
        self@
    }

    /// The raw code of this classification.
    pub fn to_i32(&self) -> (r: i32)
        ensures
            r == self.to_i32_spec(),
            is_known_biome_code(r),
    {
        proof {
            use_type_invariant(self);
        }
        self.code
    }
}

/// The result of converting a raw code: its classification where the code is
/// known, else `BiomeIDOutOfRange` with the code.
pub open spec fn code_result(c: i32) -> Result<BiomeId, GeneratorError> {
    if is_known_biome_code(c) {
        Ok(biome_of_code(c)->0)
    } else {
        Err(GeneratorError::BiomeIDOutOfRange(c))
    }
}

/// Converting a code gives its classification, holding that code, or
/// `BiomeIDOutOfRange` with that code.
pub proof fn lemma_code_result(c: i32)
    ensures
        code_result(c) matches Ok(b) && b@ == c || code_result(c) == Err::<BiomeId, GeneratorError>(
            GeneratorError::BiomeIDOutOfRange(c),
        ),
{
}

/// Converts a raw code to a classification, keeping an unknown code in the
/// error for diagnostics.
pub fn biome_from_code(c: i32) -> (r: Result<BiomeId, GeneratorError>)
    ensures
        r == code_result(c),
        r matches Ok(b) ==> b@ == c,
{
    match BiomeId::from_i32(c) {
        Some(b) => Ok(b),
        None => Err(GeneratorError::BiomeIDOutOfRange(c)),
    }
}

/// A known code converted to a classification, and that classification
/// converted back to its code, gives the code it started from.
pub proof fn lemma_code_round_trip(c: i32)
    requires
        is_known_biome_code(c),
    ensures
        biome_of_code(c) is Some,
        biome_of_code(c)->0@ == c,
        biome_of_code(c)->0.to_i32_spec() == c,
{
}

} // verus!
