//! A checked front end for a stateful biome-generation engine: the state of a
//! generator handle, region caches filled in bulk by the engine, checked
//! lookups into them, and the conversion of the engine's raw biome codes.
//!
//! The engine itself runs outside this library. Its replies (a point query's
//! code, a bulk fill's status and buffer, the capacity it reports for a
//! region) are handed in as plain values, and every decision taken on them is
//! stated and proved here.
mod biome;
mod cache;
mod error;
mod generator;

pub use biome::{
    biome_from_code, biome_of_code, code_result, is_known_biome_code, lemma_code_result,
    lemma_code_round_trip, BiomeId,
};
pub use cache::{
    in_region, lemma_filled_lookup_in_range, lemma_lookup_out_of_bounds,
    lemma_region_volume_positive_monotone, lemma_unfilled_lookup_fails, lookup_result,
    region_volume, sample_index, Cache, FillState, Range,
};
pub use error::GeneratorError;
pub use generator::{
    lemma_unseeded_query_fails, point_result, Dimension, Flags, Generator, Scale,
    FORCE_OCEAN_VARIANTS, LARGE_BIOMES, NO_BETA_OCEAN,
};
