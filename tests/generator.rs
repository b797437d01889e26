use cubiomes::{
    biome_from_code, BiomeId, Cache, Dimension, FillState, Flags, Generator, GeneratorError,
    Range, Scale, FORCE_OCEAN_VARIANTS, LARGE_BIOMES, NO_BETA_OCEAN,
};

fn region(sx: i32, sy: i32, sz: i32) -> Range {
    Range { scale: Scale::Biome, x: 0, z: 0, sx, sz, y: 0, sy }
}

#[test]
fn known_code_round_trips() {
    for c in [0, 1, 53, 127, 129, 140, 149, 151, 155, 160, 168, 174, 177, 185] {
        let b = BiomeId::from_i32(c).unwrap();
        assert_eq!(b.to_i32(), c);
    }
}

#[test]
fn unknown_codes_are_rejected() {
    for c in [-1, 54, 126, 128, 135, 139, 141, 150, 152, 154, 159, 176, 186, i32::MAX, i32::MIN] {
        assert!(BiomeId::from_i32(c).is_none());
        assert_eq!(biome_from_code(c), Err(GeneratorError::BiomeIDOutOfRange(c)));
    }
}

#[test]
fn converting_a_known_code_keeps_it() {
    let b = biome_from_code(7).unwrap();
    assert_eq!(b.to_i32(), 7);
}

#[test]
fn query_before_seed_fails() {
    let g = Generator::new(21, Flags::empty());
    assert!(!g.is_seeded());
    assert_eq!(g.get_biome_at(1), Err(GeneratorError::GetBiomeAtFailure));
    assert_eq!(g.get_biome_at(-1), Err(GeneratorError::GetBiomeAtFailure));
}

#[test]
fn query_after_seed_converts_the_reply() {
    let mut g = Generator::new(21, Flags::empty());
    g.apply_seed(Dimension::Overworld, 262);
    assert!(g.is_seeded());
    assert_eq!(g.get_biome_at(4).unwrap().to_i32(), 4);
    assert_eq!(g.get_biome_at(-1), Err(GeneratorError::GetBiomeAtFailure));
    assert_eq!(g.get_biome_at(300), Err(GeneratorError::BiomeIDOutOfRange(300)));
}

#[test]
fn reseeding_supersedes_the_previous_seed() {
    let mut g = Generator::new(21, Flags::large_biomes());
    g.apply_seed(Dimension::Overworld, 1);
    g.apply_seed(Dimension::Nether, -5);
    assert_eq!(g.seeding(), Some((Dimension::Nether, -5)));
    assert_eq!(g.version(), 21);
    assert_eq!(g.flags().bits(), LARGE_BIOMES);
}

#[test]
fn flags_keep_unknown_bits() {
    let f = Flags::from_bits_retain(0x80 | NO_BETA_OCEAN);
    assert_eq!(f.bits(), 0x82);
    assert!(f.contains(Flags::no_beta_ocean()));
    assert!(!f.contains(Flags::force_ocean_variants()));
    let u = f.union(Flags::force_ocean_variants());
    assert_eq!(u.bits(), 0x82 | FORCE_OCEAN_VARIANTS);
    assert_eq!(Flags::empty().bits(), 0);
}

#[test]
fn scale_and_dimension_codes() {
    assert_eq!(Scale::Block.value(), 1);
    assert_eq!(Scale::Biome.value(), 4);
    assert_eq!(Dimension::Nether.id(), -1);
    assert_eq!(Dimension::Overworld.id(), 0);
    assert_eq!(Dimension::End.id(), 1);
}

#[test]
fn fresh_cache_fails_every_lookup() {
    let g = Generator::new(21, Flags::empty());
    let c = g.new_cache(region(2, 2, 2), 8);
    assert_eq!(c.state(), FillState::Unfilled);
    assert_eq!(c.capacity(), 8);
    assert!(c.get_cache().is_empty());
    for (x, y, z) in [(0, 0, 0), (1, 1, 1), (-1, 0, 0), (5, 5, 5)] {
        assert_eq!(c.get_biome_at(x, y, z), Err(GeneratorError::IndexOutOfBound));
    }
}

#[test]
fn filled_cache_lookups_follow_the_layout() {
    let mut g = Generator::new(21, Flags::empty());
    g.apply_seed(Dimension::Overworld, 3);
    let mut c = Cache::bind(&g, region(2, 2, 3), 12);
    let data: Vec<i32> = vec![0, 1, 2, 3, 4, 5, 6, 7, 21, 9, 10, 11];
    assert_eq!(c.fill_cache(0, data.clone()), Ok(()));
    assert_eq!(c.state(), FillState::Filled);
    assert_eq!(c.get_cache(), &data);
    // index = y * sx * sz + z * sx + x
    assert_eq!(c.get_biome_at(0, 0, 0).unwrap().to_i32(), 0);
    assert_eq!(c.get_biome_at(1, 0, 0).unwrap().to_i32(), 1);
    assert_eq!(c.get_biome_at(0, 0, 1).unwrap().to_i32(), 2);
    assert_eq!(c.get_biome_at(1, 0, 2).unwrap().to_i32(), 5);
    assert_eq!(c.get_biome_at(0, 1, 1).unwrap().to_i32(), 21);
    assert_eq!(c.get_biome_at(1, 1, 2).unwrap().to_i32(), 11);
}

#[test]
fn filled_cache_reports_unknown_codes() {
    let g = Generator::new(21, Flags::empty());
    let mut c = g.new_cache(region(2, 1, 1), 2);
    assert_eq!(c.fill_cache(0, vec![1, 999]), Ok(()));
    assert_eq!(c.get_biome_at(0, 0, 0).unwrap().to_i32(), 1);
    assert_eq!(c.get_biome_at(1, 0, 0), Err(GeneratorError::BiomeIDOutOfRange(999)));
}

#[test]
fn lookup_outside_one_sample_region_fails() {
    let g = Generator::new(21, Flags::empty());
    let mut c = g.new_cache(region(1, 1, 1), 1);
    assert_eq!(c.fill_cache(0, vec![6]), Ok(()));
    assert_eq!(c.get_biome_at(0, 0, 0).unwrap().to_i32(), 6);
    assert_eq!(c.get_biome_at(1, 0, 0), Err(GeneratorError::IndexOutOfBound));
    assert_eq!(c.get_biome_at(0, 1, 0), Err(GeneratorError::IndexOutOfBound));
    assert_eq!(c.get_biome_at(0, 0, 1), Err(GeneratorError::IndexOutOfBound));
    assert_eq!(c.get_biome_at(-1, 0, 0), Err(GeneratorError::IndexOutOfBound));
    assert_eq!(c.get_biome_at(0, i32::MIN, 0), Err(GeneratorError::IndexOutOfBound));
}

#[test]
fn lookup_past_a_short_buffer_fails() {
    let g = Generator::new(21, Flags::empty());
    let mut c = g.new_cache(region(2, 2, 2), 8);
    assert_eq!(c.fill_cache(0, vec![1, 2, 3]), Ok(()));
    assert_eq!(c.capacity(), 3);
    assert_eq!(c.get_biome_at(0, 0, 1).unwrap().to_i32(), 3);
    assert_eq!(c.get_biome_at(1, 0, 1), Err(GeneratorError::IndexOutOfBound));
}

#[test]
fn lookup_in_a_large_region_does_not_overflow() {
    let g = Generator::new(21, Flags::empty());
    let mut c = g.new_cache(region(i32::MAX, i32::MAX, i32::MAX), 4);
    assert_eq!(c.fill_cache(0, vec![1, 2, 3, 4]), Ok(()));
    assert_eq!(c.get_biome_at(3, 0, 0).unwrap().to_i32(), 4);
    assert_eq!(
        c.get_biome_at(i32::MAX - 1, i32::MAX - 1, i32::MAX - 1),
        Err(GeneratorError::IndexOutOfBound)
    );
}

#[test]
fn failed_fill_keeps_the_cache_unreadable() {
    let g = Generator::new(21, Flags::empty());
    let mut c = g.new_cache(region(1, 1, 2), 2);
    assert_eq!(c.fill_cache(3, vec![1, 2]), Err(GeneratorError::GenBiomeToCacheFailure(3)));
    assert_eq!(c.state(), FillState::Failed(3));
    assert_eq!(c.get_cache(), &vec![1, 2]);
    assert_eq!(c.get_biome_at(0, 0, 0), Err(GeneratorError::IndexOutOfBound));
    assert_eq!(c.fill_cache(0, vec![1, 2]), Ok(()));
    assert_eq!(c.get_biome_at(0, 0, 1).unwrap().to_i32(), 2);
}

#[test]
fn refill_replaces_the_data() {
    let g = Generator::new(21, Flags::empty());
    let mut c = g.new_cache(region(1, 1, 1), 1);
    assert_eq!(c.fill_cache(0, vec![1]), Ok(()));
    assert_eq!(c.get_biome_at(0, 0, 0).unwrap().to_i32(), 1);
    assert_eq!(c.fill_cache(0, vec![2]), Ok(()));
    assert_eq!(c.get_biome_at(0, 0, 0).unwrap().to_i32(), 2);
    assert_eq!(c.range(), region(1, 1, 1));
}

#[test]
fn range_validity() {
    assert!(region(1, 1, 1).is_valid());
    assert!(!region(0, 1, 1).is_valid());
    assert!(!region(1, -1, 1).is_valid());
    assert!(!region(1, 1, 0).is_valid());
}
