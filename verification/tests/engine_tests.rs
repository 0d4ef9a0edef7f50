use film_grain::config::ArtisticGrainConfig;
use film_grain::engine::{
    GrainEngine, BASE_SEED, CHROMATIC_SEED_OFFSET, LAYER_OCTAVES, RELIEF_OCTAVES,
    RELIEF_SEED_OFFSET,
};

#[test]
fn constants_of_the_noise_field() {
    assert_eq!(BASE_SEED, 42);
    assert_eq!(CHROMATIC_SEED_OFFSET, 100);
    assert_eq!(RELIEF_SEED_OFFSET, 200);
    assert_eq!(LAYER_OCTAVES, 3);
    assert_eq!(RELIEF_OCTAVES, 2);
}

#[test]
fn layers_are_seeded_in_order() {
    let engine = GrainEngine::new(3, 42);
    assert_eq!(engine.layer_seeds(), &[42, 43, 44]);
    assert_eq!(engine.chromatic_seed(), 142);
    assert_eq!(engine.relief_seed(), 242);
    assert_eq!(engine.base_seed(), 42);
    assert_eq!(engine.layer_count(), 3);
}

#[test]
fn a_single_layer_divides_by_one() {
    let engine = GrainEngine::new(1, 42);
    assert_eq!(engine.layer_seeds(), &[42]);
    assert_eq!(engine.layer_count(), 1);
}

#[test]
fn no_layer_still_divides_by_one() {
    let engine = GrainEngine::new(0, 7);
    assert!(engine.layer_seeds().is_empty());
    assert_eq!(engine.layer_count(), 1);
    assert_eq!(engine.chromatic_seed(), 107);
    assert_eq!(engine.relief_seed(), 207);
}

#[test]
fn layer_seeds_are_distinct() {
    let engine = GrainEngine::new(64, 1000);
    let seeds = engine.layer_seeds();
    for i in 0..seeds.len() {
        assert_eq!(seeds[i], 1000 + i as u32);
        for j in i + 1..seeds.len() {
            assert_ne!(seeds[i], seeds[j]);
        }
    }
}

#[test]
fn seeds_may_reach_the_largest_value() {
    let seed = u32::MAX - 200;
    let engine = GrainEngine::new(201, seed);
    assert_eq!(engine.relief_seed(), u32::MAX);
    assert_eq!(engine.layer_seeds()[200], u32::MAX);
}

#[test]
fn engines_of_equal_seeds_are_alike() {
    let one = GrainEngine::new(5, 42);
    let other = GrainEngine::new(5, 42);
    assert_eq!(one.layer_seeds(), other.layer_seeds());
    assert_eq!(one.chromatic_seed(), other.chromatic_seed());
    assert_eq!(one.relief_seed(), other.relief_seed());
}

#[test]
fn a_pass_grows_from_the_base_seed() {
    let engine = GrainEngine::for_config(&ArtisticGrainConfig::default()).unwrap();
    assert_eq!(engine.base_seed(), 42);
    assert_eq!(engine.layer_seeds(), &[42, 43, 44]);
    assert_eq!(engine.chromatic_seed(), 142);
    assert_eq!(engine.relief_seed(), 242);
}

#[test]
fn a_pass_without_layers_has_an_engine() {
    let config = ArtisticGrainConfig { layers: 0, ..ArtisticGrainConfig::default() };
    let engine = GrainEngine::for_config(&config).unwrap();
    assert_eq!(engine.layer_count(), 1);
}

#[test]
fn too_many_layers_have_no_engine() {
    let config = ArtisticGrainConfig { layers: u32::MAX, ..ArtisticGrainConfig::default() };
    assert!(GrainEngine::for_config(&config).is_none());
    let config = ArtisticGrainConfig { layers: u32::MAX - 40, ..ArtisticGrainConfig::default() };
    assert!(GrainEngine::for_config(&config).is_none());
}
