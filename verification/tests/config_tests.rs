use film_grain::config::ArtisticGrainConfig;
use film_grain::error::GrainError;
use film_grain::ieee::Float64;

fn of(value: f64) -> Float64 {
    Float64 { bits: value.to_bits() }
}

fn with_size(size: f64) -> ArtisticGrainConfig {
    ArtisticGrainConfig { size: of(size), ..ArtisticGrainConfig::default() }
}

#[test]
fn defaults_are_the_documented_values() {
    let c = ArtisticGrainConfig::default();
    assert_eq!(f64::from_bits(c.size.bits), 25.0);
    assert_eq!(f64::from_bits(c.intensity.bits), 0.8);
    assert_eq!(f64::from_bits(c.crystal_sharpness.bits), 8.0);
    assert_eq!(f64::from_bits(c.saturation.bits), 1.0);
    assert_eq!(f64::from_bits(c.exposure.bits), 0.0);
    assert_eq!(f64::from_bits(c.shadow_grain.bits), 1.2);
    assert_eq!(f64::from_bits(c.midtone_grain.bits), 1.0);
    assert_eq!(f64::from_bits(c.highlight_grain.bits), 0.6);
    assert_eq!(f64::from_bits(c.tonal_smoothness.bits), 0.15);
    assert_eq!(f64::from_bits(c.depth.bits), 0.4);
    assert_eq!(f64::from_bits(c.chromatic.bits), 2.0);
    assert_eq!(f64::from_bits(c.relief.bits), 0.3);
    assert_eq!(c.layers, 3);
}

#[test]
fn default_exposure_is_positive_zero() {
    assert_eq!(ArtisticGrainConfig::default().exposure.bits, 0);
}

#[test]
fn defaults_validate() {
    assert_eq!(ArtisticGrainConfig::default().validate(), Ok(()));
}

#[test]
fn positive_sizes_validate() {
    for size in [5e-324, 0.001, 1.0, 25.0, 1e300, f64::INFINITY] {
        assert_eq!(with_size(size).validate(), Ok(()), "size {size:?}");
    }
}

#[test]
fn zero_size_is_refused() {
    assert_eq!(with_size(0.0).validate(), Err(GrainError::InvalidConfig));
    assert_eq!(with_size(-0.0).validate(), Err(GrainError::InvalidConfig));
}

#[test]
fn negative_size_is_refused() {
    assert_eq!(with_size(-25.0).validate(), Err(GrainError::InvalidConfig));
    assert_eq!(with_size(f64::NEG_INFINITY).validate(), Err(GrainError::InvalidConfig));
}

#[test]
fn size_that_is_no_number_is_refused() {
    assert_eq!(with_size(f64::NAN).validate(), Err(GrainError::InvalidConfig));
}

#[test]
fn only_the_size_decides() {
    let mut c = ArtisticGrainConfig::default();
    c.intensity = of(1000.0);
    c.tonal_smoothness = of(0.0);
    c.exposure = of(f64::NAN);
    c.layers = 0;
    assert_eq!(c.validate(), Ok(()));
}
