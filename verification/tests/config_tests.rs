use qutecumbr::config::{clamp_version, resolve_level, EcLevel, RenderConfig};
use qutecumbr::color::Rgba;

#[test]
fn invalid_level_resolves_to_h() {
    assert_eq!(resolve_level("Z"), EcLevel::H);
    assert_eq!(resolve_level(""), EcLevel::H);
    assert_eq!(resolve_level("LM"), EcLevel::H);
    assert_eq!(resolve_level("l"), EcLevel::H);
}

#[test]
fn known_levels_resolve() {
    assert_eq!(resolve_level("L"), EcLevel::L);
    assert_eq!(resolve_level("M"), EcLevel::M);
    assert_eq!(resolve_level("Q"), EcLevel::Q);
    assert_eq!(resolve_level("H"), EcLevel::H);
}

#[test]
fn version_clamps_high() {
    assert_eq!(clamp_version(99), 40);
}

#[test]
fn version_clamps_low() {
    assert_eq!(clamp_version(-5), 1);
}

#[test]
fn version_in_range_kept() {
    assert_eq!(clamp_version(1), 1);
    assert_eq!(clamp_version(7), 7);
    assert_eq!(clamp_version(40), 40);
}

#[test]
fn default_config_documented_values() {
    let c = RenderConfig::default();
    assert_eq!(c.scale, 16);
    assert_eq!(c.quiet_zone, 64);
    assert_eq!(c.caption_band, 0);
    assert_eq!(c.background, Rgba { r: 58, g: 118, b: 240, a: 255 });
    assert_eq!(c.falloff_a, 220);
    assert_eq!(c.falloff_b, 60);
}
