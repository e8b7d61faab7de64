use qutecumbr::color::{blend_px, Rgba};
use qutecumbr::config::RenderConfig;
use qutecumbr::grid::{ModuleColor, ModuleGrid};
use qutecumbr::mask::{is_structural, mask_alpha, synthesize};

fn checkerboard(width: usize) -> ModuleGrid {
    let dark: Vec<bool> = (0..width * width).map(|i| i % 2 == 0).collect();
    ModuleGrid::from_dark_flags(width, &dark).expect("valid grid")
}

fn config(scale: usize, quiet_zone: usize, fa: u32, fb: u32) -> RenderConfig {
    let mut c = RenderConfig::default();
    c.scale = scale;
    c.quiet_zone = quiet_zone;
    c.falloff_a = fa;
    c.falloff_b = fb;
    c
}

#[test]
fn layers_share_dimensions_and_background_is_opaque() {
    let g = checkerboard(21);
    let cfg = config(2, 0, 220, 60);
    let (bg, dm) = synthesize(&g, &cfg);
    assert_eq!(bg.w(), 42);
    assert_eq!(bg.h(), 42);
    assert_eq!(dm.w(), bg.w());
    assert_eq!(dm.h(), bg.h());
    for y in 0..42 {
        for x in 0..42 {
            let b = bg.pixel_at(x, y).unwrap();
            let d = dm.pixel_at(x, y).unwrap();
            assert_eq!(b.a, 255);
            // both layers carry the module's flat color
            assert_eq!((b.r, b.g, b.b), (d.r, d.g, d.b));
            let dark = (x / 2 + (y / 2) * 21) % 2 == 0;
            if dark {
                assert_eq!((b.r, b.g, b.b), (0, 0, 0));
            } else {
                assert_eq!((b.r, b.g, b.b), (255, 255, 255));
            }
        }
    }
}

#[test]
fn structural_regions_detected() {
    // timing pattern
    assert!(is_structural(21, 6, 13));
    assert!(is_structural(21, 13, 6));
    // the three finder corners
    assert!(is_structural(21, 3, 3));
    assert!(is_structural(21, 20, 0));
    assert!(is_structural(21, 0, 20));
    // alignment band: strictly between W-10 and W-4 on both axes
    assert!(is_structural(21, 12, 12));
    assert!(!is_structural(21, 8, 8));
    assert!(!is_structural(21, 20, 20));
}

#[test]
fn structural_alpha_is_255_for_any_tuning() {
    let g = checkerboard(21);
    for (fa, fb) in [(220, 60), (500, 10), (1000, 0), (1, 0), (999, 998)] {
        let cfg = config(16, 0, fa, fb);
        // a pixel in the timing column, far from any module mid-line
        assert_eq!(mask_alpha(&g, &cfg, 100, 200), 255);
        // the exact center of finder module (3, 3)
        assert_eq!(mask_alpha(&g, &cfg, 56, 56), 255);
        // inside the alignment band
        assert_eq!(mask_alpha(&g, &cfg, 12 * 16 + 8, 12 * 16 + 8), 255);
    }
}

#[test]
fn falloff_alpha_exact_values() {
    let g = checkerboard(21);
    let cfg = config(16, 0, 220, 60);
    // module (8, 8) is non-structural; y sits on the module edge (255 there)
    // so the minimum is the horizontal axis alpha
    assert_eq!(mask_alpha(&g, &cfg, 128, 128), 255); // module corner
    assert_eq!(mask_alpha(&g, &cfg, 133, 128), 116); // on the ramp: 255*880/1920
    assert_eq!(mask_alpha(&g, &cfg, 136, 136), 0); // module center
}

#[test]
fn alpha_monotone_toward_module_edge() {
    let g = checkerboard(21);
    let cfg = config(16, 0, 220, 60);
    // walking from the center of module (8, 8) toward its edge, alpha never
    // decreases
    let mut last = 0u8;
    for step in 0..=8usize {
        let x = 136 - step; // rem 8 down to rem 0
        let a = mask_alpha(&g, &cfg, x, 128);
        assert!(a >= last, "alpha dropped from {last} to {a} at offset {step}");
        last = a;
    }
}

#[test]
fn blend_opaque_source_wins() {
    let s = Rgba { r: 1, g: 2, b: 3, a: 255 };
    let d = Rgba { r: 9, g: 8, b: 7, a: 6 };
    assert_eq!(blend_px(s, d), s);
}

#[test]
fn blend_transparent_source_keeps_destination() {
    let s = Rgba { r: 1, g: 2, b: 3, a: 0 };
    let d = Rgba { r: 9, g: 8, b: 7, a: 255 };
    assert_eq!(blend_px(s, d), d);
}

#[test]
fn blend_half_alpha_exact() {
    let s = Rgba { r: 100, g: 0, b: 255, a: 128 };
    let d = Rgba { r: 200, g: 0, b: 0, a: 255 };
    let out = blend_px(s, d);
    assert_eq!(out.r, 149); // (100*128 + 200*127) / 255
    assert_eq!(out.g, 0);
    assert_eq!(out.b, 128); // (255*128 + 0*127) / 255
    assert_eq!(out.a, 255); // 128 + 255*127/255
}
