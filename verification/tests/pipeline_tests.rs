use qutecumbr::color::Rgba;
use qutecumbr::config::{resolve_level, EcLevel, RenderConfig};
use qutecumbr::error::RenderError;
use qutecumbr::grid::ModuleGrid;
use qutecumbr::pipeline::{encode_grid, render, render_from_grid};
use qutecumbr::raster::Raster;

fn solid_photo(w: usize, h: usize, px: Rgba) -> Raster {
    Raster::new_filled(w, h, px)
}

#[test]
fn version_one_canvas_geometry() {
    // grid W=21 (version 1), scale 16, quiet zone 64, no caption band:
    // the canvas is 21*16 + 128 = 464 pixels square
    let cfg = RenderConfig::default();
    let photo = solid_photo(5, 4, Rgba { r: 77, g: 77, b: 77, a: 255 });
    let canvas = render("HI", resolve_level("H"), Some(1), &cfg, &photo).expect("fits version 1");
    assert_eq!(canvas.w(), 464);
    assert_eq!(canvas.h(), 464);
    // the quiet zone shows the flat background color
    assert_eq!(canvas.pixel_at(0, 0), Some(Rgba { r: 58, g: 118, b: 240, a: 255 }));
    // the exact center of finder module (3, 3) is dark at full opacity
    assert_eq!(canvas.pixel_at(64 + 3 * 16 + 8, 64 + 3 * 16 + 8), Some(Rgba {
        r: 0,
        g: 0,
        b: 0,
        a: 255,
    }));
}

#[test]
fn caption_band_extends_height() {
    let mut cfg = RenderConfig::default();
    cfg.caption_band = 40;
    let photo = solid_photo(3, 3, Rgba { r: 1, g: 1, b: 1, a: 255 });
    let canvas = render("HI", EcLevel::H, Some(1), &cfg, &photo).expect("fits version 1");
    assert_eq!(canvas.w(), 464);
    assert_eq!(canvas.h(), 504);
}

#[test]
fn oversized_payload_is_an_encode_error() {
    // far beyond the capacity of version 1 at level H
    let payload = "0123456789".repeat(20);
    let cfg = RenderConfig::default();
    let photo = solid_photo(3, 3, Rgba { r: 1, g: 1, b: 1, a: 255 });
    let r = render(&payload, EcLevel::H, Some(1), &cfg, &photo);
    assert_eq!(r.unwrap_err(), RenderError::Encode);
}

#[test]
fn oversized_payload_refused_at_encoding() {
    let r = encode_grid(&"0123456789".repeat(20), EcLevel::H, Some(1));
    assert_eq!(r.unwrap_err(), RenderError::Encode);
}

#[test]
fn pinned_version_sets_grid_width() {
    let g1 = encode_grid("HI", EcLevel::H, Some(1)).unwrap();
    assert_eq!(g1.width, 21);
    let g5 = encode_grid("HI", EcLevel::H, Some(5)).unwrap();
    assert_eq!(g5.width, 37);
}

#[test]
fn auto_version_grows_with_payload() {
    let g = encode_grid(&"A".repeat(60), EcLevel::H, None).unwrap();
    assert!(g.width > 21);
    assert_eq!((g.width - 17) % 4, 0);
}

#[test]
fn identical_inputs_render_identical_canvases() {
    let dark: Vec<bool> = (0..441).map(|i| i % 3 == 0).collect();
    let g = ModuleGrid::from_dark_flags(21, &dark).unwrap();
    let cfg = RenderConfig::default();
    let photo = solid_photo(9, 7, Rgba { r: 13, g: 200, b: 80, a: 255 });
    let c1 = render_from_grid(&g, &cfg, &photo);
    let g2 = ModuleGrid::from_dark_flags(21, &dark).unwrap();
    let photo2 = solid_photo(9, 7, Rgba { r: 13, g: 200, b: 80, a: 255 });
    let c2 = render_from_grid(&g2, &cfg, &photo2);
    assert_eq!(c1.to_bytes(), c2.to_bytes());
}

#[test]
fn photo_shows_through_non_structural_module_centers() {
    // a solid red photo must dominate the canvas at the center of a
    // non-structural module, where the dot mask is fully transparent; this
    // fails if the resize step hands its input back unchanged, since a 3x3
    // photo would then cover only a corner of the symbol
    let dark: Vec<bool> = (0..441).map(|i| i % 2 == 0).collect();
    let g = ModuleGrid::from_dark_flags(21, &dark).unwrap();
    let cfg = RenderConfig::default();
    let photo = solid_photo(3, 3, Rgba { r: 255, g: 0, b: 0, a: 255 });
    let canvas = render_from_grid(&g, &cfg, &photo);
    // center of module (8, 8): canvas coordinate 64 + 8*16 + 8
    let p = canvas.pixel_at(64 + 8 * 16 + 8, 64 + 8 * 16 + 8).unwrap();
    assert!(p.r >= 240, "red channel too weak: {}", p.r);
    assert!(p.g <= 16, "green channel too strong: {}", p.g);
    assert!(p.b <= 16, "blue channel too strong: {}", p.b);
    assert_eq!(p.a, 255);
}
