use qutecumbr::color::Rgba;
use qutecumbr::compose::overlay;
use qutecumbr::error::RenderError;
use qutecumbr::grid::{ModuleColor, ModuleGrid};
use qutecumbr::raster::Raster;

#[test]
fn filled_raster_reads_back() {
    let fill = Rgba { r: 10, g: 20, b: 30, a: 255 };
    let img = Raster::new_filled(7, 5, fill);
    assert_eq!(img.w(), 7);
    assert_eq!(img.h(), 5);
    assert_eq!(img.pixel_at(0, 0), Some(fill));
    assert_eq!(img.pixel_at(6, 4), Some(fill));
    assert_eq!(img.pixel_at(7, 0), None);
    assert_eq!(img.pixel_at(0, 5), None);
}

#[test]
fn bytes_round_trip() {
    let bytes: Vec<u8> = (0u8..24).collect();
    let img = Raster::from_bytes(3, 2, &bytes).expect("matching extents");
    assert_eq!(img.pixel_at(0, 0), Some(Rgba { r: 0, g: 1, b: 2, a: 3 }));
    assert_eq!(img.pixel_at(2, 1), Some(Rgba { r: 20, g: 21, b: 22, a: 23 }));
    assert_eq!(img.to_bytes(), bytes);
}

#[test]
fn from_bytes_rejects_mismatched_length() {
    let bytes: Vec<u8> = vec![0; 23];
    assert!(Raster::from_bytes(3, 2, &bytes).is_none());
}

#[test]
fn overlay_blends_inside_region_only() {
    let base = Raster::new_filled(4, 4, Rgba { r: 0, g: 0, b: 0, a: 255 });
    let layer = Raster::new_filled(2, 2, Rgba { r: 200, g: 100, b: 50, a: 255 });
    let out = overlay(&base, &layer, 1, 1);
    assert_eq!(out.pixel_at(0, 0), Some(Rgba { r: 0, g: 0, b: 0, a: 255 }));
    assert_eq!(out.pixel_at(1, 1), Some(Rgba { r: 200, g: 100, b: 50, a: 255 }));
    assert_eq!(out.pixel_at(2, 2), Some(Rgba { r: 200, g: 100, b: 50, a: 255 }));
    assert_eq!(out.pixel_at(3, 3), Some(Rgba { r: 0, g: 0, b: 0, a: 255 }));
    assert_eq!(out.pixel_at(3, 1), Some(Rgba { r: 0, g: 0, b: 0, a: 255 }));
}

#[test]
fn opaque_overlay_is_idempotent() {
    // re-running an everywhere-opaque overlay pass changes nothing
    let base = Raster::new_filled(6, 6, Rgba { r: 1, g: 2, b: 3, a: 255 });
    let layer = Raster::new_filled(3, 3, Rgba { r: 99, g: 88, b: 77, a: 255 });
    let once = overlay(&base, &layer, 2, 2);
    let twice = overlay(&once, &layer, 2, 2);
    assert_eq!(once.to_bytes(), twice.to_bytes());
}

#[test]
fn grid_rejects_bad_width_or_count() {
    let modules = vec![ModuleColor::Dark; 441];
    assert!(ModuleGrid::new(21, modules).is_ok());
    let modules = vec![ModuleColor::Dark; 441];
    assert_eq!(ModuleGrid::new(20, modules).unwrap_err(), RenderError::OutOfRange);
    let modules = vec![ModuleColor::Dark; 440];
    assert_eq!(ModuleGrid::new(21, modules).unwrap_err(), RenderError::OutOfRange);
}

#[test]
fn module_lookup_defensive() {
    let dark: Vec<bool> = (0..441).map(|i| i == 0).collect();
    let g = ModuleGrid::from_dark_flags(21, &dark).unwrap();
    assert_eq!(g.module_at(0, 0), Ok(ModuleColor::Dark));
    assert_eq!(g.module_at(1, 0), Ok(ModuleColor::Light));
    assert_eq!(g.module_at(21, 0), Err(RenderError::OutOfRange));
    assert_eq!(g.module_at(0, 21), Err(RenderError::OutOfRange));
}
