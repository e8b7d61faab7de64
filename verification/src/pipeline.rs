use vstd::prelude::*;
use vstd::arithmetic::div_mod::lemma_fundamental_div_mod_converse;
use crate::color::{lemma_blend_opaque_src, Rgba};
use crate::compose::{canvas_h_spec, canvas_w_spec, compose_layers, compose_spec};
use crate::compose::{filled_seq_spec, lemma_opaque_overlay_idempotent, overlay_seq_spec};
use crate::config::{EcLevel, RenderConfig};
use crate::error::RenderError;
use crate::grid::{flag_color_spec, ModuleGrid};
use crate::mask::{
    bg_layer_spec, bg_pixel_spec, dot_layer_spec, dot_pixel_spec, lemma_structural_fully_opaque,
    mask_alpha_spec, module_px_spec, side_len_spec, structural_spec, synthesize,
};
use crate::raster::{lemma_rowmajor_index, Raster, MAX_SIDE};

verus! {

/// What `image::imageops::resize` with the CatmullRom filter returns for the
/// given source pixels and extents: a pure function of its arguments.
pub uninterp spec fn resized_of(src: Seq<Rgba>, sw: int, sh: int, tw: int, th: int) -> Seq<Rgba>;

/// Resize `src` to exactly `tw` by `th` pixels with a smooth resampling
/// filter. No aspect-ratio preservation: a known limitation, not a defect.
///
/// Relies on `image::imageops::resize` with `FilterType::CatmullRom`, with
/// `image::RgbaImage::{from_raw, into_raw}` carrying the pixels: the result
/// has exactly the requested extents and depends on nothing but the source
/// pixels and the requested extents.
#[verifier::external_body]
fn resize_raster(src: &Raster, tw: usize, th: usize) -> (r: Raster)
    requires
        src.wf(),
        1 <= src.width,
        1 <= src.height,
        1 <= tw <= MAX_SIDE,
        1 <= th <= MAX_SIDE,
    ensures
        r.wf(),
        r.width == tw,
        r.height == th,
        r.data@ == resized_of(
            src.data@,
            src.width as int,
            src.height as int,
            tw as int,
            th as int,
        ),
{
    let raw: Vec<u8> = src.data.iter().flat_map(|p| [p.r, p.g, p.b, p.a]).collect();
    let img = image::RgbaImage::from_raw(src.width as u32, src.height as u32, raw).unwrap();
    let filter = image::imageops::FilterType::CatmullRom;
    let out = image::imageops::resize(&img, tw as u32, th as u32, filter);
    let data = out.into_raw().chunks_exact(4).map(
        |c| Rgba { r: c[0], g: c[1], b: c[2], a: c[3] },
    ).collect();
    Raster { width: tw, height: th, data }
}

/// Whether the encoder accepts `payload` at this level and (optional pinned)
/// version: encoding is deterministic, so acceptance is a function of these
/// arguments alone. It fails exactly when the payload exceeds the capacity
/// of the level and version, which no few lines can state.
pub uninterp spec fn qr_fits(payload: Seq<char>, level: EcLevel, version: Option<u8>) -> bool;

/// The symbol the encoder produces when it accepts `payload`: the module
/// width and the row-major dark flags, a function of the arguments alone.
pub uninterp spec fn qr_grid_of(payload: Seq<char>, level: EcLevel, version: Option<u8>) -> (
    int,
    Seq<bool>,
);

/// Encode `payload` at the given error-correction level, optionally pinning
/// the symbol version.
///
/// Relies on `qrcode::QrCode::{with_version, with_error_correction_level}`,
/// with `QrCode::width` and `QrCode::to_colors` reading the result back:
/// encoding is a pure function of payload, level and pinned version, named
/// by `qr_fits` and `qr_grid_of` above; a successfully encoded symbol is a
/// square, row-major module grid of a normal version's width `4*v + 17` for
/// some `v` in `1..=40`; encoding fails (only and exactly as `qr_fits`
/// says, e.g. on a payload over the capacity of the level and version) with
/// an error the wrapper maps to `Encode`.
#[verifier::external_body]
fn qr_encode(payload: &str, level: EcLevel, version: Option<u8>) -> (r: Result<
    (usize, Vec<bool>),
    RenderError,
>)
    requires
        version matches Some(v) ==> 1 <= v <= 40,
    ensures
        r is Ok <==> qr_fits(payload@, level, version),
        r matches Ok(g) ==> (g.0 as int, g.1@) == qr_grid_of(payload@, level, version),
        r matches Ok(g) ==> 21 <= g.0 <= 177 && (g.0 - 17) % 4 == 0 && g.1@.len() == g.0 * g.0,
        r matches Ok(g) ==> (version matches Some(v) ==> g.0 == 4 * v + 17),
        r matches Err(e) ==> e == RenderError::Encode,
{
    let ec = match level {
        EcLevel::L => qrcode::EcLevel::L,
        EcLevel::M => qrcode::EcLevel::M,
        EcLevel::Q => qrcode::EcLevel::Q,
        EcLevel::H => qrcode::EcLevel::H,
    };
    let code = match version {
        Some(v) => qrcode::QrCode::with_version(payload, qrcode::Version::Normal(v as i16), ec),
        None => qrcode::QrCode::with_error_correction_level(payload, ec),
    };
    match code {
        Ok(c) => Ok((c.width(), c.to_colors().iter().map(|m| matches!(m, qrcode::Color::Dark)).collect())),
        Err(_) => Err(RenderError::Encode),
    }
}

/// The grid `g` is, module for module, the symbol `qr_grid_of` names for
/// these encoder arguments.
pub open spec fn grid_matches_spec(
    g: ModuleGrid,
    payload: Seq<char>,
    level: EcLevel,
    version: Option<u8>,
) -> bool {
    &&& g.width == qr_grid_of(payload, level, version).0
    &&& g.modules@ == qr_grid_of(payload, level, version).1.map_values(
        |b: bool| flag_color_spec(b),
    )
}

/// Obtain the module grid for `payload` from the external encoder: exactly
/// the grid `qr_grid_of` names, well-formed, when the payload fits the
/// requested level and version; `Encode` when it does not.
pub fn encode_grid(payload: &str, level: EcLevel, version: Option<u8>) -> (r: Result<
    ModuleGrid,
    RenderError,
>)
    requires
        version matches Some(v) ==> 1 <= v <= 40,
    ensures
        r is Ok <==> qr_fits(payload@, level, version),
        r matches Ok(g) ==> g.wf(),
        r matches Ok(g) ==> grid_matches_spec(g, payload@, level, version),
        r matches Ok(g) ==> (version matches Some(v) ==> g.width == 4 * v + 17),
        r matches Err(e) ==> e == RenderError::Encode,
{
    match qr_encode(payload, level, version) {
        Ok((w, dark)) => match ModuleGrid::from_dark_flags(w, &dark) {
            Ok(g) => Ok(g),
            Err(_) => unreached(),
        },
        Err(e) => Err(e),
    }
}

/// The finished canvas as a function of grid, configuration and photo: the
/// two synthesized layers and the photo resized to the symbol's extent,
/// composited over the flat background fill.
pub open spec fn render_spec(
    g: ModuleGrid,
    cfg: RenderConfig,
    photo: Seq<Rgba>,
    pw: int,
    ph: int,
) -> Seq<Rgba> {
    let side = side_len_spec(g, cfg);
    compose_spec(
        bg_layer_spec(g, cfg),
        dot_layer_spec(g, cfg),
        resized_of(photo, pw, ph, side, side),
        side,
        cfg,
    )
}

/// Render the full canvas from an already-encoded grid: synthesize the two
/// mask layers, resize the photo to the symbol extent, and composite. Total
/// over every well-formed grid and fitting configuration.
pub fn render_from_grid(g: &ModuleGrid, cfg: &RenderConfig, photo: &Raster) -> (r: Raster)
    requires
        g.wf(),
        cfg.valid(),
        cfg.fits(g.width as int),
        photo.wf(),
        1 <= photo.width,
        1 <= photo.height,
    ensures
        r.wf(),
        r.width == canvas_w_spec(side_len_spec(*g, *cfg), *cfg),
        r.height == canvas_h_spec(side_len_spec(*g, *cfg), *cfg),
        r.data@ == render_spec(*g, *cfg, photo.data@, photo.width as int, photo.height as int),
{
    proof {
        assert(21 <= g.width * cfg.scale) by (nonlinear_arith)
            requires
                21 <= g.width,
                1 <= cfg.scale,
        ;
    }
    let layers = synthesize(g, cfg);
    let side: usize = layers.0.w();
    let resized = resize_raster(photo, side, side);
    compose_layers(&layers.0, &layers.1, &resized, cfg)
}

/// The canvas `c` is the rendering under `cfg` and `photo` of the very grid
/// the encoder produces for `(payload, level, version)`.
pub open spec fn rendered_from(
    g: ModuleGrid,
    c: Raster,
    payload: Seq<char>,
    level: EcLevel,
    version: Option<u8>,
    cfg: RenderConfig,
    photo: Seq<Rgba>,
    pw: int,
    ph: int,
) -> bool {
    &&& g.wf()
    &&& grid_matches_spec(g, payload, level, version)
    &&& (version matches Some(v) ==> g.width == 4 * v + 17)
    &&& c.wf()
    &&& c.width == canvas_w_spec(side_len_spec(g, cfg), cfg)
    &&& c.height == canvas_h_spec(side_len_spec(g, cfg), cfg)
    &&& c.data@ == render_spec(g, cfg, photo, pw, ph)
}

/// The canvas `c` renders the encoder's grid for `(payload, level,
/// version)`. The grid's width and module sequence are pinned by
/// `grid_matches_spec`, and `render_spec` depends on the grid through those
/// alone (`lemma_render_deterministic`), so this determines every byte of
/// `c` from the encoder arguments, the configuration and the photo.
pub open spec fn render_ok_spec(
    c: Raster,
    payload: Seq<char>,
    level: EcLevel,
    version: Option<u8>,
    cfg: RenderConfig,
    photo: Seq<Rgba>,
    pw: int,
    ph: int,
) -> bool {
    exists|g: ModuleGrid| rendered_from(g, c, payload, level, version, cfg, photo, pw, ph)
}

/// Render `payload` over `photo`: encode, synthesize, resize, composite.
/// Succeeds exactly when the encoder accepts the payload (`qr_fits`), and
/// then the canvas is the rendering of the encoder's own grid; when the
/// payload does not fit, the error is `Encode` and nothing is allocated for
/// the canvas.
pub fn render(
    payload: &str,
    level: EcLevel,
    version: Option<u8>,
    cfg: &RenderConfig,
    photo: &Raster,
) -> (r: Result<Raster, RenderError>)
    requires
        version matches Some(v) ==> 1 <= v <= 40,
        cfg.valid(),
        177 * cfg.scale + 2 * cfg.quiet_zone + cfg.caption_band <= MAX_SIDE,
        photo.wf(),
        1 <= photo.width,
        1 <= photo.height,
    ensures
        r is Ok <==> qr_fits(payload@, level, version),
        r matches Ok(c) ==> render_ok_spec(
            c,
            payload@,
            level,
            version,
            *cfg,
            photo.data@,
            photo.width as int,
            photo.height as int,
        ),
        r matches Err(e) ==> e == RenderError::Encode,
{
    let grid = match encode_grid(payload, level, version) {
        Ok(g) => g,
        Err(e) => {
            return Err(e);
        },
    };
    proof {
        assert(grid.width * cfg.scale <= 177 * cfg.scale) by (nonlinear_arith)
            requires
                grid.width <= 177,
                0 <= cfg.scale,
        ;
    }
    let canvas = render_from_grid(&grid, cfg, photo);
    proof {
        assert(render_ok_spec(
            canvas,
            payload@,
            level,
            version,
            *cfg,
            photo.data@,
            photo.width as int,
            photo.height as int,
        )) by {
            assert(rendered_from(
                grid,
                canvas,
                payload@,
                level,
                version,
                *cfg,
                photo.data@,
                photo.width as int,
                photo.height as int,
            ));
        }
    }
    Ok(canvas)
}

/// Re-running the opaque background pass changes nothing: the synthesized
/// background layer is fully opaque everywhere, so blending it over a
/// canvas a second time reproduces the canvas of the first pass exactly.
pub proof fn lemma_background_pass_idempotent(
    g: ModuleGrid,
    cfg: RenderConfig,
    dst: Seq<Rgba>,
    dw: int,
    ox: int,
    oy: int,
)
    requires
        g.wf(),
        cfg.valid(),
        dw > 0,
        0 <= ox,
        0 <= oy,
    ensures
        overlay_seq_spec(
            overlay_seq_spec(
                dst,
                dw,
                bg_layer_spec(g, cfg),
                side_len_spec(g, cfg),
                side_len_spec(g, cfg),
                ox,
                oy,
            ),
            dw,
            bg_layer_spec(g, cfg),
            side_len_spec(g, cfg),
            side_len_spec(g, cfg),
            ox,
            oy,
        ) == overlay_seq_spec(
            dst,
            dw,
            bg_layer_spec(g, cfg),
            side_len_spec(g, cfg),
            side_len_spec(g, cfg),
            ox,
            oy,
        ),
{
    let side = side_len_spec(g, cfg);
    let bg = bg_layer_spec(g, cfg);
    assert(side * side >= 0) by (nonlinear_arith);
    assert forall|k: int| 0 <= k < bg.len() implies bg[k].a == 255 by {
        assert(bg[k] == bg_pixel_spec(g, cfg, k % side, k / side));
    }
    lemma_opaque_overlay_idempotent(dst, dw, bg, side, side, ox, oy);
}

/// In the finished canvas, every pixel of a scanner-critical module shows
/// that module's own color at full opacity, whatever the photo holds: the
/// dot-mask pass re-asserts the symbol over the photo there, so the symbol
/// stays scannable however dominant the photographic overlay is elsewhere.
pub proof fn lemma_structural_canvas_pixel(
    g: ModuleGrid,
    cfg: RenderConfig,
    photo: Seq<Rgba>,
    pw: int,
    ph: int,
    x: int,
    y: int,
)
    requires
        g.wf(),
        cfg.valid(),
        0 <= x < side_len_spec(g, cfg),
        0 <= y < side_len_spec(g, cfg),
        structural_spec(g.width as int, x / (cfg.scale as int), y / (cfg.scale as int)),
    ensures
        render_spec(g, cfg, photo, pw, ph)[(cfg.quiet_zone + y) * canvas_w_spec(
            side_len_spec(g, cfg),
            cfg,
        ) + cfg.quiet_zone + x] == module_px_spec(
            g.module_spec(x / (cfg.scale as int), y / (cfg.scale as int)),
            255,
        ),
{
    let side = side_len_spec(g, cfg);
    let qz = cfg.quiet_zone as int;
    let cw = canvas_w_spec(side, cfg);
    let ch = canvas_h_spec(side, cfg);
    let i = (qz + y) * cw + qz + x;
    assert(21 <= side) by (nonlinear_arith)
        requires
            21 <= g.width,
            1 <= cfg.scale,
            side == g.width * cfg.scale,
    ;
    lemma_rowmajor_index(cw, ch, qz + x, qz + y);
    lemma_fundamental_div_mod_converse(i, cw, qz + y, qz + x);
    let base = filled_seq_spec(cw * ch, cfg.background);
    let l1 = overlay_seq_spec(base, cw, bg_layer_spec(g, cfg), side, side, qz, qz);
    let l2 = overlay_seq_spec(l1, cw, resized_of(photo, pw, ph, side, side), side, side, qz, qz);
    let dm = dot_layer_spec(g, cfg);
    let j = y * side + x;
    lemma_rowmajor_index(side, side, x, y);
    lemma_fundamental_div_mod_converse(j, side, y, x);
    assert(dm[j] == dot_pixel_spec(g, cfg, x, y));
    lemma_structural_fully_opaque(g, cfg, x, y);
    assert(dm[j].a == 255);
    lemma_blend_opaque_src(dm[j], l2[i]);
    assert(render_spec(g, cfg, photo, pw, ph)[i] == dm[j]);
}

/// Outside the symbol's footprint — in the quiet zone and the caption band —
/// the finished canvas shows exactly the flat background color: none of the
/// three layer passes touches those pixels.
pub proof fn lemma_quiet_zone_canvas_pixel(
    g: ModuleGrid,
    cfg: RenderConfig,
    photo: Seq<Rgba>,
    pw: int,
    ph: int,
    x: int,
    y: int,
)
    requires
        g.wf(),
        cfg.valid(),
        0 <= x < canvas_w_spec(side_len_spec(g, cfg), cfg),
        0 <= y < canvas_h_spec(side_len_spec(g, cfg), cfg),
        !(cfg.quiet_zone <= x < cfg.quiet_zone + side_len_spec(g, cfg) && cfg.quiet_zone <= y
            < cfg.quiet_zone + side_len_spec(g, cfg)),
    ensures
        render_spec(g, cfg, photo, pw, ph)[y * canvas_w_spec(side_len_spec(g, cfg), cfg) + x]
            == cfg.background,
{
    let side = side_len_spec(g, cfg);
    let qz = cfg.quiet_zone as int;
    let cw = canvas_w_spec(side, cfg);
    let ch = canvas_h_spec(side, cfg);
    let i = y * cw + x;
    assert(21 <= side) by (nonlinear_arith)
        requires
            21 <= g.width,
            1 <= cfg.scale,
            side == g.width * cfg.scale,
    ;
    lemma_rowmajor_index(cw, ch, x, y);
    lemma_fundamental_div_mod_converse(i, cw, y, x);
    assert(filled_seq_spec(cw * ch, cfg.background)[i] == cfg.background);
}

/// Determinism: the canvas is a mathematical function of the grid's width
/// and module sequence, the configuration and the subject photo.
/// `render_from_grid` returns exactly `render_spec` of its inputs, so
/// identical inputs always produce a byte-identical canvas — even across
/// two separately built grids holding the same modules.
pub proof fn lemma_render_deterministic(
    g1: ModuleGrid,
    g2: ModuleGrid,
    cfg1: RenderConfig,
    cfg2: RenderConfig,
    photo1: Seq<Rgba>,
    photo2: Seq<Rgba>,
    pw1: int,
    ph1: int,
    pw2: int,
    ph2: int,
)
    requires
        g1.width == g2.width,
        g1.modules@ == g2.modules@,
        cfg1 == cfg2,
        photo1 == photo2,
        pw1 == pw2,
        ph1 == ph2,
    ensures
        render_spec(g1, cfg1, photo1, pw1, ph1) == render_spec(g2, cfg2, photo2, pw2, ph2),
{
    let side = side_len_spec(g1, cfg1);
    assert forall|i: int| 0 <= i < side * side implies bg_layer_spec(g1, cfg1)[i]
        == bg_layer_spec(g2, cfg2)[i] by {
        assert(g1.module_spec((i % side) / (cfg1.scale as int), (i / side) / (cfg1.scale as int))
            == g2.module_spec(
            (i % side) / (cfg2.scale as int),
            (i / side) / (cfg2.scale as int),
        ));
    }
    assert(bg_layer_spec(g1, cfg1) =~= bg_layer_spec(g2, cfg2));
    assert forall|i: int| 0 <= i < side * side implies dot_layer_spec(g1, cfg1)[i]
        == dot_layer_spec(g2, cfg2)[i] by {
        assert(g1.module_spec((i % side) / (cfg1.scale as int), (i / side) / (cfg1.scale as int))
            == g2.module_spec(
            (i % side) / (cfg2.scale as int),
            (i / side) / (cfg2.scale as int),
        ));
        assert(mask_alpha_spec(g1, cfg1, i % side, i / side) == mask_alpha_spec(
            g2,
            cfg2,
            i % side,
            i / side,
        ));
    }
    assert(dot_layer_spec(g1, cfg1) =~= dot_layer_spec(g2, cfg2));
}

} // verus!
