use vstd::prelude::*;
use vstd::arithmetic::div_mod::lemma_multiply_divide_lt;
use crate::color::{blend_px, blend_px_spec, lemma_blend_opaque_src, Rgba};
use crate::config::RenderConfig;
use crate::raster::{lemma_rowmajor_index, Raster, MAX_SIDE};

verus! {

/// Layer `src` (`sw` by `sh` pixels) blended over `dst` (width `dw`),
/// anchored at `(ox, oy)`: pixels under the layer take the "over" blend,
/// all others keep their value.
pub open spec fn overlay_seq_spec(
    dst: Seq<Rgba>,
    dw: int,
    src: Seq<Rgba>,
    sw: int,
    sh: int,
    ox: int,
    oy: int,
) -> Seq<Rgba> {
    Seq::new(
        dst.len(),
        |i: int|
            {
                let x = i % dw;
                let y = i / dw;
                if ox <= x < ox + sw && oy <= y < oy + sh {
                    blend_px_spec(src[(y - oy) * sw + (x - ox)], dst[i])
                } else {
                    dst[i]
                }
            },
    )
}

/// A buffer of `n` copies of `fill`.
pub open spec fn filled_seq_spec(n: int, fill: Rgba) -> Seq<Rgba> {
    Seq::new(n as nat, |i: int| fill)
}

/// Canvas width for a symbol layer of `side` pixels: the layer plus the
/// quiet zone on each flank.
pub open spec fn canvas_w_spec(side: int, cfg: RenderConfig) -> int {
    side + 2 * cfg.quiet_zone
}

/// Canvas height: the width plus the optional caption band.
pub open spec fn canvas_h_spec(side: int, cfg: RenderConfig) -> int {
    side + 2 * cfg.quiet_zone + cfg.caption_band
}

/// The finished canvas: flat background fill, then the opaque QR background
/// layer, then the (resized) subject photo, then the dot mask, each blended
/// in turn at offset `(quiet_zone, quiet_zone)`.
pub open spec fn compose_spec(
    bg: Seq<Rgba>,
    dm: Seq<Rgba>,
    photo: Seq<Rgba>,
    side: int,
    cfg: RenderConfig,
) -> Seq<Rgba> {
    let cw = canvas_w_spec(side, cfg);
    let ch = canvas_h_spec(side, cfg);
    let qz = cfg.quiet_zone as int;
    let base = filled_seq_spec(cw * ch, cfg.background);
    let with_bg = overlay_seq_spec(base, cw, bg, side, side, qz, qz);
    let with_photo = overlay_seq_spec(with_bg, cw, photo, side, side, qz, qz);
    overlay_seq_spec(with_photo, cw, dm, side, side, qz, qz)
}

/// Blend layer `src` over `dst` anchored at `(ox, oy)`, returning the new
/// canvas. The layer must lie fully inside the destination.
pub fn overlay(dst: &Raster, src: &Raster, ox: usize, oy: usize) -> (r: Raster)
    requires
        dst.wf(),
        src.wf(),
        ox + src.width <= dst.width,
        oy + src.height <= dst.height,
    ensures
        r.wf(),
        r.width == dst.width,
        r.height == dst.height,
        r.data@ == overlay_seq_spec(
            dst.data@,
            dst.width as int,
            src.data@,
            src.width as int,
            src.height as int,
            ox as int,
            oy as int,
        ),
{
    let dw = dst.width;
    let sw = src.width;
    let sh = src.height;
    let n = dst.data.len();
    let ghost target = overlay_seq_spec(
        dst.data@,
        dw as int,
        src.data@,
        sw as int,
        sh as int,
        ox as int,
        oy as int,
    );
    let mut out: Vec<Rgba> = Vec::new();
    let mut i: usize = 0;
    while i < n
        invariant
            dst.wf(),
            src.wf(),
            ox + sw <= dw,
            oy + sh <= dst.height,
            dw == dst.width,
            sw == src.width,
            sh == src.height,
            n == dst.data@.len(),
            target == overlay_seq_spec(
                dst.data@,
                dw as int,
                src.data@,
                sw as int,
                sh as int,
                ox as int,
                oy as int,
            ),
            i <= n,
            out@.len() == i,
            forall|j: int| 0 <= j < i ==> out@[j] == target[j],
        decreases n - i,
    {
        proof {
            assert(dw > 0) by (nonlinear_arith)
                requires
                    i < n,
                    n == dw * dst.height,
            ;
            lemma_multiply_divide_lt(i as int, dw as int, dst.height as int);
        }
        let x: usize = i % dw;
        let y: usize = i / dw;
        let p: Rgba = if ox <= x && x < ox + sw && oy <= y && y < oy + sh {
            proof {
                lemma_rowmajor_index(sw as int, sh as int, x as int - ox, y as int - oy);
                assert(sw * sh <= MAX_SIDE * MAX_SIDE) by (nonlinear_arith)
                    requires
                        sw <= MAX_SIDE,
                        sh <= MAX_SIDE,
                ;
            }
            blend_px(src.data[(y - oy) * sw + (x - ox)], dst.data[i])
        } else {
            dst.data[i]
        };
        out.push(p);
        i = i + 1;
    }
    proof {
        assert(out@ =~= target);
    }
    Raster { width: dst.width, height: dst.height, data: out }
}

/// Allocate the canvas for a `side` pixels square symbol, fill it with the
/// flat background color, and composite the three layers over it in order:
/// opaque QR background, subject photo (already resized to `side` square),
/// dot mask.
pub fn compose_layers(
    background: &Raster,
    dot_mask: &Raster,
    photo: &Raster,
    cfg: &RenderConfig,
) -> (r: Raster)
    requires
        background.wf(),
        dot_mask.wf(),
        photo.wf(),
        background.height == background.width,
        dot_mask.width == background.width,
        dot_mask.height == background.width,
        photo.width == background.width,
        photo.height == background.width,
        background.width + 2 * cfg.quiet_zone + cfg.caption_band <= MAX_SIDE,
    ensures
        r.wf(),
        r.width == canvas_w_spec(background.width as int, *cfg),
        r.height == canvas_h_spec(background.width as int, *cfg),
        r.data@ == compose_spec(
            background.data@,
            dot_mask.data@,
            photo.data@,
            background.width as int,
            *cfg,
        ),
{
    let side = background.width;
    let cw: usize = side + 2 * cfg.quiet_zone;
    let ch: usize = side + 2 * cfg.quiet_zone + cfg.caption_band;
    let base = Raster::new_filled(cw, ch, cfg.background);
    proof {
        assert(base.data@ =~= filled_seq_spec(cw as int * ch as int, cfg.background));
    }
    let with_bg = overlay(&base, background, cfg.quiet_zone, cfg.quiet_zone);
    let with_photo = overlay(&with_bg, photo, cfg.quiet_zone, cfg.quiet_zone);
    overlay(&with_photo, dot_mask, cfg.quiet_zone, cfg.quiet_zone)
}

/// Blending an everywhere-opaque layer a second time changes nothing:
/// fully opaque pixels are stable fixed points of the "over" operator, so
/// re-running such an overlay pass is idempotent.
pub proof fn lemma_opaque_overlay_idempotent(
    dst: Seq<Rgba>,
    dw: int,
    src: Seq<Rgba>,
    sw: int,
    sh: int,
    ox: int,
    oy: int,
)
    requires
        dw > 0,
        0 <= ox,
        0 <= oy,
        src.len() == sw * sh,
        forall|k: int| 0 <= k < src.len() ==> src[k].a == 255,
    ensures
        overlay_seq_spec(
            overlay_seq_spec(dst, dw, src, sw, sh, ox, oy),
            dw,
            src,
            sw,
            sh,
            ox,
            oy,
        ) == overlay_seq_spec(dst, dw, src, sw, sh, ox, oy),
{
    let once = overlay_seq_spec(dst, dw, src, sw, sh, ox, oy);
    let twice = overlay_seq_spec(once, dw, src, sw, sh, ox, oy);
    assert forall|i: int| 0 <= i < dst.len() implies twice[i] == once[i] by {
        let x = i % dw;
        let y = i / dw;
        if ox <= x < ox + sw && oy <= y < oy + sh {
            lemma_rowmajor_index(sw, sh, x - ox, y - oy);
            lemma_blend_opaque_src(src[(y - oy) * sw + (x - ox)], once[i]);
        }
    }
    assert(twice =~= once);
}

} // verus!
