use vstd::prelude::*;
use vstd::math::min;
use vstd::arithmetic::div_mod::{
    lemma_div_is_ordered, lemma_div_multiples_vanish, lemma_div_pos_is_pos,
    lemma_multiply_divide_lt,
};
use crate::color::Rgba;
use crate::config::RenderConfig;
use crate::grid::{ModuleColor, ModuleGrid};
use crate::raster::{lemma_rowmajor_index, Raster, MAX_SIDE};

verus! {

/// The timing pattern: the alternating line crossing row and column 6.
pub open spec fn in_timing_spec(mx: int, my: int) -> bool {
    mx == 6 || my == 6
}

/// The three finder-pattern corners of a symbol `w` modules wide: top-left,
/// top-right and bottom-left.
pub open spec fn in_finder_spec(w: int, mx: int, my: int) -> bool {
    ||| (mx <= 6 && my <= 6)
    ||| (mx >= w - 7 && my <= 6)
    ||| (mx <= 6 && my >= w - 7)
}

/// The fixed alignment-pattern band near the bottom-right interior.
pub open spec fn in_alignment_spec(w: int, mx: int, my: int) -> bool {
    w - 10 < mx < w - 4 && w - 10 < my < w - 4
}

/// Scanner-critical modules: the photo may never show through these,
/// whatever the falloff tuning says.
pub open spec fn structural_spec(w: int, mx: int, my: int) -> bool {
    ||| in_timing_spec(mx, my)
    ||| in_finder_spec(w, mx, my)
    ||| in_alignment_spec(w, mx, my)
}

/// Decide whether module `(mx, my)` is scanner-critical.
pub fn is_structural(w: usize, mx: usize, my: usize) -> (r: bool)
    requires
        21 <= w <= 177,
    ensures
        r == structural_spec(w as int, mx as int, my as int),
{
    if mx == 6 || my == 6 {
        return true;
    }
    if mx <= 6 && my <= 6 {
        return true;
    }
    if mx >= w - 7 && my <= 6 {
        return true;
    }
    if mx <= 6 && my >= w - 7 {
        return true;
    }
    mx > w - 10 && mx < w - 4 && my > w - 10 && my < w - 4
}

/// Twice the distance from the module's mid-line, scaled by the module size:
/// `2*scale*|1/2 - rem/scale|`, an integer in `0..=scale` for `rem` in
/// `0..scale`.
pub open spec fn edge_dist_spec(scale: int, rem: int) -> int {
    if 2 * rem <= scale {
        scale - 2 * rem
    } else {
        2 * rem - scale
    }
}

/// The smoothstep falloff, in integers. With `d = e/(2*scale)` the distance
/// from the mid-line and the tuning pair `(a, b) = (fa, fb)/1000`, this is
/// `255 * clamp((d - (a - b)) / b, 0, 1)` rounded toward zero; for `b == 0`
/// it is the limit step: fully opaque from `d >= a - b` on.
pub open spec fn falloff_alpha_spec(scale: int, e: int, fa: int, fb: int) -> int {
    let num = 1000 * e - (fa - fb) * 2 * scale;
    let den = 2 * scale * fb;
    if fb == 0 {
        if num >= 0 {
            255
        } else {
            0
        }
    } else if num <= 0 {
        0
    } else if num >= den {
        255
    } else {
        255 * num / den
    }
}

/// The directional opacity along one axis, from the pixel's offset `rem`
/// within its module.
pub open spec fn axis_alpha_spec(scale: int, rem: int, fa: int, fb: int) -> int {
    falloff_alpha_spec(scale, edge_dist_spec(scale, rem), fa, fb)
}

/// The falloff alpha always lands in `0..=255`.
pub proof fn lemma_falloff_alpha_bounds(scale: int, e: int, fa: int, fb: int)
    requires
        1 <= scale,
        0 <= fb,
    ensures
        0 <= falloff_alpha_spec(scale, e, fa, fb) <= 255,
{
    let num = 1000 * e - (fa - fb) * 2 * scale;
    let den = 2 * scale * fb;
    if fb != 0 && 0 < num < den {
        assert(2 * scale * fb > 0) by (nonlinear_arith)
            requires
                1 <= scale,
                1 <= fb,
        ;
        lemma_div_pos_is_pos(255 * num, den);
        lemma_div_is_ordered(255 * num, 255 * den, den);
        lemma_div_multiples_vanish(255, den);
    }
}

/// The falloff alpha never decreases as the pixel moves toward the module
/// edge: it is monotone in the mid-line distance.
pub proof fn lemma_falloff_alpha_monotone(scale: int, e1: int, e2: int, fa: int, fb: int)
    requires
        1 <= scale,
        0 <= fb,
        e1 <= e2,
    ensures
        falloff_alpha_spec(scale, e1, fa, fb) <= falloff_alpha_spec(scale, e2, fa, fb),
{
    let num1 = 1000 * e1 - (fa - fb) * 2 * scale;
    let num2 = 1000 * e2 - (fa - fb) * 2 * scale;
    let den = 2 * scale * fb;
    lemma_falloff_alpha_bounds(scale, e1, fa, fb);
    lemma_falloff_alpha_bounds(scale, e2, fa, fb);
    if fb != 0 {
        assert(2 * scale * fb > 0) by (nonlinear_arith)
            requires
                1 <= scale,
                1 <= fb,
        ;
        if 0 < num1 < den && 0 < num2 < den {
            lemma_div_is_ordered(255 * num1, 255 * num2, den);
        }
        if 0 < num1 < den && num2 >= den {
            lemma_div_is_ordered(255 * num1, 255 * den, den);
            lemma_div_multiples_vanish(255, den);
        }
    }
}

/// The combined alpha `min(ah, av)` equals the falloff alpha of the smaller
/// of the two mid-line distances.
pub proof fn lemma_falloff_alpha_of_min(scale: int, ex: int, ey: int, fa: int, fb: int)
    requires
        1 <= scale,
        0 <= fb,
    ensures
        min(
            falloff_alpha_spec(scale, ex, fa, fb),
            falloff_alpha_spec(scale, ey, fa, fb),
        ) == falloff_alpha_spec(scale, min(ex, ey), fa, fb),
{
    if ex <= ey {
        lemma_falloff_alpha_monotone(scale, ex, ey, fa, fb);
    } else {
        lemma_falloff_alpha_monotone(scale, ey, ex, fa, fb);
    }
}

/// The dot-mask alpha at pixel `(x, y)`: fully opaque on structural modules,
/// otherwise the smaller of the two directional opacities, so the photo only
/// shows through where the pixel is near the module center on both axes.
pub open spec fn mask_alpha_spec(g: ModuleGrid, cfg: RenderConfig, x: int, y: int) -> int {
    let s = cfg.scale as int;
    if structural_spec(g.width as int, x / s, y / s) {
        255
    } else {
        min(
            axis_alpha_spec(s, x % s, cfg.falloff_a as int, cfg.falloff_b as int),
            axis_alpha_spec(s, y % s, cfg.falloff_a as int, cfg.falloff_b as int),
        )
    }
}

/// The flat color a module paints: black for dark, white for light.
pub open spec fn module_px_spec(c: ModuleColor, alpha: int) -> Rgba {
    match c {
        ModuleColor::Dark => Rgba { r: 0, g: 0, b: 0, a: alpha as u8 },
        ModuleColor::Light => Rgba { r: 255, g: 255, b: 255, a: alpha as u8 },
    }
}

/// The background layer's pixel at `(x, y)`: the module color, fully opaque.
pub open spec fn bg_pixel_spec(g: ModuleGrid, cfg: RenderConfig, x: int, y: int) -> Rgba {
    let s = cfg.scale as int;
    module_px_spec(g.module_spec(x / s, y / s), 255)
}

/// The dot-mask layer's pixel at `(x, y)`: the module color at the mask
/// alpha.
pub open spec fn dot_pixel_spec(g: ModuleGrid, cfg: RenderConfig, x: int, y: int) -> Rgba {
    let s = cfg.scale as int;
    module_px_spec(g.module_spec(x / s, y / s), mask_alpha_spec(g, cfg, x, y))
}

/// The pixel extent of the synthesized layers: `width * scale` per side.
pub open spec fn side_len_spec(g: ModuleGrid, cfg: RenderConfig) -> int {
    g.width * cfg.scale
}

/// The whole background layer, flattened row-major: the module colors,
/// fully opaque everywhere.
pub open spec fn bg_layer_spec(g: ModuleGrid, cfg: RenderConfig) -> Seq<Rgba> {
    let side = side_len_spec(g, cfg);
    Seq::new((side * side) as nat, |i: int| bg_pixel_spec(g, cfg, i % side, i / side))
}

/// The whole dot-mask layer, flattened row-major.
pub open spec fn dot_layer_spec(g: ModuleGrid, cfg: RenderConfig) -> Seq<Rgba> {
    let side = side_len_spec(g, cfg);
    Seq::new((side * side) as nat, |i: int| dot_pixel_spec(g, cfg, i % side, i / side))
}

fn falloff_alpha(scale: usize, e: u64, fa: u32, fb: u32) -> (r: u8)
    requires
        1 <= scale <= MAX_SIDE,
        e <= scale,
        fb < fa <= 1000,
    ensures
        r == falloff_alpha_spec(scale as int, e as int, fa as int, fb as int),
{
    proof {
        lemma_falloff_alpha_bounds(scale as int, e as int, fa as int, fb as int);
        assert((fa - fb) as int * 2 * (scale as int) <= 2000 * MAX_SIDE) by (nonlinear_arith)
            requires
                fa - fb <= 1000,
                scale <= MAX_SIDE,
        ;
        assert(2 * (scale as int) * (fb as int) <= 2 * MAX_SIDE * 1000) by (nonlinear_arith)
            requires
                scale <= MAX_SIDE,
                fb <= 1000,
        ;
    }
    let num: i64 = 1000 * e as i64 - ((fa - fb) as i64) * 2 * (scale as i64);
    let den: i64 = 2 * (scale as i64) * (fb as i64);
    if fb == 0 {
        if num >= 0 {
            255
        } else {
            0
        }
    } else if num <= 0 {
        0
    } else if num >= den {
        255
    } else {
        ((255 * (num as u64)) / (den as u64)) as u8
    }
}

fn axis_alpha(scale: usize, rem: usize, fa: u32, fb: u32) -> (r: u8)
    requires
        1 <= scale <= MAX_SIDE,
        rem < scale,
        fb < fa <= 1000,
    ensures
        r == axis_alpha_spec(scale as int, rem as int, fa as int, fb as int),
{
    let e: u64 = if 2 * (rem as u64) <= scale as u64 {
        scale as u64 - 2 * (rem as u64)
    } else {
        2 * (rem as u64) - scale as u64
    };
    falloff_alpha(scale, e, fa, fb)
}

/// The dot-mask alpha at pixel `(x, y)` of the synthesized layers.
pub fn mask_alpha(g: &ModuleGrid, cfg: &RenderConfig, x: usize, y: usize) -> (r: u8)
    requires
        g.wf(),
        cfg.valid(),
        cfg.scale <= MAX_SIDE,
        x < side_len_spec(*g, *cfg),
        y < side_len_spec(*g, *cfg),
    ensures
        r == mask_alpha_spec(*g, *cfg, x as int, y as int),
{
    let mx = x / cfg.scale;
    let my = y / cfg.scale;
    proof {
        lemma_multiply_divide_lt(x as int, cfg.scale as int, g.width as int);
        lemma_multiply_divide_lt(y as int, cfg.scale as int, g.width as int);
        assert(cfg.scale as int * g.width as int == g.width as int * cfg.scale as int);
    }
    if is_structural(g.width, mx, my) {
        255
    } else {
        let ah = axis_alpha(cfg.scale, x % cfg.scale, cfg.falloff_a, cfg.falloff_b);
        let av = axis_alpha(cfg.scale, y % cfg.scale, cfg.falloff_a, cfg.falloff_b);
        if ah <= av {
            ah
        } else {
            av
        }
    }
}

fn module_px(c: ModuleColor, alpha: u8) -> (r: Rgba)
    ensures
        r == module_px_spec(c, alpha as int),
{
    match c {
        ModuleColor::Dark => Rgba { r: 0, g: 0, b: 0, a: alpha },
        ModuleColor::Light => Rgba { r: 255, g: 255, b: 255, a: alpha },
    }
}

/// Synthesize the two mask layers for `grid` at the configured scale: an
/// everywhere-opaque `background` in the modules' colors, and the `dot_mask`
/// whose alpha says how much of the photo beneath may remain visible. Both
/// are `width*scale` pixels square; the dot mask is fully opaque over
/// structural modules and follows the falloff elsewhere.
pub fn synthesize(g: &ModuleGrid, cfg: &RenderConfig) -> (r: (Raster, Raster))
    requires
        g.wf(),
        cfg.valid(),
        cfg.fits(g.width as int),
    ensures
        r.0.wf(),
        r.1.wf(),
        r.0.width == side_len_spec(*g, *cfg),
        r.0.height == r.0.width,
        r.1.width == r.0.width,
        r.1.height == r.0.width,
        forall|i: int|
            0 <= i < r.0.data@.len() ==> r.0.data@[i] == bg_pixel_spec(
                *g,
                *cfg,
                i % side_len_spec(*g, *cfg),
                i / side_len_spec(*g, *cfg),
            ),
        forall|i: int|
            0 <= i < r.1.data@.len() ==> r.1.data@[i] == dot_pixel_spec(
                *g,
                *cfg,
                i % side_len_spec(*g, *cfg),
                i / side_len_spec(*g, *cfg),
            ),
        forall|i: int| 0 <= i < r.0.data@.len() ==> r.0.data@[i].a == 255,
        r.0.data@ == bg_layer_spec(*g, *cfg),
        r.1.data@ == dot_layer_spec(*g, *cfg),
{
    proof {
        assert(cfg.scale <= g.width * cfg.scale) by (nonlinear_arith)
            requires
                1 <= g.width,
                1 <= cfg.scale,
        ;
    }
    let side: usize = g.width * cfg.scale;
    proof {
        assert(side * side <= MAX_SIDE * MAX_SIDE) by (nonlinear_arith)
            requires
                side <= MAX_SIDE,
        ;
    }
    let n: usize = side * side;
    let mut bg: Vec<Rgba> = Vec::new();
    let mut dm: Vec<Rgba> = Vec::new();
    let mut i: usize = 0;
    while i < n
        invariant
            g.wf(),
            cfg.valid(),
            cfg.scale <= MAX_SIDE,
            side == side_len_spec(*g, *cfg),
            n == side * side,
            i <= n,
            bg@.len() == i,
            dm@.len() == i,
            forall|j: int|
                0 <= j < i ==> bg@[j] == bg_pixel_spec(
                    *g,
                    *cfg,
                    j % side as int,
                    j / side as int,
                ),
            forall|j: int|
                0 <= j < i ==> dm@[j] == dot_pixel_spec(
                    *g,
                    *cfg,
                    j % side as int,
                    j / side as int,
                ),
        decreases n - i,
    {
        let x: usize = i % side;
        let y: usize = i / side;
        proof {
            lemma_multiply_divide_lt(i as int, side as int, side as int);
            lemma_multiply_divide_lt(x as int, cfg.scale as int, g.width as int);
            lemma_multiply_divide_lt(y as int, cfg.scale as int, g.width as int);
            assert(cfg.scale as int * g.width as int == g.width as int * cfg.scale as int);
        }
        let mx = x / cfg.scale;
        let my = y / cfg.scale;
        proof {
            lemma_rowmajor_index(g.width as int, g.width as int, mx as int, my as int);
            assert(g.width * g.width <= 177 * 177) by (nonlinear_arith)
                requires
                    g.width <= 177,
            ;
        }
        let c = g.modules[my * g.width + mx];
        let alpha = mask_alpha(g, cfg, x, y);
        bg.push(module_px(c, 255));
        dm.push(module_px(c, alpha));
        i = i + 1;
    }
    proof {
        assert(bg@ =~= bg_layer_spec(*g, *cfg));
        assert(dm@ =~= dot_layer_spec(*g, *cfg));
    }
    (
        Raster { width: side, height: side, data: bg },
        Raster { width: side, height: side, data: dm },
    )
}

/// On a pixel whose module is scanner-critical, the dot mask is fully
/// opaque. The falloff pair plays no part: this holds for every valid
/// configuration.
pub proof fn lemma_structural_fully_opaque(g: ModuleGrid, cfg: RenderConfig, x: int, y: int)
    requires
        g.wf(),
        cfg.valid(),
        structural_spec(g.width as int, x / (cfg.scale as int), y / (cfg.scale as int)),
    ensures
        mask_alpha_spec(g, cfg, x, y) == 255,
        dot_pixel_spec(g, cfg, x, y).a == 255,
{
}

/// On non-structural modules the dot-mask alpha is a non-decreasing function
/// of the pixel's smaller mid-line distance: a pixel nearer a module
/// boundary never gets a lower alpha than one nearer its center, for a fixed
/// falloff pair.
pub proof fn lemma_mask_alpha_monotone(
    g: ModuleGrid,
    cfg: RenderConfig,
    x1: int,
    y1: int,
    x2: int,
    y2: int,
)
    requires
        g.wf(),
        cfg.valid(),
        0 <= x1 && 0 <= y1 && 0 <= x2 && 0 <= y2,
        !structural_spec(g.width as int, x1 / (cfg.scale as int), y1 / (cfg.scale as int)),
        !structural_spec(g.width as int, x2 / (cfg.scale as int), y2 / (cfg.scale as int)),
        min(
            edge_dist_spec(cfg.scale as int, x1 % (cfg.scale as int)),
            edge_dist_spec(cfg.scale as int, y1 % (cfg.scale as int)),
        ) <= min(
            edge_dist_spec(cfg.scale as int, x2 % (cfg.scale as int)),
            edge_dist_spec(cfg.scale as int, y2 % (cfg.scale as int)),
        ),
    ensures
        mask_alpha_spec(g, cfg, x1, y1) <= mask_alpha_spec(g, cfg, x2, y2),
{
    let s = cfg.scale as int;
    let fa = cfg.falloff_a as int;
    let fb = cfg.falloff_b as int;
    lemma_falloff_alpha_of_min(
        s,
        edge_dist_spec(s, x1 % s),
        edge_dist_spec(s, y1 % s),
        fa,
        fb,
    );
    lemma_falloff_alpha_of_min(
        s,
        edge_dist_spec(s, x2 % s),
        edge_dist_spec(s, y2 % s),
        fa,
        fb,
    );
    lemma_falloff_alpha_monotone(
        s,
        min(edge_dist_spec(s, x1 % s), edge_dist_spec(s, y1 % s)),
        min(edge_dist_spec(s, x2 % s), edge_dist_spec(s, y2 % s)),
        fa,
        fb,
    );
}

} // verus!
