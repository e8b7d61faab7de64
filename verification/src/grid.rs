use vstd::prelude::*;
use crate::error::RenderError;

verus! {

/// One cell of the QR symbol's logical grid: either dark or light.
#[derive(Clone, Copy, PartialEq, Eq, Structural, Debug)]
pub enum ModuleColor {
    Dark,
    Light,
}

/// The module color an encoder's dark flag denotes.
pub open spec fn flag_color_spec(b: bool) -> ModuleColor {
    if b {
        ModuleColor::Dark
    } else {
        ModuleColor::Light
    }
}

/// An immutable view over the encoder's output: `width` modules per side and
/// one color per module, row-major from the top-left corner.
#[derive(Debug)]
pub struct ModuleGrid {
    pub width: usize,
    pub modules: Vec<ModuleColor>,
}

impl ModuleGrid {
    /// The grid is square with one entry per module, and its width is that of
    /// a normal QR version: `4*v + 17` for some `v` in `1..=40`.
    pub open spec fn wf(self) -> bool {
        &&& 21 <= self.width <= 177
        &&& (self.width - 17) % 4 == 0
        &&& self.modules@.len() == self.width * self.width
    }

    /// The module color at column `mx` of row `my`.
    pub open spec fn module_spec(self, mx: int, my: int) -> ModuleColor {
        self.modules@[my * self.width + mx]
    }

    /// Adopt an encoder's flat grid. Succeeds exactly when the width is that
    /// of a normal QR version and the module count matches it.
    pub fn new(width: usize, modules: Vec<ModuleColor>) -> (r: Result<ModuleGrid, RenderError>)
        ensures
            r is Ok <==> 21 <= width <= 177 && (width - 17) % 4 == 0 && modules@.len() == width
                * width,
            r matches Ok(g) ==> g.wf() && g.width == width && g.modules@ == modules@,
    {
        if width < 21 || width > 177 || (width - 17) % 4 != 0 {
            return Err(RenderError::OutOfRange);
        }
        proof {
            assert(width * width <= 177 * 177) by (nonlinear_arith)
                requires
                    width <= 177,
            ;
        }
        if modules.len() == width * width {
            Ok(ModuleGrid { width, modules })
        } else {
            Err(RenderError::OutOfRange)
        }
    }

    /// Adopt an encoder's flat grid of dark flags, `true` meaning dark.
    /// Succeeds exactly when `ModuleGrid::new` would.
    pub fn from_dark_flags(width: usize, dark: &Vec<bool>) -> (r: Result<ModuleGrid, RenderError>)
        ensures
            r is Ok <==> 21 <= width <= 177 && (width - 17) % 4 == 0 && dark@.len() == width
                * width,
            r matches Ok(g) ==> {
                &&& g.wf()
                &&& g.width == width
                &&& g.modules@ == dark@.map_values(|b: bool| flag_color_spec(b))
            },
    {
        if width < 21 || width > 177 || (width - 17) % 4 != 0 {
            return Err(RenderError::OutOfRange);
        }
        proof {
            assert(width * width <= 177 * 177) by (nonlinear_arith)
                requires
                    width <= 177,
            ;
        }
        if dark.len() != width * width {
            return Err(RenderError::OutOfRange);
        }
        let n: usize = dark.len();
        let mut modules: Vec<ModuleColor> = Vec::new();
        let mut i: usize = 0;
        while i < n
            invariant
                i <= n,
                n == dark@.len(),
                modules@.len() == i,
                forall|j: int| 0 <= j < i ==> modules@[j] == flag_color_spec(dark@[j]),
            decreases n - i,
        {
            if dark[i] {
                modules.push(ModuleColor::Dark);
            } else {
                modules.push(ModuleColor::Light);
            }
            i = i + 1;
        }
        proof {
            assert(modules@ =~= dark@.map_values(|b: bool| flag_color_spec(b)));
        }
        Ok(ModuleGrid { width, modules })
    }

    /// The module color at `(mx, my)`. Fails with `OutOfRange` exactly when
    /// the coordinate lies outside the grid; a correct caller never sees it.
    pub fn module_at(&self, mx: usize, my: usize) -> (r: Result<ModuleColor, RenderError>)
        requires
            self.wf(),
        ensures
            mx < self.width && my < self.width ==> r == Ok::<ModuleColor, RenderError>(
                self.module_spec(mx as int, my as int),
            ),
            !(mx < self.width && my < self.width) ==> r == Err::<ModuleColor, RenderError>(
                RenderError::OutOfRange,
            ),
    {
        if mx < self.width && my < self.width {
            proof {
                crate::raster::lemma_rowmajor_index(
                    self.width as int,
                    self.width as int,
                    mx as int,
                    my as int,
                );
                assert(self.width * self.width <= 177 * 177) by (nonlinear_arith)
                    requires
                        self.width <= 177,
                ;
            }
            Ok(self.modules[my * self.width + mx])
        } else {
            Err(RenderError::OutOfRange)
        }
    }
}

} // verus!
