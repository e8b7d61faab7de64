use vstd::prelude::*;
use crate::color::Rgba;

verus! {

/// Largest pixel extent, on either axis, that the library will allocate.
/// Keeps every index computation comfortably inside `usize` on any target.
pub const MAX_SIDE: usize = 16384;

/// An owned RGBA raster buffer, row-major from the top-left corner.
#[derive(Debug)]
pub struct Raster {
    pub width: usize,
    pub height: usize,
    pub data: Vec<Rgba>,
}

/// The four bytes starting at `bytes[4*i]` spell out the pixel `p`.
pub open spec fn px_bytes_at(bytes: Seq<u8>, i: int, p: Rgba) -> bool {
    &&& bytes[4 * i] == p.r
    &&& bytes[4 * i + 1] == p.g
    &&& bytes[4 * i + 2] == p.b
    &&& bytes[4 * i + 3] == p.a
}

/// A row-major index stays inside the buffer.
pub proof fn lemma_rowmajor_index(w: int, h: int, x: int, y: int)
    requires
        0 <= x < w,
        0 <= y < h,
    ensures
        0 <= y * w + x < w * h,
{
    assert(0 <= y * w + x < w * h) by (nonlinear_arith)
        requires
            0 <= x < w,
            0 <= y < h,
    ;
}

impl Raster {
    /// The buffer holds exactly one pixel per coordinate and its extents are
    /// within the library's allocation bound.
    pub open spec fn wf(self) -> bool {
        &&& self.data@.len() == self.width * self.height
        &&& self.width <= MAX_SIDE
        &&& self.height <= MAX_SIDE
    }

    /// The pixel at column `x` of row `y`.
    pub open spec fn pix(self, x: int, y: int) -> Rgba {
        self.data@[y * self.width + x]
    }

    /// Allocate a raster of the given extents with every pixel set to `fill`.
    pub fn new_filled(width: usize, height: usize, fill: Rgba) -> (r: Raster)
        requires
            width <= MAX_SIDE,
            height <= MAX_SIDE,
        ensures
            r.wf(),
            r.width == width,
            r.height == height,
            forall|i: int| 0 <= i < r.data@.len() ==> r.data@[i] == fill,
    {
        proof {
            assert(width * height <= MAX_SIDE * MAX_SIDE) by (nonlinear_arith)
                requires
                    width <= MAX_SIDE,
                    height <= MAX_SIDE,
            ;
        }
        let n: usize = width * height;
        let mut data: Vec<Rgba> = Vec::new();
        let mut i: usize = 0;
        while i < n
            invariant
                i <= n,
                data@.len() == i,
                forall|j: int| 0 <= j < i ==> data@[j] == fill,
            decreases n - i,
        {
            data.push(fill);
            i = i + 1;
        }
        Raster { width, height, data }
    }

    /// Width in pixels.
    pub fn w(&self) -> (r: usize)
        ensures
            r == self.width,
    {
        self.width
    }

    /// Height in pixels.
    pub fn h(&self) -> (r: usize)
        ensures
            r == self.height,
    {
        self.height
    }

    /// The pixel at `(x, y)`, or `None` when the coordinate lies outside.
    pub fn pixel_at(&self, x: usize, y: usize) -> (r: Option<Rgba>)
        requires
            self.wf(),
        ensures
            x < self.width && y < self.height ==> r == Some(self.pix(x as int, y as int)),
            !(x < self.width && y < self.height) ==> r is None,
    {
        if x < self.width && y < self.height {
            proof {
                lemma_rowmajor_index(self.width as int, self.height as int, x as int, y as int);
                assert(self.width * self.height <= MAX_SIDE * MAX_SIDE) by (nonlinear_arith)
                    requires
                        self.width <= MAX_SIDE,
                        self.height <= MAX_SIDE,
                ;
            }
            Some(self.data[y * self.width + x])
        } else {
            None
        }
    }

    /// Flatten into raw bytes, four per pixel in `r, g, b, a` order.
    pub fn to_bytes(&self) -> (r: Vec<u8>)
        requires
            self.wf(),
        ensures
            r@.len() == 4 * self.data@.len(),
            forall|i: int| 0 <= i < self.data@.len() ==> #[trigger] px_bytes_at(r@, i, self.data@[i]),
    {
        proof {
            assert(self.width * self.height <= MAX_SIDE * MAX_SIDE) by (nonlinear_arith)
                requires
                    self.width <= MAX_SIDE,
                    self.height <= MAX_SIDE,
            ;
        }
        let n: usize = self.data.len();
        let mut out: Vec<u8> = Vec::new();
        let mut i: usize = 0;
        while i < n
            invariant
                i <= n,
                n == self.data@.len(),
                n <= MAX_SIDE * MAX_SIDE,
                out@.len() == 4 * i,
                forall|j: int| 0 <= j < i ==> #[trigger] px_bytes_at(out@, j, self.data@[j]),
            decreases n - i,
        {
            let ghost out0 = out@;
            let ghost i0 = i as int;
            let p = self.data[i];
            out.push(p.r);
            out.push(p.g);
            out.push(p.b);
            out.push(p.a);
            i = i + 1;
            proof {
                assert forall|j: int| 0 <= j < i implies #[trigger] px_bytes_at(
                    out@,
                    j,
                    self.data@[j],
                ) by {
                    if j < i0 {
                        assert(px_bytes_at(out0, j, self.data@[j]));
                        assert(out@[4 * j] == out0[4 * j]);
                        assert(out@[4 * j + 1] == out0[4 * j + 1]);
                        assert(out@[4 * j + 2] == out0[4 * j + 2]);
                        assert(out@[4 * j + 3] == out0[4 * j + 3]);
                    } else {
                        assert(out@[4 * j] == p.r);
                    }
                }
            }
        }
        out
    }

    /// Rebuild a raster from raw bytes, four per pixel in `r, g, b, a` order.
    /// Returns `None` exactly when the extents are out of bounds or the byte
    /// count does not match them.
    pub fn from_bytes(width: usize, height: usize, bytes: &Vec<u8>) -> (r: Option<Raster>)
        ensures
            r is Some <==> width <= MAX_SIDE && height <= MAX_SIDE && bytes@.len() == 4 * (
            width * height),
            r matches Some(img) ==> {
                &&& img.wf()
                &&& img.width == width
                &&& img.height == height
                &&& forall|i: int|
                    0 <= i < img.data@.len() ==> #[trigger] px_bytes_at(bytes@, i, img.data@[i])
            },
    {
        if width > MAX_SIDE || height > MAX_SIDE {
            return None;
        }
        proof {
            assert(width * height <= MAX_SIDE * MAX_SIDE) by (nonlinear_arith)
                requires
                    width <= MAX_SIDE,
                    height <= MAX_SIDE,
            ;
        }
        let n: usize = width * height;
        if bytes.len() != 4 * n {
            return None;
        }
        let mut data: Vec<Rgba> = Vec::new();
        let mut i: usize = 0;
        while i < n
            invariant
                i <= n,
                n == width * height,
                n <= MAX_SIDE * MAX_SIDE,
                bytes@.len() == 4 * n,
                data@.len() == i,
                forall|j: int| 0 <= j < i ==> #[trigger] px_bytes_at(bytes@, j, data@[j]),
            decreases n - i,
        {
            data.push(
                Rgba {
                    r: bytes[4 * i],
                    g: bytes[4 * i + 1],
                    b: bytes[4 * i + 2],
                    a: bytes[4 * i + 3],
                },
            );
            i = i + 1;
        }
        Some(Raster { width, height, data })
    }
}

} // verus!
