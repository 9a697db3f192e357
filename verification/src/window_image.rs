//! The pixel buffer that a capture produces.

use vstd::prelude::*;
use vstd::slice::slice_subrange;
use crate::capture::{CaptureBackend, CaptureError, WindowGeometry};
use crate::capture_plan::{spec_begin, whole_client_area, CapturePlan};
use crate::window_controller::WindowController;

verus! {

/// A captured image: `width * height` pixels in row-major, top-down order,
/// each packed as `0xAARRGGBB`.
pub struct WindowImage {
    pub data: Vec<u32>,
    pub width: usize,
    pub height: usize,
}

/// How many rows a buffer of `len` pixels splits into when every row but the
/// last holds `width` pixels.
pub open spec fn row_count(len: int, width: int) -> int {
    (len + width - 1) / width
}

/// The `i`-th row of `data`, cut every `width` pixels; the last row may be short.
pub open spec fn row_of(data: Seq<u32>, width: int, i: int) -> Seq<u32> {
    data.subrange(i * width, if (i + 1) * width <= data.len() { (i + 1) * width } else { data.len() as int })
}

proof fn lemma_row_count(len: int, width: int, n: int)
    requires
        width > 0,
        len >= 0,
        n >= 0,
        n * width >= len,
        n > 0 ==> (n - 1) * width < len,
    ensures
        n == row_count(len, width),
{
    let total = len + width - 1;
    assert(n * width <= total < (n + 1) * width) by (nonlinear_arith)
        requires
            width > 0,
            n >= 0,
            n * width >= len,
            n > 0 ==> (n - 1) * width < len,
            len >= 0,
            total == len + width - 1,
    ;
    vstd::arithmetic::div_mod::lemma_fundamental_div_mod_converse(total, width, n, total - n * width);
}

impl WindowImage {
    /// The buffer holds exactly `width * height` pixels.
    pub open spec fn wf(&self) -> bool {
        self.data@.len() == self.width * self.height
    }

    /// The pixel in column `x` of row `y`.
    pub open spec fn pixel(&self, x: int, y: int) -> u32 {
        self.data@[y * self.width + x]
    }

    /// The image as a list of rows, each a slice of `width` pixels taken in
    /// order from the buffer. Should the buffer not be a whole number of rows,
    /// the last slice holds what is left.
    pub fn data_2d(&self) -> (rows: Vec<&[u32]>)
        requires
            self.width > 0,
        ensures
            rows@.len() == row_count(self.data@.len() as int, self.width as int),
            forall|i: int|
                0 <= i < rows@.len() ==> (#[trigger] rows@[i])@ == row_of(self.data@, self.width as int, i),
            self.wf() ==> rows@.len() == self.height,
            self.wf() ==> forall|i: int| 0 <= i < rows@.len() ==> (#[trigger] rows@[i])@.len() == self.width,
    {
        let len: usize = self.data.len();
        let width: usize = self.width;
        let mut rows: Vec<&[u32]> = Vec::new();
        let mut start: usize = 0;
        assert(rows@.len() * width == 0) by (nonlinear_arith)
            requires
                rows@.len() == 0,
        ;
        while start < len
            invariant
                width == self.width,
                width > 0,
                len == self.data@.len(),
                start <= len,
                start < len ==> start == rows@.len() * width,
                start == len ==> rows@.len() * width >= len,
                rows@.len() > 0 ==> (rows@.len() - 1) * width < len,
                forall|i: int|
                    0 <= i < rows@.len() ==> (#[trigger] rows@[i])@ == row_of(self.data@, width as int, i),
            decreases len - start,
        {
            let end: usize = if len - start > width { start + width } else { len };
            let ghost n = rows@.len() as int;
            proof {
                assert((n + 1) * width == n * width + width) by (nonlinear_arith);
            }
            let row: &[u32] = slice_subrange(self.data.as_slice(), start, end);
            rows.push(row);
            start = end;
        }
        proof {
            lemma_row_count(len as int, width as int, rows@.len() as int);
            if self.wf() {
                let h = self.height as int;
                let n = rows@.len() as int;
                assert(n == h) by (nonlinear_arith)
                    requires
                        width > 0,
                        n >= 0,
                        h >= 0,
                        n * width >= width * h,
                        n > 0 ==> (n - 1) * width < width * h,
                ;
                assert forall|i: int| 0 <= i < rows@.len() implies (#[trigger] rows@[i])@.len() == self.width by {
                    assert((i + 1) * width <= h * width && (i + 1) * width == i * width + width && i * width >= 0)
                        by (nonlinear_arith)
                        requires
                            0 <= i < h,
                            width > 0,
                    ;
                    assert(h * width == width * h) by (nonlinear_arith);
                }
            }
        }
        rows
    }
}

impl WindowController {
    /// Starts a capture of the window's whole client area.
    pub fn create_window_image(&self, backend: CaptureBackend, geometry: &WindowGeometry) -> (r: Result<
        CapturePlan,
        CaptureError,
    >)
        requires
            geometry.client_size_fits(),
        ensures
            r == spec_begin(*self, backend, whole_client_area(*geometry), *geometry),
            r is Ok ==> r->Ok_0.wf(),
            geometry.client.right <= geometry.client.left || geometry.client.bottom
                <= geometry.client.top ==> r == Err::<CapturePlan, CaptureError>(
                CaptureError::InvalidBounds,
            ),
    {
        let bounds: [i32; 4] = [
            0,
            0,
            geometry.client.right - geometry.client.left,
            geometry.client.bottom - geometry.client.top,
        ];
        assert(bounds == whole_client_area(*geometry));
        self.create_window_image_with_bounds(backend, bounds, geometry)
    }

    /// Starts a capture of the rectangle `bounds`, given as `[x, y, width,
    /// height]` in the client area. A rectangle without a positive width and
    /// height is turned down before anything is asked of the system, and so
    /// is one that the window's frame widens beyond what a size can be.
    pub fn create_window_image_with_bounds(
        &self,
        backend: CaptureBackend,
        bounds: [i32; 4],
        geometry: &WindowGeometry,
    ) -> (r: Result<CapturePlan, CaptureError>)
        ensures
            r == spec_begin(*self, backend, bounds, *geometry),
            r is Ok ==> r->Ok_0.wf(),
            bounds[2] <= 0 || bounds[3] <= 0 ==> r == Err::<CapturePlan, CaptureError>(
                CaptureError::InvalidBounds,
            ),
    {
        CapturePlan::begin(*self, backend, bounds, geometry)
    }
}

} // verus!
