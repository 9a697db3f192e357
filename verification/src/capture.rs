//! Capture geometry and pixel conversion.
//!
//! A capture reads a window's contents back as 32-bit samples, blue byte
//! first, in top-down rows. With the direct backend the samples cover exactly
//! the requested rectangle. With the compositor backend the whole window is
//! rendered, frame included, so the samples cover the requested rectangle
//! widened by the frame on each side, and the requested part is cut out.

use vstd::prelude::*;
use vstd::arithmetic::div_mod::lemma_fundamental_div_mod_converse;
use vstd::string::StringExecFns;
use crate::window_image::WindowImage;

verus! {

/// Why a capture did not produce an image.
#[derive(Clone, Copy, Debug, PartialEq, Eq, Structural)]
pub enum CaptureError {
    /// The requested width or height is not positive.
    InvalidBounds,
    /// The requested size widened by the window frame is not a usable size.
    InvalidPaddedSize,
    /// No device context could be had for the window.
    DeviceContext,
    /// No compatible off-screen context could be created.
    CompatibleContext,
    /// No compatible bitmap could be created.
    CompatibleBitmap,
    /// The bitmap could not be selected into the off-screen context.
    SelectBitmap,
    /// The copy from the window's on-screen context failed.
    BlitFailed,
    /// The compositor could not render the window.
    RenderFailed,
    /// The pixels could not be read back.
    ReadbackFailed,
}

/// The two ways of getting a window's pixels.
#[derive(Clone, Copy, Debug, PartialEq, Eq, Structural)]
pub enum CaptureBackend {
    /// Copy what is on screen, sized exactly to the request.
    DirectBlit,
    /// Have the compositor render the whole window, then trim the frame.
    CompositorRender,
}

/// A rectangle by its edges.
#[derive(Clone, Copy, Debug, PartialEq, Eq, Structural)]
pub struct Rect {
    pub left: i32,
    pub top: i32,
    pub right: i32,
    pub bottom: i32,
}

/// A point on screen.
#[derive(Clone, Copy, Debug, PartialEq, Eq, Structural)]
pub struct Point {
    pub x: i32,
    pub y: i32,
}

/// Where a window sits: its outer bounds on screen, its client rectangle, and
/// the screen position of the client area's top-left corner.
#[derive(Clone, Copy, Debug, PartialEq, Eq, Structural)]
pub struct WindowGeometry {
    pub window: Rect,
    pub client: Rect,
    pub client_origin: Point,
}

/// `v` where it is positive, else zero.
pub open spec fn at_least_zero(v: int) -> int {
    if v > 0 {
        v
    } else {
        0
    }
}

impl WindowGeometry {
    /// Width of the frame left of the client area.
    pub open spec fn pad_left(&self) -> int {
        at_least_zero(self.client_origin.x - self.window.left)
    }

    /// Height of the frame above the client area.
    pub open spec fn pad_top(&self) -> int {
        at_least_zero(self.client_origin.y - self.window.top)
    }

    /// Width of the frame right of the client area.
    pub open spec fn pad_right(&self) -> int {
        at_least_zero(
            self.window.right - (self.client_origin.x + (self.client.right - self.client.left)),
        )
    }

    /// Height of the frame below the client area.
    pub open spec fn pad_bottom(&self) -> int {
        at_least_zero(
            self.window.bottom - (self.client_origin.y + (self.client.bottom - self.client.top)),
        )
    }

    /// The client area's width and height are numbers of 32 bits.
    pub open spec fn client_size_fits(&self) -> bool {
        &&& i32::MIN <= self.client.right - self.client.left <= i32::MAX
        &&& i32::MIN <= self.client.bottom - self.client.top <= i32::MAX
    }

    /// The window's outer width and height are numbers of 32 bits.
    pub open spec fn outer_size_fits(&self) -> bool {
        &&& i32::MIN <= self.window.right - self.window.left <= i32::MAX
        &&& i32::MIN <= self.window.bottom - self.window.top <= i32::MAX
    }

    /// Checks [`WindowGeometry::client_size_fits`].
    pub fn has_client_size(&self) -> (fits: bool)
        ensures
            fits == self.client_size_fits(),
    {
        let width: i64 = self.client.right as i64 - self.client.left as i64;
        let height: i64 = self.client.bottom as i64 - self.client.top as i64;
        i32::MIN as i64 <= width && width <= i32::MAX as i64 && i32::MIN as i64 <= height && height
            <= i32::MAX as i64
    }

    /// Checks [`WindowGeometry::outer_size_fits`].
    pub fn has_outer_size(&self) -> (fits: bool)
        ensures
            fits == self.outer_size_fits(),
    {
        let width: i64 = self.window.right as i64 - self.window.left as i64;
        let height: i64 = self.window.bottom as i64 - self.window.top as i64;
        i32::MIN as i64 <= width && width <= i32::MAX as i64 && i32::MIN as i64 <= height && height
            <= i32::MAX as i64
    }
}

/// The sizes a capture works with: the requested rectangle, the frame around
/// it, and the size of the buffer that is read back.
#[derive(Clone, Copy, Debug, PartialEq, Eq, Structural)]
pub struct CaptureLayout {
    pub backend: CaptureBackend,
    pub x: i32,
    pub y: i32,
    pub width: i32,
    pub height: i32,
    pub pad_left: i32,
    pub pad_top: i32,
    pub pad_right: i32,
    pub pad_bottom: i32,
    pub padded_width: i32,
    pub padded_height: i32,
}

/// How the pixels are asked back from the system: the buffer's width, its
/// height written negative so that the top row comes first, one plane, and
/// 32 bits for each sample, uncompressed.
#[derive(Clone, Copy, Debug, PartialEq, Eq, Structural)]
pub struct ReadbackFormat {
    pub width: i32,
    pub height: i32,
    pub planes: u16,
    pub bit_count: u16,
    pub compression: u32,
    pub scan_lines: u32,
}

/// The layout for a request, or the reason there is none. A request needs a
/// positive width and height. The direct backend has no frame to account for;
/// the compositor backend widens the request by the frame on each side, and
/// the widened size must still be a size the system can take.
pub open spec fn spec_capture_layout(
    backend: CaptureBackend,
    bounds: [i32; 4],
    geometry: WindowGeometry,
) -> Result<CaptureLayout, CaptureError> {
    if bounds[2] <= 0 || bounds[3] <= 0 {
        Err(CaptureError::InvalidBounds)
    } else if backend == CaptureBackend::DirectBlit {
        Ok(
            (CaptureLayout {
                backend,
                x: bounds[0],
                y: bounds[1],
                width: bounds[2],
                height: bounds[3],
                pad_left: 0,
                pad_top: 0,
                pad_right: 0,
                pad_bottom: 0,
                padded_width: bounds[2],
                padded_height: bounds[3],
            }),
        )
    } else if bounds[2] + geometry.pad_left() + geometry.pad_right() > i32::MAX || bounds[3]
        + geometry.pad_top() + geometry.pad_bottom() > i32::MAX {
        Err(CaptureError::InvalidPaddedSize)
    } else {
        Ok(
            (CaptureLayout {
                backend,
                x: bounds[0],
                y: bounds[1],
                width: bounds[2],
                height: bounds[3],
                pad_left: geometry.pad_left() as i32,
                pad_top: geometry.pad_top() as i32,
                pad_right: geometry.pad_right() as i32,
                pad_bottom: geometry.pad_bottom() as i32,
                padded_width: (bounds[2] + geometry.pad_left() + geometry.pad_right()) as i32,
                padded_height: (bounds[3] + geometry.pad_top() + geometry.pad_bottom()) as i32,
            }),
        )
    }
}

/// One sample as an opaque pixel: alpha `0xFF`, then red, green and blue,
/// from the highest byte to the lowest.
pub open spec fn spec_opaque_argb(red: u8, green: u8, blue: u8) -> u32 {
    (0xFF00_0000 + red * 0x1_0000 + green * 0x100 + blue) as u32
}

/// The opacity channel of a pixel.
pub open spec fn alpha_of(pixel: u32) -> u32 {
    pixel >> 24
}

fn non_negative(v: i64) -> (r: i64)
    ensures
        r == at_least_zero(v as int),
{
    if v > 0 {
        v
    } else {
        0
    }
}

/// Computes the layout of a capture, see [`spec_capture_layout`].
pub fn capture_layout(backend: CaptureBackend, bounds: [i32; 4], geometry: &WindowGeometry) -> (r:
    Result<CaptureLayout, CaptureError>)
    ensures
        r == spec_capture_layout(backend, bounds, *geometry),
        r is Ok ==> r->Ok_0.wf(),
{
    if bounds[2] <= 0 || bounds[3] <= 0 {
        return Err(CaptureError::InvalidBounds);
    }
    match backend {
        CaptureBackend::DirectBlit => Ok(
            CaptureLayout {
                backend,
                x: bounds[0],
                y: bounds[1],
                width: bounds[2],
                height: bounds[3],
                pad_left: 0,
                pad_top: 0,
                pad_right: 0,
                pad_bottom: 0,
                padded_width: bounds[2],
                padded_height: bounds[3],
            },
        ),
        CaptureBackend::CompositorRender => {
            let origin_x: i64 = geometry.client_origin.x as i64;
            let origin_y: i64 = geometry.client_origin.y as i64;
            let client_width: i64 = geometry.client.right as i64 - geometry.client.left as i64;
            let client_height: i64 = geometry.client.bottom as i64 - geometry.client.top as i64;
            let left: i64 = non_negative(origin_x - geometry.window.left as i64);
            let top: i64 = non_negative(origin_y - geometry.window.top as i64);
            let right: i64 = non_negative(geometry.window.right as i64 - (origin_x + client_width));
            let bottom: i64 = non_negative(
                geometry.window.bottom as i64 - (origin_y + client_height),
            );
            let padded_width: i64 = bounds[2] as i64 + left + right;
            let padded_height: i64 = bounds[3] as i64 + top + bottom;
            if padded_width > i32::MAX as i64 || padded_height > i32::MAX as i64 {
                return Err(CaptureError::InvalidPaddedSize);
            }
            Ok(
                CaptureLayout {
                    backend,
                    x: bounds[0],
                    y: bounds[1],
                    width: bounds[2],
                    height: bounds[3],
                    pad_left: left as i32,
                    pad_top: top as i32,
                    pad_right: right as i32,
                    pad_bottom: bottom as i32,
                    padded_width: padded_width as i32,
                    padded_height: padded_height as i32,
                },
            )
        },
    }
}

/// Packs one sample as an opaque pixel.
pub fn opaque_argb(red: u8, green: u8, blue: u8) -> (pixel: u32)
    ensures
        pixel == spec_opaque_argb(red, green, blue),
        alpha_of(pixel) == 0xFF,
        pixel & 0x00FF_FFFF == red * 0x1_0000 + green * 0x100 + blue,
{
    let low: u32 = (red as u32) * 0x1_0000 + (green as u32) * 0x100 + (blue as u32);
    let pixel: u32 = 0xFF00_0000u32 + low;
    assert(pixel >> 24 == 0xFF && pixel & 0x00FF_FFFF == low) by (bit_vector)
        requires
            pixel == 0xFF00_0000u32 + low,
            low <= 0x00FF_FFFF,
    ;
    pixel
}

proof fn lemma_cell_in_grid(x: int, y: int, w: int, h: int)
    requires
        0 <= x < w,
        0 <= y < h,
    ensures
        0 <= y * w + x < w * h,
        y * w >= 0,
{
    assert(0 <= y * w + x < w * h && y * w >= 0) by (nonlinear_arith)
        requires
            0 <= x < w,
            0 <= y < h,
    ;
}

impl CaptureError {
    /// The text of the error.
    pub open spec fn spec_message(&self) -> Seq<char> {
        match self {
            CaptureError::InvalidBounds => "Invalid bounds size"@,
            CaptureError::InvalidPaddedSize => "Computed padded size is invalid"@,
            CaptureError::DeviceContext => "Could not create device context"@,
            CaptureError::CompatibleContext => "Could not create compatible device context."@,
            CaptureError::CompatibleBitmap => "Could not create compatible bitmap."@,
            CaptureError::SelectBitmap => "Could not select the bitmap in the device context."@,
            CaptureError::BlitFailed => "BitBlt failed"@,
            CaptureError::RenderFailed => "PrintWindow failed"@,
            CaptureError::ReadbackFailed => "GetDIBits failed."@,
        }
    }

    /// The text of the error.
    pub fn message(&self) -> (text: String)
        ensures
            text@ == self.spec_message(),
    {
        match self {
            CaptureError::InvalidBounds => String::from_str("Invalid bounds size"),
            CaptureError::InvalidPaddedSize => String::from_str("Computed padded size is invalid"),
            CaptureError::DeviceContext => String::from_str("Could not create device context"),
            CaptureError::CompatibleContext => String::from_str(
                "Could not create compatible device context.",
            ),
            CaptureError::CompatibleBitmap => String::from_str("Could not create compatible bitmap."),
            CaptureError::SelectBitmap => String::from_str(
                "Could not select the bitmap in the device context.",
            ),
            CaptureError::BlitFailed => String::from_str("BitBlt failed"),
            CaptureError::RenderFailed => String::from_str("PrintWindow failed"),
            CaptureError::ReadbackFailed => String::from_str("GetDIBits failed."),
        }
    }
}

impl CaptureLayout {
    /// The sizes are positive, the frame is not negative, and the buffer is the
    /// request widened by the frame. The direct backend has no frame.
    pub open spec fn wf(&self) -> bool {
        &&& self.width > 0
        &&& self.height > 0
        &&& self.pad_left >= 0
        &&& self.pad_top >= 0
        &&& self.pad_right >= 0
        &&& self.pad_bottom >= 0
        &&& self.padded_width == self.width + self.pad_left + self.pad_right
        &&& self.padded_height == self.height + self.pad_top + self.pad_bottom
        &&& (self.backend == CaptureBackend::DirectBlit ==> self.padded_width == self.width
            && self.padded_height == self.height)
    }

    /// Bytes in the buffer that is read back: four for each sample.
    pub open spec fn spec_readback_len(&self) -> int {
        4 * (self.padded_width * self.padded_height)
    }

    /// Where in the read-back samples the pixel `(x, y)` of the request lies:
    /// behind the frame's top rows and left columns. The buffer starts at the
    /// window's corner, so the request's own origin does not enter.
    pub open spec fn source_index(&self, x: int, y: int) -> int {
        (y + self.pad_top) * self.padded_width + (x + self.pad_left)
    }

    /// The pixel `(x, y)` of the request, from the read-back bytes.
    pub open spec fn source_pixel(&self, bits: Seq<u8>, x: int, y: int) -> u32 {
        let i = self.source_index(x, y);
        spec_opaque_argb(bits[4 * i + 2], bits[4 * i + 1], bits[4 * i])
    }

    /// Checks [`CaptureLayout::wf`].
    pub fn is_valid(&self) -> (ok: bool)
        ensures
            ok == self.wf(),
    {
        self.width > 0 && self.height > 0 && self.pad_left >= 0 && self.pad_top >= 0
            && self.pad_right >= 0 && self.pad_bottom >= 0 && self.padded_width as i64
            == self.width as i64 + self.pad_left as i64 + self.pad_right as i64
            && self.padded_height as i64 == self.height as i64 + self.pad_top as i64
            + self.pad_bottom as i64 && (match self.backend {
            CaptureBackend::DirectBlit => self.padded_width == self.width && self.padded_height
                == self.height,
            CaptureBackend::CompositorRender => true,
        })
    }

    /// How to ask the pixels back, see [`ReadbackFormat`]. Every row of the
    /// buffer is a scan line.
    pub fn readback_format(&self) -> (format: ReadbackFormat)
        requires
            self.wf(),
        ensures
            format.width == self.padded_width,
            format.height == -self.padded_height,
            format.planes == 1,
            format.bit_count == 32,
            format.compression == 0,
            format.scan_lines == self.padded_height,
    {
        ReadbackFormat {
            width: self.padded_width,
            height: -self.padded_height,
            planes: 1,
            bit_count: 32,
            compression: 0,
            scan_lines: self.padded_height as u32,
        }
    }

    /// Bytes to read back.
    pub fn readback_len(&self) -> (len: u64)
        requires
            self.wf(),
        ensures
            len == self.spec_readback_len(),
    {
        let w: u64 = self.padded_width as u64;
        let h: u64 = self.padded_height as u64;
        assert(4 * (w * h) <= u64::MAX && w * h <= u64::MAX) by (nonlinear_arith)
            requires
                w <= 0x7FFF_FFFF,
                h <= 0x7FFF_FFFF,
        ;
        4 * (w * h)
    }

    /// Cuts the requested rectangle out of the read-back bytes and turns each
    /// sample into an opaque pixel, row by row from the top.
    pub fn extract_pixels(&self, bits: &[u8]) -> (pixels: Vec<u32>)
        requires
            self.wf(),
            bits@.len() == self.spec_readback_len(),
        ensures
            pixels@.len() == self.width * self.height,
            forall|x: int, y: int|
                0 <= x < self.width && 0 <= y < self.height ==> pixels@[y * self.width + x]
                    == #[trigger] self.source_pixel(bits@, x, y),
            forall|k: int| 0 <= k < pixels@.len() ==> alpha_of(#[trigger] pixels@[k]) == 0xFF,
    {
        let width: usize = self.width as usize;
        let height: usize = self.height as usize;
        let pad_left: usize = self.pad_left as usize;
        let pad_top: usize = self.pad_top as usize;
        let padded_width: usize = self.padded_width as usize;
        let ghost padded_height = self.padded_height as int;
        let byte_count: usize = bits.len();
        let mut pixels: Vec<u32> = Vec::new();
        let mut y: usize = 0;
        while y < height
            invariant
                self.wf(),
                bits@.len() == 4 * (padded_width * padded_height),
                bits@.len() == byte_count,
                width == self.width,
                height == self.height,
                pad_left == self.pad_left,
                pad_top == self.pad_top,
                padded_width == self.padded_width,
                padded_height == self.padded_height,
                y <= height,
                pixels@.len() == y * width,
                forall|k: int|
                    0 <= k < pixels@.len() ==> #[trigger] pixels@[k] == self.source_pixel(
                        bits@,
                        k % (width as int),
                        k / (width as int),
                    ),
                forall|k: int| 0 <= k < pixels@.len() ==> alpha_of(#[trigger] pixels@[k]) == 0xFF,
            decreases height - y,
        {
            let mut x: usize = 0;
            while x < width
                invariant
                    self.wf(),
                    bits@.len() == 4 * (padded_width * padded_height),
                bits@.len() == byte_count,
                    width == self.width,
                    height == self.height,
                    pad_left == self.pad_left,
                    pad_top == self.pad_top,
                    padded_width == self.padded_width,
                    padded_height == self.padded_height,
                    y < height,
                    x <= width,
                    pixels@.len() == y * width + x,
                    forall|k: int|
                        0 <= k < pixels@.len() ==> #[trigger] pixels@[k] == self.source_pixel(
                            bits@,
                            k % (width as int),
                            k / (width as int),
                        ),
                    forall|k: int|
                        0 <= k < pixels@.len() ==> alpha_of(#[trigger] pixels@[k]) == 0xFF,
                decreases width - x,
            {
                proof {
                    lemma_cell_in_grid(
                        x + pad_left,
                        y + pad_top,
                        padded_width as int,
                        padded_height,
                    );
                    lemma_cell_in_grid(x as int, y as int, width as int, height as int);
                    lemma_fundamental_div_mod_converse(
                        y * width + x,
                        width as int,
                        y as int,
                        x as int,
                    );
                }
                let source: usize = (y + pad_top) * padded_width + (x + pad_left);
                let pixel: u32 = opaque_argb(
                    bits[4 * source + 2],
                    bits[4 * source + 1],
                    bits[4 * source],
                );
                pixels.push(pixel);
                x += 1;
            }
            proof {
                assert((y + 1) * width == y * width + width) by (nonlinear_arith);
            }
            y += 1;
        }
        proof {
            assert(height * width == self.width * self.height) by (nonlinear_arith)
                requires
                    width == self.width,
                    height == self.height,
            ;
            assert forall|x: int, y: int| 0 <= x < self.width && 0 <= y < self.height implies pixels@[y
                * self.width + x] == #[trigger] self.source_pixel(bits@, x, y) by {
                lemma_cell_in_grid(x, y, width as int, height as int);
                lemma_fundamental_div_mod_converse(y * width + x, width as int, y, x);
            }
        }
        pixels
    }

    /// The image that the read-back bytes give: the requested rectangle, as
    /// wide and as high as asked, every pixel opaque.
    pub fn image_from_readback(&self, bits: &[u8]) -> (image: WindowImage)
        requires
            self.wf(),
            bits@.len() == self.spec_readback_len(),
        ensures
            image.wf(),
            image.width == self.width,
            image.height == self.height,
            image.data@.len() == self.width * self.height,
            forall|x: int, y: int|
                0 <= x < self.width && 0 <= y < self.height ==> image.pixel(x, y)
                    == #[trigger] self.source_pixel(bits@, x, y),
            forall|k: int|
                0 <= k < image.data@.len() ==> alpha_of(#[trigger] image.data@[k]) == 0xFF,
    {
        let pixels: Vec<u32> = self.extract_pixels(bits);
        WindowImage { data: pixels, width: self.width as usize, height: self.height as usize }
    }
}

/// Both backends, asked for the same rectangle of the same window, give
/// images of the same width and height: those that were asked for.
pub proof fn lemma_backends_agree_on_size(bounds: [i32; 4], geometry: WindowGeometry)
    requires
        spec_capture_layout(CaptureBackend::DirectBlit, bounds, geometry) is Ok,
        spec_capture_layout(CaptureBackend::CompositorRender, bounds, geometry) is Ok,
    ensures
        ({
            let direct = spec_capture_layout(CaptureBackend::DirectBlit, bounds, geometry)->Ok_0;
            let rendered = spec_capture_layout(
                CaptureBackend::CompositorRender,
                bounds,
                geometry,
            )->Ok_0;
            &&& direct.width == rendered.width == bounds[2]
            &&& direct.height == rendered.height == bounds[3]
        }),
{
}

/// A request is turned down for its size exactly when its width or height
/// is not positive, whatever the backend and the window.
pub proof fn lemma_empty_request_is_refused(
    backend: CaptureBackend,
    bounds: [i32; 4],
    geometry: WindowGeometry,
)
    ensures
        spec_capture_layout(backend, bounds, geometry) == Err::<CaptureLayout, CaptureError>(
            CaptureError::InvalidBounds,
        ) <==> bounds[2] <= 0 || bounds[3] <= 0,
        backend == CaptureBackend::DirectBlit && bounds[2] > 0 && bounds[3] > 0
            ==> spec_capture_layout(backend, bounds, geometry) is Ok,
{
}

/// Around a window without a frame both backends read back a buffer of the
/// same size and find every pixel of the request at the same place in it,
/// so the same bytes give the same image.
pub proof fn lemma_backends_agree_without_frame(
    bounds: [i32; 4],
    geometry: WindowGeometry,
    bits: Seq<u8>,
    x: int,
    y: int,
)
    requires
        bounds[2] > 0,
        bounds[3] > 0,
        geometry.pad_left() == 0,
        geometry.pad_top() == 0,
        geometry.pad_right() == 0,
        geometry.pad_bottom() == 0,
    ensures
        spec_capture_layout(CaptureBackend::DirectBlit, bounds, geometry) is Ok,
        spec_capture_layout(CaptureBackend::CompositorRender, bounds, geometry) is Ok,
        ({
            let direct = spec_capture_layout(CaptureBackend::DirectBlit, bounds, geometry)->Ok_0;
            let rendered = spec_capture_layout(
                CaptureBackend::CompositorRender,
                bounds,
                geometry,
            )->Ok_0;
            &&& direct.spec_readback_len() == rendered.spec_readback_len()
            &&& direct.source_pixel(bits, x, y) == rendered.source_pixel(bits, x, y)
        }),
{
}

} // verus!
