//! Pixel formats and their depth / bits-per-pixel tables, as
//! framebuffer registration wants them.  The tables are pure data:
//! each format maps to one fixed pair of values.
use vstd::prelude::*;

verus! {

/// A pixel format, named by its four-character code.
#[derive(Clone, Copy, Debug, PartialEq, Eq, Structural)]
#[allow(non_camel_case_types)]
pub enum PixelFormat {
    Big_endian,
    Rgb332,
    Bgr233,
    C8,
    R8,
    Yvu410,
    Yuv410,
    X0l0,
    Y0l0,
    Q401,
    X0l2,
    Y0l2,
    Yvu420,
    Yuv420,
    Yvu411,
    Yuv411,
    Nv21,
    Nv12,
    Yuv420_8bit,
    P010,
    Nv15,
    Yuv420_10bit,
    Rgba5551,
    Bgra5551,
    Rgbx5551,
    Bgrx5551,
    Nv61,
    Yvu422,
    Yuv422,
    Rgba4444,
    Bgra4444,
    Argb4444,
    Xrgb4444,
    Abgr4444,
    Xbgr4444,
    Rgbx4444,
    Bgrx4444,
    Argb1555,
    Xrgb1555,
    Abgr1555,
    Xbgr1555,
    Rgb565,
    Bgr565,
    R16,
    Nv16,
    Rg88,
    Gr88,
    Yvyu,
    Yuyv,
    Vyuy,
    Uyvy,
    P012,
    P210,
    Y210,
    Y212,
    Nv42,
    Nv24,
    Yvu444,
    Yuv444,
    P016,
    Rgb888,
    Bgr888,
    Vuy888,
    Rgb565_a8,
    Bgr565_a8,
    Vuy101010,
    Q410,
    Y410,
    Argb2101010,
    Xrgb2101010,
    Abgr2101010,
    Xbgr2101010,
    Xvyu2101010,
    Rgba1010102,
    Bgra1010102,
    Rgbx1010102,
    Bgrx1010102,
    Y216,
    Rg1616,
    Gr1616,
    Rgba8888,
    Bgra8888,
    Argb8888,
    Xrgb8888,
    Abgr8888,
    Xbgr8888,
    Xyuv8888,
    Rgbx8888,
    Bgrx8888,
    Rgb888_a8,
    Bgr888_a8,
    Ayuv,
    Xrgb8888_a8,
    Xbgr8888_a8,
    Rgbx8888_a8,
    Bgrx8888_a8,
    Y412,
    Xvyu12_16161616,
    Axbxgxrx106106106106,
    Y416,
    Xvyu16161616,
    Argb16161616f,
    Xrgb16161616f,
    Abgr16161616f,
    Xbgr16161616f,
}

/// The format every scanout buffer of this pipeline uses.
pub const DRM_FORMAT: PixelFormat = PixelFormat::Xrgb8888;

/// The color depth table: bits used for encoding.
pub open spec fn spec_depth(f: PixelFormat) -> u32 {
    match f {
        PixelFormat::Big_endian => 0,
        PixelFormat::Rgb332
        | PixelFormat::Bgr233
        | PixelFormat::C8
        | PixelFormat::R8 => 8,
        PixelFormat::Yvu410
        | PixelFormat::Yuv410 => 9,
        PixelFormat::X0l0
        | PixelFormat::Y0l0
        | PixelFormat::Q401
        | PixelFormat::X0l2
        | PixelFormat::Y0l2 => 10,
        PixelFormat::Yvu420
        | PixelFormat::Yuv420
        | PixelFormat::Yvu411
        | PixelFormat::Yuv411
        | PixelFormat::Nv21
        | PixelFormat::Nv12
        | PixelFormat::Yuv420_8bit => 12,
        PixelFormat::P010
        | PixelFormat::Nv15
        | PixelFormat::Yuv420_10bit => 15,
        PixelFormat::Rgba5551
        | PixelFormat::Bgra5551
        | PixelFormat::Rgbx5551
        | PixelFormat::Bgrx5551
        | PixelFormat::Nv61
        | PixelFormat::Yvu422
        | PixelFormat::Yuv422
        | PixelFormat::Rgba4444
        | PixelFormat::Bgra4444
        | PixelFormat::Argb4444
        | PixelFormat::Xrgb4444
        | PixelFormat::Abgr4444
        | PixelFormat::Xbgr4444
        | PixelFormat::Rgbx4444
        | PixelFormat::Bgrx4444
        | PixelFormat::Argb1555
        | PixelFormat::Xrgb1555
        | PixelFormat::Abgr1555
        | PixelFormat::Xbgr1555
        | PixelFormat::Rgb565
        | PixelFormat::Bgr565
        | PixelFormat::R16
        | PixelFormat::Nv16
        | PixelFormat::Rg88
        | PixelFormat::Gr88
        | PixelFormat::Yvyu
        | PixelFormat::Yuyv
        | PixelFormat::Vyuy
        | PixelFormat::Uyvy => 16,
        PixelFormat::P012 => 18,
        PixelFormat::P210
        | PixelFormat::Y210 => 20,
        PixelFormat::Y212
        | PixelFormat::Nv42
        | PixelFormat::Nv24
        | PixelFormat::Yvu444
        | PixelFormat::Yuv444
        | PixelFormat::P016
        | PixelFormat::Rgb888
        | PixelFormat::Bgr888
        | PixelFormat::Vuy888
        | PixelFormat::Rgb565_a8
        | PixelFormat::Bgr565_a8 => 24,
        PixelFormat::Vuy101010
        | PixelFormat::Q410
        | PixelFormat::Y410 => 30,
        PixelFormat::Argb2101010
        | PixelFormat::Xrgb2101010
        | PixelFormat::Abgr2101010
        | PixelFormat::Xbgr2101010
        | PixelFormat::Xvyu2101010
        | PixelFormat::Rgba1010102
        | PixelFormat::Bgra1010102
        | PixelFormat::Rgbx1010102
        | PixelFormat::Bgrx1010102
        | PixelFormat::Y216
        | PixelFormat::Rg1616
        | PixelFormat::Gr1616
        | PixelFormat::Rgba8888
        | PixelFormat::Bgra8888
        | PixelFormat::Argb8888
        | PixelFormat::Xrgb8888
        | PixelFormat::Abgr8888
        | PixelFormat::Xbgr8888
        | PixelFormat::Xyuv8888
        | PixelFormat::Rgbx8888
        | PixelFormat::Bgrx8888
        | PixelFormat::Rgb888_a8
        | PixelFormat::Bgr888_a8
        | PixelFormat::Ayuv => 32,
        PixelFormat::Xrgb8888_a8
        | PixelFormat::Xbgr8888_a8
        | PixelFormat::Rgbx8888_a8
        | PixelFormat::Bgrx8888_a8 => 40,
        PixelFormat::Y412
        | PixelFormat::Xvyu12_16161616 => 48,
        PixelFormat::Axbxgxrx106106106106
        | PixelFormat::Y416
        | PixelFormat::Xvyu16161616
        | PixelFormat::Argb16161616f
        | PixelFormat::Xrgb16161616f
        | PixelFormat::Abgr16161616f
        | PixelFormat::Xbgr16161616f => 64,
    }
}

/// The bits-per-pixel table: storage size per pixel.
pub open spec fn spec_bpp(f: PixelFormat) -> u32 {
    match f {
        PixelFormat::Big_endian => 0,
        PixelFormat::Rgb332
        | PixelFormat::Bgr233
        | PixelFormat::C8
        | PixelFormat::R8 => 8,
        PixelFormat::Yvu410
        | PixelFormat::Yuv410 => 9,
        PixelFormat::X0l0
        | PixelFormat::Y0l0
        | PixelFormat::Q401
        | PixelFormat::X0l2
        | PixelFormat::Y0l2 => 10,
        PixelFormat::Yvu420
        | PixelFormat::Yuv420
        | PixelFormat::Yvu411
        | PixelFormat::Yuv411
        | PixelFormat::Nv21
        | PixelFormat::Nv12
        | PixelFormat::Yuv420_8bit => 12,
        PixelFormat::P010
        | PixelFormat::Nv15
        | PixelFormat::Yuv420_10bit => 15,
        PixelFormat::Rgba5551
        | PixelFormat::Bgra5551
        | PixelFormat::Rgbx5551
        | PixelFormat::Bgrx5551
        | PixelFormat::Nv61
        | PixelFormat::Yvu422
        | PixelFormat::Yuv422
        | PixelFormat::Rgba4444
        | PixelFormat::Bgra4444
        | PixelFormat::Argb4444
        | PixelFormat::Xrgb4444
        | PixelFormat::Abgr4444
        | PixelFormat::Xbgr4444
        | PixelFormat::Rgbx4444
        | PixelFormat::Bgrx4444
        | PixelFormat::Argb1555
        | PixelFormat::Xrgb1555
        | PixelFormat::Abgr1555
        | PixelFormat::Xbgr1555
        | PixelFormat::Rgb565
        | PixelFormat::Bgr565
        | PixelFormat::R16
        | PixelFormat::Nv16
        | PixelFormat::Rg88
        | PixelFormat::Gr88
        | PixelFormat::Yvyu
        | PixelFormat::Yuyv
        | PixelFormat::Vyuy
        | PixelFormat::Uyvy => 16,
        PixelFormat::P012 => 18,
        PixelFormat::P210
        | PixelFormat::Y210 => 20,
        PixelFormat::Y212
        | PixelFormat::Nv42
        | PixelFormat::Nv24
        | PixelFormat::Yvu444
        | PixelFormat::Yuv444
        | PixelFormat::P016
        | PixelFormat::Rgb888
        | PixelFormat::Bgr888
        | PixelFormat::Vuy888
        | PixelFormat::Rgb565_a8
        | PixelFormat::Bgr565_a8 => 24,
        PixelFormat::Vuy101010
        | PixelFormat::Q410 => 30,
        PixelFormat::Argb2101010
        | PixelFormat::Xrgb2101010
        | PixelFormat::Abgr2101010
        | PixelFormat::Xbgr2101010
        | PixelFormat::Xvyu2101010
        | PixelFormat::Y410
        | PixelFormat::Rgba1010102
        | PixelFormat::Bgra1010102
        | PixelFormat::Rgbx1010102
        | PixelFormat::Bgrx1010102
        | PixelFormat::Y216
        | PixelFormat::Rg1616
        | PixelFormat::Gr1616
        | PixelFormat::Rgba8888
        | PixelFormat::Bgra8888
        | PixelFormat::Argb8888
        | PixelFormat::Xrgb8888
        | PixelFormat::Abgr8888
        | PixelFormat::Xbgr8888
        | PixelFormat::Xyuv8888
        | PixelFormat::Rgbx8888
        | PixelFormat::Bgrx8888
        | PixelFormat::Rgb888_a8
        | PixelFormat::Bgr888_a8
        | PixelFormat::Ayuv => 32,
        PixelFormat::Xrgb8888_a8
        | PixelFormat::Xbgr8888_a8
        | PixelFormat::Rgbx8888_a8
        | PixelFormat::Bgrx8888_a8 => 40,
        PixelFormat::Y412
        | PixelFormat::Xvyu12_16161616 => 48,
        PixelFormat::Axbxgxrx106106106106
        | PixelFormat::Y416
        | PixelFormat::Xvyu16161616
        | PixelFormat::Argb16161616f
        | PixelFormat::Xrgb16161616f
        | PixelFormat::Abgr16161616f
        | PixelFormat::Xbgr16161616f => 64,
    }
}

/// Formats that know their depth and bits per pixel.
pub trait FourCc {
    /// The color depth the table assigns to this format.
    spec fn spec_depth_of(&self) -> u32;

    /// The bits per pixel the table assigns to this format.
    spec fn spec_bpp_of(&self) -> u32;

    /// The color depth passed to framebuffer registration.
    fn depth(&self) -> (r: u32)
        ensures
            r == self.spec_depth_of(),
    ;

    /// The bits per pixel passed to framebuffer registration.
    fn bpp(&self) -> (r: u32)
        ensures
            r == self.spec_bpp_of(),
    ;
}

impl FourCc for PixelFormat {
    open spec fn spec_depth_of(&self) -> u32 {
        spec_depth(*self)
    }

    open spec fn spec_bpp_of(&self) -> u32 {
        spec_bpp(*self)
    }

    fn depth(&self) -> (r: u32) {
        match self {
            PixelFormat::Big_endian => 0,
            PixelFormat::Rgb332
            | PixelFormat::Bgr233
            | PixelFormat::C8
            | PixelFormat::R8 => 8,
            PixelFormat::Yvu410
            | PixelFormat::Yuv410 => 9,
            PixelFormat::X0l0
            | PixelFormat::Y0l0
            | PixelFormat::Q401
            | PixelFormat::X0l2
            | PixelFormat::Y0l2 => 10,
            PixelFormat::Yvu420
            | PixelFormat::Yuv420
            | PixelFormat::Yvu411
            | PixelFormat::Yuv411
            | PixelFormat::Nv21
            | PixelFormat::Nv12
            | PixelFormat::Yuv420_8bit => 12,
            PixelFormat::P010
            | PixelFormat::Nv15
            | PixelFormat::Yuv420_10bit => 15,
            PixelFormat::Rgba5551
            | PixelFormat::Bgra5551
            | PixelFormat::Rgbx5551
            | PixelFormat::Bgrx5551
            | PixelFormat::Nv61
            | PixelFormat::Yvu422
            | PixelFormat::Yuv422
            | PixelFormat::Rgba4444
            | PixelFormat::Bgra4444
            | PixelFormat::Argb4444
            | PixelFormat::Xrgb4444
            | PixelFormat::Abgr4444
            | PixelFormat::Xbgr4444
            | PixelFormat::Rgbx4444
            | PixelFormat::Bgrx4444
            | PixelFormat::Argb1555
            | PixelFormat::Xrgb1555
            | PixelFormat::Abgr1555
            | PixelFormat::Xbgr1555
            | PixelFormat::Rgb565
            | PixelFormat::Bgr565
            | PixelFormat::R16
            | PixelFormat::Nv16
            | PixelFormat::Rg88
            | PixelFormat::Gr88
            | PixelFormat::Yvyu
            | PixelFormat::Yuyv
            | PixelFormat::Vyuy
            | PixelFormat::Uyvy => 16,
            PixelFormat::P012 => 18,
            PixelFormat::P210
            | PixelFormat::Y210 => 20,
            PixelFormat::Y212
            | PixelFormat::Nv42
            | PixelFormat::Nv24
            | PixelFormat::Yvu444
            | PixelFormat::Yuv444
            | PixelFormat::P016
            | PixelFormat::Rgb888
            | PixelFormat::Bgr888
            | PixelFormat::Vuy888
            | PixelFormat::Rgb565_a8
            | PixelFormat::Bgr565_a8 => 24,
            PixelFormat::Vuy101010
            | PixelFormat::Q410
            | PixelFormat::Y410 => 30,
            PixelFormat::Argb2101010
            | PixelFormat::Xrgb2101010
            | PixelFormat::Abgr2101010
            | PixelFormat::Xbgr2101010
            | PixelFormat::Xvyu2101010
            | PixelFormat::Rgba1010102
            | PixelFormat::Bgra1010102
            | PixelFormat::Rgbx1010102
            | PixelFormat::Bgrx1010102
            | PixelFormat::Y216
            | PixelFormat::Rg1616
            | PixelFormat::Gr1616
            | PixelFormat::Rgba8888
            | PixelFormat::Bgra8888
            | PixelFormat::Argb8888
            | PixelFormat::Xrgb8888
            | PixelFormat::Abgr8888
            | PixelFormat::Xbgr8888
            | PixelFormat::Xyuv8888
            | PixelFormat::Rgbx8888
            | PixelFormat::Bgrx8888
            | PixelFormat::Rgb888_a8
            | PixelFormat::Bgr888_a8
            | PixelFormat::Ayuv => 32,
            PixelFormat::Xrgb8888_a8
            | PixelFormat::Xbgr8888_a8
            | PixelFormat::Rgbx8888_a8
            | PixelFormat::Bgrx8888_a8 => 40,
            PixelFormat::Y412
            | PixelFormat::Xvyu12_16161616 => 48,
            PixelFormat::Axbxgxrx106106106106
            | PixelFormat::Y416
            | PixelFormat::Xvyu16161616
            | PixelFormat::Argb16161616f
            | PixelFormat::Xrgb16161616f
            | PixelFormat::Abgr16161616f
            | PixelFormat::Xbgr16161616f => 64,
        }
    }

    fn bpp(&self) -> (r: u32) {
        match self {
            PixelFormat::Big_endian => 0,
            PixelFormat::Rgb332
            | PixelFormat::Bgr233
            | PixelFormat::C8
            | PixelFormat::R8 => 8,
            PixelFormat::Yvu410
            | PixelFormat::Yuv410 => 9,
            PixelFormat::X0l0
            | PixelFormat::Y0l0
            | PixelFormat::Q401
            | PixelFormat::X0l2
            | PixelFormat::Y0l2 => 10,
            PixelFormat::Yvu420
            | PixelFormat::Yuv420
            | PixelFormat::Yvu411
            | PixelFormat::Yuv411
            | PixelFormat::Nv21
            | PixelFormat::Nv12
            | PixelFormat::Yuv420_8bit => 12,
            PixelFormat::P010
            | PixelFormat::Nv15
            | PixelFormat::Yuv420_10bit => 15,
            PixelFormat::Rgba5551
            | PixelFormat::Bgra5551
            | PixelFormat::Rgbx5551
            | PixelFormat::Bgrx5551
            | PixelFormat::Nv61
            | PixelFormat::Yvu422
            | PixelFormat::Yuv422
            | PixelFormat::Rgba4444
            | PixelFormat::Bgra4444
            | PixelFormat::Argb4444
            | PixelFormat::Xrgb4444
            | PixelFormat::Abgr4444
            | PixelFormat::Xbgr4444
            | PixelFormat::Rgbx4444
            | PixelFormat::Bgrx4444
            | PixelFormat::Argb1555
            | PixelFormat::Xrgb1555
            | PixelFormat::Abgr1555
            | PixelFormat::Xbgr1555
            | PixelFormat::Rgb565
            | PixelFormat::Bgr565
            | PixelFormat::R16
            | PixelFormat::Nv16
            | PixelFormat::Rg88
            | PixelFormat::Gr88
            | PixelFormat::Yvyu
            | PixelFormat::Yuyv
            | PixelFormat::Vyuy
            | PixelFormat::Uyvy => 16,
            PixelFormat::P012 => 18,
            PixelFormat::P210
            | PixelFormat::Y210 => 20,
            PixelFormat::Y212
            | PixelFormat::Nv42
            | PixelFormat::Nv24
            | PixelFormat::Yvu444
            | PixelFormat::Yuv444
            | PixelFormat::P016
            | PixelFormat::Rgb888
            | PixelFormat::Bgr888
            | PixelFormat::Vuy888
            | PixelFormat::Rgb565_a8
            | PixelFormat::Bgr565_a8 => 24,
            PixelFormat::Vuy101010
            | PixelFormat::Q410 => 30,
            PixelFormat::Argb2101010
            | PixelFormat::Xrgb2101010
            | PixelFormat::Abgr2101010
            | PixelFormat::Xbgr2101010
            | PixelFormat::Xvyu2101010
            | PixelFormat::Y410
            | PixelFormat::Rgba1010102
            | PixelFormat::Bgra1010102
            | PixelFormat::Rgbx1010102
            | PixelFormat::Bgrx1010102
            | PixelFormat::Y216
            | PixelFormat::Rg1616
            | PixelFormat::Gr1616
            | PixelFormat::Rgba8888
            | PixelFormat::Bgra8888
            | PixelFormat::Argb8888
            | PixelFormat::Xrgb8888
            | PixelFormat::Abgr8888
            | PixelFormat::Xbgr8888
            | PixelFormat::Xyuv8888
            | PixelFormat::Rgbx8888
            | PixelFormat::Bgrx8888
            | PixelFormat::Rgb888_a8
            | PixelFormat::Bgr888_a8
            | PixelFormat::Ayuv => 32,
            PixelFormat::Xrgb8888_a8
            | PixelFormat::Xbgr8888_a8
            | PixelFormat::Rgbx8888_a8
            | PixelFormat::Bgrx8888_a8 => 40,
            PixelFormat::Y412
            | PixelFormat::Xvyu12_16161616 => 48,
            PixelFormat::Axbxgxrx106106106106
            | PixelFormat::Y416
            | PixelFormat::Xvyu16161616
            | PixelFormat::Argb16161616f
            | PixelFormat::Xrgb16161616f
            | PixelFormat::Abgr16161616f
            | PixelFormat::Xbgr16161616f => 64,
        }
    }
}

} // verus!
