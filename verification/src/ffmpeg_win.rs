//! The libavcodec backend: QSV, and AMF as a comparator, selected by encoder name.
//!
//! Frames take one of two ways in. Zero-copy input stays on the GPU in a pool of textures. System
//! input is read back, converted where needed and uploaded again by the encoder; it is the fallback
//! wherever zero-copy input cannot be set up.
pub mod laws;

use crate::flow::input_format;
use crate::text::{opt_view, setting_u64, setting_value};
use crate::types::{
    format_is_ten_bit, is_10bit_format, ChromaFormat, Codec, EncodedFrame, PixelFormat,
};
use vstd::prelude::*;

verus! {

#[derive(Clone, Copy, Debug, PartialEq, Eq, Structural)]
pub enum WinVendor {
    /// Comparator only; AMD sessions use the native backend.
    Amf,
    Qsv,
}

#[derive(Clone, Copy, Debug, PartialEq, Eq, Structural)]
pub enum WinError {
    /// The codec library could not be initialised.
    Init,
    /// The codec library lacks the encoder.
    NoEncoder,
    /// The format cannot be converted.
    NotPackedRgb(PixelFormat),
    /// The sample depth changed under the encoder.
    DepthChanged(PixelFormat),
    /// The format cannot be read back.
    NoReadback(PixelFormat),
    /// Frames of this layout are read back at eight bits only.
    EightBitOnly,
    /// The frame's size is not the encoder's.
    SizeMismatch { width: u32, height: u32 },
    /// The frame's format is not the one the encoder was opened for.
    FormatMismatch { expected: PixelFormat, delivered: PixelFormat },
    /// The frame holds fewer bytes than its size calls for.
    ShortFrame { len: usize },
    /// A frame in system memory for an encoder with GPU input.
    CpuFrame,
}

/// Name of an encoder.
pub open spec fn encoder_name_of(vendor: WinVendor, codec: Codec) -> Seq<char> {
    match (vendor, codec) {
        (WinVendor::Amf, Codec::H264) => "h264_amf"@,
        (WinVendor::Amf, Codec::H265) => "hevc_amf"@,
        (WinVendor::Amf, _) => "av1_amf"@,
        (WinVendor::Qsv, Codec::H264) => "h264_qsv"@,
        (WinVendor::Qsv, Codec::H265) => "hevc_qsv"@,
        (WinVendor::Qsv, _) => "av1_qsv"@,
    }
}

impl WinVendor {
    /// Encoders are selected by name: the codec alone would pick a software encoder.
    pub fn encoder_name(self, codec: Codec) -> (name: &'static str)
        requires
            codec != Codec::PyroWave,
        ensures
            name@ == encoder_name_of(self, codec),
    {
        match (self, codec) {
            (WinVendor::Amf, Codec::H264) => "h264_amf",
            (WinVendor::Amf, Codec::H265) => "hevc_amf",
            (WinVendor::Amf, _) => "av1_amf",
            (WinVendor::Qsv, Codec::H264) => "h264_qsv",
            (WinVendor::Qsv, Codec::H265) => "hevc_qsv",
            (WinVendor::Qsv, _) => "av1_qsv",
        }
    }

    pub fn label(self) -> (name: &'static str)
        ensures
            name@ == match self {
                WinVendor::Amf => "AMF"@,
                WinVendor::Qsv => "QSV"@,
            },
    {
        match self {
            WinVendor::Amf => "AMF",
            WinVendor::Qsv => "QSV",
        }
    }
}

/// Whether zero-copy input is tried: the override where there is one, else AMF only.
pub fn zerocopy_active(override_: Option<bool>, vendor: WinVendor) -> (r: bool)
    ensures
        r == match override_ {
            Some(v) => v,
            None => vendor == WinVendor::Amf,
        },
{
    match override_ {
        Some(v) => v,
        None => match vendor {
            WinVendor::Amf => true,
            WinVendor::Qsv => false,
        },
    }
}

/// Longest wait of a poll, in milliseconds.
pub const MAX_POLL_SPIN_MS: u64 = 1_000;

/// Reads how long a poll may wait for output: milliseconds in, microseconds out, no wait by default.
/// The cap applies before the conversion, so that no setting overflows it.
pub fn parse_poll_spin_cap_us(raw: Option<&str>) -> (us: u64)
    ensures
        us == match setting_value(opt_view(raw), u64::MAX as int) {
            Some(ms) => if ms < MAX_POLL_SPIN_MS {
                ms * 1000
            } else {
                MAX_POLL_SPIN_MS * 1000
            },
            None => 0,
        },
{
    match setting_u64(raw) {
        Some(ms) => if ms < MAX_POLL_SPIN_MS {
            ms * 1000
        } else {
            MAX_POLL_SPIN_MS * 1000
        },
        None => 0,
    }
}

/// Source layout of a conversion.
#[derive(Clone, Copy, Debug, PartialEq, Eq, Structural)]
pub enum SwsPixel {
    Bgrz,
    Rgbz,
    Bgra,
    Rgba,
    Rgb24,
    Bgr24,
    X2Bgr10,
}

/// The source layout of a packed RGB format; no other format has one.
pub open spec fn sws_source(format: PixelFormat) -> Option<SwsPixel> {
    match format {
        PixelFormat::Bgrx => Some(SwsPixel::Bgrz),
        PixelFormat::Rgbx => Some(SwsPixel::Rgbz),
        PixelFormat::Bgra => Some(SwsPixel::Bgra),
        PixelFormat::Rgba => Some(SwsPixel::Rgba),
        PixelFormat::Rgb => Some(SwsPixel::Rgb24),
        PixelFormat::Bgr => Some(SwsPixel::Bgr24),
        _ => None,
    }
}

/// Finds the source layout of a format.
pub fn sws_src(format: PixelFormat) -> (r: Result<SwsPixel, WinError>)
    ensures
        r == match sws_source(format) {
            Some(p) => Ok::<SwsPixel, WinError>(p),
            None => Err::<SwsPixel, WinError>(WinError::NotPackedRgb(format)),
        },
{
    match format {
        PixelFormat::Bgrx => Ok(SwsPixel::Bgrz),
        PixelFormat::Rgbx => Ok(SwsPixel::Rgbz),
        PixelFormat::Bgra => Ok(SwsPixel::Bgra),
        PixelFormat::Rgba => Ok(SwsPixel::Rgba),
        PixelFormat::Rgb => Ok(SwsPixel::Rgb24),
        PixelFormat::Bgr => Ok(SwsPixel::Bgr24),
        PixelFormat::Nv12
        | PixelFormat::P010
        | PixelFormat::Rgb10a2
        | PixelFormat::Yuv444
        | PixelFormat::X2Rgb10
        | PixelFormat::X2Bgr10 => Err(WinError::NotPackedRgb(format)),
    }
}

/// How a captured texture is read back.
#[derive(Clone, Copy, Debug, PartialEq, Eq, Structural)]
pub enum ReadbackRoute {
    /// Plane by plane, as it is.
    Yuv,
    /// By conversion from eight-bit RGB.
    Bgra,
    /// By conversion from ten-bit RGB.
    Rgb10,
}

/// The route of a captured format.
pub open spec fn route_of(format: PixelFormat) -> Option<ReadbackRoute> {
    match format {
        PixelFormat::Nv12 | PixelFormat::P010 => Some(ReadbackRoute::Yuv),
        PixelFormat::Bgra | PixelFormat::Bgrx => Some(ReadbackRoute::Bgra),
        PixelFormat::Rgb10a2 => Some(ReadbackRoute::Rgb10),
        _ => None,
    }
}

/// Chooses how a captured texture is read back. A depth other than the encoder's is refused first.
pub fn readback_route(format: PixelFormat, ten_bit: bool) -> (r: Result<ReadbackRoute, WinError>)
    ensures
        r == if format_is_ten_bit(format) != ten_bit {
            Err::<ReadbackRoute, WinError>(WinError::DepthChanged(format))
        } else {
            match route_of(format) {
                Some(route) => Ok::<ReadbackRoute, WinError>(route),
                None => Err::<ReadbackRoute, WinError>(WinError::NoReadback(format)),
            }
        },
{
    if is_10bit_format(format) != ten_bit {
        return Err(WinError::DepthChanged(format));
    }
    match format {
        PixelFormat::Nv12 | PixelFormat::P010 => Ok(ReadbackRoute::Yuv),
        PixelFormat::Bgra | PixelFormat::Bgrx => Ok(ReadbackRoute::Bgra),
        PixelFormat::Rgb10a2 => Ok(ReadbackRoute::Rgb10),
        _ => Err(WinError::NoReadback(format)),
    }
}

/// A route that is found is one the encoder's input can take: ten-bit routes end in ten-bit input,
/// eight-bit routes in eight-bit input.
pub proof fn law_readback_keeps_the_depth(format: PixelFormat, ten_bit: bool)
    requires
        format_is_ten_bit(format) == ten_bit,
        route_of(format) is Some,
    ensures
        route_of(format)->0 == ReadbackRoute::Bgra ==> !ten_bit,
        route_of(format)->0 == ReadbackRoute::Rgb10 ==> ten_bit,
        route_of(format)->0 == ReadbackRoute::Yuv ==> format == input_format(ten_bit),
{
}

/// Texture format of a read-back.
#[derive(Clone, Copy, Debug, PartialEq, Eq, Structural)]
pub enum StagingFormat {
    Nv12,
    P010,
    B8g8r8a8,
    R10g10b10a2,
}

/// Whether the staging texture has to be built: there is none yet, or the one there is has another
/// format than the frame is read back in.
pub fn staging_outdated(have: Option<StagingFormat>, want: StagingFormat) -> (r: bool)
    ensures
        r == (have != Some(want)),
{
    match have {
        Some(format) => format != want,
        None => true,
    }
}

/// Matrix of a conversion to YUV.
#[derive(Clone, Copy, Debug, PartialEq, Eq, Structural)]
pub enum SwsMatrix {
    Itu709,
    Bt2020,
}

/// A conversion: source layout, destination layout and matrix.
#[derive(Clone, Copy, Debug, PartialEq, Eq, Structural)]
pub struct SwsLane {
    pub src: SwsPixel,
    pub dst: PixelFormat,
    pub matrix: SwsMatrix,
}

/// How a captured texture gets into system memory.
#[derive(Clone, Copy, Debug, PartialEq, Eq, Structural)]
pub struct ReadbackPlan {
    pub staging: StagingFormat,
    /// The conversion; planes are copied as they are where there is none.
    pub lane: Option<SwsLane>,
}

/// What a route does.
pub open spec fn plan_of(route: ReadbackRoute, ten_bit: bool) -> ReadbackPlan {
    match route {
        ReadbackRoute::Yuv => ReadbackPlan {
            staging: if ten_bit {
                StagingFormat::P010
            } else {
                StagingFormat::Nv12
            },
            lane: None,
        },
        ReadbackRoute::Bgra => ReadbackPlan {
            staging: StagingFormat::B8g8r8a8,
            lane: Some(
                SwsLane {
                    src: SwsPixel::Bgra,
                    dst: PixelFormat::Nv12,
                    matrix: SwsMatrix::Itu709,
                },
            ),
        },
        ReadbackRoute::Rgb10 => ReadbackPlan {
            staging: StagingFormat::R10g10b10a2,
            lane: Some(
                SwsLane {
                    src: SwsPixel::X2Bgr10,
                    dst: PixelFormat::P010,
                    matrix: SwsMatrix::Bt2020,
                },
            ),
        },
    }
}

/// Plans the read-back of a captured texture.
pub fn submit_d3d11(format: PixelFormat, ten_bit: bool) -> (r: Result<ReadbackPlan, WinError>)
    ensures
        r == if format_is_ten_bit(format) != ten_bit {
            Err::<ReadbackPlan, WinError>(WinError::DepthChanged(format))
        } else {
            match route_of(format) {
                Some(route) => Ok::<ReadbackPlan, WinError>(plan_of(route, ten_bit)),
                None => Err::<ReadbackPlan, WinError>(WinError::NoReadback(format)),
            }
        },
{
    match readback_route(format, ten_bit) {
        Err(e) => Err(e),
        Ok(ReadbackRoute::Yuv) => Ok(
            ReadbackPlan {
                staging: if ten_bit {
                    StagingFormat::P010
                } else {
                    StagingFormat::Nv12
                },
                lane: None,
            },
        ),
        Ok(ReadbackRoute::Bgra) => Ok(
            ReadbackPlan {
                staging: StagingFormat::B8g8r8a8,
                lane: Some(
                    SwsLane {
                        src: SwsPixel::Bgra,
                        dst: PixelFormat::Nv12,
                        matrix: SwsMatrix::Itu709,
                    },
                ),
            },
        ),
        Ok(ReadbackRoute::Rgb10) => Ok(
            ReadbackPlan {
                staging: StagingFormat::R10g10b10a2,
                lane: Some(
                    SwsLane {
                        src: SwsPixel::X2Bgr10,
                        dst: PixelFormat::P010,
                        matrix: SwsMatrix::Bt2020,
                    },
                ),
            },
        ),
    }
}

/// Bytes of a mapped two-plane texture, as far as the address space goes.
pub fn mapped_len(pitch: u32, height: u32) -> (len: usize)
    ensures
        len == ({
            let bytes = pitch as int * (height as int + (height as int + 1) / 2);
            if bytes < usize::MAX {
                bytes
            } else {
                usize::MAX as int
            }
        }),
{
    let rows: u128 = height as u128 + (height as u128 + 1) / 2;
    assert(pitch * rows <= 0xffff_ffff * 0x2_0000_0000) by (nonlinear_arith)
        requires
            pitch <= 0xffff_ffff,
            rows <= 0x2_0000_0000,
    ;
    let bytes: u128 = pitch as u128 * rows;
    if bytes < usize::MAX as u128 {
        bytes as usize
    } else {
        usize::MAX
    }
}

/// What byte `i` of a plane holds once `rows` rows of `row_bytes` bytes were copied into it.
pub open spec fn plane_byte(
    before: Seq<u8>,
    src: Seq<u8>,
    base: int,
    pitch: int,
    rows: int,
    row_bytes: int,
    stride: int,
    i: int,
) -> u8 {
    if i / stride < rows && i % stride < row_bytes {
        src[base + i / stride * pitch + i % stride]
    } else {
        before[i]
    }
}

/// Copies one row.
fn copy_row(src: &[u8], from: usize, dst: &mut [u8], to: usize, n: usize)
    requires
        from + n <= src@.len(),
        to + n <= old(dst)@.len(),
    ensures
        final(dst)@.len() == old(dst)@.len(),
        forall|i: int|
            0 <= i < old(dst)@.len() ==> #[trigger] final(dst)@[i] == if to <= i < to + n {
                src@[from + i - to]
            } else {
                old(dst)@[i]
            },
{
    let ghost before = dst@;
    let mut k: usize = 0;
    assert(src.len() == src@.len() && dst.len() == dst@.len());
    while k < n
        invariant
            k <= n,
            from + n <= src@.len() <= usize::MAX,
            to + n <= before.len() <= usize::MAX,
            dst@.len() == before.len(),
            forall|i: int|
                0 <= i < before.len() ==> #[trigger] dst@[i] == if to <= i < to + k {
                    src@[from + i - to]
                } else {
                    before[i]
                },
        decreases n - k,
    {
        dst[to + k] = src[from + k];
        k = k + 1;
    }
}

/// Copies a plane row by row between two pitches. Bytes between the rows keep their value.
pub fn copy_plane(
    src: &[u8],
    base: usize,
    pitch: usize,
    rows: usize,
    row_bytes: usize,
    dst: &mut [u8],
    stride: usize,
)
    requires
        row_bytes <= stride,
        stride > 0,
        base + rows * pitch <= src@.len(),
        row_bytes <= pitch,
        rows * stride <= old(dst)@.len(),
    ensures
        final(dst)@.len() == old(dst)@.len(),
        forall|i: int|
            0 <= i < old(dst)@.len() ==> #[trigger] final(dst)@[i] == plane_byte(
                old(dst)@,
                src@,
                base as int,
                pitch as int,
                rows as int,
                row_bytes as int,
                stride as int,
                i,
            ),
{
    let ghost before = dst@;
    let mut y: usize = 0;
    let mut from: usize = base;
    let mut to: usize = 0;
    proof {
        assert(src.len() == src@.len());
        assert(dst.len() == dst@.len());
        assert forall|i: int| 0 <= i < before.len() implies #[trigger] dst@[i] == plane_byte(
            before,
            src@,
            base as int,
            pitch as int,
            0,
            row_bytes as int,
            stride as int,
            i,
        ) by {
            assert(i / (stride as int) >= 0) by (nonlinear_arith)
                requires
                    i >= 0,
                    stride > 0,
            ;
        }
        assert(0 * pitch == 0 && 0 * stride == 0);
    }
    while y < rows
        invariant
            y <= rows,
            row_bytes <= stride,
            stride > 0,
            row_bytes <= pitch,
            base + rows * pitch <= src@.len(),
            src@.len() <= usize::MAX,
            rows * stride <= before.len(),
            before.len() <= usize::MAX,
            from == base + y * pitch,
            to == y * stride,
            dst@.len() == before.len(),
            forall|i: int|
                0 <= i < before.len() ==> #[trigger] dst@[i] == plane_byte(
                    before,
                    src@,
                    base as int,
                    pitch as int,
                    y as int,
                    row_bytes as int,
                    stride as int,
                    i,
                ),
        decreases rows - y,
    {
        assert((y + 1) * pitch <= rows * pitch && (y + 1) * stride <= rows * stride && (y + 1) * pitch
            == y * pitch + pitch && (y + 1) * stride == y * stride + stride) by (nonlinear_arith)
            requires
                y < rows,
                pitch >= 0,
                stride >= 0,
        ;
        let ghost mid = dst@;
        copy_row(src, from, dst, to, row_bytes);
        proof {
            let s = stride as int;
            assert forall|i: int| 0 <= i < before.len() implies #[trigger] dst@[i] == plane_byte(
                before,
                src@,
                base as int,
                pitch as int,
                y + 1,
                row_bytes as int,
                s,
                i,
            ) by {
                assert(mid[i] == mid[i]);
                vstd::arithmetic::div_mod::lemma_fundamental_div_mod(i, s);
                let q = i / s;
                let r = i % s;
                assert(i == s * q + r && 0 <= r < s);
                if q < y {
                    assert(s * q + s <= s * y) by (nonlinear_arith)
                        requires
                            q + 1 <= y,
                            s > 0,
                    ;
                    assert(s * y == y * stride) by (nonlinear_arith)
                        requires
                            s == stride,
                    ;
                    assert(i < to);
                } else if q == y {
                    assert(s * q == y * stride) by (nonlinear_arith)
                        requires
                            q == y,
                            s == stride,
                    ;
                    assert(i == to + r);
                } else {
                    assert(s * q >= s * y + s) by (nonlinear_arith)
                        requires
                            q >= y + 1,
                            s > 0,
                    ;
                    assert(s * y == y * stride) by (nonlinear_arith)
                        requires
                            s == stride,
                    ;
                    assert(i >= to + stride);
                }
            }
        }
        y = y + 1;
        if y < rows {
            assert((y + 1) * pitch <= rows * pitch && (y + 1) * pitch == y * pitch + pitch)
                by (nonlinear_arith)
                requires
                    y < rows,
                    pitch >= 0,
            ;
            assert((y + 1) * stride <= rows * stride && (y + 1) * stride == y * stride + stride)
                by (nonlinear_arith)
                requires
                    y < rows,
                    stride >= 0,
            ;
        }
        from = from + pitch;
        to = to + stride;
    }
}

/// Bytes of a row of samples.
pub open spec fn row_len(width: u32, ten_bit: bool) -> int {
    if ten_bit {
        2 * width as int
    } else {
        width as int
    }
}

/// Copies a mapped two-plane texture into an encoder frame. Luma rows come first, chroma rows, half
/// as many rounded up, follow them at the same pitch.
pub fn readback_yuv(
    mapped: &[u8],
    pitch: usize,
    width: u32,
    height: u32,
    ten_bit: bool,
    y_dst: &mut [u8],
    y_stride: usize,
    uv_dst: &mut [u8],
    uv_stride: usize,
)
    requires
        row_len(width, ten_bit) <= pitch,
        row_len(width, ten_bit) <= y_stride,
        row_len(width, ten_bit) <= uv_stride,
        y_stride > 0,
        uv_stride > 0,
        pitch * (height + (height + 1) / 2) <= mapped@.len(),
        height * y_stride <= old(y_dst)@.len(),
        (height + 1) / 2 * uv_stride <= old(uv_dst)@.len(),
    ensures
        final(y_dst)@.len() == old(y_dst)@.len(),
        forall|i: int|
            0 <= i < old(y_dst)@.len() ==> #[trigger] final(y_dst)@[i] == plane_byte(
                old(y_dst)@,
                mapped@,
                0,
                pitch as int,
                height as int,
                row_len(width, ten_bit),
                y_stride as int,
                i,
            ),
        final(uv_dst)@.len() == old(uv_dst)@.len(),
        forall|i: int|
            0 <= i < old(uv_dst)@.len() ==> #[trigger] final(uv_dst)@[i] == plane_byte(
                old(uv_dst)@,
                mapped@,
                pitch * height,
                pitch as int,
                (height + 1) / 2,
                row_len(width, ten_bit),
                uv_stride as int,
                i,
            ),
{
    assert(mapped.len() == mapped@.len());
    let row_bytes: usize = if ten_bit {
        2 * width as usize
    } else {
        width as usize
    };
    let h: usize = height as usize;
    let half: usize = h / 2 + h % 2;
    assert(half == (height + 1) / 2);
    assert(pitch * (height + half) == pitch * height + pitch * half && pitch * height >= 0 && pitch
        * half >= 0 && height * pitch == pitch * height && half * pitch == pitch * half)
        by (nonlinear_arith)
        requires
            pitch >= 0,
            height >= 0,
            half >= 0,
    ;
    let chroma_off: usize = pitch * h;
    copy_plane(mapped, 0, pitch, h, row_bytes, y_dst, y_stride);
    copy_plane(mapped, chroma_off, pitch, half, row_bytes, uv_dst, uv_stride);
}

/// Refuses a frame in system memory that cannot be converted. `bytes_per_pixel` is that of its
/// format. Returns the bytes of a row and the layout to convert from.
pub fn submit_cpu(
    own: PixelFormat,
    ten_bit: bool,
    width: u32,
    height: u32,
    format: PixelFormat,
    bytes_per_pixel: usize,
    len: usize,
) -> (r: Result<(usize, SwsPixel), WinError>)
    requires
        width * bytes_per_pixel <= usize::MAX,
        width * bytes_per_pixel * height <= usize::MAX,
    ensures
        r == if format != own {
            Err::<(usize, SwsPixel), WinError>(
                WinError::FormatMismatch { expected: own, delivered: format },
            )
        } else if ten_bit {
            Err::<(usize, SwsPixel), WinError>(WinError::EightBitOnly)
        } else if len < width * bytes_per_pixel * height {
            Err::<(usize, SwsPixel), WinError>(WinError::ShortFrame { len })
        } else {
            match sws_source(format) {
                Some(src) => Ok::<(usize, SwsPixel), WinError>(
                    ((width * bytes_per_pixel) as usize, src),
                ),
                None => Err::<(usize, SwsPixel), WinError>(WinError::NotPackedRgb(format)),
            }
        },
{
    if format != own {
        return Err(WinError::FormatMismatch { expected: own, delivered: format });
    }
    if ten_bit {
        return Err(WinError::EightBitOnly);
    }
    let src_row: usize = width as usize * bytes_per_pixel;
    if len < src_row * height as usize {
        return Err(WinError::ShortFrame { len });
    }
    match sws_src(format) {
        Ok(src) => Ok((src_row, src)),
        Err(e) => Err(e),
    }
}

/// The usage preset of AMF where none is set.
pub fn amf_usage<'a>(raw: Option<&'a str>) -> (usage: &'a str)
    ensures
        usage@ == match opt_view(raw) {
            Some(s) => s,
            None => "ultralowlatency"@,
        },
{
    match raw {
        Some(s) => s,
        None => "ultralowlatency",
    }
}

/// Encoder options as pairs of characters.
pub open spec fn option_views(opts: Seq<(&'static str, String)>) -> Seq<(Seq<char>, Seq<char>)> {
    Seq::new(opts.len(), |i: int| (opts[i].0@, opts[i].1@))
}

/// The encoder options of a vendor. They trade compression for latency: no reordering, no
/// look-ahead, the fastest preset.
pub open spec fn options_of(vendor: WinVendor, usage: Seq<char>) -> Seq<(Seq<char>, Seq<char>)> {
    match vendor {
        WinVendor::Amf => seq![
            ("usage"@, usage),
            ("rc"@, "cbr"@),
            ("quality"@, "speed"@),
            ("preanalysis"@, "false"@),
            ("enforce_hrd"@, "true"@),
            ("latency"@, "true"@),
            ("bf"@, "0"@),
            ("header_insertion_mode"@, "idr"@),
        ],
        WinVendor::Qsv => seq![
            ("preset"@, "veryfast"@),
            ("async_depth"@, "1"@),
            ("low_power"@, "1"@),
            ("look_ahead"@, "0"@),
            ("forced_idr"@, "1"@),
            ("scenario"@, "displayremoting"@),
        ],
    }
}

fn option(opts: &mut Vec<(&'static str, String)>, key: &'static str, value: &str)
    ensures
        option_views(final(opts)@) == option_views(old(opts)@).push((key@, value@)),
{
    opts.push((key, value.to_owned()));
    assert(option_views(opts@) =~= option_views(old(opts)@).push((key@, value@)));
}

/// Lists the encoder options of a vendor.
pub fn vendor_opts(vendor: WinVendor, amf_usage: &str) -> (opts: Vec<(&'static str, String)>)
    ensures
        option_views(opts@) =~= options_of(vendor, amf_usage@),
{
    let mut opts: Vec<(&'static str, String)> = Vec::new();
    match vendor {
        WinVendor::Amf => {
            option(&mut opts, "usage", amf_usage);
            option(&mut opts, "rc", "cbr");
            option(&mut opts, "quality", "speed");
            option(&mut opts, "preanalysis", "false");
            option(&mut opts, "enforce_hrd", "true");
            option(&mut opts, "latency", "true");
            option(&mut opts, "bf", "0");
            option(&mut opts, "header_insertion_mode", "idr");
        },
        WinVendor::Qsv => {
            option(&mut opts, "preset", "veryfast");
            option(&mut opts, "async_depth", "1");
            option(&mut opts, "low_power", "1");
            option(&mut opts, "look_ahead", "0");
            option(&mut opts, "forced_idr", "1");
            option(&mut opts, "scenario", "displayremoting");
        },
    }
    opts
}

pub const BIND_SHADER_RESOURCE: u32 = 8;

pub const BIND_RENDER_TARGET: u32 = 32;

pub const BIND_DECODER: u32 = 512;

pub const BIND_VIDEO_ENCODER: u32 = 1024;

/// Bind flags of the pool's textures: what the vendor's encoder takes them for.
pub fn pool_bind_flags(vendor: WinVendor) -> (flags: u32)
    ensures
        flags == match vendor {
            WinVendor::Amf => BIND_RENDER_TARGET + BIND_SHADER_RESOURCE,
            WinVendor::Qsv => BIND_DECODER + BIND_VIDEO_ENCODER,
        },
{
    assert(32u32 | 8u32 == 40 && 512u32 | 1024u32 == 1536) by (bit_vector);
    match vendor {
        WinVendor::Amf => BIND_RENDER_TARGET | BIND_SHADER_RESOURCE,
        WinVendor::Qsv => BIND_DECODER | BIND_VIDEO_ENCODER,
    }
}

/// Textures of the zero-copy pool.
pub const POOL: i32 = 8;

/// Frame format the encoder is handed.
#[derive(Clone, Copy, Debug, PartialEq, Eq, Structural)]
pub enum FrameKind {
    /// Frames in system memory.
    System,
    /// Textures.
    D3d11,
    /// Surfaces derived from textures.
    Qsv,
}

/// Signalled colours, always in limited range.
#[derive(Clone, Copy, Debug, PartialEq, Eq, Structural)]
pub enum Colours {
    Bt709,
    Bt2020Pq,
}

/// Parameters of an encoder.
#[derive(Clone, Copy, Debug, PartialEq, Eq, Structural)]
pub struct EncoderParams {
    pub frames: FrameKind,
    pub sw_format: PixelFormat,
    pub colours: Colours,
    /// Frames between periodic keyframes; in effect there are none.
    pub gop_size: i32,
}

/// Decides the parameters of an encoder. GPU input of QSV is mapped from textures to surfaces of its
/// own.
pub fn open_win_encoder(vendor: WinVendor, zero_copy: bool, ten_bit: bool) -> (p: EncoderParams)
    ensures
        p == (EncoderParams {
            frames: if !zero_copy {
                FrameKind::System
            } else if vendor == WinVendor::Amf {
                FrameKind::D3d11
            } else {
                FrameKind::Qsv
            },
            sw_format: input_format(ten_bit),
            colours: if ten_bit {
                Colours::Bt2020Pq
            } else {
                Colours::Bt709
            },
            gop_size: i32::MAX,
        }),
{
    let frames = if !zero_copy {
        FrameKind::System
    } else {
        match vendor {
            WinVendor::Amf => FrameKind::D3d11,
            WinVendor::Qsv => FrameKind::Qsv,
        }
    };
    EncoderParams {
        frames,
        sw_format: if ten_bit {
            PixelFormat::P010
        } else {
            PixelFormat::Nv12
        },
        colours: if ten_bit {
            Colours::Bt2020Pq
        } else {
            Colours::Bt709
        },
        gop_size: i32::MAX,
    }
}

/// 4:4:4 input is not wired up for these encoders.
pub fn probe_can_encode_444(_vendor: WinVendor, _codec: Codec) -> (r: bool)
    ensures
        !r,
{
    false
}

/// The stream a probe opens: width, height, frame rate and bitrate.
pub fn probe_stream() -> (s: (u32, u32, u32, u64))
    ensures
        s == (640u32, 480u32, 30u32, 2_000_000u64),
{
    (640, 480, 30, 2_000_000)
}

/// Whether the adapter encodes the codec: the library initialised and the probe's encoder opened.
pub fn probe_can_encode(init_ok: bool, open_ok: bool) -> (r: bool)
    ensures
        r == (init_ok && open_ok),
{
    init_ok && open_ok
}

/// What an encoder is opened with.
#[derive(Clone, Copy, Debug, PartialEq, Eq, Structural)]
pub struct WinConfig {
    pub vendor: WinVendor,
    pub codec: Codec,
    pub format: PixelFormat,
    pub width: u32,
    pub height: u32,
    pub fps: u32,
    pub bitrate_bps: u64,
}

/// The way in that is built.
#[derive(Clone, Copy, Debug, PartialEq, Eq, Structural)]
pub enum InnerKind {
    System,
    ZeroCopy,
}

impl InnerKind {
    /// The way in to build first.
    pub fn first(zero_copy: bool) -> (kind: InnerKind)
        ensures
            kind == if zero_copy {
                InnerKind::ZeroCopy
            } else {
                InnerKind::System
            },
    {
        if zero_copy {
            InnerKind::ZeroCopy
        } else {
            InnerKind::System
        }
    }

    /// The way in to build after this one could not be built: no session is lost for want of zero-copy
    /// input. `None` means that the frame fails.
    pub fn fallback(self) -> (next: Option<InnerKind>)
        ensures
            next == match self {
                InnerKind::ZeroCopy => Some(InnerKind::System),
                InnerKind::System => None,
            },
    {
        match self {
            InnerKind::ZeroCopy => Some(InnerKind::System),
            InnerKind::System => None,
        }
    }
}

pub struct FfmpegWinEncoder {
    pub cfg: WinConfig,
    pub inner: Option<InnerKind>,
    pub bound_device: u64,
    pub frame_idx: i64,
    pub force_kf: bool,
    /// Frames submitted whose units are still owed.
    pub in_flight: usize,
}

/// What a frame does next.
#[derive(Clone, Copy, Debug, PartialEq, Eq, Structural)]
pub enum FrameStep {
    /// Build the way in first: see [`InnerKind::first`] and [`InnerKind::fallback`].
    Build { zero_copy: bool },
    /// Hand the texture to the encoder.
    ZeroCopy,
    /// The pool cannot take the frame: build system input first.
    SwitchToSystem,
    /// Take the frame through system memory.
    System,
}

/// Outcome of one query for output.
pub enum PollOutcome {
    Packet(EncodedFrame),
    Again,
    Eof,
}

/// How a poll goes on.
pub enum PollStep {
    Unit(EncodedFrame),
    Nothing,
    /// Sleep a little and query again.
    Wait,
}

impl FfmpegWinEncoder {
    /// Creates the encoder. 4:4:4 is encoded as 4:2:0. The way in is built with the first frame.
    pub fn open(
        init_ok: bool,
        encoder_found: bool,
        vendor: WinVendor,
        codec: Codec,
        format: PixelFormat,
        width: u32,
        height: u32,
        fps: u32,
        bitrate_bps: u64,
        _bit_depth: u8,
        _chroma: ChromaFormat,
    ) -> (r: Result<FfmpegWinEncoder, WinError>)
        ensures
            r == if !init_ok {
                Err::<FfmpegWinEncoder, WinError>(WinError::Init)
            } else if !encoder_found {
                Err::<FfmpegWinEncoder, WinError>(WinError::NoEncoder)
            } else {
                Ok::<FfmpegWinEncoder, WinError>(
                    FfmpegWinEncoder {
                        cfg: WinConfig { vendor, codec, format, width, height, fps, bitrate_bps },
                        inner: None,
                        bound_device: 0,
                        frame_idx: 0,
                        force_kf: false,
                        in_flight: 0,
                    },
                )
            },
    {
        if !init_ok {
            return Err(WinError::Init);
        }
        if !encoder_found {
            return Err(WinError::NoEncoder);
        }
        Ok(
            FfmpegWinEncoder {
                cfg: WinConfig { vendor, codec, format, width, height, fps, bitrate_bps },
                inner: None,
                bound_device: 0,
                frame_idx: 0,
                force_kf: false,
                in_flight: 0,
            },
        )
    }

    /// The depth of the encoder's input follows the pixels it was opened for.
    pub open spec fn ten_bit(self) -> bool {
        format_is_ten_bit(self.cfg.format)
    }

    /// The depth of the encoder's input.
    pub fn input_is_ten_bit(&self) -> (r: bool)
        ensures
            r == self.ten_bit(),
    {
        is_10bit_format(self.cfg.format)
    }

    /// Begins a submit: presentation time and type of the frame. Both are used up even where the
    /// submit fails later; a frame of another size uses up neither.
    pub fn submit(&mut self, width: u32, height: u32) -> (r: Result<(i64, bool), WinError>)
        requires
            old(self).frame_idx < i64::MAX,
        ensures
            final(self).cfg == old(self).cfg,
            final(self).inner == old(self).inner,
            final(self).bound_device == old(self).bound_device,
            final(self).in_flight == old(self).in_flight,
            if width != old(self).cfg.width || height != old(self).cfg.height {
                &&& r == Err::<(i64, bool), WinError>(WinError::SizeMismatch { width, height })
                &&& final(self).frame_idx == old(self).frame_idx
                &&& final(self).force_kf == old(self).force_kf
            } else {
                &&& r == Ok::<(i64, bool), WinError>((old(self).frame_idx, old(self).force_kf))
                &&& final(self).frame_idx == old(self).frame_idx + 1
                &&& !final(self).force_kf
            },
    {
        if width != self.cfg.width || height != self.cfg.height {
            return Err(WinError::SizeMismatch { width, height });
        }
        let pts: i64 = self.frame_idx;
        self.frame_idx = pts + 1;
        let idr = self.force_kf;
        self.force_kf = false;
        Ok((pts, idr))
    }

    /// What a texture does next. A way in bound to another device is dropped; zero-copy input takes
    /// only frames in its pool's format.
    pub fn step_d3d11(&mut self, device: u64, format: PixelFormat, zerocopy: Option<bool>) -> (s:
        FrameStep)
        ensures
            final(self).cfg == old(self).cfg,
            final(self).frame_idx == old(self).frame_idx,
            final(self).force_kf == old(self).force_kf,
            final(self).in_flight == old(self).in_flight,
            final(self).bound_device == device,
            ({
                let bound = old(self).inner is Some && old(self).bound_device == device;
                &&& final(self).inner == if bound {
                    old(self).inner
                } else {
                    None
                }
                &&& s == if !bound {
                    FrameStep::Build {
                        zero_copy: match zerocopy {
                            Some(v) => v,
                            None => old(self).cfg.vendor == WinVendor::Amf,
                        },
                    }
                } else if old(self).inner == Some(InnerKind::System) {
                    FrameStep::System
                } else if format != input_format(old(self).ten_bit()) {
                    FrameStep::SwitchToSystem
                } else {
                    FrameStep::ZeroCopy
                }
            }),
    {
        if self.inner.is_none() || self.bound_device != device {
            self.inner = None;
            self.bound_device = device;
            return FrameStep::Build { zero_copy: zerocopy_active(zerocopy, self.cfg.vendor) };
        }
        match self.inner {
            Some(InnerKind::ZeroCopy) => {
                let pool_format = if is_10bit_format(self.cfg.format) {
                    PixelFormat::P010
                } else {
                    PixelFormat::Nv12
                };
                if format != pool_format {
                    FrameStep::SwitchToSystem
                } else {
                    FrameStep::ZeroCopy
                }
            },
            _ => FrameStep::System,
        }
    }

    /// What a frame in system memory does next. An encoder with GPU input refuses it.
    pub fn step_cpu(&self) -> (s: Result<FrameStep, WinError>)
        ensures
            s == match self.inner {
                None => Ok::<FrameStep, WinError>(FrameStep::SwitchToSystem),
                Some(InnerKind::System) => Ok::<FrameStep, WinError>(FrameStep::System),
                Some(InnerKind::ZeroCopy) => Err::<FrameStep, WinError>(WinError::CpuFrame),
            },
    {
        match self.inner {
            None => Ok(FrameStep::SwitchToSystem),
            Some(InnerKind::System) => Ok(FrameStep::System),
            Some(InnerKind::ZeroCopy) => Err(WinError::CpuFrame),
        }
    }

    /// Adopts a way in that was built.
    pub fn built(&mut self, kind: InnerKind)
        ensures
            final(self).cfg == old(self).cfg,
            final(self).inner == Some(kind),
            final(self).bound_device == old(self).bound_device,
            final(self).frame_idx == old(self).frame_idx,
            final(self).force_kf == old(self).force_kf,
            final(self).in_flight == old(self).in_flight,
    {
        self.inner = Some(kind);
    }

    /// Ends a submit: a frame that was taken owes a unit.
    pub fn finish_submit(&mut self, sent: bool)
        requires
            old(self).in_flight < usize::MAX,
        ensures
            final(self).cfg == old(self).cfg,
            final(self).inner == old(self).inner,
            final(self).bound_device == old(self).bound_device,
            final(self).frame_idx == old(self).frame_idx,
            final(self).force_kf == old(self).force_kf,
            final(self).in_flight == if sent {
                old(self).in_flight + 1
            } else {
                old(self).in_flight as int
            },
    {
        if sent {
            self.in_flight = self.in_flight + 1;
        }
    }

    /// Forces the next frame to be a keyframe.
    pub fn request_keyframe(&mut self)
        ensures
            final(self).cfg == old(self).cfg,
            final(self).inner == old(self).inner,
            final(self).bound_device == old(self).bound_device,
            final(self).frame_idx == old(self).frame_idx,
            final(self).force_kf,
            final(self).in_flight == old(self).in_flight,
    {
        self.force_kf = true;
    }

    /// Drops the way in with everything in flight; the next frame builds one and is a keyframe.
    pub fn reset(&mut self) -> (r: bool)
        ensures
            r,
            final(self).cfg == old(self).cfg,
            final(self).inner is None,
            final(self).bound_device == 0,
            final(self).frame_idx == old(self).frame_idx,
            final(self).force_kf,
            final(self).in_flight == 0,
    {
        self.inner = None;
        self.bound_device = 0;
        self.in_flight = 0;
        self.force_kf = true;
        true
    }

    /// How long a poll may wait, in microseconds: not at all where nothing is owed.
    pub fn poll_budget_us(&self, cap_us: u64) -> (us: u64)
        ensures
            us == if self.in_flight > 0 {
                cap_us
            } else {
                0
            },
    {
        if self.in_flight > 0 {
            cap_us
        } else {
            0
        }
    }

    /// One turn of a poll. A unit settles one frame, the end of the stream all of them.
    pub fn poll(&mut self, outcome: PollOutcome, budget_spent: bool) -> (s: PollStep)
        ensures
            final(self).cfg == old(self).cfg,
            final(self).inner == old(self).inner,
            final(self).bound_device == old(self).bound_device,
            final(self).frame_idx == old(self).frame_idx,
            final(self).force_kf == old(self).force_kf,
            match outcome {
                PollOutcome::Packet(au) => {
                    &&& s == PollStep::Unit(au)
                    &&& final(self).in_flight == if old(self).in_flight > 0 {
                        old(self).in_flight - 1
                    } else {
                        0
                    }
                },
                PollOutcome::Eof => s is Nothing && final(self).in_flight == 0,
                PollOutcome::Again => {
                    &&& final(self).in_flight == old(self).in_flight
                    &&& s == if budget_spent {
                        PollStep::Nothing
                    } else {
                        PollStep::Wait
                    }
                },
            },
    {
        match outcome {
            PollOutcome::Packet(au) => {
                if self.in_flight > 0 {
                    self.in_flight = self.in_flight - 1;
                }
                PollStep::Unit(au)
            },
            PollOutcome::Eof => {
                self.in_flight = 0;
                PollStep::Nothing
            },
            PollOutcome::Again => if budget_spent {
                PollStep::Nothing
            } else {
                PollStep::Wait
            },
        }
    }
}

} // verus!
