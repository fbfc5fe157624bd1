//! Vocabulary shared by the backends: codecs, pixel formats, encoded output and capabilities.
use vstd::prelude::*;

verus! {

/// A rate or count where zero stands for one.
pub open spec fn at_least_one(n: u32) -> u32 {
    if n == 0 {
        1
    } else {
        n
    }
}

#[derive(Clone, Copy, Debug, PartialEq, Eq, Structural)]
pub enum Codec {
    H264,
    H265,
    Av1,
    PyroWave,
}

impl Codec {
    /// Ten-bit streams are HEVC Main10 and AV1; High10 is never negotiated.
    pub open spec fn is_ten_bit_codec(self) -> bool {
        self == Codec::H265 || self == Codec::Av1
    }

    /// Whether the codec carries ten-bit samples.
    pub fn supports_10bit(self) -> (r: bool)
        ensures
            r == self.is_ten_bit_codec(),
    {
        match self {
            Codec::H265 | Codec::Av1 => true,
            Codec::H264 | Codec::PyroWave => false,
        }
    }
}

#[derive(Clone, Copy, Debug, PartialEq, Eq, Structural)]
pub enum ChromaFormat {
    Yuv420,
    Yuv444,
}

impl ChromaFormat {
    pub fn is_444(self) -> (r: bool)
        ensures
            r == (self == ChromaFormat::Yuv444),
    {
        match self {
            ChromaFormat::Yuv444 => true,
            ChromaFormat::Yuv420 => false,
        }
    }
}

/// Memory layout of a captured frame.
#[derive(Clone, Copy, Debug, PartialEq, Eq, Structural)]
pub enum PixelFormat {
    Bgrx,
    Rgbx,
    Bgra,
    Rgba,
    Rgb,
    Bgr,
    Nv12,
    P010,
    Rgb10a2,
    Yuv444,
    X2Rgb10,
    X2Bgr10,
}

/// Formats whose samples the Windows backends encode at ten bits.
pub open spec fn format_is_ten_bit(format: PixelFormat) -> bool {
    format == PixelFormat::P010 || format == PixelFormat::Rgb10a2
}

/// Whether the delivered pixels are ten-bit.
pub fn is_10bit_format(format: PixelFormat) -> (r: bool)
    ensures
        r == format_is_ten_bit(format),
{
    match format {
        PixelFormat::P010 | PixelFormat::Rgb10a2 => true,
        _ => false,
    }
}

/// Where a captured frame's pixels live.
#[derive(Clone, Copy, Debug, PartialEq, Eq, Structural)]
pub enum PayloadKind {
    Cpu,
    D3d11,
}

/// One encoded access unit.
#[derive(Debug)]
pub struct EncodedFrame {
    pub data: Vec<u8>,
    pub pts_ns: u64,
    pub keyframe: bool,
    pub recovery_anchor: bool,
    pub chunk_aligned: bool,
}

/// A piece of an access unit, cut at a slice boundary.
#[derive(Debug)]
pub struct AuChunk {
    pub data: Vec<u8>,
    pub pts_ns: u64,
    pub keyframe: bool,
    pub recovery_anchor: bool,
    pub chunk_aligned: bool,
    pub first: bool,
    pub last: bool,
}

impl AuChunk {
    /// The access unit as its own only chunk.
    pub fn whole(au: EncodedFrame) -> (chunk: AuChunk)
        ensures
            chunk.data@ == au.data@,
            chunk.pts_ns == au.pts_ns,
            chunk.keyframe == au.keyframe,
            chunk.recovery_anchor == au.recovery_anchor,
            chunk.chunk_aligned == au.chunk_aligned,
            chunk.first && chunk.last,
    {
        AuChunk {
            data: au.data,
            pts_ns: au.pts_ns,
            keyframe: au.keyframe,
            recovery_anchor: au.recovery_anchor,
            chunk_aligned: au.chunk_aligned,
            first: true,
            last: true,
        }
    }
}

/// The bytes of `full` from `from` on.
pub fn copy_tail(full: &[u8], from: usize) -> (tail: Vec<u8>)
    requires
        from <= full@.len(),
    ensures
        tail@ == full@.subrange(from as int, full@.len() as int),
{
    let mut tail: Vec<u8> = Vec::new();
    let mut i: usize = from;
    while i < full.len()
        invariant
            from <= i <= full@.len(),
            tail@ == full@.subrange(from as int, i as int),
        decreases full@.len() - i,
    {
        tail.push(full[i]);
        i = i + 1;
        assert(full@.subrange(from as int, i as int) =~= full@.subrange(
            from as int,
            i - 1,
        ).push(full@[i - 1]));
    }
    tail
}

/// What a session may promise its client.
#[derive(Clone, Copy, Debug, PartialEq, Eq, Structural)]
pub struct EncoderCaps {
    pub blends_cursor: bool,
    pub supports_rfi: bool,
    pub chroma_444: bool,
    pub intra_refresh: bool,
    pub intra_refresh_recovery: bool,
    pub intra_refresh_period: u32,
}

/// The codecs an adapter encodes.
#[derive(Clone, Copy, Debug, PartialEq, Eq, Structural)]
pub struct CodecSupport {
    pub h264: bool,
    pub h265: bool,
    pub av1: bool,
}

impl CodecSupport {
    /// Whether `codec` is among them.
    pub open spec fn covers(self, codec: Codec) -> bool {
        match codec {
            Codec::H264 => self.h264,
            Codec::H265 => self.h265,
            Codec::Av1 => self.av1,
            Codec::PyroWave => false,
        }
    }
}

/// Static HDR mastering metadata. Primaries are in green, blue, red order and in units of 1/50000,
/// both mastering luminances in units of 0.0001 cd/m2.
#[derive(Clone, Copy, Debug)]
pub struct HdrMeta {
    pub display_primaries: [[u16; 2]; 3],
    pub white_point: [u16; 2],
    pub max_display_mastering_luminance: u32,
    pub min_display_mastering_luminance: u32,
    pub max_cll: u16,
    pub max_fall: u16,
}

impl HdrMeta {
    /// Both grades carry the same values.
    pub open spec fn same_as(self, other: HdrMeta) -> bool {
        &&& forall|i: int|
            0 <= i < 3 ==> {
                &&& #[trigger] self.display_primaries@[i]@[0] == other.display_primaries@[i]@[0]
                &&& self.display_primaries@[i]@[1] == other.display_primaries@[i]@[1]
            }
        &&& self.white_point@[0] == other.white_point@[0]
        &&& self.white_point@[1] == other.white_point@[1]
        &&& self.max_display_mastering_luminance == other.max_display_mastering_luminance
        &&& self.min_display_mastering_luminance == other.min_display_mastering_luminance
        &&& self.max_cll == other.max_cll
        &&& self.max_fall == other.max_fall
    }

    pub fn equals(&self, other: &HdrMeta) -> (r: bool)
        ensures
            r == self.same_as(*other),
    {
        let mut i: usize = 0;
        while i < 3
            invariant
                i <= 3,
                forall|j: int|
                    0 <= j < i ==> {
                        &&& #[trigger] self.display_primaries@[j]@[0]
                            == other.display_primaries@[j]@[0]
                        &&& self.display_primaries@[j]@[1] == other.display_primaries@[j]@[1]
                    },
            decreases 3 - i,
        {
            let a: [u16; 2] = self.display_primaries[i];
            let b: [u16; 2] = other.display_primaries[i];
            if a[0] != b[0] || a[1] != b[1] {
                assert(self.display_primaries@[i as int]@[0] == a@[0]);
                return false;
            }
            i = i + 1;
        }
        self.white_point[0] == other.white_point[0] && self.white_point[1] == other.white_point[1]
            && self.max_display_mastering_luminance == other.max_display_mastering_luminance
            && self.min_display_mastering_luminance == other.min_display_mastering_luminance
            && self.max_cll == other.max_cll && self.max_fall == other.max_fall
    }
}

/// Both are absent, or both are present and carry the same values.
pub open spec fn same_meta(a: Option<HdrMeta>, b: Option<HdrMeta>) -> bool {
    match (a, b) {
        (Some(x), Some(y)) => x.same_as(y),
        (None, None) => true,
        _ => false,
    }
}

pub fn meta_equals(a: &Option<HdrMeta>, b: &Option<HdrMeta>) -> (r: bool)
    ensures
        r == same_meta(*a, *b),
{
    match (a, b) {
        (Some(x), Some(y)) => x.equals(y),
        (None, None) => true,
        _ => false,
    }
}

/// Ten-bit streams are HEVC and AV1, full chroma is 4:4:4, and ten-bit pixels are the two ten-bit
/// layouts.
pub proof fn law_depth_and_chroma_by_name(
    codec: Codec,
    deep: bool,
    chroma: ChromaFormat,
    full: bool,
    format: PixelFormat,
    ten: bool,
)
    requires
        call_ensures(Codec::supports_10bit, (codec,), deep),
        call_ensures(ChromaFormat::is_444, (chroma,), full),
        call_ensures(is_10bit_format, (format,), ten),
    ensures
        deep <==> codec == Codec::H265 || codec == Codec::Av1,
        full <==> chroma == ChromaFormat::Yuv444,
        ten <==> format == PixelFormat::P010 || format == PixelFormat::Rgb10a2,
{
}

/// A unit delivered as one chunk is its first and its last, and loses nothing of it. The tail of a
/// unit, put behind its head, is the unit.
pub proof fn law_chunks_lose_nothing(
    au: EncodedFrame,
    c: AuChunk,
    full: &[u8],
    from: usize,
    tail: Vec<u8>,
)
    requires
        call_ensures(AuChunk::whole, (au,), c),
        from <= full@.len(),
        call_ensures(copy_tail, (full, from), tail),
    ensures
        c.data@ == au.data@ && c.pts_ns == au.pts_ns && c.keyframe == au.keyframe,
        c.recovery_anchor == au.recovery_anchor && c.chunk_aligned == au.chunk_aligned,
        c.first && c.last,
        full@.take(from as int) + tail@ == full@,
{
    assert(full@.take(from as int) + full@.subrange(from as int, full@.len() as int) =~= full@);
}

/// Grades are the same exactly where every value is; a grade is never the same as none.
pub proof fn law_grades_are_told_apart_by_any_value(a: HdrMeta, b: HdrMeta, r: bool, s: bool, n: bool)
    requires
        call_ensures(HdrMeta::equals, (&a, &b), r),
        call_ensures(meta_equals, (&Some(a), &Some(b)), s),
        call_ensures(meta_equals, (&Some(a), &None), n),
    ensures
        s == r,
        !n,
        a == b ==> r,
        r ==> {
            &&& a.white_point@[0] == b.white_point@[0] && a.white_point@[1] == b.white_point@[1]
            &&& a.max_cll == b.max_cll && a.max_fall == b.max_fall
            &&& a.max_display_mastering_luminance == b.max_display_mastering_luminance
            &&& a.min_display_mastering_luminance == b.min_display_mastering_luminance
            &&& forall|i: int, k: int|
                0 <= i < 3 && 0 <= k < 2 ==> #[trigger] a.display_primaries@[i]@[k]
                    == b.display_primaries@[i]@[k]
        },
{
    if r {
        assert forall|i: int, k: int| 0 <= i < 3 && 0 <= k < 2 implies #[trigger] a.display_primaries@[i]@[k]
            == b.display_primaries@[i]@[k] by {
            assert(a.display_primaries@[i]@[0] == b.display_primaries@[i]@[0]);
            assert(k == 0 || k == 1);
        }
    }
}

/// No grade is the same as no grade, and being the same is mutual.
pub proof fn law_no_grade_is_no_grade(
    a: Option<HdrMeta>,
    b: Option<HdrMeta>,
    none: bool,
    ab: bool,
    ba: bool,
)
    requires
        call_ensures(meta_equals, (&None, &None), none),
        call_ensures(meta_equals, (&a, &b), ab),
        call_ensures(meta_equals, (&b, &a), ba),
    ensures
        none,
        ab == ba,
        ab ==> (a is Some <==> b is Some),
{
    if a is Some && b is Some {
        let (x, y) = (a->0, b->0);
        if x.same_as(y) {
            assert forall|i: int| 0 <= i < 3 implies y.display_primaries@[i]@[0] == (
            #[trigger] x.display_primaries@[i])@[0] && y.display_primaries@[i]@[1]
                == x.display_primaries@[i]@[1] by {
                assert(x.display_primaries@[i]@[0] == y.display_primaries@[i]@[0]);
            }
        }
        if y.same_as(x) {
            assert forall|i: int| 0 <= i < 3 implies x.display_primaries@[i]@[0] == (
            #[trigger] y.display_primaries@[i])@[0] && x.display_primaries@[i]@[1]
                == y.display_primaries@[i]@[1] by {
                assert(y.display_primaries@[i]@[0] == x.display_primaries@[i]@[0]);
            }
        }
    }
}

} // verus!
