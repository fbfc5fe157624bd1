//! Result codes, versions and value types of the AMF runtime interface.
use crate::layout::{c_layout, end_of, max_align, offset_at, Field, Layout};
use vstd::prelude::*;

verus! {

pub type AmfResult = i32;

pub const AMF_OK: i32 = 0;

pub const AMF_EOF: i32 = 23;

pub const AMF_REPEAT: i32 = 24;

pub const AMF_INPUT_FULL: i32 = 25;

pub const AMF_NEED_MORE_INPUT: i32 = 44;

/// The name of each result code; codes without one share a placeholder.
pub open spec fn code_name(r: i32) -> Seq<char> {
    match r {
        0 => "AMF_OK"@,
        1 => "AMF_FAIL"@,
        2 => "AMF_UNEXPECTED"@,
        3 => "AMF_ACCESS_DENIED"@,
        4 => "AMF_INVALID_ARG"@,
        5 => "AMF_OUT_OF_RANGE"@,
        6 => "AMF_OUT_OF_MEMORY"@,
        7 => "AMF_INVALID_POINTER"@,
        8 => "AMF_NO_INTERFACE"@,
        9 => "AMF_NOT_IMPLEMENTED"@,
        10 => "AMF_NOT_SUPPORTED"@,
        11 => "AMF_NOT_FOUND"@,
        12 => "AMF_ALREADY_INITIALIZED"@,
        13 => "AMF_NOT_INITIALIZED"@,
        14 => "AMF_INVALID_FORMAT"@,
        15 => "AMF_WRONG_STATE"@,
        17 => "AMF_NO_DEVICE"@,
        18 => "AMF_DIRECTX_FAILED"@,
        23 => "AMF_EOF"@,
        24 => "AMF_REPEAT"@,
        25 => "AMF_INPUT_FULL"@,
        26 => "AMF_RESOLUTION_CHANGED"@,
        28 => "AMF_INVALID_DATA_TYPE"@,
        29 => "AMF_INVALID_RESOLUTION"@,
        30 => "AMF_CODEC_NOT_SUPPORTED"@,
        31 => "AMF_SURFACE_FORMAT_NOT_SUPPORTED"@,
        32 => "AMF_SURFACE_MUST_BE_SHARED"@,
        36 => "AMF_ENCODER_NOT_PRESENT"@,
        44 => "AMF_NEED_MORE_INPUT"@,
        _ => "AMF_<unnamed>"@,
    }
}

/// Readable name of a result code.
pub fn result_name(r: AmfResult) -> (name: &'static str)
    ensures
        name@ == code_name(r),
{
    match r {
        0 => "AMF_OK",
        1 => "AMF_FAIL",
        2 => "AMF_UNEXPECTED",
        3 => "AMF_ACCESS_DENIED",
        4 => "AMF_INVALID_ARG",
        5 => "AMF_OUT_OF_RANGE",
        6 => "AMF_OUT_OF_MEMORY",
        7 => "AMF_INVALID_POINTER",
        8 => "AMF_NO_INTERFACE",
        9 => "AMF_NOT_IMPLEMENTED",
        10 => "AMF_NOT_SUPPORTED",
        11 => "AMF_NOT_FOUND",
        12 => "AMF_ALREADY_INITIALIZED",
        13 => "AMF_NOT_INITIALIZED",
        14 => "AMF_INVALID_FORMAT",
        15 => "AMF_WRONG_STATE",
        17 => "AMF_NO_DEVICE",
        18 => "AMF_DIRECTX_FAILED",
        23 => "AMF_EOF",
        24 => "AMF_REPEAT",
        25 => "AMF_INPUT_FULL",
        26 => "AMF_RESOLUTION_CHANGED",
        28 => "AMF_INVALID_DATA_TYPE",
        29 => "AMF_INVALID_RESOLUTION",
        30 => "AMF_CODEC_NOT_SUPPORTED",
        31 => "AMF_SURFACE_FORMAT_NOT_SUPPORTED",
        32 => "AMF_SURFACE_MUST_BE_SHARED",
        36 => "AMF_ENCODER_NOT_PRESENT",
        44 => "AMF_NEED_MORE_INPUT",
        _ => "AMF_<unnamed>",
    }
}

/// The interface release spoken here, 1.4.36.
pub const AMF_HEADER_VERSION: u64 = 0x0001_0004_0024_0000;

/// The oldest runtime release accepted, 1.4.34.
pub const AMF_MIN_VERSION: u64 = 0x0001_0004_0022_0000;

pub const AMF_SURFACE_NV12: i32 = 1;

pub const AMF_SURFACE_P010: i32 = 10;

pub const AMF_DX11_1: i32 = 111;

pub const AMF_MEMORY_HOST: i32 = 1;

/// A version word from its major, minor and release numbers.
pub open spec fn version_word(major: int, minor: int, release: int) -> int {
    major * 0x1_0000_0000_0000 + minor * 0x1_0000_0000 + release * 0x1_0000
}

/// Both version bounds are of the 1.4 line, and the spoken release is accepted by itself.
pub proof fn law_version_bounds()
    ensures
        AMF_HEADER_VERSION == version_word(1, 4, 36),
        AMF_MIN_VERSION == version_word(1, 4, 34),
        AMF_MIN_VERSION <= AMF_HEADER_VERSION,
{
}

/// HDR mastering metadata as the runtime takes it.
#[derive(Debug, Clone, Copy)]
pub struct AmfHdrMetadata {
    pub red_primary: [u16; 2],
    pub green_primary: [u16; 2],
    pub blue_primary: [u16; 2],
    pub white_point: [u16; 2],
    pub max_mastering_luminance: u32,
    pub min_mastering_luminance: u32,
    pub max_content_light_level: u16,
    pub max_frame_average_light_level: u16,
}

/// An interface identifier.
#[derive(Debug, Clone, Copy)]
pub struct AmfGuid {
    pub data1: u32,
    pub data2: u16,
    pub data3: u16,
    pub data4: [u8; 8],
}

/// Identifier of the buffer interface.
pub fn iid_amf_buffer() -> (g: AmfGuid)
    ensures
        g.data1 == 0xb04b_7248,
        g.data2 == 0xb6f0,
        g.data3 == 0x4321,
        g.data4@ =~= seq![0xb6u8, 0x91, 0xba, 0xa4, 0x74, 0x0f, 0x9f, 0xcb],
{
    AmfGuid {
        data1: 0xb04b_7248,
        data2: 0xb6f0,
        data3: 0x4321,
        data4: [0xb6, 0x91, 0xba, 0xa4, 0x74, 0x0f, 0x9f, 0xcb],
    }
}

pub const AMF_VARIANT_EMPTY: i32 = 0;

pub const AMF_VARIANT_BOOL: i32 = 1;

pub const AMF_VARIANT_INT64: i32 = 2;

pub const AMF_VARIANT_RATE: i32 = 7;

pub const AMF_VARIANT_INTERFACE: i32 = 12;

/// A tagged property value. The payload is packed little-endian into two words: a boolean in the low
/// byte, an integer in the first word, a rate as its numerator below its denominator.
#[derive(Debug, Clone, Copy)]
pub struct AmfVariant {
    pub vtype: i32,
    pub payload: [u64; 2],
}

/// Content of an [`AmfVariant`].
pub struct VariantModel {
    pub vtype: i32,
    pub low: u64,
    pub high: u64,
}

impl View for AmfVariant {
    type V = VariantModel;

    open spec fn view(&self) -> VariantModel {
        VariantModel { vtype: self.vtype, low: self.payload@[0], high: self.payload@[1] }
    }
}

impl VariantModel {
    pub open spec fn of_int(v: i64) -> VariantModel {
        VariantModel { vtype: AMF_VARIANT_INT64, low: v as u64, high: 0 }
    }

    pub open spec fn of_bool(v: bool) -> VariantModel {
        VariantModel {
            vtype: AMF_VARIANT_BOOL,
            low: if v {
                1
            } else {
                0
            },
            high: 0,
        }
    }

    pub open spec fn of_rate(num: u32, den: u32) -> VariantModel {
        VariantModel {
            vtype: AMF_VARIANT_RATE,
            low: (num + den * 0x1_0000_0000) as u64,
            high: 0,
        }
    }

    /// The integer it holds, where it holds one.
    pub open spec fn as_int(self) -> Option<i64> {
        if self.vtype == AMF_VARIANT_INT64 {
            Some(self.low as i64)
        } else {
            None
        }
    }
}

impl AmfVariant {
    /// The empty value.
    pub fn zeroed() -> (v: AmfVariant)
        ensures
            v@ == (VariantModel { vtype: AMF_VARIANT_EMPTY, low: 0, high: 0 }),
    {
        AmfVariant { vtype: AMF_VARIANT_EMPTY, payload: [0, 0] }
    }

    pub fn from_i64(v: i64) -> (r: AmfVariant)
        ensures
            r@ == VariantModel::of_int(v),
    {
        AmfVariant { vtype: AMF_VARIANT_INT64, payload: [v as u64, 0] }
    }

    pub fn from_bool(v: bool) -> (r: AmfVariant)
        ensures
            r@ == VariantModel::of_bool(v),
    {
        let low: u64 = if v {
            1
        } else {
            0
        };
        AmfVariant { vtype: AMF_VARIANT_BOOL, payload: [low, 0] }
    }

    /// A rate, numerator over denominator.
    pub fn from_rate(num: u32, den: u32) -> (r: AmfVariant)
        ensures
            r@ == VariantModel::of_rate(num, den),
    {
        let n: u64 = num as u64;
        let d: u64 = den as u64;
        assert(n | (d << 32u64) == n + d * 0x1_0000_0000) by (bit_vector)
            requires
                n <= 0xffff_ffff,
                d <= 0xffff_ffff,
        ;
        AmfVariant { vtype: AMF_VARIANT_RATE, payload: [n | (d << 32u64), 0] }
    }

    /// An interface, by its address. The property store takes its own reference.
    pub fn from_interface(address: u64) -> (r: AmfVariant)
        ensures
            r@ == (VariantModel { vtype: AMF_VARIANT_INTERFACE, low: address, high: 0 }),
    {
        AmfVariant { vtype: AMF_VARIANT_INTERFACE, payload: [address, 0] }
    }

    /// The integer it holds, where it holds one.
    pub fn as_i64(&self) -> (r: Option<i64>)
        ensures
            r == self@.as_int(),
    {
        if self.vtype == AMF_VARIANT_INT64 {
            Some(self.payload[0] as i64)
        } else {
            None
        }
    }
}

/// An integer value reads back as the integer it was made of, negative ones included; no other value
/// reads back as an integer.
pub proof fn law_integers_read_back(v: i64, b: bool, num: u32, den: u32)
    ensures
        VariantModel::of_int(v).as_int() == Some(v),
        v >= 0 ==> VariantModel::of_int(v).low == v,
        v == -1 ==> VariantModel::of_int(v).low == u64::MAX,
        VariantModel::of_bool(b).as_int() is None,
        VariantModel::of_rate(num, den).as_int() is None,
{
    assert((v as u64) as i64 == v) by (bit_vector);
    assert(v == -1 ==> (v as u64) == 0xffff_ffff_ffff_ffffu64) by (bit_vector);
}

/// A rate keeps both its parts.
pub proof fn law_rates_keep_both_parts(num: u32, den: u32)
    ensures
        VariantModel::of_rate(num, den).low % 0x1_0000_0000 == num,
        VariantModel::of_rate(num, den).low / 0x1_0000_0000 == den,
{
    let word = (num + den * 0x1_0000_0000) as u64;
    assert(word == num + den * 0x1_0000_0000);
}

proof fn lemma_one_more(fields: Seq<Field>, k: int)
    requires
        0 <= k < fields.len(),
    ensures
        end_of(fields.take(k + 1)) == offset_at(fields, k) + fields[k].size,
        max_align(fields.take(k + 1)) == if fields[k].align > max_align(fields.take(k)) {
            fields[k].align as int
        } else {
            max_align(fields.take(k))
        },
{
    assert(fields.take(k + 1).drop_last() =~= fields.take(k));
    assert(fields.take(k + 1).last() == fields[k]);
}

proof fn lemma_no_members(fields: Seq<Field>)
    ensures
        end_of(fields.take(0)) == 0,
        max_align(fields.take(0)) == 1,
{
    assert(fields.take(0) =~= Seq::<Field>::empty());
}

impl AmfVariant {
    /// Members and size as the runtime lays them out: the tag, then the payload on a word boundary.
    /// The list of members is written out by hand; that the type has these members is not proved.
    pub fn layout() -> (l: Layout)
        ensures
            l.offsets@ =~= seq![0usize, 8],
            l.size == 24,
            l.align == 8,
    {
        let fields: [Field; 2] = [Field { size: 4, align: 4 }, Field { size: 16, align: 8 }];
        proof {
            lemma_no_members(fields@);
            lemma_one_more(fields@, 0);
            lemma_one_more(fields@, 1);
            assert(fields@.take(2) =~= fields@);
        }
        c_layout(&fields)
    }
}

impl AmfGuid {
    /// Members and size as the runtime lays them out.
    /// The list of members is written out by hand; that the type has these members is not proved.
    pub fn layout() -> (l: Layout)
        ensures
            l.offsets@ =~= seq![0usize, 4, 6, 8],
            l.size == 16,
            l.align == 4,
    {
        let fields: [Field; 4] = [
            Field { size: 4, align: 4 },
            Field { size: 2, align: 2 },
            Field { size: 2, align: 2 },
            Field { size: 8, align: 1 },
        ];
        proof {
            lemma_no_members(fields@);
            assert(fields@[0] == (Field { size: 4, align: 4 }) && offset_at(fields@, 0) == 0);
            lemma_one_more(fields@, 0);
            assert(fields@[1] == (Field { size: 2, align: 2 }) && offset_at(fields@, 1) == 4);
            lemma_one_more(fields@, 1);
            assert(fields@[2] == (Field { size: 2, align: 2 }) && offset_at(fields@, 2) == 6);
            lemma_one_more(fields@, 2);
            assert(fields@[3] == (Field { size: 8, align: 1 }) && offset_at(fields@, 3) == 8);
            lemma_one_more(fields@, 3);
            assert(fields@.take(4) =~= fields@);
        }
        c_layout(&fields)
    }
}

impl AmfHdrMetadata {
    /// Members and size as the runtime lays them out: there is no padding.
    /// The list of members is written out by hand; that the type has these members is not proved.
    pub fn layout() -> (l: Layout)
        ensures
            l.offsets@ =~= seq![0usize, 4, 8, 12, 16, 20, 24, 26],
            l.size == 28,
            l.align == 4,
    {
        let fields: [Field; 8] = [
            Field { size: 4, align: 2 },
            Field { size: 4, align: 2 },
            Field { size: 4, align: 2 },
            Field { size: 4, align: 2 },
            Field { size: 4, align: 4 },
            Field { size: 4, align: 4 },
            Field { size: 2, align: 2 },
            Field { size: 2, align: 2 },
        ];
        proof {
            lemma_no_members(fields@);
            assert(fields@[0] == (Field { size: 4, align: 2 }) && offset_at(fields@, 0) == 0);
            lemma_one_more(fields@, 0);
            assert(fields@[1] == (Field { size: 4, align: 2 }) && offset_at(fields@, 1) == 4);
            lemma_one_more(fields@, 1);
            assert(fields@[2] == (Field { size: 4, align: 2 }) && offset_at(fields@, 2) == 8);
            lemma_one_more(fields@, 2);
            assert(fields@[3] == (Field { size: 4, align: 2 }) && offset_at(fields@, 3) == 12);
            lemma_one_more(fields@, 3);
            assert(fields@[4] == (Field { size: 4, align: 4 }) && offset_at(fields@, 4) == 16);
            lemma_one_more(fields@, 4);
            assert(fields@[5] == (Field { size: 4, align: 4 }) && offset_at(fields@, 5) == 20);
            lemma_one_more(fields@, 5);
            assert(fields@[6] == (Field { size: 2, align: 2 }) && offset_at(fields@, 6) == 24);
            lemma_one_more(fields@, 6);
            assert(fields@[7] == (Field { size: 2, align: 2 }) && offset_at(fields@, 7) == 26);
            lemma_one_more(fields@, 7);
            assert(fields@.take(8) =~= fields@);
        }
        c_layout(&fields)
    }
}

/// The structures are laid out without a gap but for the four bytes behind a variant's tag, and the
/// identifier is as large as its four parts.
pub proof fn law_structures_have_the_size_of_their_parts(
    variant: Layout,
    guid: Layout,
    metadata: Layout,
)
    requires
        call_ensures(AmfVariant::layout, (), variant),
        call_ensures(AmfGuid::layout, (), guid),
        call_ensures(AmfHdrMetadata::layout, (), metadata),
    ensures
        variant.offsets@.len() == 2 && guid.offsets@.len() == 4 && metadata.offsets@.len() == 8,
        variant.offsets@[0] == 0 && variant.offsets@[1] == 4 + 4 && variant.size
            == variant.offsets@[1] + 16,
        guid.offsets@[0] == 0 && guid.offsets@[1] == 4 && guid.offsets@[2] == guid.offsets@[1] + 2
            && guid.offsets@[3] == guid.offsets@[2] + 2 && guid.size == guid.offsets@[3] + 8,
        forall|i: int| 0 <= i < 7 ==> #[trigger] metadata.offsets@[i] == 4 * i,
        metadata.offsets@[7] == metadata.offsets@[6] + 2 && metadata.size == metadata.offsets@[7] + 2,
        variant.align == 8 && guid.align == 4 && metadata.align == 4,
{
}

} // verus!
