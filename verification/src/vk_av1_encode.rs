//! `VK_KHR_video_encode_av1` definitions that the Vulkan binding does not carry: structure-type
//! values, capability bits and the bit-packed flag words of the standard AV1 encode structures.
//!
//! A flag word is a C bitfield, allocated in declaration order. Where its members lie depends on the
//! machine: a little-endian one fills each byte from its low bit up, a big-endian one from its high bit
//! down.
#![allow(non_snake_case, non_camel_case_types)]
use vstd::endian::*;
use vstd::prelude::*;

verus! {

// Structure-type values.
pub const ST_CAPABILITIES: i32 = 1_000_513_000;

pub const ST_SESSION_PARAMETERS_CREATE_INFO: i32 = 1_000_513_001;

pub const ST_PICTURE_INFO: i32 = 1_000_513_002;

pub const ST_DPB_SLOT_INFO: i32 = 1_000_513_003;

pub const ST_PHYSICAL_DEVICE_FEATURES: i32 = 1_000_513_004;

pub const ST_PROFILE_INFO: i32 = 1_000_513_005;

pub const ST_RATE_CONTROL_INFO: i32 = 1_000_513_006;

pub const ST_RATE_CONTROL_LAYER_INFO: i32 = 1_000_513_007;

pub const ST_SESSION_CREATE_INFO: i32 = 1_000_513_009;

pub const ST_GOP_REMAINING_FRAME_INFO: i32 = 1_000_513_010;

/// Codec-operation bit of AV1 encode.
pub const VIDEO_CODEC_OPERATION_ENCODE_AV1: u32 = 0x0004_0000;

/// The inter reference names LAST to ALTREF.
pub const MAX_VIDEO_AV1_REFERENCES_PER_FRAME: usize = 7;

/// A frame that inherits no probability state from any reference.
pub const PRIMARY_REF_NONE: u8 = 7;

/// The 128-pixel bit of the superblock-size flags.
pub const SUPERBLOCK_SIZE_128: u32 = 0x2;

/// Without this capability the source's coded extent equals the sequence header's frame size.
pub const CAPABILITY_FRAME_SIZE_OVERRIDE: u32 = 0x0000_0008;

/// Without this capability every reference slot's coded extent equals the source's.
pub const CAPABILITY_MOTION_VECTOR_SCALING: u32 = 0x0000_0010;

pub const PREDICTION_MODE_INTRA_ONLY: i32 = 0;

pub const PREDICTION_MODE_SINGLE_REFERENCE: i32 = 1;

pub const RC_GROUP_INTRA: i32 = 0;

pub const RC_GROUP_PREDICTIVE: i32 = 1;

pub const RC_GROUP_BIPREDICTIVE: i32 = 2;

/// Index of LAST in the list of reference-name slot indices.
pub const REFERENCE_NAME_LAST_FRAME_IDX: usize = 0;

/// Bit `k` of a byte.
pub open spec fn byte_bit(byte: u8, k: int) -> bool {
    (byte & (1u8 << (k as u8))) != 0
}

/// Bit `k` of a word.
pub open spec fn word_bit(word: u64, k: int) -> bool {
    (word & (1u64 << (k as u64))) != 0
}

/// The place of the `i`-th of `n` bits: counted from the low end on a little-endian machine, from the
/// high end on a big-endian one.
pub open spec fn place(e: Endian, i: int, n: int) -> int {
    match e {
        Endian::Little => i,
        Endian::Big => n - 1 - i,
    }
}

/// The bits of a byte string in the order in which a C compiler allocates them.
pub open spec fn bits_of(e: Endian, bytes: Seq<u8>) -> Seq<bool> {
    Seq::new((8 * bytes.len()) as nat, |i: int| byte_bit(bytes[i / 8], place(e, i % 8, 8)))
}

/// `val` is what the `width` bits from `offset` on hold; its other bits are zero.
pub open spec fn bits_read(
    e: Endian,
    bits: Seq<bool>,
    offset: int,
    width: int,
    val: u64,
) -> bool {
    forall|i: int|
        0 <= i < 64 ==> (#[trigger] word_bit(val, i) <==> i < width && bits[offset + place(
            e,
            i,
            width,
        )])
}

/// What a one-bit member takes of the value written to it.
pub open spec fn low_bit(val: u32) -> bool {
    val % 2 == 1
}

/// `bits` with the `width` bits from `offset` on replaced by the low bits of `val`.
pub open spec fn bits_written(
    e: Endian,
    bits: Seq<bool>,
    offset: int,
    width: int,
    val: u64,
) -> Seq<bool> {
    Seq::new(
        bits.len(),
        |i: int|
            if offset <= i < offset + width {
                word_bit(val, place(e, i - offset, width))
            } else {
                bits[i]
            },
    )
}

/// `bits` when of the `width` bits from `offset` on those were replaced that take the first `done`
/// bits of `val`.
spec fn partly_written(
    e: Endian,
    bits: Seq<bool>,
    offset: int,
    width: int,
    val: u64,
    done: int,
) -> Seq<bool> {
    Seq::new(
        bits.len(),
        |i: int|
            if offset <= i < offset + width && place(e, i - offset, width) < done {
                word_bit(val, place(e, i - offset, width))
            } else {
                bits[i]
            },
    )
}

/// `u16::to_ne_bytes`: the two bytes of a number as the machine keeps them in memory, the low one first
/// on a little-endian machine and the high one first on a big-endian one.
#[verifier::external_body]
fn native_bytes(n: u16) -> (bytes: [u8; 2])
    ensures
        bytes@ == match endianness() {
            Endian::Little => seq![(n % 256) as u8, (n / 256) as u8],
            Endian::Big => seq![(n / 256) as u8, (n % 256) as u8],
        },
{
    n.to_ne_bytes()
}

/// Whether this is a big-endian machine.
fn big_endian() -> (big: bool)
    ensures
        big == (endianness() is Big),
{
    native_bytes(1)[0] == 0
}

/// The place of the `i`-th of `n` bits on this machine.
fn native_place(i: usize, n: usize) -> (k: usize)
    requires
        i < n,
    ensures
        k == place(endianness(), i as int, n as int),
        k < n,
{
    if big_endian() {
        n - 1 - i
    } else {
        i
    }
}

/// Storage of a C bitfield.
#[derive(Debug, Clone, Copy, Default)]
pub struct __BindgenBitfieldUnit<Storage> {
    storage: Storage,
}

impl<Storage> View for __BindgenBitfieldUnit<Storage> {
    type V = Storage;

    closed spec fn view(&self) -> Storage {
        self.storage
    }
}

impl<Storage> __BindgenBitfieldUnit<Storage> {
    pub fn new(storage: Storage) -> (unit: Self)
        ensures
            unit@ == storage,
    {
        Self { storage }
    }
}

impl<const N: usize> __BindgenBitfieldUnit<[u8; N]> {
    /// The bits of the unit in the order in which a C compiler allocates them on this machine.
    pub open spec fn bits(self) -> Seq<bool> {
        bits_of(endianness(), self@@)
    }

    /// Bit `index` of the unit.
    pub fn get_bit(&self, index: usize) -> (bit: bool)
        requires
            index < 8 * N,
        ensures
            bit == self.bits()[index as int],
    {
        let byte_index: usize = index / 8;
        let byte: u8 = self.storage[byte_index];
        let bit_index: u8 = native_place(index % 8, 8) as u8;
        let mask: u8 = 1u8 << bit_index;
        assert((byte & (1u8 << bit_index)) == (1u8 << bit_index) <==> (byte & (1u8 << bit_index))
            != 0) by (bit_vector)
            requires
                bit_index < 8,
        ;
        byte & mask == mask
    }

    /// Writes bit `index` and leaves the others alone.
    pub fn set_bit(&mut self, index: usize, val: bool)
        requires
            index < 8 * N,
        ensures
            final(self).bits() =~= old(self).bits().update(index as int, val),
    {
        let byte_index: usize = index / 8;
        let byte: u8 = self.storage[byte_index];
        let bit_index: u8 = native_place(index % 8, 8) as u8;
        let mask: u8 = 1u8 << bit_index;
        let updated: u8 = if val {
            byte | mask
        } else {
            byte & !mask
        };
        let ghost before = self.storage@;
        self.storage[byte_index] = updated;
        proof {
            let e = endianness();
            assert(self.storage@ =~= before.update(byte_index as int, updated));
            assert forall|i: int| 0 <= i < 8 * N implies #[trigger] bits_of(e, self.storage@)[i]
                == bits_of(e, before).update(index as int, val)[i] by {
                if i / 8 == byte_index as int {
                    let k = place(e, i % 8, 8) as u8;
                    assert(updated == if val {
                        byte | (1u8 << bit_index)
                    } else {
                        byte & !(1u8 << bit_index)
                    });
                    assert((updated & (1u8 << k)) != 0 <==> if k == bit_index {
                        val
                    } else {
                        (byte & (1u8 << k)) != 0
                    }) by (bit_vector)
                        requires
                            k < 8,
                            bit_index < 8,
                            updated == if val {
                                byte | (1u8 << bit_index)
                            } else {
                                byte & !(1u8 << bit_index)
                            },
                    ;
                    assert(i == index as int <==> k == bit_index);
                }
            }
        }
    }

    /// The `bit_width` bits from `bit_offset` on, as the low bits of a word.
    pub fn get(&self, bit_offset: usize, bit_width: u8) -> (val: u64)
        requires
            bit_width <= 64,
            bit_width > 0 ==> bit_offset + bit_width <= 8 * N && bit_offset + bit_width - 1 <= usize::MAX,
        ensures
            bits_read(endianness(), self.bits(), bit_offset as int, bit_width as int, val),
    {
        let width: usize = bit_width as usize;
        let mut val: u64 = 0;
        let mut i: usize = 0;
        proof {
            assert forall|k: int| 0 <= k < 64 implies !#[trigger] word_bit(0, k) by {
                let s = k as u64;
                assert(0u64 & (1u64 << s) == 0) by (bit_vector);
            }
        }
        while i < width
            invariant
                i <= width <= 64,
                width == bit_width,
                bit_width > 0 ==> bit_offset + bit_width <= 8 * N && bit_offset + bit_width - 1 <= usize::MAX,
                forall|k: int|
                    0 <= k < 64 ==> (#[trigger] word_bit(val, k) <==> k < width && place(
                        endianness(),
                        k,
                        width as int,
                    ) < i && self.bits()[bit_offset + place(endianness(), k, width as int)]),
            decreases width - i,
        {
            let ghost before = val;
            let bit = self.get_bit(i + bit_offset);
            if bit {
                let at: u64 = native_place(i, width) as u64;
                val = val | (1u64 << at);
                assert forall|k: int| 0 <= k < 64 implies (#[trigger] word_bit(val, k) <==> word_bit(
                    before,
                    k,
                ) || k == at) by {
                    let s = k as u64;
                    assert(((before | (1u64 << at)) & (1u64 << s)) != 0 <==> (before & (1u64 << s))
                        != 0 || s == at) by (bit_vector)
                        requires
                            s < 64,
                            at < 64,
                    ;
                }
            }
            i = i + 1;
        }
        val
    }

    /// Writes the low `bit_width` bits of `val` from `bit_offset` on.
    pub fn set(&mut self, bit_offset: usize, bit_width: u8, val: u64)
        requires
            bit_width <= 64,
            bit_width > 0 ==> bit_offset + bit_width <= 8 * N && bit_offset + bit_width - 1 <= usize::MAX,
        ensures
            final(self).bits() =~= bits_written(
                endianness(),
                old(self).bits(),
                bit_offset as int,
                bit_width as int,
                val,
            ),
    {
        let ghost before = self.bits();
        let ghost e = endianness();
        let width: usize = bit_width as usize;
        let mut i: usize = 0;
        while i < width
            invariant
                i <= width <= 64,
                width == bit_width,
                bit_width > 0 ==> bit_offset + bit_width <= 8 * N && bit_offset + bit_width - 1 <= usize::MAX,
                before.len() == 8 * N,
                e == endianness(),
                self.bits() =~= partly_written(
                    e,
                    before,
                    bit_offset as int,
                    width as int,
                    val,
                    i as int,
                ),
            decreases width - i,
        {
            let at: u64 = i as u64;
            let mask: u64 = 1u64 << at;
            assert((val & (1u64 << at)) == (1u64 << at) <==> (val & (1u64 << at)) != 0)
                by (bit_vector)
                requires
                    at < 64,
            ;
            self.set_bit(native_place(i, width) + bit_offset, val & mask == mask);
            i = i + 1;
        }
    }

    /// Writes a one-bit member from the low bit of `val`.
    fn set_one(&mut self, bit_offset: usize, val: u32)
        requires
            bit_offset < 8 * N,
        ensures
            final(self).bits() =~= old(self).bits().update(bit_offset as int, low_bit(val)),
    {
        let wide: u64 = val as u64;
        assert((wide & (1u64 << 0u64)) != 0 <==> wide % 2 == 1) by (bit_vector);
        self.set(bit_offset, 1, wide)
    }
}

/// Flag word of the picture info.
#[derive(Debug, Clone, Copy)]
pub struct StdVideoEncodeAV1PictureInfoFlags {
    pub _bitfield_align_1: [u8; 0],
    pub _bitfield_1: __BindgenBitfieldUnit<[u8; 4]>,
}

impl StdVideoEncodeAV1PictureInfoFlags {
    /// The 32 bits of the flags word.
    pub open spec fn bits(self) -> Seq<bool> {
        self._bitfield_1.bits()
    }

    /// Writes `error_resilient_mode`, bit 0 of the flags word, from the low bit of `val`.
    pub fn set_error_resilient_mode(&mut self, val: u32)
        ensures
            final(self).bits() =~= old(self).bits().update(0, low_bit(val)),
    {
        self._bitfield_1.set_one(0, val)
    }

    /// Writes `disable_cdf_update`, bit 1 of the flags word, from the low bit of `val`.
    pub fn set_disable_cdf_update(&mut self, val: u32)
        ensures
            final(self).bits() =~= old(self).bits().update(1, low_bit(val)),
    {
        self._bitfield_1.set_one(1, val)
    }

    /// Writes `use_superres`, bit 2 of the flags word, from the low bit of `val`.
    pub fn set_use_superres(&mut self, val: u32)
        ensures
            final(self).bits() =~= old(self).bits().update(2, low_bit(val)),
    {
        self._bitfield_1.set_one(2, val)
    }

    /// Writes `render_and_frame_size_different`, bit 3 of the flags word, from the low bit of `val`.
    pub fn set_render_and_frame_size_different(&mut self, val: u32)
        ensures
            final(self).bits() =~= old(self).bits().update(3, low_bit(val)),
    {
        self._bitfield_1.set_one(3, val)
    }

    /// Writes `allow_screen_content_tools`, bit 4 of the flags word, from the low bit of `val`.
    pub fn set_allow_screen_content_tools(&mut self, val: u32)
        ensures
            final(self).bits() =~= old(self).bits().update(4, low_bit(val)),
    {
        self._bitfield_1.set_one(4, val)
    }

    /// Writes `is_filter_switchable`, bit 5 of the flags word, from the low bit of `val`.
    pub fn set_is_filter_switchable(&mut self, val: u32)
        ensures
            final(self).bits() =~= old(self).bits().update(5, low_bit(val)),
    {
        self._bitfield_1.set_one(5, val)
    }

    /// Writes `force_integer_mv`, bit 6 of the flags word, from the low bit of `val`.
    pub fn set_force_integer_mv(&mut self, val: u32)
        ensures
            final(self).bits() =~= old(self).bits().update(6, low_bit(val)),
    {
        self._bitfield_1.set_one(6, val)
    }

    /// Writes `frame_size_override_flag`, bit 7 of the flags word, from the low bit of `val`.
    pub fn set_frame_size_override_flag(&mut self, val: u32)
        ensures
            final(self).bits() =~= old(self).bits().update(7, low_bit(val)),
    {
        self._bitfield_1.set_one(7, val)
    }

    /// Writes `buffer_removal_time_present_flag`, bit 8 of the flags word, from the low bit of `val`.
    pub fn set_buffer_removal_time_present_flag(&mut self, val: u32)
        ensures
            final(self).bits() =~= old(self).bits().update(8, low_bit(val)),
    {
        self._bitfield_1.set_one(8, val)
    }

    /// Writes `allow_intrabc`, bit 9 of the flags word, from the low bit of `val`.
    pub fn set_allow_intrabc(&mut self, val: u32)
        ensures
            final(self).bits() =~= old(self).bits().update(9, low_bit(val)),
    {
        self._bitfield_1.set_one(9, val)
    }

    /// Writes `frame_refs_short_signaling`, bit 10 of the flags word, from the low bit of `val`.
    pub fn set_frame_refs_short_signaling(&mut self, val: u32)
        ensures
            final(self).bits() =~= old(self).bits().update(10, low_bit(val)),
    {
        self._bitfield_1.set_one(10, val)
    }

    /// Writes `allow_high_precision_mv`, bit 11 of the flags word, from the low bit of `val`.
    pub fn set_allow_high_precision_mv(&mut self, val: u32)
        ensures
            final(self).bits() =~= old(self).bits().update(11, low_bit(val)),
    {
        self._bitfield_1.set_one(11, val)
    }

    /// Writes `is_motion_mode_switchable`, bit 12 of the flags word, from the low bit of `val`.
    pub fn set_is_motion_mode_switchable(&mut self, val: u32)
        ensures
            final(self).bits() =~= old(self).bits().update(12, low_bit(val)),
    {
        self._bitfield_1.set_one(12, val)
    }

    /// Writes `use_ref_frame_mvs`, bit 13 of the flags word, from the low bit of `val`.
    pub fn set_use_ref_frame_mvs(&mut self, val: u32)
        ensures
            final(self).bits() =~= old(self).bits().update(13, low_bit(val)),
    {
        self._bitfield_1.set_one(13, val)
    }

    /// Writes `disable_frame_end_update_cdf`, bit 14 of the flags word, from the low bit of `val`.
    pub fn set_disable_frame_end_update_cdf(&mut self, val: u32)
        ensures
            final(self).bits() =~= old(self).bits().update(14, low_bit(val)),
    {
        self._bitfield_1.set_one(14, val)
    }

    /// Writes `allow_warped_motion`, bit 15 of the flags word, from the low bit of `val`.
    pub fn set_allow_warped_motion(&mut self, val: u32)
        ensures
            final(self).bits() =~= old(self).bits().update(15, low_bit(val)),
    {
        self._bitfield_1.set_one(15, val)
    }

    /// Writes `reduced_tx_set`, bit 16 of the flags word, from the low bit of `val`.
    pub fn set_reduced_tx_set(&mut self, val: u32)
        ensures
            final(self).bits() =~= old(self).bits().update(16, low_bit(val)),
    {
        self._bitfield_1.set_one(16, val)
    }

    /// Writes `skip_mode_present`, bit 17 of the flags word, from the low bit of `val`.
    pub fn set_skip_mode_present(&mut self, val: u32)
        ensures
            final(self).bits() =~= old(self).bits().update(17, low_bit(val)),
    {
        self._bitfield_1.set_one(17, val)
    }

    /// Writes `delta_q_present`, bit 18 of the flags word, from the low bit of `val`.
    pub fn set_delta_q_present(&mut self, val: u32)
        ensures
            final(self).bits() =~= old(self).bits().update(18, low_bit(val)),
    {
        self._bitfield_1.set_one(18, val)
    }

    /// Writes `delta_lf_present`, bit 19 of the flags word, from the low bit of `val`.
    pub fn set_delta_lf_present(&mut self, val: u32)
        ensures
            final(self).bits() =~= old(self).bits().update(19, low_bit(val)),
    {
        self._bitfield_1.set_one(19, val)
    }

    /// Writes `delta_lf_multi`, bit 20 of the flags word, from the low bit of `val`.
    pub fn set_delta_lf_multi(&mut self, val: u32)
        ensures
            final(self).bits() =~= old(self).bits().update(20, low_bit(val)),
    {
        self._bitfield_1.set_one(20, val)
    }

    /// Writes `segmentation_enabled`, bit 21 of the flags word, from the low bit of `val`.
    pub fn set_segmentation_enabled(&mut self, val: u32)
        ensures
            final(self).bits() =~= old(self).bits().update(21, low_bit(val)),
    {
        self._bitfield_1.set_one(21, val)
    }

    /// Writes `segmentation_update_map`, bit 22 of the flags word, from the low bit of `val`.
    pub fn set_segmentation_update_map(&mut self, val: u32)
        ensures
            final(self).bits() =~= old(self).bits().update(22, low_bit(val)),
    {
        self._bitfield_1.set_one(22, val)
    }

    /// Writes `segmentation_temporal_update`, bit 23 of the flags word, from the low bit of `val`.
    pub fn set_segmentation_temporal_update(&mut self, val: u32)
        ensures
            final(self).bits() =~= old(self).bits().update(23, low_bit(val)),
    {
        self._bitfield_1.set_one(23, val)
    }

    /// Writes `segmentation_update_data`, bit 24 of the flags word, from the low bit of `val`.
    pub fn set_segmentation_update_data(&mut self, val: u32)
        ensures
            final(self).bits() =~= old(self).bits().update(24, low_bit(val)),
    {
        self._bitfield_1.set_one(24, val)
    }

    /// Writes `UsesLr`, bit 25 of the flags word, from the low bit of `val`.
    pub fn set_UsesLr(&mut self, val: u32)
        ensures
            final(self).bits() =~= old(self).bits().update(25, low_bit(val)),
    {
        self._bitfield_1.set_one(25, val)
    }

    /// Writes `usesChromaLr`, bit 26 of the flags word, from the low bit of `val`.
    pub fn set_usesChromaLr(&mut self, val: u32)
        ensures
            final(self).bits() =~= old(self).bits().update(26, low_bit(val)),
    {
        self._bitfield_1.set_one(26, val)
    }

    /// Writes `show_frame`, bit 27 of the flags word, from the low bit of `val`.
    pub fn set_show_frame(&mut self, val: u32)
        ensures
            final(self).bits() =~= old(self).bits().update(27, low_bit(val)),
    {
        self._bitfield_1.set_one(27, val)
    }

    /// Writes `showable_frame`, bit 28 of the flags word, from the low bit of `val`.
    pub fn set_showable_frame(&mut self, val: u32)
        ensures
            final(self).bits() =~= old(self).bits().update(28, low_bit(val)),
    {
        self._bitfield_1.set_one(28, val)
    }

    /// Writes the three reserved bits that close the flags word.
    pub fn set_reserved(&mut self, val: u32)
        ensures
            final(self).bits() =~= bits_written(endianness(), old(self).bits(), 29, 3, val as u64),
    {
        self._bitfield_1.set(29, 3, val as u64)
    }
}

/// Flag word of the reference info.
#[derive(Debug, Clone, Copy)]
pub struct StdVideoEncodeAV1ReferenceInfoFlags {
    pub _bitfield_align_1: [u32; 0],
    pub _bitfield_1: __BindgenBitfieldUnit<[u8; 4]>,
}

impl StdVideoEncodeAV1ReferenceInfoFlags {
    /// The 32 bits of the flags word.
    pub open spec fn bits(self) -> Seq<bool> {
        self._bitfield_1.bits()
    }

    /// Writes `disable_frame_end_update_cdf`, bit 0 of the flags word, from the low bit of `val`.
    pub fn set_disable_frame_end_update_cdf(&mut self, val: u32)
        ensures
            final(self).bits() =~= old(self).bits().update(0, low_bit(val)),
    {
        self._bitfield_1.set_one(0, val)
    }

    /// Writes `segmentation_enabled`, bit 1 of the flags word, from the low bit of `val`.
    pub fn set_segmentation_enabled(&mut self, val: u32)
        ensures
            final(self).bits() =~= old(self).bits().update(1, low_bit(val)),
    {
        self._bitfield_1.set_one(1, val)
    }
}

#[derive(Debug, Clone, Copy)]
pub struct StdVideoEncodeAV1ExtensionHeader {
    pub temporal_id: u8,
    pub spatial_id: u8,
}

#[derive(Debug, Clone, Copy)]
pub struct VideoEncodeAV1QIndexKHR {
    pub intra_q_index: u32,
    pub predictive_q_index: u32,
    pub bipredictive_q_index: u32,
}

#[derive(Debug, Clone, Copy)]
pub struct VideoEncodeAV1FrameSizeKHR {
    pub intra_frame_size: u32,
    pub predictive_frame_size: u32,
    pub bipredictive_frame_size: u32,
}

#[derive(Debug, Clone, Copy)]
pub struct StdVideoEncodeAV1OperatingPointInfoFlags {
    pub _bitfield_align_1: [u32; 0],
    pub _bitfield_1: __BindgenBitfieldUnit<[u8; 4]>,
}

#[derive(Debug, Clone, Copy)]
pub struct StdVideoEncodeAV1OperatingPointInfo {
    pub flags: StdVideoEncodeAV1OperatingPointInfoFlags,
    pub operating_point_idc: u16,
    pub seq_level_idx: u8,
    pub seq_tier: u8,
    pub decoder_buffer_delay: u32,
    pub encoder_buffer_delay: u32,
    pub initial_display_delay_minus_1: u8,
}

/// `ash::vk::StructureType`, a Vulkan structure type. Opaque here.
#[verifier::external_type_specification]
#[verifier::external_body]
pub struct ExStructureType(ash::vk::StructureType);

/// The structure type with the raw value `raw`.
pub uninterp spec fn structure_type(raw: i32) -> ash::vk::StructureType;

/// `ash::vk::StructureType::from_raw` wraps the raw value and does nothing else, so its result is
/// determined by that value, and no other value gives the same structure type.
pub assume_specification[ ash::vk::StructureType::from_raw ](x: i32) -> (t: ash::vk::StructureType)
    ensures
        t == structure_type(x),
        forall|y: i32| #[trigger] structure_type(y) == t ==> y == x,
;

/// The structure type of a raw `ST_*` value.
pub fn stype(raw: i32) -> (t: ash::vk::StructureType)
    ensures
        t == structure_type(raw),
        forall|other: i32| #[trigger] structure_type(other) == t ==> other == raw,
{
    ash::vk::StructureType::from_raw(raw)
}

/// What [`__BindgenBitfieldUnit::set`] wrote, [`__BindgenBitfieldUnit::get`] of the same range reads
/// back: the low `width` bits of the value and nothing above them.
pub proof fn law_get_reads_back_set(
    e: Endian,
    before: Seq<bool>,
    after: Seq<bool>,
    offset: int,
    width: int,
    val: u64,
    read: u64,
)
    requires
        0 <= offset,
        0 <= width <= 64,
        offset + width <= before.len(),
        after == bits_written(e, before, offset, width, val),
        bits_read(e, after, offset, width, read),
    ensures
        forall|i: int|
            0 <= i < 64 ==> (#[trigger] word_bit(read, i) <==> i < width && word_bit(val, i)),
{
    assert forall|i: int| 0 <= i < 64 implies (#[trigger] word_bit(read, i) <==> i < width && word_bit(
        val,
        i,
    )) by {
        if i < width {
            assert(after[offset + place(e, i, width)] == word_bit(val, i));
        }
    }
}

/// Writes to disjoint ranges do not disturb each other: they commute.
pub proof fn law_disjoint_sets_commute(
    e: Endian,
    bits: Seq<bool>,
    offset1: int,
    width1: int,
    val1: u64,
    offset2: int,
    width2: int,
    val2: u64,
)
    requires
        0 <= offset1,
        0 <= width1,
        0 <= offset2,
        0 <= width2,
        offset1 + width1 <= offset2 || offset2 + width2 <= offset1,
    ensures
        bits_written(e, bits_written(e, bits, offset1, width1, val1), offset2, width2, val2)
            =~= bits_written(e, bits_written(e, bits, offset2, width2, val2), offset1, width1, val1),
{
}

/// The last write to a range is the one that counts.
pub proof fn law_set_overwrites(
    e: Endian,
    bits: Seq<bool>,
    offset: int,
    width: int,
    first: u64,
    last: u64,
)
    requires
        0 <= offset,
        0 <= width,
    ensures
        bits_written(e, bits_written(e, bits, offset, width, first), offset, width, last)
            =~= bits_written(e, bits, offset, width, last),
{
}

/// The structure types of the extension follow one another, as far as it has them, from the first
/// number of its block on.
pub proof fn law_structure_types_are_of_one_extension()
    ensures
        ST_CAPABILITIES == 1_000_000_000 + 1000 * 513,
        ST_SESSION_PARAMETERS_CREATE_INFO == ST_CAPABILITIES + 1,
        ST_PICTURE_INFO == ST_CAPABILITIES + 2,
        ST_DPB_SLOT_INFO == ST_CAPABILITIES + 3,
        ST_PHYSICAL_DEVICE_FEATURES == ST_CAPABILITIES + 4,
        ST_PROFILE_INFO == ST_CAPABILITIES + 5,
        ST_RATE_CONTROL_INFO == ST_CAPABILITIES + 6,
        ST_RATE_CONTROL_LAYER_INFO == ST_CAPABILITIES + 7,
        ST_SESSION_CREATE_INFO == ST_CAPABILITIES + 9,
        ST_GOP_REMAINING_FRAME_INFO == ST_CAPABILITIES + 10,
{
}

/// Capability and operation bits are single bits, and a frame that inherits nothing names a reference
/// behind the last there is.
pub proof fn law_capabilities_are_single_bits()
    ensures
        VIDEO_CODEC_OPERATION_ENCODE_AV1 == 1u32 << 18u32,
        CAPABILITY_FRAME_SIZE_OVERRIDE == 1u32 << 3u32,
        CAPABILITY_MOTION_VECTOR_SCALING == 1u32 << 4u32,
        SUPERBLOCK_SIZE_128 == 1u32 << 1u32,
        PRIMARY_REF_NONE == MAX_VIDEO_AV1_REFERENCES_PER_FRAME,
        MAX_VIDEO_AV1_REFERENCES_PER_FRAME == 7,
        RC_GROUP_INTRA < RC_GROUP_PREDICTIVE < RC_GROUP_BIPREDICTIVE,
        PREDICTION_MODE_INTRA_ONLY == 0 && PREDICTION_MODE_SINGLE_REFERENCE == 1,
{
    assert(1u32 << 18u32 == 0x0004_0000 && 1u32 << 3u32 == 8 && 1u32 << 4u32 == 16 && 1u32 << 1u32
        == 2) by (bit_vector);
}

/// The one-bit members of the picture flags lie one behind the other in the order of the header. Writing
/// one takes the low bit of the value and leaves every other member alone.
pub proof fn law_picture_flags_lie_in_order(
    word: &mut StdVideoEncodeAV1PictureInfoFlags,
    flag: int,
    val: u32,
)
    requires
        0 <= flag < 29,
        flag == 0 ==> call_ensures(
            StdVideoEncodeAV1PictureInfoFlags::set_error_resilient_mode,
            (word, val),
            (),
        ),
        flag == 1 ==> call_ensures(
            StdVideoEncodeAV1PictureInfoFlags::set_disable_cdf_update,
            (word, val),
            (),
        ),
        flag == 2 ==> call_ensures(
            StdVideoEncodeAV1PictureInfoFlags::set_use_superres,
            (word, val),
            (),
        ),
        flag == 3 ==> call_ensures(
            StdVideoEncodeAV1PictureInfoFlags::set_render_and_frame_size_different,
            (word, val),
            (),
        ),
        flag == 4 ==> call_ensures(
            StdVideoEncodeAV1PictureInfoFlags::set_allow_screen_content_tools,
            (word, val),
            (),
        ),
        flag == 5 ==> call_ensures(
            StdVideoEncodeAV1PictureInfoFlags::set_is_filter_switchable,
            (word, val),
            (),
        ),
        flag == 6 ==> call_ensures(
            StdVideoEncodeAV1PictureInfoFlags::set_force_integer_mv,
            (word, val),
            (),
        ),
        flag == 7 ==> call_ensures(
            StdVideoEncodeAV1PictureInfoFlags::set_frame_size_override_flag,
            (word, val),
            (),
        ),
        flag == 8 ==> call_ensures(
            StdVideoEncodeAV1PictureInfoFlags::set_buffer_removal_time_present_flag,
            (word, val),
            (),
        ),
        flag == 9 ==> call_ensures(
            StdVideoEncodeAV1PictureInfoFlags::set_allow_intrabc,
            (word, val),
            (),
        ),
        flag == 10 ==> call_ensures(
            StdVideoEncodeAV1PictureInfoFlags::set_frame_refs_short_signaling,
            (word, val),
            (),
        ),
        flag == 11 ==> call_ensures(
            StdVideoEncodeAV1PictureInfoFlags::set_allow_high_precision_mv,
            (word, val),
            (),
        ),
        flag == 12 ==> call_ensures(
            StdVideoEncodeAV1PictureInfoFlags::set_is_motion_mode_switchable,
            (word, val),
            (),
        ),
        flag == 13 ==> call_ensures(
            StdVideoEncodeAV1PictureInfoFlags::set_use_ref_frame_mvs,
            (word, val),
            (),
        ),
        flag == 14 ==> call_ensures(
            StdVideoEncodeAV1PictureInfoFlags::set_disable_frame_end_update_cdf,
            (word, val),
            (),
        ),
        flag == 15 ==> call_ensures(
            StdVideoEncodeAV1PictureInfoFlags::set_allow_warped_motion,
            (word, val),
            (),
        ),
        flag == 16 ==> call_ensures(
            StdVideoEncodeAV1PictureInfoFlags::set_reduced_tx_set,
            (word, val),
            (),
        ),
        flag == 17 ==> call_ensures(
            StdVideoEncodeAV1PictureInfoFlags::set_skip_mode_present,
            (word, val),
            (),
        ),
        flag == 18 ==> call_ensures(
            StdVideoEncodeAV1PictureInfoFlags::set_delta_q_present,
            (word, val),
            (),
        ),
        flag == 19 ==> call_ensures(
            StdVideoEncodeAV1PictureInfoFlags::set_delta_lf_present,
            (word, val),
            (),
        ),
        flag == 20 ==> call_ensures(
            StdVideoEncodeAV1PictureInfoFlags::set_delta_lf_multi,
            (word, val),
            (),
        ),
        flag == 21 ==> call_ensures(
            StdVideoEncodeAV1PictureInfoFlags::set_segmentation_enabled,
            (word, val),
            (),
        ),
        flag == 22 ==> call_ensures(
            StdVideoEncodeAV1PictureInfoFlags::set_segmentation_update_map,
            (word, val),
            (),
        ),
        flag == 23 ==> call_ensures(
            StdVideoEncodeAV1PictureInfoFlags::set_segmentation_temporal_update,
            (word, val),
            (),
        ),
        flag == 24 ==> call_ensures(
            StdVideoEncodeAV1PictureInfoFlags::set_segmentation_update_data,
            (word, val),
            (),
        ),
        flag == 25 ==> call_ensures(
            StdVideoEncodeAV1PictureInfoFlags::set_UsesLr,
            (word, val),
            (),
        ),
        flag == 26 ==> call_ensures(
            StdVideoEncodeAV1PictureInfoFlags::set_usesChromaLr,
            (word, val),
            (),
        ),
        flag == 27 ==> call_ensures(
            StdVideoEncodeAV1PictureInfoFlags::set_show_frame,
            (word, val),
            (),
        ),
        flag == 28 ==> call_ensures(
            StdVideoEncodeAV1PictureInfoFlags::set_showable_frame,
            (word, val),
            (),
        ),
    ensures
        final(word).bits()[flag] <==> val % 2 == 1,
        forall|i: int|
            0 <= i < 32 && i != flag ==> #[trigger] final(word).bits()[i] == old(word).bits()[i],
{
}

/// So do those of the reference flags.
pub proof fn law_reference_flags_lie_in_order(
    word: &mut StdVideoEncodeAV1ReferenceInfoFlags,
    flag: int,
    val: u32,
)
    requires
        0 <= flag < 2,
        flag == 0 ==> call_ensures(
            StdVideoEncodeAV1ReferenceInfoFlags::set_disable_frame_end_update_cdf,
            (word, val),
            (),
        ),
        flag == 1 ==> call_ensures(
            StdVideoEncodeAV1ReferenceInfoFlags::set_segmentation_enabled,
            (word, val),
            (),
        ),
    ensures
        final(word).bits()[flag] <==> val % 2 == 1,
        forall|i: int|
            0 <= i < 32 && i != flag ==> #[trigger] final(word).bits()[i] == old(word).bits()[i],
{
}

/// The reserved bits are the three behind the last flag, and writing them leaves the flags alone.
pub proof fn law_reserved_bits_close_the_word(word: &mut StdVideoEncodeAV1PictureInfoFlags, val: u32)
    requires
        call_ensures(StdVideoEncodeAV1PictureInfoFlags::set_reserved, (word, val), ()),
    ensures
        final(word).bits().len() == 32,
        forall|i: int| 0 <= i < 29 ==> #[trigger] final(word).bits()[i] == old(word).bits()[i],
        endianness() is Little ==> forall|i: int|
            0 <= i < 3 ==> #[trigger] final(word).bits()[29 + i] == word_bit(val as u64, i),
        endianness() is Big ==> forall|i: int|
            0 <= i < 3 ==> #[trigger] final(word).bits()[29 + i] == word_bit(val as u64, 2 - i),
{
}

/// A bit that was written is read back, other bits are untouched, and a range reads back as the bits of
/// the value that was written there, with zeros above.
pub proof fn law_bitfields_read_back<const N: usize>(
    unit: &mut __BindgenBitfieldUnit<[u8; N]>,
    range: &mut __BindgenBitfieldUnit<[u8; N]>,
    index: usize,
    other: usize,
    bit: bool,
    back: bool,
    kept: bool,
    before: bool,
    offset: usize,
    width: u8,
    val: u64,
    read: u64,
)
    requires
        index < 8 * N,
        other < 8 * N,
        width <= 64,
        offset + width <= 8 * N,
        call_ensures(__BindgenBitfieldUnit::<[u8; N]>::set_bit, (unit, index, bit), ()),
        call_ensures(__BindgenBitfieldUnit::<[u8; N]>::get_bit, (&*final(unit), index), back),
        call_ensures(__BindgenBitfieldUnit::<[u8; N]>::get_bit, (&*final(unit), other), kept),
        call_ensures(__BindgenBitfieldUnit::<[u8; N]>::get_bit, (&*old(unit), other), before),
        call_ensures(__BindgenBitfieldUnit::<[u8; N]>::set, (range, offset, width, val), ()),
        call_ensures(__BindgenBitfieldUnit::<[u8; N]>::get, (&*final(range), offset, width), read),
    ensures
        back == bit,
        other != index ==> kept == before,
        forall|i: int|
            0 <= i < 64 ==> (#[trigger] word_bit(read, i) <==> i < width && word_bit(val, i)),
        forall|i: int|
            0 <= i < 8 * N && !(offset <= i < offset + width) ==> #[trigger] final(range).bits()[i]
                == old(range).bits()[i],
{
    assert(old(unit).bits().len() == 8 * N && old(range).bits().len() == 8 * N);
    law_get_reads_back_set(
        endianness(),
        old(range).bits(),
        final(range).bits(),
        offset as int,
        width as int,
        val,
        read,
    );
}

/// Bits count from the low end of the first byte on a little-endian machine, and from its high end on a
/// big-endian one.
pub proof fn law_bits_count_through_the_bytes<const N: usize>(
    unit: __BindgenBitfieldUnit<[u8; N]>,
    index: usize,
    bit: bool,
)
    requires
        index < 8 * N,
        call_ensures(__BindgenBitfieldUnit::<[u8; N]>::get_bit, (&unit, index), bit),
    ensures
        endianness() is Little ==> (bit <==> (unit@@[index as int / 8] >> ((index % 8) as u8)) % 2 == 1),
        endianness() is Big ==> (bit <==> (unit@@[index as int / 8] >> ((7 - index % 8) as u8)) % 2 == 1),
{
    let byte = unit@@[index as int / 8];
    let low = (index % 8) as u8;
    let high = (7 - index % 8) as u8;
    assert((byte & (1u8 << low)) != 0 <==> (byte >> low) % 2 == 1) by (bit_vector)
        requires
            low < 8,
    ;
    assert((byte & (1u8 << high)) != 0 <==> (byte >> high) % 2 == 1) by (bit_vector)
        requires
            high < 8,
    ;
}

/// Different raw values are different structure types, and the same value is the same one.
pub proof fn law_structure_types_are_told_apart(
    a: i32,
    b: i32,
    ta: ash::vk::StructureType,
    tb: ash::vk::StructureType,
)
    requires
        call_ensures(stype, (a,), ta),
        call_ensures(stype, (b,), tb),
    ensures
        ta == tb <==> a == b,
{
}

} // verus!
