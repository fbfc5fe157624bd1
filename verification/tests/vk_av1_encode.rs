//! Bit fields of the AV1 encode structures and the structure type numbers.
use ash::vk::StructureType;
use ss_encode::vk_av1_encode::{
    stype, StdVideoEncodeAV1PictureInfoFlags, StdVideoEncodeAV1ReferenceInfoFlags,
    __BindgenBitfieldUnit, ST_CAPABILITIES, ST_PROFILE_INFO, ST_RATE_CONTROL_LAYER_INFO,
};

/// Exactly the bits from `bit` on are lit.
fn sets_only_bit(
    storage: __BindgenBitfieldUnit<[u8; 4]>,
    name: &str,
    bit: usize,
    expected_width: usize,
) {
    for probe in 0..32 {
        let want = probe >= bit && probe < bit + expected_width;
        assert_eq!(
            storage.get_bit(probe),
            want,
            "`{name}` should occupy bit(s) {bit}..{}, but bit {probe} disagrees",
            bit + expected_width
        );
    }
}

#[test]
fn picture_info_flag_setters_follow_the_c_declaration_order() {
    #[allow(clippy::type_complexity)]
    let members: [(&str, fn(&mut StdVideoEncodeAV1PictureInfoFlags)); 29] = [
        ("error_resilient_mode", |f| f.set_error_resilient_mode(1)),
        ("disable_cdf_update", |f| f.set_disable_cdf_update(1)),
        ("use_superres", |f| f.set_use_superres(1)),
        ("render_and_frame_size_different", |f| {
            f.set_render_and_frame_size_different(1)
        }),
        ("allow_screen_content_tools", |f| {
            f.set_allow_screen_content_tools(1)
        }),
        ("is_filter_switchable", |f| f.set_is_filter_switchable(1)),
        ("force_integer_mv", |f| f.set_force_integer_mv(1)),
        ("frame_size_override_flag", |f| {
            f.set_frame_size_override_flag(1)
        }),
        ("buffer_removal_time_present_flag", |f| {
            f.set_buffer_removal_time_present_flag(1)
        }),
        ("allow_intrabc", |f| f.set_allow_intrabc(1)),
        ("frame_refs_short_signaling", |f| {
            f.set_frame_refs_short_signaling(1)
        }),
        ("allow_high_precision_mv", |f| {
            f.set_allow_high_precision_mv(1)
        }),
        ("is_motion_mode_switchable", |f| {
            f.set_is_motion_mode_switchable(1)
        }),
        ("use_ref_frame_mvs", |f| f.set_use_ref_frame_mvs(1)),
        ("disable_frame_end_update_cdf", |f| {
            f.set_disable_frame_end_update_cdf(1)
        }),
        ("allow_warped_motion", |f| f.set_allow_warped_motion(1)),
        ("reduced_tx_set", |f| f.set_reduced_tx_set(1)),
        ("skip_mode_present", |f| f.set_skip_mode_present(1)),
        ("delta_q_present", |f| f.set_delta_q_present(1)),
        ("delta_lf_present", |f| f.set_delta_lf_present(1)),
        ("delta_lf_multi", |f| f.set_delta_lf_multi(1)),
        ("segmentation_enabled", |f| f.set_segmentation_enabled(1)),
        ("segmentation_update_map", |f| {
            f.set_segmentation_update_map(1)
        }),
        ("segmentation_temporal_update", |f| {
            f.set_segmentation_temporal_update(1)
        }),
        ("segmentation_update_data", |f| {
            f.set_segmentation_update_data(1)
        }),
        ("UsesLr", |f| f.set_UsesLr(1)),
        ("usesChromaLr", |f| f.set_usesChromaLr(1)),
        ("show_frame", |f| f.set_show_frame(1)),
        ("showable_frame", |f| f.set_showable_frame(1)),
    ];

    for (bit, (name, set)) in members.into_iter().enumerate() {
        let mut flags = StdVideoEncodeAV1PictureInfoFlags {
            _bitfield_align_1: [],
            _bitfield_1: __BindgenBitfieldUnit::new([0u8; 4]),
        };
        set(&mut flags);
        sets_only_bit(flags._bitfield_1, name, bit, 1);
    }
}

#[test]
fn picture_info_reserved_occupies_the_top_three_bits() {
    let mut flags = StdVideoEncodeAV1PictureInfoFlags {
        _bitfield_align_1: [],
        _bitfield_1: __BindgenBitfieldUnit::new([0u8; 4]),
    };
    flags.set_reserved(0b111);
    sets_only_bit(flags._bitfield_1, "reserved", 29, 3);
}

#[test]
fn reference_info_flag_setters_follow_the_c_declaration_order() {
    #[allow(clippy::type_complexity)]
    let members: [(&str, fn(&mut StdVideoEncodeAV1ReferenceInfoFlags)); 2] = [
        ("disable_frame_end_update_cdf", |f| {
            f.set_disable_frame_end_update_cdf(1)
        }),
        ("segmentation_enabled", |f| f.set_segmentation_enabled(1)),
    ];

    for (bit, (name, set)) in members.into_iter().enumerate() {
        let mut flags = StdVideoEncodeAV1ReferenceInfoFlags {
            _bitfield_align_1: [],
            _bitfield_1: __BindgenBitfieldUnit::new([0u8; 4]),
        };
        set(&mut flags);
        sets_only_bit(flags._bitfield_1, name, bit, 1);
    }
}

#[test]
fn a_field_reads_back_and_leaves_its_neighbours() {
    let mut unit = __BindgenBitfieldUnit::new([0xffu8; 4]);
    unit.set(5, 7, 0b101_0011);
    assert_eq!(unit.get(5, 7), 0b101_0011);
    assert_eq!(unit.get(0, 5), 0b1_1111);
    assert_eq!(unit.get(12, 20), 0xf_ffff);
    // Bits of the value beyond the width are dropped.
    unit.set(5, 3, 0xff);
    assert_eq!(unit.get(5, 3), 0b111);
    assert_eq!(unit.get(8, 4), 0b1010);
}

#[test]
fn disjoint_fields_can_be_set_in_either_order() {
    let mut a = __BindgenBitfieldUnit::new([0x5au8; 8]);
    let mut b = __BindgenBitfieldUnit::new([0x5au8; 8]);
    a.set(3, 9, 0x155);
    a.set(20, 31, 0x1234_5678);
    b.set(20, 31, 0x1234_5678);
    b.set(3, 9, 0x155);
    for i in 0..64 {
        assert_eq!(a.get_bit(i), b.get_bit(i));
    }
    a.set(3, 9, 0);
    a.set(3, 9, 0x155);
    for i in 0..64 {
        assert_eq!(a.get_bit(i), b.get_bit(i));
    }
}

#[test]
fn single_bits_follow_memory_order() {
    // The last bit of the second byte, and its first bit, in the order of this machine.
    let little = 1u16.to_ne_bytes()[0] == 1;
    let mut unit = __BindgenBitfieldUnit::new([0u8, if little { 0x80 } else { 0x01 }]);
    assert!(unit.get_bit(15));
    assert!(!unit.get_bit(7));
    unit.set_bit(8, true);
    unit.set_bit(15, false);
    assert_eq!(unit.get(0, 16), if little { 0x0100 } else { 0x0080 });
    // A word has its bytes in memory as the unit has them.
    let word = __BindgenBitfieldUnit::new([0x12u8, 0x34, 0x56, 0x78]);
    assert_eq!(word.get(0, 32) as u32, u32::from_ne_bytes([0x12, 0x34, 0x56, 0x78]));
}

#[test]
fn structure_types_keep_their_numbers() {
    assert_eq!(stype(ST_PROFILE_INFO), StructureType::from_raw(1_000_513_005));
    assert_eq!(stype(ST_CAPABILITIES).as_raw(), 1_000_513_000);
    assert_eq!(stype(ST_RATE_CONTROL_LAYER_INFO).as_raw(), 1_000_513_007);
    assert_ne!(stype(1), stype(2));
    assert_eq!(stype(1), StructureType::INSTANCE_CREATE_INFO);
}
