//! The libavcodec backend: options, routing and frame accounting.
use ss_encode::ffmpeg_win::{
    amf_usage, copy_plane, mapped_len, open_win_encoder, parse_poll_spin_cap_us, pool_bind_flags,
    probe_can_encode, probe_can_encode_444, probe_stream, readback_route, readback_yuv,
    staging_outdated, submit_cpu, submit_d3d11, sws_src, vendor_opts, zerocopy_active, Colours, FfmpegWinEncoder, FrameKind,
    FrameStep, InnerKind, PollOutcome, PollStep, ReadbackRoute, StagingFormat, SwsMatrix, SwsPixel,
    WinError, WinVendor, MAX_POLL_SPIN_MS,
};
use ss_encode::types::{is_10bit_format, ChromaFormat, Codec, EncodedFrame, PixelFormat};
use windows::Win32::Graphics::Direct3D11::{
    D3D11_BIND_DECODER, D3D11_BIND_RENDER_TARGET, D3D11_BIND_SHADER_RESOURCE,
    D3D11_BIND_VIDEO_ENCODER,
};

#[test]
fn zerocopy_default_is_per_vendor_and_override_wins() {
    assert!(zerocopy_active(None, WinVendor::Amf));
    assert!(!zerocopy_active(None, WinVendor::Qsv));
    for vendor in [WinVendor::Amf, WinVendor::Qsv] {
        assert!(zerocopy_active(Some(true), vendor));
        assert!(!zerocopy_active(Some(false), vendor));
    }
}

#[test]
fn a_way_in_that_fails_leads_to_the_next() {
    assert_eq!(InnerKind::first(true), InnerKind::ZeroCopy);
    assert_eq!(InnerKind::first(false), InnerKind::System);
    assert_eq!(InnerKind::ZeroCopy.fallback(), Some(InnerKind::System));
    assert_eq!(InnerKind::System.fallback(), None);
}

#[test]
fn the_staging_texture_follows_the_format() {
    let (nv12, bgra) = (StagingFormat::Nv12, StagingFormat::B8g8r8a8);
    assert!(staging_outdated(None, nv12));
    assert!(!staging_outdated(Some(nv12), nv12));
    assert!(staging_outdated(Some(nv12), bgra));
}

#[test]
fn poll_spin_cap_clamps_before_the_us_conversion() {
    assert_eq!(parse_poll_spin_cap_us(None), 0);
    assert_eq!(parse_poll_spin_cap_us(Some("0")), 0);
    assert_eq!(parse_poll_spin_cap_us(Some("5")), 5_000);
    assert_eq!(parse_poll_spin_cap_us(Some(" 12 ")), 12_000);
    assert_eq!(
        parse_poll_spin_cap_us(Some("100000000")),
        MAX_POLL_SPIN_MS * 1000
    );
    assert_eq!(
        parse_poll_spin_cap_us(Some(&u64::MAX.to_string())),
        MAX_POLL_SPIN_MS * 1000
    );
    assert_eq!(parse_poll_spin_cap_us(Some("junk")), 0);
    assert_eq!(parse_poll_spin_cap_us(Some("-1")), 0);
}

#[test]
fn sws_src_accepts_packed_rgb_only() {
    assert_eq!(sws_src(PixelFormat::Bgrx).unwrap(), SwsPixel::Bgrz);
    assert_eq!(sws_src(PixelFormat::Rgbx).unwrap(), SwsPixel::Rgbz);
    assert_eq!(sws_src(PixelFormat::Bgra).unwrap(), SwsPixel::Bgra);
    assert_eq!(sws_src(PixelFormat::Rgba).unwrap(), SwsPixel::Rgba);
    assert_eq!(sws_src(PixelFormat::Rgb).unwrap(), SwsPixel::Rgb24);
    assert_eq!(sws_src(PixelFormat::Bgr).unwrap(), SwsPixel::Bgr24);
    for f in [
        PixelFormat::Nv12,
        PixelFormat::P010,
        PixelFormat::Rgb10a2,
        PixelFormat::Yuv444,
        PixelFormat::X2Rgb10,
        PixelFormat::X2Bgr10,
    ] {
        assert!(sws_src(f).is_err(), "{f:?} must be refused");
    }
}

#[test]
fn readback_routing_and_depth_guard() {
    assert_eq!(
        readback_route(PixelFormat::Nv12, false).unwrap(),
        ReadbackRoute::Yuv
    );
    assert_eq!(
        readback_route(PixelFormat::P010, true).unwrap(),
        ReadbackRoute::Yuv
    );
    assert_eq!(
        readback_route(PixelFormat::Bgra, false).unwrap(),
        ReadbackRoute::Bgra
    );
    assert_eq!(
        readback_route(PixelFormat::Bgrx, false).unwrap(),
        ReadbackRoute::Bgra
    );
    assert_eq!(
        readback_route(PixelFormat::Rgb10a2, true).unwrap(),
        ReadbackRoute::Rgb10
    );
    assert!(readback_route(PixelFormat::P010, false).is_err());
    assert!(readback_route(PixelFormat::Rgb10a2, false).is_err());
    assert!(readback_route(PixelFormat::Nv12, true).is_err());
    assert!(readback_route(PixelFormat::Bgra, true).is_err());
    assert!(readback_route(PixelFormat::Yuv444, false).is_err());
}

#[test]
fn ten_bit_follows_the_pixels() {
    assert!(is_10bit_format(PixelFormat::P010));
    assert!(is_10bit_format(PixelFormat::Rgb10a2));
    assert!(!is_10bit_format(PixelFormat::Nv12));
    assert!(!is_10bit_format(PixelFormat::Bgra));
    assert!(!is_10bit_format(PixelFormat::Bgrx));
}

#[test]
fn qsv_opts_pin_the_latency_contract() {
    let opts = vendor_opts(WinVendor::Qsv, "ignored");
    let get = |k: &str| {
        opts.iter()
            .find(|(key, _)| *key == k)
            .map(|(_, v)| v.as_str())
    };
    assert_eq!(get("async_depth"), Some("1"));
    assert_eq!(get("low_power"), Some("1"));
    assert_eq!(get("look_ahead"), Some("0"));
    assert_eq!(get("forced_idr"), Some("1"));
    assert_eq!(get("scenario"), Some("displayremoting"));
    assert_eq!(get("preset"), Some("veryfast"));
    assert_eq!(get("usage"), None, "AMF-only knob must not leak into QSV");
}

#[test]
fn amf_opts_pin_no_bframes_and_the_usage_passthrough() {
    let opts = vendor_opts(WinVendor::Amf, "lowlatency");
    let get = |k: &str| {
        opts.iter()
            .find(|(key, _)| *key == k)
            .map(|(_, v)| v.as_str())
    };
    assert_eq!(get("usage"), Some("lowlatency"));
    assert_eq!(get("bf"), Some("0"));
    assert_eq!(get("rc"), Some("cbr"));
    assert_eq!(get("quality"), Some("speed"));
    assert_eq!(get("latency"), Some("true"));
    assert_eq!(get("header_insertion_mode"), Some("idr"));
    assert_eq!(get("preanalysis"), Some("false"));
    assert_eq!(get("enforce_hrd"), Some("true"));
    assert_eq!(amf_usage(None), "ultralowlatency");
    assert_eq!(amf_usage(Some("transcoding")), "transcoding");
}

#[test]
fn pool_bind_flags_per_vendor() {
    assert_eq!(
        pool_bind_flags(WinVendor::Amf),
        (D3D11_BIND_RENDER_TARGET.0 | D3D11_BIND_SHADER_RESOURCE.0) as u32
    );
    assert_eq!(
        pool_bind_flags(WinVendor::Qsv),
        (D3D11_BIND_DECODER.0 | D3D11_BIND_VIDEO_ENCODER.0) as u32
    );
}

#[test]
fn encoder_names_dispatch_by_vendor() {
    assert_eq!(WinVendor::Qsv.encoder_name(Codec::H264), "h264_qsv");
    assert_eq!(WinVendor::Qsv.encoder_name(Codec::H265), "hevc_qsv");
    assert_eq!(WinVendor::Qsv.encoder_name(Codec::Av1), "av1_qsv");
    assert_eq!(WinVendor::Amf.encoder_name(Codec::H265), "hevc_amf");
    assert_eq!(WinVendor::Amf.label(), "AMF");
    assert_eq!(WinVendor::Qsv.label(), "QSV");
}

#[test]
fn errors_name_the_format() {
    assert_eq!(
        readback_route(PixelFormat::P010, false),
        Err(WinError::DepthChanged(PixelFormat::P010))
    );
    assert_eq!(
        readback_route(PixelFormat::Rgba, false),
        Err(WinError::NoReadback(PixelFormat::Rgba))
    );
    assert_eq!(
        sws_src(PixelFormat::P010),
        Err(WinError::NotPackedRgb(PixelFormat::P010))
    );
}

#[test]
fn a_route_knows_its_texture_and_conversion() {
    let yuv = submit_d3d11(PixelFormat::P010, true).unwrap();
    assert_eq!(yuv.staging, StagingFormat::P010);
    assert!(yuv.lane.is_none());
    let bgra = submit_d3d11(PixelFormat::Bgrx, false).unwrap();
    assert_eq!(bgra.staging, StagingFormat::B8g8r8a8);
    assert_eq!(bgra.lane.unwrap().matrix, SwsMatrix::Itu709);
    let deep = submit_d3d11(PixelFormat::Rgb10a2, true).unwrap().lane.unwrap();
    assert_eq!((deep.src, deep.dst), (SwsPixel::X2Bgr10, PixelFormat::P010));
    assert_eq!(deep.matrix, SwsMatrix::Bt2020);
    assert!(submit_d3d11(PixelFormat::Rgb, false).is_err());
}

#[test]
fn planes_are_copied_between_pitches() {
    // Three luma rows and two chroma rows of four bytes at a pitch of six.
    let mapped: Vec<u8> = (0..30).collect();
    assert_eq!(mapped_len(6, 3), 30);
    let mut y = vec![99u8; 15];
    let mut uv = vec![99u8; 16];
    readback_yuv(&mapped, 6, 4, 3, false, &mut y, 5, &mut uv, 8);
    assert_eq!(y, vec![0, 1, 2, 3, 99, 6, 7, 8, 9, 99, 12, 13, 14, 15, 99]);
    assert_eq!(
        uv,
        vec![18, 19, 20, 21, 99, 99, 99, 99, 24, 25, 26, 27, 99, 99, 99, 99]
    );
    // Ten-bit samples take two bytes.
    let mut y = vec![0u8; 12];
    let mut uv = vec![0u8; 8];
    readback_yuv(&mapped, 6, 2, 3, true, &mut y, 4, &mut uv, 4);
    assert_eq!(y, vec![0, 1, 2, 3, 6, 7, 8, 9, 12, 13, 14, 15]);
    let mut one = vec![7u8; 4];
    copy_plane(&mapped, 3, 5, 2, 1, &mut one, 2);
    assert_eq!(one, vec![3, 7, 8, 7]);
    assert_eq!(mapped_len(u32::MAX, u32::MAX), usize::MAX);
}

#[test]
fn system_frames_are_checked_before_conversion() {
    let check = |format: PixelFormat, bpp: usize, len: usize, ten_bit: bool| {
        submit_cpu(PixelFormat::Bgr, ten_bit, 4, 2, format, bpp, len)
    };
    assert_eq!(check(PixelFormat::Bgr, 3, 24, false), Ok((12, SwsPixel::Bgr24)));
    assert_eq!(
        check(PixelFormat::Bgr, 3, 23, false),
        Err(WinError::ShortFrame { len: 23 })
    );
    assert_eq!(check(PixelFormat::Bgr, 3, 24, true), Err(WinError::EightBitOnly));
    assert_eq!(
        check(PixelFormat::Rgb, 3, 24, false),
        Err(WinError::FormatMismatch {
            expected: PixelFormat::Bgr,
            delivered: PixelFormat::Rgb
        })
    );
    assert_eq!(
        submit_cpu(PixelFormat::Nv12, false, 4, 2, PixelFormat::Nv12, 1, 99),
        Err(WinError::NotPackedRgb(PixelFormat::Nv12))
    );
}

#[test]
fn parameters_follow_input_and_depth() {
    let p = open_win_encoder(WinVendor::Qsv, true, true);
    assert_eq!(p.frames, FrameKind::Qsv);
    assert_eq!(p.sw_format, PixelFormat::P010);
    assert_eq!(p.colours, Colours::Bt2020Pq);
    assert_eq!(p.gop_size, i32::MAX);
    assert_eq!(open_win_encoder(WinVendor::Amf, true, false).frames, FrameKind::D3d11);
    let p = open_win_encoder(WinVendor::Amf, false, false);
    assert_eq!((p.frames, p.colours), (FrameKind::System, Colours::Bt709));
    assert!(!probe_can_encode_444(WinVendor::Qsv, Codec::H265));
    assert_eq!(probe_stream(), (640, 480, 30, 2_000_000));
    assert!(probe_can_encode(true, true));
    assert!(!probe_can_encode(true, false));
    assert!(!probe_can_encode(false, true));
}

fn open(format: PixelFormat) -> Result<FfmpegWinEncoder, WinError> {
    FfmpegWinEncoder::open(
        true,
        true,
        WinVendor::Amf,
        Codec::H265,
        format,
        64,
        32,
        60,
        1_000_000,
        8,
        ChromaFormat::Yuv420,
    )
}

#[test]
fn an_encoder_that_is_missing_does_not_open() {
    let open = |init: bool, found: bool| {
        FfmpegWinEncoder::open(
            init,
            found,
            WinVendor::Qsv,
            Codec::H264,
            PixelFormat::Nv12,
            1,
            1,
            1,
            1,
            8,
            ChromaFormat::Yuv444,
        )
        .err()
    };
    assert_eq!(open(false, true), Some(WinError::Init));
    assert_eq!(open(true, false), Some(WinError::NoEncoder));
    assert_eq!(open(true, true), None);
}

#[test]
fn textures_find_their_way_in() {
    let mut enc = open(PixelFormat::Nv12).unwrap();
    assert!(!enc.input_is_ten_bit());
    let nv12 = PixelFormat::Nv12;
    assert_eq!(enc.step_d3d11(7, nv12, None), FrameStep::Build { zero_copy: true });
    enc.built(InnerKind::ZeroCopy);
    assert_eq!(enc.step_d3d11(7, nv12, None), FrameStep::ZeroCopy);
    assert_eq!(enc.step_cpu(), Err(WinError::CpuFrame));
    assert_eq!(enc.step_d3d11(7, PixelFormat::Bgra, None), FrameStep::SwitchToSystem);
    enc.built(InnerKind::System);
    assert_eq!(enc.step_d3d11(7, PixelFormat::Bgra, None), FrameStep::System);
    assert_eq!(enc.step_cpu(), Ok(FrameStep::System));
    assert_eq!(
        enc.step_d3d11(8, nv12, Some(false)),
        FrameStep::Build { zero_copy: false }
    );
    assert_eq!(enc.inner, None);
    assert_eq!(enc.step_cpu(), Ok(FrameStep::SwitchToSystem));
}

#[test]
fn a_submit_uses_up_its_number_and_its_keyframe() {
    let mut enc = open(PixelFormat::P010).unwrap();
    assert!(enc.input_is_ten_bit());
    enc.request_keyframe();
    assert_eq!(
        enc.submit(64, 33),
        Err(WinError::SizeMismatch {
            width: 64,
            height: 33
        })
    );
    assert_eq!(enc.submit(64, 32), Ok((0, true)));
    enc.finish_submit(false);
    assert_eq!(enc.in_flight, 0);
    assert_eq!(enc.submit(64, 32), Ok((1, false)));
    enc.finish_submit(true);
    assert_eq!(enc.in_flight, 1);
}

#[test]
fn polls_settle_what_is_owed() {
    let mut enc = open(PixelFormat::Nv12).unwrap();
    assert_eq!(enc.poll_budget_us(5_000), 0);
    enc.finish_submit(true);
    enc.finish_submit(true);
    assert_eq!(enc.poll_budget_us(5_000), 5_000);
    assert!(matches!(enc.poll(PollOutcome::Again, false), PollStep::Wait));
    assert!(matches!(enc.poll(PollOutcome::Again, true), PollStep::Nothing));
    let au = EncodedFrame {
        data: vec![1],
        pts_ns: 2,
        keyframe: true,
        recovery_anchor: false,
        chunk_aligned: false,
    };
    assert!(matches!(enc.poll(PollOutcome::Packet(au), false), PollStep::Unit(_)));
    assert_eq!(enc.in_flight, 1);
    assert!(matches!(enc.poll(PollOutcome::Eof, false), PollStep::Nothing));
    assert_eq!(enc.in_flight, 0);
    enc.built(InnerKind::System);
    assert!(enc.reset());
    assert!(enc.force_kf && enc.inner.is_none());
}
