//! Raw video framing: pixel formats, the raw packet header, and the raw
//! encoder/decoder pair that passes frames through with a metadata header.
use vstd::prelude::*;
use crate::types::{DisplayInfo, REFRESH_60HZ_BITS, SCALE_ONE_BITS};
use crate::bytes::{le32, le32_value, push_le32, push_range, read_le32};
use crate::protocol::VideoCodec;

verus! {

/// Pixel format of raw frame data.
#[derive(Debug, Clone, Copy, PartialEq, Eq)]
pub enum PixelFormat {
    /// 4 bytes per pixel: Blue, Green, Red, Alpha.
    Bgra,
    /// 4 bytes per pixel: Red, Green, Blue, Alpha.
    Rgba,
    /// Planar YUV 4:2:0 with interleaved UV plane.
    Nv12,
    /// Planar YUV 4:2:0 with separate U and V planes.
    Yuv420p,
}

/// Bytes in a frame of format `f` at `w` by `h` pixels.
pub open spec fn frame_bytes(f: PixelFormat, w: u32, h: u32) -> int {
    match f {
        PixelFormat::Bgra | PixelFormat::Rgba => w * h * 4,
        PixelFormat::Nv12 | PixelFormat::Yuv420p => w * h * 3 / 2,
    }
}

/// The size computation stays within `usize` (for the planar formats the
/// intermediate `w * h * 3` does too).
pub open spec fn frame_size_fits(f: PixelFormat, w: u32, h: u32) -> bool {
    match f {
        PixelFormat::Bgra | PixelFormat::Rgba => w * h * 4 <= usize::MAX,
        PixelFormat::Nv12 | PixelFormat::Yuv420p => w * h * 3 <= usize::MAX,
    }
}

/// The one-byte tag of each format in the raw header.
pub open spec fn format_tag(f: PixelFormat) -> u8 {
    match f {
        PixelFormat::Bgra => 0,
        PixelFormat::Rgba => 1,
        PixelFormat::Nv12 => 2,
        PixelFormat::Yuv420p => 3,
    }
}

/// The format a tag stands for.
pub open spec fn format_of_tag(tag: u8) -> Option<PixelFormat> {
    if tag == 0 {
        Some(PixelFormat::Bgra)
    } else if tag == 1 {
        Some(PixelFormat::Rgba)
    } else if tag == 2 {
        Some(PixelFormat::Nv12)
    } else if tag == 3 {
        Some(PixelFormat::Yuv420p)
    } else {
        None
    }
}

impl PixelFormat {
    /// Total byte size for a frame of this format at the given resolution.
    pub fn frame_size(self, width: u32, height: u32) -> (r: usize)
        requires
            frame_size_fits(self, width, height),
        ensures
            r == frame_bytes(self, width, height),
    {
        let w = width as usize;
        let h = height as usize;
        match self {
            PixelFormat::Bgra | PixelFormat::Rgba => {
                assert(w * h <= w * h * 4) by (nonlinear_arith)
                    requires
                        w >= 0 && h >= 0,
                ;
                w * h * 4
            },
            PixelFormat::Nv12 | PixelFormat::Yuv420p => {
                assert(w * h <= w * h * 3) by (nonlinear_arith)
                    requires
                        w >= 0 && h >= 0,
                ;
                w * h * 3 / 2
            },
        }
    }

    pub fn to_tag(self) -> (t: u8)
        ensures
            t == format_tag(self),
    {
        match self {
            PixelFormat::Bgra => 0,
            PixelFormat::Rgba => 1,
            PixelFormat::Nv12 => 2,
            PixelFormat::Yuv420p => 3,
        }
    }

    pub fn from_tag(tag: u8) -> (r: Option<Self>)
        ensures
            r == format_of_tag(tag),
    {
        match tag {
            0 => Some(PixelFormat::Bgra),
            1 => Some(PixelFormat::Rgba),
            2 => Some(PixelFormat::Nv12),
            3 => Some(PixelFormat::Yuv420p),
            _ => None,
        }
    }
}

/// Tags identify formats: reading a format's tag gives the format back.
pub proof fn law_format_tag_roundtrip(f: PixelFormat)
    ensures
        format_of_tag(format_tag(f)) == Some(f),
{
}

/// A rectangular region within a frame that changed since the last frame.
#[derive(Debug, Clone, Copy)]
pub struct DirtyRect {
    pub x: u32,
    pub y: u32,
    pub width: u32,
    pub height: u32,
}

/// A single raw video frame.
#[derive(Debug, Clone)]
pub struct VideoFrame {
    pub data: Vec<u8>,
    pub width: u32,
    pub height: u32,
    pub format: PixelFormat,
    pub timestamp_us: u64,
    pub frame_number: u64,
    /// Regions that changed since the previous frame (empty = full frame changed).
    pub dirty_rects: Vec<DirtyRect>,
}

/// Region of a display to capture.
#[derive(Debug, Clone)]
pub struct CaptureRegion {
    pub x: u32,
    pub y: u32,
    pub width: u32,
    pub height: u32,
}

/// Configuration for starting a capture session.
#[derive(Debug, Clone)]
pub struct CaptureConfig {
    pub display_id: u32,
    pub fps: u32,
    pub region: Option<CaptureRegion>,
}

/// An encoded video packet.
#[derive(Debug, Clone)]
pub struct EncodedPacket {
    pub data: Vec<u8>,
    pub pts: i64,
    pub dts: i64,
    pub is_keyframe: bool,
    pub codec: VideoCodec,
}

/// Hardware acceleration backend.
#[derive(Debug, Clone, Copy, PartialEq, Eq)]
pub enum HwAccel {
    /// No hardware acceleration — pure software encoding/decoding.
    Software,
    /// NVIDIA NVENC/NVDEC.
    Nvenc,
    /// Intel Quick Sync Video.
    Qsv,
    /// VA-API (Linux).
    Vaapi,
    /// AMD AMF.
    Amf,
}

/// The FFmpeg encoder name for an accelerator and codec, where there is one.
pub open spec fn encoder_name_of(accel: HwAccel, codec: VideoCodec) -> Option<Seq<char>> {
    match (accel, codec) {
        (HwAccel::Nvenc, VideoCodec::H264) => Some("h264_nvenc"@),
        (HwAccel::Nvenc, VideoCodec::H265) => Some("hevc_nvenc"@),
        (HwAccel::Nvenc, VideoCodec::AV1) => Some("av1_nvenc"@),
        (HwAccel::Qsv, VideoCodec::H264) => Some("h264_qsv"@),
        (HwAccel::Qsv, VideoCodec::H265) => Some("hevc_qsv"@),
        (HwAccel::Qsv, VideoCodec::AV1) => Some("av1_qsv"@),
        (HwAccel::Vaapi, VideoCodec::H264) => Some("h264_vaapi"@),
        (HwAccel::Vaapi, VideoCodec::H265) => Some("hevc_vaapi"@),
        (HwAccel::Vaapi, VideoCodec::AV1) => Some("av1_vaapi"@),
        (HwAccel::Amf, VideoCodec::H264) => Some("h264_amf"@),
        (HwAccel::Amf, VideoCodec::H265) => Some("hevc_amf"@),
        _ => None,
    }
}

impl HwAccel {
    /// FFmpeg encoder name for this accelerator (e.g. `"h264_nvenc"`).
    pub fn encoder_name(self, codec: VideoCodec) -> (r: Option<&'static str>)
        ensures
            r is Some == encoder_name_of(self, codec) is Some,
            r matches Some(s) ==> s@ == encoder_name_of(self, codec)->0,
    {
        match (self, codec) {
            (HwAccel::Software, _) => Option::None,
            (HwAccel::Nvenc, VideoCodec::H264) => Some("h264_nvenc"),
            (HwAccel::Nvenc, VideoCodec::H265) => Some("hevc_nvenc"),
            (HwAccel::Nvenc, VideoCodec::AV1) => Some("av1_nvenc"),
            (HwAccel::Qsv, VideoCodec::H264) => Some("h264_qsv"),
            (HwAccel::Qsv, VideoCodec::H265) => Some("hevc_qsv"),
            (HwAccel::Qsv, VideoCodec::AV1) => Some("av1_qsv"),
            (HwAccel::Vaapi, VideoCodec::H264) => Some("h264_vaapi"),
            (HwAccel::Vaapi, VideoCodec::H265) => Some("hevc_vaapi"),
            (HwAccel::Vaapi, VideoCodec::AV1) => Some("av1_vaapi"),
            (HwAccel::Amf, VideoCodec::H264) => Some("h264_amf"),
            (HwAccel::Amf, VideoCodec::H265) => Some("hevc_amf"),
            _ => Option::None,
        }
    }
}

/// Rate control mode for the encoder.
#[derive(Debug, Clone, Copy, PartialEq, Eq)]
pub enum RateControl {
    /// Constant Bitrate — target the configured bitrate_kbps exactly.
    Cbr,
    /// Variable Bitrate — encoder decides bitrate within bounds.
    Vbr,
    /// Constant Rate Factor — quality-based.
    Crf { quality: u8 },
}

impl Default for RateControl {
    fn default() -> (r: Self)
        ensures
            r == RateControl::Cbr,
    {
        RateControl::Cbr
    }
}

/// Encoder quality/speed preset.
#[derive(Debug, Clone, Copy, PartialEq, Eq)]
pub enum EncoderPreset {
    Ultrafast,
    Superfast,
    Veryfast,
    Fast,
    Medium,
    Slow,
}

pub open spec fn preset_name(p: EncoderPreset) -> Seq<char> {
    match p {
        EncoderPreset::Ultrafast => "ultrafast"@,
        EncoderPreset::Superfast => "superfast"@,
        EncoderPreset::Veryfast => "veryfast"@,
        EncoderPreset::Fast => "fast"@,
        EncoderPreset::Medium => "medium"@,
        EncoderPreset::Slow => "slow"@,
    }
}

/// NVENC preset equivalent (P1 = fastest/lowest latency, P7 = slowest/best quality).
pub open spec fn nvenc_preset_name(p: EncoderPreset) -> Seq<char> {
    match p {
        EncoderPreset::Ultrafast | EncoderPreset::Superfast => "p1"@,
        EncoderPreset::Veryfast => "p2"@,
        EncoderPreset::Fast => "p3"@,
        EncoderPreset::Medium => "p4"@,
        EncoderPreset::Slow => "p7"@,
    }
}

impl EncoderPreset {
    pub fn as_str(self) -> (s: &'static str)
        ensures
            s@ == preset_name(self),
    {
        match self {
            EncoderPreset::Ultrafast => "ultrafast",
            EncoderPreset::Superfast => "superfast",
            EncoderPreset::Veryfast => "veryfast",
            EncoderPreset::Fast => "fast",
            EncoderPreset::Medium => "medium",
            EncoderPreset::Slow => "slow",
        }
    }

    pub fn nvenc_preset(self) -> (s: &'static str)
        ensures
            s@ == nvenc_preset_name(self),
    {
        match self {
            EncoderPreset::Ultrafast | EncoderPreset::Superfast => "p1",
            EncoderPreset::Veryfast => "p2",
            EncoderPreset::Fast => "p3",
            EncoderPreset::Medium => "p4",
            EncoderPreset::Slow => "p7",
        }
    }
}

impl Default for EncoderPreset {
    fn default() -> (r: Self)
        ensures
            r == EncoderPreset::Veryfast,
    {
        EncoderPreset::Veryfast
    }
}

/// Configuration for a video encoder.
#[derive(Debug, Clone, Copy)]
pub struct EncoderConfig {
    pub codec: VideoCodec,
    pub width: u32,
    pub height: u32,
    pub fps: u32,
    pub bitrate_kbps: u32,
    pub preset: EncoderPreset,
    /// Preferred hardware acceleration (falls back to software if unavailable).
    pub hw_accel: HwAccel,
    /// Rate control mode.
    pub rate_control: RateControl,
    /// Maximum number of B-frames (0 for lowest latency).
    pub max_b_frames: u32,
    /// Encoder lookahead depth (0 for lowest latency).
    pub lookahead: u32,
}

impl Default for EncoderConfig {
    /// H.264 at 1920x1080, 60 fps, 5000 kbps, the default preset, software
    /// encoding, constant bitrate, no B-frames, no lookahead.
    fn default() -> (c: Self)
        ensures
            c == (EncoderConfig {
                codec: VideoCodec::H264,
                width: 1920,
                height: 1080,
                fps: 60,
                bitrate_kbps: 5000,
                preset: EncoderPreset::Veryfast,
                hw_accel: HwAccel::Software,
                rate_control: RateControl::Cbr,
                max_b_frames: 0,
                lookahead: 0,
            }),
    {
        EncoderConfig {
            codec: VideoCodec::H264,
            width: 1920,
            height: 1080,
            fps: 60,
            bitrate_kbps: 5000,
            preset: EncoderPreset::default(),
            hw_accel: HwAccel::Software,
            rate_control: RateControl::Cbr,
            max_b_frames: 0,
            lookahead: 0,
        }
    }
}

impl EncoderConfig {
    /// Ultra-low-latency preset for real-time KVM use.
    pub fn low_latency(codec: VideoCodec, width: u32, height: u32, bitrate_kbps: u32) -> (c: Self)
        ensures
            c == (EncoderConfig {
                codec,
                width,
                height,
                fps: 60,
                bitrate_kbps,
                preset: EncoderPreset::Ultrafast,
                hw_accel: HwAccel::Software,
                rate_control: RateControl::Cbr,
                max_b_frames: 0,
                lookahead: 0,
            }),
    {
        EncoderConfig {
            codec,
            width,
            height,
            fps: 60,
            bitrate_kbps,
            preset: EncoderPreset::Ultrafast,
            hw_accel: HwAccel::Software,
            rate_control: RateControl::Cbr,
            max_b_frames: 0,
            lookahead: 0,
        }
    }
}

/// Hardware acceleration backends found on this system. Probing needs the
/// FFmpeg libraries, which this build does not link: the list is empty.
pub fn detect_hw_accels(codec: VideoCodec) -> (r: Vec<HwAccel>)
    ensures
        r@.len() == 0,
{
    Vec::new()
}

// ---------------------------------------------------------------------------
// Raw header
// ---------------------------------------------------------------------------

/// Raw-encoding header: width(4 LE) + height(4 LE) + format_tag(1) = 9 bytes.
pub const RAW_HEADER_SIZE: usize = 9;

/// The header bytes for a frame.
pub open spec fn raw_header(w: u32, h: u32, f: PixelFormat) -> Seq<u8> {
    le32(w) + le32(h) + seq![format_tag(f)]
}

/// What a buffer's header says, if it has a valid one.
pub open spec fn parse_raw_header(buf: Seq<u8>) -> Option<(u32, u32, PixelFormat)> {
    if buf.len() < RAW_HEADER_SIZE {
        None
    } else {
        match format_of_tag(buf[8]) {
            Some(f) => Some(
                (le32_value(buf.subrange(0, 4)) as u32, le32_value(buf.subrange(4, 8)) as u32, f),
            ),
            None => None,
        }
    }
}

pub fn write_raw_header(buf: &mut Vec<u8>, width: u32, height: u32, format: PixelFormat)
    ensures
        final(buf)@ == old(buf)@ + raw_header(width, height, format),
{
    push_le32(buf, width);
    push_le32(buf, height);
    buf.push(format.to_tag());
    assert(final(buf)@ =~= old(buf)@ + raw_header(width, height, format));
}

pub fn read_raw_header(buf: &[u8]) -> (r: Option<(u32, u32, PixelFormat)>)
    ensures
        r == parse_raw_header(buf@),
{
    if buf.len() < RAW_HEADER_SIZE {
        return None;
    }
    let width = read_le32(buf[0], buf[1], buf[2], buf[3]);
    let height = read_le32(buf[4], buf[5], buf[6], buf[7]);
    assert(buf@.subrange(0, 4) =~= seq![buf@[0], buf@[1], buf@[2], buf@[3]]);
    assert(buf@.subrange(4, 8) =~= seq![buf@[4], buf@[5], buf@[6], buf@[7]]);
    match PixelFormat::from_tag(buf[8]) {
        Some(format) => Some((width, height, format)),
        None => None,
    }
}

/// Header law: a written header reads back as the same width, height and
/// format, whatever follows it.
pub proof fn law_raw_header_roundtrip(w: u32, h: u32, f: PixelFormat, rest: Seq<u8>)
    ensures
        parse_raw_header(raw_header(w, h, f) + rest) == Some((w, h, f)),
{
    let b = raw_header(w, h, f) + rest;
    assert(b.subrange(0, 4) =~= le32(w));
    assert(b.subrange(4, 8) =~= le32(h));
    crate::bytes::lemma_le32_bytes(w);
    crate::bytes::lemma_le32_bytes(h);
}

// ---------------------------------------------------------------------------
// Raw encoder and decoder
// ---------------------------------------------------------------------------

/// Errors of the raw video path.
#[derive(Debug, Clone, Copy, PartialEq, Eq)]
pub enum VideoError {
    /// The packet does not start with a valid raw header.
    InvalidHeader,
    /// The packet holds fewer pixel bytes than its header announces.
    TooShort { got: usize, expected: usize },
    /// The capture backend is not available.
    NotImplemented,
}

/// Passes raw frame data through with a metadata header.
pub struct RawEncoder {
    config: EncoderConfig,
    force_kf: bool,
    frame_count: u64,
    keyframe_interval: u64,
}

/// Frames between periodic keyframes of the raw encoder.
pub const RAW_KEYFRAME_INTERVAL: u64 = 30;

impl RawEncoder {
    pub closed spec fn config(&self) -> EncoderConfig {
        self.config
    }

    /// Frames encoded so far.
    pub closed spec fn frames_encoded(&self) -> u64 {
        self.frame_count
    }

    /// Whether the next encoded frame is a keyframe: when one was forced, and
    /// every 30 frames.
    pub closed spec fn next_is_keyframe(&self) -> bool {
        self.force_kf || self.frame_count % self.keyframe_interval == 0
    }

    /// The encoder keeps the fixed keyframe interval.
    #[verifier::type_invariant]
    spec fn wf(&self) -> bool {
        self.keyframe_interval == RAW_KEYFRAME_INTERVAL
    }

    pub fn new(config: EncoderConfig) -> (e: Self)
        ensures
            e.config() == config,
            e.frames_encoded() == 0,
            e.next_is_keyframe(),
    {
        RawEncoder { config, force_kf: true, frame_count: 0, keyframe_interval: RAW_KEYFRAME_INTERVAL }
    }

    /// Encodes one frame: a single packet holding the raw header and the
    /// pixel data, stamped with the frame's index.
    pub fn encode(&mut self, frame: &VideoFrame) -> (r: Result<Vec<EncodedPacket>, VideoError>)
        requires
            old(self).frames_encoded() < u64::MAX,
        ensures
            final(self).config() == old(self).config(),
            final(self).frames_encoded() == old(self).frames_encoded() + 1,
            !final(self).next_is_keyframe() || (final(self).frames_encoded() % RAW_KEYFRAME_INTERVAL == 0),
            r matches Ok(packets) && packets@.len() == 1 && packets@[0].data@ == raw_header(
                frame.width,
                frame.height,
                frame.format,
            ) + frame.data@ && packets@[0].pts == old(self).frames_encoded() as i64
                && packets@[0].dts == packets@[0].pts && packets@[0].is_keyframe
                == old(self).next_is_keyframe() && packets@[0].codec == old(self).config().codec,
    {
        proof {
            use_type_invariant(&*self);
        }
        let is_keyframe = self.force_kf || self.frame_count % self.keyframe_interval == 0;
        self.force_kf = false;
        let pts = self.frame_count as i64;
        self.frame_count = self.frame_count + 1;
        let mut data: Vec<u8> = Vec::new();
        write_raw_header(&mut data, frame.width, frame.height, frame.format);
        push_range(&mut data, frame.data.as_slice(), 0, frame.data.len());
        assert(data@ =~= raw_header(frame.width, frame.height, frame.format) + frame.data@);
        let mut packets: Vec<EncodedPacket> = Vec::new();
        packets.push(EncodedPacket { data, pts, dts: pts, is_keyframe, codec: self.config.codec });
        Ok(packets)
    }

    /// Nothing is buffered: flushing yields no packet.
    pub fn flush(&mut self) -> (r: Result<Vec<EncodedPacket>, VideoError>)
        ensures
            *final(self) == *old(self),
            r matches Ok(v) && v@.len() == 0,
    {
        Ok(Vec::new())
    }

    /// Makes the next encoded frame a keyframe.
    pub fn force_keyframe(&mut self)
        ensures
            final(self).config() == old(self).config(),
            final(self).frames_encoded() == old(self).frames_encoded(),
            final(self).next_is_keyframe(),
    {
        proof {
            use_type_invariant(&*self);
        }
        self.force_kf = true;
    }
}

/// What decoding a raw packet's bytes yields: the frame's width, height,
/// format and pixel data, or the error.
pub open spec fn raw_decode(bytes: Seq<u8>) -> Result<(u32, u32, PixelFormat, Seq<u8>), VideoError> {
    match parse_raw_header(bytes) {
        None => Err(VideoError::InvalidHeader),
        Some((w, h, f)) => {
            let pixels = bytes.subrange(RAW_HEADER_SIZE as int, bytes.len() as int);
            let expected = frame_bytes(f, w, h);
            if pixels.len() < expected {
                Err(VideoError::TooShort { got: pixels.len() as usize, expected: expected as usize })
            } else {
                Ok((w, h, f, pixels.take(expected)))
            }
        },
    }
}

/// A packet's size computation stays within `usize`.
pub open spec fn raw_packet_fits(bytes: Seq<u8>) -> bool {
    parse_raw_header(bytes) matches Some((w, h, f)) ==> frame_size_fits(f, w, h)
}

/// Decodes packets produced by `RawEncoder`.
pub struct RawDecoder {
    frame_count: u64,
}

impl RawDecoder {
    /// Frames decoded so far.
    pub closed spec fn frames_decoded(&self) -> u64 {
        self.frame_count
    }

    pub fn new() -> (d: Self)
        ensures
            d.frames_decoded() == 0,
    {
        RawDecoder { frame_count: 0 }
    }

    /// Decodes one raw packet into one frame: the header's geometry and
    /// format, exactly as many pixel bytes as the format needs, the packet's
    /// pts as timestamp and the decoder's frame counter as frame number.
    pub fn decode(&mut self, packet: &EncodedPacket) -> (r: Result<Vec<VideoFrame>, VideoError>)
        requires
            raw_packet_fits(packet.data@),
            old(self).frames_decoded() < u64::MAX,
        ensures
            match raw_decode(packet.data@) {
                Err(e) => r == Err::<Vec<VideoFrame>, VideoError>(e) && final(self).frames_decoded()
                    == old(self).frames_decoded(),
                Ok((w, h, f, pixels)) => r matches Ok(frames) && frames@.len() == 1 && frames@[0].width == w
                    && frames@[0].height == h && frames@[0].format == f && frames@[0].data@ == pixels
                    && frames@[0].timestamp_us == packet.pts as u64 && frames@[0].frame_number
                    == old(self).frames_decoded() && frames@[0].dirty_rects@.len() == 0
                    && final(self).frames_decoded() == old(self).frames_decoded() + 1,
            },
    {
        let (width, height, format) = match read_raw_header(packet.data.as_slice()) {
            Some(h) => h,
            None => return Err(VideoError::InvalidHeader),
        };
        let n = packet.data.len();
        let got = n - RAW_HEADER_SIZE;
        let expected = format.frame_size(width, height);
        if got < expected {
            return Err(VideoError::TooShort { got, expected });
        }
        let mut data: Vec<u8> = Vec::new();
        push_range(&mut data, packet.data.as_slice(), RAW_HEADER_SIZE, RAW_HEADER_SIZE + expected);
        assert(data@ =~= packet.data@.subrange(RAW_HEADER_SIZE as int, n as int).take(expected as int));
        let frame = VideoFrame {
            data,
            width,
            height,
            format,
            timestamp_us: packet.pts as u64,
            frame_number: self.frame_count,
            dirty_rects: Vec::new(),
        };
        self.frame_count = self.frame_count + 1;
        let mut frames: Vec<VideoFrame> = Vec::new();
        frames.push(frame);
        Ok(frames)
    }

    /// Nothing is buffered: flushing yields no frame.
    pub fn flush(&mut self) -> (r: Result<Vec<VideoFrame>, VideoError>)
        ensures
            final(self).frames_decoded() == old(self).frames_decoded(),
            r matches Ok(v) && v@.len() == 0,
    {
        Ok(Vec::new())
    }
}

impl Default for RawDecoder {
    fn default() -> (d: Self)
        ensures
            d.frames_decoded() == 0,
    {
        RawDecoder::new()
    }
}

/// Raw video law: a frame whose data has exactly the size its format and
/// geometry call for, framed the way `RawEncoder::encode` frames it, decodes
/// back to the same width, height, format and data.
pub proof fn law_raw_roundtrip(w: u32, h: u32, f: PixelFormat, data: Seq<u8>)
    requires
        data.len() == frame_bytes(f, w, h),
    ensures
        raw_decode(raw_header(w, h, f) + data) == Ok::<(u32, u32, PixelFormat, Seq<u8>), VideoError>((w, h, f, data)),
{
    law_raw_header_roundtrip(w, h, f, data);
    let b = raw_header(w, h, f) + data;
    assert(b.subrange(RAW_HEADER_SIZE as int, b.len() as int) =~= data);
    assert(data.take(data.len() as int) =~= data);
}

/// A capture source that produces synthetic solid-color frames, for
/// testing the pipeline without a real display. The frames' colors (a hue
/// cycle) are computed in floating point by the program, which also paces
/// the frames.
pub struct DummyCapture {
    width: u32,
    height: u32,
}

/// The bytes of a solid BGRA frame of `n` pixels.
pub open spec fn solid_bgra(n: nat, r: u8, g: u8, b: u8) -> Seq<u8> {
    Seq::new(n * 4, |i: int| if i % 4 == 0 { b } else if i % 4 == 1 { g } else if i % 4 == 2 { r } else { 255u8 })
}

impl DummyCapture {
    /// A dummy source of the given size.
    pub fn new(width: u32, height: u32) -> (c: Self)
        ensures
            c.size() == (width, height),
    {
        DummyCapture { width, height }
    }

    /// The size of the frames without a capture region.
    pub closed spec fn size(&self) -> (u32, u32) {
        (self.width, self.height)
    }

    /// The one display of the source: "Dummy Display" at the origin, its
    /// size, 60 Hz, scale 1, primary.
    pub fn displays(&self) -> (v: Vec<DisplayInfo>)
        ensures
            v@.len() == 1,
            v@[0].id == 0,
            v@[0].name@ == "Dummy Display"@,
            v@[0].x == 0 && v@[0].y == 0,
            (v@[0].width, v@[0].height) == self.size(),
            v@[0].refresh_rate_bits == REFRESH_60HZ_BITS,
            v@[0].scale_factor_bits == SCALE_ONE_BITS,
            v@[0].is_primary,
    {
        let mut v: Vec<DisplayInfo> = Vec::new();
        v.push(DisplayInfo {
            id: 0,
            name: String::from_str("Dummy Display"),
            x: 0,
            y: 0,
            width: self.width,
            height: self.height,
            refresh_rate_bits: REFRESH_60HZ_BITS,
            scale_factor_bits: SCALE_ONE_BITS,
            is_primary: true,
        });
        v
    }

    /// The size of the frames for a capture configuration: the region's
    /// when there is one, else the source's.
    pub fn frame_dimensions(&self, config: &CaptureConfig) -> (d: (u32, u32))
        ensures
            d == (match config.region {
                Some(r) => (r.width, r.height),
                None => self.size(),
            }),
    {
        match &config.region {
            Some(r) => (r.width, r.height),
            None => (self.width, self.height),
        }
    }
}

/// The interval between dummy frames in microseconds (at least 1 fps).
pub fn frame_interval_us(fps: u32) -> (us: u64)
    ensures
        us == 1_000_000int / (if fps > 1 { fps as int } else { 1int }),
{
    let f: u32 = if fps > 1 { fps } else { 1 };
    1_000_000u64 / f as u64
}

/// A solid BGRA frame of the given color.
pub fn solid_frame(width: u32, height: u32, r: u8, g: u8, b: u8, timestamp_us: u64, frame_number: u64) -> (f: VideoFrame)
    requires
        width * height <= u32::MAX,
        width * height * 4 <= usize::MAX,
    ensures
        f.width == width && f.height == height,
        f.format == PixelFormat::Bgra,
        f.timestamp_us == timestamp_us,
        f.frame_number == frame_number,
        f.dirty_rects@.len() == 0,
        f.data@ == solid_bgra((width * height) as nat, r, g, b),
{
    let pixel_count = (width * height) as usize;
    let mut data: Vec<u8> = Vec::new();
    let mut i: usize = 0;
    while i < pixel_count
        invariant
            0 <= i <= pixel_count,
            pixel_count == width * height,
            pixel_count * 4 <= usize::MAX,
            data@ == solid_bgra(i as nat, r, g, b),
        decreases pixel_count - i,
    {
        data.push(b);
        data.push(g);
        data.push(r);
        data.push(255);
        i = i + 1;
        assert(data@ =~= solid_bgra(i as nat, r, g, b));
    }
    VideoFrame {
        data,
        width,
        height,
        format: PixelFormat::Bgra,
        timestamp_us,
        frame_number,
        dirty_rects: Vec::new(),
    }
}

/// A capture source backed by PipeWire (Wayland screen capture).
pub struct PipeWireCapture {
    _private: (),
}

impl PipeWireCapture {
    /// PipeWire capture is not available: creation always fails.
    pub fn new() -> (r: Result<Self, VideoError>)
        ensures
            r == Err::<Self, VideoError>(VideoError::NotImplemented),
    {
        Err(VideoError::NotImplemented)
    }
}

} // verus!
