//! Audio sharing: configurations, packet numbering and loss detection, the
//! sizes of frames and buffers, and the choice of devices.
//!
//! The audio devices (cpal), the Opus codec and the sample processing in
//! floating point belong to the program around this crate.
use vstd::prelude::*;
use crate::text::{decimal, push_decimal};
use crate::scripting::{contains_text, str_contains};

verus! {

/// An Opus-encoded audio packet ready for network transport.
#[derive(Debug, Clone)]
pub struct EncodedAudioPacket {
    pub data: Vec<u8>,
    pub duration_us: u64,
    pub sequence: u64,
    pub timestamp_us: u64,
}

/// Information about an available audio device.
#[derive(Debug, Clone)]
pub struct AudioDeviceInfo {
    pub name: String,
    pub is_input: bool,
    pub is_loopback: bool,
}

/// Configuration for the full audio pipeline.
#[derive(Debug, Clone, Copy, PartialEq, Eq, Structural)]
pub struct AudioPipelineConfig {
    /// Sample rate in Hz (Opus native rate is 48000).
    pub sample_rate: u32,
    /// Number of channels (1 = mono, 2 = stereo).
    pub channels: u16,
    /// Opus frame duration in milliseconds (5, 10, or 20).
    pub frame_duration_ms: u32,
    /// Opus bitrate in kbps (64–128).
    pub bitrate_kbps: u32,
    /// Jitter buffer depth in milliseconds (10–20 for LAN).
    pub jitter_buffer_ms: u32,
    /// Enable Opus forward error correction.
    pub fec_enabled: bool,
}

impl Default for AudioPipelineConfig {
    /// 48 kHz stereo, 10 ms frames at 128 kbps, a 15 ms jitter buffer, FEC
    /// on.
    fn default() -> (c: Self)
        ensures
            c == (AudioPipelineConfig {
                sample_rate: 48000,
                channels: 2,
                frame_duration_ms: 10,
                bitrate_kbps: 128,
                jitter_buffer_ms: 15,
                fec_enabled: true,
            }),
    {
        AudioPipelineConfig {
            sample_rate: 48000,
            channels: 2,
            frame_duration_ms: 10,
            bitrate_kbps: 128,
            jitter_buffer_ms: 15,
            fec_enabled: true,
        }
    }
}

/// Errors from the audio subsystem.
#[derive(Debug)]
pub enum AudioError {
    DeviceNotFound(String),
    FormatNotSupported(String),
    StreamError(String),
    CodecError(String),
    ChannelClosed,
    DeviceError(String),
}

/// Configuration for audio capture.
#[derive(Debug, Clone)]
pub struct CaptureConfig {
    /// Specific device name, or `None` for the default.
    pub device_name: Option<String>,
    /// Capture system audio output (loopback/monitor).
    pub loopback: bool,
    pub sample_rate: u32,
    pub channels: u16,
    pub frame_duration_ms: u32,
}

/// Configuration for audio playback.
#[derive(Debug, Clone)]
pub struct PlaybackConfig {
    pub device_name: Option<String>,
    pub sample_rate: u32,
    pub channels: u16,
    pub jitter_buffer_ms: u32,
}

/// Configuration for the Opus encoder.
#[derive(Debug, Clone, Copy, PartialEq, Eq, Structural)]
pub struct EncoderConfig {
    pub sample_rate: u32,
    pub channels: u16,
    pub bitrate_kbps: u32,
    pub frame_duration_ms: u32,
    pub fec_enabled: bool,
}

/// Configuration for the Opus decoder.
#[derive(Debug, Clone, Copy, PartialEq, Eq, Structural)]
pub struct DecoderConfig {
    pub sample_rate: u32,
    pub channels: u16,
}

/// The sender side's encoder configuration for a pipeline configuration.
pub fn encoder_config(c: &AudioPipelineConfig) -> (e: EncoderConfig)
    ensures
        e == (EncoderConfig {
            sample_rate: c.sample_rate,
            channels: c.channels,
            bitrate_kbps: c.bitrate_kbps,
            frame_duration_ms: c.frame_duration_ms,
            fec_enabled: c.fec_enabled,
        }),
{
    EncoderConfig {
        sample_rate: c.sample_rate,
        channels: c.channels,
        bitrate_kbps: c.bitrate_kbps,
        frame_duration_ms: c.frame_duration_ms,
        fec_enabled: c.fec_enabled,
    }
}

/// The sender side's capture configuration: the default loopback device,
/// the pipeline's format.
pub fn sender_capture_config(c: &AudioPipelineConfig) -> (k: CaptureConfig)
    ensures
        k.device_name is None,
        k.loopback,
        k.sample_rate == c.sample_rate,
        k.channels == c.channels,
        k.frame_duration_ms == c.frame_duration_ms,
{
    CaptureConfig {
        device_name: None,
        loopback: true,
        sample_rate: c.sample_rate,
        channels: c.channels,
        frame_duration_ms: c.frame_duration_ms,
    }
}

/// The receiver side's playback configuration: the default output device,
/// the pipeline's format and jitter depth.
pub fn receiver_playback_config(c: &AudioPipelineConfig) -> (k: PlaybackConfig)
    ensures
        k.device_name is None,
        k.sample_rate == c.sample_rate,
        k.channels == c.channels,
        k.jitter_buffer_ms == c.jitter_buffer_ms,
{
    PlaybackConfig {
        device_name: None,
        sample_rate: c.sample_rate,
        channels: c.channels,
        jitter_buffer_ms: c.jitter_buffer_ms,
    }
}

/// Opus channel layouts.
#[derive(Debug, Clone, Copy, PartialEq, Eq, Structural)]
pub enum OpusChannels {
    Mono,
    Stereo,
}

/// The Opus layout of a channel count: 1 is mono, 2 is stereo; any other
/// count is not supported ("opus supports 1 or 2 channels, got N").
pub fn to_opus_channels(channels: u16) -> (r: Result<OpusChannels, AudioError>)
    ensures
        channels == 1 ==> r == Ok::<OpusChannels, AudioError>(OpusChannels::Mono),
        channels == 2 ==> r == Ok::<OpusChannels, AudioError>(OpusChannels::Stereo),
        channels != 1 && channels != 2 ==> (r matches Err(AudioError::FormatNotSupported(m))
            && m@ == "opus supports 1 or 2 channels, got "@ + decimal(channels as nat)),
{
    if channels == 1 {
        Ok(OpusChannels::Mono)
    } else if channels == 2 {
        Ok(OpusChannels::Stereo)
    } else {
        let mut m = String::from_str("opus supports 1 or 2 channels, got ");
        push_decimal(&mut m, channels as u64);
        Err(AudioError::FormatNotSupported(m))
    }
}

/// The encoder bitrate in bits per second.
pub fn bitrate_bits(bitrate_kbps: u32) -> (b: i32)
    requires
        bitrate_kbps * 1000 <= i32::MAX,
    ensures
        b == bitrate_kbps * 1000,
{
    bitrate_kbps as i32 * 1000
}

/// Samples per channel in one encoder frame.
pub fn encoder_frame_size(sample_rate: u32, frame_duration_ms: u32) -> (n: usize)
    requires
        sample_rate * frame_duration_ms <= u32::MAX,
    ensures
        n == sample_rate * frame_duration_ms / 1000,
{
    (sample_rate * frame_duration_ms / 1000) as usize
}

/// Interleaved samples in one encoder frame.
pub fn frame_samples(frame_size: usize, channels: u16) -> (n: usize)
    requires
        frame_size * channels <= usize::MAX,
    ensures
        n == frame_size * channels,
{
    frame_size * channels as usize
}

/// Interleaved samples per frame for a format (used for capture frames,
/// jitter buffers and crossfades).
pub open spec fn samples_for(sample_rate: u32, channels: u16, duration_ms: u32) -> int {
    sample_rate * channels * duration_ms / 1000
}

/// Interleaved samples per captured frame.
pub fn capture_frame_samples(sample_rate: u32, channels: u16, frame_duration_ms: u32) -> (n: usize)
    requires
        sample_rate * channels <= u32::MAX,
        sample_rate * channels * frame_duration_ms <= u32::MAX,
    ensures
        n == samples_for(sample_rate, channels, frame_duration_ms),
{
    let sc: u32 = sample_rate * channels as u32;
    (sc * frame_duration_ms / 1000) as usize
}

/// Duration of a captured frame in microseconds.
pub fn capture_frame_duration_us(frame_samples: usize, sample_rate: u32, channels: u16) -> (d: u64)
    requires
        sample_rate > 0,
        channels > 0,
        frame_samples * 1_000_000 <= u64::MAX,
    ensures
        d == frame_samples * 1_000_000 / (sample_rate * channels),
{
    let num: u64 = frame_samples as u64 * 1_000_000;
    proof {
        assert(sample_rate * channels <= u64::MAX) by (nonlinear_arith)
            requires sample_rate <= u32::MAX, channels <= u16::MAX;
    }
    let den: u64 = sample_rate as u64 * channels as u64;
    proof {
        assert(den > 0) by (nonlinear_arith)
            requires den == sample_rate * channels, sample_rate > 0, channels > 0;
    }
    num / den
}

/// Samples per channel... the decoder buffer: the largest Opus frame
/// (120 ms), interleaved.
pub fn decoder_max_samples(sample_rate: u32, channels: u16) -> (n: usize)
    requires
        (sample_rate / 1000) * 120 * channels <= usize::MAX,
    ensures
        n == (sample_rate / 1000) * 120 * channels,
{
    (sample_rate as usize / 1000) * 120 * channels as usize
}

/// Interleaved samples in the jitter buffer.
pub fn jitter_buffer_samples(sample_rate: u32, channels: u16, jitter_buffer_ms: u32) -> (n: usize)
    requires
        sample_rate * channels <= u32::MAX,
        sample_rate * channels * jitter_buffer_ms <= u32::MAX,
    ensures
        n == samples_for(sample_rate, channels, jitter_buffer_ms),
{
    let sc: u32 = sample_rate * channels as u32;
    (sc * jitter_buffer_ms / 1000) as usize
}

/// Capacity of the playback ring buffer: three times the jitter depth (at
/// least one sample's worth).
pub fn ring_capacity(jitter_samples: usize) -> (n: usize)
    requires
        (if jitter_samples > 1 { jitter_samples } else { 1 }) * 3 <= usize::MAX,
    ensures
        n == (if jitter_samples > 1 { jitter_samples } else { 1 }) * 3,
{
    let base = if jitter_samples > 1 { jitter_samples } else { 1 };
    base * 3
}

/// Interleaved samples over which a crossfade fades out.
pub fn crossfade_samples(sample_rate: u32, channels: u16, duration_ms: u32) -> (n: u32)
    requires
        sample_rate * channels <= u32::MAX,
        sample_rate * channels * duration_ms <= u32::MAX,
    ensures
        n == samples_for(sample_rate, channels, duration_ms),
{
    let sc: u32 = sample_rate * channels as u32;
    sc * duration_ms / 1000
}

/// Numbering of the packets a sender produces: 0, 1, 2, ...; every packet
/// lasts one frame.
pub struct PacketSequencer {
    next: u64,
    frame_duration_us: u64,
}

impl PacketSequencer {
    /// A sequencer for frames of the given duration (in milliseconds).
    pub fn new(frame_duration_ms: u32) -> (s: Self)
        ensures
            s.next_sequence() == 0,
            s.frame_duration_us() == frame_duration_ms * 1000,
    {
        PacketSequencer { next: 0, frame_duration_us: frame_duration_ms as u64 * 1000 }
    }

    /// The number the next packet gets.
    pub closed spec fn next_sequence(&self) -> u64 {
        self.next
    }

    /// The duration of a packet.
    pub closed spec fn frame_duration_us(&self) -> u64 {
        self.frame_duration_us
    }

    /// The packet for one encoded frame, numbered in order.
    pub fn packet(&mut self, data: Vec<u8>, timestamp_us: u64) -> (p: EncodedAudioPacket)
        requires
            old(self).next_sequence() < u64::MAX,
        ensures
            p.data@ == data@,
            p.sequence == old(self).next_sequence(),
            p.duration_us == old(self).frame_duration_us(),
            p.timestamp_us == timestamp_us,
            final(self).next_sequence() == old(self).next_sequence() + 1,
            final(self).frame_duration_us() == old(self).frame_duration_us(),
    {
        let p = EncodedAudioPacket { data, duration_us: self.frame_duration_us, sequence: self.next, timestamp_us };
        self.next = self.next + 1;
        p
    }
}

/// Whether packets were lost before a packet: its number skips past the
/// one after the last packet received (nothing is lost before the first).
pub open spec fn loss_before(last_sequence: Option<u64>, sequence: u64) -> bool {
    match last_sequence {
        Some(prev) => sequence > prev + 1,
        None => false,
    }
}

/// Whether packets were lost before this one.
pub fn packet_lost(last_sequence: Option<u64>, sequence: u64) -> (lost: bool)
    ensures
        lost == loss_before(last_sequence, sequence),
{
    match last_sequence {
        Some(prev) => sequence > prev && sequence - prev > 1,
        None => false,
    }
}

/// Loss law: the packets a sequencer numbers, received in order, are never
/// counted as a loss; a packet received after a skipped number always is,
/// and a repeated or older number is not.
pub proof fn law_packet_loss(prev: u64, skipped: u64)
    requires
        prev < u64::MAX,
        skipped >= 1,
        prev + 1 + skipped <= u64::MAX,
    ensures
        !loss_before(Some(prev), (prev + 1) as u64),
        loss_before(Some(prev), (prev + 1 + skipped) as u64),
        !loss_before(Some(prev), prev),
        !loss_before(None, prev),
{
}

/// The lower-case form of a text (`str::to_lowercase`, Unicode rules).
pub uninterp spec fn lowercase(s: Seq<char>) -> Seq<char>;

/// The lower-case form of a text (`str::to_lowercase`). Claims: the result
/// is a function of the text.
#[verifier::external_body]
fn to_lowercase(s: &str) -> (r: String)
    ensures
        r@ == lowercase(s@),
{
    s.to_lowercase()
}

/// Whether a device name denotes a loopback source: its lower-case form
/// contains "monitor" or "loopback".
pub fn is_loopback_name(name: &str) -> (b: bool)
    ensures
        b == (contains_text(lowercase(name@), "monitor"@) || contains_text(lowercase(name@), "loopback"@)),
{
    let lower = to_lowercase(name);
    str_contains(lower.as_str(), "monitor") || str_contains(lower.as_str(), "loopback")
}

/// An input device as listed: its name (empty when it has none) and
/// whether it is a loopback source.
pub fn input_device_info(name: Option<String>) -> (d: AudioDeviceInfo)
    ensures
        d.is_input,
        match name {
            Some(n) => d.name@ == n@ && d.is_loopback == (contains_text(lowercase(n@), "monitor"@)
                || contains_text(lowercase(n@), "loopback"@)),
            None => d.name@.len() == 0 && d.is_loopback == (contains_text(lowercase(Seq::<char>::empty()), "monitor"@)
                || contains_text(lowercase(Seq::<char>::empty()), "loopback"@)),
        },
{
    let name = match name {
        Some(n) => n,
        None => String::new(),
    };
    let is_loopback = is_loopback_name(name.as_str());
    AudioDeviceInfo { name, is_input: true, is_loopback }
}

/// An output device as listed.
pub fn output_device_info(name: Option<String>) -> (d: AudioDeviceInfo)
    ensures
        !d.is_input,
        !d.is_loopback,
        match name {
            Some(n) => d.name@ == n@,
            None => d.name@.len() == 0,
        },
{
    let name = match name {
        Some(n) => n,
        None => String::new(),
    };
    AudioDeviceInfo { name, is_input: false, is_loopback: false }
}

/// Which capture device to use: the named one, else the loopback source
/// when loopback is asked for, else the default input.
#[derive(Debug, Clone)]
pub enum CaptureDeviceChoice {
    Named(String),
    Loopback,
    DefaultInput,
}

/// The capture device choice for a configuration.
pub fn capture_device_choice(c: &CaptureConfig) -> (r: CaptureDeviceChoice)
    ensures
        match c.device_name {
            Some(n) => r matches CaptureDeviceChoice::Named(m) && m@ == n@,
            None => if c.loopback { r is Loopback } else { r is DefaultInput },
        },
{
    match &c.device_name {
        Some(n) => CaptureDeviceChoice::Named(n.clone()),
        None => if c.loopback {
            CaptureDeviceChoice::Loopback
        } else {
            CaptureDeviceChoice::DefaultInput
        },
    }
}

/// The error for a named input device that is not present.
pub fn device_not_found(name: &str) -> (e: AudioError)
    ensures
        e matches AudioError::DeviceNotFound(m) && m@ == "input device '"@ + name@ + "' not found"@,
{
    let mut m = String::from_str("input device '");
    m.append(name);
    m.append("' not found");
    AudioError::DeviceNotFound(m)
}

} // verus!
