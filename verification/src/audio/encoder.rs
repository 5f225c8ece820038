//! Codec properties, and the AAC / HE-AAC encoder (FDK-AAC, fixed frames of
//! `frameLength` samples per channel). It takes interleaved 16-bit PCM; the
//! float-to-PCM conversion happens before.
use crate::audio::framing::{silence, SampleFramer};
use crate::config::Codec;
use fdk_aac::enc::{AudioObjectType, BitRate, ChannelMode, EncoderParams, Transport};
use crate::text::{owned, push_text};
use vstd::prelude::*;

verus! {

/// The MIME type a server is told for a codec's stream.
pub open spec fn content_type_of(codec: Codec) -> Seq<char> {
    match codec {
        Codec::MP3 => "audio/mpeg"@,
        Codec::Opus => "audio/opus"@,
        Codec::OggVorbis => "audio/ogg"@,
        Codec::AAC => "audio/aac"@,
        Codec::AACPlus => "audio/aacp"@,
    }
}

/// The MIME type of a codec's stream.
pub fn codec_content_type(codec: &Codec) -> (r: &'static str)
    ensures
        r@ == content_type_of(*codec),
{
    match codec {
        Codec::MP3 => "audio/mpeg",
        Codec::Opus => "audio/opus",
        Codec::OggVorbis => "audio/ogg",
        Codec::AAC => "audio/aac",
        Codec::AACPlus => "audio/aacp",
    }
}

/// `n` zero bytes.
fn zeroed_bytes(n: usize) -> (r: Vec<u8>)
    ensures
        r@.len() == n,
{
    let mut v: Vec<u8> = Vec::new();
    while v.len() < n
        invariant
            v@.len() <= n,
        decreases n - v@.len(),
    {
        v.push(0);
    }
    v
}

fn append_prefix(out: &mut Vec<u8>, buf: &Vec<u8>, n: usize)
    requires
        n <= buf@.len(),
    ensures
        final(out)@ == old(out)@ + buf@.subrange(0, n as int),
{
    let mut i: usize = 0;
    while i < n
        invariant
            0 <= i <= n <= buf@.len(),
            out@ == old(out)@ + buf@.subrange(0, i as int),
        decreases n - i,
    {
        out.push(buf[i]);
        i = i + 1;
        assert(out@ =~= old(out)@ + buf@.subrange(0, i as int));
    }
}

// ---------------------------------------------------------------------------
// AAC and HE-AAC (FDK-AAC)
// ---------------------------------------------------------------------------

#[verifier::external_type_specification]
#[verifier::external_body]
pub struct ExFdkEncoder(fdk_aac::enc::Encoder);

/// Channel layout handed to FDK-AAC.
#[derive(Debug, Clone, Copy, PartialEq, Eq, Structural)]
pub enum AacChannels {
    Mono,
    Stereo,
}

/// AAC profile: plain AAC-LC, or HE-AAC ("AAC+").
#[derive(Debug, Clone, Copy, PartialEq, Eq, Structural)]
pub enum AacProfile {
    LowComplexity,
    HighEfficiency,
}

/// How FDK-AAC frames its output: ADTS headers on every frame, or raw
/// access units.
#[derive(Debug, Clone, Copy, PartialEq, Eq, Structural)]
pub enum AacTransport {
    Adts,
    Raw,
}

/// FDK-AAC's bitrate mode: constant at the given bit/s, or one of the five
/// variable-bitrate quality levels.
#[derive(Debug, Clone, Copy, PartialEq, Eq, Structural)]
pub enum AacBitRate {
    Constant(u32),
    VariableVeryLow,
    VariableLow,
    VariableMedium,
    VariableHigh,
    VariableVeryHigh,
}

/// The parameters an FDK-AAC encoder is opened with.
#[derive(Debug, Clone, Copy, PartialEq, Eq, Structural)]
pub struct AacSettings {
    pub sample_rate: u32,
    pub bit_rate: AacBitRate,
    pub transport: AacTransport,
    pub channels: AacChannels,
    pub profile: AacProfile,
}

/// The settings a stream encoder for `channels` interleaved channels at
/// `sample_rate`, `bitrate_kbps` and profile `is_plus` is opened with: ADTS
/// framing (each frame carries its own header, as a stream needs), constant
/// bitrate in bit/s, mono for one channel and stereo otherwise, HE-AAC
/// exactly for `is_plus`.
pub open spec fn aac_settings_for(sample_rate: u32, channels: u16, bitrate_kbps: u32, is_plus: bool) -> AacSettings {
    AacSettings {
        sample_rate,
        bit_rate: AacBitRate::Constant((bitrate_kbps * 1000) as u32),
        transport: AacTransport::Adts,
        channels: if channels == 1 { AacChannels::Mono } else { AacChannels::Stereo },
        profile: if is_plus { AacProfile::HighEfficiency } else { AacProfile::LowComplexity },
    }
}

/// One call of the encoder: the samples it was handed and, when the call
/// succeeded, the bytes it reported (`None` when it failed).
pub type AacCall = (Seq<i16>, Option<Seq<u8>>);

/// The calls an FDK-AAC encoder has received since it was opened, oldest
/// first: the history `fdk_encode` records.
pub uninterp spec fn fdk_history(enc: fdk_aac::enc::Encoder) -> Seq<(Seq<i16>, Option<Seq<u8>>)>;

/// The parameters an FDK-AAC encoder was opened with: sample rate, bitrate
/// in bit/s (0 for a variable bitrate), variable-bitrate level (0 for a
/// constant bitrate, else 1 = very low to 5 = very high), stereo (else
/// mono), HE-AAC (else AAC-LC), ADTS (else raw) transport.
pub uninterp spec fn fdk_opened_with(enc: fdk_aac::enc::Encoder) -> (u32, u32, u8, bool, bool, bool);

/// The frame length (input samples per channel per frame) FDK-AAC reports
/// for an encoder opened with `params`, as `fdk_opened_with` gives them.
pub uninterp spec fn fdk_frame_length_for(params: (u32, u32, u8, bool, bool, bool)) -> u32;

/// `settings` as the tuple `fdk_opened_with` gives.
pub open spec fn settings_tuple(settings: AacSettings) -> (u32, u32, u8, bool, bool, bool) {
    let (bps, level): (u32, u8) = match settings.bit_rate {
        AacBitRate::Constant(b) => (b, 0u8),
        AacBitRate::VariableVeryLow => (0u32, 1u8),
        AacBitRate::VariableLow => (0u32, 2u8),
        AacBitRate::VariableMedium => (0u32, 3u8),
        AacBitRate::VariableHigh => (0u32, 4u8),
        AacBitRate::VariableVeryHigh => (0u32, 5u8),
    };
    (
        settings.sample_rate,
        bps,
        level,
        settings.channels == AacChannels::Stereo,
        settings.profile == AacProfile::HighEfficiency,
        settings.transport == AacTransport::Adts,
    )
}

/// What FDK-AAC takes of an input: at most `i32::MAX` samples.
pub open spec fn fdk_input(s: Seq<i16>) -> Seq<i16> {
    if s.len() <= i32::MAX {
        s
    } else {
        s.subrange(0, i32::MAX as int)
    }
}

/// `fdk_aac::enc::Encoder::new` with the given settings (each converted
/// to the crate's own enum); the library's error is rendered with `Debug`.
/// Claimed: a new encoder is opened with exactly those settings and has
/// received no call yet. Whether it opens is left to the library.
#[verifier::external_body]
fn fdk_open(settings: AacSettings) -> (r: Result<fdk_aac::enc::Encoder, String>)
    ensures
        r matches Ok(e) ==> fdk_opened_with(e) == settings_tuple(settings) && fdk_history(e).len() == 0,
{
    let bit_rate = match settings.bit_rate {
        AacBitRate::Constant(bps) => BitRate::Cbr(bps), AacBitRate::VariableVeryLow => BitRate::VbrVeryLow,
        AacBitRate::VariableLow => BitRate::VbrLow, AacBitRate::VariableMedium => BitRate::VbrMedium,
        AacBitRate::VariableHigh => BitRate::VbrHigh, AacBitRate::VariableVeryHigh => BitRate::VbrVeryHigh,
    };
    let transport = match settings.transport { AacTransport::Adts => Transport::Adts, AacTransport::Raw => Transport::Raw };
    let channels = match settings.channels { AacChannels::Mono => ChannelMode::Mono, AacChannels::Stereo => ChannelMode::Stereo };
    let audio_object_type = match settings.profile {
        AacProfile::LowComplexity => AudioObjectType::Mpeg4LowComplexity, AacProfile::HighEfficiency => AudioObjectType::Mpeg4HeAac,
    };
    let params = EncoderParams { bit_rate, sample_rate: settings.sample_rate, transport, channels, audio_object_type };
    fdk_aac::enc::Encoder::new(params).map_err(|e| format!("{:?}", e))
}

/// `fdk_aac::enc::Encoder::info`, keeping the `frameLength` field (input
/// samples consumed per channel per frame); the error is rendered with
/// `Debug`. Claimed: the reported frame length is determined by the
/// parameters the encoder was opened with (`fdk_frame_length_for`); FDK-AAC
/// derives it from the audio object type and sampling configuration it was
/// configured with.
#[verifier::external_body]
fn fdk_frame_length(enc: &fdk_aac::enc::Encoder) -> (r: Result<u32, String>)
    ensures
        r matches Ok(n) ==> n == fdk_frame_length_for(fdk_opened_with(*enc)),
{
    enc.info().map(|info| info.frameLength).map_err(|e| format!("{:?}", e))
}

/// `fdk_aac::enc::Encoder::encode` of `input` into `output`, keeping the
/// `output_size` field; the error is rendered with `Debug`. Claimed: the
/// call is recorded in the encoder's history with the samples it took (the
/// crate hands over at most `i32::MAX` of them) and, on success, the first
/// `output_size` bytes of `output`; the output buffer keeps its length and
/// the reported size fits it (FDK-AAC, `aacEncEncode`, reports output bytes
/// only after checking that the buffer holds them, and fails otherwise); the
/// opening parameters do not change. The encoder is taken by `&mut` because
/// the call changes its internal state.
#[verifier::external_body]
fn fdk_encode(enc: &mut fdk_aac::enc::Encoder, input: &[i16], output: &mut [u8]) -> (r: Result<usize, String>)
    requires
        old(output)@.len() <= i32::MAX,
    ensures
        final(output)@.len() == old(output)@.len(),
        fdk_opened_with(*final(enc)) == fdk_opened_with(*old(enc)),
        r matches Ok(n) ==> {
            &&& n <= old(output)@.len()
            &&& fdk_history(*final(enc)) == fdk_history(*old(enc)).push(
                (fdk_input(input@), Some(final(output)@.subrange(0, n as int))),
            )
        },
        r is Err ==> fdk_history(*final(enc)) == fdk_history(*old(enc)).push((fdk_input(input@), None)),
{
    enc.encode(input, output).map(|info| info.output_size).map_err(|e| format!("{:?}", e))
}

/// Size of the output buffer one AAC frame is encoded into.
pub const AAC_OUTPUT_BUFFER: usize = 8192;

/// Each call in `calls` took, as FDK-AAC takes it, the next consecutive
/// frame of `f` samples of `all`, starting at the first.
pub open spec fn frames_in_order(calls: Seq<(Seq<i16>, Option<Seq<u8>>)>, all: Seq<i16>, f: nat) -> bool {
    forall|i: int| 0 <= i < calls.len() ==> (#[trigger] calls[i]).0 == fdk_input(all.subrange(i * f, i * f + f))
}

/// Every call in `calls` succeeded.
pub open spec fn all_succeeded(calls: Seq<(Seq<i16>, Option<Seq<u8>>)>) -> bool {
    forall|i: int| 0 <= i < calls.len() ==> (#[trigger] calls[i]).1 is Some
}

/// The bytes the calls reported, one call after the other.
pub open spec fn reported_bytes(calls: Seq<(Seq<i16>, Option<Seq<u8>>)>) -> Seq<u8>
    decreases calls.len(),
{
    if calls.len() == 0 {
        Seq::empty()
    } else {
        reported_bytes(calls.drop_last()) + match calls.last().1 {
            Some(b) => b,
            None => Seq::empty(),
        }
    }
}

/// The frame the end of the stream hands to the codec: the waiting samples
/// padded with silence to `f`, or their first `f` when more wait.
pub open spec fn last_frame(pending: Seq<i16>, f: nat) -> Seq<i16> {
    if pending.len() <= f {
        pending + silence((f - pending.len()) as nat)
    } else {
        pending.subrange(0, f as int)
    }
}

/// The settings an AAC stream encoder is opened with follow the request
/// field by field: the sample rate is the requested one, the bitrate is
/// constant at the requested kbit/s times 1000, frames carry ADTS headers,
/// the channel mode is mono exactly for one channel, and the profile is
/// HE-AAC exactly when asked for; FDK-AAC sees the same values.
pub proof fn lemma_aac_settings_follow_request(sample_rate: u32, channels: u16, bitrate_kbps: u32, is_plus: bool)
    requires
        bitrate_kbps * 1000 <= u32::MAX,
    ensures
        ({
            let s = aac_settings_for(sample_rate, channels, bitrate_kbps, is_plus);
            let t = settings_tuple(s);
            &&& s.sample_rate == sample_rate
            &&& s.bit_rate == AacBitRate::Constant((bitrate_kbps * 1000) as u32)
            &&& s.transport == AacTransport::Adts
            &&& (s.channels == AacChannels::Mono) == (channels == 1)
            &&& (s.profile == AacProfile::HighEfficiency) == is_plus
            &&& t.0 == sample_rate
            &&& t.1 == bitrate_kbps * 1000
            &&& t.2 == 0
            &&& t.3 == (channels != 1)
            &&& t.4 == is_plus
            &&& t.5
        }),
{
}

/// The settings for an encoder of `channels` interleaved channels at
/// `sample_rate`, `bitrate_kbps` and profile `is_plus`.
pub fn aac_settings(sample_rate: u32, channels: u16, bitrate_kbps: u32, is_plus: bool) -> (r: AacSettings)
    requires
        bitrate_kbps * 1000 <= u32::MAX,
    ensures
        r == aac_settings_for(sample_rate, channels, bitrate_kbps, is_plus),
        r.sample_rate == sample_rate,
        r.bit_rate == AacBitRate::Constant((bitrate_kbps * 1000) as u32),
        r.transport == AacTransport::Adts,
        (r.channels == AacChannels::Mono) == (channels == 1),
        (r.profile == AacProfile::HighEfficiency) == is_plus,
{
    let profile = if is_plus {
        AacProfile::HighEfficiency
    } else {
        AacProfile::LowComplexity
    };
    let mode = if channels == 1 {
        AacChannels::Mono
    } else {
        AacChannels::Stereo
    };
    AacSettings {
        sample_rate,
        bit_rate: AacBitRate::Constant(bitrate_kbps * 1000),
        transport: AacTransport::Adts,
        channels: mode,
        profile,
    }
}

/// An AAC or HE-AAC stream encoder: an FDK-AAC encoder and the samples
/// waiting for a complete frame.
pub struct AacEncoder {
    encoder: fdk_aac::enc::Encoder,
    settings: AacSettings,
    frame_length: u32,
    framer: SampleFramer,
    content_type: &'static str,
}

impl AacEncoder {
    /// Samples waiting for a complete frame.
    pub closed spec fn pending(self) -> Seq<i16> {
        self.framer.pending@
    }

    /// Samples (all channels) in one frame.
    pub closed spec fn frame_samples(self) -> nat {
        self.framer.frame_len as nat
    }

    /// The frame length (samples per channel) the encoder was built with;
    /// `new` builds it with the one FDK-AAC reports.
    pub closed spec fn codec_frame_length(self) -> nat {
        self.frame_length as nat
    }

    /// The settings the encoder was built for.
    pub closed spec fn opened_with(self) -> AacSettings {
        self.settings
    }

    /// The parameters the FDK-AAC encoder inside was opened with.
    pub closed spec fn codec_settings(self) -> (u32, u32, u8, bool, bool, bool) {
        fdk_opened_with(self.encoder)
    }

    pub closed spec fn stream_type(self) -> Seq<char> {
        self.content_type@
    }

    /// The calls the FDK-AAC encoder inside has received, oldest first.
    pub closed spec fn calls(self) -> Seq<(Seq<i16>, Option<Seq<u8>>)> {
        fdk_history(self.encoder)
    }

    /// Builds the stream encoder around an opened FDK-AAC encoder that
    /// reported `frame_length` samples per channel: a frame holds
    /// `frame_length * channels` samples. Fails with `Unusable FDK-AAC frame
    /// length` exactly when that number does not fit a `usize`.
    pub fn assemble(encoder: fdk_aac::enc::Encoder, settings: AacSettings, frame_length: u32, channels: u16, is_plus: bool) -> (r: Result<AacEncoder, String>)
        ensures
            (frame_length * channels <= usize::MAX) == (r is Ok),
            r matches Ok(e) ==> {
                &&& e.opened_with() == settings
                &&& e.codec_settings() == fdk_opened_with(encoder)
                &&& e.calls() == fdk_history(encoder)
                &&& e.codec_frame_length() == frame_length
                &&& e.frame_samples() == frame_length * channels
                &&& e.pending().len() == 0
                &&& e.stream_type() == if is_plus { "audio/aacp"@ } else { "audio/aac"@ }
            },
            r matches Err(e) ==> e@ == "Unusable FDK-AAC frame length"@,
    {
        assert((frame_length as u64) * (channels as u64) <= 0xffff_ffffu64 * 0xffffu64) by (nonlinear_arith)
            requires
                frame_length <= 0xffff_ffffu32,
                channels <= 0xffffu16,
        ;
        let product: u64 = frame_length as u64 * channels as u64;
        if product > usize::MAX as u64 {
            return Err(owned("Unusable FDK-AAC frame length"));
        }
        let frame_samples = product as usize;
        let content_type = if is_plus {
            "audio/aacp"
        } else {
            "audio/aac"
        };
        Ok(AacEncoder { encoder, settings, frame_length, framer: SampleFramer::new(frame_samples), content_type })
    }

    /// Opens an encoder for interleaved PCM at `sample_rate` with `channels`
    /// channels, constant bitrate `bitrate_kbps`, AAC-LC or, with `is_plus`,
    /// HE-AAC: FDK-AAC is opened with `aac_settings_for` of these, asked for
    /// its frame length, and the result is `assemble`d. Errors of the library
    /// are reported as `Failed to create FDK-AAC encoder: ...` or `Failed to
    /// get FDK-AAC info: ...`.
    pub fn new(sample_rate: u32, channels: u16, bitrate_kbps: u32, is_plus: bool) -> (r: Result<AacEncoder, String>)
        requires
            bitrate_kbps * 1000 <= u32::MAX,
        ensures
            r matches Ok(e) ==> {
                &&& e.opened_with() == aac_settings_for(sample_rate, channels, bitrate_kbps, is_plus)
                &&& e.opened_with().sample_rate == sample_rate
                &&& e.opened_with().bit_rate == AacBitRate::Constant((bitrate_kbps * 1000) as u32)
                &&& (e.opened_with().channels == AacChannels::Mono) == (channels == 1)
                &&& (e.opened_with().profile == AacProfile::HighEfficiency) == is_plus
                &&& e.codec_settings().0 == sample_rate
                &&& e.codec_settings().1 == bitrate_kbps * 1000
                &&& e.codec_settings().2 == 0
                &&& e.codec_settings().3 == (channels != 1)
                &&& e.codec_settings().4 == is_plus
                &&& e.codec_settings().5
                &&& e.codec_settings() == settings_tuple(aac_settings_for(sample_rate, channels, bitrate_kbps, is_plus))
                &&& e.codec_frame_length() == fdk_frame_length_for(
                    settings_tuple(aac_settings_for(sample_rate, channels, bitrate_kbps, is_plus)),
                )
                &&& e.frame_samples() == e.codec_frame_length() * channels
                &&& e.pending().len() == 0
                &&& e.calls().len() == 0
                &&& e.stream_type() == if is_plus { "audio/aacp"@ } else { "audio/aac"@ }
            },
            r matches Err(e) ==> {
                ||| exists|d: Seq<char>| e@ == "Failed to create FDK-AAC encoder: "@ + d
                ||| exists|d: Seq<char>| e@ == "Failed to get FDK-AAC info: "@ + d
                ||| (e@ == "Unusable FDK-AAC frame length"@ && channels * 0xffff_ffffnat > usize::MAX)
            },
    {
        let settings = aac_settings(sample_rate, channels, bitrate_kbps, is_plus);
        let encoder = match fdk_open(settings) {
            Ok(e) => e,
            Err(e) => {
                let mut msg = owned("Failed to create FDK-AAC encoder: ");
                push_text(&mut msg, e.as_str());
                return Err(msg);
            },
        };
        let frame_length = match fdk_frame_length(&encoder) {
            Ok(n) => n,
            Err(e) => {
                let mut msg = owned("Failed to get FDK-AAC info: ");
                push_text(&mut msg, e.as_str());
                return Err(msg);
            },
        };
        let r = Self::assemble(encoder, settings, frame_length, channels, is_plus);
        proof {
            if r is Err {
                assert(channels * 0xffff_ffffnat >= frame_length as nat * channels) by (nonlinear_arith)
                    requires
                        frame_length <= 0xffff_ffffu32,
                ;
            }
        }
        r
    }

    /// The stream's MIME type.
    pub fn content_type(&self) -> (r: &'static str)
        ensures
            r@ == self.stream_type(),
    {
        self.content_type
    }

    /// The settings the encoder was built for.
    pub fn settings(&self) -> (r: AacSettings)
        ensures
            r == self.opened_with(),
    {
        self.settings
    }

    /// Samples (all channels) in one frame.
    pub fn frame_len(&self) -> (r: usize)
        ensures
            r == self.frame_samples(),
    {
        self.framer.frame_len
    }

    /// Number of samples waiting for a complete frame.
    pub fn pending_len(&self) -> (r: usize)
        ensures
            r == self.pending().len(),
    {
        self.framer.pending_len()
    }

    /// Encodes every complete frame of the waiting samples followed by
    /// `pcm`: the frames are handed to FDK-AAC one after the other, and the
    /// result is the bytes it reported for them, in order. With fewer samples
    /// than a frame nothing is encoded and the result is empty. An encoding
    /// error (`FDK-AAC encode error: ...`) stops at the frame that failed:
    /// that frame is consumed and the later ones stay waiting. (Frames of
    /// zero samples would never end the loop, so they are excluded.)
    pub fn encode_samples(&mut self, pcm: &[i16]) -> (r: Result<Vec<u8>, String>)
        requires
            old(self).frame_samples() > 0,
        ensures
            final(self).frame_samples() == old(self).frame_samples(),
            final(self).codec_frame_length() == old(self).codec_frame_length(),
            final(self).opened_with() == old(self).opened_with(),
            final(self).codec_settings() == old(self).codec_settings(),
            final(self).stream_type() == old(self).stream_type(),
            final(self).calls().len() >= old(self).calls().len(),
            final(self).calls().subrange(0, old(self).calls().len() as int) == old(self).calls(),
            ({
                let all = old(self).pending() + pcm@;
                let f = old(self).frame_samples();
                let new_calls = final(self).calls().subrange(old(self).calls().len() as int, final(self).calls().len() as int);
                let k = new_calls.len();
                &&& frames_in_order(new_calls, all, f)
                &&& k * f <= all.len()
                &&& final(self).pending() == all.subrange((k * f) as int, all.len() as int)
                &&& all.len() < f ==> (r matches Ok(v) && v@.len() == 0)
                &&& r matches Ok(v) ==> {
                    &&& k == all.len() / f
                    &&& all_succeeded(new_calls)
                    &&& v@ == reported_bytes(new_calls)
                }
                &&& r matches Err(e) ==> {
                    &&& exists|d: Seq<char>| e@ == "FDK-AAC encode error: "@ + d
                    &&& k >= 1
                    &&& all_succeeded(new_calls.drop_last())
                    &&& new_calls.last().1 is None
                }
            }),
    {
        self.framer.append(pcm);
        let ghost all = self.framer.pending@;
        let ghost f = self.framer.frame_len as nat;
        let ghost h0 = fdk_history(self.encoder);
        let ghost o = h0.len();
        let ghost mut k: nat = 0;
        let mut output: Vec<u8> = Vec::new();
        proof {
            assert(fdk_history(self.encoder).subrange(o as int, o as int) =~= Seq::<AacCall>::empty());
            assert(fdk_history(self.encoder).subrange(0, o as int) =~= h0);
            assert(all.subrange(0, all.len() as int) =~= all);
        }
        loop
            invariant
                self.framer.frame_len as nat == f,
                f > 0,
                f == old(self).framer.frame_len,
                all == old(self).framer.pending@ + pcm@,
                self.content_type == old(self).content_type,
                self.settings == old(self).settings,
                self.frame_length == old(self).frame_length,
                fdk_opened_with(self.encoder) == fdk_opened_with(old(self).encoder),
                h0 == fdk_history(old(self).encoder),
                o == h0.len(),
                k * f <= all.len(),
                self.framer.pending@ == all.subrange((k * f) as int, all.len() as int),
                fdk_history(self.encoder).len() == o + k,
                fdk_history(self.encoder).subrange(0, o as int) == h0,
                frames_in_order(fdk_history(self.encoder).subrange(o as int, (o + k) as int), all, f),
                all_succeeded(fdk_history(self.encoder).subrange(o as int, (o + k) as int)),
                output@ == reported_bytes(fdk_history(self.encoder).subrange(o as int, (o + k) as int)),
            decreases self.framer.pending@.len(),
        {
            let frame = match self.framer.take_frame() {
                Some(frame) => frame,
                None => {
                    proof {
                        let n = all.len() as int;
                        let rem = n - k * f;
                        assert(f * k == k * f) by (nonlinear_arith);
                        vstd::arithmetic::div_mod::lemma_fundamental_div_mod_converse(n, f as int, k as int, rem);
                        assert(k == all.len() / f);
                        if all.len() < f {
                            assert(k == 0) by (nonlinear_arith)
                                requires
                                    k * f <= all.len(),
                                    all.len() < f,
                            ;
                            assert(fdk_history(self.encoder).subrange(o as int, (o + k) as int) =~= Seq::<AacCall>::empty());
                        }
                    }
                    return Ok(output);
                },
            };
            let ghost before = fdk_history(self.encoder);
            proof {
                assert((k + 1) * f == k * f + f) by (nonlinear_arith);
                assert(frame@ == all.subrange((k * f) as int, (k * f + f) as int));
                assert(self.framer.pending@ =~= all.subrange(((k + 1) * f) as int, all.len() as int));
            }
            let mut buf = zeroed_bytes(AAC_OUTPUT_BUFFER);
            let res = fdk_encode(&mut self.encoder, frame.as_slice(), buf.as_mut_slice());
            proof {
                let after = fdk_history(self.encoder);
                let seg = after.subrange(o as int, (o + k + 1) as int);
                assert(seg.drop_last() =~= before.subrange(o as int, (o + k) as int));
                assert(after.subrange(0, o as int) =~= before.subrange(0, o as int));
                assert(seg.last() == after[(o + k) as int]);
                assert forall|i: int| 0 <= i < seg.len() implies (#[trigger] seg[i]).0 == fdk_input(all.subrange(i * f, i * f + f)) by {
                    if i < k {
                        assert(seg[i] == before.subrange(o as int, (o + k) as int)[i]);
                    } else {
                        assert(i * f == k * f);
                    }
                }
            }
            match res {
                Ok(n) => {
                    let ghost chunk = buf@.subrange(0, n as int);
                    if n > 0 {
                        append_prefix(&mut output, &buf, n);
                    } else {
                        assert(output@ =~= output@ + buf@.subrange(0, 0));
                    }
                    proof {
                        let after = fdk_history(self.encoder);
                        let seg = after.subrange(o as int, (o + k + 1) as int);
                        assert(seg.drop_last() =~= before.subrange(o as int, (o + k) as int));
                        assert(seg.last().1 == Some(chunk));
                        assert forall|i: int| 0 <= i < seg.len() implies (#[trigger] seg[i]).1 is Some by {
                            if i < k {
                                assert(seg[i] == before.subrange(o as int, (o + k) as int)[i]);
                            }
                        }
                        k = k + 1;
                    }
                },
                Err(e) => {
                    let mut msg = owned("FDK-AAC encode error: ");
                    push_text(&mut msg, e.as_str());
                    proof {
                        let after = fdk_history(self.encoder);
                        let seg = after.subrange(o as int, (o + k + 1) as int);
                        assert(seg.drop_last() =~= before.subrange(o as int, (o + k) as int));
                        assert(after.subrange(0, o as int) =~= h0);
                        assert(after.subrange(o as int, after.len() as int) =~= seg);
                        assert(msg@ == "FDK-AAC encode error: "@ + e@);
                        assert(f <= all.len()) by (nonlinear_arith)
                            requires
                                (k + 1) * f <= all.len(),
                                f > 0,
                        ;
                    }
                    return Err(msg);
                },
            }
        }
    }

    /// End of stream: the waiting samples, padded with silence to a frame
    /// (or cut to one), are handed to FDK-AAC and the bytes it reports are
    /// returned; when that call fails the result is empty. Without waiting
    /// samples nothing is encoded. Nothing waits afterwards.
    pub fn flush(&mut self) -> (r: Result<Vec<u8>, String>)
        ensures
            final(self).pending().len() == 0,
            final(self).frame_samples() == old(self).frame_samples(),
            final(self).codec_frame_length() == old(self).codec_frame_length(),
            final(self).opened_with() == old(self).opened_with(),
            final(self).codec_settings() == old(self).codec_settings(),
            final(self).stream_type() == old(self).stream_type(),
            r is Ok,
            old(self).pending().len() == 0 ==> {
                &&& r matches Ok(v) && v@.len() == 0
                &&& final(self).calls() == old(self).calls()
            },
            old(self).pending().len() > 0 ==> {
                &&& final(self).calls().len() == old(self).calls().len() + 1
                &&& final(self).calls().drop_last() == old(self).calls()
                &&& final(self).calls().last().0 == fdk_input(last_frame(old(self).pending(), old(self).frame_samples()))
                &&& r matches Ok(v) && v@ == match final(self).calls().last().1 {
                    Some(b) => b,
                    None => Seq::empty(),
                }
            },
    {
        match self.framer.finish_frame() {
            Some(frame) => {
                let mut buf = zeroed_bytes(AAC_OUTPUT_BUFFER);
                let ghost before = fdk_history(self.encoder);
                match fdk_encode(&mut self.encoder, frame.as_slice(), buf.as_mut_slice()) {
                    Ok(n) => {
                        let mut out: Vec<u8> = Vec::new();
                        if n > 0 {
                            append_prefix(&mut out, &buf, n);
                        }
                        assert(out@ =~= buf@.subrange(0, n as int));
                        assert(fdk_history(self.encoder).drop_last() =~= before);
                        Ok(out)
                    },
                    Err(_) => {
                        assert(fdk_history(self.encoder).drop_last() =~= before);
                        Ok(Vec::new())
                    },
                }
            },
            None => Ok(Vec::new()),
        }
    }
}

/// The two channel buffers MP3 encoding takes from an interleaved frame:
/// for stereo the even-indexed and the odd-indexed samples, otherwise the
/// frame itself for both.
pub fn split_channels(frame: &[i16], channels: u16) -> (r: (Vec<i16>, Vec<i16>))
    ensures
        channels != 2 ==> r.0@ == frame@ && r.1@ == frame@,
        channels == 2 ==> {
            &&& r.0@.len() == (frame@.len() + 1) / 2
            &&& r.1@.len() == frame@.len() / 2
            &&& forall|i: int| 0 <= i < r.0@.len() ==> #[trigger] r.0@[i] == frame@[2 * i]
            &&& forall|i: int| 0 <= i < r.1@.len() ==> #[trigger] r.1@[i] == frame@[2 * i + 1]
        },
{
    let mut left: Vec<i16> = Vec::new();
    let mut right: Vec<i16> = Vec::new();
    if channels != 2 {
        let mut i: usize = 0;
        while i < frame.len()
            invariant
                0 <= i <= frame@.len(),
                left@ == frame@.subrange(0, i as int),
                right@ == frame@.subrange(0, i as int),
            decreases frame@.len() - i,
        {
            left.push(frame[i]);
            right.push(frame[i]);
            i = i + 1;
            assert(left@ =~= frame@.subrange(0, i as int));
            assert(right@ =~= frame@.subrange(0, i as int));
        }
        assert(frame@.subrange(0, frame@.len() as int) =~= frame@);
        return (left, right);
    }
    let mut i: usize = 0;
    while i < frame.len()
        invariant
            0 <= i <= frame@.len(),
            left@.len() == (i + 1) / 2,
            right@.len() == i / 2,
            forall|k: int| 0 <= k < left@.len() ==> #[trigger] left@[k] == frame@[2 * k],
            forall|k: int| 0 <= k < right@.len() ==> #[trigger] right@[k] == frame@[2 * k + 1],
        decreases frame@.len() - i,
    {
        if i % 2 == 0 {
            left.push(frame[i]);
        } else {
            right.push(frame[i]);
        }
        i = i + 1;
    }
    (left, right)
}

} // verus!
