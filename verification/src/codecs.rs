//! The codecs that rooms route.

use vstd::prelude::*;
use vstd::string::*;

verus! {

#[derive(Debug, Copy, Clone, PartialEq, Eq, Structural)]
pub enum MimeTypeAudio {
    Opus,
}

#[derive(Debug, Copy, Clone, PartialEq, Eq, Structural)]
pub enum MimeTypeVideo {
    Vp8,
    Vp9,
}

/// How a receiver reports back to the sender.
#[derive(Debug, Copy, Clone, PartialEq, Eq, Structural)]
pub enum RtcpFeedback {
    Nack,
    NackPli,
    CcmFir,
    GoogRemb,
    TransportCc,
}

/// A codec's own parameter.
#[derive(Debug, PartialEq, Eq)]
pub struct CodecParameter {
    pub name: String,
    pub value: u32,
}

/// One codec, as a router is told of it.
#[derive(Debug, PartialEq, Eq)]
pub enum RtpCodecCapability {
    Audio {
        mime_type: MimeTypeAudio,
        preferred_payload_type: Option<u8>,
        clock_rate: u32,
        channels: u8,
        parameters: Vec<CodecParameter>,
        rtcp_feedback: Vec<RtcpFeedback>,
    },
    Video {
        mime_type: MimeTypeVideo,
        preferred_payload_type: Option<u8>,
        clock_rate: u32,
        parameters: Vec<CodecParameter>,
        rtcp_feedback: Vec<RtcpFeedback>,
    },
}

/// A codec's contents; a video codec has no channels.
#[verifier::ext_equal]
pub struct CodecView {
    pub audio: Option<MimeTypeAudio>,
    pub video: Option<MimeTypeVideo>,
    pub preferred_payload_type: Option<u8>,
    pub clock_rate: u32,
    pub channels: Option<u8>,
    pub parameters: Seq<(Seq<char>, u32)>,
    pub rtcp_feedback: Seq<RtcpFeedback>,
}

impl View for RtpCodecCapability {
    type V = CodecView;

    open spec fn view(&self) -> CodecView {
        match *self {
            RtpCodecCapability::Audio {
                mime_type,
                preferred_payload_type,
                clock_rate,
                channels,
                parameters,
                rtcp_feedback,
            } => CodecView {
                audio: Some(mime_type),
                video: None,
                preferred_payload_type,
                clock_rate,
                channels: Some(channels),
                parameters: parameters@.map_values(|p: CodecParameter| (p.name@, p.value)),
                rtcp_feedback: rtcp_feedback@,
            },
            RtpCodecCapability::Video {
                mime_type,
                preferred_payload_type,
                clock_rate,
                parameters,
                rtcp_feedback,
            } => CodecView {
                audio: None,
                video: Some(mime_type),
                preferred_payload_type,
                clock_rate,
                channels: None,
                parameters: parameters@.map_values(|p: CodecParameter| (p.name@, p.value)),
                rtcp_feedback: rtcp_feedback@,
            },
        }
    }
}

/// Opus in stereo at 48 kHz, with in-band error correction.
pub open spec fn opus() -> CodecView {
    CodecView {
        audio: Some(MimeTypeAudio::Opus),
        video: None,
        preferred_payload_type: None,
        clock_rate: 48000,
        channels: Some(2),
        parameters: seq![("useinbandfec"@, 1u32)],
        rtcp_feedback: seq![RtcpFeedback::TransportCc],
    }
}

/// A video codec at 90 kHz, with every kind of feedback.
pub open spec fn video(mime_type: MimeTypeVideo) -> CodecView {
    CodecView {
        audio: None,
        video: Some(mime_type),
        preferred_payload_type: None,
        clock_rate: 90000,
        channels: None,
        parameters: Seq::empty(),
        rtcp_feedback: seq![
            RtcpFeedback::Nack,
            RtcpFeedback::NackPli,
            RtcpFeedback::CcmFir,
            RtcpFeedback::GoogRemb,
            RtcpFeedback::TransportCc,
        ],
    }
}

fn video_codec(mime_type: MimeTypeVideo) -> (r: RtpCodecCapability)
    ensures
        r@ == video(mime_type),
{
    let mut rtcp_feedback: Vec<RtcpFeedback> = Vec::new();
    rtcp_feedback.push(RtcpFeedback::Nack);
    rtcp_feedback.push(RtcpFeedback::NackPli);
    rtcp_feedback.push(RtcpFeedback::CcmFir);
    rtcp_feedback.push(RtcpFeedback::GoogRemb);
    rtcp_feedback.push(RtcpFeedback::TransportCc);
    let r = RtpCodecCapability::Video {
        mime_type,
        preferred_payload_type: None,
        clock_rate: 90000,
        parameters: Vec::new(),
        rtcp_feedback,
    };
    assert(r@ =~= video(mime_type));
    r
}

fn audio_codec() -> (r: RtpCodecCapability)
    ensures
        r@ == opus(),
{
    let mut parameters: Vec<CodecParameter> = Vec::new();
    parameters.push(CodecParameter { name: String::from_str("useinbandfec"), value: 1 });
    let mut rtcp_feedback: Vec<RtcpFeedback> = Vec::new();
    rtcp_feedback.push(RtcpFeedback::TransportCc);
    let r = RtpCodecCapability::Audio {
        mime_type: MimeTypeAudio::Opus,
        preferred_payload_type: None,
        clock_rate: 48000,
        channels: 2,
        parameters,
        rtcp_feedback,
    };
    assert(r@ =~= opus());
    r
}

/// The codecs, in the order in which a router is told of them.
pub fn media_codecs() -> (r: Vec<RtpCodecCapability>)
    ensures
        r@.map_values(|c: RtpCodecCapability| c@) == seq![
            opus(),
            video(MimeTypeVideo::Vp8),
            video(MimeTypeVideo::Vp9),
        ],
{
    let mut r: Vec<RtpCodecCapability> = Vec::new();
    r.push(audio_codec());
    r.push(video_codec(MimeTypeVideo::Vp8));
    r.push(video_codec(MimeTypeVideo::Vp9));
    r
}

} // verus!
