//! The media capabilities of every router: Opus for audio, VP8 for video,
//! and three header extensions.

use vstd::prelude::*;
use crate::sfu::models::MediaKind;

verus! {

pub const OPUS_CLOCK_RATE: u32 = 48000;

pub const OPUS_CHANNELS: u8 = 2;

pub const VP8_CLOCK_RATE: u32 = 90000;

/// The bitrate, in kilobits per second, that a video stream starts at.
pub const VP8_START_BITRATE: u32 = 1000;

/// The codecs a router offers.
#[derive(Debug, Clone, Copy, PartialEq, Eq, Structural)]
pub enum MimeType {
    Opus,
    Vp8,
}

/// The RTCP feedback a codec supports.
#[derive(Debug, Clone, Copy, PartialEq, Eq, Structural)]
pub enum RtcpFeedback {
    Nack,
    NackPli,
    CcmFir,
    GoogRemb,
    TransportCc,
}

/// One codec a router offers.
#[derive(Debug)]
pub struct CodecCapability {
    pub kind: MediaKind,
    pub mime_type: MimeType,
    pub clock_rate: u32,
    /// The number of channels, for audio.
    pub channels: Option<u8>,
    /// The value of `x-google-start-bitrate`, for video.
    pub start_bitrate: Option<u32>,
    pub rtcp_feedback: Vec<RtcpFeedback>,
}

/// The header extensions a router offers.
#[derive(Debug, Clone, Copy, PartialEq, Eq, Structural)]
pub enum HeaderExtensionUri {
    Mid,
    AbsSendTime,
    TransportWideCc,
}

/// The direction a header extension is offered in.
#[derive(Debug, Clone, Copy, PartialEq, Eq, Structural)]
pub enum Direction {
    SendRecv,
    RecvOnly,
}

/// One header extension a router offers.
#[derive(Debug, Clone, Copy, PartialEq, Eq, Structural)]
pub struct HeaderExtension {
    pub kind: MediaKind,
    pub uri: HeaderExtensionUri,
    pub preferred_id: u16,
    pub preferred_encrypt: bool,
    pub direction: Direction,
}

/// The codecs of every router: Opus at 48 kHz with two channels, and VP8
/// at 90 kHz.
pub fn create_default_codecs() -> (codecs: Vec<CodecCapability>)
    ensures
        codecs@.len() == 2,
        codecs@[0].kind == MediaKind::Audio,
        codecs@[0].mime_type == MimeType::Opus,
        codecs@[0].clock_rate == OPUS_CLOCK_RATE,
        codecs@[0].channels == Some(OPUS_CHANNELS),
        codecs@[0].start_bitrate is None,
        codecs@[0].rtcp_feedback@ == seq![RtcpFeedback::TransportCc],
        codecs@[1].kind == MediaKind::Video,
        codecs@[1].mime_type == MimeType::Vp8,
        codecs@[1].clock_rate == VP8_CLOCK_RATE,
        codecs@[1].channels is None,
        codecs@[1].start_bitrate == Some(VP8_START_BITRATE),
        codecs@[1].rtcp_feedback@ == seq![
            RtcpFeedback::Nack,
            RtcpFeedback::NackPli,
            RtcpFeedback::CcmFir,
            RtcpFeedback::GoogRemb,
            RtcpFeedback::TransportCc,
        ],
{
    let mut audio_feedback: Vec<RtcpFeedback> = Vec::new();
    audio_feedback.push(RtcpFeedback::TransportCc);
    let mut video_feedback: Vec<RtcpFeedback> = Vec::new();
    video_feedback.push(RtcpFeedback::Nack);
    video_feedback.push(RtcpFeedback::NackPli);
    video_feedback.push(RtcpFeedback::CcmFir);
    video_feedback.push(RtcpFeedback::GoogRemb);
    video_feedback.push(RtcpFeedback::TransportCc);
    assert(audio_feedback@ =~= seq![RtcpFeedback::TransportCc]);
    assert(video_feedback@ =~= seq![
        RtcpFeedback::Nack,
        RtcpFeedback::NackPli,
        RtcpFeedback::CcmFir,
        RtcpFeedback::GoogRemb,
        RtcpFeedback::TransportCc,
    ]);
    let mut codecs: Vec<CodecCapability> = Vec::new();
    codecs.push(
        CodecCapability {
            kind: MediaKind::Audio,
            mime_type: MimeType::Opus,
            clock_rate: OPUS_CLOCK_RATE,
            channels: Some(OPUS_CHANNELS),
            start_bitrate: None,
            rtcp_feedback: audio_feedback,
        },
    );
    codecs.push(
        CodecCapability {
            kind: MediaKind::Video,
            mime_type: MimeType::Vp8,
            clock_rate: VP8_CLOCK_RATE,
            channels: None,
            start_bitrate: Some(VP8_START_BITRATE),
            rtcp_feedback: video_feedback,
        },
    );
    codecs
}

/// The header extension of a kind and URI, as every router offers it:
/// transport-wide congestion control is receive-only for audio, and
/// everything else goes both ways.
pub open spec fn offered(kind: MediaKind, uri: HeaderExtensionUri) -> HeaderExtension {
    HeaderExtension {
        kind,
        uri,
        preferred_id: match uri {
            HeaderExtensionUri::Mid => 1,
            HeaderExtensionUri::AbsSendTime => 4,
            HeaderExtensionUri::TransportWideCc => 5,
        },
        preferred_encrypt: false,
        direction: if uri == HeaderExtensionUri::TransportWideCc && kind == MediaKind::Audio {
            Direction::RecvOnly
        } else {
            Direction::SendRecv
        },
    }
}

/// The header extension of a kind and URI, as every router offers it.
pub fn header_extension(kind: MediaKind, uri: HeaderExtensionUri) -> (e: HeaderExtension)
    ensures
        e == offered(kind, uri),
{
    let preferred_id: u16 = match uri {
        HeaderExtensionUri::Mid => 1,
        HeaderExtensionUri::AbsSendTime => 4,
        HeaderExtensionUri::TransportWideCc => 5,
    };
    let audio_cc = match (uri, kind) {
        (HeaderExtensionUri::TransportWideCc, MediaKind::Audio) => true,
        _ => false,
    };
    HeaderExtension {
        kind,
        uri,
        preferred_id,
        preferred_encrypt: false,
        direction: if audio_cc {
            Direction::RecvOnly
        } else {
            Direction::SendRecv
        },
    }
}

/// The header extensions of every router: mid, abs-send-time and
/// transport-wide-cc, each for audio and for video.
pub fn default_header_extensions() -> (extensions: Vec<HeaderExtension>)
    ensures
        extensions@ == seq![
            offered(MediaKind::Audio, HeaderExtensionUri::Mid),
            offered(MediaKind::Video, HeaderExtensionUri::Mid),
            offered(MediaKind::Audio, HeaderExtensionUri::AbsSendTime),
            offered(MediaKind::Video, HeaderExtensionUri::AbsSendTime),
            offered(MediaKind::Audio, HeaderExtensionUri::TransportWideCc),
            offered(MediaKind::Video, HeaderExtensionUri::TransportWideCc),
        ],
{
    let mut v: Vec<HeaderExtension> = Vec::new();
    v.push(header_extension(MediaKind::Audio, HeaderExtensionUri::Mid));
    v.push(header_extension(MediaKind::Video, HeaderExtensionUri::Mid));
    v.push(header_extension(MediaKind::Audio, HeaderExtensionUri::AbsSendTime));
    v.push(header_extension(MediaKind::Video, HeaderExtensionUri::AbsSendTime));
    v.push(header_extension(MediaKind::Audio, HeaderExtensionUri::TransportWideCc));
    v.push(header_extension(MediaKind::Video, HeaderExtensionUri::TransportWideCc));
    assert(v@ =~= seq![
        offered(MediaKind::Audio, HeaderExtensionUri::Mid),
        offered(MediaKind::Video, HeaderExtensionUri::Mid),
        offered(MediaKind::Audio, HeaderExtensionUri::AbsSendTime),
        offered(MediaKind::Video, HeaderExtensionUri::AbsSendTime),
        offered(MediaKind::Audio, HeaderExtensionUri::TransportWideCc),
        offered(MediaKind::Video, HeaderExtensionUri::TransportWideCc),
    ]);
    v
}

} // verus!
