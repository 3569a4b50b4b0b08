//! The media layer's values, as far as rooms and peers handle them. Identifiers are the
//! 128-bit numbers that the media layer assigns. Negotiation payloads are carried from one
//! side to the other without a look inside, so they are held as the JSON text in which they
//! travel.

use vstd::prelude::*;

verus! {

/// A WebRTC transport of some peer.
#[derive(Debug, Copy, Clone, PartialEq, Eq, Hash, Structural)]
pub struct TransportId(pub u128);

/// A media source of some peer.
#[derive(Debug, Copy, Clone, PartialEq, Eq, Hash, Structural)]
pub struct ProducerId(pub u128);

/// One peer's copy of another peer's media source.
#[derive(Debug, Copy, Clone, PartialEq, Eq, Hash, Structural)]
pub struct ConsumerId(pub u128);

/// What a media source carries.
#[derive(Debug, Copy, Clone, PartialEq, Eq, Structural)]
pub enum MediaKind {
    Audio,
    Video,
}

/// How the streams of a consumer are laid out.
#[derive(Debug, Copy, Clone, PartialEq, Eq, Structural)]
pub enum ConsumerType {
    Simple,
    Simulcast,
    Svc,
    Pipe,
}

/// The layers that a consumer prefers to receive.
#[derive(Debug, Copy, Clone, PartialEq, Eq, Structural)]
pub struct ConsumerLayers {
    pub spatial_layer: u8,
    pub temporal_layer: Option<u8>,
}

/// What an endpoint can receive.
#[derive(Debug, PartialEq, Eq)]
pub struct RtpCapabilities(pub String);

/// What a router can route.
#[derive(Debug, PartialEq, Eq)]
pub struct RtpCapabilitiesFinalized(pub String);

/// How one media stream is encoded.
#[derive(Debug, PartialEq, Eq)]
pub struct RtpParameters(pub String);

/// One side's DTLS role and fingerprints.
#[derive(Debug, PartialEq, Eq)]
pub struct DtlsParameters(pub String);

/// One side's ICE credentials.
#[derive(Debug, PartialEq, Eq)]
pub struct IceParameters(pub String);

/// An address at which a transport can be reached.
#[derive(Debug, PartialEq, Eq)]
pub struct IceCandidate(pub String);

impl Clone for RtpCapabilities {
    fn clone(&self) -> (r: Self)
        ensures
            r == *self,
    {
        RtpCapabilities(self.0.clone())
    }
}

impl Clone for RtpCapabilitiesFinalized {
    fn clone(&self) -> (r: Self)
        ensures
            r == *self,
    {
        RtpCapabilitiesFinalized(self.0.clone())
    }
}

/// How loud a producer has been lately, in dBvo from -127 to 0.
#[derive(Debug, Copy, Clone, PartialEq, Eq, Structural)]
pub struct AudioLevel {
    pub producer_id: ProducerId,
    pub volume: i8,
}

/// What is asked of the media layer for a new consumer; what is not named here stays at its
/// default.
#[derive(Debug, PartialEq, Eq)]
pub struct ConsumerOptions {
    pub producer_id: ProducerId,
    pub rtp_capabilities: RtpCapabilities,
    pub paused: bool,
    pub enable_rtx: Option<bool>,
}

/// What is asked of the media layer for a new producer; what is not named here stays at its
/// default.
#[derive(Debug, PartialEq, Eq)]
pub struct ProducerOptions {
    pub kind: MediaKind,
    pub rtp_parameters: RtpParameters,
}

/// What is asked of the media layer for a new transport; `None` leaves the default.
#[derive(Debug, Copy, Clone, PartialEq, Eq, Structural)]
pub struct TransportOptions {
    pub enable_udp: Option<bool>,
    pub enable_tcp: Option<bool>,
}

/// A transport that the media layer has made.
#[derive(Debug, PartialEq, Eq)]
pub struct NewTransport {
    pub id: TransportId,
    pub ice_candidates: Vec<IceCandidate>,
    pub ice_params: IceParameters,
    pub dtls_params: DtlsParameters,
}

/// A consumer that the media layer has made.
#[derive(Debug, PartialEq, Eq)]
pub struct NewConsumer {
    pub id: ConsumerId,
    pub kind: MediaKind,
    pub rtp_params: RtpParameters,
    pub consumer_type: ConsumerType,
    pub producer_paused: bool,
}

} // verus!
