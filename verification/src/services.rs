//! The interfaces behind which the platform's audio, discovery, transport
//! and receiver services sit. They carry no contracts: what an
//! implementation does is the implementation's own, and nothing here is
//! proved through them.

use vstd::prelude::*;
use crate::error::{AudioError, DiscoveryError, ReceiverError, TransportError};
use crate::models::{DiscoveryEvent, DiscoverySnapshot, TransportEndpoint};
use crate::playback::PlaybackStartRequest;
use crate::receiver::{ReceiverServiceState, ReceiverSnapshot, ReceiverTransportEvent};

verus! {

/// Something that plays a raw PCM stream.
pub trait PlaybackSink: Send {
    fn write(&mut self, payload: &[u8]) -> Result<(), AudioError>;

    fn stop(&mut self) -> Result<(), AudioError>;
}

/// Something that opens playback streams.
pub trait PlaybackEngine: Send + Sync {
    fn backend_name(&self) -> &'static str;

    fn start_stream(&self, request: PlaybackStartRequest) -> Result<Box<dyn PlaybackSink>, AudioError>;
}

/// A service that announces this device and reports the devices it finds.
pub trait DiscoveryService {
    fn service_type(&self) -> &str;

    fn planned_announcement_name(&self) -> &str;

    fn start(&mut self) -> Result<(), DiscoveryError>;

    fn stop(&mut self) -> Result<(), DiscoveryError>;

    fn poll_event(&mut self) -> Result<Option<DiscoveryEvent>, DiscoveryError>;

    fn prune_stale(&mut self) -> Result<Vec<DiscoveryEvent>, DiscoveryError>;

    fn snapshot(&self) -> DiscoverySnapshot;
}

/// A service that carries audio over the network.
pub trait TransportService {
    fn endpoint(&self) -> Option<&TransportEndpoint>;

    fn start(&mut self) -> Result<(), TransportError>;

    fn stop(&mut self) -> Result<(), TransportError>;
}

/// A service that receives a stream and plays it.
pub trait ReceiverService {
    fn advertised_name(&self) -> &str;

    fn state(&self) -> ReceiverServiceState;

    fn snapshot(&self) -> ReceiverSnapshot;

    fn start(&mut self) -> Result<(), ReceiverError>;

    fn stop(&mut self) -> Result<(), ReceiverError>;

    fn submit_transport_event(&self, event: ReceiverTransportEvent) -> Result<(), ReceiverError>;
}

} // verus!
