//! CANopen application layer over a raw CAN bus: communication-object
//! addressing, codecs for the fixed set of message kinds (network-management
//! control, sync, emergency, heartbeat, SDO), and the correlation table that
//! matches SDO responses to the requests that triggered them.

mod error;
pub use error::Error;
pub use error::FrameKind;

pub mod frame;

mod frame_handler;
pub use frame_handler::lemma_reverse_order_resolution;
pub use frame_handler::DispatchOutcome;
pub use frame_handler::DispatchOutcomeView;
pub use frame_handler::ObjectDictionaryAddress;
pub use frame_handler::SdoCorrelator;

pub mod id;
