//! Call and connection lifecycle control for peer-to-peer calls: identifiers,
//! the value types of the signaling layer, the call and connection state
//! machines, and the glare / multi-ring arbiter.

mod arbiter;
mod call;
mod call_id;
mod connection;
mod events;
mod registry;
mod types;

pub use arbiter::{decide_offer, local_survives_glare, OfferDecision};
pub use call::{Call, Connection, DeviceHangup};
pub use call_id::{CallId, DeviceId};
pub use connection::{ConnectionInput, ConnectionRole};
pub use registry::CallRegistry;
pub use types::{
    ApplicationEvent, CallDirection, CallMediaType, CallState, ConnectionState, FeatureLevel,
    HttpMethod, HttpResponse, RingBench, UnrecognizedDiscriminant,
};
