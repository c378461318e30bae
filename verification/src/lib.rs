//! Operator-side logic for a fleet of embedded devices on a publish/subscribe bus:
//! topic naming, uptime formatting, the device registry, the bounded discovery scan,
//! log tailing and the interactive command session.

pub mod duration;
pub mod heartbeat;
pub mod message;
pub mod registry;
pub mod scan;
pub mod security;
pub mod session;
pub mod tail;
pub mod text;
pub mod topic;

pub use duration::convert_millis_to_hms;
pub use registry::Device;
pub use security::NoCertificateVerification;
