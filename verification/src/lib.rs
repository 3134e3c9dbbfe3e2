//! Connection lifecycle management for a pool of tabular-data-server
//! connections: descriptor construction (structured or from an ADO-style
//! connection string), a redirect-aware connect state machine, and handle
//! liveness bookkeeping. The asynchronous transport and driver calls live
//! outside this crate; everything here is plain verified logic.

pub mod chars;
pub mod connect;
pub mod descriptor;
pub mod error;
pub mod handle;
pub mod manager;
pub mod parse;

pub use connect::ConnAction;
pub use connect::ConnEvent;
pub use connect::ConnState;
pub use descriptor::Descriptor;
pub use descriptor::EncryptionMode;
pub use error::Error;
pub use handle::Handle;
pub use handle::HandleStatus;
pub use manager::ConnectionManager;
pub use manager::IntoConfig;
pub use parse::from_ado_string;
