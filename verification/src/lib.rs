//! A Redfish client library for BMC/server out-of-band management.
//!
//! `RedfishClient` decides what each Redfish operation sends (method, URL,
//! credentials and JSON body) and how each reply is judged; it keeps the
//! session that `login` opens and `logout` closes. Sending the requests and
//! reading the replies is left to the caller's HTTP transport.
pub mod client;
pub mod error;
pub mod json;
pub mod laws;
pub mod text;
pub mod transport;
pub mod types;

pub use client::{Auth, HttpRequest, Method, RedfishClient, RequestBody};
pub use error::{RedfishError, Result};
pub use transport::{HttpTransport, TransportSettings};
pub use types::{
    Account, AccountService, Boot, BootOverride, BootOverrideInner, Chassis, Collection, Drive,
    EthernetInterface, EventService, LogEntry, Manager, Memory, OdataLink, Processor,
    ProcessorSummary, ResetRequest, ServiceRoot, SessionCreate, Status, Storage, StorageController,
    Task, UpdateService,
};
