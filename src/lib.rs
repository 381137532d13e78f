//! Registry and factory for crowdfunding campaigns.
//!
//! The registry owns an admin identity, a counter of created campaigns and a
//! dense table from campaign id to the address of the deployed campaign
//! instance. It decides who may act, which ids new campaigns get, and where
//! each pledge or withdrawal goes; the ledger effects (deployment,
//! cross-instance calls, storage and events) are described as plain values
//! and carried out by the host.
pub mod crowdfund_client;
pub mod dispatch;
pub mod entity;
pub mod events;
pub mod ids;
pub mod registry;
pub mod storage_types;

pub use dispatch::BatchDispatch;
pub use entity::{Address, CrowdfundArgs, Pledge, Withdraw};
pub use registry::{CrowdfundRegistryContract, RegistryError};
