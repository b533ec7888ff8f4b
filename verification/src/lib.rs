//! Planning, sequencing and reporting of a single native-currency transfer
//! on an EVM network.
//!
//! The library decides and computes; it never touches the network, the
//! environment or the console. `options` turns the options of a run into a
//! plan, `workflow` orders the calls of the run, and `report` shows how the
//! balances of the two parties changed.

pub mod address;
pub mod chain;
pub mod error;
pub mod hash;
pub mod identity;
pub mod options;
pub mod report;
pub mod request;
pub mod text;
pub mod wei;
pub mod workflow;

pub use address::Address;
pub use chain::{RpcEndpoints, SupportedChain};
pub use error::{ConfigurationFault, TransferError};
pub use hash::TxHash;
pub use identity::Identity;
pub use options::{AppOptions, TransferPlan};
pub use report::{BalanceSnapshot, ReportRow, TransferReport};
pub use request::TransferRequest;
pub use text::truncate_middle;
pub use wei::{BalanceDelta, Wei};
pub use workflow::{Command, Event, Step, Transfer, Workflow};
