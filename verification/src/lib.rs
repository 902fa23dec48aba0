//! A verified core for a periodic interest-payment client that drives an
//! on-chain vault program: decoding the vault record, deriving the payer's
//! associated token account, assembling the top-up-interest instruction with
//! its exact account list, and pacing the payment loop.

pub mod address;
pub mod ata;
pub mod cadence;
pub mod instruction;
pub mod network;
pub mod vault;

pub use network::get_network;
