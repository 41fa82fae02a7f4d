//! Supervision of a local chain simulator process and a typed client for its
//! control-plane HTTP API.
//!
//! The verified part of the crate holds every decision that the supervisor
//! makes: how options become command-line arguments and a configuration
//! document, which request each control-plane operation sends, how a reply is
//! classified, and how the single owned process is recorded, resolved and
//! deposed.

pub mod text;
pub mod options;
pub mod config;
pub mod json;
pub mod requests;
pub mod errors;
pub mod client;
pub mod process;
pub mod readiness;
pub mod platform;
pub mod laws;

pub use client::{
    InitialWallets, InitialWalletsResponse, InitialWalletsResponseData,
    InitialWalletsResponseWallet,
};
pub use errors::{
    FsError, GenerateBlocksError, InitialWalletsError, LibError, ProcessError,
    SetAddressKeysError, SetStateError, SimulatorError,
};
pub use options::SimulatorOptions;
pub use requests::SetStateAddress;
