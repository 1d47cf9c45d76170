//! Cross-chain message admission and consensus-mode selection for a
//! parachain node: location and asset identity, reserve resolution, the
//! ordered admission barrier, and the lazily built native consensus strategy.
pub mod location;
pub mod asset;
pub mod reserve;
pub mod barrier;
pub mod consensus;
pub mod config;
