//! Provisioning logic for the `sqruff` language-server binary.
//!
//! The library decides, step by step, how a caller should locate or install
//! the tool: look for a local executable, resolve the latest release, pick
//! the asset that matches the running platform, reuse a cached install when
//! its binary is already on disk, and otherwise download it and clean up
//! stale version directories. All decisions are pure functions over plain
//! values; the caller performs the actual lookups, network calls and file
//! operations and feeds the outcomes back in.

pub mod command;
pub mod naming;
pub mod provision;
pub mod release;
