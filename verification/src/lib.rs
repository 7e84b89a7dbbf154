//! Verified core of the drivogram command-line client.
use vstd::prelude::*;

pub mod config;
pub mod text;
pub mod types;
pub mod sizes;
pub mod reply;
pub mod upload;
pub mod download;
pub mod command;
pub mod account;

verus! {
} // verus!
