//! Concurrent orchestration core for an automated content-acquisition
//! daemon: promotion and retention policies, a lock-guarded status
//! snapshot, and the per-tick decision logic of the background loops.
#![allow(non_snake_case)]

pub mod client;
pub mod promotion;
pub mod remote;
pub mod request;
pub mod retention;
pub mod response;
pub mod snapshot;
pub mod ui;
pub mod work;
