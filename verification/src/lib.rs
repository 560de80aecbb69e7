//! Core of a service that lets many clients follow the live output of one
//! long-running monitor process per network interface.
//!
//! The crate holds the decisions of that service: how many subscribers a key
//! has, when its process is started and when it is told to stop, what is put
//! on the wire for each message, and the small rules around configuration and
//! response envelopes.
//!
//! A supervisor and the registry of supervisors are changed through exclusive
//! references only, so each call is one indivisible step; whoever shares them
//! between tasks puts them behind a lock. `lifecycle` and `registry` describe
//! these steps over plain values and prove what holds of every history.
//!
//! The channel, the cancellation token and the concurrent map come from
//! other crates. They are reached through the small functions of `channel`,
//! `cancel` and `task_map`, whose contracts are taken on trust.

pub mod cancel;
pub mod channel;
pub mod command;
pub mod config;
pub mod error_code;
pub mod forward;
pub mod lifecycle;
pub mod model;
pub mod registry;
pub mod service;
pub mod task_handle;
pub mod task_manager;
pub mod task_map;
pub mod utils;
