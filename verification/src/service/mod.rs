//! What the service does with the monitor and its live output.

pub mod vnstat_service;
