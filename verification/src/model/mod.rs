//! The data the service hands out.

pub mod jsend;
pub mod response;
pub mod vnstat;
