//! One adapter per lending market.

pub mod port;
