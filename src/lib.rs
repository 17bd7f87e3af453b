//! Transform-and-cache core of an on-demand image proxy: content-addressed
//! cache keys, the sharded on-disk layout, the decode/resize/encode pipeline
//! and the retention sweeper's eviction decisions.

pub mod config;
pub mod key;
pub mod layout;
pub mod pipeline;
pub mod serve;
pub mod sweep;
