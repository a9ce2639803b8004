//! A read-through cache in front of a weather provider: lookup by proximity,
//! fetch on miss, store on write, and evict by age in bounded batches.

pub mod config;
pub mod evictor;
pub mod http;
pub mod record;
pub mod resolver;
pub mod service;
pub mod store;
pub mod upstream;

pub use http::hello_handler;
