//! The decisions of a throughput benchmark for a transaction network: how a
//! node's throughput is sampled and its peak kept, where a node stands, how the
//! transactions of a round are batched for the senders, when the direction of the
//! transfers switches, how airdrops and barrier transactions are judged, whether
//! the network found is fit, and what the final report shows.

pub mod airdrop;
pub mod barrier;
pub mod batches;
pub mod config;
pub mod influx;
pub mod location;
pub mod metrics;
pub mod network;
pub mod rate;
pub mod report;
pub mod rounds;
pub mod sampler;
