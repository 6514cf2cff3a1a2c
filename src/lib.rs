//! Block ingestion core: per-chain fetch decisions, block decoding and
//! L1-origin derivation for OP-Stack chains, endpoint selection and fan-in
//! planning. Threads, RPC transport, channels and files live outside this
//! library; it takes their results as plain values.

pub mod chain;
pub mod model;
pub mod rpc;
pub mod decode;
pub mod fetcher;
pub mod config;
pub mod fan_in;

pub use chain::ChainIdentity;
pub use config::FetcherConfig;
pub use fetcher::EvmFetcher;
pub use model::{BlockPayload, OpStackFees, TxPayload};
