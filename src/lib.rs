pub mod block;
pub mod block_number;
pub mod error;
pub mod klay;
pub mod request_id;
pub mod stats;
pub mod transport;
pub mod worker;

pub use block::Block;
pub use block_number::{BlockNumber, decode};
pub use error::{Error, ProviderError, RpcError};
pub use klay::{CallFuture, Client, Klay, Provider};
pub use request_id::RequestIdAllocator;
pub use stats::{Outcome, StatsAggregator, StatsSnapshot};
pub use transport::{HttpReply, ResponseEnvelope, settle};
pub use worker::WorkerLoop;
