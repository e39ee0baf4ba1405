//! Batched retrieval of Uniswap V2 pool state from a remote ledger node.
//!
//! Many independent read operations are packed into one composite query,
//! issued as a single round trip by the caller's transport, and the opaque
//! binary result is decoded back into positionally aligned pool records,
//! tolerating missing entries per item without failing the whole batch.
//!
//! The crate owns the query builder, the response decoder and the record
//! populator; the network transport is the caller's collaborator and hands
//! raw response bytes back in.

pub mod batch_request;
pub mod codec;
pub mod pool;

pub use batch_request::{
    filter_zero_addresses, get_amm_data_batch_query, get_amm_data_batch_request,
    get_pairs_batch_query, get_pairs_batch_request, get_v2_pool_data_batch_query,
    get_v2_pool_data_batch_request, populate_amm_data, populate_pool_data_from_tokens,
    populate_v2_pool_data,
};
pub use pool::{AMMError, Address, DecodedPool, PoolView, UniswapV2Pool};
