//! Chain identity and actor state for a Filecoin node.
//!
//! - [`content_id`], [`small_cid`], [`frozen_cids`]: content identifiers,
//!   their compact form, and immutable collections of them.
//! - [`encoding`]: lists of identifiers as DAG-CBOR and as JSON.
//! - [`tipset_keys`]: the identity of a tipset.
//! - [`file_backed`]: one value mirrored in a file that is never left
//!   half-written.
//! - [`power`], [`power_v7`]: power actor state, resolved by the protocol
//!   version that the actor's code tells.
//! - [`rpc_api`], [`cli`]: what the RPC layer and the command line decide.

pub mod cli;
pub mod content_id;
pub mod encoding;
pub mod file_backed;
pub mod frozen_cids;
pub mod power;
pub mod power_v7;
pub mod rpc_api;
pub mod small_cid;
pub mod strings;
pub mod tipset_keys;
