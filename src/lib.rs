//! Lifecycle supervision and command dispatch for an out-of-process sync backend.
//!
//! The supervisor decides how the backend process is started, found, connected to and
//! stopped; the gateway settles each timed call into bytes or a typed error; the traits
//! give both platform variants one surface.

pub mod backend;
pub mod error;
pub mod gateway;
pub mod models;
pub mod port;
pub mod supervisor;
pub mod transport;

pub use backend::{AnySyncBackend, AnySyncService};
pub use error::Error;
pub use models::{
    CommandRequest, CommandResponse, DeleteRequest, DeleteResponse, GetRequest, GetResponse,
    ListRequest, ListResponse, PingRequest, PingResponse, PutRequest, PutResponse,
};
