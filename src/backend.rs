//! The capability interfaces that both platform variants present, so that callers need
//! not know whether a sidecar reached over RPC or a native library answers them.
use vstd::prelude::*;
use crate::error::Error;
use crate::models::{
    DeleteRequest, DeleteResponse, GetRequest, GetResponse, ListRequest, ListResponse,
    PingRequest, PingResponse, PutRequest, PutResponse,
};

verus! {

/// A backend reached through one dispatch entry point.
pub trait AnySyncBackend: Send + Sync {
    /// Executes the command named `cmd` (such as `syncspace.v1.SpaceCreate`) on the
    /// encoded request `data`, and returns the encoded response.
    fn command(&self, cmd: &str, data: &[u8]) -> Result<Vec<u8>, Error>;

    /// Shuts the backend down.
    fn shutdown(&self) -> Result<(), Error>;
}

/// A backend reached through typed storage operations.
pub trait AnySyncService: Send + Sync {
    /// Pings the backend.
    fn ping(&self, payload: PingRequest) -> Result<PingResponse, Error>;

    /// Stores a document in a collection.
    fn storage_put(&self, payload: PutRequest) -> Result<PutResponse, Error>;

    /// Retrieves a document from a collection.
    fn storage_get(&self, payload: GetRequest) -> Result<GetResponse, Error>;

    /// Deletes a document from a collection.
    fn storage_delete(&self, payload: DeleteRequest) -> Result<DeleteResponse, Error>;

    /// Lists the ids of the documents in a collection.
    fn storage_list(&self, payload: ListRequest) -> Result<ListResponse, Error>;
}

} // verus!
