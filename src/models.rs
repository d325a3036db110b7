//! The values that cross the bridge: the command envelope and the typed storage
//! requests and responses.
use vstd::prelude::*;
use vstd::slice::slice_to_vec;
use vstd::string::StringExecFns;

verus! {

/// One unit of dispatch: a command name and its opaque request bytes.
#[derive(Debug, Clone)]
pub struct CommandRequest {
    pub cmd: String,
    pub data: Vec<u8>,
}

/// Opaque response bytes.
pub type CommandResponse = Vec<u8>;

impl CommandRequest {
    /// Packs a command name and its payload, byte for byte.
    pub fn new(cmd: &str, data: &[u8]) -> (r: CommandRequest)
        ensures
            r.cmd@ == cmd@,
            r.data@ == data@,
    {
        CommandRequest { cmd: String::from_str(cmd), data: slice_to_vec(data) }
    }
}

#[derive(Debug, Clone, PartialEq, Eq)]
pub struct PingRequest {
    pub value: Option<String>,
}

#[derive(Debug, Clone, PartialEq, Eq)]
pub struct PingResponse {
    pub value: Option<String>,
}

#[derive(Debug, Clone, PartialEq, Eq)]
pub struct PutRequest {
    pub collection: String,
    pub id: String,
    pub document_json: String,
}

#[derive(Debug, Clone, PartialEq, Eq)]
pub struct PutResponse {
    pub success: bool,
}

#[derive(Debug, Clone, PartialEq, Eq)]
pub struct GetRequest {
    pub collection: String,
    pub id: String,
}

#[derive(Debug, Clone, PartialEq, Eq)]
pub struct GetResponse {
    pub document_json: Option<String>,
    pub found: bool,
}

#[derive(Debug, Clone, PartialEq, Eq)]
pub struct DeleteRequest {
    pub collection: String,
    pub id: String,
}

#[derive(Debug, Clone, PartialEq, Eq)]
pub struct DeleteResponse {
    pub existed: bool,
}

#[derive(Debug, Clone, PartialEq, Eq)]
pub struct ListRequest {
    pub collection: String,
}

#[derive(Debug, Clone, PartialEq, Eq)]
pub struct ListResponse {
    pub ids: Vec<String>,
}

/// The text that answers a ping from the native-call variant.
pub open spec fn native_pong() -> Seq<char> {
    "pong (mobile)"@
}

impl PingRequest {
    /// The message a ping carries to the backend: the given value, or empty text.
    pub fn message(self) -> (r: String)
        ensures
            r@ == match self.value {
                Some(v) => v@,
                None => Seq::<char>::empty(),
            },
    {
        match self.value {
            Some(v) => v,
            None => String::new(),
        }
    }
}

impl PingResponse {
    /// The answer of the native-call variant, which has no backend to ask.
    pub fn native() -> (r: PingResponse)
        ensures
            r.value is Some,
            r.value.unwrap()@ == native_pong(),
    {
        proof {
            reveal_strlit("pong (mobile)");
        }
        PingResponse { value: Some(String::from_str("pong (mobile)")) }
    }
}

impl GetResponse {
    /// The response to a lookup: the document is present exactly when it was found.
    pub fn from_lookup(found: bool, document_json: String) -> (r: GetResponse)
        ensures
            r.found == found,
            r.document_json == if found {
                Some(document_json)
            } else {
                None
            },
    {
        GetResponse {
            document_json: if found {
                Some(document_json)
            } else {
                None
            },
            found,
        }
    }
}

} // verus!
