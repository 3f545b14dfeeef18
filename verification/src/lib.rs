//! A line-delimited JSON-RPC message framer and typed-response extraction
//! layer.
//!
//! The reader turns a line-oriented byte stream into one classified message
//! per call; the response parsers turn a generic response payload into one
//! concrete typed value each. Request ids are caller-assigned; this crate
//! neither checks their uniqueness nor correlates responses to outstanding
//! requests — both remain the caller's responsibility.

pub mod error;
pub mod json;
pub mod reader;
pub mod response;
pub mod rpc;

pub use error::ReadError;
pub use error::RemoteError;
pub use json::JsonNum;
pub use json::JsonValue;
pub use reader::MessageReader;
pub use response::ChatRelatedQuestionsResponseParser;
pub use response::ChatResponseParser;
pub use response::ResponseParser;
pub use response::SimilarityResponseParser;
pub use rpc::Call;
pub use rpc::RequestId;
pub use rpc::RequestParser;
pub use rpc::RpcObject;
pub use rpc::RpcRequest;
