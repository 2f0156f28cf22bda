use vstd::prelude::*;

use crate::types::{GoodbyeReason, MetaData};

verus! {

/// Who originated an outbound request: the application (with its own id) or
/// this layer itself (pings and metadata requests).
#[derive(Clone, Copy, Debug, PartialEq, Eq, Hash, Structural)]
pub enum RequestId {
    Application(u64),
    Internal,
}

/// Identifies an inbound stream: (connection id, substream id).
#[derive(Clone, Copy, Debug, PartialEq, Eq, Hash, Structural)]
pub struct PeerRequestId {
    pub connection_id: u64,
    pub substream_id: u64,
}

/// The metadata protocol version a request asks for.
#[derive(Clone, Copy, Debug, PartialEq, Eq, Hash, Structural)]
pub enum MetadataVersion {
    V1,
    V2,
    V3,
}

/// The request/response protocols.
#[derive(Clone, Copy, Debug, PartialEq, Eq, Hash, Structural)]
pub enum Protocol {
    Status,
    Goodbye,
    BlocksByRange,
    BlocksByRoot,
    BlobsByRange,
    BlobsByRoot,
    DataColumnsByRoot,
    DataColumnsByRange,
    Ping,
    MetaData,
    LightClientBootstrap,
    LightClientOptimisticUpdate,
    LightClientFinalityUpdate,
}

/// A request. Bodies this layer does not read are kept in their encoded form.
#[derive(Clone, Debug, PartialEq, Eq)]
pub enum RequestType {
    Status(Vec<u8>),
    Goodbye(GoodbyeReason),
    BlocksByRange { start_slot: u64, count: u64, step: u64 },
    BlocksByRoot(Vec<u8>),
    BlobsByRange(Vec<u8>),
    BlobsByRoot(Vec<u8>),
    DataColumnsByRoot(Vec<u8>),
    DataColumnsByRange(Vec<u8>),
    LightClientBootstrap(Vec<u8>),
    LightClientOptimisticUpdate,
    LightClientFinalityUpdate,
    Ping(u64),
    MetaData(MetadataVersion),
}

/// An inbound request on a substream.
#[derive(Clone, Debug, PartialEq, Eq)]
pub struct Request {
    pub id: u64,
    pub substream_id: u64,
    pub request_type: RequestType,
}

/// A successful response chunk.
#[derive(Clone, Debug, PartialEq, Eq)]
pub enum RpcSuccessResponse {
    Status(Vec<u8>),
    BlocksByRange(Vec<u8>),
    BlocksByRoot(Vec<u8>),
    BlobsByRange(Vec<u8>),
    BlobsByRoot(Vec<u8>),
    DataColumnsByRoot(Vec<u8>),
    DataColumnsByRange(Vec<u8>),
    LightClientBootstrap(Vec<u8>),
    LightClientOptimisticUpdate(Vec<u8>),
    LightClientFinalityUpdate(Vec<u8>),
    Pong(u64),
    MetaData(MetaData),
}

/// Error codes of an error response.
#[derive(Clone, Copy, Debug, PartialEq, Eq, Hash, Structural)]
pub enum RpcErrorResponse {
    InvalidRequest,
    ServerError,
    ResourceUnavailable,
    RateLimited,
    BlobsNotFoundForBlock,
    Unknown,
}

/// What is sent back on an inbound stream.
#[derive(Clone, Debug, PartialEq, Eq)]
pub enum RpcResponse {
    Success(RpcSuccessResponse),
    Error(RpcErrorResponse, String),
    StreamTermination(ResponseTermination),
}

/// The streamed protocols, whose end is marked.
#[derive(Clone, Copy, Debug, PartialEq, Eq, Hash, Structural)]
pub enum ResponseTermination {
    BlocksByRange,
    BlocksByRoot,
    BlobsByRange,
    BlobsByRoot,
    DataColumnsByRoot,
    DataColumnsByRange,
}

/// A response as the application sees it. Streamed kinds carry `None` as the
/// end-of-stream marker.
#[derive(Clone, Debug, PartialEq, Eq)]
pub enum Response {
    Status(Vec<u8>),
    BlocksByRange(Option<Vec<u8>>),
    BlocksByRoot(Option<Vec<u8>>),
    BlobsByRange(Option<Vec<u8>>),
    BlobsByRoot(Option<Vec<u8>>),
    DataColumnsByRoot(Option<Vec<u8>>),
    DataColumnsByRange(Option<Vec<u8>>),
    LightClientBootstrap(Vec<u8>),
    LightClientOptimisticUpdate(Vec<u8>),
    LightClientFinalityUpdate(Vec<u8>),
}

/// Why a request or an inbound stream failed.
#[derive(Clone, Copy, Debug, PartialEq, Eq, Hash, Structural)]
pub enum RPCError {
    SszDecodeError,
    IoError,
    InvalidData,
    IncompleteStream,
    UnsupportedProtocol,
    StreamTimeout,
    ErrorResponse(RpcErrorResponse),
    NegotiationTimeout,
    HandlerRejected,
    Disconnected,
}

/// An error reported by a connection handler.
#[derive(Clone, Copy, Debug, PartialEq, Eq, Hash, Structural)]
pub enum HandlerErr {
    /// An error on a stream the peer opened.
    Inbound { id: u64, proto: Protocol, error: RPCError },
    /// An error on a request this node sent.
    Outbound { id: RequestId, proto: Protocol, error: RPCError },
}

/// What the RPC layer received.
#[derive(Clone, Debug, PartialEq, Eq)]
pub enum RPCReceived {
    Request(Request),
    Response(RequestId, RpcSuccessResponse),
    EndOfStream(RequestId, ResponseTermination),
}

/// An event of the RPC layer.
#[derive(Debug, PartialEq, Eq)]
pub struct RPCMessage {
    pub peer_id: crate::types::PeerId,
    pub conn_id: u64,
    pub message: Result<RPCReceived, HandlerErr>,
}

} // verus!
