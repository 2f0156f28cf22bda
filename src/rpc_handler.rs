use vstd::prelude::*;

use crate::command::Command;
use crate::event::NetworkEvent;
use crate::network::Network;
use crate::rpc::{
    HandlerErr, MetadataVersion, PeerRequestId, Protocol, RPCError, RPCMessage, RPCReceived,
    RequestId, RequestType, Response, ResponseTermination, RpcErrorResponse, RpcResponse,
    RpcSuccessResponse,
};
use crate::types::{ConnectionDirection, MetaData, PeerId};

verus! {

/// The event for a response to request `id`: surfaced only when the
/// application sent the request.
pub open spec fn spec_build_response(id: RequestId, peer_id: PeerId, response: Response) -> Option<NetworkEvent> {
    match id {
        RequestId::Application(a) => Some(NetworkEvent::ResponseReceived { peer_id, id: a, response }),
        RequestId::Internal => None,
    }
}

/// The end-of-stream marker of a streamed protocol.
pub open spec fn termination_response(t: ResponseTermination) -> Response {
    match t {
        ResponseTermination::BlocksByRange => Response::BlocksByRange(None),
        ResponseTermination::BlocksByRoot => Response::BlocksByRoot(None),
        ResponseTermination::BlobsByRange => Response::BlobsByRange(None),
        ResponseTermination::BlobsByRoot => Response::BlobsByRoot(None),
        ResponseTermination::DataColumnsByRoot => Response::DataColumnsByRoot(None),
        ResponseTermination::DataColumnsByRange => Response::DataColumnsByRange(None),
    }
}

/// How an application response goes on the wire: a chunk, or the end of a stream.
pub open spec fn spec_response_to_rpc(r: Response) -> RpcResponse {
    match r {
        Response::Status(s) => RpcResponse::Success(RpcSuccessResponse::Status(s)),
        Response::BlocksByRange(Some(b)) => RpcResponse::Success(RpcSuccessResponse::BlocksByRange(b)),
        Response::BlocksByRange(None) => RpcResponse::StreamTermination(ResponseTermination::BlocksByRange),
        Response::BlocksByRoot(Some(b)) => RpcResponse::Success(RpcSuccessResponse::BlocksByRoot(b)),
        Response::BlocksByRoot(None) => RpcResponse::StreamTermination(ResponseTermination::BlocksByRoot),
        Response::BlobsByRange(Some(b)) => RpcResponse::Success(RpcSuccessResponse::BlobsByRange(b)),
        Response::BlobsByRange(None) => RpcResponse::StreamTermination(ResponseTermination::BlobsByRange),
        Response::BlobsByRoot(Some(b)) => RpcResponse::Success(RpcSuccessResponse::BlobsByRoot(b)),
        Response::BlobsByRoot(None) => RpcResponse::StreamTermination(ResponseTermination::BlobsByRoot),
        Response::DataColumnsByRoot(Some(b)) => RpcResponse::Success(RpcSuccessResponse::DataColumnsByRoot(b)),
        Response::DataColumnsByRoot(None) => RpcResponse::StreamTermination(ResponseTermination::DataColumnsByRoot),
        Response::DataColumnsByRange(Some(b)) => RpcResponse::Success(RpcSuccessResponse::DataColumnsByRange(b)),
        Response::DataColumnsByRange(None) => RpcResponse::StreamTermination(ResponseTermination::DataColumnsByRange),
        Response::LightClientBootstrap(b) => RpcResponse::Success(RpcSuccessResponse::LightClientBootstrap(b)),
        Response::LightClientOptimisticUpdate(b) => RpcResponse::Success(RpcSuccessResponse::LightClientOptimisticUpdate(b)),
        Response::LightClientFinalityUpdate(b) => RpcResponse::Success(RpcSuccessResponse::LightClientFinalityUpdate(b)),
    }
}

/// Converts an application response to its wire form.
pub fn response_to_rpc(r: Response) -> (out: RpcResponse)
    ensures
        out == spec_response_to_rpc(r),
{
    match r {
        Response::Status(s) => RpcResponse::Success(RpcSuccessResponse::Status(s)),
        Response::BlocksByRange(Some(b)) => RpcResponse::Success(RpcSuccessResponse::BlocksByRange(b)),
        Response::BlocksByRange(None) => RpcResponse::StreamTermination(ResponseTermination::BlocksByRange),
        Response::BlocksByRoot(Some(b)) => RpcResponse::Success(RpcSuccessResponse::BlocksByRoot(b)),
        Response::BlocksByRoot(None) => RpcResponse::StreamTermination(ResponseTermination::BlocksByRoot),
        Response::BlobsByRange(Some(b)) => RpcResponse::Success(RpcSuccessResponse::BlobsByRange(b)),
        Response::BlobsByRange(None) => RpcResponse::StreamTermination(ResponseTermination::BlobsByRange),
        Response::BlobsByRoot(Some(b)) => RpcResponse::Success(RpcSuccessResponse::BlobsByRoot(b)),
        Response::BlobsByRoot(None) => RpcResponse::StreamTermination(ResponseTermination::BlobsByRoot),
        Response::DataColumnsByRoot(Some(b)) => RpcResponse::Success(RpcSuccessResponse::DataColumnsByRoot(b)),
        Response::DataColumnsByRoot(None) => RpcResponse::StreamTermination(ResponseTermination::DataColumnsByRoot),
        Response::DataColumnsByRange(Some(b)) => RpcResponse::Success(RpcSuccessResponse::DataColumnsByRange(b)),
        Response::DataColumnsByRange(None) => RpcResponse::StreamTermination(ResponseTermination::DataColumnsByRange),
        Response::LightClientBootstrap(b) => RpcResponse::Success(RpcSuccessResponse::LightClientBootstrap(b)),
        Response::LightClientOptimisticUpdate(b) => RpcResponse::Success(RpcSuccessResponse::LightClientOptimisticUpdate(b)),
        Response::LightClientFinalityUpdate(b) => RpcResponse::Success(RpcSuccessResponse::LightClientFinalityUpdate(b)),
    }
}

/// Inbound traffic that is dropped when its peer is no longer connected: a
/// request, or an error on a stream the peer opened.
pub open spec fn is_inbound_traffic(m: Result<RPCReceived, HandlerErr>) -> bool {
    match m {
        Err(HandlerErr::Inbound { .. }) => true,
        Ok(RPCReceived::Request(_)) => true,
        _ => false,
    }
}

/// What an RPC event leads to: the commands issued, in order, and the event
/// surfaced to the application, if any. Pings, metadata and goodbyes are
/// handled here; a blocks-by-range request with a zero step is refused as
/// invalid data; responses surface only for application requests.
pub open spec fn rpc_event_effects(ev: RPCMessage, connected: bool, meta: MetaData) -> (
    Seq<Command>,
    Option<NetworkEvent>,
) {
    let peer_id = ev.peer_id;
    if !connected && is_inbound_traffic(ev.message) {
        (Seq::empty(), None)
    } else {
        match ev.message {
            Err(HandlerErr::Inbound { id: _, proto, error }) => (
                seq![Command::PeerManagerRpcError { peer_id, protocol: proto, error, direction: ConnectionDirection::Incoming }],
                None,
            ),
            Err(HandlerErr::Outbound { id, proto, error }) => (
                seq![Command::PeerManagerRpcError { peer_id, protocol: proto, error, direction: ConnectionDirection::Outgoing }],
                match id {
                    RequestId::Application(a) => Some(NetworkEvent::RPCFailed { id: a, peer_id, error }),
                    RequestId::Internal => None,
                },
            ),
            Ok(RPCReceived::Request(request)) => {
                let stream = PeerRequestId { connection_id: ev.conn_id, substream_id: request.substream_id };
                let surfaced = Some(NetworkEvent::RequestReceived { peer_id, id: stream, request });
                match request.request_type {
                    RequestType::Ping(data) => (
                        seq![Command::PeerManagerPingRequest { peer_id, seq_number: data }],
                        None,
                    ),
                    RequestType::MetaData(_) => (
                        seq![Command::RpcSendResponse {
                            peer_id,
                            id: stream,
                            request_id: request.id,
                            response: RpcResponse::Success(RpcSuccessResponse::MetaData(meta)),
                        }],
                        None,
                    ),
                    RequestType::Goodbye(_) => (Seq::empty(), None),
                    RequestType::Status(_) => (seq![Command::PeerManagerStatusd(peer_id)], surfaced),
                    RequestType::BlocksByRange { start_slot: _, count: _, step } => if step == 0 {
                        (
                            seq![Command::PeerManagerRpcError {
                                peer_id,
                                protocol: Protocol::BlocksByRange,
                                error: RPCError::InvalidData,
                                direction: ConnectionDirection::Incoming,
                            }],
                            None,
                        )
                    } else {
                        (Seq::empty(), surfaced)
                    },
                    _ => (Seq::empty(), surfaced),
                }
            },
            Ok(RPCReceived::Response(id, resp)) => match resp {
                RpcSuccessResponse::Pong(data) => (
                    seq![Command::PeerManagerPongResponse { peer_id, seq_number: data }],
                    None,
                ),
                RpcSuccessResponse::MetaData(m) => (
                    seq![Command::PeerManagerMetaDataResponse { peer_id, meta_data: m }],
                    None,
                ),
                RpcSuccessResponse::Status(s) => (
                    seq![Command::PeerManagerStatusd(peer_id)],
                    spec_build_response(id, peer_id, Response::Status(s)),
                ),
                RpcSuccessResponse::BlocksByRange(b) => (Seq::empty(), spec_build_response(id, peer_id, Response::BlocksByRange(Some(b)))),
                RpcSuccessResponse::BlocksByRoot(b) => (Seq::empty(), spec_build_response(id, peer_id, Response::BlocksByRoot(Some(b)))),
                RpcSuccessResponse::BlobsByRange(b) => (Seq::empty(), spec_build_response(id, peer_id, Response::BlobsByRange(Some(b)))),
                RpcSuccessResponse::BlobsByRoot(b) => (Seq::empty(), spec_build_response(id, peer_id, Response::BlobsByRoot(Some(b)))),
                RpcSuccessResponse::DataColumnsByRoot(b) => (Seq::empty(), spec_build_response(id, peer_id, Response::DataColumnsByRoot(Some(b)))),
                RpcSuccessResponse::DataColumnsByRange(b) => (Seq::empty(), spec_build_response(id, peer_id, Response::DataColumnsByRange(Some(b)))),
                RpcSuccessResponse::LightClientBootstrap(b) => (Seq::empty(), spec_build_response(id, peer_id, Response::LightClientBootstrap(b))),
                RpcSuccessResponse::LightClientOptimisticUpdate(b) => (Seq::empty(), spec_build_response(id, peer_id, Response::LightClientOptimisticUpdate(b))),
                RpcSuccessResponse::LightClientFinalityUpdate(b) => (Seq::empty(), spec_build_response(id, peer_id, Response::LightClientFinalityUpdate(b))),
            },
            Ok(RPCReceived::EndOfStream(id, term)) => (
                Seq::empty(),
                spec_build_response(id, peer_id, termination_response(term)),
            ),
        }
    }
}

impl Network {
    /// The event for a response: surfaced only for application requests.
    pub fn build_response(&self, id: RequestId, peer_id: PeerId, response: Response) -> (r: Option<NetworkEvent>)
        ensures
            r == spec_build_response(id, peer_id, response),
    {
        match id {
            RequestId::Application(a) => Some(NetworkEvent::ResponseReceived { peer_id, id: a, response }),
            RequestId::Internal => None,
        }
    }

    /// Sends a request of the application, if the peer is connected.
    pub fn send_request(&mut self, peer_id: PeerId, request_id: u64, request: RequestType, peer_connected: bool) -> (r: Result<(), (u64, RPCError)>)
        requires
            old(self).wf(),
        ensures
            final(self).wf(),
            old(self).same_state(final(self)),
            peer_connected ==> r is Ok && Network::issued_after(old(self), final(self), seq![Command::RpcSendRequest { peer_id, id: RequestId::Application(request_id), request }]),
            !peer_connected ==> r == Err::<(), (u64, RPCError)>((request_id, RPCError::Disconnected)) && Network::issued_after(old(self), final(self), Seq::empty()),
    {
        if !peer_connected {
            assert(self.commands@ =~= old(self).commands@ + Seq::<Command>::empty());
            assert(self.issued@ =~= old(self).issued@ + Seq::<Command>::empty());
            return Err((request_id, RPCError::Disconnected));
        }
        self.emit(Command::RpcSendRequest { peer_id, id: RequestId::Application(request_id), request });
        Ok(())
    }

    /// Answers a peer's request with a response chunk or an end of stream.
    pub fn send_response(&mut self, peer_id: PeerId, id: PeerRequestId, request_id: u64, response: Response)
        requires
            old(self).wf(),
        ensures
            final(self).wf(),
            old(self).same_state(final(self)),
            Network::issued_after(old(self), final(self), seq![Command::RpcSendResponse { peer_id, id, request_id, response: spec_response_to_rpc(response) }]),
    {
        let response = response_to_rpc(response);
        self.emit(Command::RpcSendResponse { peer_id, id, request_id, response });
    }

    /// Answers a peer's request with an error.
    pub fn send_error_response(&mut self, peer_id: PeerId, id: PeerRequestId, request_id: u64, error: RpcErrorResponse, reason: String)
        requires
            old(self).wf(),
        ensures
            final(self).wf(),
            old(self).same_state(final(self)),
            Network::issued_after(old(self), final(self), seq![Command::RpcSendResponse { peer_id, id, request_id, response: RpcResponse::Error(error, reason) }]),
    {
        self.emit(Command::RpcSendResponse { peer_id, id, request_id, response: RpcResponse::Error(error, reason) });
    }

    /// Pings a peer on this layer's own behalf.
    pub fn ping(&mut self, peer_id: PeerId)
        requires
            old(self).wf(),
        ensures
            final(self).wf(),
            old(self).same_state(final(self)),
            Network::issued_after(old(self), final(self), seq![Command::RpcPing { peer_id, id: RequestId::Internal }]),
    {
        self.emit(Command::RpcPing { peer_id, id: RequestId::Internal });
    }

    /// Asks a peer for its metadata on this layer's own behalf: version 3
    /// where peer-DAS is scheduled, version 2 otherwise.
    pub fn send_meta_data_request(&mut self, peer_id: PeerId)
        requires
            old(self).wf(),
        ensures
            final(self).wf(),
            old(self).same_state(final(self)),
            Network::issued_after(old(self), final(self), seq![Command::RpcSendRequest {
                peer_id,
                id: RequestId::Internal,
                request: RequestType::MetaData(if old(self).params.peer_das_scheduled { MetadataVersion::V3 } else { MetadataVersion::V2 }),
            }]),
    {
        let version = if self.params.peer_das_scheduled {
            MetadataVersion::V3
        } else {
            MetadataVersion::V2
        };
        self.emit(Command::RpcSendRequest { peer_id, id: RequestId::Internal, request: RequestType::MetaData(version) });
    }

    /// Answers a metadata request with the local metadata; the encoder sends
    /// the version the request negotiated.
    pub fn send_meta_data_response(&mut self, id: PeerRequestId, request_id: u64, peer_id: PeerId)
        requires
            old(self).wf(),
        ensures
            final(self).wf(),
            old(self).same_state(final(self)),
            Network::issued_after(old(self), final(self), seq![Command::RpcSendResponse {
                peer_id,
                id,
                request_id,
                response: RpcResponse::Success(RpcSuccessResponse::MetaData(old(self).local_metadata)),
            }]),
    {
        let meta = self.local_metadata;
        self.emit(Command::RpcSendResponse { peer_id, id, request_id, response: RpcResponse::Success(RpcSuccessResponse::MetaData(meta)) });
    }

    /// Handles an event of the RPC layer. `peer_connected` is whether the peer
    /// manager holds the peer as connected.
    pub fn inject_rpc_event(&mut self, event: RPCMessage, peer_connected: bool) -> (r: Option<NetworkEvent>)
        requires
            old(self).wf(),
        ensures
            final(self).wf(),
            old(self).same_state(final(self)),
            Network::issued_after(old(self), final(self), rpc_event_effects(event, peer_connected, old(self).local_metadata).0),
            r == rpc_event_effects(event, peer_connected, old(self).local_metadata).1,
    {
        let peer_id = event.peer_id;
        let inbound = match &event.message {
            Err(HandlerErr::Inbound { .. }) => true,
            Ok(RPCReceived::Request(_)) => true,
            _ => false,
        };
        if !peer_connected && inbound {
            proof { self.lemma_nothing_issued(); }
            return None;
        }
        let connection_id = event.conn_id;
        match event.message {
            Err(HandlerErr::Inbound { id: _, proto, error }) => {
                self.emit(Command::PeerManagerRpcError { peer_id, protocol: proto, error, direction: ConnectionDirection::Incoming });
                None
            },
            Err(HandlerErr::Outbound { id, proto, error }) => {
                self.emit(Command::PeerManagerRpcError { peer_id, protocol: proto, error, direction: ConnectionDirection::Outgoing });
                match id {
                    RequestId::Application(a) => Some(NetworkEvent::RPCFailed { id: a, peer_id, error }),
                    RequestId::Internal => None,
                }
            },
            Ok(RPCReceived::Request(request)) => {
                let stream = PeerRequestId { connection_id, substream_id: request.substream_id };
                match request.request_type {
                    RequestType::Ping(data) => {
                        self.emit(Command::PeerManagerPingRequest { peer_id, seq_number: data });
                        None
                    },
                    RequestType::MetaData(_) => {
                        self.send_meta_data_response(stream, request.id, peer_id);
                        None
                    },
                    RequestType::Goodbye(_) => {
                        proof { self.lemma_nothing_issued(); }
                        None
                    },
                    RequestType::Status(_) => {
                        self.emit(Command::PeerManagerStatusd(peer_id));
                        Some(NetworkEvent::RequestReceived { peer_id, id: stream, request })
                    },
                    RequestType::BlocksByRange { start_slot: _, count: _, step } => {
                        if step == 0 {
                            self.emit(Command::PeerManagerRpcError {
                                peer_id,
                                protocol: Protocol::BlocksByRange,
                                error: RPCError::InvalidData,
                                direction: ConnectionDirection::Incoming,
                            });
                            None
                        } else {
                            proof { self.lemma_nothing_issued(); }
                            Some(NetworkEvent::RequestReceived { peer_id, id: stream, request })
                        }
                    },
                    _ => {
                        proof { self.lemma_nothing_issued(); }
                        Some(NetworkEvent::RequestReceived { peer_id, id: stream, request })
                    },
                }
            },
            Ok(RPCReceived::Response(id, resp)) => {
                match resp {
                    RpcSuccessResponse::Pong(data) => {
                        self.emit(Command::PeerManagerPongResponse { peer_id, seq_number: data });
                        None
                    },
                    RpcSuccessResponse::MetaData(m) => {
                        self.emit(Command::PeerManagerMetaDataResponse { peer_id, meta_data: m });
                        None
                    },
                    RpcSuccessResponse::Status(s) => {
                        self.emit(Command::PeerManagerStatusd(peer_id));
                        self.build_response(id, peer_id, Response::Status(s))
                    },
                    RpcSuccessResponse::BlocksByRange(b) => {
                        proof { self.lemma_nothing_issued(); }
                        self.build_response(id, peer_id, Response::BlocksByRange(Some(b)))
                    },
                    RpcSuccessResponse::BlocksByRoot(b) => {
                        proof { self.lemma_nothing_issued(); }
                        self.build_response(id, peer_id, Response::BlocksByRoot(Some(b)))
                    },
                    RpcSuccessResponse::BlobsByRange(b) => {
                        proof { self.lemma_nothing_issued(); }
                        self.build_response(id, peer_id, Response::BlobsByRange(Some(b)))
                    },
                    RpcSuccessResponse::BlobsByRoot(b) => {
                        proof { self.lemma_nothing_issued(); }
                        self.build_response(id, peer_id, Response::BlobsByRoot(Some(b)))
                    },
                    RpcSuccessResponse::DataColumnsByRoot(b) => {
                        proof { self.lemma_nothing_issued(); }
                        self.build_response(id, peer_id, Response::DataColumnsByRoot(Some(b)))
                    },
                    RpcSuccessResponse::DataColumnsByRange(b) => {
                        proof { self.lemma_nothing_issued(); }
                        self.build_response(id, peer_id, Response::DataColumnsByRange(Some(b)))
                    },
                    RpcSuccessResponse::LightClientBootstrap(b) => {
                        proof { self.lemma_nothing_issued(); }
                        self.build_response(id, peer_id, Response::LightClientBootstrap(b))
                    },
                    RpcSuccessResponse::LightClientOptimisticUpdate(b) => {
                        proof { self.lemma_nothing_issued(); }
                        self.build_response(id, peer_id, Response::LightClientOptimisticUpdate(b))
                    },
                    RpcSuccessResponse::LightClientFinalityUpdate(b) => {
                        proof { self.lemma_nothing_issued(); }
                        self.build_response(id, peer_id, Response::LightClientFinalityUpdate(b))
                    },
                }
            },
            Ok(RPCReceived::EndOfStream(id, termination)) => {
                proof { self.lemma_nothing_issued(); }
                let response = match termination {
                    ResponseTermination::BlocksByRange => Response::BlocksByRange(None),
                    ResponseTermination::BlocksByRoot => Response::BlocksByRoot(None),
                    ResponseTermination::BlobsByRange => Response::BlobsByRange(None),
                    ResponseTermination::BlobsByRoot => Response::BlobsByRoot(None),
                    ResponseTermination::DataColumnsByRoot => Response::DataColumnsByRoot(None),
                    ResponseTermination::DataColumnsByRange => Response::DataColumnsByRange(None),
                };
                self.build_response(id, peer_id, response)
            },
        }
    }

    /// Issuing nothing is issuing the empty sequence.
    pub(crate) proof fn lemma_nothing_issued(&self)
        ensures
            Network::issued_after(self, self, Seq::empty()),
            self.same_state(self),
    {
        assert(self.commands@ =~= self.commands@ + Seq::<Command>::empty());
        assert(self.issued@ =~= self.issued@ + Seq::<Command>::empty());
    }
}

} // verus!
