//! The control-plane messages: requests from a supervising front-end and
//! the responses the server gives, one per request.
use crate::pool::ClientInfo;
use vstd::prelude::*;

verus! {

/// A request from the front-end.
#[derive(Debug, Clone, PartialEq, Eq)]
pub enum ServerRequest {
    /// Start admitting clients.
    InitServer,
    /// Stop admitting clients and drop the connected ones.
    StopServer,
    /// Shut the server down.
    TerminateServer,
    /// End the session of one client.
    TerminateClient(usize),
    /// List the connected clients.
    GetClients,
}

#[derive(Debug, Clone, PartialEq, Eq)]
pub struct ServerStarted {}

#[derive(Debug, Clone, PartialEq, Eq)]
pub struct ServerStopped {}

#[derive(Debug, Clone, PartialEq, Eq)]
pub struct ServerTerminated;

#[derive(Debug, Clone, PartialEq, Eq)]
pub struct ClientTerminated {
    pub client_id: usize,
}

#[derive(Debug, Clone, PartialEq, Eq)]
pub struct ClientList {
    pub clients: Vec<ClientInfo>,
}

/// The server's answer to a request.
#[derive(Debug, Clone, PartialEq, Eq)]
pub enum ServerResponse {
    ServerStarted(ServerStarted),
    ServerStopped(ServerStopped),
    ServerTerminated(ServerTerminated),
    ClientTerminated(ClientTerminated),
    ClientList(ClientList),
    Error(String),
}

/// A change in the pool that subscribers of the event bus learn of.
#[derive(Debug, Clone, PartialEq, Eq)]
pub enum ServerEvent {
    ClientAdded(ClientInfo),
    ClientRemoved(ClientInfo),
}

/// Why a request could not be carried out.
#[derive(Debug, Clone, PartialEq, Eq)]
pub struct ProcessError {
    pub message: String,
}

impl ProcessError {
    pub fn new(message: String) -> (r: Self)
        ensures
            r.message == message,
    {
        ProcessError { message }
    }
}

/// Whether `resp` is the success response that belongs to `req`.
pub open spec fn success_for(req: ServerRequest, resp: ServerResponse) -> bool {
    match req {
        ServerRequest::InitServer => resp is ServerStarted,
        ServerRequest::StopServer => resp is ServerStopped,
        ServerRequest::TerminateServer => resp is ServerTerminated,
        ServerRequest::TerminateClient(id) => resp == ServerResponse::ClientTerminated(
            ClientTerminated { client_id: id },
        ),
        ServerRequest::GetClients => resp is ClientList,
    }
}

/// Whether `resp` answers `req`: its own success response, or an error.
pub open spec fn answers(req: ServerRequest, resp: ServerResponse) -> bool {
    success_for(req, resp) || resp is Error
}

/// Whether a processor's outcome for `req` is well typed: a success is the
/// response that belongs to `req`.
pub open spec fn fits(req: ServerRequest, outcome: Result<ServerResponse, ProcessError>) -> bool {
    outcome matches Ok(resp) ==> success_for(req, resp)
}

/// The response sent for a processor's outcome.
pub open spec fn reply(outcome: Result<ServerResponse, ProcessError>) -> ServerResponse {
    match outcome {
        Ok(resp) => resp,
        Err(e) => ServerResponse::Error(e.message),
    }
}

/// The payload of one response variant.
pub trait VariantOf<T>: Sized {
    /// Whether `other` is this variant.
    spec fn is_variant_of(other: T) -> bool;

    /// Whether `other` is this variant with payload `payload`.
    spec fn wraps(other: T, payload: Self) -> bool;

    /// The payload of `other`, which must be this variant.
    fn assert_variant_of(other: T) -> (r: Self)
        requires
            Self::is_variant_of(other),
        ensures
            Self::wraps(other, r),
    ;
}

impl VariantOf<ServerResponse> for ServerStarted {
    open spec fn is_variant_of(other: ServerResponse) -> bool {
        other is ServerStarted
    }

    open spec fn wraps(other: ServerResponse, payload: Self) -> bool {
        other == ServerResponse::ServerStarted(payload)
    }

    fn assert_variant_of(other: ServerResponse) -> (r: Self) {
        match other {
            ServerResponse::ServerStarted(inner) => inner,
            _ => ServerStarted {},
        }
    }
}

impl VariantOf<ServerResponse> for ServerStopped {
    open spec fn is_variant_of(other: ServerResponse) -> bool {
        other is ServerStopped
    }

    open spec fn wraps(other: ServerResponse, payload: Self) -> bool {
        other == ServerResponse::ServerStopped(payload)
    }

    fn assert_variant_of(other: ServerResponse) -> (r: Self) {
        match other {
            ServerResponse::ServerStopped(inner) => inner,
            _ => ServerStopped {},
        }
    }
}

impl VariantOf<ServerResponse> for ServerTerminated {
    open spec fn is_variant_of(other: ServerResponse) -> bool {
        other is ServerTerminated
    }

    open spec fn wraps(other: ServerResponse, payload: Self) -> bool {
        other == ServerResponse::ServerTerminated(payload)
    }

    fn assert_variant_of(other: ServerResponse) -> (r: Self) {
        match other {
            ServerResponse::ServerTerminated(inner) => inner,
            _ => ServerTerminated,
        }
    }
}

impl VariantOf<ServerResponse> for ClientTerminated {
    open spec fn is_variant_of(other: ServerResponse) -> bool {
        other is ClientTerminated
    }

    open spec fn wraps(other: ServerResponse, payload: Self) -> bool {
        other == ServerResponse::ClientTerminated(payload)
    }

    fn assert_variant_of(other: ServerResponse) -> (r: Self) {
        match other {
            ServerResponse::ClientTerminated(inner) => inner,
            _ => ClientTerminated { client_id: 0 },
        }
    }
}

impl VariantOf<ServerResponse> for ClientList {
    open spec fn is_variant_of(other: ServerResponse) -> bool {
        other is ClientList
    }

    open spec fn wraps(other: ServerResponse, payload: Self) -> bool {
        other == ServerResponse::ClientList(payload)
    }

    fn assert_variant_of(other: ServerResponse) -> (r: Self) {
        match other {
            ServerResponse::ClientList(inner) => inner,
            _ => ClientList { clients: Vec::new() },
        }
    }
}

} // verus!
