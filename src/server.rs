//! The server core: configuration, the admission gate, the handshake that
//! hands a new client its session port, and the processing of control
//! requests.
use crate::commands::{
    fits, ClientList, ClientTerminated, ProcessError, ServerRequest, ServerResponse, ServerStarted,
    ServerStopped, ServerTerminated,
};
use crate::pool::{
    admission_model, ClientInfo, ClientInfoModel, ClientPool, PoolError, PoolModel,
    CLIENT_POOL_RESERVED_ID,
};
use vstd::prelude::*;

verus! {

/// The port that a refused client is told to use.
pub const SERVER_REACHED_MAX_CONCURRENT_CLIENTS: i32 = -1;

/// The message of a termination request for an unknown client.
pub const UNKNOWN_CLIENT: &'static str = "no client with this id is connected";

/// Where the server listens and how many clients it admits at once. Client
/// `id` gets the port `starting_port + id`.
#[derive(Debug, Clone, Copy, PartialEq, Eq, Structural)]
pub struct ServerConfig {
    pub starting_port: usize,
    pub max_clients: usize,
}

impl ServerConfig {
    pub fn new(starting_port: usize, max_clients: usize) -> (r: Self)
        ensures
            r.starting_port == starting_port,
            r.max_clients == max_clients,
    {
        Self { starting_port, max_clients }
    }
}

/// Why the server could not run or be reached.
#[derive(Debug, Clone, Copy, PartialEq, Eq, Structural)]
pub enum ServerError {
    /// The handshake listener could not be bound.
    AddressUnavailable,
    /// The other end of a control channel is gone.
    ChannelClosed,
}

/// What a new client is told: the port of its session, or -1 when it was
/// refused, and the server's operating system.
#[derive(Debug, Clone, PartialEq, Eq)]
pub struct NewClientResponse {
    pub port: i32,
    pub server_os: String,
}

/// What becomes of a handshake connection.
#[derive(Debug, Clone, PartialEq, Eq)]
pub enum Handshake {
    /// The server is not admitting clients: the connection is closed with
    /// nothing written.
    Refused,
    /// The response is written, then the connection is closed. `admitted`
    /// is the client whose session is to be started, if one was admitted.
    Reply { response: NewClientResponse, admitted: Option<ClientInfo> },
}

/// The port written for an admission's result.
pub open spec fn handshake_port(r: Result<ClientInfoModel, PoolError>) -> int {
    match r {
        Ok(info) => info.port as int,
        Err(_) => SERVER_REACHED_MAX_CONCURRENT_CLIENTS as int,
    }
}

/// The state that the accept loop and the control plane share.
pub struct ServerState {
    pub config: ServerConfig,
    pub pool: ClientPool,
    /// Whether new clients are admitted.
    pub listening_to_clients: bool,
    /// Whether the accept loop is to end.
    pub terminate_signal: bool,
}

impl ServerState {
    pub open spec fn wf(&self) -> bool {
        &&& self.pool.wf()
        &&& self.pool@.wf()
    }

    /// A server that does not admit clients yet, with an empty pool.
    pub fn new(config: ServerConfig) -> (r: Self)
        ensures
            r.wf(),
            r.pool@.wf(),
            r.config == config,
            r.pool@ == (PoolModel {
                next_id: 1,
                max_clients: config.max_clients as nat,
                base_port: config.starting_port as nat,
                records: Seq::empty(),
            }),
            !r.listening_to_clients,
            !r.terminate_signal,
    {
        ServerState {
            config,
            pool: ClientPool::new(config.starting_port, config.max_clients),
            listening_to_clients: false,
            terminate_signal: false,
        }
    }

    /// Handles a new connection on the handshake port from `address`. While
    /// the server is not admitting clients the connection is refused and
    /// nothing changes; otherwise the client is offered to the pool and told
    /// its port, or -1 when the pool refused it.
    pub fn handle_new_client(&mut self, address: String, server_os: String) -> (r: Handshake)
        requires
            old(self).wf(),
        ensures
            final(self).wf(),
            final(self).pool@.wf(),
            final(self).config == old(self).config,
            final(self).listening_to_clients == old(self).listening_to_clients,
            final(self).terminate_signal == old(self).terminate_signal,
            !old(self).listening_to_clients ==> r is Refused && final(self).pool@ == old(self).pool@,
            old(self).listening_to_clients ==> {
                let (p, a) = old(self).pool@.add(address@);
                &&& final(self).pool@ == p
                &&& r matches Handshake::Reply { response, admitted } && response.port
                    == handshake_port(a) && response.server_os == server_os && match admitted {
                    Some(info) => a == Ok::<ClientInfoModel, PoolError>(info@),
                    None => a is Err,
                }
            },
    {
        if !self.listening_to_clients {
            return Handshake::Refused;
        }
        match self.pool.add(address) {
            Ok(info) => {
                let port = info.port as i32;
                Handshake::Reply {
                    response: NewClientResponse { port, server_os },
                    admitted: Some(info),
                }
            },
            Err(_) => Handshake::Reply {
                response: NewClientResponse {
                    port: SERVER_REACHED_MAX_CONCURRENT_CLIENTS,
                    server_os,
                },
                admitted: None,
            },
        }
    }

    /// Whether `next` and the answer `r` are what carrying out `req` from
    /// this state gives: the response (or error) and the termination notice
    /// to post, and the state after it.
    pub open spec fn request_step(
        self,
        req: ServerRequest,
        r: (Result<ServerResponse, ProcessError>, Option<usize>),
        next: ServerState,
    ) -> bool {
        &&& next.wf()
        &&& next.pool@.wf()
        &&& fits(req, r.0)
        &&& next.config == self.config
        &&& match req {
            ServerRequest::InitServer => {
                &&& next.listening_to_clients
                &&& next.terminate_signal == self.terminate_signal
                &&& next.pool@ == self.pool@
                &&& r == (Ok::<ServerResponse, ProcessError>(
                    ServerResponse::ServerStarted(ServerStarted {}),
                ), None::<usize>)
            },
            ServerRequest::StopServer => {
                &&& !next.listening_to_clients
                &&& next.terminate_signal == self.terminate_signal
                &&& next.pool@ == self.pool@.clear()
                &&& r == (Ok::<ServerResponse, ProcessError>(
                    ServerResponse::ServerStopped(ServerStopped {}),
                ), None::<usize>)
            },
            ServerRequest::TerminateServer => {
                &&& next.listening_to_clients == self.listening_to_clients
                &&& next.terminate_signal
                &&& next.pool@ == self.pool@.clear()
                &&& r == (Ok::<ServerResponse, ProcessError>(
                    ServerResponse::ServerTerminated(ServerTerminated),
                ), Some(CLIENT_POOL_RESERVED_ID))
            },
            ServerRequest::TerminateClient(id) => {
                let (p, t) = self.pool@.terminate(id as nat);
                &&& next.listening_to_clients == self.listening_to_clients
                &&& next.terminate_signal == self.terminate_signal
                &&& next.pool@ == p
                &&& t is Ok ==> r == (Ok::<ServerResponse, ProcessError>(
                    ServerResponse::ClientTerminated(ClientTerminated { client_id: id }),
                ), Some(id))
                &&& t is Err ==> (r.0 matches Err(e) && e.message@ == UNKNOWN_CLIENT@) && r.1 is None
            },
            ServerRequest::GetClients => {
                &&& next.listening_to_clients == self.listening_to_clients
                &&& next.terminate_signal == self.terminate_signal
                &&& next.pool@ == self.pool@
                &&& r.1 is None
                &&& r.0 matches Ok(ServerResponse::ClientList(list)) && list.clients@.len()
                    == self.pool@.records.len() && forall|i: int|
                    0 <= i < list.clients@.len() ==> #[trigger] list.clients@[i]@
                        == self.pool@.records[i].info
            },
        }
    }

    /// Carries out a control request. Besides the outcome it gives the id
    /// of a termination notice to post once the response is sent: the
    /// terminated client's, or the reserved id when the server shuts down.
    pub fn command_parser(&mut self, req: &ServerRequest) -> (r: (
        Result<ServerResponse, ProcessError>,
        Option<usize>,
    ))
        requires
            old(self).wf(),
        ensures
            final(self).wf(),
            old(self).request_step(*req, r, *final(self)),
    {
        match req {
            ServerRequest::InitServer => {
                self.listening_to_clients = true;
                (Ok(ServerResponse::ServerStarted(ServerStarted {})), None)
            },
            ServerRequest::StopServer => {
                self.listening_to_clients = false;
                self.pool.clear();
                (Ok(ServerResponse::ServerStopped(ServerStopped {})), None)
            },
            ServerRequest::TerminateServer => {
                self.terminate_signal = true;
                let notice = self.pool.shutdown();
                (Ok(ServerResponse::ServerTerminated(ServerTerminated)), Some(notice))
            },
            ServerRequest::TerminateClient(client_id) => {
                let id = *client_id;
                match self.pool.terminate_client(id) {
                    Ok(()) => (
                        Ok(ServerResponse::ClientTerminated(ClientTerminated { client_id: id })),
                        Some(id),
                    ),
                    Err(_) => (Err(ProcessError::new(UNKNOWN_CLIENT.to_owned())), None),
                }
            },
            ServerRequest::GetClients => {
                let clients = self.pool.client_list();
                (Ok(ServerResponse::ClientList(ClientList { clients })), None)
            },
        }
    }
}

} // verus!
