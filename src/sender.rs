//! The front-end's end of the control plane: requests go out on one
//! channel, responses come back on another, in the same order.
use crate::commands::{ServerRequest, ServerResponse};
use crate::server::ServerError;
use std::sync::mpsc::{Receiver, Sender};
use vstd::prelude::*;

verus! {

#[verifier::external_type_specification]
#[verifier::external_body]
#[verifier::reject_recursive_types(T)]
pub struct ExSender<T>(Sender<T>);

#[verifier::external_type_specification]
#[verifier::external_body]
#[verifier::reject_recursive_types(T)]
pub struct ExReceiver<T>(Receiver<T>);

/// Sends requests to a running server and receives its responses.
pub struct CommandSender {
    sender_channel: Sender<ServerRequest>,
    receiver_channel: Receiver<ServerResponse>,
}

/// The name under which front-ends know the control handle.
pub type ServerCommunicator = CommandSender;

impl CommandSender {
    /// The channel that requests go out on.
    pub closed spec fn sender(&self) -> Sender<ServerRequest> {
        self.sender_channel
    }

    /// The channel that responses come back on.
    pub closed spec fn receiver(&self) -> Receiver<ServerResponse> {
        self.receiver_channel
    }

    /// A handle that sends on `sender` and receives from `receiver`.
    pub fn new(sender: Sender<ServerRequest>, receiver: Receiver<ServerResponse>) -> (r: Self)
        ensures
            r.sender() == sender,
            r.receiver() == receiver,
    {
        CommandSender { sender_channel: sender, receiver_channel: receiver }
    }

    /// Relies on std's mpsc `Sender::send`: it queues the request, and fails
    /// only when the server's end of the channel is gone.
    #[verifier::external_body]
    pub fn send_request(&self, request: ServerRequest) -> (r: Result<(), ServerError>)
        ensures
            r matches Err(e) ==> e == ServerError::ChannelClosed,
    {
        match self.sender_channel.send(request) {
            Ok(()) => Ok(()),
            Err(_) => Err(ServerError::ChannelClosed),
        }
    }

    /// Relies on std's mpsc `Receiver::recv`: it blocks for the next
    /// response, and fails only when the server's end of the channel is gone.
    #[verifier::external_body]
    pub fn receive_response(&mut self) -> (r: Result<ServerResponse, ServerError>)
        ensures
            r matches Err(e) ==> e == ServerError::ChannelClosed,
            final(self).sender() == old(self).sender(),
            final(self).receiver() == old(self).receiver(),
    {
        match self.receiver_channel.recv() {
            Ok(resp) => Ok(resp),
            Err(_) => Err(ServerError::ChannelClosed),
        }
    }
}

} // verus!
