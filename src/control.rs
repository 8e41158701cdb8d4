//! The control-plane listener: each request that arrives is handed to the
//! installed processor and gets exactly one response, in arrival order.
use crate::commands::{
    answers, fits, reply, ClientList, ClientTerminated, ProcessError, ServerRequest, ServerResponse,
    ServerStarted, ServerStopped, ServerTerminated, VariantOf,
};
use crate::server::ServerState;
use vstd::prelude::*;

verus! {

/// The message of a request that arrives before a processor is installed.
pub const NO_PROCESSOR: &'static str = "No processor set";

/// Carries out control requests.
pub trait RequestProcessor: Sized {
    /// Whether the processor can take a request; always, unless an
    /// implementation says otherwise.
    open spec fn ready(&self) -> bool {
        true
    }

    /// Whether answering `req` with `r` and becoming `next` is what this
    /// processor does; an implementation may pin it down further than a
    /// well-typed outcome.
    open spec fn step(
        &self,
        req: ServerRequest,
        r: (Result<ServerResponse, ProcessError>, Option<usize>),
        next: Self,
    ) -> bool {
        fits(req, r.0)
    }

    /// The outcome of `req`, and the id of a termination notice to post
    /// after the response, if any.
    fn process(&mut self, req: &ServerRequest) -> (r: (Result<ServerResponse, ProcessError>, Option<usize>))
        requires
            old(self).ready(),
        ensures
            final(self).ready(),
            fits(*req, r.0),
            old(self).step(*req, r, *final(self)),
    ;
}

impl RequestProcessor for ServerState {
    open spec fn ready(&self) -> bool {
        self.wf()
    }

    open spec fn step(
        &self,
        req: ServerRequest,
        r: (Result<ServerResponse, ProcessError>, Option<usize>),
        next: Self,
    ) -> bool {
        self.request_step(req, r, next)
    }

    fn process(&mut self, req: &ServerRequest) -> (r: (Result<ServerResponse, ProcessError>, Option<usize>)) {
        self.command_parser(req)
    }
}

/// Whether `answer` is the response and notice that `p` gives for `req`,
/// becoming `next`: a success is sent as it is, a failure as an `Error`
/// carrying its message.
pub open spec fn replied<P: RequestProcessor>(
    p: P,
    req: ServerRequest,
    answer: (ServerResponse, Option<usize>),
    next: P,
) -> bool {
    exists|o: Result<ServerResponse, ProcessError>|
        #[trigger] p.step(req, (o, answer.1), next) && answer.0 == reply(o)
}

/// Whether the `i`-th answer is the reply of the processor in state `ps[i]`
/// to the `i`-th request, leaving it in state `ps[i + 1]`.
pub open spec fn replied_at<P: RequestProcessor>(
    ps: Seq<P>,
    requests: Seq<ServerRequest>,
    answers: Seq<(ServerResponse, Option<usize>)>,
    i: int,
) -> bool {
    replied(ps[i], requests[i], answers[i], ps[i + 1])
}

/// Whether `answers` are the replies of a processor that went through the
/// states `ps`, taking `requests` one at a time, in order.
pub open spec fn processed_in_order<P: RequestProcessor>(
    ps: Seq<P>,
    requests: Seq<ServerRequest>,
    answers: Seq<(ServerResponse, Option<usize>)>,
) -> bool {
    &&& ps.len() == requests.len() + 1
    &&& answers.len() == requests.len()
    &&& forall|i: int|
        0 <= i < requests.len() ==> #[trigger] replied_at(ps, requests, answers, i)
}

/// Whether an answer is the one given while no processor is installed.
pub open spec fn unprocessed(answer: (ServerResponse, Option<usize>)) -> bool {
    &&& answer.0 matches ServerResponse::Error(m) && m@ == NO_PROCESSOR@
    &&& answer.1 is None
}

/// The slot where the processor is installed once the server exists.
pub struct CommandProcessor<P> {
    pub callback: Option<P>,
}

impl<P: RequestProcessor> CommandProcessor<P> {
    pub open spec fn ready(&self) -> bool {
        self.callback matches Some(p) ==> p.ready()
    }

    /// An empty slot.
    pub fn new() -> (r: Self)
        ensures
            r.callback is None,
    {
        CommandProcessor { callback: None }
    }

    /// Installs `processor`, replacing any earlier one.
    pub fn set_processor(&mut self, processor: P)
        ensures
            final(self).callback == Some(processor),
    {
        self.callback = Some(processor);
    }

    pub fn has_processor(&self) -> (r: bool)
        ensures
            r == self.callback is Some,
    {
        self.callback.is_some()
    }

    /// The installed processor's outcome for `req`; an error while none is
    /// installed.
    pub fn process(&mut self, req: &ServerRequest) -> (r: (Result<ServerResponse, ProcessError>, Option<usize>))
        requires
            old(self).ready(),
        ensures
            final(self).ready(),
            fits(*req, r.0),
            old(self).callback is None ==> {
                &&& final(self).callback is None
                &&& r.0 matches Err(e) && e.message@ == NO_PROCESSOR@
                &&& r.1 is None
            },
            old(self).callback is Some ==> {
                &&& final(self).callback is Some
                &&& old(self).callback->Some_0.step(*req, r, final(self).callback->Some_0)
            },
    {
        match &mut self.callback {
            Some(p) => p.process(req),
            None => (Err(ProcessError::new(NO_PROCESSOR.to_owned())), None),
        }
    }
}

/// Turns requests into responses, one each, in the order they arrive.
pub struct CommandListener<P> {
    pub command_processor: CommandProcessor<P>,
}

impl<P: RequestProcessor> CommandListener<P> {
    pub open spec fn ready(&self) -> bool {
        self.command_processor.ready()
    }

    /// A listener with no processor yet.
    pub fn new() -> (r: Self)
        ensures
            r.command_processor.callback is None,
    {
        CommandListener { command_processor: CommandProcessor::new() }
    }

    /// Installs the processor that later requests are handed to, replacing
    /// any earlier one.
    pub fn set_command_processor(&mut self, processor: P)
        ensures
            final(self).command_processor.callback == Some(processor),
    {
        self.command_processor.set_processor(processor);
    }

    /// The response to one request, and the id of a termination notice to
    /// post once it is sent: the installed processor's outcome for exactly
    /// this request, a success sent as it is and a failure as an `Error`
    /// with its message; without a processor, the `NO_PROCESSOR` error.
    pub fn parse_message(&mut self, message: &ServerRequest) -> (r: (ServerResponse, Option<usize>))
        requires
            old(self).ready(),
        ensures
            final(self).ready(),
            answers(*message, r.0),
            old(self).command_processor.callback is None ==> {
                &&& final(self).command_processor.callback is None
                &&& unprocessed(r)
            },
            old(self).command_processor.callback is Some ==> {
                &&& final(self).command_processor.callback is Some
                &&& replied(
                    old(self).command_processor.callback->Some_0,
                    *message,
                    r,
                    final(self).command_processor.callback->Some_0,
                )
            },
    {
        let (outcome, notice) = self.command_processor.process(message);
        let ghost o = outcome;
        let response = match outcome {
            Ok(resp) => match message {
                ServerRequest::InitServer => ServerResponse::ServerStarted(
                    ServerStarted::assert_variant_of(resp),
                ),
                ServerRequest::StopServer => ServerResponse::ServerStopped(
                    ServerStopped::assert_variant_of(resp),
                ),
                ServerRequest::TerminateServer => ServerResponse::ServerTerminated(
                    ServerTerminated::assert_variant_of(resp),
                ),
                ServerRequest::TerminateClient(_) => ServerResponse::ClientTerminated(
                    ClientTerminated::assert_variant_of(resp),
                ),
                ServerRequest::GetClients => ServerResponse::ClientList(
                    ClientList::assert_variant_of(resp),
                ),
            },
            Err(e) => ServerResponse::Error(e.message),
        };
        proof {
            assert(response == reply(o));
            if old(self).command_processor.callback is Some {
                assert(old(self).command_processor.callback->Some_0.step(
                    *message,
                    (o, notice),
                    self.command_processor.callback->Some_0,
                ));
            }
        }
        (response, notice)
    }

    /// The responses to a batch of requests: one per request, the i-th
    /// being the installed processor's reply to the i-th, the processor
    /// taking them one at a time, in order.
    pub fn process_all(&mut self, requests: &Vec<ServerRequest>) -> (r: Vec<(ServerResponse, Option<usize>)>)
        requires
            old(self).ready(),
        ensures
            final(self).ready(),
            r@.len() == requests@.len(),
            forall|i: int| 0 <= i < requests@.len() ==> answers(#[trigger] requests@[i], r@[i].0),
            old(self).command_processor.callback is None ==> {
                &&& final(self).command_processor.callback is None
                &&& forall|i: int| 0 <= i < r@.len() ==> #[trigger] unprocessed(r@[i])
            },
            old(self).command_processor.callback is Some ==> {
                &&& final(self).command_processor.callback is Some
                &&& exists|ps: Seq<P>|
                    #[trigger] processed_in_order(ps, requests@, r@) && ps[0]
                        == old(self).command_processor.callback->Some_0 && ps.last()
                        == final(self).command_processor.callback->Some_0
            },
    {
        let mut out: Vec<(ServerResponse, Option<usize>)> = Vec::new();
        let ghost installed = self.command_processor.callback is Some;
        let ghost mut ps: Seq<P> = if installed {
            seq![self.command_processor.callback->Some_0]
        } else {
            Seq::empty()
        };
        let mut i: usize = 0;
        while i < requests.len()
            invariant
                self.ready(),
                i <= requests@.len(),
                out@.len() == i,
                forall|j: int| 0 <= j < i ==> answers(#[trigger] requests@[j], out@[j].0),
                installed == old(self).command_processor.callback is Some,
                !installed ==> self.command_processor.callback is None,
                !installed ==> forall|j: int| 0 <= j < i ==> #[trigger] unprocessed(out@[j]),
                installed ==> self.command_processor.callback is Some,
                installed ==> ps.len() == i + 1,
                installed ==> ps[0] == old(self).command_processor.callback->Some_0,
                installed ==> ps[i as int] == self.command_processor.callback->Some_0,
                installed ==> forall|j: int|
                    0 <= j < i ==> #[trigger] replied_at(ps, requests@, out@, j),
            decreases requests@.len() - i,
        {
            let ghost before_ps = ps;
            let ghost before_out = out@;
            let answer = self.parse_message(&requests[i]);
            out.push(answer);
            proof {
                if installed {
                    ps = ps.push(self.command_processor.callback->Some_0);
                    assert forall|j: int| 0 <= j <= i implies #[trigger] replied_at(ps, requests@, out@, j) by {
                        if j < i {
                            assert(replied_at(before_ps, requests@, before_out, j));
                            assert(ps[j] == before_ps[j] && ps[j + 1] == before_ps[j + 1]);
                            assert(out@[j] == before_out[j]);
                        }
                    }
                }
            }
            i += 1;
        }
        proof {
            if installed {
                assert(processed_in_order(ps, requests@, out@));
            }
        }
        out
    }
}

} // verus!
