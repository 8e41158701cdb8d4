//! Draining a frame: every action a frame holds, in order, up to the first
//! disconnect.
use crate::actions::{parse_action, Action, ActionModel, DecodeError};
use vstd::prelude::*;

verus! {

/// Whether a session goes on after a frame.
#[derive(Debug, Clone, Copy, PartialEq, Eq, Structural)]
pub enum ConnectionStatus {
    Disconnected,
    Connected,
}

/// An input device that applies the frames a client sends.
pub trait Application: Sync + Send {
    /// Applies every action of `input` in order. Returns `Disconnected` at the
    /// first disconnect action, dropping what follows it, and the decode error
    /// of a malformed frame.
    fn dispatch_to_device(&mut self, input: &[u8]) -> Result<ConnectionStatus, DecodeError>;
}

/// What a frame asks for: the actions to apply, in order, and how the frame
/// ends.
pub struct FramePlan {
    pub actions: Vec<Action>,
    pub status: Result<ConnectionStatus, DecodeError>,
}

/// The actions of a frame up to its end, its first disconnect or its first
/// malformed action, and how it ends.
pub open spec fn plan_frame(s: Seq<u8>) -> (Seq<ActionModel>, Result<ConnectionStatus, DecodeError>)
    decreases s.len(),
{
    if s.len() == 0 {
        (Seq::empty(), Ok(ConnectionStatus::Connected))
    } else {
        match parse_action(s) {
            Err(e) => (Seq::empty(), Err(e)),
            Ok((a, n)) => if a is Disconnect {
                (Seq::empty(), Ok(ConnectionStatus::Disconnected))
            } else if 0 < n <= s.len() {
                let (tail, status) = plan_frame(s.subrange(n as int, s.len() as int));
                (seq![a] + tail, status)
            } else {
                (Seq::empty(), Err(DecodeError::Truncated))
            },
        }
    }
}

/// The models of a list of actions.
pub open spec fn models(actions: Seq<Action>) -> Seq<ActionModel> {
    actions.map_values(|a: Action| a@)
}

/// Decodes a whole frame into the actions to apply and how it ends.
pub fn decode_frame(input: &[u8]) -> (r: FramePlan)
    ensures
        models(r.actions@) == plan_frame(input@).0,
        r.status == plan_frame(input@).1,
{
    let mut rest: &[u8] = input;
    let mut actions: Vec<Action> = Vec::new();
    while rest.len() > 0
        invariant
            plan_frame(input@) == (models(actions@) + plan_frame(rest@).0, plan_frame(rest@).1),
        decreases rest@.len(),
    {
        let ghost before = rest@;
        match Action::decode(&mut rest) {
            Ok(a) => {
                proof {
                    let (m, n) = parse_action(before)->Ok_0;
                    assert(rest@ == before.subrange(n as int, before.len() as int));
                }
                if let Action::Disconnect = a {
                    return FramePlan { actions, status: Ok(ConnectionStatus::Disconnected) };
                }
                proof {
                    let (m, n) = parse_action(before)->Ok_0;
                    assert(0 < n <= before.len()) by {
                        crate::actions::lemma_parse_length(before);
                    }
                }
                let ghost old_actions = actions@;
                actions.push(a);
                proof {
                    assert(models(actions@) =~= models(old_actions) + seq![a@]);
                    assert(models(actions@) + plan_frame(rest@).0 =~= models(old_actions) + (seq![a@] + plan_frame(rest@).0));
                }
            },
            Err(e) => {
                return FramePlan { actions, status: Err(e) };
            },
        }
    }
    assert(models(actions@) + Seq::empty() =~= models(actions@));
    FramePlan { actions, status: Ok(ConnectionStatus::Connected) }
}

} // verus!
