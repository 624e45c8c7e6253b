//! The SG-side M3UA ASP state machine.
//!
//! Peer Application Server Processes run the ASPSM/ASPTM handshake
//! (ASP-UP, ASP-UP-ACK, ASP-ACTIVE, ASP-ACTIVE-ACK) before exchanging DATA
//! (RFC 4666 sections 4 and 5). Given an inbound message the machine updates
//! its state and yields the action the transport must take; it owns no socket.
use vstd::prelude::*;

use crate::header::MessageType;
use crate::message::{
    message_routing_context, opt_bytes_parameter, opt_u32_parameter, u32_parameter, M3uaMessage,
    SpecMessage,
};
use crate::parameter::{find_parameter, find_tag, tags, SpecParameter};
use crate::wire::{copy_range, lemma_u32_round_trip};

verus! {

/// ASP traffic-maintenance state from the SG's point of view.
#[derive(Debug, Clone, Copy, PartialEq, Eq, Structural, Default)]
pub enum AspState {
    /// No relationship yet (before ASP-UP).
    #[default]
    Down,
    /// ASP is UP (ASPSM complete) but not carrying traffic.
    Inactive,
    /// ASP is ACTIVE: DATA may flow.
    Active,
}

/// What the transport should do in response to an inbound message.
#[derive(Debug, Clone)]
pub enum AspAction {
    /// Send this M3UA message back to the peer.
    Reply(M3uaMessage),
    /// A DATA MSU arrived in the Active state: hand it to the router.
    Deliver,
    /// Unexpected / out-of-state message: ignore.
    Ignore,
}

/// The abstract value of an action.
pub enum SpecAspAction {
    Reply(SpecMessage),
    Deliver,
    Ignore,
}

impl View for AspAction {
    type V = SpecAspAction;

    open spec fn view(&self) -> SpecAspAction {
        match self {
            AspAction::Reply(m) => SpecAspAction::Reply(m@),
            AspAction::Deliver => SpecAspAction::Deliver,
            AspAction::Ignore => SpecAspAction::Ignore,
        }
    }
}

/// A reply without parameters.
pub open spec fn bare_reply(message_type: MessageType) -> SpecAspAction {
    SpecAspAction::Reply(SpecMessage { message_type, parameters: Seq::empty() })
}

/// The value of the first Heartbeat Data parameter of `msg`, if any.
pub open spec fn heartbeat_data(msg: SpecMessage) -> Option<Seq<u8>> {
    match find_tag(msg.parameters, tags::HEARTBEAT_DATA) {
        Some(p) => Some(p.value),
        None => None,
    }
}

/// The acknowledgement of ASP-ACTIVE or ASP-INACTIVE (`ack`), carrying the
/// routing context of the request.
pub open spec fn ack_with_routing_context(ack: MessageType, msg: SpecMessage) -> SpecAspAction {
    SpecAspAction::Reply(
        SpecMessage {
            message_type: ack,
            parameters: opt_u32_parameter(tags::ROUTING_CONTEXT, message_routing_context(msg)),
        },
    )
}

/// One step of the SG-side ASP state machine: the state after `msg` arrives
/// in `state`, and the action the transport takes.
///
/// ASP-ACTIVE and ASP-INACTIVE are out of state while the ASP is Down (before
/// ASP-UP) and are ignored there. A heartbeat is answered with an
/// acknowledgement that echoes its Heartbeat Data.
pub open spec fn asp_step(state: AspState, msg: SpecMessage) -> (AspState, SpecAspAction) {
    match msg.message_type {
        MessageType::AspUp => (AspState::Inactive, bare_reply(MessageType::AspUpAck)),
        MessageType::AspActive => if state == AspState::Down {
            (state, SpecAspAction::Ignore)
        } else {
            (AspState::Active, ack_with_routing_context(MessageType::AspActiveAck, msg))
        },
        MessageType::AspInactive => if state == AspState::Down {
            (state, SpecAspAction::Ignore)
        } else {
            (AspState::Inactive, ack_with_routing_context(MessageType::AspInactiveAck, msg))
        },
        MessageType::AspDown => (AspState::Down, bare_reply(MessageType::AspDownAck)),
        MessageType::Heartbeat => (
            state,
            SpecAspAction::Reply(
                SpecMessage {
                    message_type: MessageType::HeartbeatAck,
                    parameters: opt_bytes_parameter(tags::HEARTBEAT_DATA, heartbeat_data(msg)),
                },
            ),
        ),
        MessageType::Data => if state == AspState::Active {
            (state, SpecAspAction::Deliver)
        } else {
            (state, SpecAspAction::Ignore)
        },
        _ => (state, SpecAspAction::Ignore),
    }
}

/// The state after `msgs` arrive one after another, starting in `state`.
pub open spec fn asp_run(state: AspState, msgs: Seq<SpecMessage>) -> AspState
    decreases msgs.len(),
{
    if msgs.len() == 0 {
        state
    } else {
        asp_step(asp_run(state, msgs.drop_last()), msgs.last()).0
    }
}

/// Some ASP-UP in `msgs` has no ASP-DOWN after it.
pub open spec fn up_since(msgs: Seq<SpecMessage>) -> bool {
    exists|i: int|
        0 <= i < msgs.len() && #[trigger] msgs[i].message_type == MessageType::AspUp && forall|j: int|
            i < j < msgs.len() ==> #[trigger] msgs[j].message_type != MessageType::AspDown
}

/// The SG-side ASP state machine for one association.
#[derive(Debug, Default)]
pub struct Asp {
    state: AspState,
}

impl View for Asp {
    type V = AspState;

    closed spec fn view(&self) -> AspState {
        self.state
    }
}

impl Asp {
    /// Create a state machine in the initial [`AspState::Down`] state.
    pub fn new() -> (a: Self)
        ensures
            a@ == AspState::Down,
    {
        Asp { state: AspState::Down }
    }

    /// The current traffic-maintenance state.
    pub fn state(&self) -> (s: AspState)
        ensures
            s == self@,
    {
        self.state
    }

    /// Drive the state machine with one inbound message, returning the action
    /// the transport should perform.
    pub fn handle(&mut self, msg: &M3uaMessage) -> (r: AspAction)
        ensures
            (final(self)@, r@) == asp_step(old(self)@, msg@),
    {
        match msg.message_type {
            MessageType::AspUp => {
                self.state = AspState::Inactive;
                AspAction::Reply(M3uaMessage::asp_up_ack(None))
            },
            MessageType::AspActive => {
                if self.state == AspState::Down {
                    AspAction::Ignore
                } else {
                    self.state = AspState::Active;
                    AspAction::Reply(M3uaMessage::asp_active_ack(None, msg.routing_context()))
                }
            },
            MessageType::AspInactive => {
                if self.state == AspState::Down {
                    AspAction::Ignore
                } else {
                    self.state = AspState::Inactive;
                    AspAction::Reply(M3uaMessage::asp_inactive_ack(msg.routing_context()))
                }
            },
            MessageType::AspDown => {
                self.state = AspState::Down;
                AspAction::Reply(M3uaMessage::asp_down_ack(None))
            },
            MessageType::Heartbeat => {
                let data = match find_parameter(msg.parameters.as_slice(), tags::HEARTBEAT_DATA) {
                    Some(p) => {
                        let d = copy_range(p.value.as_slice(), 0, p.value.len());
                        assert(d@ =~= p.value@);
                        Some(d)
                    },
                    None => None,
                };
                AspAction::Reply(M3uaMessage::heartbeat_ack(data))
            },
            MessageType::Data => {
                if self.state == AspState::Active {
                    AspAction::Deliver
                } else {
                    AspAction::Ignore
                }
            },
            _ => AspAction::Ignore,
        }
    }
}

/// DATA is delivered exactly when it arrives in the Active state; no other
/// message is ever delivered.
pub proof fn lemma_deliver_only_when_active(state: AspState, msg: SpecMessage)
    ensures
        asp_step(state, msg).1 is Deliver <==> (msg.message_type == MessageType::Data && state
            == AspState::Active),
{
}

/// ASP-UP always leads to Inactive and ASP-DOWN to Down; ASP-ACTIVE and
/// ASP-INACTIVE lead to Active and Inactive from an ASP that is up, and are
/// ignored while it is Down; every other message leaves the state unchanged.
pub proof fn lemma_state_transitions(state: AspState, msg: SpecMessage)
    ensures
        asp_step(state, msg).0 == (match msg.message_type {
            MessageType::AspUp => AspState::Inactive,
            MessageType::AspActive => if state == AspState::Down {
                AspState::Down
            } else {
                AspState::Active
            },
            MessageType::AspInactive => if state == AspState::Down {
                AspState::Down
            } else {
                AspState::Inactive
            },
            MessageType::AspDown => AspState::Down,
            _ => state,
        }),
        state == AspState::Down && (msg.message_type == MessageType::AspActive
            || msg.message_type == MessageType::AspInactive) ==> asp_step(state, msg).1 is Ignore,
{
}

/// ASP-UP, ASP-DOWN and heartbeats are always answered with their
/// acknowledgement, and ASP-ACTIVE and ASP-INACTIVE are when the ASP is up;
/// nothing else is answered.
pub proof fn lemma_requests_are_acknowledged(state: AspState, msg: SpecMessage)
    ensures
        match asp_step(state, msg).1 {
            SpecAspAction::Reply(r) => r.message_type == (match msg.message_type {
                MessageType::AspUp => MessageType::AspUpAck,
                MessageType::AspActive => MessageType::AspActiveAck,
                MessageType::AspInactive => MessageType::AspInactiveAck,
                MessageType::AspDown => MessageType::AspDownAck,
                _ => MessageType::HeartbeatAck,
            }),
            _ => !(msg.message_type == MessageType::AspUp || msg.message_type
                == MessageType::AspDown || msg.message_type == MessageType::Heartbeat || (state
                != AspState::Down && (msg.message_type == MessageType::AspActive
                || msg.message_type == MessageType::AspInactive))),
        },
{
}

/// Only ASP-UP, ASP-DOWN, BEAT and, while the ASP is up, ASP-ACTIVE and
/// ASP-INACTIVE are answered; DATA is delivered in Active; every other message
/// (acknowledgements among them) is ignored and leaves the state unchanged.
/// The ASP-UP and ASP-DOWN acknowledgements carry no parameters.
pub proof fn lemma_only_requests_answered(state: AspState, msg: SpecMessage)
    ensures
        asp_step(state, msg).1 is Reply ==> (msg.message_type == MessageType::AspUp
            || msg.message_type == MessageType::AspDown || msg.message_type
            == MessageType::Heartbeat || (state != AspState::Down && (msg.message_type
            == MessageType::AspActive || msg.message_type == MessageType::AspInactive))),
        !(msg.message_type == MessageType::AspUp || msg.message_type == MessageType::AspDown
            || msg.message_type == MessageType::Heartbeat || msg.message_type
            == MessageType::AspActive || msg.message_type == MessageType::AspInactive || (
        msg.message_type == MessageType::Data && state == AspState::Active)) ==> asp_step(
            state,
            msg,
        ) == (state, SpecAspAction::Ignore),
        msg.message_type == MessageType::AspUp || msg.message_type == MessageType::AspDown
            ==> (asp_step(state, msg).1 matches SpecAspAction::Reply(r) && r.parameters.len()
            == 0),
{
}

/// The acknowledgement of ASP-ACTIVE or ASP-INACTIVE carries the routing
/// context of the request.
pub proof fn lemma_ack_echoes_routing_context(state: AspState, msg: SpecMessage)
    requires
        state != AspState::Down,
        msg.message_type == MessageType::AspActive || msg.message_type == MessageType::AspInactive,
    ensures
        asp_step(state, msg).1 matches SpecAspAction::Reply(r) && message_routing_context(r)
            == message_routing_context(msg),
{
    let rc = message_routing_context(msg);
    let ps = opt_u32_parameter(tags::ROUTING_CONTEXT, rc);
    match rc {
        Some(x) => {
            lemma_u32_round_trip(x);
            assert(ps[0] == u32_parameter(tags::ROUTING_CONTEXT, x));
        },
        None => {
            assert(ps =~= Seq::<SpecParameter>::empty());
        },
    }
}

/// A heartbeat leaves the state unchanged and its acknowledgement echoes the
/// heartbeat's first Heartbeat Data parameter, if it has one.
pub proof fn lemma_heartbeat_ack_echoes_data(state: AspState, msg: SpecMessage)
    requires
        msg.message_type == MessageType::Heartbeat,
    ensures
        asp_step(state, msg).0 == state,
        asp_step(state, msg).1 matches SpecAspAction::Reply(r) && r.message_type
            == MessageType::HeartbeatAck && find_tag(r.parameters, tags::HEARTBEAT_DATA)
            == find_tag(msg.parameters, tags::HEARTBEAT_DATA),
{
    match find_tag(msg.parameters, tags::HEARTBEAT_DATA) {
        Some(p) => {
            assert(p == SpecParameter { tag: tags::HEARTBEAT_DATA, value: p.value }) by {
                lemma_find_tag_has_tag(msg.parameters, tags::HEARTBEAT_DATA);
            }
        },
        None => {},
    }
}

/// The parameter `find_tag` returns carries the tag it was asked for.
proof fn lemma_find_tag_has_tag(ps: Seq<SpecParameter>, tag: u16)
    ensures
        find_tag(ps, tag) matches Some(p) ==> p.tag == tag,
    decreases ps.len(),
{
    if ps.len() > 0 && ps[0].tag != tag {
        lemma_find_tag_has_tag(ps.drop_first(), tag);
    }
}

/// From Down, ASP-UP then ASP-ACTIVE brings the ASP to Active, and DATA is then
/// delivered; ASP-DOWN returns it to Down from any state.
pub proof fn lemma_handshake(
    up: SpecMessage,
    active: SpecMessage,
    data: SpecMessage,
    down: SpecMessage,
    state: AspState,
)
    requires
        up.message_type == MessageType::AspUp,
        active.message_type == MessageType::AspActive,
        data.message_type == MessageType::Data,
        down.message_type == MessageType::AspDown,
    ensures
        asp_step(AspState::Down, up).0 == AspState::Inactive,
        asp_step(asp_step(AspState::Down, up).0, active).0 == AspState::Active,
        asp_step(asp_step(asp_step(AspState::Down, up).0, active).0, data).1 is Deliver,
        asp_step(state, down).0 == AspState::Down,
{
}

/// Whether some ASP-UP has had no ASP-DOWN after it depends on the last
/// message and on the messages before it.
proof fn lemma_up_since_last(msgs: Seq<SpecMessage>)
    requires
        msgs.len() > 0,
    ensures
        up_since(msgs) <==> (msgs.last().message_type == MessageType::AspUp || (
        msgs.last().message_type != MessageType::AspDown && up_since(msgs.drop_last()))),
{
    let init = msgs.drop_last();
    let n = msgs.len() - 1;
    if up_since(msgs) {
        let i = choose|i: int|
            0 <= i < msgs.len() && #[trigger] msgs[i].message_type == MessageType::AspUp
                && forall|j: int| i < j < msgs.len() ==> #[trigger] msgs[j].message_type
                    != MessageType::AspDown;
        if i < n {
            assert(msgs[n].message_type != MessageType::AspDown);
            assert(init[i] == msgs[i]);
            assert forall|j: int| i < j < init.len() implies #[trigger] init[j].message_type
                != MessageType::AspDown by {
                assert(init[j] == msgs[j]);
            }
        }
    }
    if msgs.last().message_type == MessageType::AspUp {
        assert(msgs[n].message_type == MessageType::AspUp);
    } else if msgs.last().message_type != MessageType::AspDown && up_since(init) {
        let i = choose|i: int|
            0 <= i < init.len() && #[trigger] init[i].message_type == MessageType::AspUp
                && forall|j: int| i < j < init.len() ==> #[trigger] init[j].message_type
                    != MessageType::AspDown;
        assert(msgs[i] == init[i]);
        assert forall|j: int| i < j < msgs.len() implies #[trigger] msgs[j].message_type
            != MessageType::AspDown by {
            if j < n {
                assert(init[j] == msgs[j]);
            }
        }
    }
}

/// Starting from Down, after any run of messages the ASP is up (Inactive or
/// Active) exactly when some ASP-UP arrived and no ASP-DOWN came after it.
pub proof fn lemma_up_only_through_asp_up(msgs: Seq<SpecMessage>)
    ensures
        asp_run(AspState::Down, msgs) != AspState::Down <==> up_since(msgs),
    decreases msgs.len(),
{
    if msgs.len() > 0 {
        lemma_up_only_through_asp_up(msgs.drop_last());
        lemma_up_since_last(msgs);
    }
}

} // verus!
