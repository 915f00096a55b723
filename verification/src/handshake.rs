//! The connect-time identification handshake, as an explicit state machine.
//!
//! Some families only reveal their protocol variant through a live probe:
//! subscribe to the notification channel, write an identification request,
//! take the first stream event, unsubscribe, and parse a variant token from
//! the payload. The decisions live here as a pure step function from state
//! and input to next state and action; the caller owns the transport work
//! each action names and feeds the outcome back in.

use vstd::prelude::*;
use crate::messages::ButtplugDeviceEvent;

verus! {

/// Where the handshake stands.
#[derive(Debug)]
pub enum HandshakeState {
    /// Subscription to the notification channel is in flight.
    AwaitingSubscribeAck,
    /// The identification request is out; the first stream event decides.
    AwaitingIdentResponse,
    /// A variant token was parsed from the identification response.
    Resolved(Vec<u8>),
    /// The device is unusable: no or invalid identification response, or it
    /// was removed mid-probe.
    Failed,
}

/// What the transport reported back.
#[derive(Debug)]
pub enum HandshakeInput {
    /// The subscription took hold.
    SubscribeAck,
    /// The notification stream yielded an event.
    Event(ButtplugDeviceEvent),
    /// The notification stream ended without an event.
    StreamEnded,
    /// A subscribe or write failed.
    TransportFailed,
}

/// What the caller must do next.
#[derive(Clone, Copy, Debug, PartialEq, Eq, Structural)]
pub enum HandshakeAction {
    /// Write [`ident_request_bytes`] and wait for the first stream event.
    SendIdentRequest,
    /// Drop the notification subscription; the handshake is resolved.
    Unsubscribe,
    /// Give up; the handshake failed.
    Abort,
    /// Nothing; the handshake already ended.
    Idle,
}

/// The identifier is everything before the first `:` of the response
/// payload (or the whole payload, if it has none).
pub open spec fn ident_prefix(data: Seq<u8>) -> Seq<u8>
    decreases data.len(),
{
    if data.len() == 0 {
        Seq::empty()
    } else if data[0] == 58 {
        Seq::empty()
    } else {
        seq![data[0]] + ident_prefix(data.skip(1))
    }
}

proof fn lemma_ident_prefix_take(data: Seq<u8>, i: int)
    requires
        0 <= i <= data.len(),
        forall|j: int| 0 <= j < i ==> data[j] != 58,
        i == data.len() || data[i] == 58,
    ensures
        ident_prefix(data) == data.take(i),
    decreases i,
{
    if i == 0 {
        assert(ident_prefix(data) =~= data.take(0));
    } else {
        let rest = data.skip(1);
        assert(forall|j: int| 0 <= j < i - 1 ==> rest[j] != 58);
        lemma_ident_prefix_take(rest, i - 1);
        assert(ident_prefix(data) == seq![data[0]] + rest.take(i - 1));
        assert(seq![data[0]] + rest.take(i - 1) =~= data.take(i));
    }
}

/// Parse the variant token out of an identification response.
pub fn extract_identifier(data: &Vec<u8>) -> (r: Vec<u8>)
    ensures
        r@ == ident_prefix(data@),
{
    let mut out: Vec<u8> = Vec::new();
    let n = data.len();
    let mut i: usize = 0;
    while i < n
        invariant
            n == data@.len(),
            0 <= i <= n,
            out@ == data@.take(i as int),
            forall|j: int| 0 <= j < i ==> data@[j] != 58,
        decreases n - i,
    {
        if data[i] == 58 {
            proof {
                lemma_ident_prefix_take(data@, i as int);
            }
            return out;
        }
        out.push(data[i]);
        proof {
            assert(out@ =~= data@.take(i + 1 as int));
        }
        i += 1;
    }
    proof {
        lemma_ident_prefix_take(data@, data@.len() as int);
    }
    out
}

/// `DeviceType;` — the identification request some families answer.
pub open spec fn ident_request() -> Seq<u8> {
    seq![68u8, 101u8, 118u8, 105u8, 99u8, 101u8, 84u8, 121u8, 112u8, 101u8, 59u8]
}

/// The identification request as wire bytes.
pub fn ident_request_bytes() -> (r: Vec<u8>)
    ensures
        r@ == ident_request(),
{
    let mut v: Vec<u8> = Vec::new();
    v.push(68);
    v.push(101);
    v.push(118);
    v.push(105);
    v.push(99);
    v.push(101);
    v.push(84);
    v.push(121);
    v.push(112);
    v.push(101);
    v.push(59);
    proof {
        assert(v@ =~= ident_request());
    }
    v
}

/// One step of the handshake: wholly determined by the current state and
/// the input. A notification resolves the handshake to the parsed token; a
/// removal, an exhausted stream or a transport failure fails it for good.
pub fn handshake_step(state: HandshakeState, input: HandshakeInput)
    -> (r: (HandshakeState, HandshakeAction))
    ensures
        state is AwaitingSubscribeAck && input is SubscribeAck
            ==> (r.0 is AwaitingIdentResponse && r.1 == HandshakeAction::SendIdentRequest),
        state is AwaitingSubscribeAck && !(input is SubscribeAck)
            ==> (r.0 is Failed && r.1 == HandshakeAction::Abort),
        state is AwaitingIdentResponse ==> ({
            &&& input matches HandshakeInput::Event(ButtplugDeviceEvent::Notification(_, data))
                ==> (r.0 matches HandshakeState::Resolved(id) && id@ == ident_prefix(data@)
                    && r.1 == HandshakeAction::Unsubscribe)
            &&& input matches HandshakeInput::Event(ButtplugDeviceEvent::Removed)
                ==> (r.0 is Failed && r.1 == HandshakeAction::Abort)
            &&& input is StreamEnded ==> (r.0 is Failed && r.1 == HandshakeAction::Abort)
            &&& input is TransportFailed ==> (r.0 is Failed && r.1 == HandshakeAction::Abort)
            &&& input is SubscribeAck ==> (r.0 is Failed && r.1 == HandshakeAction::Abort)
        }),
        state matches HandshakeState::Resolved(id)
            ==> (r.0 matches HandshakeState::Resolved(id2) && id2@ == id@
                && r.1 == HandshakeAction::Idle),
        state is Failed ==> (r.0 is Failed && r.1 == HandshakeAction::Idle),
{
    match state {
        HandshakeState::AwaitingSubscribeAck => {
            match input {
                HandshakeInput::SubscribeAck => (
                    HandshakeState::AwaitingIdentResponse,
                    HandshakeAction::SendIdentRequest,
                ),
                _ => (HandshakeState::Failed, HandshakeAction::Abort),
            }
        },
        HandshakeState::AwaitingIdentResponse => {
            match input {
                HandshakeInput::Event(ButtplugDeviceEvent::Notification(_, data)) => {
                    let identifier = extract_identifier(&data);
                    (HandshakeState::Resolved(identifier), HandshakeAction::Unsubscribe)
                },
                _ => (HandshakeState::Failed, HandshakeAction::Abort),
            }
        },
        HandshakeState::Resolved(id) => (HandshakeState::Resolved(id), HandshakeAction::Idle),
        HandshakeState::Failed => (HandshakeState::Failed, HandshakeAction::Idle),
    }
}

} // verus!
