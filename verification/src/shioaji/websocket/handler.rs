//! The decisions of the background task that runs the gateway WebSocket.
//!
//! The task waits on two sources at once: frames from the gateway and
//! commands from the client. Each event is decided here; the task performs
//! the action and goes on until an action stops it.

use vstd::prelude::*;

use crate::shioaji::websocket::messages::{spec_subscribe_json, subscribe_json};

verus! {

/// A command sent from the client to the background task.
#[derive(Debug, Clone)]
pub enum WsCommand {
    Subscribe { code: String, quote_type: String },
    Unsubscribe { code: String, quote_type: String },
    Close,
}

/// What the background task observed.
#[derive(Debug, Clone)]
pub enum HandlerEvent {
    /// A text frame; `decoded` tells whether it decoded as a gateway message.
    Text { decoded: bool },
    /// A close frame.
    CloseFrame,
    /// A ping frame.
    Ping,
    /// Any other frame (binary, pong, raw).
    OtherFrame,
    /// The stream reported an error.
    StreamError,
    /// The stream ended.
    StreamEnded,
    /// A command from the client.
    Command(WsCommand),
    /// The client dropped its command channel.
    CommandsClosed,
}

/// What the background task does next.
#[derive(Debug, Clone)]
pub enum HandlerAction {
    /// Hand the decoded message to the client; stop if the client is gone.
    Forward,
    /// Log the frame that did not decode and go on.
    SkipUndecodable,
    /// Ignore the frame and go on.
    Ignore,
    /// Answer with a pong carrying the ping's payload; stop if that fails.
    SendPong,
    /// Send this text frame; stop if that fails.
    SendText(String),
    /// Send a close frame, then stop.
    CloseAndStop,
    /// Stop.
    Stop,
}

/// The action the background task takes on an event.
pub open spec fn spec_handler_step(event: HandlerEvent) -> HandlerAction {
    match event {
        HandlerEvent::Text { decoded } => if decoded {
            HandlerAction::Forward
        } else {
            HandlerAction::SkipUndecodable
        },
        HandlerEvent::CloseFrame => HandlerAction::Stop,
        HandlerEvent::Ping => HandlerAction::SendPong,
        HandlerEvent::OtherFrame => HandlerAction::Ignore,
        HandlerEvent::StreamError => HandlerAction::Stop,
        HandlerEvent::StreamEnded => HandlerAction::Stop,
        HandlerEvent::Command(WsCommand::Close) => HandlerAction::CloseAndStop,
        HandlerEvent::CommandsClosed => HandlerAction::CloseAndStop,
        HandlerEvent::Command(_) => HandlerAction::SendText(arbitrary()),
    }
}

/// Decides what to do with an event. Subscribe and unsubscribe commands are
/// sent as the JSON command text of the gateway.
pub fn handler_step(event: HandlerEvent) -> (a: HandlerAction)
    ensures
        a matches HandlerAction::SendText(_) ==> spec_handler_step(event) is SendText,
        !(a is SendText) ==> a == spec_handler_step(event),
        event matches HandlerEvent::Command(WsCommand::Subscribe { code, quote_type }) ==> (a matches HandlerAction::SendText(t) && t@ == spec_subscribe_json("subscribe"@, code@, quote_type@)),
        event matches HandlerEvent::Command(WsCommand::Unsubscribe { code, quote_type }) ==> (a matches HandlerAction::SendText(t) && t@ == spec_subscribe_json("unsubscribe"@, code@, quote_type@)),
{
    match event {
        HandlerEvent::Text { decoded } => if decoded {
            HandlerAction::Forward
        } else {
            HandlerAction::SkipUndecodable
        },
        HandlerEvent::CloseFrame => HandlerAction::Stop,
        HandlerEvent::Ping => HandlerAction::SendPong,
        HandlerEvent::OtherFrame => HandlerAction::Ignore,
        HandlerEvent::StreamError => HandlerAction::Stop,
        HandlerEvent::StreamEnded => HandlerAction::Stop,
        HandlerEvent::Command(WsCommand::Subscribe { code, quote_type }) => HandlerAction::SendText(
            subscribe_json("subscribe", code.as_str(), quote_type.as_str()),
        ),
        HandlerEvent::Command(WsCommand::Unsubscribe { code, quote_type }) => HandlerAction::SendText(
            subscribe_json("unsubscribe", code.as_str(), quote_type.as_str()),
        ),
        HandlerEvent::Command(WsCommand::Close) => HandlerAction::CloseAndStop,
        HandlerEvent::CommandsClosed => HandlerAction::CloseAndStop,
    }
}

/// Whether an action ends the task (before any I/O failure is considered).
pub open spec fn spec_action_stops(a: HandlerAction) -> bool {
    a is CloseAndStop || a is Stop
}

/// The task only stops on a close frame, a stream error or end, a close
/// command, or the loss of the command channel; every gateway message that
/// decodes is handed to the client.
pub proof fn lemma_handler_stops_only_on_close_or_failure(event: HandlerEvent)
    ensures
        spec_action_stops(spec_handler_step(event)) <==> (event is CloseFrame || event is StreamError
            || event is StreamEnded || event is CommandsClosed || event matches HandlerEvent::Command(
            WsCommand::Close,
        )),
        event matches HandlerEvent::Text { decoded } && decoded ==> spec_handler_step(event) is Forward,
{
}

/// The actions the task takes on a run of events: one per event, up to and
/// including the first action that ends the task.
pub open spec fn spec_handler_run(events: Seq<HandlerEvent>) -> Seq<HandlerAction>
    decreases events.len(),
{
    if events.len() == 0 {
        Seq::empty()
    } else {
        let a = spec_handler_step(events[0]);
        if spec_action_stops(a) {
            seq![a]
        } else {
            seq![a] + spec_handler_run(events.drop_first())
        }
    }
}

/// Over a run of events, the task acts on each event in arrival order until
/// the first stopping event (a close frame, a stream error or end, a close
/// command or the loss of the command channel), and on none after it; every
/// text frame that decodes before then is forwarded, in the order it came.
pub proof fn lemma_handler_run(events: Seq<HandlerEvent>)
    ensures
        spec_handler_run(events).len() <= events.len(),
        forall|i: int|
            0 <= i < spec_handler_run(events).len() ==> #[trigger] spec_handler_run(events)[i]
                == spec_handler_step(events[i]),
        forall|i: int|
            0 <= i < spec_handler_run(events).len() - 1 ==> !spec_action_stops(
                #[trigger] spec_handler_run(events)[i],
            ),
        spec_handler_run(events).len() < events.len() ==> spec_handler_run(events).len() > 0
            && spec_action_stops(spec_handler_run(events).last()),
        forall|i: int|
            0 <= i < spec_handler_run(events).len() && (#[trigger] events[i] matches HandlerEvent::Text {
                decoded,
            } && decoded) ==> spec_handler_run(events)[i] is Forward,
    decreases events.len(),
{
    if events.len() > 0 {
        let a = spec_handler_step(events[0]);
        if !spec_action_stops(a) {
            let rest = events.drop_first();
            lemma_handler_run(rest);
            let r = spec_handler_run(events);
            assert(r == seq![a] + spec_handler_run(rest));
            assert forall|i: int| 0 < i < r.len() implies r[i] == spec_handler_run(rest)[i - 1]
                && events[i] == rest[i - 1] by {}
        }
    }
}

} // verus!
