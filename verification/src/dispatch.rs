//! What the connection owner has to do for each thing the transport reports.

use vstd::prelude::*;
use crate::decoder::{outcome, parse_msg, parse_msg_spec, text_model, DecodeError, DecodeErrorModel};
use crate::json::json_parse;
use crate::models::{EventModel, WsDataEvent};

verus! {

/// A frame as the transport delivers it.
#[derive(Clone, Debug, PartialEq, Eq)]
pub enum RawFrame {
    Text(String),
    LivenessProbe,
    LivenessReply,
    Binary(Vec<u8>),
    Close(Option<String>),
}

/// What the transport reports: a change of the connection, or a frame.
#[derive(Clone, Debug, PartialEq, Eq)]
pub enum TransportEvent {
    Connected,
    Disconnected,
    Frame(RawFrame),
}

/// A frame that this side sends.
#[derive(Clone, Copy, Debug, PartialEq, Eq, Structural)]
pub enum OutboundFrame {
    LivenessProbe,
    LivenessReply,
}

/// The one thing to do for a transport event.
#[derive(Clone, Debug, PartialEq, Eq)]
pub enum DispatchAction {
    /// Hand the event to the consumer.
    Forward(WsDataEvent),
    /// Send the frame on the connection that the event came from.
    Send(OutboundFrame),
    /// Do nothing.
    Ignore,
    /// Log the failure with the frame's text, then tell the connection to
    /// disconnect.
    Terminate(DecodeError),
    /// Log that the exchange closed the connection; send nothing.
    NoteClose(Option<String>),
    /// Log that the connection stands, then tell the consumer.
    NotifyConnected,
    /// Tell the consumer that the connection is lost.
    NotifyDisconnected,
}

/// What a `DispatchAction` holds.
pub enum ActionModel {
    Forward(EventModel),
    Send(OutboundFrame),
    Ignore,
    Terminate(DecodeErrorModel),
    NoteClose(Option<Seq<char>>),
    NotifyConnected,
    NotifyDisconnected,
}

impl View for DispatchAction {
    type V = ActionModel;

    open spec fn view(&self) -> ActionModel {
        match self {
            DispatchAction::Forward(event) => ActionModel::Forward(event@),
            DispatchAction::Send(frame) => ActionModel::Send(*frame),
            DispatchAction::Ignore => ActionModel::Ignore,
            DispatchAction::Terminate(error) => ActionModel::Terminate(error@),
            DispatchAction::NoteClose(reason) => ActionModel::NoteClose(text_model(*reason)),
            DispatchAction::NotifyConnected => ActionModel::NotifyConnected,
            DispatchAction::NotifyDisconnected => ActionModel::NotifyDisconnected,
        }
    }
}

/// The events that an action hands to the consumer.
pub open spec fn forwarded(action: ActionModel) -> Seq<EventModel> {
    match action {
        ActionModel::Forward(event) => seq![event],
        _ => Seq::empty(),
    }
}

/// The frames that an action sends.
pub open spec fn sent(action: ActionModel) -> Seq<OutboundFrame> {
    match action {
        ActionModel::Send(frame) => seq![frame],
        _ => Seq::empty(),
    }
}

/// How many commands to disconnect an action gives.
pub open spec fn terminations(action: ActionModel) -> nat {
    match action {
        ActionModel::Terminate(_) => 1,
        _ => 0,
    }
}

/// How many log records an action writes.
pub open spec fn diagnostics(action: ActionModel) -> nat {
    match action {
        ActionModel::Terminate(_) => 1,
        ActionModel::NoteClose(_) => 1,
        ActionModel::NotifyConnected => 1,
        _ => 0,
    }
}

/// How many calls of the consumer an action makes, of any kind.
pub open spec fn consumer_calls(action: ActionModel) -> nat {
    match action {
        ActionModel::Forward(_) => 1,
        ActionModel::NotifyConnected => 1,
        ActionModel::NotifyDisconnected => 1,
        _ => 0,
    }
}

/// The action for a decoded text frame: an event is forwarded, a failure
/// of either kind ends the connection.
pub open spec fn after_decode(result: Result<EventModel, DecodeErrorModel>) -> ActionModel {
    match result {
        Ok(event) => ActionModel::Forward(event),
        Err(error) => ActionModel::Terminate(error),
    }
}

/// The action for a frame.
pub open spec fn dispatch_spec(frame: RawFrame) -> ActionModel {
    match frame {
        RawFrame::Text(text) => after_decode(parse_msg_spec(text@)),
        RawFrame::LivenessProbe => ActionModel::Send(OutboundFrame::LivenessReply),
        RawFrame::LivenessReply => ActionModel::Ignore,
        RawFrame::Binary(_) => ActionModel::Ignore,
        RawFrame::Close(reason) => ActionModel::NoteClose(text_model(reason)),
    }
}

/// The action for a transport event.
pub open spec fn react_spec(event: TransportEvent) -> ActionModel {
    match event {
        TransportEvent::Connected => ActionModel::NotifyConnected,
        TransportEvent::Disconnected => ActionModel::NotifyDisconnected,
        TransportEvent::Frame(frame) => dispatch_spec(frame),
    }
}

/// The frame to send as soon as a connection stands.
pub fn opening_frame() -> (frame: OutboundFrame)
    ensures
        frame == OutboundFrame::LivenessProbe,
{
    OutboundFrame::LivenessProbe
}

/// Decides what follows the decoding of a text frame.
pub fn on_decoded(result: Result<WsDataEvent, DecodeError>) -> (action: DispatchAction)
    ensures
        action@ == after_decode(outcome(result)),
{
    match result {
        Ok(event) => DispatchAction::Forward(event),
        Err(error) => DispatchAction::Terminate(error),
    }
}

/// Decides what to do for an inbound frame.
pub fn dispatch(frame: RawFrame) -> (action: DispatchAction)
    ensures
        action@ == dispatch_spec(frame),
{
    match frame {
        RawFrame::Text(text) => on_decoded(parse_msg(text.as_str())),
        RawFrame::LivenessProbe => DispatchAction::Send(OutboundFrame::LivenessReply),
        RawFrame::LivenessReply => DispatchAction::Ignore,
        RawFrame::Binary(_) => DispatchAction::Ignore,
        RawFrame::Close(reason) => DispatchAction::NoteClose(reason),
    }
}

/// Decides what to do for a transport event.
pub fn react(event: TransportEvent) -> (action: DispatchAction)
    ensures
        action@ == react_spec(event),
{
    match event {
        TransportEvent::Connected => DispatchAction::NotifyConnected,
        TransportEvent::Disconnected => DispatchAction::NotifyDisconnected,
        TransportEvent::Frame(frame) => dispatch(frame),
    }
}

/// A text frame that is no JSON document ends the connection: one command
/// to disconnect, one log record that carries the frame's text, and nothing
/// for the consumer.
pub proof fn lemma_invalid_text_terminates(text: String)
    requires
        json_parse(text@) is None,
    ensures
        dispatch_spec(RawFrame::Text(text)) == ActionModel::Terminate(
            DecodeErrorModel::Malformed(text@),
        ),
        terminations(dispatch_spec(RawFrame::Text(text))) == 1,
        diagnostics(dispatch_spec(RawFrame::Text(text))) == 1,
        forwarded(dispatch_spec(RawFrame::Text(text))).len() == 0,
        sent(dispatch_spec(RawFrame::Text(text))).len() == 0,
{
}

/// A text frame that does not decode, for whatever reason, ends the
/// connection and reaches the consumer in no way; one that decodes is
/// forwarded and nothing else happens.
pub proof fn lemma_text_fails_fast(text: String)
    ensures
        parse_msg_spec(text@) is Err ==> {
            &&& terminations(dispatch_spec(RawFrame::Text(text))) == 1
            &&& diagnostics(dispatch_spec(RawFrame::Text(text))) == 1
            &&& consumer_calls(dispatch_spec(RawFrame::Text(text))) == 0
        },
        parse_msg_spec(text@) matches Ok(event) ==> {
            &&& forwarded(dispatch_spec(RawFrame::Text(text))) == seq![event]
            &&& terminations(dispatch_spec(RawFrame::Text(text))) == 0
        },
{
}

/// A liveness probe is answered by exactly one liveness reply, and the
/// consumer hears nothing of it.
pub proof fn lemma_probe_is_echoed()
    ensures
        sent(dispatch_spec(RawFrame::LivenessProbe)) == seq![OutboundFrame::LivenessReply],
        consumer_calls(dispatch_spec(RawFrame::LivenessProbe)) == 0,
        terminations(dispatch_spec(RawFrame::LivenessProbe)) == 0,
{
}

} // verus!
