//! The heartbeat that keeps a socket open.
use crate::clock::{get_time, is_time_numeral};
use crate::error::APIError;
use crate::text::{decimal, decimal_string, is_numeral};
use vstd::prelude::*;

verus! {

/// The seconds between two pings.
pub const HEARTBEAT_SECONDS: u64 = 30;

/// A message that consists of an id and a type.
#[derive(Debug)]
pub struct DefaultMsg {
    pub id: String,
    pub msg_type: String,
}

/// What happened to the heartbeat.
pub enum HeartbeatEvent {
    /// It was started.
    Started,
    /// The sleep is over.
    Woke,
    /// The ping went out, or failed to.
    Sent(Result<(), APIError>),
}

/// What the heartbeat does next.
pub enum HeartbeatAction {
    /// Sleep for so many seconds.
    Sleep(u64),
    /// Send this ping.
    Send(DefaultMsg),
    /// End.
    Stop,
}

impl DefaultMsg {
    /// The ping with the time as its id.
    pub fn ping(time: u128) -> (ping: DefaultMsg)
        ensures
            ping.id@ == decimal(time as nat),
            ping.msg_type@ == "ping"@,
    {
        DefaultMsg { id: decimal_string(time), msg_type: String::from_str("ping") }
    }
}

/// The action that an event calls for: a ping after each sleep, a sleep after
/// the start and after each ping, and an end once the websocket fails.
pub open spec fn beats(event: HeartbeatEvent, action: HeartbeatAction) -> bool {
    match event {
        HeartbeatEvent::Started => action == HeartbeatAction::Sleep(HEARTBEAT_SECONDS),
        HeartbeatEvent::Woke => {
            &&& action is Send
            &&& action->Send_0.msg_type@ == "ping"@
            &&& is_numeral(action->Send_0.id@)
            &&& is_time_numeral(action->Send_0.id@)
        },
        HeartbeatEvent::Sent(Err(APIError::Websocket(_))) => action is Stop,
        HeartbeatEvent::Sent(_) => action == HeartbeatAction::Sleep(HEARTBEAT_SECONDS),
    }
}

/// Says what the heartbeat does after an event.
pub fn heartbeat(event: HeartbeatEvent) -> (action: HeartbeatAction)
    ensures
        beats(event, action),
{
    match event {
        HeartbeatEvent::Started => HeartbeatAction::Sleep(HEARTBEAT_SECONDS),
        HeartbeatEvent::Woke => HeartbeatAction::Send(DefaultMsg::ping(get_time())),
        HeartbeatEvent::Sent(Ok(_)) => HeartbeatAction::Sleep(HEARTBEAT_SECONDS),
        HeartbeatEvent::Sent(Err(error)) => match error {
            APIError::Websocket(_) => HeartbeatAction::Stop,
            _ => HeartbeatAction::Sleep(HEARTBEAT_SECONDS),
        },
    }
}

} // verus!
