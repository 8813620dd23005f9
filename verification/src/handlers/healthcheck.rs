//! The health check: a message that begins with `ping` is answered `pong`.

use vstd::prelude::*;
use crate::handlers::{Effect, EffectView, Event, EventView, Step, conclude, conclusion, unexpected, unexpected_event};
use crate::telegram_api::{Message, MessageView, reply_to};
use crate::text::starts_with;

verus! {

/// Where the health check stands with a message.
#[derive(Clone, Copy, Debug, PartialEq, Eq, Structural)]
pub enum HealthCheckState {
    /// The answer is on its way.
    Replying,
    /// Nothing is left to do.
    Finished,
}

#[derive(Clone, Copy, Debug, PartialEq, Eq, Structural)]
pub struct HealthCheckHandler {}

/// Whether the health check reacts to a message: its text begins with `ping`.
pub open spec fn healthcheck_trigger(m: MessageView) -> bool {
    m.text matches Some(t) && "ping"@.is_prefix_of(t)
}

/// The first step of the health check on a message.
pub open spec fn healthcheck_start(m: MessageView) -> (HealthCheckState, EffectView) {
    if healthcheck_trigger(m) {
        (HealthCheckState::Replying, EffectView::SendText(reply_to(m, "pong"@)))
    } else {
        (HealthCheckState::Finished, EffectView::Finish)
    }
}

/// The step of the health check from a state on an event: once the answer is
/// sent nothing is left, and a handling that has ended accepts no event.
pub open spec fn healthcheck_resume(state: HealthCheckState, event: EventView) -> (
    HealthCheckState,
    EffectView,
) {
    match state {
        HealthCheckState::Replying => (HealthCheckState::Finished, conclusion(event)),
        HealthCheckState::Finished => (
            HealthCheckState::Finished,
            EffectView::Fail(unexpected_event()),
        ),
    }
}

impl HealthCheckHandler {
    pub fn new() -> (r: HealthCheckHandler) {
        HealthCheckHandler {  }
    }

    pub fn name(&self) -> (r: String)
        ensures
            r@ == "HealthCheck"@,
    {
        String::from_str("HealthCheck")
    }

    /// Looks at a message and says what to do first.
    pub fn process(&self, m: &Message) -> (r: Step<HealthCheckState>)
        ensures
            (r.state, r.effect@) == healthcheck_start(m@),
    {
        match &m.text {
            Some(t) => {
                if starts_with(t.as_str(), "ping") {
                    return Step {
                        state: HealthCheckState::Replying,
                        effect: Effect::SendText(m.reply(String::from_str("pong"))),
                    };
                }
            },
            None => {},
        }
        Step { state: HealthCheckState::Finished, effect: Effect::Finish }
    }

    /// Takes the report of the last effect and says what to do next.
    pub fn resume(&self, state: HealthCheckState, event: Event) -> (r: Step<HealthCheckState>)
        ensures
            (r.state, r.effect@) == healthcheck_resume(state, event@),
    {
        match state {
            HealthCheckState::Replying => Step {
                state: HealthCheckState::Finished,
                effect: conclude(event),
            },
            HealthCheckState::Finished => Step {
                state: HealthCheckState::Finished,
                effect: Effect::Fail(unexpected()),
            },
        }
    }
}

} // verus!
