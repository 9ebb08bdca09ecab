//! The per-connection reactor: one step from the session's state and the
//! first ready event to the next state and the action to carry out.
use vstd::prelude::*;
use crate::buttons::PressCounts;
use crate::update::UpdateEvent;

verus! {

/// Sampling period, in seconds, at the start of every session.
pub const DEFAULT_INTERVAL_SECS: u64 = 5;

/// An event from one of the session's three sources.
#[derive(Clone, Debug, PartialEq, Eq)]
pub enum SessionEvent {
    /// The peer turned notifications of the sampled value on or off.
    SampleSubscription { enabled: bool },
    /// The peer wrote a new sampling period, in seconds.
    IntervalWrite { seconds: i32 },
    /// The peer sent a firmware update event.
    Update(UpdateEvent),
    /// The peer turned notifications of the press counts on or off.
    PressSubscription { enabled: bool },
    /// The protocol stream ended: disconnect or protocol fault.
    StreamClosed,
    /// The sample ticker fired; the sensor read `celsius`.
    Tick { celsius: i8 },
    /// The input aggregator published new counts.
    Presses(PressCounts),
    /// A write or notify to the transport failed.
    WriteFailed,
}

/// What the session's driver does after a step.
#[derive(Clone, Debug, PartialEq, Eq)]
pub enum SessionAction {
    Nothing,
    /// Drop the current ticker and start one with this period.
    RestartTicker { seconds: u64 },
    /// Queue the event for the update coordinator without waiting; drop it if
    /// the queue is full.
    Forward(UpdateEvent),
    /// Store the sample (tenths of a degree) and, when `notify`, push it.
    PublishSample { value: i16, notify: bool },
    /// Push the press counts to the peer.
    NotifyPresses(PressCounts),
    /// End the session.
    End,
}

/// Per-connection state, owned by the session alone.
#[derive(Clone, Copy, Debug, PartialEq, Eq, Structural)]
pub struct Session {
    pub notify_samples: bool,
    pub notify_presses: bool,
    pub interval_secs: u64,
}

/// Stored form of a sample: tenths of a degree.
pub open spec fn sample_value(celsius: i8) -> int {
    celsius as int * 10
}

impl Session {
    /// Next state and action for `ev`. A non-positive period is rejected: no
    /// state change, no action.
    pub open spec fn step(self, ev: SessionEvent) -> (Session, SessionAction) {
        match ev {
            SessionEvent::SampleSubscription { enabled } => (
                Session { notify_samples: enabled, ..self },
                SessionAction::Nothing,
            ),
            SessionEvent::IntervalWrite { seconds } => {
                if seconds <= 0 {
                    (self, SessionAction::Nothing)
                } else {
                    (
                        Session { interval_secs: seconds as u64, ..self },
                        SessionAction::RestartTicker { seconds: seconds as u64 },
                    )
                }
            },
            SessionEvent::Update(u) => (self, SessionAction::Forward(u)),
            SessionEvent::PressSubscription { enabled } => (
                Session { notify_presses: enabled, ..self },
                SessionAction::Nothing,
            ),
            SessionEvent::StreamClosed => (self, SessionAction::End),
            SessionEvent::Tick { celsius } => (
                self,
                SessionAction::PublishSample {
                    value: sample_value(celsius) as i16,
                    notify: self.notify_samples,
                },
            ),
            SessionEvent::Presses(p) => {
                if self.notify_presses {
                    (self, SessionAction::NotifyPresses(p))
                } else {
                    (self, SessionAction::Nothing)
                }
            },
            SessionEvent::WriteFailed => (self, SessionAction::End),
        }
    }

    /// A fresh session: no subscriptions, default sampling period.
    pub fn new() -> (r: Session)
        ensures
            !r.notify_samples,
            !r.notify_presses,
            r.interval_secs == DEFAULT_INTERVAL_SECS,
    {
        Session { notify_samples: false, notify_presses: false, interval_secs: DEFAULT_INTERVAL_SECS }
    }

    /// Handles one event and returns what the driver must do.
    pub fn handle(&mut self, ev: SessionEvent) -> (action: SessionAction)
        ensures
            (*final(self), action) == old(self).step(ev),
    {
        match ev {
            SessionEvent::SampleSubscription { enabled } => {
                self.notify_samples = enabled;
                SessionAction::Nothing
            },
            SessionEvent::IntervalWrite { seconds } => {
                if seconds <= 0 {
                    SessionAction::Nothing
                } else {
                    self.interval_secs = seconds as u64;
                    SessionAction::RestartTicker { seconds: seconds as u64 }
                }
            },
            SessionEvent::Update(u) => SessionAction::Forward(u),
            SessionEvent::PressSubscription { enabled } => {
                self.notify_presses = enabled;
                SessionAction::Nothing
            },
            SessionEvent::StreamClosed => SessionAction::End,
            SessionEvent::Tick { celsius } => {
                let value = celsius as i16 * 10;
                SessionAction::PublishSample { value, notify: self.notify_samples }
            },
            SessionEvent::Presses(p) => {
                if self.notify_presses {
                    SessionAction::NotifyPresses(p)
                } else {
                    SessionAction::Nothing
                }
            },
            SessionEvent::WriteFailed => SessionAction::End,
        }
    }
}

} // verus!
