//! The control loop's decisions: what one drained broker event means, when
//! connectivity recovery is due, and what one presence reading makes the
//! reporter publish.
//!
//! The application runs the fixed-period tick loop and performs the actions
//! (subscribe, calibrate, reset, publish); every decision is taken here.

use vstd::prelude::*;
use crate::command::CommandKind;
use crate::command::parse_command;
use crate::config::state_topic_chars;
use crate::connectivity::ConnectivityMonitor;
use crate::connectivity::attempt_due;
use crate::connectivity::attempted;
use crate::connectivity::observed;
use crate::events::MqttEvent;
use crate::report::OutMessage;
use crate::report::Reporter;
use crate::report::should_publish;
use crate::report::state_payload_chars;
use crate::sensors::PresenceData;

verus! {

/// What the loop must do with one drained broker event.
#[derive(Debug, Clone, Copy, PartialEq, Eq, Structural)]
pub enum EventAction {
    /// Re-subscribe to the command topic (subscriptions do not survive a
    /// transport reconnect).
    SubscribeCommands,
    /// Trigger the sensor's calibration scan, fire-and-forget.
    StartCalibration,
    /// Perform an unconditional process reset.
    Restart,
    /// Nothing to do beyond logging.
    Ignore,
}

/// The action a command payload stands for.
pub open spec fn command_action(text: Seq<char>) -> EventAction {
    if text == "calibrate"@ {
        EventAction::StartCalibration
    } else if text == "restart"@ {
        EventAction::Restart
    } else {
        EventAction::Ignore
    }
}

/// The action one broker event stands for: a connection is answered with a
/// (re)subscription when reporting is up at all, a disconnection is only
/// noted, and a command is dispatched by its exact text.
pub open spec fn event_action(reporting: bool, event: MqttEvent) -> EventAction {
    match event {
        MqttEvent::Connected => if reporting {
            EventAction::SubscribeCommands
        } else {
            EventAction::Ignore
        },
        MqttEvent::Disconnected => EventAction::Ignore,
        MqttEvent::Command(text) => command_action(text@),
    }
}

/// The orchestrator's own state: the connectivity monitor and, when startup
/// managed to bring the transport up, the state reporter. Reporting is
/// best-effort and may be absent; sensing always runs.
pub struct Orchestrator {
    pub monitor: ConnectivityMonitor,
    pub reporter: Option<Reporter>,
}

impl Orchestrator {
    pub fn new(monitor: ConnectivityMonitor, reporter: Option<Reporter>) -> (r: Orchestrator)
        ensures
            r.monitor == monitor,
            r.reporter == reporter,
    {
        Orchestrator { monitor, reporter }
    }

    /// Decides what one drained broker event requires of the loop.
    pub fn handle_event(&self, event: &MqttEvent) -> (a: EventAction)
        ensures
            a == event_action(self.reporter is Some, *event),
    {
        match event {
            MqttEvent::Connected => {
                if self.reporter.is_some() {
                    EventAction::SubscribeCommands
                } else {
                    EventAction::Ignore
                }
            },
            MqttEvent::Disconnected => EventAction::Ignore,
            MqttEvent::Command(text) => {
                match parse_command(text.as_str()) {
                    CommandKind::Calibrate => EventAction::StartCalibration,
                    CommandKind::Restart => EventAction::Restart,
                    CommandKind::Unknown(_) => EventAction::Ignore,
                }
            },
        }
    }

    /// Feeds this tick's link observation into the monitor; true means a
    /// full reconnect attempt is due now.
    pub fn check_connectivity(&mut self, link_up: bool, now: u64) -> (attempt: bool)
        ensures
            final(self).monitor == observed(old(self).monitor, link_up, now),
            final(self).reporter == old(self).reporter,
            attempt == attempt_due(old(self).monitor, link_up, now),
    {
        self.monitor.observe(link_up, now)
    }

    /// Records how the reconnect attempt ended.
    pub fn reconnect_outcome(&mut self, ok: bool, now: u64)
        ensures
            final(self).monitor == attempted(old(self).monitor, ok, now),
            final(self).reporter == old(self).reporter,
    {
        self.monitor.reconnect_result(ok, now);
    }

    /// Decides what one presence reading requires: nothing while reporting
    /// is absent or the reading equals the last published state, otherwise
    /// the exact state message to publish.
    pub fn handle_reading(&self, data: &PresenceData) -> (r: Option<OutMessage>)
        ensures
            self.reporter is None ==> r is None,
            self.reporter matches Some(rep) ==> {
                &&& r is Some <==> should_publish(rep.last_report, *data)
                &&& r matches Some(m) ==> m.topic@ == state_topic_chars(
                    rep.config.program_name@,
                    rep.config.client_id@,
                ) && m.payload@ == state_payload_chars(*data)
            },
    {
        match &self.reporter {
            Some(rep) => rep.report(data),
            None => None,
        }
    }

    /// Records that this reading's state message was published successfully.
    pub fn reading_published(&mut self, data: &PresenceData)
        ensures
            final(self).monitor == old(self).monitor,
            old(self).reporter is None ==> final(self).reporter == old(self).reporter,
            old(self).reporter matches Some(rep) ==> final(self).reporter matches Some(r2)
                && r2.config == rep.config && r2.last_report == Some(*data),
    {
        match &mut self.reporter {
            Some(rep) => rep.mark_reported(data),
            None => {},
        }
    }
}

} // verus!
