//! The state reporter: the dedup gate in front of state publishes, the exact
//! state payload, and the discovery descriptors that let a hub auto-create
//! entities for this device.
//!
//! The transport publish itself happens at the application edge. `report`
//! decides and formats; only after the application has published successfully
//! does it call `mark_reported`, so a failed publish can never poison the
//! dedup cache.

use vstd::prelude::*;
use vstd::string::StringExecFns;
use crate::config::Config;
use crate::config::command_topic_chars;
use crate::config::state_topic_chars;
use crate::sensors::PresenceData;
use crate::text::append_bool;
use crate::text::append_u16;
use crate::text::bool_chars;
use crate::text::dec_chars;
use crate::text::spaced_chars;
use crate::text::underscores_to_spaces;

verus! {

/// One message bound for the broker: a topic and its payload.
#[derive(Debug, Clone)]
pub struct OutMessage {
    pub topic: String,
    pub payload: String,
}

/// The JSON state body: `{"occupied": <bool>, "distance": <int>}`.
pub open spec fn state_payload_chars(d: PresenceData) -> Seq<char> {
    "{\"occupied\": "@ + bool_chars(d.occupied) + ", \"distance\": "@ + dec_chars(
        d.distance as nat,
    ) + "}"@
}

/// A discovery topic: `homeassistant/<component>/<device_id>_<key>/config`.
pub open spec fn discovery_topic_chars(component: Seq<char>, id: Seq<char>, key: Seq<char>) -> Seq<
    char,
> {
    "homeassistant/"@ + component + "/"@ + id + "_"@ + key + "/config"@
}

/// The human-readable device name: the program identifier with underscores
/// as spaces, then the device id.
pub open spec fn device_name_chars(program: Seq<char>, id: Seq<char>) -> Seq<char> {
    spaced_chars(program) + " "@ + id
}

/// The model identifier shared by all four discovery descriptors.
pub open spec fn model_id_chars(program: Seq<char>, id: Seq<char>) -> Seq<char> {
    program + "_"@ + id
}

/// The shared device block of a discovery descriptor.
pub open spec fn device_block_chars(program: Seq<char>, id: Seq<char>) -> Seq<char> {
    "\"device\": {\"name\": \""@ + device_name_chars(program, id)
        + "\", \"identifiers\": [\""@ + model_id_chars(program, id)
        + "\"], \"manufacturer\": \"mvdschee\", \"model\": \"LD2410S\"}"@
}

/// The occupancy (binary state) discovery descriptor body.
pub open spec fn occupancy_config_chars(program: Seq<char>, id: Seq<char>) -> Seq<char> {
    "{\"state_topic\": \""@ + state_topic_chars(program, id)
        + "\", \"value_template\": \"{{ 'ON' if value_json.occupied else 'OFF' }}\", \"unique_id\": \""@
        + id + "_occupancy\", \"name\": \"Occupancy\", \"device_class\": \"motion\", "@
        + device_block_chars(program, id) + "}"@
}

/// The distance (measurement) discovery descriptor body.
pub open spec fn distance_config_chars(program: Seq<char>, id: Seq<char>) -> Seq<char> {
    "{\"state_topic\": \""@ + state_topic_chars(program, id)
        + "\", \"unit_of_measurement\": \"cm\", \"value_template\": \"{{ value_json.distance }}\", \"unique_id\": \""@
        + id
        + "_distance\", \"name\": \"Distance\", \"device_class\": \"distance\", \"state_class\": \"measurement\", "@
        + device_block_chars(program, id) + "}"@
}

/// The calibrate command (button) discovery descriptor body.
pub open spec fn calibrate_config_chars(program: Seq<char>, id: Seq<char>) -> Seq<char> {
    "{\"command_topic\": \""@ + command_topic_chars(program, id)
        + "\", \"payload_press\": \"calibrate\", \"unique_id\": \""@ + id
        + "_calibrate\", \"name\": \"Calibrate Sensor\", \"icon\": \"mdi:target\", "@
        + device_block_chars(program, id) + "}"@
}

/// The restart command (button) discovery descriptor body.
pub open spec fn restart_config_chars(program: Seq<char>, id: Seq<char>) -> Seq<char> {
    "{\"command_topic\": \""@ + command_topic_chars(program, id)
        + "\", \"payload_press\": \"restart\", \"unique_id\": \""@ + id
        + "_restart\", \"name\": \"Restart Device\", \"device_class\": \"restart\", "@
        + device_block_chars(program, id) + "}"@
}

/// The dedup gate: a reading is published exactly when it differs from the
/// last successfully published one (or when nothing was published yet).
pub open spec fn should_publish(last: Option<PresenceData>, d: PresenceData) -> bool {
    last != Some(d)
}

/// The dedup cache after one reading whose publish attempt (if any was
/// needed) succeeded or failed as `ok` says: only a needed, successful
/// publish moves the cache.
pub open spec fn after_report(last: Option<PresenceData>, d: PresenceData, ok: bool) -> Option<
    PresenceData,
> {
    if should_publish(last, d) && ok {
        Some(d)
    } else {
        last
    }
}

/// How many publishes a run of readings causes when every attempted publish
/// succeeds.
pub open spec fn publish_count(last: Option<PresenceData>, readings: Seq<PresenceData>) -> nat
    decreases readings.len(),
{
    if readings.len() == 0 {
        0
    } else {
        (if should_publish(last, readings[0]) {
            1nat
        } else {
            0nat
        }) + publish_count(after_report(last, readings[0], true), readings.drop_first())
    }
}

/// Dedup idempotence: once a value has been successfully published, a run of
/// identical readings publishes nothing further.
pub proof fn lemma_dedup_idempotent(
    last: Option<PresenceData>,
    readings: Seq<PresenceData>,
    d: PresenceData,
)
    requires
        last == Some(d),
        forall|i: int| 0 <= i < readings.len() ==> readings[i] == d,
    ensures
        publish_count(last, readings) == 0,
    decreases readings.len(),
{
    if readings.len() > 0 {
        assert(!should_publish(last, readings[0]));
        lemma_dedup_idempotent(last, readings.drop_first(), d);
    }
}

/// A run of identical readings publishes at most once, whatever was reported
/// before it.
pub proof fn lemma_run_publishes_at_most_once(
    last: Option<PresenceData>,
    readings: Seq<PresenceData>,
    d: PresenceData,
)
    requires
        forall|i: int| 0 <= i < readings.len() ==> readings[i] == d,
    ensures
        publish_count(last, readings) <= 1,
    decreases readings.len(),
{
    if readings.len() > 0 {
        if should_publish(last, readings[0]) {
            lemma_dedup_idempotent(Some(d), readings.drop_first(), d);
        } else {
            lemma_run_publishes_at_most_once(last, readings.drop_first(), d);
        }
    }
}

/// A failed publish leaves the dedup cache exactly as it was, so the same
/// reading, presented again, is attempted again rather than treated as a
/// duplicate.
pub proof fn lemma_failed_publish_keeps_gate(last: Option<PresenceData>, d: PresenceData)
    ensures
        after_report(last, d, false) == last,
        should_publish(after_report(last, d, false), d) == should_publish(last, d),
{
}

/// Deduplicates presence state and formats the state and discovery messages
/// that the transport is to carry.
pub struct Reporter {
    pub config: Config,
    pub last_report: Option<PresenceData>,
}

impl Reporter {
    /// A reporter that has not published anything yet.
    pub fn new(config: Config) -> (r: Reporter)
        ensures
            r.config == config,
            r.last_report is None,
    {
        Reporter { config, last_report: None }
    }

    /// The dedup-gated publish decision for one reading: `None` exactly when
    /// the reading equals the last successfully published state, otherwise
    /// the state message to publish. The cache itself moves only in
    /// `mark_reported`, after the publish has succeeded.
    pub fn report(&self, data: &PresenceData) -> (r: Option<OutMessage>)
        ensures
            r is Some <==> should_publish(self.last_report, *data),
            r matches Some(m) ==> m.topic@ == state_topic_chars(
                self.config.program_name@,
                self.config.client_id@,
            ) && m.payload@ == state_payload_chars(*data),
    {
        match &self.last_report {
            Some(last) => {
                if *last == *data {
                    return None;
                }
            },
            None => {},
        }
        let topic = self.config.state_topic();
        let mut payload: String = "{\"occupied\": ".to_owned();
        append_bool(&mut payload, data.occupied);
        payload.append(", \"distance\": ");
        append_u16(&mut payload, data.distance);
        payload.append("}");
        assert(payload@ =~= state_payload_chars(*data));
        Some(OutMessage { topic, payload })
    }

    /// Records that `data` was published successfully; nothing else changes.
    pub fn mark_reported(&mut self, data: &PresenceData)
        ensures
            final(self).last_report == Some(*data),
            final(self).config == old(self).config,
            final(self).last_report == after_report(old(self).last_report, *data, true) || !(
            should_publish(old(self).last_report, *data)),
    {
        self.last_report = Some(*data);
    }

    /// The four discovery descriptors, in the order they are to be published:
    /// occupancy, distance, calibrate, restart. The caller publishes each in
    /// turn and stops at the first failure.
    pub fn register(&self) -> (msgs: Vec<OutMessage>)
        requires
            self.config.wf(),
        ensures
            msgs@.len() == 4,
            msgs@[0].topic@ == discovery_topic_chars(
                "binary_sensor"@,
                self.config.client_id@,
                "occupancy"@,
            ),
            msgs@[0].payload@ == occupancy_config_chars(
                self.config.program_name@,
                self.config.client_id@,
            ),
            msgs@[1].topic@ == discovery_topic_chars(
                "sensor"@,
                self.config.client_id@,
                "distance"@,
            ),
            msgs@[1].payload@ == distance_config_chars(
                self.config.program_name@,
                self.config.client_id@,
            ),
            msgs@[2].topic@ == discovery_topic_chars(
                "button"@,
                self.config.client_id@,
                "calibrate"@,
            ),
            msgs@[2].payload@ == calibrate_config_chars(
                self.config.program_name@,
                self.config.client_id@,
            ),
            msgs@[3].topic@ == discovery_topic_chars(
                "button"@,
                self.config.client_id@,
                "restart"@,
            ),
            msgs@[3].payload@ == restart_config_chars(
                self.config.program_name@,
                self.config.client_id@,
            ),
    {
        let mut msgs: Vec<OutMessage> = Vec::new();
        msgs.push(self.occupancy_config());
        msgs.push(self.distance_config());
        msgs.push(self.calibrate_config());
        msgs.push(self.restart_config());
        msgs
    }

    fn discovery_topic(&self, component: &str, key: &str) -> (t: String)
        ensures
            t@ == discovery_topic_chars(component@, self.config.client_id@, key@),
    {
        let mut t: String = "homeassistant/".to_owned();
        t.append(component);
        t.append("/");
        t.append(self.config.client_id.as_str());
        t.append("_");
        t.append(key);
        t.append("/config");
        assert(t@ =~= discovery_topic_chars(component@, self.config.client_id@, key@));
        t
    }

    fn append_device_block(&self, s: &mut String)
        requires
            self.config.wf(),
        ensures
            final(s)@ == old(s)@ + device_block_chars(
                self.config.program_name@,
                self.config.client_id@,
            ),
    {
        s.append("\"device\": {\"name\": \"");
        let spaced = underscores_to_spaces(self.config.program_name.as_str());
        s.append(spaced.as_str());
        s.append(" ");
        s.append(self.config.client_id.as_str());
        s.append("\", \"identifiers\": [\"");
        s.append(self.config.program_name.as_str());
        s.append("_");
        s.append(self.config.client_id.as_str());
        s.append("\"], \"manufacturer\": \"mvdschee\", \"model\": \"LD2410S\"}");
        assert(s@ =~= old(s)@ + device_block_chars(
            self.config.program_name@,
            self.config.client_id@,
        ));
    }

    fn occupancy_config(&self) -> (m: OutMessage)
        requires
            self.config.wf(),
        ensures
            m.topic@ == discovery_topic_chars("binary_sensor"@, self.config.client_id@, "occupancy"@),
            m.payload@ == occupancy_config_chars(self.config.program_name@, self.config.client_id@),
    {
        let topic = self.discovery_topic("binary_sensor", "occupancy");
        let mut p: String = "{\"state_topic\": \"".to_owned();
        let st = self.config.state_topic();
        p.append(st.as_str());
        p.append("\", \"value_template\": \"{{ 'ON' if value_json.occupied else 'OFF' }}\", \"unique_id\": \"");
        p.append(self.config.client_id.as_str());
        p.append("_occupancy\", \"name\": \"Occupancy\", \"device_class\": \"motion\", ");
        self.append_device_block(&mut p);
        p.append("}");
        assert(p@ =~= occupancy_config_chars(self.config.program_name@, self.config.client_id@));
        OutMessage { topic, payload: p }
    }

    fn distance_config(&self) -> (m: OutMessage)
        requires
            self.config.wf(),
        ensures
            m.topic@ == discovery_topic_chars("sensor"@, self.config.client_id@, "distance"@),
            m.payload@ == distance_config_chars(self.config.program_name@, self.config.client_id@),
    {
        let topic = self.discovery_topic("sensor", "distance");
        let mut p: String = "{\"state_topic\": \"".to_owned();
        let st = self.config.state_topic();
        p.append(st.as_str());
        p.append("\", \"unit_of_measurement\": \"cm\", \"value_template\": \"{{ value_json.distance }}\", \"unique_id\": \"");
        p.append(self.config.client_id.as_str());
        p.append("_distance\", \"name\": \"Distance\", \"device_class\": \"distance\", \"state_class\": \"measurement\", ");
        self.append_device_block(&mut p);
        p.append("}");
        assert(p@ =~= distance_config_chars(self.config.program_name@, self.config.client_id@));
        OutMessage { topic, payload: p }
    }

    fn calibrate_config(&self) -> (m: OutMessage)
        requires
            self.config.wf(),
        ensures
            m.topic@ == discovery_topic_chars("button"@, self.config.client_id@, "calibrate"@),
            m.payload@ == calibrate_config_chars(self.config.program_name@, self.config.client_id@),
    {
        let topic = self.discovery_topic("button", "calibrate");
        let mut p: String = "{\"command_topic\": \"".to_owned();
        let ct = self.config.command_topic();
        p.append(ct.as_str());
        p.append("\", \"payload_press\": \"calibrate\", \"unique_id\": \"");
        p.append(self.config.client_id.as_str());
        p.append("_calibrate\", \"name\": \"Calibrate Sensor\", \"icon\": \"mdi:target\", ");
        self.append_device_block(&mut p);
        p.append("}");
        assert(p@ =~= calibrate_config_chars(self.config.program_name@, self.config.client_id@));
        OutMessage { topic, payload: p }
    }

    fn restart_config(&self) -> (m: OutMessage)
        requires
            self.config.wf(),
        ensures
            m.topic@ == discovery_topic_chars("button"@, self.config.client_id@, "restart"@),
            m.payload@ == restart_config_chars(self.config.program_name@, self.config.client_id@),
    {
        let topic = self.discovery_topic("button", "restart");
        let mut p: String = "{\"command_topic\": \"".to_owned();
        let ct = self.config.command_topic();
        p.append(ct.as_str());
        p.append("\", \"payload_press\": \"restart\", \"unique_id\": \"");
        p.append(self.config.client_id.as_str());
        p.append("_restart\", \"name\": \"Restart Device\", \"device_class\": \"restart\", ");
        self.append_device_block(&mut p);
        p.append("}");
        assert(p@ =~= restart_config_chars(self.config.program_name@, self.config.client_id@));
        OutMessage { topic, payload: p }
    }
}

} // verus!
