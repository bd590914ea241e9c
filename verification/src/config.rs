//! Device configuration and the derivation of the device identity.

use vstd::prelude::*;
use vstd::string::StringExecFns;
use crate::text::append_hex_byte;
use crate::text::hex_byte_chars;

verus! {

/// The device identifier: the last three bytes of the hardware MAC address,
/// rendered as six lower-case hexadecimal digits. It namespaces every topic
/// and every discovery unique-id, and is stable across reboots of one unit.
pub open spec fn client_id_chars(mac: Seq<u8>) -> Seq<char>
    recommends
        mac.len() == 6,
{
    hex_byte_chars(mac[3]) + hex_byte_chars(mac[4]) + hex_byte_chars(mac[5])
}

/// The topic on which state is published: `<program>/<device_id>/state`.
pub open spec fn state_topic_chars(program: Seq<char>, id: Seq<char>) -> Seq<char> {
    program + "/"@ + id + "/state"@
}

/// The topic on which commands arrive: `<program>/<device_id>/cmd`.
pub open spec fn command_topic_chars(program: Seq<char>, id: Seq<char>) -> Seq<char> {
    program + "/"@ + id + "/cmd"@
}

/// Connection settings plus the derived device identity. The credentials are
/// read at the application edge and handed in as plain values.
#[derive(Debug, Clone)]
pub struct Config {
    pub broker_password: String,
    pub broker_port: u16,
    pub broker_host: String,
    pub broker_username: String,
    pub client_id: String,
    pub program_name: String,
    pub wifi_ssid: String,
    pub wifi_password: String,
}

impl Config {
    /// Every well-formed configuration carries the fixed program identifier,
    /// which is ASCII so display names can be derived from it.
    pub open spec fn wf(self) -> bool {
        &&& self.program_name@ == "presence_detection"@
        &&& vstd::string::string_is_ascii(&self.program_name)
    }

    /// The exact state topic for this device.
    pub fn state_topic(&self) -> (t: String)
        ensures
            t@ == state_topic_chars(self.program_name@, self.client_id@),
    {
        let mut t = self.program_name.clone();
        t.append("/");
        t.append(self.client_id.as_str());
        t.append("/state");
        assert(t@ =~= state_topic_chars(self.program_name@, self.client_id@));
        t
    }

    /// The exact command topic for this device.
    pub fn command_topic(&self) -> (t: String)
        ensures
            t@ == command_topic_chars(self.program_name@, self.client_id@),
    {
        let mut t = self.program_name.clone();
        t.append("/");
        t.append(self.client_id.as_str());
        t.append("/cmd");
        assert(t@ =~= command_topic_chars(self.program_name@, self.client_id@));
        t
    }

    /// Builds the configuration from the bootstrap values and the six-byte
    /// hardware MAC address, deriving the client id from the MAC.
    pub fn new(
        broker_host: String,
        broker_port: u16,
        broker_username: String,
        broker_password: String,
        wifi_ssid: String,
        wifi_password: String,
        mac: [u8; 6],
    ) -> (r: Config)
        ensures
            r.broker_host == broker_host,
            r.broker_port == broker_port,
            r.broker_username == broker_username,
            r.broker_password == broker_password,
            r.wifi_ssid == wifi_ssid,
            r.wifi_password == wifi_password,
            r.client_id@ == client_id_chars(mac@),
            r.program_name@ == "presence_detection"@,
            r.wf(),
    {
        let mut client_id = String::new();
        append_hex_byte(&mut client_id, mac[3]);
        append_hex_byte(&mut client_id, mac[4]);
        append_hex_byte(&mut client_id, mac[5]);
        assert(client_id@ =~= client_id_chars(mac@));
        let program_name: String = "presence_detection".to_owned();
        proof {
            reveal_strlit("presence_detection");
            assert(vstd::string::string_is_ascii(&program_name));
        }
        Config {
            broker_password,
            broker_port,
            broker_host,
            broker_username,
            client_id,
            program_name,
            wifi_ssid,
            wifi_password,
        }
    }
}

} // verus!
