//! Parsing of raw command payloads received on the device's command topic.

use vstd::prelude::*;

verus! {

/// The closed set of commands the device understands. Matching is exact and
/// case-sensitive; any other payload is kept verbatim as `Unknown`.
#[derive(Debug, Clone, PartialEq)]
pub enum CommandKind {
    Calibrate,
    Restart,
    Unknown(String),
}

/// Parses a raw command payload into a `CommandKind`.
///
/// Only the exact texts `"calibrate"` and `"restart"` are recognised; every
/// other payload (including the empty string and different capitalisations)
/// is returned unchanged inside `Unknown`.
pub fn parse_command(raw: &str) -> (r: CommandKind)
    ensures
        raw@ == "calibrate"@ ==> r == CommandKind::Calibrate,
        raw@ == "restart"@ ==> r == CommandKind::Restart,
        raw@ != "calibrate"@ && raw@ != "restart"@ ==> (match r {
            CommandKind::Unknown(text) => text@ == raw@,
            _ => false,
        }),
{
    proof {
        reveal_strlit("calibrate");
        reveal_strlit("restart");
    }
    let owned: String = raw.to_owned();
    let calibrate: String = "calibrate".to_owned();
    if owned == calibrate {
        assert(raw@ != "restart"@) by {
            assert("calibrate"@.len() != "restart"@.len());
        }
        return CommandKind::Calibrate;
    }
    let restart: String = "restart".to_owned();
    if owned == restart {
        return CommandKind::Restart;
    }
    CommandKind::Unknown(owned)
}

} // verus!
