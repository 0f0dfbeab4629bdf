//! The state that the overview reports for each server.

use vstd::prelude::*;
use vstd::string::*;

verus! {

/// The state of a supervisord server, as `supervisor.getState` reports it.
pub struct ServerState {
    pub statecode: i32,
    pub statename: String,
}

/// The state code reported for a server that could not be reached.
pub open spec fn network_error_code() -> int {
    -2
}

/// The state name reported for a server that could not be reached.
pub open spec fn network_error_name() -> Seq<char> {
    "NetWorkError"@
}

/// The state reported for a server that could not be reached.
pub fn network_error_state() -> (s: ServerState)
    ensures
        s.statecode == network_error_code(),
        s.statename@ == network_error_name(),
{
    ServerState { statecode: -2, statename: String::from_str("NetWorkError") }
}

/// The state to report: the one the server returned, or the network-error
/// state when the query failed.
pub fn state_or_network_error(queried: Option<ServerState>) -> (s: ServerState)
    ensures
        queried matches Some(q) ==> s == q,
        queried is None ==> s.statecode == network_error_code() && s.statename@
            == network_error_name(),
{
    match queried {
        Some(q) => q,
        None => network_error_state(),
    }
}

} // verus!
