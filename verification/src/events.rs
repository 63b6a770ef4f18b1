//! Log lines for the gateway's lifecycle events and for failures.

use crate::logging::{Level, LogLine};
use crate::text::{decimal_text, push_decimal};
use vstd::prelude::*;
use vstd::string::*;

verus! {

/// First line logged when the connection is established.
pub open spec fn connected_text(user_name: Seq<char>) -> Seq<char> {
    user_name + " is connected!"@
}

/// Second line logged when the connection is established.
pub open spec fn servers_text(guild_count: nat) -> Seq<char> {
    "Connected in "@ + decimal_text(guild_count) + " servers"@
}

/// The line logged when a dropped connection is resumed.
pub open spec fn resumed_text(trace: Seq<char>) -> Seq<char> {
    "Resumed; trace: "@ + trace
}

/// The line logged when the client's run loop ends with an error.
pub open spec fn client_error_text(why: Seq<char>) -> Seq<char> {
    "Client error: "@ + why
}

/// The line logged when a reply could not be sent.
pub open spec fn reply_failure_text(why: Seq<char>) -> Seq<char> {
    "Error sending message: "@ + why
}

/// The two informational lines for the ready event: who connected, and to
/// how many servers.
pub fn ready_lines(user_name: &str, guild_count: usize) -> (lines: (LogLine, LogLine))
    ensures
        lines.0.says(Level::Info, connected_text(user_name@)),
        lines.1.says(Level::Info, servers_text(guild_count as nat)),
{
    let first = String::from_str(user_name).concat(" is connected!");
    let mut second = String::from_str("Connected in ");
    push_decimal(&mut second, guild_count);
    second.append(" servers");
    (LogLine { level: Level::Info, text: first }, LogLine { level: Level::Info, text: second })
}

/// The debug line for the resumed event, from the rendered trace.
pub fn resumed_line(trace: &str) -> (line: LogLine)
    ensures
        line.says(Level::Debug, resumed_text(trace@)),
{
    LogLine { level: Level::Debug, text: String::from_str("Resumed; trace: ").concat(trace) }
}

/// The error line for a run loop that ended with an error.
pub fn client_error_line(why: &str) -> (line: LogLine)
    ensures
        line.says(Level::Error, client_error_text(why@)),
{
    LogLine { level: Level::Error, text: String::from_str("Client error: ").concat(why) }
}

/// The error line for a reply that could not be sent. The failure is
/// logged and nothing else happens.
pub fn reply_failure_line(why: &str) -> (line: LogLine)
    ensures
        line.says(Level::Error, reply_failure_text(why@)),
{
    LogLine { level: Level::Error, text: String::from_str("Error sending message: ").concat(why) }
}

} // verus!
