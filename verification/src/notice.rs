//! What the polling loop has to say on the diagnostic stream.

use crate::session::{Session, WatchSession};
use crate::text::{decimal_digits, push_decimal};
use vstd::prelude::*;

verus! {

/// A line for the diagnostic stream.
#[derive(Clone, Copy, Debug, PartialEq, Eq, Structural)]
pub enum Notice {
    /// The held handle is dead; a new connection will be attempted.
    ConnectionLost,
    /// The connection attempt failed; the next comes in `retry_in` seconds.
    ConnectFailed { retry_in: u64 },
    /// The read failed; the connection was given up.
    ReadFailed,
    /// The count limit was met after `readings` readings.
    Completed { readings: u64 },
    /// The loop ends on the user's request.
    ShuttingDown,
}

impl Notice {
    /// The wording of a notice. `cause` is what the device library reported;
    /// only the two failures quote it.
    pub open spec fn text(self, cause: Seq<char>) -> Seq<char> {
        match self {
            Notice::ConnectionLost => "Connection lost. Reconnecting..."@,
            Notice::ConnectFailed { retry_in } => "Connection failed: "@ + cause
                + ". Retrying in "@ + decimal_digits(retry_in as nat) + "s..."@,
            Notice::ReadFailed => "Read failed: "@ + cause + ". Will reconnect on next poll."@,
            Notice::Completed { readings } => "Completed "@ + decimal_digits(readings as nat)
                + " readings."@,
            Notice::ShuttingDown => "\nShutting down..."@,
        }
    }

    /// Words the notice. `cause` is what the device library reported; only
    /// the two failures quote it.
    pub fn message(&self, cause: &str) -> (text: String)
        ensures
            text@ == self.text(cause@),
    {
        match self {
            Notice::ConnectionLost => String::from_str("Connection lost. Reconnecting..."),
            Notice::ConnectFailed { retry_in } => {
                let mut text = String::from_str("Connection failed: ");
                text.append(cause);
                text.append(". Retrying in ");
                push_decimal(&mut text, *retry_in);
                text.append("s...");
                text
            },
            Notice::ReadFailed => {
                let mut text = String::from_str("Read failed: ");
                text.append(cause);
                text.append(". Will reconnect on next poll.");
                text
            },
            Notice::Completed { readings } => {
                let mut text = String::from_str("Completed ");
                push_decimal(&mut text, *readings);
                text.append(" readings.");
                text
            },
            Notice::ShuttingDown => String::from_str("\nShutting down..."),
        }
    }
}

/// The line that opens a watch session. It names the count limit only when
/// there is one.
pub open spec fn banner_text(session: Session) -> Seq<char> {
    "Watching "@ + session.identifier + " (interval: "@ + decimal_digits(
        session.poll_interval as nat,
    ) + if session.bounded() {
        "s, count: "@ + decimal_digits(session.count_limit as nat) + ") - Press Ctrl+C to stop"@
    } else {
        "s) - Press Ctrl+C to stop"@
    }
}

/// Words the line that opens a watch session.
pub fn banner(session: &WatchSession) -> (text: String)
    ensures
        text@ == banner_text(session@),
{
    let mut text = String::from_str("Watching ");
    text.append(session.identifier());
    text.append(" (interval: ");
    push_decimal(&mut text, session.poll_interval_secs());
    if session.count_limit() > 0 {
        text.append("s, count: ");
        push_decimal(&mut text, session.count_limit() as u64);
        text.append(") - Press Ctrl+C to stop");
    } else {
        text.append("s) - Press Ctrl+C to stop");
    }
    assert(text@ =~= banner_text(session@));
    text
}

} // verus!
