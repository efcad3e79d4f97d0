//! What a watch session is asked to do: which device, how often, how many
//! readings, and in which format.

use vstd::prelude::*;

verus! {

/// How readings are rendered.
#[derive(Clone, Copy, Debug, PartialEq, Eq, Structural)]
pub enum OutputFormat {
    Text,
    Json,
    Csv,
}

impl OutputFormat {
    /// Only delimited output carries a header line.
    pub open spec fn has_header(self) -> bool {
        self is Csv
    }

    /// Progress is reported only next to plain text, and only when
    /// the user has not asked for quiet.
    pub fn shows_progress(&self, quiet: bool) -> (shown: bool)
        ensures
            shown == (!quiet && *self is Text),
    {
        match self {
            OutputFormat::Text => !quiet,
            _ => false,
        }
    }

    /// Whether this format starts its output with a header line.
    pub fn carries_header(&self) -> (yes: bool)
        ensures
            yes == self.has_header(),
    {
        match self {
            OutputFormat::Csv => true,
            _ => false,
        }
    }
}

/// Why a session could not be set up.
#[derive(Clone, Copy, Debug, PartialEq, Eq, Structural)]
pub enum SessionError {
    /// The polling interval was zero.
    ZeroInterval,
    /// The connect timeout was zero.
    ZeroTimeout,
}

/// What a [`WatchSession`] stands for.
pub struct Session {
    pub identifier: Seq<char>,
    pub poll_interval: u64,
    pub count_limit: u32,
    pub connect_timeout: u64,
}

impl Session {
    /// Both durations are positive.
    pub open spec fn wf(self) -> bool {
        self.poll_interval > 0 && self.connect_timeout > 0
    }

    /// A count limit of zero means that the session runs until it is
    /// cancelled.
    pub open spec fn bounded(self) -> bool {
        self.count_limit > 0
    }

    /// Whether `readings` successful reads exhaust the count limit.
    pub open spec fn limit_reached(self, readings: u64) -> bool {
        self.count_limit > 0 && readings >= self.count_limit
    }
}

/// The configuration of one watch session. It never changes once built.
#[derive(Debug)]
pub struct WatchSession {
    identifier: String,
    poll_interval_secs: u64,
    count_limit: u32,
    connect_timeout_ms: u64,
}

impl View for WatchSession {
    type V = Session;

    closed spec fn view(&self) -> Session {
        Session {
            identifier: self.identifier@,
            poll_interval: self.poll_interval_secs,
            count_limit: self.count_limit,
            connect_timeout: self.connect_timeout_ms,
        }
    }
}

impl WatchSession {
    /// Holds of every session that exists: both durations are positive.
    #[verifier::type_invariant]
    pub closed spec fn inv(self) -> bool {
        self.poll_interval_secs > 0 && self.connect_timeout_ms > 0
    }

    /// What the invariant means for the session's view.
    pub proof fn lemma_inv_is_wf(self)
        ensures
            self.inv() == self@.wf(),
    {
    }

    /// Builds a session. The polling interval is in seconds, the connect
    /// timeout in milliseconds; both must be positive. A `count_limit` of
    /// zero asks for readings until the session is cancelled.
    pub fn new(
        identifier: String,
        poll_interval_secs: u64,
        count_limit: u32,
        connect_timeout_ms: u64,
    ) -> (session: Result<WatchSession, SessionError>)
        ensures
            poll_interval_secs == 0 ==> session == Err::<WatchSession, _>(
                SessionError::ZeroInterval,
            ),
            poll_interval_secs > 0 && connect_timeout_ms == 0 ==> session == Err::<WatchSession, _>(
                SessionError::ZeroTimeout,
            ),
            poll_interval_secs > 0 && connect_timeout_ms > 0 ==> session is Ok && session->Ok_0@
                == (Session {
                identifier: identifier@,
                poll_interval: poll_interval_secs,
                count_limit,
                connect_timeout: connect_timeout_ms,
            }) && session->Ok_0@.wf(),
    {
        if poll_interval_secs == 0 {
            Err(SessionError::ZeroInterval)
        } else if connect_timeout_ms == 0 {
            Err(SessionError::ZeroTimeout)
        } else {
            Ok(WatchSession { identifier, poll_interval_secs, count_limit, connect_timeout_ms })
        }
    }

    /// The address or name of the device to watch.
    pub fn identifier(&self) -> (identifier: &str)
        ensures
            identifier@ == self@.identifier,
    {
        self.identifier.as_str()
    }

    /// Seconds to wait between two readings.
    pub fn poll_interval_secs(&self) -> (secs: u64)
        ensures
            secs == self@.poll_interval,
    {
        self.poll_interval_secs
    }

    /// How many readings to take; zero for no limit.
    pub fn count_limit(&self) -> (limit: u32)
        ensures
            limit == self@.count_limit,
    {
        self.count_limit
    }

    /// Milliseconds granted to each connection attempt.
    pub fn connect_timeout_ms(&self) -> (ms: u64)
        ensures
            ms == self@.connect_timeout,
    {
        self.connect_timeout_ms
    }

    /// Whether `readings` successful reads exhaust the count limit.
    pub fn limit_reached(&self, readings: u64) -> (reached: bool)
        ensures
            reached == self@.limit_reached(readings),
    {
        self.count_limit > 0 && readings >= self.count_limit as u64
    }
}

} // verus!
