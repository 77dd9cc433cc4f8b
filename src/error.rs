use vstd::prelude::*;

verus! {

/// A connection parameter that is malformed before any network attempt.
#[derive(Clone, Copy, Debug, PartialEq, Eq, Structural)]
pub enum ConfigProblem {
    /// The broker host name is empty.
    EmptyHost,
    /// The broker port is zero; ports run from 1 to 65535.
    ZeroPort,
}

/// The kinds of failure that connection handling and publishing surface.
#[derive(Clone, Debug, PartialEq, Eq)]
pub enum BrokerError {
    /// Malformed connection parameters, found before any attempt; never retried.
    Configuration(ConfigProblem),
    /// Opening the transport failed this many times in a row and the retry
    /// policy allows no more attempts.
    TransientConnectivity { attempts: u64 },
    /// A live connection was obtained but opening a channel on it failed.
    ChannelNegotiation { cause: String },
    /// The channel took the publish call but the transport reported a failure.
    Send { cause: String },
}

} // verus!
