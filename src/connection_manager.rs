use vstd::prelude::*;
use crate::error::{BrokerError, ConfigProblem};
use crate::retry::{next, AcquireAction, AcquireEvent, AcquireState, RetryPolicy};

verus! {

/// The connection parameters of a manager, as values.
pub ghost struct BrokerConfig {
    pub host: Seq<char>,
    pub port: u16,
    pub username: Seq<char>,
    pub password: Seq<char>,
    pub virtual_host: Seq<char>,
    pub retry: RetryPolicy,
}

/// The pre-flight check of a configuration: the first problem found, if any.
pub open spec fn config_problem(c: BrokerConfig) -> Option<ConfigProblem> {
    if c.host.len() == 0 {
        Some(ConfigProblem::EmptyHost)
    } else if c.port == 0 {
        Some(ConfigProblem::ZeroPort)
    } else {
        None
    }
}

/// Owns the broker parameters and decides each step of acquiring a connection
/// and a channel. It keeps no connection between calls: every acquisition
/// starts from `AcquireState::Disconnected`.
pub struct RabbitConnectionManager {
    host: String,
    port: u16,
    username: String,
    password: String,
    virtual_host: String,
    retry: RetryPolicy,
}

impl View for RabbitConnectionManager {
    type V = BrokerConfig;

    closed spec fn view(&self) -> BrokerConfig {
        BrokerConfig {
            host: self.host@,
            port: self.port,
            username: self.username@,
            password: self.password@,
            virtual_host: self.virtual_host@,
            retry: self.retry,
        }
    }
}

impl RabbitConnectionManager {
    /// A manager for the broker at `host:port`, on virtual host "/", retrying
    /// forever with a fixed wait of two seconds.
    pub fn new(host: String, port: u16, username: String, password: String) -> (r: Self)
        ensures
            r@.host == host@,
            r@.port == port,
            r@.username == username@,
            r@.password == password@,
            r@.virtual_host == seq!['/'],
            r@.retry == RetryPolicy::unbounded_spec(),
    {
        let virtual_host = "/".to_owned();
        proof {
            reveal_strlit("/");
        }
        RabbitConnectionManager {
            host,
            port,
            username,
            password,
            virtual_host,
            retry: RetryPolicy::unbounded(),
        }
    }

    /// The same manager with another retry policy.
    pub fn with_retry_policy(self, retry: RetryPolicy) -> (r: Self)
        ensures
            r@ == (BrokerConfig { retry, ..self@ }),
    {
        RabbitConnectionManager { retry, ..self }
    }

    /// The same manager on another virtual host.
    pub fn with_virtual_host(self, virtual_host: String) -> (r: Self)
        ensures
            r@ == (BrokerConfig { virtual_host: virtual_host@, ..self@ }),
    {
        RabbitConnectionManager { virtual_host, ..self }
    }

    pub fn host(&self) -> (r: &str)
        ensures
            r@ == self@.host,
    {
        self.host.as_str()
    }

    pub fn port(&self) -> (r: u16)
        ensures
            r == self@.port,
    {
        self.port
    }

    pub fn username(&self) -> (r: &str)
        ensures
            r@ == self@.username,
    {
        self.username.as_str()
    }

    pub fn password(&self) -> (r: &str)
        ensures
            r@ == self@.password,
    {
        self.password.as_str()
    }

    pub fn virtual_host(&self) -> (r: &str)
        ensures
            r@ == self@.virtual_host,
    {
        self.virtual_host.as_str()
    }

    pub fn retry_policy(&self) -> (r: RetryPolicy)
        ensures
            r == self@.retry,
    {
        self.retry
    }

    /// The pre-flight check: a connection is only attempted on a configuration
    /// without problem.
    pub fn validate(&self) -> (r: Result<(), ConfigProblem>)
        ensures
            r == (match config_problem(self@) {
                Some(pr) => Err(pr),
                None => Ok(()),
            }),
    {
        if self.host.as_str().is_empty() {
            Err(ConfigProblem::EmptyHost)
        } else if self.port == 0 {
            Err(ConfigProblem::ZeroPort)
        } else {
            Ok(())
        }
    }

    /// One step of acquiring a connection: the state reached on `event`, and
    /// what the driver must do next.
    pub fn advance(&self, state: AcquireState, event: AcquireEvent) -> (r: (AcquireState, AcquireAction))
        ensures
            r == next(self@.retry, config_problem(self@), state, event),
    {
        match (state, event) {
            (AcquireState::Disconnected, AcquireEvent::Begin) => match self.validate() {
                Err(pr) => (
                    AcquireState::Failed { failures: 0 },
                    AcquireAction::Surface(BrokerError::Configuration(pr)),
                ),
                Ok(()) => (AcquireState::Connecting { failures: 0 }, AcquireAction::Open),
            },
            (AcquireState::Connecting { failures }, AcquireEvent::Opened) => (
                AcquireState::Connected { failures },
                AcquireAction::Deliver,
            ),
            (AcquireState::Connecting { failures }, AcquireEvent::OpenFailed) => {
                let n: u64 = failures.saturating_add(1);
                let gives_up: bool = match self.retry.max_attempts {
                    Some(m) => n >= m,
                    None => false,
                };
                if gives_up {
                    (
                        AcquireState::Failed { failures: n },
                        AcquireAction::Surface(BrokerError::TransientConnectivity { attempts: n }),
                    )
                } else {
                    (AcquireState::Connecting { failures: n }, AcquireAction::WaitThenOpen { delay_ms: self.retry.delay_ms })
                }
            },
            _ => (state, AcquireAction::Ignore),
        }
    }

    /// The outcome of opening a channel on a live connection: a failure there
    /// is a channel negotiation failure, surfaced at once and never retried.
    pub fn channel_outcome<C>(opened: Result<C, String>) -> (r: Result<C, BrokerError>)
        ensures
            match opened {
                Ok(c) => r == Ok::<C, BrokerError>(c),
                Err(cause) => r == Err::<C, BrokerError>(BrokerError::ChannelNegotiation { cause }),
            },
    {
        match opened {
            Ok(c) => Ok(c),
            Err(cause) => Err(BrokerError::ChannelNegotiation { cause }),
        }
    }
}

} // verus!
