//! Broker access with a verified connection-acquisition state machine, the
//! publish request it leads to, and the outcome rules of an object store.

mod error;
mod retry;
mod connection_manager;
mod message_publisher;
mod storage;

pub use error::{BrokerError, ConfigProblem};
pub use retry::{AcquireAction, AcquireEvent, AcquireState, RetryPolicy, DEFAULT_RETRY_DELAY_MS};
pub use retry::{
    exhausted, failures, next, run, waited,
    lemma_bad_config_fails_first, lemma_bounded_gives_up, lemma_deliver_only_when_opened,
    lemma_failed_is_final, lemma_reachable_broker_connects, lemma_recovers_after_failures,
};
pub use connection_manager::{config_problem, BrokerConfig, RabbitConnectionManager};
pub use message_publisher::{PublishRequest, RabbitMqPublisher};
pub use storage::{bucket_creation_settles, exists_code, owned_code};
