use vstd::prelude::*;
use vstd::string::StringSliceAdditionalSpecFns;
use crate::error::BrokerError;

verus! {

/// One publish as it goes on the wire: the exchange the publisher is bound to,
/// the routing key, the payload bytes, and the two delivery flags.
pub struct PublishRequest {
    pub exchange: String,
    pub routing_key: String,
    pub payload: Vec<u8>,
    /// The broker must report a message that no queue takes.
    pub mandatory: bool,
    /// The broker must report a message that no consumer takes at once.
    pub immediate: bool,
}

/// Publishes to one exchange, fixed at construction, over a fresh channel of
/// its connection manager for each message.
pub struct RabbitMqPublisher<T> {
    connection_manager: T,
    exchange: String,
}

impl<T> RabbitMqPublisher<T> {
    /// The manager that channels are requested from.
    pub closed spec fn manager(&self) -> T {
        self.connection_manager
    }

    /// The exchange that every message goes to.
    pub closed spec fn exchange_name(&self) -> Seq<char> {
        self.exchange@
    }

    pub fn new(connection_manager: T, exchange: String) -> (r: Self)
        ensures
            r.manager() == connection_manager,
            r.exchange_name() == exchange@,
    {
        RabbitMqPublisher { connection_manager, exchange }
    }

    pub fn connection_manager(&self) -> (r: &T)
        ensures
            *r == self.manager(),
    {
        &self.connection_manager
    }

    pub fn exchange(&self) -> (r: &str)
        ensures
            r@ == self.exchange_name(),
    {
        self.exchange.as_str()
    }

    /// The request that publishes `message` under `routing_key`: the exact
    /// UTF-8 bytes of the message, broker-default properties, and neither
    /// `mandatory` nor `immediate`, so that an unroutable message is dropped by
    /// the broker and reported as no error here.
    pub fn request(&self, message: &str, routing_key: &str) -> (r: PublishRequest)
        ensures
            r.exchange@ == self.exchange_name(),
            r.routing_key@ == routing_key@,
            r.payload@ == message.spec_bytes(),
            !r.mandatory,
            !r.immediate,
    {
        PublishRequest {
            exchange: self.exchange.clone(),
            routing_key: routing_key.to_owned(),
            payload: vstd::slice::slice_to_vec(message.as_bytes()),
            mandatory: false,
            immediate: false,
        }
    }

    /// The outcome of a publish once the send returned: success exactly when
    /// the transport reported none, else a send failure with its cause. The
    /// send is never retried.
    pub fn publish_outcome(sent: Result<(), String>) -> (r: Result<(), BrokerError>)
        ensures
            match sent {
                Ok(()) => r == Ok::<(), BrokerError>(()),
                Err(cause) => r == Err::<(), BrokerError>(BrokerError::Send { cause }),
            },
    {
        match sent {
            Ok(()) => Ok(()),
            Err(cause) => Err(BrokerError::Send { cause }),
        }
    }
}

} // verus!
