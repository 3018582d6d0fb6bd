//! Where events about messages are published, and the outbox records that
//! carry them until they are.
use vstd::prelude::*;
use crate::system::random_uuid;

verus! {

/// An exchange and a routing key.
#[derive(Debug, Clone, Default)]
pub struct MessageRoutingInfo {
    pub exchange: String,
    pub routing_key: String,
}

impl MessageRoutingInfo {
    pub fn new(exchange: String, routing_key: String) -> (r: MessageRoutingInfo)
        ensures
            r.exchange == exchange,
            r.routing_key == routing_key,
    {
        MessageRoutingInfo { exchange, routing_key }
    }
}

/// Names where an event goes.
pub trait MessageRouter {
    fn exchange_name(&self) -> &str;

    fn routing_key(&self) -> &str;
}

impl MessageRouter for MessageRoutingInfo {
    fn exchange_name(&self) -> &str {
        self.exchange.as_str()
    }

    fn routing_key(&self) -> &str {
        self.routing_key.as_str()
    }
}

/// Where each kind of message event goes.
#[derive(Debug, Clone, Default)]
pub struct MessageRoutingInfos {
    pub create_message: MessageRoutingInfo,
    pub delete_message: MessageRoutingInfo,
}

/// An event waiting in the outbox, with the random id it is stored under.
#[derive(Debug, Clone)]
pub struct OutboxEventRecord<TPayload, TRouter> {
    pub id: u128,
    pub router: TRouter,
    pub payload: TPayload,
}

impl<TPayload, TRouter: MessageRouter> OutboxEventRecord<TPayload, TRouter> {
    /// A record with a fresh random id.
    pub fn new(router: TRouter, payload: TPayload) -> (r: OutboxEventRecord<TPayload, TRouter>)
        ensures
            r.router == router,
            r.payload == payload,
    {
        OutboxEventRecord { id: random_uuid(), router, payload }
    }
}

} // verus!
