//! Broker client core: command values, a structured-value adapter for
//! exchange declarations, and the connection actor's event loop as a
//! verified state machine.

pub mod messages;

pub use messages::{
    ConsumeFromExchange, ConsumeView, CreateExchange, CreateExchangeView, ExchangeKind,
    ExchangeOptions, KindView, PublishToTopic, PublishView, QueueOptions,
};

pub mod adapter;

pub use adapter::{AdapterError, AdapterErrorView, FieldText, FieldView};

pub mod actor;

pub use actor::{
    ActorConfig, ActorState, Command, CommandView, ConfigView, Effect, EffectView, Event, EventView,
    Operation,
};

pub mod delivery;

pub use delivery::handle_delivery;

pub mod connection;

pub use connection::ConnectionActor;

pub mod laws;
