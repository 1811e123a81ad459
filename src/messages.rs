use vstd::prelude::*;

verus! {

/// The routing discipline of an exchange.
#[derive(Debug, PartialEq, Eq)]
pub enum ExchangeKind {
    Topic,
    Fanout,
    Direct,
    Headers,
    Custom(String),
}

/// Mathematical model of an `ExchangeKind`.
pub enum KindView {
    Topic,
    Fanout,
    Direct,
    Headers,
    Custom(Seq<char>),
}

impl View for ExchangeKind {
    type V = KindView;

    open spec fn view(&self) -> KindView {
        match self {
            ExchangeKind::Topic => KindView::Topic,
            ExchangeKind::Fanout => KindView::Fanout,
            ExchangeKind::Direct => KindView::Direct,
            ExchangeKind::Headers => KindView::Headers,
            ExchangeKind::Custom(s) => KindView::Custom(s@),
        }
    }
}

/// The kind that a kind name denotes: the four built-in names, matched
/// case-sensitively, and any other name as a custom kind.
pub open spec fn kind_of_name(name: Seq<char>) -> KindView {
    if name == "Topic"@ {
        KindView::Topic
    } else if name == "Fanout"@ {
        KindView::Fanout
    } else if name == "Direct"@ {
        KindView::Direct
    } else if name == "Headers"@ {
        KindView::Headers
    } else {
        KindView::Custom(name)
    }
}

impl ExchangeKind {
    /// The kind named by `name`.
    pub fn from_name(name: String) -> (r: ExchangeKind)
        ensures
            r@ == kind_of_name(name@),
    {
        if name == "Topic".to_owned() {
            ExchangeKind::Topic
        } else if name == "Fanout".to_owned() {
            ExchangeKind::Fanout
        } else if name == "Direct".to_owned() {
            ExchangeKind::Direct
        } else if name == "Headers".to_owned() {
            ExchangeKind::Headers
        } else {
            ExchangeKind::Custom(name)
        }
    }
}

/// Flags of an exchange declaration.
#[derive(Clone, Copy, Debug, PartialEq, Eq, Structural)]
pub struct ExchangeOptions {
    pub passive: bool,
    pub durable: bool,
    pub auto_delete: bool,
    pub internal: bool,
    pub nowait: bool,
}

impl ExchangeOptions {
    /// All flags cleared.
    pub open spec fn spec_default() -> ExchangeOptions {
        ExchangeOptions { passive: false, durable: false, auto_delete: false, internal: false, nowait: false }
    }

    /// Only `durable` set, as the bootstrap exchange is declared.
    pub open spec fn spec_durable() -> ExchangeOptions {
        ExchangeOptions { durable: true, ..Self::spec_default() }
    }

    pub fn durable_only() -> (r: ExchangeOptions)
        ensures
            r == Self::spec_durable(),
    {
        ExchangeOptions { passive: false, durable: true, auto_delete: false, internal: false, nowait: false }
    }
}

impl Default for ExchangeOptions {
    fn default() -> (r: ExchangeOptions)
        ensures
            r == ExchangeOptions::spec_default(),
    {
        ExchangeOptions { passive: false, durable: false, auto_delete: false, internal: false, nowait: false }
    }
}

/// Flags of a queue declaration.
#[derive(Clone, Copy, Debug, PartialEq, Eq, Structural)]
pub struct QueueOptions {
    pub passive: bool,
    pub durable: bool,
    pub exclusive: bool,
    pub auto_delete: bool,
    pub nowait: bool,
}

impl QueueOptions {
    /// A subscription queue: exclusive to its connection, not durable, and
    /// deleted when the connection goes away.
    pub open spec fn spec_subscription() -> QueueOptions {
        QueueOptions { passive: false, durable: false, exclusive: true, auto_delete: true, nowait: true }
    }

    pub fn subscription() -> (r: QueueOptions)
        ensures
            r == Self::spec_subscription(),
    {
        QueueOptions { passive: false, durable: false, exclusive: true, auto_delete: true, nowait: true }
    }
}

/// Publish `payload` to `exchange` under `routing_key`.
#[derive(Debug, PartialEq, Eq)]
pub struct PublishToTopic {
    pub exchange: String,
    pub routing_key: String,
    pub payload: String,
}

pub struct PublishView {
    pub exchange: Seq<char>,
    pub routing_key: Seq<char>,
    pub payload: Seq<char>,
}

impl View for PublishToTopic {
    type V = PublishView;

    open spec fn view(&self) -> PublishView {
        PublishView { exchange: self.exchange@, routing_key: self.routing_key@, payload: self.payload@ }
    }
}

impl PublishToTopic {
    pub fn duplicate(&self) -> (r: PublishToTopic)
        ensures
            r@ == self@,
    {
        PublishToTopic {
            exchange: self.exchange.clone(),
            routing_key: self.routing_key.clone(),
            payload: self.payload.clone(),
        }
    }
}

/// Subscribe to `queue`, bound to `exchange` by the binding key
/// `connection_name`. The two identifiers are correlation context that no
/// broker call reads.
#[derive(Debug, PartialEq, Eq)]
pub struct ConsumeFromExchange {
    pub queue: String,
    pub exchange: String,
    pub connection_name: String,
    pub self_id: u128,
    pub room_id: u128,
}

pub struct ConsumeView {
    pub queue: Seq<char>,
    pub exchange: Seq<char>,
    pub binding_key: Seq<char>,
    pub self_id: u128,
    pub room_id: u128,
}

impl View for ConsumeFromExchange {
    type V = ConsumeView;

    open spec fn view(&self) -> ConsumeView {
        ConsumeView {
            queue: self.queue@,
            exchange: self.exchange@,
            binding_key: self.connection_name@,
            self_id: self.self_id,
            room_id: self.room_id,
        }
    }
}

impl ConsumeFromExchange {
    pub fn duplicate(&self) -> (r: ConsumeFromExchange)
        ensures
            r@ == self@,
    {
        ConsumeFromExchange {
            queue: self.queue.clone(),
            exchange: self.exchange.clone(),
            connection_name: self.connection_name.clone(),
            self_id: self.self_id,
            room_id: self.room_id,
        }
    }
}

/// Declare the exchange `exchange_name` of kind `exchange_kind`; absent
/// options stand for all flags cleared.
#[derive(Debug, PartialEq, Eq)]
pub struct CreateExchange {
    pub exchange_name: String,
    pub exchange_options: Option<ExchangeOptions>,
    pub exchange_kind: ExchangeKind,
}

pub struct CreateExchangeView {
    pub name: Seq<char>,
    pub options: Option<ExchangeOptions>,
    pub kind: KindView,
}

impl View for CreateExchange {
    type V = CreateExchangeView;

    open spec fn view(&self) -> CreateExchangeView {
        CreateExchangeView {
            name: self.exchange_name@,
            options: self.exchange_options,
            kind: self.exchange_kind@,
        }
    }
}

impl CreateExchange {
    /// The options that a declaration of this command uses.
    pub open spec fn effective_options(options: Option<ExchangeOptions>) -> ExchangeOptions {
        match options {
            Some(o) => o,
            None => ExchangeOptions::spec_default(),
        }
    }

    pub fn options_or_default(&self) -> (r: ExchangeOptions)
        ensures
            r == Self::effective_options(self.exchange_options),
    {
        match self.exchange_options {
            Some(o) => o,
            None => ExchangeOptions::default(),
        }
    }
}

} // verus!
