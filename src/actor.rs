use vstd::prelude::*;
use vstd::utf8::{decode_utf8, valid_utf8};
use crate::messages::{
    ConsumeFromExchange, ConsumeView, CreateExchange, CreateExchangeView, ExchangeKind,
    ExchangeOptions, KindView, PublishToTopic, PublishView, QueueOptions,
};

verus! {

/// Lifecycle of the connection actor.
#[derive(Clone, Copy, Debug, PartialEq, Eq, Structural)]
pub enum ActorState {
    Starting,
    Running,
    Stopping,
    Stopped,
}

/// A broker operation whose failure is reported back to the actor.
#[derive(Clone, Copy, Debug, PartialEq, Eq, Structural)]
pub enum Operation {
    DeclareExchange,
    Publish,
    DeclareQueue,
    BindQueue,
    Consume,
    Ack,
}

/// A request addressed to the actor.
#[derive(Debug, PartialEq, Eq)]
pub enum Command {
    DeclareExchange(CreateExchange),
    Publish(PublishToTopic),
    StartConsuming(ConsumeFromExchange),
}

pub enum CommandView {
    DeclareExchange(CreateExchangeView),
    Publish(PublishView),
    StartConsuming(ConsumeView),
}

impl View for Command {
    type V = CommandView;

    open spec fn view(&self) -> CommandView {
        match self {
            Command::DeclareExchange(c) => CommandView::DeclareExchange(c@),
            Command::Publish(p) => CommandView::Publish(p@),
            Command::StartConsuming(s) => CommandView::StartConsuming(s@),
        }
    }
}

/// One item taken from the actor's mailbox, whatever its source: the
/// actor's own activation, a command, a timer tick, an item of the delivery
/// stream, the outcome of a broker call, or a lifecycle notice.
#[derive(Debug, PartialEq, Eq)]
pub enum Event {
    Started,
    Command(Command),
    Tick,
    Delivery { delivery_tag: u64, data: Vec<u8> },
    StreamError,
    BrokerError(Operation),
    Shutdown,
    Halted,
}

pub enum EventView {
    Started,
    Command(CommandView),
    Tick,
    Delivery { delivery_tag: u64, data: Seq<u8> },
    StreamError,
    BrokerError(Operation),
    Shutdown,
    Halted,
}

impl View for Event {
    type V = EventView;

    open spec fn view(&self) -> EventView {
        match self {
            Event::Started => EventView::Started,
            Event::Command(c) => EventView::Command(c@),
            Event::Tick => EventView::Tick,
            Event::Delivery { delivery_tag, data } => EventView::Delivery { delivery_tag: *delivery_tag, data: data@ },
            Event::StreamError => EventView::StreamError,
            Event::BrokerError(op) => EventView::BrokerError(*op),
            Event::Shutdown => EventView::Shutdown,
            Event::Halted => EventView::Halted,
        }
    }
}

/// A side effect that the actor asks its runtime to carry out, in order.
#[derive(Debug, PartialEq, Eq)]
pub enum Effect {
    ScheduleHeartbeat { period_ms: u64 },
    Notify(ConsumeFromExchange),
    DeclareExchange { name: String, kind: ExchangeKind, options: ExchangeOptions },
    Publish(PublishToTopic),
    DeclareQueue { queue: String, queue_options: QueueOptions },
    BindQueue { queue: String, exchange: String, binding_key: String },
    Consume { queue: String },
    Ack { delivery_tag: u64 },
    Forward { delivery_tag: u64, text: String },
    ReportDecodeError { delivery_tag: u64 },
    ReportPublishFailure,
    Stop,
}

pub enum EffectView {
    ScheduleHeartbeat { period_ms: u64 },
    Notify(ConsumeView),
    DeclareExchange { name: Seq<char>, kind: KindView, options: ExchangeOptions },
    Publish(PublishView),
    DeclareQueue { queue: Seq<char>, queue_options: QueueOptions },
    BindQueue { queue: Seq<char>, exchange: Seq<char>, binding_key: Seq<char> },
    Consume { queue: Seq<char> },
    Ack { delivery_tag: u64 },
    Forward { delivery_tag: u64, text: Seq<char> },
    ReportDecodeError { delivery_tag: u64 },
    ReportPublishFailure,
    Stop,
}

impl View for Effect {
    type V = EffectView;

    open spec fn view(&self) -> EffectView {
        match self {
            Effect::ScheduleHeartbeat { period_ms } => EffectView::ScheduleHeartbeat { period_ms: *period_ms },
            Effect::Notify(c) => EffectView::Notify(c@),
            Effect::DeclareExchange { name, kind, options } => EffectView::DeclareExchange { name: name@, kind: kind@, options: *options },
            Effect::Publish(p) => EffectView::Publish(p@),
            Effect::DeclareQueue { queue, queue_options } => EffectView::DeclareQueue { queue: queue@, queue_options: *queue_options },
            Effect::BindQueue { queue, exchange, binding_key } => EffectView::BindQueue { queue: queue@, exchange: exchange@, binding_key: binding_key@ },
            Effect::Consume { queue } => EffectView::Consume { queue: queue@ },
            Effect::Ack { delivery_tag } => EffectView::Ack { delivery_tag: *delivery_tag },
            Effect::Forward { delivery_tag, text } => EffectView::Forward { delivery_tag: *delivery_tag, text: text@ },
            Effect::ReportDecodeError { delivery_tag } => EffectView::ReportDecodeError { delivery_tag: *delivery_tag },
            Effect::ReportPublishFailure => EffectView::ReportPublishFailure,
            Effect::Stop => EffectView::Stop,
        }
    }
}

/// The models of a sequence of effects, in order.
pub open spec fn views(s: Seq<Effect>) -> Seq<EffectView> {
    s.map_values(|e: Effect| e@)
}

/// The models of a sequence of events, in order.
pub open spec fn event_views(s: Seq<Event>) -> Seq<EventView> {
    s.map_values(|e: Event| e@)
}

/// The actor's fixed targets: the heartbeat it publishes every period, and
/// the subscription it starts on activation.
#[derive(Debug, PartialEq, Eq)]
pub struct ActorConfig {
    pub heartbeat_period_ms: u64,
    pub heartbeat: PublishToTopic,
    pub subscription: ConsumeFromExchange,
}

pub struct ConfigView {
    pub period_ms: u64,
    pub heartbeat: PublishView,
    pub subscription: ConsumeView,
}

impl View for ActorConfig {
    type V = ConfigView;

    open spec fn view(&self) -> ConfigView {
        ConfigView { period_ms: self.heartbeat_period_ms, heartbeat: self.heartbeat@, subscription: self.subscription@ }
    }
}

/// The three broker calls that set up a subscription, in order: declare the
/// queue, bind it, register a consumer.
pub open spec fn subscription_effects(s: ConsumeView) -> Seq<EffectView> {
    seq![
        EffectView::DeclareQueue { queue: s.queue, queue_options: QueueOptions::spec_subscription() },
        EffectView::BindQueue { queue: s.queue, exchange: s.exchange, binding_key: s.binding_key },
        EffectView::Consume { queue: s.queue },
    ]
}

/// The broker calls that carry out one command.
pub open spec fn command_effects(c: CommandView) -> Seq<EffectView> {
    match c {
        CommandView::DeclareExchange(x) => seq![EffectView::DeclareExchange {
            name: x.name,
            kind: x.kind,
            options: CreateExchange::effective_options(x.options),
        }],
        CommandView::Publish(p) => seq![EffectView::Publish(p)],
        CommandView::StartConsuming(s) => subscription_effects(s),
    }
}

/// Handling of one delivered message: it is acknowledged first, once, and
/// then its text is forwarded, or, for bytes that are not UTF-8, the decode
/// failure is reported.
pub open spec fn delivery_effects(tag: u64, data: Seq<u8>) -> Seq<EffectView> {
    if valid_utf8(data) {
        seq![EffectView::Ack { delivery_tag: tag }, EffectView::Forward { delivery_tag: tag, text: decode_utf8(data) }]
    } else {
        seq![EffectView::Ack { delivery_tag: tag }, EffectView::ReportDecodeError { delivery_tag: tag }]
    }
}

/// Whether an event ends a running actor.
pub open spec fn is_fatal(e: EventView) -> bool {
    match e {
        EventView::StreamError => true,
        EventView::Shutdown => true,
        EventView::Halted => true,
        EventView::BrokerError(op) => op != Operation::Publish,
        _ => false,
    }
}

/// The state after one event, and the effects it asks for.
pub open spec fn next(s: ActorState, cfg: ConfigView, e: EventView) -> (ActorState, Seq<EffectView>) {
    match e {
        EventView::Halted => (ActorState::Stopped, seq![]),
        _ => match s {
            ActorState::Starting => match e {
                EventView::Started => (ActorState::Running, seq![
                    EffectView::ScheduleHeartbeat { period_ms: cfg.period_ms },
                    EffectView::Notify(cfg.subscription),
                ]),
                EventView::Shutdown => (ActorState::Stopping, seq![EffectView::Stop]),
                _ => (s, seq![]),
            },
            ActorState::Running => match e {
                EventView::Command(c) => (s, command_effects(c)),
                EventView::Tick => (s, seq![EffectView::Publish(cfg.heartbeat)]),
                EventView::Delivery { delivery_tag, data } => (s, delivery_effects(delivery_tag, data)),
                EventView::BrokerError(Operation::Publish) => (s, seq![EffectView::ReportPublishFailure]),
                EventView::StreamError | EventView::Shutdown | EventView::BrokerError(_) => (ActorState::Stopping, seq![EffectView::Stop]),
                _ => (s, seq![]),
            },
            _ => (s, seq![]),
        },
    }
}

/// The state after a sequence of events, each handled to completion before
/// the next, and all the effects asked for, in order.
pub open spec fn run(s: ActorState, cfg: ConfigView, evs: Seq<EventView>) -> (ActorState, Seq<EffectView>)
    decreases evs.len(),
{
    if evs.len() == 0 {
        (s, seq![])
    } else {
        let (s1, e1) = next(s, cfg, evs[0]);
        let (s2, e2) = run(s1, cfg, evs.drop_first());
        (s2, e1 + e2)
    }
}

} // verus!
