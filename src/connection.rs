use vstd::prelude::*;
use crate::actor::{
    command_effects, event_views, next, run, subscription_effects, views, ActorConfig, ActorState,
    Command, ConfigView, Effect, EffectView, Event, EventView, Operation,
};
use crate::delivery::handle_delivery;
use crate::messages::{
    ConsumeFromExchange, ConsumeView, CreateExchange, CreateExchangeView, ExchangeKind,
    ExchangeOptions, KindView, PublishToTopic, PublishView, QueueOptions,
};

verus! {

/// The decision core of the connection actor: its lifecycle state and fixed
/// targets. The runtime around it hands over one mailbox item at a time and
/// carries out the effects returned, in order, before the next item.
#[derive(Debug, PartialEq, Eq)]
pub struct ConnectionActor {
    pub state: ActorState,
    pub config: ActorConfig,
}

fn single(e: Effect) -> (r: Vec<Effect>)
    ensures
        views(r@) == seq![e@],
{
    let mut r: Vec<Effect> = Vec::new();
    r.push(e);
    assert(views(r@) =~= seq![e@]);
    r
}

fn nothing() -> (r: Vec<Effect>)
    ensures
        views(r@) == Seq::<EffectView>::empty(),
{
    let r: Vec<Effect> = Vec::new();
    assert(views(r@) =~= Seq::<EffectView>::empty());
    r
}

fn subscribe(s: ConsumeFromExchange) -> (r: Vec<Effect>)
    ensures
        views(r@) == subscription_effects(s@),
{
    let mut r: Vec<Effect> = Vec::new();
    r.push(Effect::DeclareQueue { queue: s.queue.clone(), queue_options: QueueOptions::subscription() });
    r.push(Effect::BindQueue { queue: s.queue.clone(), exchange: s.exchange, binding_key: s.connection_name });
    r.push(Effect::Consume { queue: s.queue });
    assert(views(r@) =~= subscription_effects(s@));
    r
}

fn perform(c: Command) -> (r: Vec<Effect>)
    ensures
        views(r@) == command_effects(c@),
{
    match c {
        Command::DeclareExchange(x) => {
            let options = x.options_or_default();
            single(Effect::DeclareExchange { name: x.exchange_name, kind: x.exchange_kind, options })
        },
        Command::Publish(p) => single(Effect::Publish(p)),
        Command::StartConsuming(s) => subscribe(s),
    }
}

impl ConnectionActor {
    /// A new actor, not yet activated.
    pub fn new(config: ActorConfig) -> (r: ConnectionActor)
        ensures
            r.state == ActorState::Starting,
            r.config@ == config@,
    {
        ConnectionActor { state: ActorState::Starting, config }
    }

    /// Handles one mailbox item to completion: moves to the next state and
    /// returns the effects to carry out, in order.
    pub fn step(&mut self, event: Event) -> (effects: Vec<Effect>)
        ensures
            final(self).config@ == old(self).config@,
            final(self).state == next(old(self).state, old(self).config@, event@).0,
            views(effects@) == next(old(self).state, old(self).config@, event@).1,
    {
        if let Event::Halted = event {
            self.state = ActorState::Stopped;
            return nothing();
        }
        match self.state {
            ActorState::Starting => match event {
                Event::Started => {
                    self.state = ActorState::Running;
                    let mut r: Vec<Effect> = Vec::new();
                    r.push(Effect::ScheduleHeartbeat { period_ms: self.config.heartbeat_period_ms });
                    r.push(Effect::Notify(self.config.subscription.duplicate()));
                    assert(views(r@) =~= next(old(self).state, old(self).config@, event@).1);
                    r
                },
                Event::Shutdown => {
                    self.state = ActorState::Stopping;
                    single(Effect::Stop)
                },
                _ => nothing(),
            },
            ActorState::Running => match event {
                Event::Command(c) => perform(c),
                Event::Tick => single(Effect::Publish(self.config.heartbeat.duplicate())),
                Event::Delivery { delivery_tag, data } => handle_delivery(delivery_tag, &data),
                Event::BrokerError(Operation::Publish) => single(Effect::ReportPublishFailure),
                Event::StreamError | Event::Shutdown | Event::BrokerError(_) => {
                    self.state = ActorState::Stopping;
                    single(Effect::Stop)
                },
                _ => nothing(),
            },
            _ => nothing(),
        }
    }

    /// Decides what remains of a batch of effects once one broker call of it
    /// has ended: after a success, the rest of the batch as it stands; after
    /// a failure, the rest is dropped and the failure is handled as a mailbox
    /// item of its own. So a failed queue declaration or binding is followed
    /// by no further call of the subscription setup.
    pub fn after_call(&mut self, failed: Option<Operation>, rest: Vec<Effect>) -> (effects: Vec<Effect>)
        ensures
            final(self).config@ == old(self).config@,
            failed is None ==> final(self).state == old(self).state && views(effects@) == views(rest@),
            failed is Some ==> final(self).state == next(old(self).state, old(self).config@, EventView::BrokerError(failed->Some_0)).0
                && views(effects@) == next(old(self).state, old(self).config@, EventView::BrokerError(failed->Some_0)).1,
    {
        match failed {
            None => rest,
            Some(op) => self.step(Event::BrokerError(op)),
        }
    }

    /// Handles a batch of mailbox items in arrival order, each to completion
    /// before the next, and returns all their effects in that order.
    pub fn drain(&mut self, events: Vec<Event>) -> (effects: Vec<Effect>)
        ensures
            final(self).config@ == old(self).config@,
            final(self).state == run(old(self).state, old(self).config@, event_views(events@)).0,
            views(effects@) == run(old(self).state, old(self).config@, event_views(events@)).1,
    {
        let ghost s0 = self.state;
        let ghost cfg = self.config@;
        let ghost all = event_views(events@);
        let mut rest = events;
        let mut effects: Vec<Effect> = Vec::new();
        assert(event_views(rest@) =~= all);
        assert(views(effects@) =~= Seq::<EffectView>::empty());
        assert(Seq::<EffectView>::empty() + run(s0, cfg, all).1 =~= run(s0, cfg, all).1);
        while rest.len() > 0
            invariant
                self.config@ == cfg,
                run(s0, cfg, all).0 == run(self.state, cfg, event_views(rest@)).0,
                run(s0, cfg, all).1 == views(effects@) + run(self.state, cfg, event_views(rest@)).1,
            decreases rest.len(),
        {
            let ghost before = event_views(rest@);
            let ghost s = self.state;
            let ghost done = views(effects@);
            let e = rest.remove(0);
            assert(event_views(rest@) =~= before.drop_first());
            assert(before[0] == e@);
            let mut more = self.step(e);
            let ghost added = views(more@);
            effects.append(&mut more);
            assert(views(effects@) =~= done + added);
            assert(run(s, cfg, before).1 == added + run(self.state, cfg, event_views(rest@)).1);
            assert(done + (added + run(self.state, cfg, event_views(rest@)).1)
                =~= (done + added) + run(self.state, cfg, event_views(rest@)).1);
        }
        assert(event_views(rest@) =~= Seq::<crate::actor::EventView>::empty());
        assert(views(effects@) + Seq::<EffectView>::empty() =~= views(effects@));
        effects
    }
}

impl ActorConfig {
    /// The bootstrap targets: a heartbeat "rabbit says hi" every 1000 ms to
    /// `demo_exchange` under `/rabbit`, and a subscription of `rabbit_queue`
    /// to `demo_exchange` under the same key.
    pub fn bootstrap() -> (r: ActorConfig)
        ensures
            r@ == (ConfigView {
                period_ms: 1000,
                heartbeat: PublishView {
                    exchange: "demo_exchange"@,
                    routing_key: "/rabbit"@,
                    payload: "rabbit says hi"@,
                },
                subscription: ConsumeView {
                    queue: "rabbit_queue"@,
                    exchange: "demo_exchange"@,
                    binding_key: "/rabbit"@,
                    self_id: 0,
                    room_id: 0,
                },
            }),
    {
        ActorConfig {
            heartbeat_period_ms: 1000,
            heartbeat: PublishToTopic {
                exchange: "demo_exchange".to_owned(),
                routing_key: "/rabbit".to_owned(),
                payload: "rabbit says hi".to_owned(),
            },
            subscription: ConsumeFromExchange {
                queue: "rabbit_queue".to_owned(),
                exchange: "demo_exchange".to_owned(),
                connection_name: "/rabbit".to_owned(),
                self_id: 0,
                room_id: 0,
            },
        }
    }
}

impl CreateExchange {
    /// The exchange declared at startup: `demo_exchange`, a durable topic
    /// exchange.
    pub fn bootstrap() -> (r: CreateExchange)
        ensures
            r@ == (CreateExchangeView {
                name: "demo_exchange"@,
                options: Some(ExchangeOptions::spec_durable()),
                kind: KindView::Topic,
            }),
    {
        CreateExchange {
            exchange_name: "demo_exchange".to_owned(),
            exchange_options: Some(ExchangeOptions::durable_only()),
            exchange_kind: ExchangeKind::Topic,
        }
    }
}

} // verus!
