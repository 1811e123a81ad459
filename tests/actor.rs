use rabbit_client::{
    handle_delivery, ActorConfig, ActorState, Command, ConnectionActor, ConsumeFromExchange,
    CreateExchange, Effect, Event, ExchangeKind, ExchangeOptions, Operation, PublishToTopic,
    QueueOptions,
};

fn heartbeat() -> PublishToTopic {
    PublishToTopic {
        exchange: "demo_exchange".to_string(),
        routing_key: "/rabbit".to_string(),
        payload: "rabbit says hi".to_string(),
    }
}

fn running() -> ConnectionActor {
    let mut actor = ConnectionActor::new(ActorConfig::bootstrap());
    actor.step(Event::Started);
    assert_eq!(actor.state, ActorState::Running);
    actor
}

fn delivery(tag: u64, data: &[u8]) -> Event {
    Event::Delivery { delivery_tag: tag, data: data.to_vec() }
}

fn publish(payload: &str) -> PublishToTopic {
    PublishToTopic { exchange: "ex".to_string(), routing_key: "key".to_string(), payload: payload.to_string() }
}

#[test]
fn bootstrap_configuration() {
    let c = ActorConfig::bootstrap();
    assert_eq!(c.heartbeat_period_ms, 1000);
    assert_eq!(c.heartbeat, heartbeat());
    assert_eq!(c.subscription.queue, "rabbit_queue");
    assert_eq!(c.subscription.exchange, "demo_exchange");
    assert_eq!(c.subscription.connection_name, "/rabbit");
}

#[test]
fn activation_schedules_heartbeat_and_subscribes() {
    let mut actor = ConnectionActor::new(ActorConfig::bootstrap());
    assert_eq!(actor.state, ActorState::Starting);
    let effects = actor.step(Event::Started);
    assert_eq!(actor.state, ActorState::Running);
    assert_eq!(effects.len(), 2);
    assert_eq!(effects[0], Effect::ScheduleHeartbeat { period_ms: 1000 });
    assert_eq!(effects[1], Effect::Notify(ConsumeFromExchange {
        queue: "rabbit_queue".to_string(),
        exchange: "demo_exchange".to_string(),
        connection_name: "/rabbit".to_string(),
        self_id: 0,
        room_id: 0,
    }));
}

#[test]
fn five_ticks_publish_five_heartbeats() {
    let mut actor = running();
    let ticks: Vec<Event> = (0..5).map(|_| Event::Tick).collect();
    let effects = actor.drain(ticks);
    assert_eq!(effects.len(), 5);
    for e in effects {
        assert_eq!(e, Effect::Publish(heartbeat()));
    }
    assert_eq!(actor.state, ActorState::Running);
}

#[test]
fn effects_follow_arrival_order() {
    let mut actor = running();
    let events = vec![
        Event::Command(Command::Publish(publish("one"))),
        delivery(7, b"first"),
        Event::Tick,
        Event::Command(Command::DeclareExchange(CreateExchange {
            exchange_name: "audit".to_string(),
            exchange_options: None,
            exchange_kind: ExchangeKind::Fanout,
        })),
        delivery(8, b"second"),
    ];
    let effects = actor.drain(events);
    let expected = vec![
        Effect::Publish(publish("one")),
        Effect::Ack { delivery_tag: 7 },
        Effect::Forward { delivery_tag: 7, text: "first".to_string() },
        Effect::Publish(heartbeat()),
        Effect::DeclareExchange {
            name: "audit".to_string(),
            kind: ExchangeKind::Fanout,
            options: ExchangeOptions { passive: false, durable: false, auto_delete: false, internal: false, nowait: false },
        },
        Effect::Ack { delivery_tag: 8 },
        Effect::Forward { delivery_tag: 8, text: "second".to_string() },
    ];
    assert_eq!(effects, expected);
}

#[test]
fn start_consuming_issues_three_calls_in_order() {
    let mut actor = running();
    let effects = actor.step(Event::Command(Command::StartConsuming(ConsumeFromExchange {
        queue: "q".to_string(),
        exchange: "ex".to_string(),
        connection_name: "k.#".to_string(),
        self_id: 1,
        room_id: 2,
    })));
    let options = QueueOptions { passive: false, durable: false, exclusive: true, auto_delete: true, nowait: true };
    assert_eq!(effects, vec![
        Effect::DeclareQueue { queue: "q".to_string(), queue_options: options },
        Effect::BindQueue { queue: "q".to_string(), exchange: "ex".to_string(), binding_key: "k.#".to_string() },
        Effect::Consume { queue: "q".to_string() },
    ]);
}

#[test]
fn each_delivery_is_acknowledged_once() {
    let mut actor = running();
    let effects = actor.drain(vec![delivery(1, b"a"), delivery(2, &[0xff, 0xfe]), delivery(3, b"")]);
    for tag in 1..=3u64 {
        let acks = effects.iter().filter(|e| **e == Effect::Ack { delivery_tag: tag }).count();
        assert_eq!(acks, 1);
    }
}

#[test]
fn undecodable_payload_is_acknowledged_and_reported() {
    let effects = handle_delivery(4, &vec![b'o', 0xc3, 0x28]);
    assert_eq!(effects, vec![Effect::Ack { delivery_tag: 4 }, Effect::ReportDecodeError { delivery_tag: 4 }]);
}

#[test]
fn utf8_payload_is_decoded() {
    let effects = handle_delivery(9, &"héllo".as_bytes().to_vec());
    assert_eq!(effects, vec![
        Effect::Ack { delivery_tag: 9 },
        Effect::Forward { delivery_tag: 9, text: "héllo".to_string() },
    ]);
}

#[test]
fn stream_error_stops_the_actor() {
    let mut actor = running();
    let effects = actor.drain(vec![
        Event::StreamError,
        Event::Command(Command::Publish(publish("late"))),
        Event::Tick,
        delivery(5, b"late"),
    ]);
    assert_eq!(effects, vec![Effect::Stop]);
    assert_eq!(actor.state, ActorState::Stopping);
    assert_eq!(actor.step(Event::Halted), vec![]);
    assert_eq!(actor.state, ActorState::Stopped);
    assert_eq!(actor.step(Event::Tick), vec![]);
}

#[test]
fn publish_failure_is_not_fatal() {
    let mut actor = running();
    let effects = actor.step(Event::BrokerError(Operation::Publish));
    assert_eq!(effects, vec![Effect::ReportPublishFailure]);
    assert_eq!(actor.state, ActorState::Running);
}

#[test]
fn declare_failure_is_fatal() {
    let mut actor = running();
    assert_eq!(actor.step(Event::BrokerError(Operation::DeclareExchange)), vec![Effect::Stop]);
    assert_eq!(actor.state, ActorState::Stopping);
}

#[test]
fn shutdown_stops_the_actor() {
    let mut actor = running();
    assert_eq!(actor.step(Event::Shutdown), vec![Effect::Stop]);
    assert_eq!(actor.state, ActorState::Stopping);
    assert_eq!(actor.step(Event::Command(Command::Publish(publish("x")))), vec![]);
}

#[test]
fn items_before_activation_are_ignored() {
    let mut actor = ConnectionActor::new(ActorConfig::bootstrap());
    assert_eq!(actor.step(Event::Tick), vec![]);
    assert_eq!(actor.state, ActorState::Starting);
    assert_eq!(actor.step(Event::Shutdown), vec![Effect::Stop]);
    assert_eq!(actor.state, ActorState::Stopping);
}

#[test]
fn declaration_keeps_given_options() {
    let mut actor = running();
    let options = ExchangeOptions { passive: true, durable: false, auto_delete: true, internal: false, nowait: true };
    let effects = actor.step(Event::Command(Command::DeclareExchange(CreateExchange {
        exchange_name: "e".to_string(),
        exchange_options: Some(options),
        exchange_kind: ExchangeKind::Custom("x-delayed".to_string()),
    })));
    assert_eq!(effects, vec![Effect::DeclareExchange {
        name: "e".to_string(),
        kind: ExchangeKind::Custom("x-delayed".to_string()),
        options,
    }]);
}

#[test]
fn failed_queue_declaration_drops_the_rest_of_the_setup() {
    let mut actor = running();
    let mut setup = actor.step(Event::Command(Command::StartConsuming(ConsumeFromExchange {
        queue: "q".to_string(),
        exchange: "ex".to_string(),
        connection_name: "k".to_string(),
        self_id: 0,
        room_id: 0,
    })));
    assert_eq!(setup.len(), 3);
    let rest = setup.split_off(1);
    let remaining = actor.after_call(Some(Operation::DeclareQueue), rest);
    assert_eq!(remaining, vec![Effect::Stop]);
    assert_eq!(actor.state, ActorState::Stopping);
}

#[test]
fn failed_binding_drops_the_consumer_registration() {
    let mut actor = running();
    let rest = vec![Effect::Consume { queue: "q".to_string() }];
    assert_eq!(actor.after_call(Some(Operation::BindQueue), rest), vec![Effect::Stop]);
    assert_eq!(actor.state, ActorState::Stopping);
}

#[test]
fn successful_call_keeps_the_rest_of_the_batch() {
    let mut actor = running();
    let rest = vec![Effect::Consume { queue: "q".to_string() }];
    assert_eq!(actor.after_call(None, rest), vec![Effect::Consume { queue: "q".to_string() }]);
    assert_eq!(actor.state, ActorState::Running);
}

#[test]
fn failed_publish_keeps_running_without_the_rest() {
    let mut actor = running();
    let rest = vec![Effect::Publish(publish("next"))];
    assert_eq!(actor.after_call(Some(Operation::Publish), rest), vec![Effect::ReportPublishFailure]);
    assert_eq!(actor.state, ActorState::Running);
}
