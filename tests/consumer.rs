use payment_service::events::{
    ConsumerAction, ConsumerEvent, ConsumerState, Event, QueueConsumer, RabbitMqInitializationInfo,
    CONSUMER_TAG, PRODUCT_CREATED_QUEUE_NAME,
};

fn subscribed_consumer() -> QueueConsumer {
    let mut c = QueueConsumer::new(String::from(PRODUCT_CREATED_QUEUE_NAME));
    match c.step(ConsumerEvent::Start) {
        ConsumerAction::Declare { queue } => assert_eq!(queue, "product.created"),
        other => panic!("unexpected {:?}", other),
    }
    assert_eq!(c.state(), ConsumerState::Unbound);
    match c.step(ConsumerEvent::SetupSucceeded) {
        ConsumerAction::Subscribe { queue, consumer_tag, manual_ack } => {
            assert_eq!(queue, "product.created");
            assert_eq!(consumer_tag, "eshop-payment-service");
            assert!(!manual_ack);
        }
        other => panic!("unexpected {:?}", other),
    }
    assert_eq!(c.state(), ConsumerState::Declared);
    assert!(matches!(c.step(ConsumerEvent::SetupSucceeded), ConsumerAction::Nothing));
    assert_eq!(c.state(), ConsumerState::Consuming);
    c
}

#[test]
fn product_created_delivery_is_dispatched() {
    let mut c = subscribed_consumer();
    let event = Event::ProductCreatedEvent { product_id: String::from("p1") };
    match c.step(ConsumerEvent::Delivered(Ok(event))) {
        ConsumerAction::ProductCreated { product_id } => assert_eq!(product_id, "p1"),
        other => panic!("unexpected {:?}", other),
    }
    assert_eq!(c.state(), ConsumerState::Consuming);
}

#[test]
fn malformed_delivery_is_dropped_and_consumer_continues() {
    let mut c = subscribed_consumer();
    match c.step(ConsumerEvent::Delivered(Err(String::from("expected value at line 1 column 1")))) {
        ConsumerAction::DropDelivery { cause } => assert_eq!(cause, "expected value at line 1 column 1"),
        other => panic!("unexpected {:?}", other),
    }
    assert_eq!(c.state(), ConsumerState::Consuming);
    let event = Event::ProductCreatedEvent { product_id: String::from("p2") };
    assert!(matches!(c.step(ConsumerEvent::Delivered(Ok(event))), ConsumerAction::ProductCreated { .. }));
}

#[test]
fn unknown_event_tag_dispatches_nothing() {
    let mut c = subscribed_consumer();
    let action = c.step(ConsumerEvent::Delivered(Err(String::from("unknown variant `OrderShipped`"))));
    assert!(matches!(action, ConsumerAction::DropDelivery { .. }));
    assert!(!matches!(action, ConsumerAction::ProductCreated { .. }));
    assert_eq!(c.state(), ConsumerState::Consuming);
}

#[test]
fn unknown_queue_is_not_subscribed() {
    let mut c = QueueConsumer::new(String::from("order.shipped"));
    assert!(matches!(c.step(ConsumerEvent::Start), ConsumerAction::Declare { .. }));
    match c.step(ConsumerEvent::SetupSucceeded) {
        ConsumerAction::Unsupported { queue } => assert_eq!(queue, "order.shipped"),
        other => panic!("unexpected {:?}", other),
    }
    assert_eq!(c.state(), ConsumerState::Stopped);
}

#[test]
fn setup_failure_aborts_consumer() {
    let mut c = QueueConsumer::new(String::from(PRODUCT_CREATED_QUEUE_NAME));
    c.step(ConsumerEvent::Start);
    match c.step(ConsumerEvent::SetupFailed(String::from("connection refused"))) {
        ConsumerAction::Abort { cause } => assert_eq!(cause, "connection refused"),
        other => panic!("unexpected {:?}", other),
    }
    assert_eq!(c.state(), ConsumerState::Stopped);
    let event = Event::ProductCreatedEvent { product_id: String::from("p1") };
    assert!(matches!(c.step(ConsumerEvent::Delivered(Ok(event))), ConsumerAction::Nothing));
    assert!(matches!(c.step(ConsumerEvent::SetupSucceeded), ConsumerAction::Nothing));
    assert_eq!(c.state(), ConsumerState::Stopped);
}

#[test]
fn subscription_failure_aborts_consumer() {
    let mut c = QueueConsumer::new(String::from(PRODUCT_CREATED_QUEUE_NAME));
    c.step(ConsumerEvent::Start);
    c.step(ConsumerEvent::SetupSucceeded);
    assert!(matches!(c.step(ConsumerEvent::SetupFailed(String::from("no access"))), ConsumerAction::Abort { .. }));
    assert_eq!(c.state(), ConsumerState::Stopped);
}

#[test]
fn delivery_before_subscription_is_ignored() {
    let mut c = QueueConsumer::new(String::from(PRODUCT_CREATED_QUEUE_NAME));
    let event = Event::ProductCreatedEvent { product_id: String::from("p1") };
    assert!(matches!(c.step(ConsumerEvent::Delivered(Ok(event))), ConsumerAction::Nothing));
    assert_eq!(c.state(), ConsumerState::Unbound);
}

#[test]
fn broker_settings_are_kept() {
    let info = RabbitMqInitializationInfo::new(String::from("localhost"), 5672, String::from("guest"), String::from("SECRET-REDACTED"));
    assert_eq!(info.uri(), "localhost");
    assert_eq!(info.port(), 5672);
    assert_eq!(info.username(), "guest");
    assert_eq!(info.password(), "SECRET-REDACTED");
    assert_eq!(CONSUMER_TAG, "eshop-payment-service");
}

#[test]
fn product_created_event_topic() {
    let event = Event::ProductCreatedEvent { product_id: String::from("p1") };
    assert_eq!(event.topic(), "product.created");
    assert_eq!(event.topic(), PRODUCT_CREATED_QUEUE_NAME);
}
