use vstd::prelude::*;

verus! {

/// The queue that carries product-created notifications.
pub const PRODUCT_CREATED_QUEUE_NAME: &'static str = "product.created";

/// The consumer identity this service subscribes under.
pub const CONSUMER_TAG: &'static str = "eshop-payment-service";

/// Where and as whom to connect to the message broker.
pub struct RabbitMqInitializationInfo {
    uri: String,
    port: u16,
    username: String,
    password: String,
}

impl RabbitMqInitializationInfo {
    pub closed spec fn spec_uri(&self) -> Seq<char> {
        self.uri@
    }

    pub closed spec fn spec_port(&self) -> u16 {
        self.port
    }

    pub closed spec fn spec_username(&self) -> Seq<char> {
        self.username@
    }

    pub closed spec fn spec_password(&self) -> Seq<char> {
        self.password@
    }

    pub fn new(uri: String, port: u16, username: String, password: String) -> (r:
        RabbitMqInitializationInfo)
        ensures
            r.spec_uri() == uri@,
            r.spec_port() == port,
            r.spec_username() == username@,
            r.spec_password() == password@,
    {
        RabbitMqInitializationInfo { uri, port, username, password }
    }

    pub fn uri(&self) -> (r: &str)
        ensures
            r@ == self.spec_uri(),
    {
        self.uri.as_str()
    }

    pub fn port(&self) -> (r: u16)
        ensures
            r == self.spec_port(),
    {
        self.port
    }

    pub fn username(&self) -> (r: &str)
        ensures
            r@ == self.spec_username(),
    {
        self.username.as_str()
    }

    pub fn password(&self) -> (r: &str)
        ensures
            r@ == self.spec_password(),
    {
        self.password.as_str()
    }
}

/// The domain notifications exchanged over the broker. Adding a variant makes
/// every exhaustive match over it, the consumer's included, name the new case.
#[derive(Debug)]
pub enum Event {
    ProductCreatedEvent { product_id: String },
}

impl Event {
    pub open spec fn spec_topic(&self) -> Seq<char> {
        match self {
            Event::ProductCreatedEvent { .. } => "product.created"@,
        }
    }

    /// The exchange (and queue) that carries this kind of event.
    pub fn topic(&self) -> (r: &'static str)
        ensures
            r@ == self.spec_topic(),
    {
        match self {
            Event::ProductCreatedEvent { .. } => PRODUCT_CREATED_QUEUE_NAME,
        }
    }
}

/// The setup phases of the consumer of one queue.
#[derive(Clone, Copy, Debug, PartialEq, Eq, Structural)]
pub enum ConsumerState {
    /// Nothing declared yet.
    Unbound,
    /// Exchange and queue declared and bound; the subscription is requested.
    Declared,
    /// A subscription is active and deliveries are handled.
    Consuming,
    /// Setup failed or the queue has no handler; nothing more happens.
    Stopped,
}

/// What the broker side reports to the consumer.
#[derive(Debug)]
pub enum ConsumerEvent {
    /// The consumer task begins.
    Start,
    /// The requested setup step (declaration or subscription) succeeded.
    SetupSucceeded,
    /// The requested setup step failed, for this cause.
    SetupFailed(String),
    /// A message arrived; its body decoded to an event, or failed to for this
    /// cause (malformed text, or a tag that names no known event).
    Delivered(Result<Event, String>),
}

/// What the consumer asks its driver to do next.
#[derive(Debug)]
pub enum ConsumerAction {
    /// Declare a fanout exchange and a durable queue of this name, and bind them.
    Declare { queue: String },
    /// Subscribe to the queue; with `manual_ack` false each delivery is
    /// acknowledged on receipt, before it is handled.
    Subscribe { queue: String, consumer_tag: String, manual_ack: bool },
    /// Setup failed: end the consumer with this cause.
    Abort { cause: String },
    /// No handler exists for this queue: report it and stop.
    Unsupported { queue: String },
    /// Dispatch the product-created reaction for this product.
    ProductCreated { product_id: String },
    /// Report the undecodable delivery and go on with the next one.
    DropDelivery { cause: String },
    /// Nothing to do.
    Nothing,
}

pub open spec fn is_product_created_queue(queue: Seq<char>) -> bool {
    queue == "product.created"@
}

/// The consumer's transition: from `state`, on `event`, it moves to `next` and
/// asks for `action`.
pub open spec fn transition(
    queue: String,
    state: ConsumerState,
    event: ConsumerEvent,
    next: ConsumerState,
    action: ConsumerAction,
) -> bool {
    match (state, event) {
        (ConsumerState::Unbound, ConsumerEvent::Start) => next == ConsumerState::Unbound && action
            == ConsumerAction::Declare { queue },
        (ConsumerState::Unbound, ConsumerEvent::SetupSucceeded) => if is_product_created_queue(
            queue@,
        ) {
            next == ConsumerState::Declared && (action matches ConsumerAction::Subscribe {
                queue: q,
                consumer_tag,
                manual_ack,
            } && q == queue && consumer_tag@ == "eshop-payment-service"@ && !manual_ack)
        } else {
            next == ConsumerState::Stopped && action == ConsumerAction::Unsupported { queue }
        },
        (ConsumerState::Declared, ConsumerEvent::SetupSucceeded) => next
            == ConsumerState::Consuming && action == ConsumerAction::Nothing,
        (ConsumerState::Unbound, ConsumerEvent::SetupFailed(cause)) => next
            == ConsumerState::Stopped && action == ConsumerAction::Abort { cause },
        (ConsumerState::Declared, ConsumerEvent::SetupFailed(cause)) => next
            == ConsumerState::Stopped && action == ConsumerAction::Abort { cause },
        (
            ConsumerState::Consuming,
            ConsumerEvent::Delivered(Ok(Event::ProductCreatedEvent { product_id })),
        ) => next == ConsumerState::Consuming && action == ConsumerAction::ProductCreated {
            product_id,
        },
        (ConsumerState::Consuming, ConsumerEvent::Delivered(Err(cause))) => next
            == ConsumerState::Consuming && action == ConsumerAction::DropDelivery { cause },
        _ => next == state && action == ConsumerAction::Nothing,
    }
}

/// The consumer of one queue: declares it, subscribes when a handler exists
/// for it, then turns each delivery into the reaction to dispatch.
pub struct QueueConsumer {
    queue_name: String,
    state: ConsumerState,
}

impl QueueConsumer {
    pub closed spec fn spec_queue(&self) -> String {
        self.queue_name
    }

    pub closed spec fn spec_state(&self) -> ConsumerState {
        self.state
    }

    pub fn new(queue_name: String) -> (r: QueueConsumer)
        ensures
            r.spec_queue() == queue_name,
            r.spec_state() == ConsumerState::Unbound,
    {
        QueueConsumer { queue_name, state: ConsumerState::Unbound }
    }

    pub fn state(&self) -> (r: ConsumerState)
        ensures
            r == self.spec_state(),
    {
        self.state
    }

    /// Takes one report from the broker side and answers with the next action.
    pub fn step(&mut self, event: ConsumerEvent) -> (action: ConsumerAction)
        ensures
            final(self).spec_queue() == old(self).spec_queue(),
            transition(
                old(self).spec_queue(),
                old(self).spec_state(),
                event,
                final(self).spec_state(),
                action,
            ),
    {
        match (self.state, event) {
            (ConsumerState::Unbound, ConsumerEvent::Start) => ConsumerAction::Declare {
                queue: self.queue_name.clone(),
            },
            (ConsumerState::Unbound, ConsumerEvent::SetupSucceeded) => {
                let known = String::from_str(PRODUCT_CREATED_QUEUE_NAME);
                if self.queue_name == known {
                    self.state = ConsumerState::Declared;
                    ConsumerAction::Subscribe {
                        queue: self.queue_name.clone(),
                        consumer_tag: String::from_str(CONSUMER_TAG),
                        manual_ack: false,
                    }
                } else {
                    self.state = ConsumerState::Stopped;
                    ConsumerAction::Unsupported { queue: self.queue_name.clone() }
                }
            },
            (ConsumerState::Declared, ConsumerEvent::SetupSucceeded) => {
                self.state = ConsumerState::Consuming;
                ConsumerAction::Nothing
            },
            (ConsumerState::Unbound, ConsumerEvent::SetupFailed(cause))
            | (ConsumerState::Declared, ConsumerEvent::SetupFailed(cause)) => {
                self.state = ConsumerState::Stopped;
                ConsumerAction::Abort { cause }
            },
            (
                ConsumerState::Consuming,
                ConsumerEvent::Delivered(Ok(Event::ProductCreatedEvent { product_id })),
            ) => ConsumerAction::ProductCreated { product_id },
            (ConsumerState::Consuming, ConsumerEvent::Delivered(Err(cause))) => {
                ConsumerAction::DropDelivery { cause }
            },
            _ => ConsumerAction::Nothing,
        }
    }
}

/// A delivery that does not decode to a known event (malformed text, or an
/// unknown tag) is reported and dropped: no reaction is dispatched, and the
/// consumer stays subscribed for the next delivery.
pub proof fn lemma_undecodable_delivery_keeps_consuming(
    queue: String,
    cause: String,
    next: ConsumerState,
    action: ConsumerAction,
)
    requires
        transition(
            queue,
            ConsumerState::Consuming,
            ConsumerEvent::Delivered(Err(cause)),
            next,
            action,
        ),
    ensures
        next == ConsumerState::Consuming,
        action == (ConsumerAction::DropDelivery { cause }),
        !(action is ProductCreated) && !(action is Nothing),
{
}

/// A failed declaration or subscription ends the consumer.
pub proof fn lemma_setup_failure_is_fatal(
    queue: String,
    state: ConsumerState,
    cause: String,
    next: ConsumerState,
    action: ConsumerAction,
)
    requires
        state == ConsumerState::Unbound || state == ConsumerState::Declared,
        transition(queue, state, ConsumerEvent::SetupFailed(cause), next, action),
    ensures
        next == ConsumerState::Stopped,
        action == (ConsumerAction::Abort { cause }),
{
}

/// A stopped consumer stays stopped and asks for nothing, whatever it is told.
pub proof fn lemma_stopped_is_final(
    queue: String,
    event: ConsumerEvent,
    next: ConsumerState,
    action: ConsumerAction,
)
    requires
        transition(queue, ConsumerState::Stopped, event, next, action),
    ensures
        next == ConsumerState::Stopped,
        action == ConsumerAction::Nothing,
{
}

/// Deliveries reach the consumer's reactions only once it is subscribed.
pub proof fn lemma_reactions_only_while_consuming(
    queue: String,
    state: ConsumerState,
    event: ConsumerEvent,
    next: ConsumerState,
    action: ConsumerAction,
)
    requires
        transition(queue, state, event, next, action),
        (action is ProductCreated || action is DropDelivery),
    ensures
        state == ConsumerState::Consuming,
        next == ConsumerState::Consuming,
{
}

} // verus!
