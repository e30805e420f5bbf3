use vstd::prelude::*;

use crate::domain::{LineItem, Payment, PaymentStatus};
use crate::dtos::{
    CreateCheckoutSessionResponseDto, EmptyResponse, LineItemRequestDto,
    PaymentProcessorCreatePricingRequestDto, Response,
};
use crate::errors::{CommandError, CommandStep, ErrorKind, GatewayError};
use crate::paymentprocessors::{is_pricing_request_for, PaymentProcessor};

verus! {

/// Marks a type as a request to change state.
pub trait Command {}

/// Marks a type as a request to read state.
pub trait Query {}

/// Handles one kind of command, producing its response or the reason it failed.
pub trait CommandHandler<C: Command, R: Response> {
    fn handle(&self, input: &C) -> Result<R, CommandError>;
}

/// Handles one kind of query.
pub trait QueryHandler<Q: Query, R: Response> {
    fn handle(&self, input: Option<Q>) -> Result<R, CommandError>;
}

pub struct CreateCheckoutSessionCommand {
    pub line_items: Vec<LineItemRequestDto>,
}

impl Command for CreateCheckoutSessionCommand {}

/// Registers a product and its price. `product_price` is a whole amount in
/// major currency units.
pub struct CreateProductPricingCommand {
    pub product_id: String,
    pub product_name: String,
    pub product_price: i32,
}

impl Command for CreateProductPricingCommand {}

pub open spec fn is_lower_hex_digit(c: char) -> bool {
    ('0' <= c && c <= '9') || ('a' <= c && c <= 'f')
}

/// The text of a random (version 4, RFC 4122 variant) UUID in lower-case
/// hyphenated form: `xxxxxxxx-xxxx-4xxx-Nxxx-xxxxxxxxxxxx` with `N` one of
/// `8`, `9`, `a`, `b`.
pub open spec fn is_uuid_v4_text(s: Seq<char>) -> bool {
    &&& s.len() == 36
    &&& forall|i: int|
        0 <= i < 36 ==> (if i == 8 || i == 13 || i == 18 || i == 23 {
            s[i] == '-'
        } else {
            is_lower_hex_digit(#[trigger] s[i])
        })
    &&& s[14] == '4'
    &&& (s[19] == '8' || s[19] == '9' || s[19] == 'a' || s[19] == 'b')
}

/// Relies on uuid::Uuid::new_v4 and its `Display`: a random UUID with the
/// version and variant bits set, printed lower-case and hyphenated. (It
/// panics only when the operating system's random source fails.)
#[verifier::external_body]
fn generate_payment_id() -> (r: String)
    ensures
        is_uuid_v4_text(r@),
{
    uuid::Uuid::new_v4().to_string()
}

pub open spec fn line_item_matches(item: LineItem, request: LineItemRequestDto) -> bool {
    item.product_id@ == request.product_id@ && item.quantity == request.quantity && item.price
        == request.price
}

/// A fresh payment under the given id, carrying the command's lines.
pub fn new_payment(id: String, line_items: &Vec<LineItemRequestDto>) -> (p: Payment)
    ensures
        p.id == id,
        p.is_fresh(),
        p.line_items@.len() == line_items@.len(),
        forall|i: int|
            0 <= i < p.line_items@.len() ==> line_item_matches(
                #[trigger] p.line_items@[i],
                line_items@[i],
            ),
{
    let mut items: Vec<LineItem> = Vec::new();
    let mut i: usize = 0;
    while i < line_items.len()
        invariant
            i <= line_items@.len(),
            items@.len() == i,
            forall|j: int| 0 <= j < i ==> line_item_matches(#[trigger] items@[j], line_items@[j]),
        decreases line_items@.len() - i,
    {
        let request = &line_items[i];
        items.push(
            LineItem {
                product_id: request.product_id.clone(),
                quantity: request.quantity,
                price: request.price,
            },
        );
        i = i + 1;
    }
    Payment {
        id,
        line_items: items,
        status: PaymentStatus::NEW.to_string(),
        payment_processor: String::new(),
        payment_processor_checkout_session_id: String::new(),
        payment_processor_checkout_session_url: String::new(),
        payment_processor_id: String::new(),
        payment_processor_status: String::new(),
    }
}

/// The answer to a checkout command, given the id the payment was created
/// under and what the gateway returned for it.
pub fn checkout_session_response(payment_id: String, outcome: Result<Payment, GatewayError>) -> (r:
    Result<CreateCheckoutSessionResponseDto, CommandError>)
    ensures
        match outcome {
            Ok(p) => r is Ok && r->Ok_0.payment_id == payment_id && r->Ok_0.checkout_session_id
                == p.payment_processor_checkout_session_id && r->Ok_0.checkout_session_url
                == p.payment_processor_checkout_session_url,
            Err(e) => r is Err && r->Err_0.step == CommandStep::CreateCheckoutSession
                && r->Err_0.source == e,
        },
{
    match outcome {
        Ok(p) => Ok(
            CreateCheckoutSessionResponseDto {
                payment_id,
                checkout_session_id: p.payment_processor_checkout_session_id,
                checkout_session_url: p.payment_processor_checkout_session_url,
            },
        ),
        Err(e) => Err(CommandError { step: CommandStep::CreateCheckoutSession, source: e }),
    }
}

/// Starts a checkout: creates a payment with a new id and the command's
/// lines, asks the gateway for a checkout session, and reports the session.
pub struct CreateCheckoutSessionCommandHandler<P> {
    payment_processor: P,
}

impl<P: PaymentProcessor> CreateCheckoutSessionCommandHandler<P> {
    pub closed spec fn processor(&self) -> P {
        self.payment_processor
    }

    pub fn new(payment_processor: P) -> (r: Self)
        ensures
            r.processor() == payment_processor,
    {
        CreateCheckoutSessionCommandHandler { payment_processor }
    }
}

impl<P: PaymentProcessor> CommandHandler<
    CreateCheckoutSessionCommand,
    CreateCheckoutSessionResponseDto,
> for CreateCheckoutSessionCommandHandler<P> {
    /// The payment handed to the gateway is fresh and carries the command's
    /// lines; on success the answer names the newly generated payment id.
    fn handle(&self, input: &CreateCheckoutSessionCommand) -> (r: Result<
        CreateCheckoutSessionResponseDto,
        CommandError,
    >)
        ensures
            r is Ok ==> is_uuid_v4_text(r->Ok_0.payment_id@),
            r is Err ==> r->Err_0.step == CommandStep::CreateCheckoutSession,
    {
        let id = generate_payment_id();
        let payment = new_payment(id.clone(), &input.line_items);
        let outcome = self.payment_processor.create_checkout_session(payment);
        checkout_session_response(id, outcome)
    }
}

/// What the pricing command does after the product registration: register
/// the price, or finish with this result.
pub enum PricingStep {
    CreatePrice { product_id: String, currency: String, unit_amount: i32 },
    Finish(Result<EmptyResponse, CommandError>),
}

/// Whether `step` is what the pricing command does once the product
/// registration answered `outcome`: on success, register the command's price
/// in US dollars for the product; on failure, finish with that failure.
pub open spec fn follows_plan(
    step: PricingStep,
    input: CreateProductPricingCommand,
    outcome: Result<(), GatewayError>,
) -> bool {
    match outcome {
        Ok(_) => match step {
            PricingStep::CreatePrice { product_id, currency, unit_amount } => product_id
                == input.product_id && currency@ == "usd"@ && unit_amount == input.product_price,
            PricingStep::Finish(_) => false,
        },
        Err(e) => match step {
            PricingStep::Finish(r) => r is Err && r->Err_0.step == CommandStep::CreateProduct
                && r->Err_0.source == e,
            PricingStep::CreatePrice { .. } => false,
        },
    }
}

/// Decides the pricing command's next step from the product registration's
/// outcome.
pub fn after_create_product(
    input: &CreateProductPricingCommand,
    outcome: Result<(), GatewayError>,
) -> (r: PricingStep)
    ensures
        follows_plan(r, *input, outcome),
{
    match outcome {
        Ok(()) => PricingStep::CreatePrice {
            product_id: input.product_id.clone(),
            currency: String::from_str("usd"),
            unit_amount: input.product_price,
        },
        Err(e) => PricingStep::Finish(
            Err(CommandError { step: CommandStep::CreateProduct, source: e }),
        ),
    }
}

/// The pricing command's answer once the price registration answered
/// `outcome`.
pub fn after_create_pricing(outcome: Result<(), GatewayError>) -> (r: Result<
    EmptyResponse,
    CommandError,
>)
    ensures
        match outcome {
            Ok(_) => r is Ok,
            Err(e) => r is Err && r->Err_0.step == CommandStep::CreateProductPricing
                && r->Err_0.source == e,
        },
{
    match outcome {
        Ok(()) => Ok(EmptyResponse {  }),
        Err(e) => Err(CommandError { step: CommandStep::CreateProductPricing, source: e }),
    }
}

/// A failed product registration ends the pricing command with that failure:
/// the price registration is never attempted.
pub proof fn lemma_product_failure_skips_pricing(
    input: CreateProductPricingCommand,
    e: GatewayError,
    step: PricingStep,
)
    requires
        follows_plan(step, input, Err(e)),
    ensures
        step matches PricingStep::Finish(r) && r is Err && r->Err_0.step
            == CommandStep::CreateProduct && r->Err_0.source == e,
{
}

/// The price of a pricing command reaches the processor in minor units: once
/// the product is registered, the price registration that the gateway builds
/// from the planned step carries the command's product and its whole price
/// times one hundred (or refuses an amount whose conversion does not fit).
pub proof fn lemma_price_sent_in_minor_units(
    input: CreateProductPricingCommand,
    step: PricingStep,
    request: Result<PaymentProcessorCreatePricingRequestDto, GatewayError>,
)
    requires
        follows_plan(step, input, Ok(())),
        step matches PricingStep::CreatePrice { product_id, currency, unit_amount }
            && is_pricing_request_for(request, product_id, currency, unit_amount),
    ensures
        i32::MIN <= input.product_price * 100 <= i32::MAX ==> request is Ok
            && request->Ok_0.product == input.product_id && request->Ok_0.currency@ == "usd"@
            && request->Ok_0.unit_amount == input.product_price * 100,
        !(i32::MIN <= input.product_price * 100 <= i32::MAX) ==> request is Err
            && request->Err_0.kind == ErrorKind::InvalidAmount,
{
}

/// Registers a product with the gateway and then its price; a failed product
/// registration ends the command before any price is registered.
pub struct CreateProductPricingCommandHandler<P> {
    payment_processor: P,
}

impl<P: PaymentProcessor> CreateProductPricingCommandHandler<P> {
    pub closed spec fn processor(&self) -> P {
        self.payment_processor
    }

    pub fn new(payment_processor: P) -> (r: Self)
        ensures
            r.processor() == payment_processor,
    {
        CreateProductPricingCommandHandler { payment_processor }
    }
}

impl<P: PaymentProcessor> CommandHandler<CreateProductPricingCommand, EmptyResponse> for
    CreateProductPricingCommandHandler<P> {
    fn handle(&self, input: &CreateProductPricingCommand) -> (r: Result<EmptyResponse, CommandError>)
        ensures
            r is Err ==> r->Err_0.step == CommandStep::CreateProduct || r->Err_0.step
                == CommandStep::CreateProductPricing,
    {
        let created = self.payment_processor.create_product(
            input.product_id.clone(),
            input.product_name.clone(),
        );
        match after_create_product(input, created) {
            PricingStep::CreatePrice { product_id, currency, unit_amount } => {
                let priced = self.payment_processor.create_product_pricing(
                    product_id,
                    currency,
                    unit_amount,
                );
                after_create_pricing(priced)
            },
            PricingStep::Finish(result) => result,
        }
    }
}

} // verus!
