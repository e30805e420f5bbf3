use vstd::prelude::*;

use crate::domain::{LineItem, Payment};
use crate::dtos::{
    PaymentProcessorCreateCheckoutSessionRequestDto, PaymentProcessorCreateCheckoutSessionResponseDto,
    PaymentProcessorCreatePricingRequestDto, PaymentProcessorCreateProductRequestDto,
    PaymentProcessorLineItemRequestDto,
};
use crate::errors::{ErrorKind, GatewayError};

verus! {

/// The capabilities that the orchestration layer needs from a payment
/// processor. Each call is one outbound request; every failure is reported as
/// a `GatewayError`.
pub trait PaymentProcessor {
    fn create_checkout_session(&self, payment: Payment) -> Result<Payment, GatewayError>;

    fn create_product(&self, product_id: String, name: String) -> Result<(), GatewayError>;

    fn create_product_pricing(
        &self,
        product_id: String,
        currency: String,
        unit_amount: i32,
    ) -> Result<(), GatewayError>;
}

/// The amount in minor units of a two-decimal currency for a major-unit amount.
pub open spec fn minor_units(major: int) -> int {
    major * 100
}

/// Converts a major-unit amount to minor units; `None` when the result does
/// not fit in an `i32`.
pub fn to_minor_units(major: i32) -> (r: Option<i32>)
    ensures
        i32::MIN <= minor_units(major as int) <= i32::MAX ==> r == Some(minor_units(major as int) as i32),
        !(i32::MIN <= minor_units(major as int) <= i32::MAX) ==> r is None,
{
    major.checked_mul(100)
}

/// The processor endpoints that the gateway posts to.
#[derive(Clone, Copy, Debug, PartialEq, Eq, Structural)]
pub enum StripeEndpoint {
    CheckoutSessions,
    Products,
    Prices,
}

impl StripeEndpoint {
    pub open spec fn spec_path(self) -> Seq<char> {
        match self {
            StripeEndpoint::CheckoutSessions => "/v1/checkout/sessions"@,
            StripeEndpoint::Products => "/v1/products"@,
            StripeEndpoint::Prices => "/v1/prices"@,
        }
    }

    pub fn path(&self) -> (r: &'static str)
        ensures
            r@ == self.spec_path(),
    {
        match self {
            StripeEndpoint::CheckoutSessions => "/v1/checkout/sessions",
            StripeEndpoint::Products => "/v1/products",
            StripeEndpoint::Prices => "/v1/prices",
        }
    }
}

/// The full URL of an endpoint below the processor's API base URL.
pub fn endpoint_url(api_base: &str, endpoint: StripeEndpoint) -> (r: String)
    ensures
        r@ == api_base@ + endpoint.spec_path(),
{
    let base = String::from_str(api_base);
    base.concat(endpoint.path())
}

/// The value of the `Authorization` header for an API key.
pub fn bearer_authorization(api_key: &str) -> (r: String)
    ensures
        r@ == "Bearer "@ + api_key@,
{
    let scheme = String::from_str("Bearer ");
    scheme.concat(api_key)
}

/// Accepts a processor reply with a success status and hands its body on;
/// any other status is a rejection whose cause is the body.
pub fn check_status(status: u16, body: String) -> (r: Result<String, GatewayError>)
    ensures
        200 <= status < 300 ==> r == Ok::<String, GatewayError>(body),
        !(200 <= status < 300) ==> r is Err && r->Err_0.kind == ErrorKind::ProcessorRejected
            && r->Err_0.cause == body,
{
    if 200 <= status && status < 300 {
        Ok(body)
    } else {
        Err(GatewayError::new(ErrorKind::ProcessorRejected, body))
    }
}

pub open spec fn checkout_return_suffix() -> Seq<char> {
    "/return?session_id={CHECKOUT_SESSION_ID}"@
}

/// The processor line that stands for a payment line: the price is referenced
/// by the product's id.
pub open spec fn processor_line_matches(r: PaymentProcessorLineItemRequestDto, item: LineItem) -> bool {
    r.price@ == item.product_id@ && r.quantity == item.quantity
}

/// Whether `r` is the price registration for this product, currency and
/// major-unit amount: the amount in minor units when that fits in an `i32`,
/// otherwise a refusal of the amount.
pub open spec fn is_pricing_request_for(
    r: Result<PaymentProcessorCreatePricingRequestDto, GatewayError>,
    product_id: String,
    currency: String,
    unit_amount: i32,
) -> bool {
    &&& (i32::MIN <= minor_units(unit_amount as int) <= i32::MAX) <==> r is Ok
    &&& r is Ok ==> r->Ok_0.product == product_id && r->Ok_0.currency == currency
        && r->Ok_0.unit_amount == minor_units(unit_amount as int)
    &&& r is Err ==> r->Err_0.kind == ErrorKind::InvalidAmount
}

/// The Stripe implementation of the gateway's request and response rules. The
/// transport that posts the requests wraps this type.
pub struct StripePaymentProcessor {
    base_redirect_url: String,
}

impl StripePaymentProcessor {
    /// The base URL that the processor redirects the customer to.
    pub closed spec fn redirect_base(&self) -> Seq<char> {
        self.base_redirect_url@
    }

    pub fn new(base_redirect_url: String) -> (r: StripePaymentProcessor)
        ensures
            r.redirect_base() == base_redirect_url@,
    {
        StripePaymentProcessor { base_redirect_url }
    }

    /// The checkout-session request for a payment: an embedded ("custom")
    /// session in payment mode, one processor line per payment line, returning
    /// to the redirect base with the session id.
    pub fn checkout_session_request(&self, payment: &Payment) -> (r:
        PaymentProcessorCreateCheckoutSessionRequestDto)
        ensures
            r.ui_mode@ == "custom"@,
            r.mode@ == "payment"@,
            r.return_url@ == self.redirect_base() + checkout_return_suffix(),
            r.line_items@.len() == payment.line_items@.len(),
            forall|i: int|
                0 <= i < r.line_items@.len() ==> processor_line_matches(
                    #[trigger] r.line_items@[i],
                    payment.line_items@[i],
                ),
    {
        let mut line_items: Vec<PaymentProcessorLineItemRequestDto> = Vec::new();
        let mut i: usize = 0;
        while i < payment.line_items.len()
            invariant
                i <= payment.line_items@.len(),
                line_items@.len() == i,
                forall|j: int|
                    0 <= j < i ==> processor_line_matches(
                        #[trigger] line_items@[j],
                        payment.line_items@[j],
                    ),
            decreases payment.line_items@.len() - i,
        {
            let item = &payment.line_items[i];
            line_items.push(
                PaymentProcessorLineItemRequestDto {
                    price: item.product_id.clone(),
                    quantity: item.quantity,
                },
            );
            i = i + 1;
        }
        let return_url = self.base_redirect_url.clone().concat(
            "/return?session_id={CHECKOUT_SESSION_ID}",
        );
        PaymentProcessorCreateCheckoutSessionRequestDto {
            ui_mode: String::from_str("custom"),
            line_items,
            mode: String::from_str("payment"),
            return_url,
        }
    }

    /// Applies the processor's answer to a checkout-session request: on
    /// success the payment is linked to this processor and to the session;
    /// a failure is handed back unchanged.
    pub fn complete_checkout_session(
        &self,
        payment: Payment,
        response: Result<PaymentProcessorCreateCheckoutSessionResponseDto, GatewayError>,
    ) -> (r: Result<Payment, GatewayError>)
        ensures
            match response {
                Ok(dto) => r is Ok && {
                    let p = r->Ok_0;
                    &&& p.id == payment.id
                    &&& p.line_items == payment.line_items
                    &&& p.status == payment.status
                    &&& p.payment_processor@ == "stripe"@
                    &&& p.payment_processor_checkout_session_id == dto.session_id
                    &&& p.payment_processor_checkout_session_url == dto.session_url
                    &&& p.payment_processor_id == payment.payment_processor_id
                    &&& p.payment_processor_status == payment.payment_processor_status
                },
                Err(e) => r == Err::<Payment, GatewayError>(e),
            },
    {
        match response {
            Ok(dto) => {
                let mut payment = payment;
                payment.payment_processor = String::from_str("stripe");
                payment.payment_processor_checkout_session_id = dto.session_id;
                payment.payment_processor_checkout_session_url = dto.session_url;
                Ok(payment)
            },
            Err(e) => Err(e),
        }
    }

    /// The product registration request.
    pub fn create_product_request(product_id: String, name: String) -> (r:
        PaymentProcessorCreateProductRequestDto)
        ensures
            r.id == product_id,
            r.name == name,
    {
        PaymentProcessorCreateProductRequestDto { id: product_id, name }
    }

    /// The price registration request: the amount is converted from major to
    /// minor units, and an amount whose conversion does not fit is refused.
    pub fn create_pricing_request(product_id: String, currency: String, unit_amount: i32) -> (r:
        Result<PaymentProcessorCreatePricingRequestDto, GatewayError>)
        ensures
            is_pricing_request_for(r, product_id, currency, unit_amount),
    {
        match to_minor_units(unit_amount) {
            Some(minor) => Ok(
                PaymentProcessorCreatePricingRequestDto {
                    product: product_id,
                    currency,
                    unit_amount: minor,
                },
            ),
            None => Err(
                GatewayError::new(
                    ErrorKind::InvalidAmount,
                    String::from_str("unit amount does not fit in minor units"),
                ),
            ),
        }
    }
}

} // verus!
