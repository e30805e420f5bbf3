use payment_service::domain::{LineItem, Payment};
use payment_service::cqrs::new_payment;
use payment_service::dtos::{LineItemRequestDto, PaymentProcessorCreateCheckoutSessionResponseDto};
use payment_service::errors::{ErrorKind, GatewayError};
use payment_service::paymentprocessors::{
    bearer_authorization, check_status, endpoint_url, to_minor_units, StripeEndpoint,
    StripePaymentProcessor,
};

#[test]
fn minor_units_multiply_by_one_hundred() {
    assert_eq!(to_minor_units(12), Some(1200));
    assert_eq!(to_minor_units(0), Some(0));
    assert_eq!(to_minor_units(-3), Some(-300));
    assert_eq!(to_minor_units(21474836), Some(2147483600));
    assert_eq!(to_minor_units(21474837), None);
    assert_eq!(to_minor_units(i32::MIN), None);
}

#[test]
fn pricing_request_carries_minor_units() {
    let r = StripePaymentProcessor::create_pricing_request(String::from("p7"), String::from("usd"), 12).unwrap();
    assert_eq!(r.product, "p7");
    assert_eq!(r.currency, "usd");
    assert_eq!(r.unit_amount, 1200);
}

#[test]
fn pricing_request_refuses_overflowing_amount() {
    let e = StripePaymentProcessor::create_pricing_request(String::from("p7"), String::from("usd"), i32::MAX).unwrap_err();
    assert_eq!(e.kind, ErrorKind::InvalidAmount);
}

#[test]
fn product_request_fields() {
    let r = StripePaymentProcessor::create_product_request(String::from("p7"), String::from("Lamp"));
    assert_eq!(r.id, "p7");
    assert_eq!(r.name, "Lamp");
}

#[test]
fn endpoint_urls_and_authorization() {
    assert_eq!(endpoint_url("https://api.stripe.com", StripeEndpoint::CheckoutSessions), "https://api.stripe.com/v1/checkout/sessions");
    assert_eq!(endpoint_url("http://h", StripeEndpoint::Products), "http://h/v1/products");
    assert_eq!(endpoint_url("http://h", StripeEndpoint::Prices), "http://h/v1/prices");
    assert_eq!(bearer_authorization("sk_test"), "Bearer sk_test");
}

#[test]
fn status_check_accepts_only_success() {
    assert_eq!(check_status(200, String::from("ok")).unwrap(), "ok");
    assert_eq!(check_status(299, String::from("ok")).unwrap(), "ok");
    for status in [199u16, 300, 404, 500] {
        let e = check_status(status, String::from("no")).unwrap_err();
        assert_eq!(e.kind, ErrorKind::ProcessorRejected);
        assert_eq!(e.cause, "no");
    }
}

fn payment_with_lines() -> Payment {
    let lines = vec![
        LineItemRequestDto { product_id: String::from("p1"), quantity: 2, price: 999 },
        LineItemRequestDto { product_id: String::from("p2"), quantity: 1, price: 100 },
    ];
    new_payment(String::from("pay-1"), &lines)
}

#[test]
fn checkout_request_encodes_lines_and_return_url() {
    let stripe = StripePaymentProcessor::new(String::from("https://shop.example"));
    let r = stripe.checkout_session_request(&payment_with_lines());
    assert_eq!(r.ui_mode, "custom");
    assert_eq!(r.mode, "payment");
    assert_eq!(r.return_url, "https://shop.example/return?session_id={CHECKOUT_SESSION_ID}");
    assert_eq!(r.line_items.len(), 2);
    assert_eq!(r.line_items[0].price, "p1");
    assert_eq!(r.line_items[0].quantity, 2);
    assert_eq!(r.line_items[1].price, "p2");
    assert_eq!(r.line_items[1].quantity, 1);
}

#[test]
fn checkout_request_without_lines() {
    let stripe = StripePaymentProcessor::new(String::new());
    let mut payment = payment_with_lines();
    payment.line_items = Vec::<LineItem>::new();
    let r = stripe.checkout_session_request(&payment);
    assert!(r.line_items.is_empty());
    assert_eq!(r.return_url, "/return?session_id={CHECKOUT_SESSION_ID}");
}

#[test]
fn completed_checkout_links_payment_to_session() {
    let stripe = StripePaymentProcessor::new(String::from("https://shop.example"));
    let response = PaymentProcessorCreateCheckoutSessionResponseDto {
        session_id: String::from("cs_1"),
        session_url: String::from("https://pay/cs_1"),
    };
    let p = stripe.complete_checkout_session(payment_with_lines(), Ok(response)).unwrap();
    assert_eq!(p.id, "pay-1");
    assert_eq!(p.status, "New");
    assert_eq!(p.line_items.len(), 2);
    assert_eq!(p.payment_processor, "stripe");
    assert_eq!(p.payment_processor_checkout_session_id, "cs_1");
    assert_eq!(p.payment_processor_checkout_session_url, "https://pay/cs_1");
}

#[test]
fn failed_checkout_keeps_gateway_error() {
    let stripe = StripePaymentProcessor::new(String::from("https://shop.example"));
    let error = GatewayError::new(ErrorKind::DecodeFailure, String::from("bad json"));
    let e = stripe.complete_checkout_session(payment_with_lines(), Err(error)).unwrap_err();
    assert_eq!(e.kind, ErrorKind::DecodeFailure);
    assert_eq!(e.cause, "bad json");
}
