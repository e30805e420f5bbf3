use vstd::prelude::*;

verus! {

/// Marks a type as the result of a command or query.
pub trait Response {}

/// A line of a checkout command. `price` is in minor currency units.
#[derive(Debug)]
pub struct LineItemRequestDto {
    pub product_id: String,
    pub quantity: u32,
    pub price: u64,
}

/// A line of a processor checkout session: the processor-side price
/// reference and the quantity.
#[derive(Debug)]
pub struct PaymentProcessorLineItemRequestDto {
    pub price: String,
    pub quantity: u32,
}

#[derive(Debug)]
pub struct CreateCheckoutSessionResponseDto {
    pub payment_id: String,
    pub checkout_session_id: String,
    pub checkout_session_url: String,
}

impl Response for CreateCheckoutSessionResponseDto {}

#[derive(Debug)]
pub struct PaymentProcessorCreateCheckoutSessionRequestDto {
    pub ui_mode: String,
    pub line_items: Vec<PaymentProcessorLineItemRequestDto>,
    pub mode: String,
    pub return_url: String,
}

#[derive(Debug)]
pub struct PaymentProcessorCreateCheckoutSessionResponseDto {
    pub session_id: String,
    pub session_url: String,
}

#[derive(Debug)]
pub struct ApiError {
    pub error: String,
}

impl Response for ApiError {}

/// A catalogue product. `price` is in minor currency units.
#[derive(Debug)]
pub struct ProductResponse {
    pub id: String,
    pub name: String,
    pub price: u64,
    pub description: String,
    pub inventory: u32,
    pub stars: u8,
    pub number_of_reviews: u32,
}

#[derive(Debug)]
pub struct GetProductsResponse {
    pub products: Vec<ProductResponse>,
}

impl Response for GetProductsResponse {}

#[derive(Debug)]
pub struct EmptyResponse {}

impl Response for EmptyResponse {}

#[derive(Debug)]
pub struct PaymentProcessorCreateProductRequestDto {
    pub id: String,
    pub name: String,
}

/// A price registration; `unit_amount` is in minor currency units.
#[derive(Debug)]
pub struct PaymentProcessorCreatePricingRequestDto {
    pub product: String,
    pub currency: String,
    pub unit_amount: i32,
}

} // verus!
