use vstd::prelude::*;

use std::sync::Arc;

use crate::cqrs::{CreateCheckoutSessionCommandHandler, CreateProductPricingCommandHandler};

verus! {

/// The process-wide context handed to every request and consumer task: the
/// command handlers and the identity provider's settings. It is built once at
/// start-up and only read afterwards.
pub struct AppState<P> {
    pub create_checkout_session_command_handler: Arc<CreateCheckoutSessionCommandHandler<P>>,
    pub create_product_pricing_command_handler: Arc<CreateProductPricingCommandHandler<P>>,
    pub auth0_domain: String,
    pub auth0_audience: String,
}

impl<P> Clone for AppState<P> {
    fn clone(&self) -> (r: Self)
        ensures
            r.create_checkout_session_command_handler == self.create_checkout_session_command_handler,
            r.create_product_pricing_command_handler == self.create_product_pricing_command_handler,
            r.auth0_domain == self.auth0_domain,
            r.auth0_audience == self.auth0_audience,
    {
        AppState {
            create_checkout_session_command_handler: Arc::clone(
                &self.create_checkout_session_command_handler,
            ),
            create_product_pricing_command_handler: Arc::clone(
                &self.create_product_pricing_command_handler,
            ),
            auth0_domain: self.auth0_domain.clone(),
            auth0_audience: self.auth0_audience.clone(),
        }
    }
}

} // verus!
