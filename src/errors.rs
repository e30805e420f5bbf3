use vstd::prelude::*;

verus! {

/// The closed set of failure kinds that the gateway and broker layers report,
/// so that callers can tell transport trouble from a rejected request.
#[derive(Clone, Copy, Debug, PartialEq, Eq, Structural)]
pub enum ErrorKind {
    NetworkFailure,
    ProcessorRejected,
    DecodeFailure,
    EncodeFailure,
    ConfigMissing,
    BrokerUnavailable,
    InvalidAmount,
}

/// A failure reported by a payment gateway, with a human-readable cause.
#[derive(Debug)]
pub struct GatewayError {
    pub kind: ErrorKind,
    pub cause: String,
}

impl GatewayError {
    pub fn new(kind: ErrorKind, cause: String) -> (r: GatewayError)
        ensures
            r.kind == kind,
            r.cause == cause,
    {
        GatewayError { kind, cause }
    }
}

/// The step of a command's handling at which the gateway failed.
#[derive(Clone, Copy, Debug, PartialEq, Eq, Structural)]
pub enum CommandStep {
    CreateCheckoutSession,
    CreateProduct,
    CreateProductPricing,
}

impl CommandStep {
    pub open spec fn spec_context(self) -> Seq<char> {
        match self {
            CommandStep::CreateCheckoutSession => "Error occurred when creating checkout session: "@,
            CommandStep::CreateProduct => "Error occurred when creating Product in payment processor: "@,
            CommandStep::CreateProductPricing => "Error occurred when creating Pricing in payment processor: "@,
        }
    }

    /// The sentence that introduces a failure of this step.
    pub fn context(&self) -> (r: String)
        ensures
            r@ == self.spec_context(),
    {
        match self {
            CommandStep::CreateCheckoutSession => String::from_str(
                "Error occurred when creating checkout session: ",
            ),
            CommandStep::CreateProduct => String::from_str(
                "Error occurred when creating Product in payment processor: ",
            ),
            CommandStep::CreateProductPricing => String::from_str(
                "Error occurred when creating Pricing in payment processor: ",
            ),
        }
    }
}

/// A command that could not be completed: the step that failed and the
/// gateway's report of why.
#[derive(Debug)]
pub struct CommandError {
    pub step: CommandStep,
    pub source: GatewayError,
}

impl CommandError {
    pub open spec fn spec_message(self) -> Seq<char> {
        self.step.spec_context() + self.source.cause@
    }

    /// The descriptive message handed to the transport boundary.
    pub fn message(&self) -> (r: String)
        ensures
            r@ == self.spec_message(),
    {
        let prefix = self.step.context();
        prefix.concat(self.source.cause.as_str())
    }
}

} // verus!
