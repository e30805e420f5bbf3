use vstd::prelude::*;

verus! {

/// One product line of a payment. `price` is the unit price in minor
/// currency units (hundredths of the major unit).
#[derive(Debug)]
pub struct LineItem {
    pub product_id: String,
    pub quantity: u32,
    pub price: u64,
}

/// A payment and its linkage to the processor that handles it.
#[derive(Debug)]
pub struct Payment {
    pub id: String,
    pub line_items: Vec<LineItem>,
    pub status: String,
    pub payment_processor: String,
    pub payment_processor_checkout_session_id: String,
    pub payment_processor_checkout_session_url: String,
    pub payment_processor_id: String,
    pub payment_processor_status: String,
}

impl Payment {
    /// A payment that no gateway has touched yet: status `New` and every
    /// processor-linkage field empty.
    pub open spec fn is_fresh(self) -> bool {
        &&& self.status@ == PaymentStatus::NEW.spec_text()
        &&& self.payment_processor@.len() == 0
        &&& self.payment_processor_checkout_session_id@.len() == 0
        &&& self.payment_processor_checkout_session_url@.len() == 0
        &&& self.payment_processor_id@.len() == 0
        &&& self.payment_processor_status@.len() == 0
    }
}

/// The lifecycle states of a payment.
#[derive(Clone, Copy, Debug, PartialEq, Eq, Structural)]
pub enum PaymentStatus {
    NEW,
}

impl PaymentStatus {
    pub open spec fn spec_text(self) -> Seq<char> {
        match self {
            PaymentStatus::NEW => "New"@,
        }
    }

    /// The status code stored in `Payment::status`.
    pub fn to_string(&self) -> (r: String)
        ensures
            r@ == self.spec_text(),
    {
        match self {
            PaymentStatus::NEW => String::from_str("New"),
        }
    }
}

} // verus!
