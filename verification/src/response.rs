use vstd::prelude::*;

verus! {

/// The reply identifier tagged onto the settlement payment: the one element
/// of the known callback identifier space.
pub const SETTLE_REPLY_ID: u64 = 1;

/// Mathematical value of an attribute.
#[verifier::ext_equal]
pub ghost struct AttributeModel {
    pub key: Seq<char>,
    pub value: Seq<char>,
}

/// A key/value pair attached to a response or an event for indexing.
#[derive(Debug)]
pub struct Attribute {
    pub key: String,
    pub value: String,
}

impl View for Attribute {
    type V = AttributeModel;

    open spec fn view(&self) -> AttributeModel {
        AttributeModel { key: self.key@, value: self.value@ }
    }
}

/// Value of an attribute list.
pub open spec fn attrs_view(attrs: Seq<Attribute>) -> Seq<AttributeModel> {
    attrs.map_values(|a: Attribute| a@)
}

/// Mathematical value of an event.
#[verifier::ext_equal]
pub ghost struct EventModel {
    pub ty: Seq<char>,
    pub attributes: Seq<AttributeModel>,
}

/// A structured log record visible to off-chain observers.
#[derive(Debug)]
pub struct Event {
    pub ty: String,
    pub attributes: Vec<Attribute>,
}

impl View for Event {
    type V = EventModel;

    open spec fn view(&self) -> EventModel {
        EventModel { ty: self.ty@, attributes: attrs_view(self.attributes@) }
    }
}

/// Mathematical value of a payment instruction.
#[verifier::ext_equal]
pub ghost struct PaymentModel {
    pub to_address: Seq<char>,
    pub denom: Seq<char>,
    pub amount: u128,
}

/// An outbound payment instruction whose outcome is delivered later through
/// the settlement callback, tagged with `SETTLE_REPLY_ID`.
#[derive(Debug)]
pub struct Payment {
    pub to_address: String,
    pub denom: String,
    pub amount: u128,
}

impl View for Payment {
    type V = PaymentModel;

    open spec fn view(&self) -> PaymentModel {
        PaymentModel { to_address: self.to_address@, denom: self.denom@, amount: self.amount }
    }
}

/// Mathematical value of a response.
#[verifier::ext_equal]
pub ghost struct ResponseModel {
    pub attributes: Seq<AttributeModel>,
    pub events: Seq<EventModel>,
    pub payment: Option<PaymentModel>,
}

/// What a handler hands back to the runtime: observational outputs, plus at
/// most one scheduled payment awaiting settlement.
#[derive(Debug)]
pub struct Response {
    pub attributes: Vec<Attribute>,
    pub events: Vec<Event>,
    pub payment: Option<Payment>,
}

impl View for Response {
    type V = ResponseModel;

    open spec fn view(&self) -> ResponseModel {
        ResponseModel {
            attributes: attrs_view(self.attributes@),
            events: self.events@.map_values(|e: Event| e@),
            payment: match self.payment {
                Some(p) => Some(p@),
                None => None,
            },
        }
    }
}

/// Builds an attribute from two string slices.
pub fn attr(key: &str, value: &str) -> (r: Attribute)
    ensures
        r@ == (AttributeModel { key: key@, value: value@ }),
{
    Attribute { key: key.to_owned(), value: value.to_owned() }
}

/// Builds an attribute taking ownership of its value.
pub fn attr_owned(key: &str, value: String) -> (r: Attribute)
    ensures
        r@ == (AttributeModel { key: key@, value: value@ }),
{
    Attribute { key: key.to_owned(), value }
}

} // verus!
