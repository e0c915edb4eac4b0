//! Payment methods with payloads of several shapes, and the text that
//! describes each.
use crate::decimal::{decimal_text, Decimal};
use vstd::prelude::*;
use vstd::string::StringExecFns;

verus! {

/// The record that a debit card payment carries.
pub struct DebitData {
    pub card_number: String,
    pub amount: Decimal,
}

/// One way of paying. Exactly one variant is active; amounts are not checked.
pub enum PaymentMethod {
    /// Physical currency, with its amount.
    Cash(Decimal),
    /// A card label and the amount charged.
    CreditCard(String, Decimal),
    /// A nested record payload.
    DebitCard(DebitData),
    /// A payload with named fields.
    Crypto { account_id: String, amount: Decimal },
    /// A placeholder that normal operation never builds.
    Unused,
}

/// The description of a payment. The credit card amount is not part of it.
pub open spec fn description(payment: PaymentMethod) -> Seq<char> {
    match payment {
        PaymentMethod::Cash(amount) => "Paying with Cash... in the amount of "@ + decimal_text(
            amount,
        ),
        PaymentMethod::CreditCard(label, _) => "Paying with Credit card.. some_string "@ + label@,
        PaymentMethod::DebitCard(data) => "Paying with debit card.. card_number "@
            + data.card_number@ + ", amount "@ + decimal_text(data.amount),
        PaymentMethod::Crypto { account_id, amount } => "Paying with cryptocurrency.. amount_id "@
            + account_id@ + " amount "@ + decimal_text(amount),
        PaymentMethod::Unused => "Invalid payment method"@,
    }
}

/// Describes `payment`. Every variant is handled by an arm of its own, so a
/// new variant cannot go through without one.
pub fn describe(payment: PaymentMethod) -> (r: String)
    ensures
        r@ == description(payment),
{
    match payment {
        PaymentMethod::Cash(amount) => {
            let mut out = String::from_str("Paying with Cash... in the amount of ");
            amount.append_to(&mut out);
            out
        },
        PaymentMethod::CreditCard(label, _) => {
            let mut out = String::from_str("Paying with Credit card.. some_string ");
            out.append(label.as_str());
            out
        },
        PaymentMethod::DebitCard(data) => {
            let mut out = String::from_str("Paying with debit card.. card_number ");
            out.append(data.card_number.as_str());
            out.append(", amount ");
            data.amount.append_to(&mut out);
            out
        },
        PaymentMethod::Crypto { account_id, amount } => {
            let mut out = String::from_str("Paying with cryptocurrency.. amount_id ");
            out.append(account_id.as_str());
            out.append(" amount ");
            amount.append_to(&mut out);
            out
        },
        PaymentMethod::Unused => String::from_str("Invalid payment method"),
    }
}

/// Describing is a function of the payment alone: equal payments are
/// described by equal text, whenever and however often it is asked.
pub proof fn describe_is_deterministic(p: PaymentMethod, q: PaymentMethod)
    requires
        p == q,
    ensures
        description(p) == description(q),
{
}

} // verus!
