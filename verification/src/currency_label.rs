//! The text of a label that shows an amount in a currency.

use vstd::prelude::*;
use crate::currency::{Currency, symbol_of};

verus! {

/// The sign written after the amount in a label, for the currencies that a
/// label can show: the dollar and the euro.
pub open spec fn label_sign(c: Currency) -> Option<Seq<char>> {
    match c {
        Currency::USD => Some("$"@),
        Currency::EUR => Some("€"@),
        _ => None,
    }
}

/// A label writes a currency with the same symbol as `Currency::to_symbol`.
pub proof fn lemma_label_sign_is_symbol(c: Currency)
    ensures
        label_sign(c) matches Some(sign) ==> sign == symbol_of(c),
{
}

/// Whether a label can show an amount in `currency`.
pub fn shows_currency(currency: Currency) -> (r: bool)
    ensures
        r == label_sign(currency) is Some,
{
    match currency {
        Currency::USD => true,
        Currency::EUR => true,
        _ => false,
    }
}

/// The text of a label: the amount, already written with two decimals,
/// followed by the sign of the currency.
pub fn label_text(formatted_amount: &str, currency: Currency) -> (r: String)
    requires
        label_sign(currency) is Some,
    ensures
        r@ == formatted_amount@ + label_sign(currency)->Some_0,
{
    let mut result = String::from_str(formatted_amount);
    match currency {
        Currency::USD => result.append("$"),
        Currency::EUR => result.append("€"),
        _ => {},
    }
    result
}

} // verus!
