//! Validating and pricing one order.
use vstd::prelude::*;

use crate::flavour::{flavour_named, parse_flavour, IceCreamFlavour, ParseFlavourError};

verus! {

/// The price of one ice cream, in cents.
pub const UNIT_PRICE_CENTS: u64 = 699;

/// The outcome of a successful order. The total is kept exactly, in cents.
#[derive(Clone, Copy, Debug, PartialEq, Eq, Structural)]
pub struct IceCreamReply {
    pub flavor: IceCreamFlavour,
    pub quantity: u32,
    pub total_cents: u64,
}

/// The total price of `quantity` ice creams, in cents.
pub open spec fn spec_total_cents(quantity: u32) -> int {
    UNIT_PRICE_CENTS * quantity
}

/// The reply owed for an order of `quantity` ice creams of flavour `f`.
pub open spec fn spec_reply(f: IceCreamFlavour, quantity: u32) -> IceCreamReply {
    IceCreamReply { flavor: f, quantity, total_cents: spec_total_cents(quantity) as u64 }
}

/// What an order for `quantity` ice creams of the flavour named `s` results in.
pub open spec fn spec_order(s: Seq<char>, quantity: u32) -> Result<IceCreamReply, ParseFlavourError> {
    match flavour_named(s) {
        Some(f) => Ok(spec_reply(f, quantity)),
        None => Err(ParseFlavourError::VariantNotFound),
    }
}

/// The total price of `quantity` ice creams, in cents; it cannot overflow.
pub fn total_cents(quantity: u32) -> (r: u64)
    ensures
        r == spec_total_cents(quantity),
{
    assert(UNIT_PRICE_CENTS * (quantity as u64) <= 699 * 0xffff_ffffu64) by (nonlinear_arith)
        requires
            quantity <= 0xffff_ffffu32,
    ;
    UNIT_PRICE_CENTS * (quantity as u64)
}

/// Validates the flavour and prices the order. Fails exactly when `flavor`
/// is not the canonical name of a flavour; never substitutes a flavour.
pub fn process_order(flavor: &str, quantity: u32) -> (r: Result<IceCreamReply, ParseFlavourError>)
    ensures
        r == spec_order(flavor@, quantity),
{
    match parse_flavour(flavor) {
        Ok(f) => Ok(IceCreamReply { flavor: f, quantity, total_cents: total_cents(quantity) }),
        Err(e) => Err(e),
    }
}

/// Every flavour, under its canonical name, is accepted for every quantity,
/// and the reply repeats the flavour and quantity with the total at the unit
/// price times the quantity.
pub proof fn lemma_valid_orders_succeed(f: IceCreamFlavour, quantity: u32)
    ensures
        spec_order(f.spec_name(), quantity) == Ok::<IceCreamReply, ParseFlavourError>(
            IceCreamReply { flavor: f, quantity, total_cents: (699 * quantity) as u64 },
        ),
{
    crate::flavour::lemma_name_round_trip(f, f.spec_name());
}

/// A string that is not the canonical name of a flavour (another case, the
/// empty string, anything else) is refused for every quantity.
pub proof fn lemma_unknown_flavours_fail(s: Seq<char>, quantity: u32)
    requires
        s != IceCreamFlavour::Chocolate.spec_name(),
        s != IceCreamFlavour::Vanilla.spec_name(),
    ensures
        spec_order(s, quantity) == Err::<IceCreamReply, ParseFlavourError>(
            ParseFlavourError::VariantNotFound,
        ),
{
}

/// Two orders with the same inputs give equal, independent results.
pub proof fn lemma_orders_repeatable(
    s: Seq<char>,
    quantity: u32,
    first: Result<IceCreamReply, ParseFlavourError>,
    second: Result<IceCreamReply, ParseFlavourError>,
)
    requires
        first == spec_order(s, quantity),
        second == spec_order(s, quantity),
    ensures
        first == second,
{
}

/// A quantity of zero costs exactly nothing, and the largest quantity is
/// priced exactly, without overflow.
pub proof fn lemma_total_bounds(f: IceCreamFlavour)
    ensures
        spec_reply(f, 0).total_cents == 0,
        spec_reply(f, 0xffff_ffffu32).total_cents == 699 * 0xffff_ffffu64,
        spec_reply(f, 0xffff_ffffu32).total_cents == spec_total_cents(0xffff_ffffu32),
{
}

} // verus!
