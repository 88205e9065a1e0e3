//! The service object: handles one call and says what to send back and what
//! to broadcast. The bus adapter performs both.
use vstd::prelude::*;

use crate::flavour::ParseFlavourError;
use crate::order::{process_order, spec_order, IceCreamReply};

verus! {

/// The notifications owed after an order: one carrying the reply when it
/// succeeded, none when it failed.
pub open spec fn spec_notifications(result: Result<IceCreamReply, ParseFlavourError>) -> Seq<
    IceCreamReply,
> {
    match result {
        Ok(reply) => seq![reply],
        Err(_) => Seq::empty(),
    }
}

/// What the bus adapter does for one call: send `reply` to the caller (an
/// error becomes a failure reply), and broadcast each of `notifications`, in
/// order, as an `Orders` signal.
pub struct OrderOutcome {
    pub reply: Result<IceCreamReply, ParseFlavourError>,
    pub notifications: Vec<IceCreamReply>,
}

/// The object served on the bus.
pub struct IceCreamTruck {
    name: String,
}

impl IceCreamTruck {
    /// The display name the truck was created with.
    pub closed spec fn spec_name(&self) -> Seq<char> {
        self.name@
    }

    /// A truck with the given display name.
    pub fn new(name: String) -> (r: IceCreamTruck)
        ensures
            r.spec_name() == name@,
    {
        IceCreamTruck { name }
    }

    /// The truck's display name.
    pub fn name(&self) -> (r: &str)
        ensures
            r@ == self.spec_name(),
    {
        self.name.as_str()
    }

    /// Handles one `BuyIceCream` call. The reply is the priced order, or the
    /// parse failure; a successful order is broadcast exactly once, with the
    /// same payload, and a failed one not at all.
    pub fn buy_icecream(&self, flavor: &str, quantity: u32) -> (r: OrderOutcome)
        ensures
            r.reply == spec_order(flavor@, quantity),
            r.notifications@ == spec_notifications(r.reply),
    {
        let reply = process_order(flavor, quantity);
        let mut notifications: Vec<IceCreamReply> = Vec::new();
        match reply {
            Ok(details) => {
                notifications.push(details);
            },
            Err(_) => {},
        }
        proof {
            assert(notifications@ =~= spec_notifications(reply));
        }
        OrderOutcome { reply, notifications }
    }
}

/// Every successful order is broadcast exactly once, with a payload equal to
/// the reply field for field; a failed order is never broadcast.
pub proof fn lemma_one_notification_per_success(flavor: Seq<char>, quantity: u32)
    ensures
        spec_order(flavor, quantity) is Ok ==> spec_notifications(spec_order(flavor, quantity))
            =~= seq![spec_order(flavor, quantity)->Ok_0],
        spec_order(flavor, quantity) is Err ==> spec_notifications(
            spec_order(flavor, quantity),
        ).len() == 0,
{
}

} // verus!
