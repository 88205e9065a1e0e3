use icecream::flavour::{parse_flavour, IceCreamFlavour, ParseFlavourError};
use icecream::order::{process_order, total_cents, IceCreamReply, UNIT_PRICE_CENTS};
use icecream::truck::IceCreamTruck;

fn reply(flavor: IceCreamFlavour, quantity: u32, total_cents: u64) -> IceCreamReply {
    IceCreamReply { flavor, quantity, total_cents }
}

#[test]
fn parse_accepts_variant_names() {
    assert_eq!(parse_flavour("Chocolate"), Ok(IceCreamFlavour::Chocolate));
    assert_eq!(parse_flavour("Vanilla"), Ok(IceCreamFlavour::Vanilla));
}

#[test]
fn parse_rejects_other_strings() {
    for s in ["chocolate", "VANILLA", "", "Strawberry", "Chocolate ", " Vanilla", "Choc"] {
        assert_eq!(parse_flavour(s), Err(ParseFlavourError::VariantNotFound), "{s:?}");
    }
}

#[test]
fn names_round_trip() {
    for f in [IceCreamFlavour::Chocolate, IceCreamFlavour::Vanilla] {
        assert_eq!(parse_flavour(f.as_str()), Ok(f));
    }
    assert_eq!(IceCreamFlavour::Chocolate.as_str(), "Chocolate");
    assert_eq!(IceCreamFlavour::Vanilla.as_str(), "Vanilla");
}

#[test]
fn error_message_is_debug_rendering() {
    assert_eq!(ParseFlavourError::VariantNotFound.message(), "VariantNotFound");
}

#[test]
fn totals_are_exact() {
    assert_eq!(UNIT_PRICE_CENTS, 699);
    assert_eq!(total_cents(0), 0);
    assert_eq!(total_cents(1), 699);
    assert_eq!(total_cents(2), 1398);
    assert_eq!(total_cents(u32::MAX), 699 * 4_294_967_295u64);
}

#[test]
fn valid_orders_are_priced() {
    assert_eq!(process_order("Chocolate", 2), Ok(reply(IceCreamFlavour::Chocolate, 2, 1398)));
    assert_eq!(process_order("Vanilla", 3), Ok(reply(IceCreamFlavour::Vanilla, 3, 2097)));
    assert_eq!(process_order("Vanilla", 1), Ok(reply(IceCreamFlavour::Vanilla, 1, 699)));
}

#[test]
fn unknown_flavours_fail_for_any_quantity() {
    for q in [0u32, 1, 7, u32::MAX] {
        for s in ["chocolate", "vanilla", "", "Strawberry"] {
            assert_eq!(process_order(s, q), Err(ParseFlavourError::VariantNotFound));
        }
    }
}

#[test]
fn repeated_orders_are_identical() {
    let first = process_order("Vanilla", 5);
    let second = process_order("Vanilla", 5);
    assert_eq!(first, second);
    assert_eq!(first, Ok(reply(IceCreamFlavour::Vanilla, 5, 3495)));
}

#[test]
fn quantity_boundaries() {
    assert_eq!(process_order("Chocolate", 0), Ok(reply(IceCreamFlavour::Chocolate, 0, 0)));
    assert_eq!(
        process_order("Vanilla", u32::MAX),
        Ok(reply(IceCreamFlavour::Vanilla, u32::MAX, 3_002_182_139_205))
    );
}

#[test]
fn truck_keeps_its_name() {
    let truck = IceCreamTruck::new("JK".to_string());
    assert_eq!(truck.name(), "JK");
}

#[test]
fn buy_chocolate_replies_and_notifies_once() {
    let truck = IceCreamTruck::new("JK".to_string());
    let outcome = truck.buy_icecream("Chocolate", 2);
    let expected = reply(IceCreamFlavour::Chocolate, 2, 1398);
    assert_eq!(outcome.reply, Ok(expected));
    assert_eq!(outcome.notifications, vec![expected]);
}

#[test]
fn buy_strawberry_fails_without_notification() {
    let truck = IceCreamTruck::new("JK".to_string());
    let outcome = truck.buy_icecream("Strawberry", 1);
    assert_eq!(outcome.reply, Err(ParseFlavourError::VariantNotFound));
    assert_eq!(outcome.reply.unwrap_err().message(), "VariantNotFound");
    assert!(outcome.notifications.is_empty());
}

#[test]
fn every_success_notifies_with_the_reply() {
    let truck = IceCreamTruck::new("JK".to_string());
    for (s, q) in [("Vanilla", 0u32), ("Chocolate", 9), ("Vanilla", u32::MAX)] {
        let outcome = truck.buy_icecream(s, q);
        let r = outcome.reply.expect("known flavour");
        assert_eq!(outcome.notifications, vec![r]);
    }
}
