//! The closed set of flavours and its canonical names.
use vstd::prelude::*;

verus! {

/// A flavour the truck sells.
#[derive(Clone, Copy, Debug, PartialEq, Eq, Structural)]
pub enum IceCreamFlavour {
    Chocolate,
    Vanilla,
}

impl IceCreamFlavour {
    /// The canonical name of a flavour: its variant name.
    pub open spec fn spec_name(self) -> Seq<char> {
        match self {
            IceCreamFlavour::Chocolate => "Chocolate"@,
            IceCreamFlavour::Vanilla => "Vanilla"@,
        }
    }

    /// The canonical name of this flavour.
    pub fn as_str(&self) -> (r: &'static str)
        ensures
            r@ == self.spec_name(),
    {
        match self {
            IceCreamFlavour::Chocolate => "Chocolate",
            IceCreamFlavour::Vanilla => "Vanilla",
        }
    }
}

/// The flavour whose canonical name is exactly `s` (case-sensitive), if any.
pub open spec fn flavour_named(s: Seq<char>) -> Option<IceCreamFlavour> {
    if s == "Chocolate"@ {
        Some(IceCreamFlavour::Chocolate)
    } else if s == "Vanilla"@ {
        Some(IceCreamFlavour::Vanilla)
    } else {
        None
    }
}

/// Why a flavour string was refused.
#[derive(Clone, Copy, Debug, PartialEq, Eq, Structural)]
pub enum ParseFlavourError {
    /// The string names no flavour of the closed set.
    VariantNotFound,
}

impl ParseFlavourError {
    /// A debug rendering of the failure, as handed to a caller on the bus.
    pub fn message(&self) -> (r: String)
        ensures
            r@ == "VariantNotFound"@,
    {
        "VariantNotFound".to_owned()
    }
}

/// Parses a flavour by exact, case-sensitive match against the variant names.
pub fn parse_flavour(s: &str) -> (r: Result<IceCreamFlavour, ParseFlavourError>)
    ensures
        match flavour_named(s@) {
            Some(f) => r == Ok::<IceCreamFlavour, ParseFlavourError>(f),
            None => r == Err::<IceCreamFlavour, ParseFlavourError>(
                ParseFlavourError::VariantNotFound,
            ),
        },
{
    let given: String = s.to_owned();
    let chocolate: String = "Chocolate".to_owned();
    let vanilla: String = "Vanilla".to_owned();
    if given == chocolate {
        Ok(IceCreamFlavour::Chocolate)
    } else if given == vanilla {
        Ok(IceCreamFlavour::Vanilla)
    } else {
        Err(ParseFlavourError::VariantNotFound)
    }
}

/// Names and flavours correspond one to one: parsing a flavour's canonical
/// name gives that flavour back, and a string that parses to a flavour is
/// exactly that flavour's canonical name.
pub proof fn lemma_name_round_trip(f: IceCreamFlavour, s: Seq<char>)
    ensures
        flavour_named(f.spec_name()) == Some(f),
        flavour_named(s) == Some(f) <==> s == f.spec_name(),
{
    reveal_strlit("Chocolate");
    reveal_strlit("Vanilla");
    assert("Chocolate"@.len() != "Vanilla"@.len());
}

} // verus!
