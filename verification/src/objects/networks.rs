//! The card networks that a card can be processed on.

use vstd::prelude::*;
use crate::json::{decoded_member, FromValueOpt, Json, JsonValue, member_from_value};

verus! {

#[derive(Clone, Debug)]
pub struct Networks {
    /// All available networks for the card.
    pub available: Vec<String>,
    /// The preferred network for co-branded cards.
    /// Can be `cartes_bancaires`, `mastercard`, `visa` or `invalid_preference` if requested network is not valid for the card.
    pub preferred: Option<String>,
}

/// The model of a [`Networks`].
pub struct NetworksModel {
    pub available: Seq<Seq<char>>,
    pub preferred: Option<Seq<char>>,
}

impl DeepView for Networks {
    type V = NetworksModel;

    open spec fn deep_view(&self) -> NetworksModel {
        NetworksModel {
            available: self.available.deep_view(),
            preferred: self.preferred.deep_view(),
        }
    }
}

impl View for Networks {
    type V = NetworksModel;

    open spec fn view(&self) -> NetworksModel {
        self.deep_view()
    }
}

/// The members of a [`Networks`] as far as they have been read; `None`
/// stands for a member that is still missing.
#[derive(Debug)]
pub struct NetworksBuilder {
    pub available: Option<Vec<String>>,
    pub preferred: Option<Option<String>>,
}

impl NetworksBuilder {
    /// The builder before any member was read: an optional member is there
    /// and empty, a required one is missing.
    pub fn deser_default() -> (builder: Self)
        ensures
            builder.available is None,
            builder.preferred == Some(None::<String>),
    {
        NetworksBuilder { available: None, preferred: Some(None) }
    }

    /// Whether every member has been read.
    pub open spec fn is_complete(self) -> bool {
        &&& self.available is Some
        &&& self.preferred is Some
    }

    /// The value that a complete builder holds.
    pub open spec fn output(self) -> Networks {
        Networks {
            available: self.available->Some_0,
            preferred: self.preferred->Some_0,
        }
    }

    /// Hands out the value once every member has been read.
    pub fn take_out(self) -> (out: Option<Networks>)
        ensures
            out == if self.is_complete() {
                Some(self.output())
            } else {
                None
            },
    {
        Some(Networks {
            available: self.available?,
            preferred: self.preferred?,
        })
    }
}

impl FromValueOpt for Networks {
    /// A JSON object decodes to a value where every member that the type
    /// knows holds a value of the member's type and no required member is
    /// missing; a missing optional member reads as `None`, members that the
    /// type does not know are passed over.
    open spec fn decoded(json: Json) -> Option<NetworksModel> {
        let available = decoded_member::<Vec<String>>(json, "available"@, None);
        let preferred = decoded_member::<Option<String>>(json, "preferred"@, Some(None));
        if json is Object && available is Some && preferred is Some {
            Some(NetworksModel {
                available: available->Some_0,
                preferred: preferred->Some_0,
            })
        } else {
            None
        }
    }

    fn from_value(value: &JsonValue) -> (out: Option<Networks>) {
        match value {
            JsonValue::Object(_) => {},
            _ => {
                return None;
            },
        }
        let mut b = NetworksBuilder::deser_default();
        b.available = Some(member_from_value(value, "available", b.available)?);
        b.preferred = Some(member_from_value(value, "preferred", b.preferred)?);
        b.take_out()
    }
}

} // verus!
