//! The Bancontact options of an invoice.

use vstd::prelude::*;
use std::str::FromStr;
use crate::json::{decoded_member, FromValueOpt, Json, JsonValue, member_from_value};
use crate::text::str_eq;

verus! {

#[derive(Copy, Clone, Debug)]
pub struct InvoicePaymentMethodOptionsBancontact {
    /// Preferred language of the Bancontact authorization page that the customer is redirected to.
    pub preferred_language: InvoicePaymentMethodOptionsBancontactPreferredLanguage,
}

/// The model of a [`InvoicePaymentMethodOptionsBancontact`].
pub struct InvoicePaymentMethodOptionsBancontactModel {
    pub preferred_language: InvoicePaymentMethodOptionsBancontactPreferredLanguage,
}

impl DeepView for InvoicePaymentMethodOptionsBancontact {
    type V = InvoicePaymentMethodOptionsBancontactModel;

    open spec fn deep_view(&self) -> InvoicePaymentMethodOptionsBancontactModel {
        InvoicePaymentMethodOptionsBancontactModel {
            preferred_language: self.preferred_language.deep_view(),
        }
    }
}

impl View for InvoicePaymentMethodOptionsBancontact {
    type V = InvoicePaymentMethodOptionsBancontactModel;

    open spec fn view(&self) -> InvoicePaymentMethodOptionsBancontactModel {
        self.deep_view()
    }
}

/// The members of a [`InvoicePaymentMethodOptionsBancontact`] as far as they have been read; `None`
/// stands for a member that is still missing.
#[derive(Debug)]
pub struct InvoicePaymentMethodOptionsBancontactBuilder {
    pub preferred_language: Option<InvoicePaymentMethodOptionsBancontactPreferredLanguage>,
}

impl InvoicePaymentMethodOptionsBancontactBuilder {
    /// The builder before any member was read: an optional member is there
    /// and empty, a required one is missing.
    pub fn deser_default() -> (builder: Self)
        ensures
            builder.preferred_language is None,
    {
        InvoicePaymentMethodOptionsBancontactBuilder { preferred_language: None }
    }

    /// Whether every member has been read.
    pub open spec fn is_complete(self) -> bool {
        &&& self.preferred_language is Some
    }

    /// The value that a complete builder holds.
    pub open spec fn output(self) -> InvoicePaymentMethodOptionsBancontact {
        InvoicePaymentMethodOptionsBancontact {
            preferred_language: self.preferred_language->Some_0,
        }
    }

    /// Hands out the value once every member has been read.
    pub fn take_out(self) -> (out: Option<InvoicePaymentMethodOptionsBancontact>)
        ensures
            out == if self.is_complete() {
                Some(self.output())
            } else {
                None
            },
    {
        Some(InvoicePaymentMethodOptionsBancontact {
            preferred_language: self.preferred_language?,
        })
    }
}

impl FromValueOpt for InvoicePaymentMethodOptionsBancontact {
    /// A JSON object decodes to a value where every member that the type
    /// knows holds a value of the member's type and no required member is
    /// missing; a missing optional member reads as `None`, members that the
    /// type does not know are passed over.
    open spec fn decoded(json: Json) -> Option<InvoicePaymentMethodOptionsBancontactModel> {
        let preferred_language = decoded_member::<InvoicePaymentMethodOptionsBancontactPreferredLanguage>(json, "preferred_language"@, None);
        if json is Object && preferred_language is Some {
            Some(InvoicePaymentMethodOptionsBancontactModel {
                preferred_language: preferred_language->Some_0,
            })
        } else {
            None
        }
    }

    fn from_value(value: &JsonValue) -> (out: Option<InvoicePaymentMethodOptionsBancontact>) {
        match value {
            JsonValue::Object(_) => {},
            _ => {
                return None;
            },
        }
        let mut b = InvoicePaymentMethodOptionsBancontactBuilder::deser_default();
        b.preferred_language = Some(member_from_value(value, "preferred_language", b.preferred_language)?);
        b.take_out()
    }
}

/// Preferred language of the Bancontact authorization page that the customer is redirected to.
#[derive(Copy, Clone, Debug, PartialEq, Eq, Structural)]
pub enum InvoicePaymentMethodOptionsBancontactPreferredLanguage {
    De,
    En,
    Fr,
    Nl,
}

impl InvoicePaymentMethodOptionsBancontactPreferredLanguage {
    /// The name of the value on the wire.
    pub open spec fn wire_name(self) -> Seq<char> {
        match self {
            InvoicePaymentMethodOptionsBancontactPreferredLanguage::De => "de"@,
            InvoicePaymentMethodOptionsBancontactPreferredLanguage::En => "en"@,
            InvoicePaymentMethodOptionsBancontactPreferredLanguage::Fr => "fr"@,
            InvoicePaymentMethodOptionsBancontactPreferredLanguage::Nl => "nl"@,
        }
    }

    pub fn as_str(self) -> (name: &'static str)
        ensures
            name@ == self.wire_name(),
    {
        match self {
            InvoicePaymentMethodOptionsBancontactPreferredLanguage::De => "de",
            InvoicePaymentMethodOptionsBancontactPreferredLanguage::En => "en",
            InvoicePaymentMethodOptionsBancontactPreferredLanguage::Fr => "fr",
            InvoicePaymentMethodOptionsBancontactPreferredLanguage::Nl => "nl",
        }
    }
}

impl std::str::FromStr for InvoicePaymentMethodOptionsBancontactPreferredLanguage {
    type Err = ();

    /// Reads a wire name; fails on a string that is the name of no value.
    fn from_str(s: &str) -> (parsed: Result<Self, Self::Err>)
        ensures
            match parsed {
                Ok(v) => v.wire_name() == s@,
                Err(_) => forall|v: InvoicePaymentMethodOptionsBancontactPreferredLanguage| #[trigger] v.wire_name() != s@,
            },
    {
        if str_eq(s, "de") {
            Ok(InvoicePaymentMethodOptionsBancontactPreferredLanguage::De)
        } else if str_eq(s, "en") {
            Ok(InvoicePaymentMethodOptionsBancontactPreferredLanguage::En)
        } else if str_eq(s, "fr") {
            Ok(InvoicePaymentMethodOptionsBancontactPreferredLanguage::Fr)
        } else if str_eq(s, "nl") {
            Ok(InvoicePaymentMethodOptionsBancontactPreferredLanguage::Nl)
        } else {
            Err(())
        }
    }
}

/// Two values of `InvoicePaymentMethodOptionsBancontactPreferredLanguage` with one wire name are the same value, so
/// reading back what `as_str` gives returns the value it was called on.
pub proof fn lemma_invoice_payment_method_options_bancontact_preferred_language_wire_names_differ(a: InvoicePaymentMethodOptionsBancontactPreferredLanguage, b: InvoicePaymentMethodOptionsBancontactPreferredLanguage)
    requires
        a.wire_name() == b.wire_name(),
    ensures
        a == b,
{
    reveal_strlit("de");
    reveal_strlit("en");
    reveal_strlit("fr");
    reveal_strlit("nl");
    assert("de"@[0] != "en"@[0]);
    assert("de"@[0] != "fr"@[0]);
    assert("de"@[0] != "nl"@[0]);
    assert("en"@[0] != "fr"@[0]);
    assert("en"@[0] != "nl"@[0]);
    assert("fr"@[0] != "nl"@[0]);
}

impl DeepView for InvoicePaymentMethodOptionsBancontactPreferredLanguage {
    type V = InvoicePaymentMethodOptionsBancontactPreferredLanguage;

    open spec fn deep_view(&self) -> InvoicePaymentMethodOptionsBancontactPreferredLanguage {
        *self
    }
}

impl FromValueOpt for InvoicePaymentMethodOptionsBancontactPreferredLanguage {
    /// A JSON string that is the wire name of a value decodes to that value.
    open spec fn decoded(json: Json) -> Option<InvoicePaymentMethodOptionsBancontactPreferredLanguage> {
        match json {
            Json::String(s) => if exists|v: InvoicePaymentMethodOptionsBancontactPreferredLanguage| #[trigger] v.wire_name() == s {
                Some(choose|v: InvoicePaymentMethodOptionsBancontactPreferredLanguage| #[trigger] v.wire_name() == s)
            } else {
                None
            },
            _ => None,
        }
    }

    fn from_value(value: &JsonValue) -> (out: Option<InvoicePaymentMethodOptionsBancontactPreferredLanguage>) {
        match value {
            JsonValue::String(s) => match InvoicePaymentMethodOptionsBancontactPreferredLanguage::from_str(s.as_str()) {
                Ok(v) => {
                    proof {
                        let w = choose|w: InvoicePaymentMethodOptionsBancontactPreferredLanguage| #[trigger] w.wire_name() == s@;
                        lemma_invoice_payment_method_options_bancontact_preferred_language_wire_names_differ(v, w);
                    }
                    Some(v)
                },
                Err(_) => None,
            },
            _ => None,
        }
    }
}

} // verus!
