//! The SEPA debit details of a source.

use vstd::prelude::*;
use crate::json::{decoded_member, FromValueOpt, Json, JsonValue, member_from_value};

verus! {

#[derive(Clone, Debug)]
pub struct SourceTypeSepaDebit {
    pub bank_code: Option<String>,
    pub branch_code: Option<String>,
    pub country: Option<String>,
    pub fingerprint: Option<String>,
    pub last4: Option<String>,
    pub mandate_reference: Option<String>,
    pub mandate_url: Option<String>,
}

/// The model of a [`SourceTypeSepaDebit`].
pub struct SourceTypeSepaDebitModel {
    pub bank_code: Option<Seq<char>>,
    pub branch_code: Option<Seq<char>>,
    pub country: Option<Seq<char>>,
    pub fingerprint: Option<Seq<char>>,
    pub last4: Option<Seq<char>>,
    pub mandate_reference: Option<Seq<char>>,
    pub mandate_url: Option<Seq<char>>,
}

impl DeepView for SourceTypeSepaDebit {
    type V = SourceTypeSepaDebitModel;

    open spec fn deep_view(&self) -> SourceTypeSepaDebitModel {
        SourceTypeSepaDebitModel {
            bank_code: self.bank_code.deep_view(),
            branch_code: self.branch_code.deep_view(),
            country: self.country.deep_view(),
            fingerprint: self.fingerprint.deep_view(),
            last4: self.last4.deep_view(),
            mandate_reference: self.mandate_reference.deep_view(),
            mandate_url: self.mandate_url.deep_view(),
        }
    }
}

impl View for SourceTypeSepaDebit {
    type V = SourceTypeSepaDebitModel;

    open spec fn view(&self) -> SourceTypeSepaDebitModel {
        self.deep_view()
    }
}

/// The members of a [`SourceTypeSepaDebit`] as far as they have been read; `None`
/// stands for a member that is still missing.
#[derive(Debug)]
pub struct SourceTypeSepaDebitBuilder {
    pub bank_code: Option<Option<String>>,
    pub branch_code: Option<Option<String>>,
    pub country: Option<Option<String>>,
    pub fingerprint: Option<Option<String>>,
    pub last4: Option<Option<String>>,
    pub mandate_reference: Option<Option<String>>,
    pub mandate_url: Option<Option<String>>,
}

impl SourceTypeSepaDebitBuilder {
    /// The builder before any member was read: an optional member is there
    /// and empty, a required one is missing.
    pub fn deser_default() -> (builder: Self)
        ensures
            builder.bank_code == Some(None::<String>),
            builder.branch_code == Some(None::<String>),
            builder.country == Some(None::<String>),
            builder.fingerprint == Some(None::<String>),
            builder.last4 == Some(None::<String>),
            builder.mandate_reference == Some(None::<String>),
            builder.mandate_url == Some(None::<String>),
    {
        SourceTypeSepaDebitBuilder { bank_code: Some(None), branch_code: Some(None), country: Some(None), fingerprint: Some(None), last4: Some(None), mandate_reference: Some(None), mandate_url: Some(None) }
    }

    /// Whether every member has been read.
    pub open spec fn is_complete(self) -> bool {
        &&& self.bank_code is Some
        &&& self.branch_code is Some
        &&& self.country is Some
        &&& self.fingerprint is Some
        &&& self.last4 is Some
        &&& self.mandate_reference is Some
        &&& self.mandate_url is Some
    }

    /// The value that a complete builder holds.
    pub open spec fn output(self) -> SourceTypeSepaDebit {
        SourceTypeSepaDebit {
            bank_code: self.bank_code->Some_0,
            branch_code: self.branch_code->Some_0,
            country: self.country->Some_0,
            fingerprint: self.fingerprint->Some_0,
            last4: self.last4->Some_0,
            mandate_reference: self.mandate_reference->Some_0,
            mandate_url: self.mandate_url->Some_0,
        }
    }

    /// Hands out the value once every member has been read.
    pub fn take_out(self) -> (out: Option<SourceTypeSepaDebit>)
        ensures
            out == if self.is_complete() {
                Some(self.output())
            } else {
                None
            },
    {
        Some(SourceTypeSepaDebit {
            bank_code: self.bank_code?,
            branch_code: self.branch_code?,
            country: self.country?,
            fingerprint: self.fingerprint?,
            last4: self.last4?,
            mandate_reference: self.mandate_reference?,
            mandate_url: self.mandate_url?,
        })
    }
}

impl FromValueOpt for SourceTypeSepaDebit {
    /// A JSON object decodes to a value where every member that the type
    /// knows holds a value of the member's type and no required member is
    /// missing; a missing optional member reads as `None`, members that the
    /// type does not know are passed over.
    open spec fn decoded(json: Json) -> Option<SourceTypeSepaDebitModel> {
        let bank_code = decoded_member::<Option<String>>(json, "bank_code"@, Some(None));
        let branch_code = decoded_member::<Option<String>>(json, "branch_code"@, Some(None));
        let country = decoded_member::<Option<String>>(json, "country"@, Some(None));
        let fingerprint = decoded_member::<Option<String>>(json, "fingerprint"@, Some(None));
        let last4 = decoded_member::<Option<String>>(json, "last4"@, Some(None));
        let mandate_reference = decoded_member::<Option<String>>(json, "mandate_reference"@, Some(None));
        let mandate_url = decoded_member::<Option<String>>(json, "mandate_url"@, Some(None));
        if json is Object && bank_code is Some && branch_code is Some && country is Some && fingerprint is Some && last4 is Some && mandate_reference is Some && mandate_url is Some {
            Some(SourceTypeSepaDebitModel {
                bank_code: bank_code->Some_0,
                branch_code: branch_code->Some_0,
                country: country->Some_0,
                fingerprint: fingerprint->Some_0,
                last4: last4->Some_0,
                mandate_reference: mandate_reference->Some_0,
                mandate_url: mandate_url->Some_0,
            })
        } else {
            None
        }
    }

    fn from_value(value: &JsonValue) -> (out: Option<SourceTypeSepaDebit>) {
        match value {
            JsonValue::Object(_) => {},
            _ => {
                return None;
            },
        }
        let mut b = SourceTypeSepaDebitBuilder::deser_default();
        b.bank_code = Some(member_from_value(value, "bank_code", b.bank_code)?);
        b.branch_code = Some(member_from_value(value, "branch_code", b.branch_code)?);
        b.country = Some(member_from_value(value, "country", b.country)?);
        b.fingerprint = Some(member_from_value(value, "fingerprint", b.fingerprint)?);
        b.last4 = Some(member_from_value(value, "last4", b.last4)?);
        b.mandate_reference = Some(member_from_value(value, "mandate_reference", b.mandate_reference)?);
        b.mandate_url = Some(member_from_value(value, "mandate_url", b.mandate_url)?);
        b.take_out()
    }
}

} // verus!
