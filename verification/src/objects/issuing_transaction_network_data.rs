//! What the card network tells of an issuing transaction.

use vstd::prelude::*;
use crate::json::{decoded_member, FromValueOpt, Json, JsonValue, member_from_value};

verus! {

#[derive(Clone, Debug)]
pub struct IssuingTransactionNetworkData {
    /// A code created by Stripe which is shared with the merchant to validate the authorization.
    /// This field will be populated if the authorization message was approved.
    /// The code typically starts with the letter "S", followed by a six-digit number.
    /// For example, "S498162".
    /// Please note that the code is not guaranteed to be unique across authorizations.
    pub authorization_code: Option<String>,
    /// The date the transaction was processed by the card network.
    /// This can be different from the date the seller recorded the transaction depending on when the acquirer submits the transaction to the network.
    pub processing_date: Option<String>,
    /// Unique identifier for the authorization assigned by the card network used to match subsequent messages, disputes, and transactions.
    pub transaction_id: Option<String>,
}

/// The model of a [`IssuingTransactionNetworkData`].
pub struct IssuingTransactionNetworkDataModel {
    pub authorization_code: Option<Seq<char>>,
    pub processing_date: Option<Seq<char>>,
    pub transaction_id: Option<Seq<char>>,
}

impl DeepView for IssuingTransactionNetworkData {
    type V = IssuingTransactionNetworkDataModel;

    open spec fn deep_view(&self) -> IssuingTransactionNetworkDataModel {
        IssuingTransactionNetworkDataModel {
            authorization_code: self.authorization_code.deep_view(),
            processing_date: self.processing_date.deep_view(),
            transaction_id: self.transaction_id.deep_view(),
        }
    }
}

impl View for IssuingTransactionNetworkData {
    type V = IssuingTransactionNetworkDataModel;

    open spec fn view(&self) -> IssuingTransactionNetworkDataModel {
        self.deep_view()
    }
}

/// The members of a [`IssuingTransactionNetworkData`] as far as they have been read; `None`
/// stands for a member that is still missing.
#[derive(Debug)]
pub struct IssuingTransactionNetworkDataBuilder {
    pub authorization_code: Option<Option<String>>,
    pub processing_date: Option<Option<String>>,
    pub transaction_id: Option<Option<String>>,
}

impl IssuingTransactionNetworkDataBuilder {
    /// The builder before any member was read: an optional member is there
    /// and empty, a required one is missing.
    pub fn deser_default() -> (builder: Self)
        ensures
            builder.authorization_code == Some(None::<String>),
            builder.processing_date == Some(None::<String>),
            builder.transaction_id == Some(None::<String>),
    {
        IssuingTransactionNetworkDataBuilder { authorization_code: Some(None), processing_date: Some(None), transaction_id: Some(None) }
    }

    /// Whether every member has been read.
    pub open spec fn is_complete(self) -> bool {
        &&& self.authorization_code is Some
        &&& self.processing_date is Some
        &&& self.transaction_id is Some
    }

    /// The value that a complete builder holds.
    pub open spec fn output(self) -> IssuingTransactionNetworkData {
        IssuingTransactionNetworkData {
            authorization_code: self.authorization_code->Some_0,
            processing_date: self.processing_date->Some_0,
            transaction_id: self.transaction_id->Some_0,
        }
    }

    /// Hands out the value once every member has been read.
    pub fn take_out(self) -> (out: Option<IssuingTransactionNetworkData>)
        ensures
            out == if self.is_complete() {
                Some(self.output())
            } else {
                None
            },
    {
        Some(IssuingTransactionNetworkData {
            authorization_code: self.authorization_code?,
            processing_date: self.processing_date?,
            transaction_id: self.transaction_id?,
        })
    }
}

impl FromValueOpt for IssuingTransactionNetworkData {
    /// A JSON object decodes to a value where every member that the type
    /// knows holds a value of the member's type and no required member is
    /// missing; a missing optional member reads as `None`, members that the
    /// type does not know are passed over.
    open spec fn decoded(json: Json) -> Option<IssuingTransactionNetworkDataModel> {
        let authorization_code = decoded_member::<Option<String>>(json, "authorization_code"@, Some(None));
        let processing_date = decoded_member::<Option<String>>(json, "processing_date"@, Some(None));
        let transaction_id = decoded_member::<Option<String>>(json, "transaction_id"@, Some(None));
        if json is Object && authorization_code is Some && processing_date is Some && transaction_id is Some {
            Some(IssuingTransactionNetworkDataModel {
                authorization_code: authorization_code->Some_0,
                processing_date: processing_date->Some_0,
                transaction_id: transaction_id->Some_0,
            })
        } else {
            None
        }
    }

    fn from_value(value: &JsonValue) -> (out: Option<IssuingTransactionNetworkData>) {
        match value {
            JsonValue::Object(_) => {},
            _ => {
                return None;
            },
        }
        let mut b = IssuingTransactionNetworkDataBuilder::deser_default();
        b.authorization_code = Some(member_from_value(value, "authorization_code", b.authorization_code)?);
        b.processing_date = Some(member_from_value(value, "processing_date", b.processing_date)?);
        b.transaction_id = Some(member_from_value(value, "transaction_id", b.transaction_id)?);
        b.take_out()
    }
}

} // verus!
