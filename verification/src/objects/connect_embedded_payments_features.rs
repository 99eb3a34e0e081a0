//! The features of the embedded payments component.

use vstd::prelude::*;
use crate::json::{decoded_member, FromValueOpt, Json, JsonValue, member_from_value};

verus! {

#[derive(Copy, Clone, Debug)]
pub struct ConnectEmbeddedPaymentsFeatures {
    /// Whether to allow capturing and cancelling payment intents. This is `true` by default.
    pub capture_payments: bool,
    /// Whether to allow connected accounts to manage destination charges that are created on behalf of them.
    /// This is `false` by default.
    pub destination_on_behalf_of_charge_management: bool,
    /// Whether to allow responding to disputes, including submitting evidence and accepting disputes.
    /// This is `true` by default.
    pub dispute_management: bool,
    /// Whether to allow sending refunds. This is `true` by default.
    pub refund_management: bool,
}

/// The model of a [`ConnectEmbeddedPaymentsFeatures`].
pub struct ConnectEmbeddedPaymentsFeaturesModel {
    pub capture_payments: bool,
    pub destination_on_behalf_of_charge_management: bool,
    pub dispute_management: bool,
    pub refund_management: bool,
}

impl DeepView for ConnectEmbeddedPaymentsFeatures {
    type V = ConnectEmbeddedPaymentsFeaturesModel;

    open spec fn deep_view(&self) -> ConnectEmbeddedPaymentsFeaturesModel {
        ConnectEmbeddedPaymentsFeaturesModel {
            capture_payments: self.capture_payments.deep_view(),
            destination_on_behalf_of_charge_management: self.destination_on_behalf_of_charge_management.deep_view(),
            dispute_management: self.dispute_management.deep_view(),
            refund_management: self.refund_management.deep_view(),
        }
    }
}

impl View for ConnectEmbeddedPaymentsFeatures {
    type V = ConnectEmbeddedPaymentsFeaturesModel;

    open spec fn view(&self) -> ConnectEmbeddedPaymentsFeaturesModel {
        self.deep_view()
    }
}

/// The members of a [`ConnectEmbeddedPaymentsFeatures`] as far as they have been read; `None`
/// stands for a member that is still missing.
#[derive(Debug)]
pub struct ConnectEmbeddedPaymentsFeaturesBuilder {
    pub capture_payments: Option<bool>,
    pub destination_on_behalf_of_charge_management: Option<bool>,
    pub dispute_management: Option<bool>,
    pub refund_management: Option<bool>,
}

impl ConnectEmbeddedPaymentsFeaturesBuilder {
    /// The builder before any member was read: an optional member is there
    /// and empty, a required one is missing.
    pub fn deser_default() -> (builder: Self)
        ensures
            builder.capture_payments is None,
            builder.destination_on_behalf_of_charge_management is None,
            builder.dispute_management is None,
            builder.refund_management is None,
    {
        ConnectEmbeddedPaymentsFeaturesBuilder { capture_payments: None, destination_on_behalf_of_charge_management: None, dispute_management: None, refund_management: None }
    }

    /// Whether every member has been read.
    pub open spec fn is_complete(self) -> bool {
        &&& self.capture_payments is Some
        &&& self.destination_on_behalf_of_charge_management is Some
        &&& self.dispute_management is Some
        &&& self.refund_management is Some
    }

    /// The value that a complete builder holds.
    pub open spec fn output(self) -> ConnectEmbeddedPaymentsFeatures {
        ConnectEmbeddedPaymentsFeatures {
            capture_payments: self.capture_payments->Some_0,
            destination_on_behalf_of_charge_management: self.destination_on_behalf_of_charge_management->Some_0,
            dispute_management: self.dispute_management->Some_0,
            refund_management: self.refund_management->Some_0,
        }
    }

    /// Hands out the value once every member has been read.
    pub fn take_out(self) -> (out: Option<ConnectEmbeddedPaymentsFeatures>)
        ensures
            out == if self.is_complete() {
                Some(self.output())
            } else {
                None
            },
    {
        Some(ConnectEmbeddedPaymentsFeatures {
            capture_payments: self.capture_payments?,
            destination_on_behalf_of_charge_management: self.destination_on_behalf_of_charge_management?,
            dispute_management: self.dispute_management?,
            refund_management: self.refund_management?,
        })
    }
}

impl FromValueOpt for ConnectEmbeddedPaymentsFeatures {
    /// A JSON object decodes to a value where every member that the type
    /// knows holds a value of the member's type and no required member is
    /// missing; a missing optional member reads as `None`, members that the
    /// type does not know are passed over.
    open spec fn decoded(json: Json) -> Option<ConnectEmbeddedPaymentsFeaturesModel> {
        let capture_payments = decoded_member::<bool>(json, "capture_payments"@, None);
        let destination_on_behalf_of_charge_management = decoded_member::<bool>(json, "destination_on_behalf_of_charge_management"@, None);
        let dispute_management = decoded_member::<bool>(json, "dispute_management"@, None);
        let refund_management = decoded_member::<bool>(json, "refund_management"@, None);
        if json is Object && capture_payments is Some && destination_on_behalf_of_charge_management is Some && dispute_management is Some && refund_management is Some {
            Some(ConnectEmbeddedPaymentsFeaturesModel {
                capture_payments: capture_payments->Some_0,
                destination_on_behalf_of_charge_management: destination_on_behalf_of_charge_management->Some_0,
                dispute_management: dispute_management->Some_0,
                refund_management: refund_management->Some_0,
            })
        } else {
            None
        }
    }

    fn from_value(value: &JsonValue) -> (out: Option<ConnectEmbeddedPaymentsFeatures>) {
        match value {
            JsonValue::Object(_) => {},
            _ => {
                return None;
            },
        }
        let mut b = ConnectEmbeddedPaymentsFeaturesBuilder::deser_default();
        b.capture_payments = Some(member_from_value(value, "capture_payments", b.capture_payments)?);
        b.destination_on_behalf_of_charge_management = Some(member_from_value(value, "destination_on_behalf_of_charge_management", b.destination_on_behalf_of_charge_management)?);
        b.dispute_management = Some(member_from_value(value, "dispute_management", b.dispute_management)?);
        b.refund_management = Some(member_from_value(value, "refund_management", b.refund_management)?);
        b.take_out()
    }
}

} // verus!
