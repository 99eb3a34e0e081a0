//! The Link options of a payment intent.

use vstd::prelude::*;
use std::str::FromStr;
use crate::json::{decoded_member, FromValueOpt, Json, JsonValue, member_from_value};
use crate::text::str_eq;

verus! {

#[derive(Clone, Debug)]
pub struct PaymentIntentPaymentMethodOptionsLink {
    /// Controls when the funds will be captured from the customer's account.
    pub capture_method: Option<PaymentIntentPaymentMethodOptionsLinkCaptureMethod>,
    /// \[Deprecated\] This is a legacy parameter that no longer has any function.
    pub persistent_token: Option<String>,
    /// Indicates that you intend to make future payments with this PaymentIntent's payment method.
    ///
    /// Providing this parameter will [attach the payment method](https://stripe.com/docs/payments/save-during-payment) to the PaymentIntent's Customer, if present, after the PaymentIntent is confirmed and any required actions from the user are complete.
    /// If no Customer was provided, the payment method can still be [attached](https://stripe.com/docs/api/payment_methods/attach) to a Customer after the transaction completes.
    ///
    /// When processing card payments, Stripe also uses `setup_future_usage` to dynamically optimize your payment flow and comply with regional legislation and network rules, such as [SCA](https://stripe.com/docs/strong-customer-authentication).
    pub setup_future_usage: Option<PaymentIntentPaymentMethodOptionsLinkSetupFutureUsage>,
}

/// The model of a [`PaymentIntentPaymentMethodOptionsLink`].
pub struct PaymentIntentPaymentMethodOptionsLinkModel {
    pub capture_method: Option<PaymentIntentPaymentMethodOptionsLinkCaptureMethod>,
    pub persistent_token: Option<Seq<char>>,
    pub setup_future_usage: Option<PaymentIntentPaymentMethodOptionsLinkSetupFutureUsage>,
}

impl DeepView for PaymentIntentPaymentMethodOptionsLink {
    type V = PaymentIntentPaymentMethodOptionsLinkModel;

    open spec fn deep_view(&self) -> PaymentIntentPaymentMethodOptionsLinkModel {
        PaymentIntentPaymentMethodOptionsLinkModel {
            capture_method: self.capture_method.deep_view(),
            persistent_token: self.persistent_token.deep_view(),
            setup_future_usage: self.setup_future_usage.deep_view(),
        }
    }
}

impl View for PaymentIntentPaymentMethodOptionsLink {
    type V = PaymentIntentPaymentMethodOptionsLinkModel;

    open spec fn view(&self) -> PaymentIntentPaymentMethodOptionsLinkModel {
        self.deep_view()
    }
}

/// The members of a [`PaymentIntentPaymentMethodOptionsLink`] as far as they have been read; `None`
/// stands for a member that is still missing.
#[derive(Debug)]
pub struct PaymentIntentPaymentMethodOptionsLinkBuilder {
    pub capture_method: Option<Option<PaymentIntentPaymentMethodOptionsLinkCaptureMethod>>,
    pub persistent_token: Option<Option<String>>,
    pub setup_future_usage: Option<Option<PaymentIntentPaymentMethodOptionsLinkSetupFutureUsage>>,
}

impl PaymentIntentPaymentMethodOptionsLinkBuilder {
    /// The builder before any member was read: an optional member is there
    /// and empty, a required one is missing.
    pub fn deser_default() -> (builder: Self)
        ensures
            builder.capture_method == Some(None::<PaymentIntentPaymentMethodOptionsLinkCaptureMethod>),
            builder.persistent_token == Some(None::<String>),
            builder.setup_future_usage == Some(None::<PaymentIntentPaymentMethodOptionsLinkSetupFutureUsage>),
    {
        PaymentIntentPaymentMethodOptionsLinkBuilder { capture_method: Some(None), persistent_token: Some(None), setup_future_usage: Some(None) }
    }

    /// Whether every member has been read.
    pub open spec fn is_complete(self) -> bool {
        &&& self.capture_method is Some
        &&& self.persistent_token is Some
        &&& self.setup_future_usage is Some
    }

    /// The value that a complete builder holds.
    pub open spec fn output(self) -> PaymentIntentPaymentMethodOptionsLink {
        PaymentIntentPaymentMethodOptionsLink {
            capture_method: self.capture_method->Some_0,
            persistent_token: self.persistent_token->Some_0,
            setup_future_usage: self.setup_future_usage->Some_0,
        }
    }

    /// Hands out the value once every member has been read.
    pub fn take_out(self) -> (out: Option<PaymentIntentPaymentMethodOptionsLink>)
        ensures
            out == if self.is_complete() {
                Some(self.output())
            } else {
                None
            },
    {
        Some(PaymentIntentPaymentMethodOptionsLink {
            capture_method: self.capture_method?,
            persistent_token: self.persistent_token?,
            setup_future_usage: self.setup_future_usage?,
        })
    }
}

impl FromValueOpt for PaymentIntentPaymentMethodOptionsLink {
    /// A JSON object decodes to a value where every member that the type
    /// knows holds a value of the member's type and no required member is
    /// missing; a missing optional member reads as `None`, members that the
    /// type does not know are passed over.
    open spec fn decoded(json: Json) -> Option<PaymentIntentPaymentMethodOptionsLinkModel> {
        let capture_method = decoded_member::<Option<PaymentIntentPaymentMethodOptionsLinkCaptureMethod>>(json, "capture_method"@, Some(None));
        let persistent_token = decoded_member::<Option<String>>(json, "persistent_token"@, Some(None));
        let setup_future_usage = decoded_member::<Option<PaymentIntentPaymentMethodOptionsLinkSetupFutureUsage>>(json, "setup_future_usage"@, Some(None));
        if json is Object && capture_method is Some && persistent_token is Some && setup_future_usage is Some {
            Some(PaymentIntentPaymentMethodOptionsLinkModel {
                capture_method: capture_method->Some_0,
                persistent_token: persistent_token->Some_0,
                setup_future_usage: setup_future_usage->Some_0,
            })
        } else {
            None
        }
    }

    fn from_value(value: &JsonValue) -> (out: Option<PaymentIntentPaymentMethodOptionsLink>) {
        match value {
            JsonValue::Object(_) => {},
            _ => {
                return None;
            },
        }
        let mut b = PaymentIntentPaymentMethodOptionsLinkBuilder::deser_default();
        b.capture_method = Some(member_from_value(value, "capture_method", b.capture_method)?);
        b.persistent_token = Some(member_from_value(value, "persistent_token", b.persistent_token)?);
        b.setup_future_usage = Some(member_from_value(value, "setup_future_usage", b.setup_future_usage)?);
        b.take_out()
    }
}

/// Controls when the funds will be captured from the customer's account.
#[derive(Copy, Clone, Debug, PartialEq, Eq, Structural)]
pub enum PaymentIntentPaymentMethodOptionsLinkCaptureMethod {
    Manual,
}

impl PaymentIntentPaymentMethodOptionsLinkCaptureMethod {
    /// The name of the value on the wire.
    pub open spec fn wire_name(self) -> Seq<char> {
        match self {
            PaymentIntentPaymentMethodOptionsLinkCaptureMethod::Manual => "manual"@,
        }
    }

    pub fn as_str(self) -> (name: &'static str)
        ensures
            name@ == self.wire_name(),
    {
        match self {
            PaymentIntentPaymentMethodOptionsLinkCaptureMethod::Manual => "manual",
        }
    }
}

impl std::str::FromStr for PaymentIntentPaymentMethodOptionsLinkCaptureMethod {
    type Err = ();

    /// Reads a wire name; fails on a string that is the name of no value.
    fn from_str(s: &str) -> (parsed: Result<Self, Self::Err>)
        ensures
            match parsed {
                Ok(v) => v.wire_name() == s@,
                Err(_) => forall|v: PaymentIntentPaymentMethodOptionsLinkCaptureMethod| #[trigger] v.wire_name() != s@,
            },
    {
        if str_eq(s, "manual") {
            Ok(PaymentIntentPaymentMethodOptionsLinkCaptureMethod::Manual)
        } else {
            Err(())
        }
    }
}

/// Two values of `PaymentIntentPaymentMethodOptionsLinkCaptureMethod` with one wire name are the same value, so
/// reading back what `as_str` gives returns the value it was called on.
pub proof fn lemma_payment_intent_payment_method_options_link_capture_method_wire_names_differ(a: PaymentIntentPaymentMethodOptionsLinkCaptureMethod, b: PaymentIntentPaymentMethodOptionsLinkCaptureMethod)
    requires
        a.wire_name() == b.wire_name(),
    ensures
        a == b,
{
    reveal_strlit("manual");
}

impl DeepView for PaymentIntentPaymentMethodOptionsLinkCaptureMethod {
    type V = PaymentIntentPaymentMethodOptionsLinkCaptureMethod;

    open spec fn deep_view(&self) -> PaymentIntentPaymentMethodOptionsLinkCaptureMethod {
        *self
    }
}

impl FromValueOpt for PaymentIntentPaymentMethodOptionsLinkCaptureMethod {
    /// A JSON string that is the wire name of a value decodes to that value.
    open spec fn decoded(json: Json) -> Option<PaymentIntentPaymentMethodOptionsLinkCaptureMethod> {
        match json {
            Json::String(s) => if exists|v: PaymentIntentPaymentMethodOptionsLinkCaptureMethod| #[trigger] v.wire_name() == s {
                Some(choose|v: PaymentIntentPaymentMethodOptionsLinkCaptureMethod| #[trigger] v.wire_name() == s)
            } else {
                None
            },
            _ => None,
        }
    }

    fn from_value(value: &JsonValue) -> (out: Option<PaymentIntentPaymentMethodOptionsLinkCaptureMethod>) {
        match value {
            JsonValue::String(s) => match PaymentIntentPaymentMethodOptionsLinkCaptureMethod::from_str(s.as_str()) {
                Ok(v) => {
                    proof {
                        let w = choose|w: PaymentIntentPaymentMethodOptionsLinkCaptureMethod| #[trigger] w.wire_name() == s@;
                        lemma_payment_intent_payment_method_options_link_capture_method_wire_names_differ(v, w);
                    }
                    Some(v)
                },
                Err(_) => None,
            },
            _ => None,
        }
    }
}

/// Indicates that you intend to make future payments with this PaymentIntent's payment method.
///
/// Providing this parameter will [attach the payment method](https://stripe.com/docs/payments/save-during-payment) to the PaymentIntent's Customer, if present, after the PaymentIntent is confirmed and any required actions from the user are complete.
/// If no Customer was provided, the payment method can still be [attached](https://stripe.com/docs/api/payment_methods/attach) to a Customer after the transaction completes.
///
/// When processing card payments, Stripe also uses `setup_future_usage` to dynamically optimize your payment flow and comply with regional legislation and network rules, such as [SCA](https://stripe.com/docs/strong-customer-authentication).
#[derive(Copy, Clone, Debug, PartialEq, Eq, Structural)]
pub enum PaymentIntentPaymentMethodOptionsLinkSetupFutureUsage {
    None_,
    OffSession,
}

impl PaymentIntentPaymentMethodOptionsLinkSetupFutureUsage {
    /// The name of the value on the wire.
    pub open spec fn wire_name(self) -> Seq<char> {
        match self {
            PaymentIntentPaymentMethodOptionsLinkSetupFutureUsage::None_ => "none"@,
            PaymentIntentPaymentMethodOptionsLinkSetupFutureUsage::OffSession => "off_session"@,
        }
    }

    pub fn as_str(self) -> (name: &'static str)
        ensures
            name@ == self.wire_name(),
    {
        match self {
            PaymentIntentPaymentMethodOptionsLinkSetupFutureUsage::None_ => "none",
            PaymentIntentPaymentMethodOptionsLinkSetupFutureUsage::OffSession => "off_session",
        }
    }
}

impl std::str::FromStr for PaymentIntentPaymentMethodOptionsLinkSetupFutureUsage {
    type Err = ();

    /// Reads a wire name; fails on a string that is the name of no value.
    fn from_str(s: &str) -> (parsed: Result<Self, Self::Err>)
        ensures
            match parsed {
                Ok(v) => v.wire_name() == s@,
                Err(_) => forall|v: PaymentIntentPaymentMethodOptionsLinkSetupFutureUsage| #[trigger] v.wire_name() != s@,
            },
    {
        if str_eq(s, "none") {
            Ok(PaymentIntentPaymentMethodOptionsLinkSetupFutureUsage::None_)
        } else if str_eq(s, "off_session") {
            Ok(PaymentIntentPaymentMethodOptionsLinkSetupFutureUsage::OffSession)
        } else {
            Err(())
        }
    }
}

/// Two values of `PaymentIntentPaymentMethodOptionsLinkSetupFutureUsage` with one wire name are the same value, so
/// reading back what `as_str` gives returns the value it was called on.
pub proof fn lemma_payment_intent_payment_method_options_link_setup_future_usage_wire_names_differ(a: PaymentIntentPaymentMethodOptionsLinkSetupFutureUsage, b: PaymentIntentPaymentMethodOptionsLinkSetupFutureUsage)
    requires
        a.wire_name() == b.wire_name(),
    ensures
        a == b,
{
    reveal_strlit("none");
    reveal_strlit("off_session");
    assert("none"@.len() == 4);
    assert("off_session"@.len() == 11);
}

impl DeepView for PaymentIntentPaymentMethodOptionsLinkSetupFutureUsage {
    type V = PaymentIntentPaymentMethodOptionsLinkSetupFutureUsage;

    open spec fn deep_view(&self) -> PaymentIntentPaymentMethodOptionsLinkSetupFutureUsage {
        *self
    }
}

impl FromValueOpt for PaymentIntentPaymentMethodOptionsLinkSetupFutureUsage {
    /// A JSON string that is the wire name of a value decodes to that value.
    open spec fn decoded(json: Json) -> Option<PaymentIntentPaymentMethodOptionsLinkSetupFutureUsage> {
        match json {
            Json::String(s) => if exists|v: PaymentIntentPaymentMethodOptionsLinkSetupFutureUsage| #[trigger] v.wire_name() == s {
                Some(choose|v: PaymentIntentPaymentMethodOptionsLinkSetupFutureUsage| #[trigger] v.wire_name() == s)
            } else {
                None
            },
            _ => None,
        }
    }

    fn from_value(value: &JsonValue) -> (out: Option<PaymentIntentPaymentMethodOptionsLinkSetupFutureUsage>) {
        match value {
            JsonValue::String(s) => match PaymentIntentPaymentMethodOptionsLinkSetupFutureUsage::from_str(s.as_str()) {
                Ok(v) => {
                    proof {
                        let w = choose|w: PaymentIntentPaymentMethodOptionsLinkSetupFutureUsage| #[trigger] w.wire_name() == s@;
                        lemma_payment_intent_payment_method_options_link_setup_future_usage_wire_names_differ(v, w);
                    }
                    Some(v)
                },
                Err(_) => None,
            },
            _ => None,
        }
    }
}

} // verus!
