//! The shipping cost of a tax calculation.

use vstd::prelude::*;
use std::str::FromStr;
use crate::json::{decoded_member, FromValueOpt, Json, JsonValue, member_from_value, RawObject};
use crate::text::str_eq;

verus! {

#[derive(Clone, Debug)]
pub struct TaxProductResourceTaxCalculationShippingCost {
    /// The shipping amount in the [smallest currency unit](https://stripe.com/docs/currencies#zero-decimal).
    /// If `tax_behavior=inclusive`, then this amount includes taxes.
    /// Otherwise, taxes were calculated on top of this amount.
    pub amount: i64,
    /// The amount of tax calculated for shipping, in the [smallest currency unit](https://stripe.com/docs/currencies#zero-decimal).
    pub amount_tax: i64,
    /// The ID of an existing [ShippingRate](https://stripe.com/docs/api/shipping_rates/object).
    pub shipping_rate: Option<String>,
    /// Specifies whether the `amount` includes taxes.
    /// If `tax_behavior=inclusive`, then the amount includes taxes.
    pub tax_behavior: TaxProductResourceTaxCalculationShippingCostTaxBehavior,
    /// Detailed account of taxes relevant to shipping cost.
    pub tax_breakdown: Option<Vec<RawObject>>,
    /// The [tax code](https://stripe.com/docs/tax/tax-categories) ID used for shipping.
    pub tax_code: String,
}

/// The model of a [`TaxProductResourceTaxCalculationShippingCost`].
pub struct TaxProductResourceTaxCalculationShippingCostModel {
    pub amount: i64,
    pub amount_tax: i64,
    pub shipping_rate: Option<Seq<char>>,
    pub tax_behavior: TaxProductResourceTaxCalculationShippingCostTaxBehavior,
    pub tax_breakdown: Option<Seq<Json>>,
    pub tax_code: Seq<char>,
}

impl DeepView for TaxProductResourceTaxCalculationShippingCost {
    type V = TaxProductResourceTaxCalculationShippingCostModel;

    open spec fn deep_view(&self) -> TaxProductResourceTaxCalculationShippingCostModel {
        TaxProductResourceTaxCalculationShippingCostModel {
            amount: self.amount.deep_view(),
            amount_tax: self.amount_tax.deep_view(),
            shipping_rate: self.shipping_rate.deep_view(),
            tax_behavior: self.tax_behavior.deep_view(),
            tax_breakdown: self.tax_breakdown.deep_view(),
            tax_code: self.tax_code.deep_view(),
        }
    }
}

impl View for TaxProductResourceTaxCalculationShippingCost {
    type V = TaxProductResourceTaxCalculationShippingCostModel;

    open spec fn view(&self) -> TaxProductResourceTaxCalculationShippingCostModel {
        self.deep_view()
    }
}

/// The members of a [`TaxProductResourceTaxCalculationShippingCost`] as far as they have been read; `None`
/// stands for a member that is still missing.
#[derive(Debug)]
pub struct TaxProductResourceTaxCalculationShippingCostBuilder {
    pub amount: Option<i64>,
    pub amount_tax: Option<i64>,
    pub shipping_rate: Option<Option<String>>,
    pub tax_behavior: Option<TaxProductResourceTaxCalculationShippingCostTaxBehavior>,
    pub tax_breakdown: Option<Option<Vec<RawObject>>>,
    pub tax_code: Option<String>,
}

impl TaxProductResourceTaxCalculationShippingCostBuilder {
    /// The builder before any member was read: an optional member is there
    /// and empty, a required one is missing.
    pub fn deser_default() -> (builder: Self)
        ensures
            builder.amount is None,
            builder.amount_tax is None,
            builder.shipping_rate == Some(None::<String>),
            builder.tax_behavior is None,
            builder.tax_breakdown == Some(None::<Vec<RawObject>>),
            builder.tax_code is None,
    {
        TaxProductResourceTaxCalculationShippingCostBuilder { amount: None, amount_tax: None, shipping_rate: Some(None), tax_behavior: None, tax_breakdown: Some(None), tax_code: None }
    }

    /// Whether every member has been read.
    pub open spec fn is_complete(self) -> bool {
        &&& self.amount is Some
        &&& self.amount_tax is Some
        &&& self.shipping_rate is Some
        &&& self.tax_behavior is Some
        &&& self.tax_breakdown is Some
        &&& self.tax_code is Some
    }

    /// The value that a complete builder holds.
    pub open spec fn output(self) -> TaxProductResourceTaxCalculationShippingCost {
        TaxProductResourceTaxCalculationShippingCost {
            amount: self.amount->Some_0,
            amount_tax: self.amount_tax->Some_0,
            shipping_rate: self.shipping_rate->Some_0,
            tax_behavior: self.tax_behavior->Some_0,
            tax_breakdown: self.tax_breakdown->Some_0,
            tax_code: self.tax_code->Some_0,
        }
    }

    /// Hands out the value once every member has been read.
    pub fn take_out(self) -> (out: Option<TaxProductResourceTaxCalculationShippingCost>)
        ensures
            out == if self.is_complete() {
                Some(self.output())
            } else {
                None
            },
    {
        Some(TaxProductResourceTaxCalculationShippingCost {
            amount: self.amount?,
            amount_tax: self.amount_tax?,
            shipping_rate: self.shipping_rate?,
            tax_behavior: self.tax_behavior?,
            tax_breakdown: self.tax_breakdown?,
            tax_code: self.tax_code?,
        })
    }
}

impl FromValueOpt for TaxProductResourceTaxCalculationShippingCost {
    /// A JSON object decodes to a value where every member that the type
    /// knows holds a value of the member's type and no required member is
    /// missing; a missing optional member reads as `None`, members that the
    /// type does not know are passed over.
    open spec fn decoded(json: Json) -> Option<TaxProductResourceTaxCalculationShippingCostModel> {
        let amount = decoded_member::<i64>(json, "amount"@, None);
        let amount_tax = decoded_member::<i64>(json, "amount_tax"@, None);
        let shipping_rate = decoded_member::<Option<String>>(json, "shipping_rate"@, Some(None));
        let tax_behavior = decoded_member::<TaxProductResourceTaxCalculationShippingCostTaxBehavior>(json, "tax_behavior"@, None);
        let tax_breakdown = decoded_member::<Option<Vec<RawObject>>>(json, "tax_breakdown"@, Some(None));
        let tax_code = decoded_member::<String>(json, "tax_code"@, None);
        if json is Object && amount is Some && amount_tax is Some && shipping_rate is Some && tax_behavior is Some && tax_breakdown is Some && tax_code is Some {
            Some(TaxProductResourceTaxCalculationShippingCostModel {
                amount: amount->Some_0,
                amount_tax: amount_tax->Some_0,
                shipping_rate: shipping_rate->Some_0,
                tax_behavior: tax_behavior->Some_0,
                tax_breakdown: tax_breakdown->Some_0,
                tax_code: tax_code->Some_0,
            })
        } else {
            None
        }
    }

    fn from_value(value: &JsonValue) -> (out: Option<TaxProductResourceTaxCalculationShippingCost>) {
        match value {
            JsonValue::Object(_) => {},
            _ => {
                return None;
            },
        }
        let mut b = TaxProductResourceTaxCalculationShippingCostBuilder::deser_default();
        b.amount = Some(member_from_value(value, "amount", b.amount)?);
        b.amount_tax = Some(member_from_value(value, "amount_tax", b.amount_tax)?);
        b.shipping_rate = Some(member_from_value(value, "shipping_rate", b.shipping_rate)?);
        b.tax_behavior = Some(member_from_value(value, "tax_behavior", b.tax_behavior)?);
        b.tax_breakdown = Some(member_from_value(value, "tax_breakdown", b.tax_breakdown)?);
        b.tax_code = Some(member_from_value(value, "tax_code", b.tax_code)?);
        b.take_out()
    }
}

/// Specifies whether the `amount` includes taxes.
/// If `tax_behavior=inclusive`, then the amount includes taxes.
#[derive(Copy, Clone, Debug, PartialEq, Eq, Structural)]
pub enum TaxProductResourceTaxCalculationShippingCostTaxBehavior {
    Exclusive,
    Inclusive,
}

impl TaxProductResourceTaxCalculationShippingCostTaxBehavior {
    /// The name of the value on the wire.
    pub open spec fn wire_name(self) -> Seq<char> {
        match self {
            TaxProductResourceTaxCalculationShippingCostTaxBehavior::Exclusive => "exclusive"@,
            TaxProductResourceTaxCalculationShippingCostTaxBehavior::Inclusive => "inclusive"@,
        }
    }

    pub fn as_str(self) -> (name: &'static str)
        ensures
            name@ == self.wire_name(),
    {
        match self {
            TaxProductResourceTaxCalculationShippingCostTaxBehavior::Exclusive => "exclusive",
            TaxProductResourceTaxCalculationShippingCostTaxBehavior::Inclusive => "inclusive",
        }
    }
}

impl std::str::FromStr for TaxProductResourceTaxCalculationShippingCostTaxBehavior {
    type Err = ();

    /// Reads a wire name; fails on a string that is the name of no value.
    fn from_str(s: &str) -> (parsed: Result<Self, Self::Err>)
        ensures
            match parsed {
                Ok(v) => v.wire_name() == s@,
                Err(_) => forall|v: TaxProductResourceTaxCalculationShippingCostTaxBehavior| #[trigger] v.wire_name() != s@,
            },
    {
        if str_eq(s, "exclusive") {
            Ok(TaxProductResourceTaxCalculationShippingCostTaxBehavior::Exclusive)
        } else if str_eq(s, "inclusive") {
            Ok(TaxProductResourceTaxCalculationShippingCostTaxBehavior::Inclusive)
        } else {
            Err(())
        }
    }
}

/// Two values of `TaxProductResourceTaxCalculationShippingCostTaxBehavior` with one wire name are the same value, so
/// reading back what `as_str` gives returns the value it was called on.
pub proof fn lemma_tax_product_resource_tax_calculation_shipping_cost_tax_behavior_wire_names_differ(a: TaxProductResourceTaxCalculationShippingCostTaxBehavior, b: TaxProductResourceTaxCalculationShippingCostTaxBehavior)
    requires
        a.wire_name() == b.wire_name(),
    ensures
        a == b,
{
    reveal_strlit("exclusive");
    reveal_strlit("inclusive");
    assert("exclusive"@[0] != "inclusive"@[0]);
}

impl DeepView for TaxProductResourceTaxCalculationShippingCostTaxBehavior {
    type V = TaxProductResourceTaxCalculationShippingCostTaxBehavior;

    open spec fn deep_view(&self) -> TaxProductResourceTaxCalculationShippingCostTaxBehavior {
        *self
    }
}

impl FromValueOpt for TaxProductResourceTaxCalculationShippingCostTaxBehavior {
    /// A JSON string that is the wire name of a value decodes to that value.
    open spec fn decoded(json: Json) -> Option<TaxProductResourceTaxCalculationShippingCostTaxBehavior> {
        match json {
            Json::String(s) => if exists|v: TaxProductResourceTaxCalculationShippingCostTaxBehavior| #[trigger] v.wire_name() == s {
                Some(choose|v: TaxProductResourceTaxCalculationShippingCostTaxBehavior| #[trigger] v.wire_name() == s)
            } else {
                None
            },
            _ => None,
        }
    }

    fn from_value(value: &JsonValue) -> (out: Option<TaxProductResourceTaxCalculationShippingCostTaxBehavior>) {
        match value {
            JsonValue::String(s) => match TaxProductResourceTaxCalculationShippingCostTaxBehavior::from_str(s.as_str()) {
                Ok(v) => {
                    proof {
                        let w = choose|w: TaxProductResourceTaxCalculationShippingCostTaxBehavior| #[trigger] w.wire_name() == s@;
                        lemma_tax_product_resource_tax_calculation_shipping_cost_tax_behavior_wire_names_differ(v, w);
                    }
                    Some(v)
                },
                Err(_) => None,
            },
            _ => None,
        }
    }
}

} // verus!
