use async_stripe::json::{parse, FromValueOpt};
use async_stripe::objects::connect_embedded_payments_features::ConnectEmbeddedPaymentsFeatures;
use async_stripe::objects::gelato_report_id_number_options::GelatoReportIdNumberOptions;
use async_stripe::objects::gelato_verification_session_options::GelatoVerificationSessionOptions;
use async_stripe::objects::invoice_payment_method_options_bancontact::{
    InvoicePaymentMethodOptionsBancontact, InvoicePaymentMethodOptionsBancontactPreferredLanguage,
};
use async_stripe::objects::issuing_transaction_network_data::IssuingTransactionNetworkData;
use async_stripe::objects::networks::{Networks, NetworksBuilder};
use async_stripe::objects::payment_intent_payment_method_options_link::{
    PaymentIntentPaymentMethodOptionsLink, PaymentIntentPaymentMethodOptionsLinkCaptureMethod,
    PaymentIntentPaymentMethodOptionsLinkSetupFutureUsage,
};
use async_stripe::objects::source_type_sepa_debit::SourceTypeSepaDebit;
use async_stripe::objects::tax_product_resource_tax_calculation_shipping_cost::{
    TaxProductResourceTaxCalculationShippingCost, TaxProductResourceTaxCalculationShippingCostTaxBehavior,
};
use async_stripe::objects::treasury_received_debits_resource_status_transitions::TreasuryReceivedDebitsResourceStatusTransitions;
use std::str::FromStr;

fn decode<T: FromValueOpt>(text: &str) -> Option<T> {
    T::from_value(&parse(text).unwrap())
}

#[test]
fn networks() {
    let networks: Networks = decode("{\"available\": [\"visa\"], \"preferred\": \"visa\"}").unwrap();
    assert_eq!(networks.available, vec!["visa".to_string()]);
    assert_eq!(networks.preferred.as_deref(), Some("visa"));
    let networks: Networks = decode("{\"available\": []}").unwrap();
    assert!(networks.available.is_empty());
    assert_eq!(networks.preferred, None);
    assert!(decode::<Networks>("{\"preferred\": \"visa\"}").is_none());
    assert!(decode::<Networks>("{\"available\": [1]}").is_none());
    assert!(decode::<Networks>("{\"available\": null}").is_none());
    assert!(decode::<Networks>("[]").is_none());
    let builder = NetworksBuilder::deser_default();
    assert_eq!(builder.available, None);
    assert_eq!(builder.preferred, Some(None));
    assert!(builder.take_out().is_none());
}

#[test]
fn sepa_debit_has_only_optional_members() {
    let sepa: SourceTypeSepaDebit = decode("{}").unwrap();
    assert!(sepa.bank_code.is_none() && sepa.country.is_none() && sepa.last4.is_none());
    let sepa: SourceTypeSepaDebit = decode("{\"country\": \"DE\", \"last4\": \"3000\", \"mandate_url\": null}").unwrap();
    assert_eq!(sepa.country.as_deref(), Some("DE"));
    assert_eq!(sepa.last4.as_deref(), Some("3000"));
    assert_eq!(sepa.mandate_url, None);
    assert!(decode::<SourceTypeSepaDebit>("{\"country\": 49}").is_none());
}

#[test]
fn issuing_network_data() {
    let data: IssuingTransactionNetworkData =
        decode("{\"authorization_code\": \"123456\", \"processing_date\": null}").unwrap();
    assert_eq!(data.authorization_code.as_deref(), Some("123456"));
    assert_eq!(data.processing_date, None);
    assert_eq!(data.transaction_id, None);
}

#[test]
fn link_options() {
    let link: PaymentIntentPaymentMethodOptionsLink =
        decode("{\"capture_method\": \"manual\", \"setup_future_usage\": \"off_session\"}").unwrap();
    assert_eq!(link.capture_method, Some(PaymentIntentPaymentMethodOptionsLinkCaptureMethod::Manual));
    assert_eq!(link.setup_future_usage, Some(PaymentIntentPaymentMethodOptionsLinkSetupFutureUsage::OffSession));
    assert!(link.persistent_token.is_none());
    assert!(decode::<PaymentIntentPaymentMethodOptionsLink>("{\"capture_method\": \"automatic\"}").is_none());
    assert_eq!(PaymentIntentPaymentMethodOptionsLinkSetupFutureUsage::None_.as_str(), "none");
    assert_eq!(
        PaymentIntentPaymentMethodOptionsLinkSetupFutureUsage::from_str("none"),
        Ok(PaymentIntentPaymentMethodOptionsLinkSetupFutureUsage::None_)
    );
}

#[test]
fn bancontact_options_need_a_language() {
    let options: InvoicePaymentMethodOptionsBancontact = decode("{\"preferred_language\": \"nl\"}").unwrap();
    assert_eq!(options.preferred_language, InvoicePaymentMethodOptionsBancontactPreferredLanguage::Nl);
    assert!(decode::<InvoicePaymentMethodOptionsBancontact>("{}").is_none());
    assert!(decode::<InvoicePaymentMethodOptionsBancontact>("{\"preferred_language\": \"it\"}").is_none());
    assert!(decode::<InvoicePaymentMethodOptionsBancontact>("{\"preferred_language\": null}").is_none());
    for name in ["de", "en", "fr", "nl"] {
        assert_eq!(InvoicePaymentMethodOptionsBancontactPreferredLanguage::from_str(name).unwrap().as_str(), name);
    }
}

#[test]
fn received_debit_status_transitions() {
    let transitions: TreasuryReceivedDebitsResourceStatusTransitions = decode("{\"completed_at\": 1700000000}").unwrap();
    assert_eq!(transitions.completed_at, Some(1_700_000_000));
    let transitions: TreasuryReceivedDebitsResourceStatusTransitions = decode("{\"completed_at\": -1}").unwrap();
    assert_eq!(transitions.completed_at, Some(-1));
    let transitions: TreasuryReceivedDebitsResourceStatusTransitions = decode("{}").unwrap();
    assert_eq!(transitions.completed_at, None);
    assert!(decode::<TreasuryReceivedDebitsResourceStatusTransitions>("{\"completed_at\": 1.5}").is_none());
    assert!(decode::<TreasuryReceivedDebitsResourceStatusTransitions>("{\"completed_at\": \"now\"}").is_none());
}

#[test]
fn embedded_payments_features_are_all_required() {
    let text = "{\"capture_payments\": true, \"destination_on_behalf_of_charge_management\": false, \"dispute_management\": true, \"refund_management\": false}";
    let features: ConnectEmbeddedPaymentsFeatures = decode(text).unwrap();
    assert!(features.capture_payments && features.dispute_management);
    assert!(!features.destination_on_behalf_of_charge_management && !features.refund_management);
    assert!(decode::<ConnectEmbeddedPaymentsFeatures>("{\"capture_payments\": true}").is_none());
}

#[test]
fn gelato_options() {
    let options: GelatoVerificationSessionOptions = decode("{\"document\": {\"require_id_number\": true}}").unwrap();
    assert!(options.document.is_some());
    assert!(options.id_number.is_none());
    assert!(decode::<GelatoVerificationSessionOptions>("{\"document\": 3}").is_none());
    assert!(decode::<GelatoReportIdNumberOptions>("{}").is_some());
    assert!(decode::<GelatoReportIdNumberOptions>("{\"anything\": 1}").is_some());
    assert!(decode::<GelatoReportIdNumberOptions>("null").is_none());
}

#[test]
fn shipping_cost() {
    let text = "{\"amount\": 500, \"amount_tax\": 95, \"shipping_rate\": null, \"tax_behavior\": \"exclusive\", \"tax_breakdown\": [{\"amount\": 95}], \"tax_code\": \"txcd_92010001\"}";
    let cost: TaxProductResourceTaxCalculationShippingCost = decode(text).unwrap();
    assert_eq!(cost.amount, 500);
    assert_eq!(cost.amount_tax, 95);
    assert_eq!(cost.shipping_rate, None);
    assert_eq!(cost.tax_behavior, TaxProductResourceTaxCalculationShippingCostTaxBehavior::Exclusive);
    assert_eq!(cost.tax_breakdown.as_ref().unwrap().len(), 1);
    assert_eq!(cost.tax_code, "txcd_92010001");
    assert!(decode::<TaxProductResourceTaxCalculationShippingCost>("{\"amount\": 500}").is_none());
    assert_eq!(TaxProductResourceTaxCalculationShippingCostTaxBehavior::Inclusive.as_str(), "inclusive");
    assert_eq!(
        TaxProductResourceTaxCalculationShippingCostTaxBehavior::from_str("inclusive"),
        Ok(TaxProductResourceTaxCalculationShippingCostTaxBehavior::Inclusive)
    );
}
