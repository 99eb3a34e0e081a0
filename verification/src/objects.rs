//! Objects that the remote service returns, and their decoding from JSON.

pub mod connect_embedded_payments_features;
pub mod gelato_report_id_number_options;
pub mod gelato_verification_session_options;
pub mod invoice_payment_method_options_bancontact;
pub mod issuing_transaction_network_data;
pub mod networks;
pub mod payment_intent_payment_method_options_link;
pub mod source_type_sepa_debit;
pub mod tax_product_resource_tax_calculation_shipping_cost;
pub mod treasury_received_debits_resource_status_transitions;
