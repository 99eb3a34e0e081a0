use async_stripe::ids::{AccountId, RefundId, SubscriptionScheduleId, TreasuryTransactionEntryId};
use async_stripe::request::{target, RequestDescription, StripeMethod, StripeRequest};
use async_stripe::resources::account::{
    CreateAccount, CreateAccountCompanyStructure, CreateAccountSettingsPayoutsScheduleWeeklyAnchor, DeleteAccount,
    ListAccount, PersonsAccount, PersonsAccountRelationship, RejectAccount, RetrieveAccount,
    RetrieveForMyAccountAccount, UpdateAccount, UpdateAccountCompanyStructure,
};
use async_stripe::resources::login_link::CreateAccountLoginLink;
use async_stripe::resources::refund::{
    CancelRefund, CreateRefund, CreateRefundOrigin, CreateRefundReason, ExpireRefund, ListRefund, RetrieveRefund,
    UpdateRefund,
};
use async_stripe::resources::subscription_schedule::{
    CancelSubscriptionSchedule, CreateSubscriptionSchedule,
    CreateSubscriptionScheduleDefaultSettingsAutomaticTax,
    CreateSubscriptionScheduleDefaultSettingsAutomaticTaxLiability,
    CreateSubscriptionScheduleDefaultSettingsAutomaticTaxLiabilityType,
    CreateSubscriptionSchedulePhasesItemsPriceDataRecurringInterval, ListSubscriptionSchedule,
    ReleaseSubscriptionSchedule, RetrieveSubscriptionSchedule, UpdateSubscriptionSchedule,
    UpdateSubscriptionScheduleProrationBehavior,
};
use async_stripe::resources::treasury_transaction_entry::{
    ListTreasuryTransactionEntry, ListTreasuryTransactionEntryOrderBy, RetrieveTreasuryTransactionEntry,
};
use async_stripe::error::StripeParseError;
use async_stripe::types::{AccountBusinessType, Currency, RangeQuery, SubscriptionScheduleEndBehavior};
use std::str::FromStr;

fn call(request: &RequestDescription) -> (StripeMethod, String) {
    assert_eq!(request.query_string(), None);
    assert_eq!(request.body_bytes(), None);
    assert_eq!(request.key(), None);
    (request.method(), request.path().to_string())
}

#[test]
fn refund_calls() {
    let id = RefundId("re_1".to_string());
    assert_eq!(call(&ListRefund::new().build()), (StripeMethod::Get, "/refunds".to_string()));
    assert_eq!(call(&RetrieveRefund::new().build(&id)), (StripeMethod::Get, "/refunds/re_1".to_string()));
    assert_eq!(call(&CreateRefund::new().build()), (StripeMethod::Post, "/refunds".to_string()));
    assert_eq!(call(&UpdateRefund::new().build(&id)), (StripeMethod::Post, "/refunds/re_1".to_string()));
    assert_eq!(call(&CancelRefund::new().build(&id)), (StripeMethod::Post, "/refunds/re_1/cancel".to_string()));
    assert_eq!(
        call(&ExpireRefund::new().build("re_2")),
        (StripeMethod::Post, "/test_helpers/refunds/re_2/expire".to_string())
    );
}

#[test]
fn refund_parameters_start_empty() {
    let list = ListRefund::new();
    assert!(list.charge.is_none() && list.created.is_none() && list.ending_before.is_none());
    assert!(list.expand.is_none() && list.limit.is_none() && list.payment_intent.is_none());
    assert!(list.starting_after.is_none());
    let create = CreateRefund::new();
    assert!(create.amount.is_none() && create.charge.is_none() && create.currency.is_none());
    assert!(create.metadata.is_none() && create.origin.is_none() && create.reason.is_none());
    assert!(create.refund_application_fee.is_none() && create.reverse_transfer.is_none());
}

#[test]
fn refund_enums() {
    assert_eq!(CreateRefundOrigin::CustomerBalance.as_str(), "customer_balance");
    assert_eq!(CreateRefundOrigin::from_str("customer_balance"), Ok(CreateRefundOrigin::CustomerBalance));
    assert_eq!(CreateRefundOrigin::from_str("customer"), Err(()));
    for (value, name) in [
        (CreateRefundReason::Duplicate, "duplicate"),
        (CreateRefundReason::Fraudulent, "fraudulent"),
        (CreateRefundReason::RequestedByCustomer, "requested_by_customer"),
    ] {
        assert_eq!(value.as_str(), name);
        assert_eq!(CreateRefundReason::from_str(name), Ok(value));
    }
    assert_eq!(CreateRefundReason::from_str("Duplicate"), Err(()));
}

#[test]
fn login_link_call() {
    let account = AccountId("acct_1".to_string());
    let params = CreateAccountLoginLink::new();
    assert!(params.expand.is_none());
    assert_eq!(call(&params.build(&account)), (StripeMethod::Post, "/accounts/acct_1/login_links".to_string()));
}

#[test]
fn subscription_schedule_calls() {
    let id = SubscriptionScheduleId("sub_sched_1".to_string());
    assert_eq!(
        call(&ListSubscriptionSchedule::new().build()),
        (StripeMethod::Get, "/subscription_schedules".to_string())
    );
    assert_eq!(
        call(&RetrieveSubscriptionSchedule::new(&id).build()),
        (StripeMethod::Get, "/subscription_schedules/sub_sched_1".to_string())
    );
    assert_eq!(
        call(&CreateSubscriptionSchedule::new().build()),
        (StripeMethod::Post, "/subscription_schedules".to_string())
    );
    assert_eq!(
        call(&UpdateSubscriptionSchedule::new(&id).build()),
        (StripeMethod::Post, "/subscription_schedules/sub_sched_1".to_string())
    );
    assert_eq!(
        call(&CancelSubscriptionSchedule::new(&id).build()),
        (StripeMethod::Post, "/subscription_schedules/sub_sched_1/cancel".to_string())
    );
    assert_eq!(
        call(&ReleaseSubscriptionSchedule::new(&id).build()),
        (StripeMethod::Post, "/subscription_schedules/sub_sched_1/release".to_string())
    );
}

#[test]
fn subscription_schedule_setters_set_one_parameter() {
    let fresh = ListSubscriptionSchedule::new();
    assert!(fresh.inner.customer.is_none() && fresh.inner.limit.is_none() && fresh.inner.scheduled.is_none());
    assert!(fresh.inner.created.is_none() && fresh.inner.expand.is_none());
    let expand = ["customer", "phases"];
    let list = fresh.customer("cus_1").limit(25).expand(&expand).created(RangeQuery::gte(1_700_000_000));
    assert_eq!(list.inner.customer, Some("cus_1"));
    assert_eq!(list.inner.limit, Some(25));
    assert_eq!(list.inner.expand, Some(&expand[..]));
    assert!(matches!(list.inner.created, Some(RangeQuery::Bounds(b)) if b.gte == Some(1_700_000_000) && b.gt.is_none() && b.lt.is_none() && b.lte.is_none()));
    assert!(list.inner.scheduled.is_none() && list.inner.ending_before.is_none());
    let list = list.limit(3).scheduled(true);
    assert_eq!(list.inner.limit, Some(3));
    assert_eq!(list.inner.scheduled, Some(true));
    assert_eq!(list.inner.customer, Some("cus_1"));

    let id = SubscriptionScheduleId("sub_sched_1".to_string());
    let cancel = CancelSubscriptionSchedule::new(&id).invoice_now(true).prorate(false);
    assert_eq!(cancel.inner.invoice_now, Some(true));
    assert_eq!(cancel.inner.prorate, Some(false));
    assert_eq!(cancel.schedule.as_str(), "sub_sched_1");
    let release = ReleaseSubscriptionSchedule::new(&id).preserve_cancel_date(true);
    assert_eq!(release.inner.preserve_cancel_date, Some(true));
    let update = UpdateSubscriptionSchedule::new(&id)
        .end_behavior(SubscriptionScheduleEndBehavior::Release)
        .proration_behavior(UpdateSubscriptionScheduleProrationBehavior::None_);
    assert_eq!(update.inner.end_behavior, Some(SubscriptionScheduleEndBehavior::Release));
    assert_eq!(update.inner.proration_behavior, Some(UpdateSubscriptionScheduleProrationBehavior::None_));
}

#[test]
fn subscription_schedule_parameter_objects() {
    let tax = CreateSubscriptionScheduleDefaultSettingsAutomaticTax::new(true);
    assert!(tax.enabled);
    assert!(tax.liability.is_none());
    let liability = CreateSubscriptionScheduleDefaultSettingsAutomaticTaxLiability::new(
        CreateSubscriptionScheduleDefaultSettingsAutomaticTaxLiabilityType::Self_,
    );
    assert!(liability.account.is_none());
    assert_eq!(liability.type_, CreateSubscriptionScheduleDefaultSettingsAutomaticTaxLiabilityType::Self_);
    assert_eq!(liability.type_.as_str(), "self");
    assert_eq!(
        CreateSubscriptionScheduleDefaultSettingsAutomaticTaxLiabilityType::from_str("account"),
        Ok(CreateSubscriptionScheduleDefaultSettingsAutomaticTaxLiabilityType::Account)
    );
    assert_eq!(
        CreateSubscriptionScheduleDefaultSettingsAutomaticTaxLiabilityType::from_str("Self"),
        Err(StripeParseError)
    );
    for (value, name) in [
        (CreateSubscriptionSchedulePhasesItemsPriceDataRecurringInterval::Day, "day"),
        (CreateSubscriptionSchedulePhasesItemsPriceDataRecurringInterval::Month, "month"),
        (CreateSubscriptionSchedulePhasesItemsPriceDataRecurringInterval::Week, "week"),
        (CreateSubscriptionSchedulePhasesItemsPriceDataRecurringInterval::Year, "year"),
    ] {
        assert_eq!(value.as_str(), name);
        assert_eq!(CreateSubscriptionSchedulePhasesItemsPriceDataRecurringInterval::from_str(name), Ok(value));
    }
    assert_eq!(UpdateSubscriptionScheduleProrationBehavior::None_.as_str(), "none");
    assert_eq!(
        UpdateSubscriptionScheduleProrationBehavior::from_str("none"),
        Ok(UpdateSubscriptionScheduleProrationBehavior::None_)
    );
}

#[test]
fn account_calls() {
    let id = AccountId("acct_9".to_string());
    assert_eq!(call(&DeleteAccount::new(&id).build()), (StripeMethod::Delete, "/accounts/acct_9".to_string()));
    assert_eq!(call(&RetrieveForMyAccountAccount::new().build()), (StripeMethod::Get, "/account".to_string()));
    assert_eq!(call(&ListAccount::new().build()), (StripeMethod::Get, "/accounts".to_string()));
    assert_eq!(call(&RetrieveAccount::new(&id).build()), (StripeMethod::Get, "/accounts/acct_9".to_string()));
    assert_eq!(call(&PersonsAccount::new(&id).build()), (StripeMethod::Get, "/accounts/acct_9/persons".to_string()));
    assert_eq!(call(&CreateAccount::new().build()), (StripeMethod::Post, "/accounts".to_string()));
    assert_eq!(call(&UpdateAccount::new(&id).build()), (StripeMethod::Post, "/accounts/acct_9".to_string()));
    assert_eq!(
        call(&RejectAccount::new(&id, "fraud").build()),
        (StripeMethod::Post, "/accounts/acct_9/reject".to_string())
    );
}

#[test]
fn account_parameters() {
    let id = AccountId("acct_9".to_string());
    let reject = RejectAccount::new(&id, "fraud");
    assert_eq!(reject.inner.reason, "fraud");
    assert!(reject.inner.expand.is_none());
    let mut relationship = PersonsAccountRelationship::new();
    assert!(relationship.director.is_none() && relationship.owner.is_none());
    relationship.owner = Some(true);
    let persons = PersonsAccount::new(&id).relationship(relationship).limit(10).starting_after("person_1");
    assert_eq!(persons.inner.relationship.unwrap().owner, Some(true));
    assert_eq!(persons.inner.limit, Some(10));
    assert_eq!(persons.inner.starting_after, Some("person_1"));
    assert!(persons.inner.ending_before.is_none());
    let create = CreateAccount::new().business_type(AccountBusinessType::NonProfit).country("DE").email("a@b.c");
    assert_eq!(create.inner.business_type, Some(AccountBusinessType::NonProfit));
    assert_eq!(create.inner.country, Some("DE"));
    assert_eq!(create.inner.email, Some("a@b.c"));
    assert!(create.inner.default_currency.is_none());
    let create = create.default_currency(Currency::EUR);
    assert_eq!(create.inner.default_currency, Some(Currency::EUR));
    assert_eq!(create.inner.country, Some("DE"));
}

#[test]
fn account_enums() {
    assert_eq!(CreateAccountCompanyStructure::FreeZoneLlc.as_str(), "free_zone_llc");
    assert_eq!(
        CreateAccountCompanyStructure::from_str("sole_proprietorship"),
        Ok(CreateAccountCompanyStructure::SoleProprietorship)
    );
    assert_eq!(CreateAccountCompanyStructure::from_str("sole_proprietor"), Ok(CreateAccountCompanyStructure::Unknown));
    assert_eq!(CreateAccountCompanyStructure::from_str("cooperative"), Ok(CreateAccountCompanyStructure::Unknown));
    assert_eq!(CreateAccountCompanyStructure::from_str(""), Ok(CreateAccountCompanyStructure::Unknown));
    assert_eq!(CreateAccountCompanyStructure::from_str("unknown"), Ok(CreateAccountCompanyStructure::Unknown));
    assert_eq!(CreateAccountCompanyStructure::Unknown.as_str(), "unknown");
    assert_eq!(UpdateAccountCompanyStructure::from_str("cooperative"), Ok(UpdateAccountCompanyStructure::Unknown));
    assert_eq!(UpdateAccountCompanyStructure::from_str("LLC"), Ok(UpdateAccountCompanyStructure::Unknown));
    assert_eq!(UpdateAccountCompanyStructure::from_str("llc"), Ok(UpdateAccountCompanyStructure::Llc));
    assert_eq!(UpdateAccountCompanyStructure::Llc.as_str(), "llc");
    assert_eq!(
        UpdateAccountCompanyStructure::from_str(UpdateAccountCompanyStructure::RegisteredCharity.as_str()),
        Ok(UpdateAccountCompanyStructure::RegisteredCharity)
    );
    for name in ["friday", "monday", "saturday", "sunday", "thursday", "tuesday", "wednesday"] {
        let day = CreateAccountSettingsPayoutsScheduleWeeklyAnchor::from_str(name).unwrap();
        assert_eq!(day.as_str(), name);
    }
    assert_eq!(AccountBusinessType::GovernmentEntity.as_str(), "government_entity");
    assert_eq!(AccountBusinessType::from_str("individual"), Ok(AccountBusinessType::Individual));
}

#[test]
fn treasury_transaction_entry_calls() {
    let list = ListTreasuryTransactionEntry::new("fa_1");
    assert_eq!(list.inner.financial_account, "fa_1");
    assert!(list.inner.order_by.is_none() && list.inner.transaction.is_none());
    let list = list.order_by(ListTreasuryTransactionEntryOrderBy::EffectiveAt).transaction("trxn_1");
    assert_eq!(list.inner.order_by, Some(ListTreasuryTransactionEntryOrderBy::EffectiveAt));
    assert_eq!(list.inner.transaction, Some("trxn_1"));
    assert_eq!(call(&list.build()), (StripeMethod::Get, "/treasury/transaction_entries".to_string()));
    let id = TreasuryTransactionEntryId("trxne_1".to_string());
    assert_eq!(
        call(&RetrieveTreasuryTransactionEntry::new(&id).build()),
        (StripeMethod::Get, "/treasury/transaction_entries/trxne_1".to_string())
    );
    assert_eq!(ListTreasuryTransactionEntryOrderBy::Created.as_str(), "created");
    assert_eq!(ListTreasuryTransactionEntryOrderBy::from_str("effective_at"), Ok(ListTreasuryTransactionEntryOrderBy::EffectiveAt));
}

#[test]
fn shared_values() {
    assert_eq!(Currency::USD.as_str(), "usd");
    assert_eq!(Currency::from_str("jpy"), Ok(Currency::JPY));
    assert_eq!(Currency::from_str("JPY"), Err(StripeParseError));
    assert_eq!(Currency::from_str("zzz"), Err(StripeParseError));
    assert_eq!(SubscriptionScheduleEndBehavior::None_.as_str(), "none");
    assert_eq!(SubscriptionScheduleEndBehavior::from_str("renew"), Ok(SubscriptionScheduleEndBehavior::Renew));
    assert!(matches!(RangeQuery::eq(5_i64), RangeQuery::Exact(5)));
    assert!(matches!(RangeQuery::gt(5_i64), RangeQuery::Bounds(b) if b.gt == Some(5) && b.gte.is_none() && b.lt.is_none() && b.lte.is_none()));
    assert!(matches!(RangeQuery::lt(5_i64), RangeQuery::Bounds(b) if b.lt == Some(5) && b.gt.is_none() && b.gte.is_none() && b.lte.is_none()));
    assert!(matches!(RangeQuery::lte(5_i64), RangeQuery::Bounds(b) if b.lte == Some(5) && b.gt.is_none() && b.gte.is_none() && b.lt.is_none()));
}

#[test]
fn request_description_builders() {
    let request = RequestDescription::new(StripeMethod::Delete, "/accounts/acct_1".to_string());
    assert_eq!(request.method(), StripeMethod::Delete);
    assert_eq!(request.path(), "/accounts/acct_1");
    assert_eq!(request.query_string(), None);
    let request = request.query("a=1".to_string()).idempotency_key("k".to_string()).body(vec![1, 2, 3]);
    assert_eq!(request.query_string(), Some("a=1"));
    assert_eq!(request.key(), Some("k"));
    assert_eq!(request.body_bytes(), Some(&[1_u8, 2, 3][..]));
    assert_eq!(request.method(), StripeMethod::Delete);
    assert_eq!(request.path(), "/accounts/acct_1");
}

#[test]
fn params_go_where_the_method_carries_them() {
    let id = AccountId("acct_9".to_string());
    let get = RetrieveAccount::new(&id).build().params("expand[0]=company".to_string());
    assert_eq!(get.method(), StripeMethod::Get);
    assert_eq!(get.path(), "/accounts/acct_9");
    assert_eq!(get.query_string(), Some("expand[0]=company"));
    assert_eq!(get.body_bytes(), None);

    let post = CreateAccount::new().build().params("country=DE&email=a%40b.c".to_string());
    assert_eq!(post.method(), StripeMethod::Post);
    assert_eq!(post.path(), "/accounts");
    assert_eq!(post.query_string(), None);
    assert_eq!(post.body_bytes(), Some(&b"country=DE&email=a%40b.c"[..]));

    let delete = DeleteAccount::new(&id).build().idempotency_key("k".to_string()).params("a=1".to_string());
    assert_eq!(delete.method(), StripeMethod::Delete);
    assert_eq!(delete.query_string(), Some("a=1"));
    assert_eq!(delete.body_bytes(), None);
    assert_eq!(delete.key(), Some("k"));

    let utf8 = RequestDescription::new(StripeMethod::Post, "/x".to_string()).params("n=gr\u{fc}n".to_string());
    assert_eq!(utf8.body_bytes(), Some("n=gr\u{fc}n".as_bytes()));
}

#[test]
fn target_joins_base_path_and_query() {
    let id = AccountId("acct_9".to_string());
    let wire = RetrieveAccount::new(&id).build().into_wire();
    assert_eq!(target("https://api.stripe.com/v1", &wire), "https://api.stripe.com/v1/accounts/acct_9");
    let wire = RetrieveAccount::new(&id).build().params("expand[0]=company".to_string()).into_wire();
    assert_eq!(
        target("https://api.stripe.com/v1", &wire),
        "https://api.stripe.com/v1/accounts/acct_9?expand[0]=company"
    );
    let wire = CreateAccount::new().build().params("country=DE".to_string()).into_wire();
    assert_eq!(target("http://localhost:12111", &wire), "http://localhost:12111/accounts");
    assert_eq!(wire.body, b"country=DE".to_vec());
    let wire = RequestDescription::new(StripeMethod::Get, String::new()).query(String::new()).into_wire();
    assert_eq!(target("", &wire), "?");
}
