//! Treasury transaction entries: the calls that list and retrieve them.

use vstd::prelude::*;
use vstd::string::StringExecFns;
use crate::error::StripeParseError;
use crate::ids::TreasuryTransactionEntryId;
use crate::request::{RequestDescription, RequestModel, StripeMethod, StripeRequest};
use crate::text::str_eq;
use crate::types::RangeQueryTs;

verus! {

#[derive(Copy, Clone, Debug)]
pub struct ListTreasuryTransactionEntryBuilder<'a> {
    pub created: Option<RangeQueryTs>,
    pub effective_at: Option<RangeQueryTs>,
    pub ending_before: Option<&'a str>,
    pub expand: Option<&'a [&'a str]>,
    pub financial_account: &'a str,
    pub limit: Option<i64>,
    pub order_by: Option<ListTreasuryTransactionEntryOrderBy>,
    pub starting_after: Option<&'a str>,
    pub transaction: Option<&'a str>,
}

impl<'a> ListTreasuryTransactionEntryBuilder<'a> {
    pub fn new(financial_account: &'a str) -> (out: Self)
        ensures
            out == (ListTreasuryTransactionEntryBuilder { created: None, effective_at: None, ending_before: None, expand: None, financial_account: financial_account, limit: None, order_by: None, starting_after: None, transaction: None }),
    {
        Self { created: None, effective_at: None, ending_before: None, expand: None, financial_account, limit: None, order_by: None, starting_after: None, transaction: None, }
    }
}

/// The results are in reverse chronological order by `created` or `effective_at`.
/// The default is `created`.
#[derive(Copy, Clone, Debug, PartialEq, Eq, Structural)]
pub enum ListTreasuryTransactionEntryOrderBy {
    Created,
    EffectiveAt,
}

impl ListTreasuryTransactionEntryOrderBy {
    /// The name of the value on the wire.
    pub open spec fn wire_name(self) -> Seq<char> {
        match self {
            ListTreasuryTransactionEntryOrderBy::Created => "created"@,
            ListTreasuryTransactionEntryOrderBy::EffectiveAt => "effective_at"@,
        }
    }

    pub fn as_str(self) -> (name: &'static str)
        ensures
            name@ == self.wire_name(),
    {
        match self {
            ListTreasuryTransactionEntryOrderBy::Created => "created",
            ListTreasuryTransactionEntryOrderBy::EffectiveAt => "effective_at",
        }
    }
}

impl std::str::FromStr for ListTreasuryTransactionEntryOrderBy {
    type Err = StripeParseError;

    /// Reads a wire name; fails on a string that is the name of no value.
    fn from_str(s: &str) -> (parsed: Result<Self, Self::Err>)
        ensures
            match parsed {
                Ok(v) => v.wire_name() == s@,
                Err(_) => forall|v: ListTreasuryTransactionEntryOrderBy| #[trigger] v.wire_name() != s@,
            },
    {
        if str_eq(s, "created") {
            Ok(ListTreasuryTransactionEntryOrderBy::Created)
        } else if str_eq(s, "effective_at") {
            Ok(ListTreasuryTransactionEntryOrderBy::EffectiveAt)
        } else {
            Err(StripeParseError)
        }
    }
}

/// Two values of `ListTreasuryTransactionEntryOrderBy` with one wire name are the same value, so
/// reading back what `as_str` gives returns the value it was called on.
pub proof fn lemma_list_treasury_transaction_entry_order_by_wire_names_differ(a: ListTreasuryTransactionEntryOrderBy, b: ListTreasuryTransactionEntryOrderBy)
    requires
        a.wire_name() == b.wire_name(),
    ensures
        a == b,
{
    reveal_strlit("created");
    reveal_strlit("effective_at");
    assert("created"@.len() == 7);
    assert("effective_at"@.len() == 12);
}

/// Retrieves a list of TransactionEntry objects.
#[derive(Clone, Debug)]
pub struct ListTreasuryTransactionEntry<'a> {
    pub inner: ListTreasuryTransactionEntryBuilder<'a>,
}

impl<'a> ListTreasuryTransactionEntry<'a> {
    /// Construct a new `ListTreasuryTransactionEntry`.
    pub fn new(financial_account: &'a str) -> (out: Self)
        ensures
            out == (ListTreasuryTransactionEntry { inner: ListTreasuryTransactionEntryBuilder { created: None, effective_at: None, ending_before: None, expand: None, financial_account: financial_account, limit: None, order_by: None, starting_after: None, transaction: None } }),
    {
        Self { inner: ListTreasuryTransactionEntryBuilder::new(financial_account) }
    }

    /// Only return TransactionEntries that were created during the given date interval.
    pub fn created(self, created: RangeQueryTs) -> (out: Self)
        ensures
            out == (ListTreasuryTransactionEntry { inner: (ListTreasuryTransactionEntryBuilder { created: Some(created), ..self.inner }), ..self }),
    {
        let mut out = self;
        out.inner.created = Some(created);
        out
    }

    pub fn effective_at(self, effective_at: RangeQueryTs) -> (out: Self)
        ensures
            out == (ListTreasuryTransactionEntry { inner: (ListTreasuryTransactionEntryBuilder { effective_at: Some(effective_at), ..self.inner }), ..self }),
    {
        let mut out = self;
        out.inner.effective_at = Some(effective_at);
        out
    }

    /// A cursor for use in pagination.
    /// `ending_before` is an object ID that defines your place in the list.
    /// For instance, if you make a list request and receive 100 objects, starting with `obj_bar`, your subsequent call can include `ending_before=obj_bar` in order to fetch the previous page of the list.
    pub fn ending_before(self, ending_before: &'a str) -> (out: Self)
        ensures
            out == (ListTreasuryTransactionEntry { inner: (ListTreasuryTransactionEntryBuilder { ending_before: Some(ending_before), ..self.inner }), ..self }),
    {
        let mut out = self;
        out.inner.ending_before = Some(ending_before);
        out
    }

    /// Specifies which fields in the response should be expanded.
    pub fn expand(self, expand: &'a [&'a str]) -> (out: Self)
        ensures
            out == (ListTreasuryTransactionEntry { inner: (ListTreasuryTransactionEntryBuilder { expand: Some(expand), ..self.inner }), ..self }),
    {
        let mut out = self;
        out.inner.expand = Some(expand);
        out
    }

    /// A limit on the number of objects to be returned.
    /// Limit can range between 1 and 100, and the default is 10.
    pub fn limit(self, limit: i64) -> (out: Self)
        ensures
            out == (ListTreasuryTransactionEntry { inner: (ListTreasuryTransactionEntryBuilder { limit: Some(limit), ..self.inner }), ..self }),
    {
        let mut out = self;
        out.inner.limit = Some(limit);
        out
    }

    /// The results are in reverse chronological order by `created` or `effective_at`.
    /// The default is `created`.
    pub fn order_by(self, order_by: ListTreasuryTransactionEntryOrderBy) -> (out: Self)
        ensures
            out == (ListTreasuryTransactionEntry { inner: (ListTreasuryTransactionEntryBuilder { order_by: Some(order_by), ..self.inner }), ..self }),
    {
        let mut out = self;
        out.inner.order_by = Some(order_by);
        out
    }

    /// A cursor for use in pagination.
    /// `starting_after` is an object ID that defines your place in the list.
    /// For instance, if you make a list request and receive 100 objects, ending with `obj_foo`, your subsequent call can include `starting_after=obj_foo` in order to fetch the next page of the list.
    pub fn starting_after(self, starting_after: &'a str) -> (out: Self)
        ensures
            out == (ListTreasuryTransactionEntry { inner: (ListTreasuryTransactionEntryBuilder { starting_after: Some(starting_after), ..self.inner }), ..self }),
    {
        let mut out = self;
        out.inner.starting_after = Some(starting_after);
        out
    }

    /// Only return TransactionEntries associated with this Transaction.
    pub fn transaction(self, transaction: &'a str) -> (out: Self)
        ensures
            out == (ListTreasuryTransactionEntry { inner: (ListTreasuryTransactionEntryBuilder { transaction: Some(transaction), ..self.inner }), ..self }),
    {
        let mut out = self;
        out.inner.transaction = Some(transaction);
        out
    }
}

impl StripeRequest for ListTreasuryTransactionEntry<'_> {
    open spec fn call(&self) -> RequestModel {
        RequestModel { method: StripeMethod::Get, path: "/treasury/transaction_entries"@, query: None, body: None, idempotency_key: None }
    }

    fn build(&self) -> (request: RequestDescription) {
        let path = String::from_str("/treasury/transaction_entries");
        RequestDescription::new(StripeMethod::Get, path)
    }
}

#[derive(Copy, Clone, Debug)]
pub struct RetrieveTreasuryTransactionEntryBuilder<'a> {
    pub expand: Option<&'a [&'a str]>,
}

impl<'a> RetrieveTreasuryTransactionEntryBuilder<'a> {
    pub fn new() -> (out: Self)
        ensures
            out == (RetrieveTreasuryTransactionEntryBuilder { expand: None }),
    {
        Self { expand: None }
    }
}

/// Retrieves a TransactionEntry object.
#[derive(Clone, Debug)]
pub struct RetrieveTreasuryTransactionEntry<'a> {
    pub inner: RetrieveTreasuryTransactionEntryBuilder<'a>,
    pub id: &'a TreasuryTransactionEntryId,
}

impl<'a> RetrieveTreasuryTransactionEntry<'a> {
    /// Construct a new `RetrieveTreasuryTransactionEntry`.
    pub fn new(id: &'a TreasuryTransactionEntryId) -> (out: Self)
        ensures
            out == (RetrieveTreasuryTransactionEntry { id: id, inner: RetrieveTreasuryTransactionEntryBuilder { expand: None } }),
    {
        Self { id, inner: RetrieveTreasuryTransactionEntryBuilder::new() }
    }

    /// Specifies which fields in the response should be expanded.
    pub fn expand(self, expand: &'a [&'a str]) -> (out: Self)
        ensures
            out == (RetrieveTreasuryTransactionEntry { inner: (RetrieveTreasuryTransactionEntryBuilder { expand: Some(expand), ..self.inner }), ..self }),
    {
        let mut out = self;
        out.inner.expand = Some(expand);
        out
    }
}

impl StripeRequest for RetrieveTreasuryTransactionEntry<'_> {
    open spec fn call(&self) -> RequestModel {
        RequestModel { method: StripeMethod::Get, path: "/treasury/transaction_entries/"@ + self.id@, query: None, body: None, idempotency_key: None }
    }

    fn build(&self) -> (request: RequestDescription) {
        let mut path = String::from_str("/treasury/transaction_entries/");
        path.append(self.id.as_str());
        RequestDescription::new(StripeMethod::Get, path)
    }
}

} // verus!
