//! The identifiers of the objects that the calls of this library name in
//! their paths.

use vstd::prelude::*;

verus! {

/// The identifier of a connected account.
#[derive(Clone, Debug)]
pub struct AccountId(pub String);

/// The identifier of a subscription schedule.
#[derive(Clone, Debug)]
pub struct SubscriptionScheduleId(pub String);

/// The identifier of a refund.
#[derive(Clone, Debug)]
pub struct RefundId(pub String);

/// The identifier of a treasury transaction entry.
#[derive(Clone, Debug)]
pub struct TreasuryTransactionEntryId(pub String);

impl View for AccountId {
    type V = Seq<char>;

    open spec fn view(&self) -> Seq<char> {
        self.0@
    }
}

impl View for SubscriptionScheduleId {
    type V = Seq<char>;

    open spec fn view(&self) -> Seq<char> {
        self.0@
    }
}

impl View for RefundId {
    type V = Seq<char>;

    open spec fn view(&self) -> Seq<char> {
        self.0@
    }
}

impl View for TreasuryTransactionEntryId {
    type V = Seq<char>;

    open spec fn view(&self) -> Seq<char> {
        self.0@
    }
}

impl AccountId {
    /// The identifier as it is written in a path.
    pub fn as_str(&self) -> (id: &str)
        ensures
            id@ == self@,
    {
        self.0.as_str()
    }
}

impl SubscriptionScheduleId {
    /// The identifier as it is written in a path.
    pub fn as_str(&self) -> (id: &str)
        ensures
            id@ == self@,
    {
        self.0.as_str()
    }
}

impl RefundId {
    /// The identifier as it is written in a path.
    pub fn as_str(&self) -> (id: &str)
        ensures
            id@ == self@,
    {
        self.0.as_str()
    }
}

impl TreasuryTransactionEntryId {
    /// The identifier as it is written in a path.
    pub fn as_str(&self) -> (id: &str)
        ensures
            id@ == self@,
    {
        self.0.as_str()
    }
}

} // verus!
