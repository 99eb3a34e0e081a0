//! The status transitions of a received debit.

use vstd::prelude::*;
use crate::json::{decoded_member, FromValueOpt, Json, JsonValue, member_from_value};
use crate::types::Timestamp;

verus! {

#[derive(Copy, Clone, Debug)]
pub struct TreasuryReceivedDebitsResourceStatusTransitions {
    /// Timestamp describing when the DebitReversal changed status to `completed`.
    pub completed_at: Option<Timestamp>,
}

/// The model of a [`TreasuryReceivedDebitsResourceStatusTransitions`].
pub struct TreasuryReceivedDebitsResourceStatusTransitionsModel {
    pub completed_at: Option<Timestamp>,
}

impl DeepView for TreasuryReceivedDebitsResourceStatusTransitions {
    type V = TreasuryReceivedDebitsResourceStatusTransitionsModel;

    open spec fn deep_view(&self) -> TreasuryReceivedDebitsResourceStatusTransitionsModel {
        TreasuryReceivedDebitsResourceStatusTransitionsModel {
            completed_at: self.completed_at.deep_view(),
        }
    }
}

impl View for TreasuryReceivedDebitsResourceStatusTransitions {
    type V = TreasuryReceivedDebitsResourceStatusTransitionsModel;

    open spec fn view(&self) -> TreasuryReceivedDebitsResourceStatusTransitionsModel {
        self.deep_view()
    }
}

/// The members of a [`TreasuryReceivedDebitsResourceStatusTransitions`] as far as they have been read; `None`
/// stands for a member that is still missing.
#[derive(Debug)]
pub struct TreasuryReceivedDebitsResourceStatusTransitionsBuilder {
    pub completed_at: Option<Option<Timestamp>>,
}

impl TreasuryReceivedDebitsResourceStatusTransitionsBuilder {
    /// The builder before any member was read: an optional member is there
    /// and empty, a required one is missing.
    pub fn deser_default() -> (builder: Self)
        ensures
            builder.completed_at == Some(None::<Timestamp>),
    {
        TreasuryReceivedDebitsResourceStatusTransitionsBuilder { completed_at: Some(None) }
    }

    /// Whether every member has been read.
    pub open spec fn is_complete(self) -> bool {
        &&& self.completed_at is Some
    }

    /// The value that a complete builder holds.
    pub open spec fn output(self) -> TreasuryReceivedDebitsResourceStatusTransitions {
        TreasuryReceivedDebitsResourceStatusTransitions {
            completed_at: self.completed_at->Some_0,
        }
    }

    /// Hands out the value once every member has been read.
    pub fn take_out(self) -> (out: Option<TreasuryReceivedDebitsResourceStatusTransitions>)
        ensures
            out == if self.is_complete() {
                Some(self.output())
            } else {
                None
            },
    {
        Some(TreasuryReceivedDebitsResourceStatusTransitions {
            completed_at: self.completed_at?,
        })
    }
}

impl FromValueOpt for TreasuryReceivedDebitsResourceStatusTransitions {
    /// A JSON object decodes to a value where every member that the type
    /// knows holds a value of the member's type and no required member is
    /// missing; a missing optional member reads as `None`, members that the
    /// type does not know are passed over.
    open spec fn decoded(json: Json) -> Option<TreasuryReceivedDebitsResourceStatusTransitionsModel> {
        let completed_at = decoded_member::<Option<Timestamp>>(json, "completed_at"@, Some(None));
        if json is Object && completed_at is Some {
            Some(TreasuryReceivedDebitsResourceStatusTransitionsModel {
                completed_at: completed_at->Some_0,
            })
        } else {
            None
        }
    }

    fn from_value(value: &JsonValue) -> (out: Option<TreasuryReceivedDebitsResourceStatusTransitions>) {
        match value {
            JsonValue::Object(_) => {},
            _ => {
                return None;
            },
        }
        let mut b = TreasuryReceivedDebitsResourceStatusTransitionsBuilder::deser_default();
        b.completed_at = Some(member_from_value(value, "completed_at", b.completed_at)?);
        b.take_out()
    }
}

} // verus!
