//! The ID number options of an identity verification report.

use vstd::prelude::*;
use crate::json::{FromValueOpt, Json, JsonValue};

verus! {

#[derive(Copy, Clone, Debug)]
pub struct GelatoReportIdNumberOptions {
}

/// The model of a [`GelatoReportIdNumberOptions`].
pub struct GelatoReportIdNumberOptionsModel {
}

impl DeepView for GelatoReportIdNumberOptions {
    type V = GelatoReportIdNumberOptionsModel;

    open spec fn deep_view(&self) -> GelatoReportIdNumberOptionsModel {
        GelatoReportIdNumberOptionsModel {
        }
    }
}

impl View for GelatoReportIdNumberOptions {
    type V = GelatoReportIdNumberOptionsModel;

    open spec fn view(&self) -> GelatoReportIdNumberOptionsModel {
        self.deep_view()
    }
}

/// The members of a [`GelatoReportIdNumberOptions`] as far as they have been read; `None`
/// stands for a member that is still missing.
#[derive(Debug)]
pub struct GelatoReportIdNumberOptionsBuilder {
}

impl GelatoReportIdNumberOptionsBuilder {
    /// The builder before any member was read: an optional member is there
    /// and empty, a required one is missing.
    pub fn deser_default() -> (builder: Self)
        ensures
    {
        GelatoReportIdNumberOptionsBuilder {  }
    }

    /// Whether every member has been read.
    pub open spec fn is_complete(self) -> bool {
        true
    }

    /// The value that a complete builder holds.
    pub open spec fn output(self) -> GelatoReportIdNumberOptions {
        GelatoReportIdNumberOptions {
        }
    }

    /// Hands out the value once every member has been read.
    pub fn take_out(self) -> (out: Option<GelatoReportIdNumberOptions>)
        ensures
            out == if self.is_complete() {
                Some(self.output())
            } else {
                None
            },
    {
        Some(GelatoReportIdNumberOptions {
        })
    }
}

impl FromValueOpt for GelatoReportIdNumberOptions {
    /// A JSON object decodes to a value where every member that the type
    /// knows holds a value of the member's type and no required member is
    /// missing; a missing optional member reads as `None`, members that the
    /// type does not know are passed over.
    open spec fn decoded(json: Json) -> Option<GelatoReportIdNumberOptionsModel> {
        if json is Object {
            Some(GelatoReportIdNumberOptionsModel {
            })
        } else {
            None
        }
    }

    fn from_value(value: &JsonValue) -> (out: Option<GelatoReportIdNumberOptions>) {
        match value {
            JsonValue::Object(_) => {},
            _ => {
                return None;
            },
        }
        let b = GelatoReportIdNumberOptionsBuilder::deser_default();
        b.take_out()
    }
}

} // verus!
