//! The options of an identity verification session.

use vstd::prelude::*;
use crate::json::{decoded_member, FromValueOpt, Json, JsonValue, member_from_value, RawObject};

verus! {

#[derive(Clone, Debug)]
pub struct GelatoVerificationSessionOptions {
    pub document: Option<RawObject>,
    pub id_number: Option<RawObject>,
}

/// The model of a [`GelatoVerificationSessionOptions`].
pub struct GelatoVerificationSessionOptionsModel {
    pub document: Option<Json>,
    pub id_number: Option<Json>,
}

impl DeepView for GelatoVerificationSessionOptions {
    type V = GelatoVerificationSessionOptionsModel;

    open spec fn deep_view(&self) -> GelatoVerificationSessionOptionsModel {
        GelatoVerificationSessionOptionsModel {
            document: self.document.deep_view(),
            id_number: self.id_number.deep_view(),
        }
    }
}

impl View for GelatoVerificationSessionOptions {
    type V = GelatoVerificationSessionOptionsModel;

    open spec fn view(&self) -> GelatoVerificationSessionOptionsModel {
        self.deep_view()
    }
}

/// The members of a [`GelatoVerificationSessionOptions`] as far as they have been read; `None`
/// stands for a member that is still missing.
#[derive(Debug)]
pub struct GelatoVerificationSessionOptionsBuilder {
    pub document: Option<Option<RawObject>>,
    pub id_number: Option<Option<RawObject>>,
}

impl GelatoVerificationSessionOptionsBuilder {
    /// The builder before any member was read: an optional member is there
    /// and empty, a required one is missing.
    pub fn deser_default() -> (builder: Self)
        ensures
            builder.document == Some(None::<RawObject>),
            builder.id_number == Some(None::<RawObject>),
    {
        GelatoVerificationSessionOptionsBuilder { document: Some(None), id_number: Some(None) }
    }

    /// Whether every member has been read.
    pub open spec fn is_complete(self) -> bool {
        &&& self.document is Some
        &&& self.id_number is Some
    }

    /// The value that a complete builder holds.
    pub open spec fn output(self) -> GelatoVerificationSessionOptions {
        GelatoVerificationSessionOptions {
            document: self.document->Some_0,
            id_number: self.id_number->Some_0,
        }
    }

    /// Hands out the value once every member has been read.
    pub fn take_out(self) -> (out: Option<GelatoVerificationSessionOptions>)
        ensures
            out == if self.is_complete() {
                Some(self.output())
            } else {
                None
            },
    {
        Some(GelatoVerificationSessionOptions {
            document: self.document?,
            id_number: self.id_number?,
        })
    }
}

impl FromValueOpt for GelatoVerificationSessionOptions {
    /// A JSON object decodes to a value where every member that the type
    /// knows holds a value of the member's type and no required member is
    /// missing; a missing optional member reads as `None`, members that the
    /// type does not know are passed over.
    open spec fn decoded(json: Json) -> Option<GelatoVerificationSessionOptionsModel> {
        let document = decoded_member::<Option<RawObject>>(json, "document"@, Some(None));
        let id_number = decoded_member::<Option<RawObject>>(json, "id_number"@, Some(None));
        if json is Object && document is Some && id_number is Some {
            Some(GelatoVerificationSessionOptionsModel {
                document: document->Some_0,
                id_number: id_number->Some_0,
            })
        } else {
            None
        }
    }

    fn from_value(value: &JsonValue) -> (out: Option<GelatoVerificationSessionOptions>) {
        match value {
            JsonValue::Object(_) => {},
            _ => {
                return None;
            },
        }
        let mut b = GelatoVerificationSessionOptionsBuilder::deser_default();
        b.document = Some(member_from_value(value, "document", b.document)?);
        b.id_number = Some(member_from_value(value, "id_number", b.id_number)?);
        b.take_out()
    }
}

} // verus!
