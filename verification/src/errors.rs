//! The library's error taxonomy: parse errors, conversion errors, link
//! errors and configuration errors, each surfaced at the point the
//! offending input is seen.

use vstd::prelude::*;

use crate::values::CeView;
use crate::values::ConversionError;

verus! {

/// An error surfaced to the caller. Parse errors carry the engine's own
/// message; link and configuration errors carry the offending input.
#[derive(Debug, Clone, PartialEq, Eq)]
pub enum Error {
    /// A text that does not parse as a standalone policy.
    InvalidPolicy(String),
    /// A text that does not parse as a policy template.
    InvalidTemplate(String),
    /// A text that does not parse as a multi-policy document.
    InvalidPolicySet(String),
    /// A text that does not parse as a schema.
    InvalidSchema(String),
    /// A string that does not parse as an entity UID; carries that string.
    InvalidEntityUid(String),
    /// A template link naming a template the registry does not hold.
    UnknownTemplate(String),
    /// A dynamic value the codec rejects.
    Conversion(ConversionError),
    /// A request context that is not a mapping.
    ContextNotMapping,
    /// The engine refused to assemble the context record.
    ContextBuild(String),
    /// The engine refused an entity's attributes.
    EntityCreate(String),
    /// The engine refused the entity collection as a whole.
    EntityCollectionBuild(String),
    /// A request principal that does not parse as an entity UID.
    InvalidPrincipal(String),
    /// A request action that does not parse as an entity UID.
    InvalidAction(String),
    /// A request resource that does not parse as an entity UID.
    InvalidResource(String),
    /// The engine refused the request against the attached schema.
    RequestBuild(String),
    /// A validation mode other than `strict`.
    UnsupportedMode(String),
    /// The running counter for auto-assigned policy ids cannot grow far
    /// enough to cover this batch.
    IdCounterExhausted,
}

/// The mathematical model of an `Error`.
pub enum EvView {
    InvalidPolicy(Seq<char>),
    InvalidTemplate(Seq<char>),
    InvalidPolicySet(Seq<char>),
    InvalidSchema(Seq<char>),
    InvalidEntityUid(Seq<char>),
    UnknownTemplate(Seq<char>),
    Conversion(CeView),
    ContextNotMapping,
    ContextBuild(Seq<char>),
    EntityCreate(Seq<char>),
    EntityCollectionBuild(Seq<char>),
    InvalidPrincipal(Seq<char>),
    InvalidAction(Seq<char>),
    InvalidResource(Seq<char>),
    RequestBuild(Seq<char>),
    UnsupportedMode(Seq<char>),
    IdCounterExhausted,
}

impl View for Error {
    type V = EvView;

    open spec fn view(&self) -> EvView {
        match self {
            Error::InvalidPolicy(m) => EvView::InvalidPolicy(m@),
            Error::InvalidTemplate(m) => EvView::InvalidTemplate(m@),
            Error::InvalidPolicySet(m) => EvView::InvalidPolicySet(m@),
            Error::InvalidSchema(m) => EvView::InvalidSchema(m@),
            Error::InvalidEntityUid(s) => EvView::InvalidEntityUid(s@),
            Error::UnknownTemplate(t) => EvView::UnknownTemplate(t@),
            Error::Conversion(c) => EvView::Conversion(c@),
            Error::ContextNotMapping => EvView::ContextNotMapping,
            Error::ContextBuild(m) => EvView::ContextBuild(m@),
            Error::EntityCreate(m) => EvView::EntityCreate(m@),
            Error::EntityCollectionBuild(m) => EvView::EntityCollectionBuild(m@),
            Error::InvalidPrincipal(m) => EvView::InvalidPrincipal(m@),
            Error::InvalidAction(m) => EvView::InvalidAction(m@),
            Error::InvalidResource(m) => EvView::InvalidResource(m@),
            Error::RequestBuild(m) => EvView::RequestBuild(m@),
            Error::UnsupportedMode(m) => EvView::UnsupportedMode(m@),
            Error::IdCounterExhausted => EvView::IdCounterExhausted,
        }
    }
}

impl DeepView for Error {
    type V = EvView;

    open spec fn deep_view(&self) -> EvView {
        self.view()
    }
}

} // verus!
