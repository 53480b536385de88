//! The ways in which the store refuses an operation.

use crate::store::schema::RecordKind;
use crate::text::labelled;
use crate::value::ViewEq;
use vstd::prelude::*;
use vstd::string::StringExecFns;

verus! {

/// Why the store refused an operation.
#[derive(Debug, PartialEq, Eq)]
pub enum StoreError {
    /// The store's registry does not define the kind of the record.
    UndefinedModel { kind: RecordKind },
    /// A record of this kind is already stored under the key.
    DuplicateKey { kind: RecordKind, key: String },
    /// No record of this kind is stored under the key.
    KeyNotFound { kind: RecordKind, key: String },
    /// The record stored under the key is not the one the caller read.
    StaleValue { kind: RecordKind, key: String },
    /// The new record is not of the kind, or not under the key, of the one
    /// it was to replace.
    KeyChanged { kind: RecordKind, key: String },
    /// The store is no longer as it was when the transaction began.
    Conflict,
}

/// What a [`StoreError`] holds.
pub enum StoreErrorView {
    UndefinedModel { kind: RecordKind },
    DuplicateKey { kind: RecordKind, key: Seq<char> },
    KeyNotFound { kind: RecordKind, key: Seq<char> },
    StaleValue { kind: RecordKind, key: Seq<char> },
    KeyChanged { kind: RecordKind, key: Seq<char> },
    Conflict,
}

impl StoreErrorView {
    /// The error in words.
    pub open spec fn message(self) -> Seq<char> {
        match self {
            StoreErrorView::UndefinedModel { kind } => "Table definition not found: "@
                + kind.spec_name(),
            StoreErrorView::DuplicateKey { kind, key } => "Duplicate key: "@ + key,
            StoreErrorView::KeyNotFound { kind, key } => "Key not found: "@ + key,
            StoreErrorView::StaleValue { kind, key } => "Stored value has changed: "@ + key,
            StoreErrorView::KeyChanged { kind, key } => "Key must not change: "@ + key,
            StoreErrorView::Conflict => "The store changed since the transaction began"@,
        }
    }
}

impl View for StoreError {
    type V = StoreErrorView;

    open spec fn view(&self) -> StoreErrorView {
        match self {
            StoreError::UndefinedModel { kind } => StoreErrorView::UndefinedModel { kind: *kind },
            StoreError::DuplicateKey { kind, key } => StoreErrorView::DuplicateKey {
                kind: *kind,
                key: key@,
            },
            StoreError::KeyNotFound { kind, key } => StoreErrorView::KeyNotFound {
                kind: *kind,
                key: key@,
            },
            StoreError::StaleValue { kind, key } => StoreErrorView::StaleValue {
                kind: *kind,
                key: key@,
            },
            StoreError::KeyChanged { kind, key } => StoreErrorView::KeyChanged {
                kind: *kind,
                key: key@,
            },
            StoreError::Conflict => StoreErrorView::Conflict,
        }
    }
}

impl DeepView for StoreError {
    type V = StoreErrorView;

    open spec fn deep_view(&self) -> StoreErrorView {
        self@
    }
}

impl ViewEq for StoreError {
    fn duplicate(&self) -> (r: Self) {
        match self {
            StoreError::UndefinedModel { kind } => StoreError::UndefinedModel { kind: *kind },
            StoreError::DuplicateKey { kind, key } => StoreError::DuplicateKey {
                kind: *kind,
                key: key.clone(),
            },
            StoreError::KeyNotFound { kind, key } => StoreError::KeyNotFound {
                kind: *kind,
                key: key.clone(),
            },
            StoreError::StaleValue { kind, key } => StoreError::StaleValue {
                kind: *kind,
                key: key.clone(),
            },
            StoreError::KeyChanged { kind, key } => StoreError::KeyChanged {
                kind: *kind,
                key: key.clone(),
            },
            StoreError::Conflict => StoreError::Conflict,
        }
    }

    fn same(&self, other: &Self) -> (b: bool) {
        match (self, other) {
            (StoreError::UndefinedModel { kind: a }, StoreError::UndefinedModel { kind: b }) => *a
                == *b,
            (
                StoreError::DuplicateKey { kind: a, key: x },
                StoreError::DuplicateKey { kind: b, key: y },
            ) => *a == *b && *x == *y,
            (
                StoreError::KeyNotFound { kind: a, key: x },
                StoreError::KeyNotFound { kind: b, key: y },
            ) => *a == *b && *x == *y,
            (
                StoreError::StaleValue { kind: a, key: x },
                StoreError::StaleValue { kind: b, key: y },
            ) => *a == *b && *x == *y,
            (
                StoreError::KeyChanged { kind: a, key: x },
                StoreError::KeyChanged { kind: b, key: y },
            ) => *a == *b && *x == *y,
            (StoreError::Conflict, StoreError::Conflict) => true,
            _ => false,
        }
    }
}

impl Clone for StoreError {
    fn clone(&self) -> (r: Self)
        ensures
            r@ == self@,
    {
        self.duplicate()
    }
}

impl StoreError {
    /// The error in words.
    pub fn message(&self) -> (text: String)
        ensures
            text@ == self@.message(),
    {
        match self {
            StoreError::UndefinedModel { kind } => labelled(
                "Table definition not found: ",
                kind.name(),
            ),
            StoreError::DuplicateKey { kind, key } => labelled("Duplicate key: ", key.as_str()),
            StoreError::KeyNotFound { kind, key } => labelled("Key not found: ", key.as_str()),
            StoreError::StaleValue { kind, key } => labelled(
                "Stored value has changed: ",
                key.as_str(),
            ),
            StoreError::KeyChanged { kind, key } => labelled("Key must not change: ", key.as_str()),
            StoreError::Conflict => String::from_str(
                "The store changed since the transaction began",
            ),
        }
    }
}

} // verus!
