//! The kinds of record that a store can hold, and the registry that says
//! which of them a given store knows.
//!
//! Each kind has an identifier and a version that never change once records
//! of it have been written, so that a stored record can always be told apart
//! and a later layout can be introduced beside an earlier one.

use vstd::prelude::*;

verus! {

/// The kinds of record.
#[derive(Debug, Clone, Copy, PartialEq, Eq, Structural)]
pub enum RecordKind {
    Card,
    Deck,
    Text,
    CachedResponse,
    Setting,
}

/// The fields besides the key by which records can be looked up.
#[derive(Debug, Clone, Copy, PartialEq, Eq, Structural)]
pub enum SecondaryIndex {
    /// The deck that a card belongs to.
    CardDeck,
}

/// The layout version that every kind is written in at present.
pub const CURRENT_VERSION: u32 = 1;

impl RecordKind {
    /// The identifier that marks records of this kind.
    pub open spec fn spec_type_id(self) -> u32 {
        match self {
            RecordKind::Card => 1,
            RecordKind::Deck => 2,
            RecordKind::Text => 3,
            RecordKind::CachedResponse => 4,
            RecordKind::Setting => 5,
        }
    }

    /// The kind that an identifier marks, if it marks any.
    pub open spec fn spec_from_type_id(id: u32) -> Option<RecordKind> {
        if id == 1 {
            Some(RecordKind::Card)
        } else if id == 2 {
            Some(RecordKind::Deck)
        } else if id == 3 {
            Some(RecordKind::Text)
        } else if id == 4 {
            Some(RecordKind::CachedResponse)
        } else if id == 5 {
            Some(RecordKind::Setting)
        } else {
            None
        }
    }

    /// The name of the kind, as error messages print it.
    pub open spec fn spec_name(self) -> Seq<char> {
        match self {
            RecordKind::Card => "FlashCard"@,
            RecordKind::Deck => "Deck"@,
            RecordKind::Text => "LearningText"@,
            RecordKind::CachedResponse => "CachedResponse"@,
            RecordKind::Setting => "UserSetting"@,
        }
    }

    /// The identifier that marks records of this kind.
    pub fn type_id(self) -> (id: u32)
        ensures
            id == self.spec_type_id(),
            1 <= id <= 5,
    {
        match self {
            RecordKind::Card => 1,
            RecordKind::Deck => 2,
            RecordKind::Text => 3,
            RecordKind::CachedResponse => 4,
            RecordKind::Setting => 5,
        }
    }

    /// The layout version of this kind.
    pub fn version(self) -> (version: u32)
        ensures
            version == CURRENT_VERSION,
    {
        CURRENT_VERSION
    }

    /// The kind that an identifier marks; `None` for an identifier that marks
    /// no kind.
    pub fn from_type_id(id: u32) -> (kind: Option<RecordKind>)
        ensures
            kind == Self::spec_from_type_id(id),
            kind matches Some(found) ==> found.spec_type_id() == id,
    {
        if id == 1 {
            Some(RecordKind::Card)
        } else if id == 2 {
            Some(RecordKind::Deck)
        } else if id == 3 {
            Some(RecordKind::Text)
        } else if id == 4 {
            Some(RecordKind::CachedResponse)
        } else if id == 5 {
            Some(RecordKind::Setting)
        } else {
            None
        }
    }

    /// The name of the kind, as error messages print it.
    pub fn name(self) -> (name: &'static str)
        ensures
            name@ == self.spec_name(),
    {
        match self {
            RecordKind::Card => "FlashCard",
            RecordKind::Deck => "Deck",
            RecordKind::Text => "LearningText",
            RecordKind::CachedResponse => "CachedResponse",
            RecordKind::Setting => "UserSetting",
        }
    }
}

/// No two kinds share an identifier, and reading an identifier back gives the
/// kind it came from.
pub proof fn lemma_type_ids_distinct(a: RecordKind, b: RecordKind)
    ensures
        a.spec_type_id() == b.spec_type_id() ==> a == b,
        RecordKind::spec_from_type_id(a.spec_type_id()) == Some(a),
{
}

/// How one kind of record is written: its identifier and its version.
#[derive(Debug, Clone, Copy, PartialEq, Eq, Structural)]
pub struct ModelDefinition {
    pub kind: RecordKind,
    pub type_id: u32,
    pub version: u32,
}

/// The kinds of record that a store knows. A store refuses records of a kind
/// that its registry does not define.
#[derive(Debug, Clone, Copy, PartialEq, Eq, Structural)]
pub struct SchemaRegistry {
    card: bool,
    deck: bool,
    text: bool,
    cached_response: bool,
    setting: bool,
}

impl SchemaRegistry {
    /// Whether the registry defines `kind`.
    pub closed spec fn spec_defines(self, kind: RecordKind) -> bool {
        match kind {
            RecordKind::Card => self.card,
            RecordKind::Deck => self.deck,
            RecordKind::Text => self.text,
            RecordKind::CachedResponse => self.cached_response,
            RecordKind::Setting => self.setting,
        }
    }

    /// A registry that defines no kind yet.
    pub fn new() -> (registry: SchemaRegistry)
        ensures
            forall|kind: RecordKind| !registry.spec_defines(kind),
    {
        SchemaRegistry {
            card: false,
            deck: false,
            text: false,
            cached_response: false,
            setting: false,
        }
    }

    /// The registry of the application: all five kinds.
    pub fn standard() -> (registry: SchemaRegistry)
        ensures
            forall|kind: RecordKind| registry.spec_defines(kind),
    {
        SchemaRegistry { card: true, deck: true, text: true, cached_response: true, setting: true }
    }

    /// Adds `kind` to the registry. Defining a kind twice changes nothing.
    pub fn define(&mut self, kind: RecordKind)
        ensures
            final(self).spec_defines(kind),
            forall|other: RecordKind|
                other != kind ==> final(self).spec_defines(other) == old(self).spec_defines(other),
    {
        match kind {
            RecordKind::Card => {
                self.card = true;
            },
            RecordKind::Deck => {
                self.deck = true;
            },
            RecordKind::Text => {
                self.text = true;
            },
            RecordKind::CachedResponse => {
                self.cached_response = true;
            },
            RecordKind::Setting => {
                self.setting = true;
            },
        }
    }

    /// Whether the registry defines `kind`.
    pub fn defines(&self, kind: RecordKind) -> (b: bool)
        ensures
            b == self.spec_defines(kind),
    {
        match kind {
            RecordKind::Card => self.card,
            RecordKind::Deck => self.deck,
            RecordKind::Text => self.text,
            RecordKind::CachedResponse => self.cached_response,
            RecordKind::Setting => self.setting,
        }
    }

    /// How `kind` is written, if the registry defines it.
    pub fn definition(&self, kind: RecordKind) -> (definition: Option<ModelDefinition>)
        ensures
            definition is Some <==> self.spec_defines(kind),
            definition matches Some(found) ==> found == (ModelDefinition {
                kind,
                type_id: kind.spec_type_id(),
                version: CURRENT_VERSION,
            }),
    {
        if self.defines(kind) {
            Some(ModelDefinition { kind, type_id: kind.type_id(), version: kind.version() })
        } else {
            None
        }
    }
}

} // verus!
