//! The demo API's object model: plain data for the characters, users and
//! augmentations the served schema describes.

use vstd::prelude::*;
use vstd::string::StringExecFns;

use crate::text::str_eq;

verus! {

/// The ways a character can be augmented.
#[derive(Debug, Copy, Clone, Eq, PartialEq, Structural)]
pub enum AugmentationType {
    Mechanical,
    BioMechanical,
    GeneticModification,
}

/// The text an augmentation type renders as.
pub open spec fn augmentation_type_str(t: AugmentationType) -> Seq<char> {
    match t {
        AugmentationType::Mechanical => "Mechanical"@,
        AugmentationType::BioMechanical => "BioMechanical"@,
        AugmentationType::GeneticModification => "GeneticModification"@,
    }
}

/// The text did not name an augmentation type.
#[derive(Debug, Clone)]
pub struct InvalidAugmentationType(pub String);

impl AugmentationType {
    /// The augmentation type's display text.
    pub fn as_str(&self) -> (r: &str)
        ensures
            r@ == augmentation_type_str(*self),
    {
        match self {
            AugmentationType::Mechanical => "Mechanical",
            AugmentationType::BioMechanical => "BioMechanical",
            AugmentationType::GeneticModification => "GeneticModification",
        }
    }

    /// Parses an augmentation type from its display text; any other text is
    /// rejected, echoed in the error.
    pub fn from_str(s: &str) -> (r: Result<AugmentationType, InvalidAugmentationType>)
        ensures
            match r {
                Ok(t) => s@ == augmentation_type_str(t),
                Err(e) => e.0@ == s@ && s@ != augmentation_type_str(AugmentationType::Mechanical)
                    && s@ != augmentation_type_str(AugmentationType::BioMechanical) && s@
                    != augmentation_type_str(AugmentationType::GeneticModification),
            },
    {
        if str_eq(s, "Mechanical") {
            Ok(AugmentationType::Mechanical)
        } else if str_eq(s, "BioMechanical") {
            Ok(AugmentationType::BioMechanical)
        } else if str_eq(s, "GeneticModification") {
            Ok(AugmentationType::GeneticModification)
        } else {
            Err(InvalidAugmentationType(s.to_owned()))
        }
    }
}

/// The races a character can have.
#[derive(Debug, Copy, Clone, Eq, PartialEq, Structural)]
pub enum CharacterRace {
    Human,
    Android,
    Cyborg,
}

/// The text a character race renders as.
pub open spec fn character_race_str(t: CharacterRace) -> Seq<char> {
    match t {
        CharacterRace::Human => "Human"@,
        CharacterRace::Android => "Android"@,
        CharacterRace::Cyborg => "Cyborg"@,
    }
}

/// The text did not name a character race.
#[derive(Debug, Clone)]
pub struct InvalidCharacterRace(pub String);

impl CharacterRace {
    /// The race's display text.
    pub fn as_str(&self) -> (r: &str)
        ensures
            r@ == character_race_str(*self),
    {
        match self {
            CharacterRace::Human => "Human",
            CharacterRace::Android => "Android",
            CharacterRace::Cyborg => "Cyborg",
        }
    }

    /// Parses a character race from its display text; any other text is
    /// rejected, echoed in the error.
    pub fn from_str(s: &str) -> (r: Result<CharacterRace, InvalidCharacterRace>)
        ensures
            match r {
                Ok(t) => s@ == character_race_str(t),
                Err(e) => e.0@ == s@ && s@ != character_race_str(CharacterRace::Human) && s@
                    != character_race_str(CharacterRace::Android) && s@ != character_race_str(
                    CharacterRace::Cyborg,
                ),
            },
    {
        if str_eq(s, "Android") {
            Ok(CharacterRace::Android)
        } else if str_eq(s, "Cyborg") {
            Ok(CharacterRace::Cyborg)
        } else if str_eq(s, "Human") {
            Ok(CharacterRace::Human)
        } else {
            Err(InvalidCharacterRace(s.to_owned()))
        }
    }
}

/// An entity identifier, served as the `ID` scalar.
#[derive(Debug, Clone)]
pub struct Id(pub String);

impl Id {
    /// The identifier's text.
    pub fn as_string_ref(&self) -> (r: &String)
        ensures
            r@ == self.0@,
    {
        &self.0
    }
}

impl From<String> for Id {
    fn from(value: String) -> (r: Self) {
        Id(value)
    }
}

impl vstd::std_specs::convert::FromSpecImpl<String> for Id {
    open spec fn obeys_from_spec() -> bool {
        true
    }

    open spec fn from_spec(value: String) -> Id {
        Id(value)
    }
}

/// An augmentation a character carries. The demo's resolvers for it are
/// stubs, so it holds no data.
#[derive(Debug)]
pub struct Augmentation;

/// A fully synthetic character.
#[derive(Debug, Clone)]
pub struct Android {
    pub id: Id,
    pub name: Option<String>,
    pub nickname: String,
    pub race: CharacterRace,
}

/// A human character with augmentations.
#[derive(Debug, Clone)]
pub struct Cyborg {
    pub id: Id,
    pub name: Option<String>,
    pub nickname: String,
    pub race: CharacterRace,
}

/// An unaugmented human character.
#[derive(Debug, Clone)]
pub struct Human {
    pub id: Id,
    pub name: Option<String>,
    pub nickname: String,
    pub race: CharacterRace,
}

/// A character that carries augmentations.
#[derive(Debug, Clone)]
pub enum AugmentedCharacter {
    Android(Android),
    Cyborg(Cyborg),
}

/// Any character the demo API serves.
#[derive(Debug, Clone)]
pub enum Character {
    AugmentedCharacter(AugmentedCharacter),
    Android(Android),
    Cyborg(Cyborg),
    Human(Human),
}

/// The input for creating a character.
#[derive(Debug, Clone)]
pub struct CharacterCreationInput {
    pub race: CharacterRace,
    pub nickname: String,
    pub name: Option<String>,
}

} // verus!
