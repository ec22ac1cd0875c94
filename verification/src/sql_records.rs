//! Row records read back from the character store, and their conversion
//! into model values.
//!
//! Each conversion validates the stored race text and checks it against the
//! race the record was queried for; a mismatch is a programming-logic
//! failure of the store, reported as an error.

use vstd::prelude::*;

use crate::model::{
    character_race_str, Android, CharacterRace, Cyborg, Human, Id, InvalidCharacterRace,
};

verus! {

/// The stored race text does not belong to the record's table.
#[derive(Debug, Clone)]
pub struct CharacterRaceMismatchError {
    pub stored: CharacterRace,
    pub expected: CharacterRace,
}

/// No user row carries the requested identifier.
#[derive(Debug, Clone)]
pub struct CannotFindUserById(pub Id);

/// A row of the human characters query.
#[allow(non_snake_case)]
#[derive(Debug, Clone)]
pub struct SqlHuman {
    pub Id: Id,
    pub Name: Option<String>,
    pub Nickname: String,
    pub Race: String,
}

/// Why a human row could not become a model value.
#[derive(Debug, Clone)]
pub enum CannotConvertSqlHumanToHuman {
    InvalidCharacterRace(InvalidCharacterRace),
    CharacterRaceMismatchError(CharacterRaceMismatchError),
}

impl SqlHuman {
    /// Validates the stored race and builds the model value.
    #[allow(non_snake_case)]
    pub fn try_into_human(self) -> (r: Result<Human, CannotConvertSqlHumanToHuman>)
        ensures
            match r {
                Ok(h) => self.Race@ == character_race_str(CharacterRace::Human) && h.id == self.Id
                    && h.name == self.Name && h.nickname == self.Nickname && h.race
                    == CharacterRace::Human,
                Err(CannotConvertSqlHumanToHuman::InvalidCharacterRace(e)) => e.0@ == self.Race@
                    && self.Race@ != character_race_str(CharacterRace::Human) && self.Race@
                    != character_race_str(CharacterRace::Android) && self.Race@
                    != character_race_str(CharacterRace::Cyborg),
                Err(CannotConvertSqlHumanToHuman::CharacterRaceMismatchError(m)) => self.Race@
                    == character_race_str(m.stored) && m.stored != CharacterRace::Human
                    && m.expected == CharacterRace::Human,
            },
    {
        match CharacterRace::from_str(self.Race.as_str()) {
            Ok(race) => {
                if race == CharacterRace::Human {
                    Ok(
                        Human {
                            id: self.Id,
                            name: self.Name,
                            nickname: self.Nickname,
                            race,
                        },
                    )
                } else {
                    Err(
                        CannotConvertSqlHumanToHuman::CharacterRaceMismatchError(
                            CharacterRaceMismatchError {
                                stored: race,
                                expected: CharacterRace::Human,
                            },
                        ),
                    )
                }
            }
            Err(e) => Err(CannotConvertSqlHumanToHuman::InvalidCharacterRace(e)),
        }
    }
}

/// A row of the cyborg characters query.
#[allow(non_snake_case)]
#[derive(Debug, Clone)]
pub struct SqlCyborg {
    pub Id: Id,
    pub Name: Option<String>,
    pub Nickname: String,
    pub Race: String,
}

/// Why a cyborg row could not become a model value.
#[derive(Debug, Clone)]
pub enum CannotConvertSqlCyborgToCyborg {
    InvalidCharacterRace(InvalidCharacterRace),
    CharacterRaceMismatchError(CharacterRaceMismatchError),
}

impl SqlCyborg {
    /// Validates the stored race and builds the model value.
    #[allow(non_snake_case)]
    pub fn try_into_cyborg(self) -> (r: Result<Cyborg, CannotConvertSqlCyborgToCyborg>)
        ensures
            match r {
                Ok(c) => self.Race@ == character_race_str(CharacterRace::Cyborg) && c.id == self.Id
                    && c.name == self.Name && c.nickname == self.Nickname && c.race
                    == CharacterRace::Cyborg,
                Err(CannotConvertSqlCyborgToCyborg::InvalidCharacterRace(e)) => e.0@ == self.Race@
                    && self.Race@ != character_race_str(CharacterRace::Human) && self.Race@
                    != character_race_str(CharacterRace::Android) && self.Race@
                    != character_race_str(CharacterRace::Cyborg),
                Err(CannotConvertSqlCyborgToCyborg::CharacterRaceMismatchError(m)) => self.Race@
                    == character_race_str(m.stored) && m.stored != CharacterRace::Cyborg
                    && m.expected == CharacterRace::Cyborg,
            },
    {
        match CharacterRace::from_str(self.Race.as_str()) {
            Ok(race) => {
                if race == CharacterRace::Cyborg {
                    Ok(
                        Cyborg {
                            id: self.Id,
                            name: self.Name,
                            nickname: self.Nickname,
                            race,
                        },
                    )
                } else {
                    Err(
                        CannotConvertSqlCyborgToCyborg::CharacterRaceMismatchError(
                            CharacterRaceMismatchError {
                                stored: race,
                                expected: CharacterRace::Cyborg,
                            },
                        ),
                    )
                }
            }
            Err(e) => Err(CannotConvertSqlCyborgToCyborg::InvalidCharacterRace(e)),
        }
    }
}

/// A row of the android characters query.
#[allow(non_snake_case)]
#[derive(Debug, Clone)]
pub struct SqlAndroid {
    pub Id: Id,
    pub Name: Option<String>,
    pub Nickname: String,
    pub Race: String,
}

/// Why an android row could not become a model value.
#[derive(Debug, Clone)]
pub enum CannotConvertSqlAndroidToAndroid {
    InvalidCharacterRace(InvalidCharacterRace),
    CharacterRaceMismatchError(CharacterRaceMismatchError),
}

impl SqlAndroid {
    /// Validates the stored race and builds the model value.
    #[allow(non_snake_case)]
    pub fn try_into_android(self) -> (r: Result<Android, CannotConvertSqlAndroidToAndroid>)
        ensures
            match r {
                Ok(a) => self.Race@ == character_race_str(CharacterRace::Android) && a.id
                    == self.Id && a.name == self.Name && a.nickname == self.Nickname && a.race
                    == CharacterRace::Android,
                Err(CannotConvertSqlAndroidToAndroid::InvalidCharacterRace(e)) => e.0@
                    == self.Race@ && self.Race@ != character_race_str(CharacterRace::Human)
                    && self.Race@ != character_race_str(CharacterRace::Android) && self.Race@
                    != character_race_str(CharacterRace::Cyborg),
                Err(CannotConvertSqlAndroidToAndroid::CharacterRaceMismatchError(m)) => self.Race@
                    == character_race_str(m.stored) && m.stored != CharacterRace::Android
                    && m.expected == CharacterRace::Android,
            },
    {
        match CharacterRace::from_str(self.Race.as_str()) {
            Ok(race) => {
                if race == CharacterRace::Android {
                    Ok(
                        Android {
                            id: self.Id,
                            name: self.Name,
                            nickname: self.Nickname,
                            race,
                        },
                    )
                } else {
                    Err(
                        CannotConvertSqlAndroidToAndroid::CharacterRaceMismatchError(
                            CharacterRaceMismatchError {
                                stored: race,
                                expected: CharacterRace::Android,
                            },
                        ),
                    )
                }
            }
            Err(e) => Err(CannotConvertSqlAndroidToAndroid::InvalidCharacterRace(e)),
        }
    }
}

} // verus!
