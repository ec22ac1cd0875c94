use graphql_cli_tools::cli::SchemaSource;
use graphql_cli_tools::diff_location::{DiffLocation, DiffLocationSegmentType};
use graphql_cli_tools::errors::{
    CannotLoadServiceDocumentFromPath, CannotLoadServiceDocumentFromString, UnimplementedError,
};
use graphql_cli_tools::model::{AugmentationType, CharacterRace, Id};
use graphql_cli_tools::report::{ChangeType, ReportEntry, ReportKind, render_report_entry};
use graphql_cli_tools::sql_records::{
    CannotConvertSqlHumanToHuman, SqlCyborg, SqlHuman,
};

#[test]
fn schema_source_parses_file_paths() {
    match SchemaSource::from_str("file:schemas/left.graphql") {
        Ok(SchemaSource::File(path)) => assert_eq!(path, "schemas/left.graphql"),
        other => panic!("expected a file source, got {:?}", other),
    }
}

#[test]
fn schema_source_parses_self_schema() {
    assert!(matches!(SchemaSource::from_str("self-schema"), Ok(SchemaSource::SelfSchema)));
}

#[test]
fn schema_source_rejects_other_text() {
    let err = SchemaSource::from_str("http://example").unwrap_err();
    assert_eq!(err.0, "http://example");
    assert_eq!(
        err.display_string(),
        "CannotParseSchemaSource: source = 'http://example'"
    );
}

#[test]
fn character_race_round_trips() {
    for race in [CharacterRace::Human, CharacterRace::Android, CharacterRace::Cyborg] {
        assert_eq!(CharacterRace::from_str(race.as_str()).unwrap(), race);
    }
    assert_eq!(CharacterRace::from_str("Human").unwrap(), CharacterRace::Human);
    assert_eq!(CharacterRace::from_str("Android").unwrap(), CharacterRace::Android);
    assert_eq!(CharacterRace::from_str("Cyborg").unwrap(), CharacterRace::Cyborg);
    let err = CharacterRace::from_str("Elf").unwrap_err();
    assert_eq!(err.0, "Elf");
}

#[test]
fn augmentation_type_round_trips() {
    assert_eq!(
        AugmentationType::from_str("Mechanical").unwrap(),
        AugmentationType::Mechanical
    );
    assert_eq!(
        AugmentationType::from_str("BioMechanical").unwrap(),
        AugmentationType::BioMechanical
    );
    assert_eq!(
        AugmentationType::from_str("GeneticModification").unwrap(),
        AugmentationType::GeneticModification
    );
    assert_eq!(AugmentationType::Mechanical.as_str(), "Mechanical");
    let err = AugmentationType::from_str("Psychic").unwrap_err();
    assert_eq!(err.0, "Psychic");
}

#[test]
fn id_holds_its_text() {
    let id = Id::from("e30ba9c8".to_string());
    assert_eq!(id.as_string_ref(), "e30ba9c8");
}

#[test]
fn sql_human_converts_when_race_matches() {
    let row = SqlHuman {
        Id: Id("h1".to_string()),
        Name: Some("Ada".to_string()),
        Nickname: "ada".to_string(),
        Race: "Human".to_string(),
    };
    let human = row.try_into_human().unwrap();
    assert_eq!(human.id.0, "h1");
    assert_eq!(human.name.as_deref(), Some("Ada"));
    assert_eq!(human.nickname, "ada");
    assert_eq!(human.race, CharacterRace::Human);
}

#[test]
fn sql_human_rejects_mismatched_race() {
    let row = SqlHuman {
        Id: Id("h1".to_string()),
        Name: None,
        Nickname: "nx".to_string(),
        Race: "Cyborg".to_string(),
    };
    match row.try_into_human() {
        Err(CannotConvertSqlHumanToHuman::CharacterRaceMismatchError(m)) => {
            assert_eq!(m.stored, CharacterRace::Cyborg);
            assert_eq!(m.expected, CharacterRace::Human);
        }
        other => panic!("expected a race mismatch, got {:?}", other),
    }
}

#[test]
fn sql_human_rejects_unknown_race() {
    let row = SqlHuman {
        Id: Id("h1".to_string()),
        Name: None,
        Nickname: "nx".to_string(),
        Race: "Elf".to_string(),
    };
    match row.try_into_human() {
        Err(CannotConvertSqlHumanToHuman::InvalidCharacterRace(e)) => assert_eq!(e.0, "Elf"),
        other => panic!("expected an invalid race, got {:?}", other),
    }
}

#[test]
fn sql_cyborg_converts_when_race_matches() {
    let row = SqlCyborg {
        Id: Id("c1".to_string()),
        Name: None,
        Nickname: "nx".to_string(),
        Race: "Cyborg".to_string(),
    };
    let cyborg = row.try_into_cyborg().unwrap();
    assert_eq!(cyborg.race, CharacterRace::Cyborg);
}

#[test]
fn error_display_strings() {
    let e = UnimplementedError("Augmentation::name".to_string());
    assert_eq!(e.display_string(), "UnimplementedError: 'Augmentation::name'");

    let e = CannotLoadServiceDocumentFromPath {
        path: "left.graphql".to_string(),
        error: "file not found".to_string(),
    };
    assert_eq!(
        e.display_string(),
        "CannotLoadServiceDocumentFromPath: path = 'left.graphql', error = file not found"
    );

    let e = CannotLoadServiceDocumentFromString("syntax error".to_string());
    assert_eq!(
        e.display_string(),
        "CannotLoadServiceDocumentFromString: error = syntax error"
    );
}

#[test]
fn diff_location_push_leaves_parent_unchanged() {
    let root = DiffLocation::new(DiffLocationSegmentType::TypeDefinition, Some("User".to_string()));
    let child = root.push(DiffLocationSegmentType::Field, Some("id".to_string()));
    let sibling = root.push(DiffLocationSegmentType::Field, Some("name".to_string()));
    assert_eq!(root.display_string(), "TypeDefinition(User)");
    assert_eq!(child.display_string(), "TypeDefinition(User) -> Field(id)");
    assert_eq!(sibling.display_string(), "TypeDefinition(User) -> Field(name)");
}

#[test]
fn segment_type_text() {
    assert_eq!(DiffLocationSegmentType::UnionMemberDefinition.as_str(), "UnionMemberDefinition");
    assert_eq!(DiffLocationSegmentType::IsRepeatable.as_str(), "IsRepeatable");
}

#[test]
fn change_type_text() {
    assert_eq!(ChangeType::Breaking.as_str(), "breaking");
    assert_eq!(ChangeType::NonBreaking.as_str(), "non-breaking");
    assert_eq!(ChangeType::Unknown.as_str(), "unknown");
}

#[test]
fn report_entry_renders_full_line() {
    let entry = ReportEntry {
        location: DiffLocation::new(
            DiffLocationSegmentType::TypeDefinition,
            None,
        ),
        kind: ReportKind::ItemAdded { name: "User".to_string() },
        change_type: ChangeType::NonBreaking,
    };
    assert_eq!(
        render_report_entry(&entry),
        "TypeDefinition: item is added to the right, name = 'User' (breaking = non-breaking)"
    );
}
