use novel_store::error::{Missing, PathPart, StoreError};

#[test]
fn every_failure_has_its_message() {
    assert_eq!(StoreError::NoActiveProject.message(), "No active project");
    assert_eq!(
        StoreError::NotFound(Missing::SeasonOrEpisode).message(),
        "Season or Episode not found"
    );
    assert_eq!(StoreError::NotFound(Missing::Item).message(), "Item not found");
    assert_eq!(StoreError::NotFound(Missing::Season).message(), "Season not found");
    assert_eq!(StoreError::NoPath.message(), "Project has not been saved yet (Use Save As)");
    assert_eq!(
        StoreError::InvalidPath(PathPart::ProjectPath).message(),
        "Invalid project path"
    );
    assert_eq!(
        StoreError::InvalidPath(PathPart::SourceFilename).message(),
        "Invalid source filename"
    );
}

#[test]
fn system_and_parser_messages_are_passed_on_verbatim() {
    let io = StoreError::Io("Permission denied (os error 13)".to_string());
    assert_eq!(io.message(), "Permission denied (os error 13)");
    let parse = StoreError::Parse("missing field `name` at line 1 column 2".to_string());
    assert_eq!(parse.message(), "missing field `name` at line 1 column 2");
    assert_eq!(StoreError::Io(String::new()).message(), "");
}

#[test]
fn failures_of_one_kind_differ_by_what_was_missing() {
    assert_ne!(StoreError::NotFound(Missing::Item), StoreError::NotFound(Missing::Season));
    assert_ne!(
        StoreError::InvalidPath(PathPart::ProjectPath),
        StoreError::InvalidPath(PathPart::SourceFilename)
    );
    assert_ne!(StoreError::Io("x".to_string()), StoreError::Parse("x".to_string()));
}
