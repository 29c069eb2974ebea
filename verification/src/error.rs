//! What can go wrong in a command, and how each failure reads.

use vstd::prelude::*;

verus! {

/// Which lookup of a command found nothing. All three are the same kind of
/// failure; they differ in the message only.
#[derive(Clone, Copy, Debug, PartialEq, Eq, Structural)]
pub enum Missing {
    /// The season, or the episode within it, of a scene that was to be saved.
    SeasonOrEpisode,
    /// The scene or episode that was to be deleted, or a container on the way to it.
    Item,
    /// The season that was to be deleted.
    Season,
}

/// Which path could not be taken apart.
#[derive(Clone, Copy, Debug, PartialEq, Eq, Structural)]
pub enum PathPart {
    /// The project file's path has no parent directory.
    ProjectPath,
    /// The file to import has no file name.
    SourceFilename,
}

/// A failed command. Every failure is reported to the caller and leaves the
/// store usable.
#[derive(Debug, PartialEq, Eq)]
pub enum StoreError {
    /// The command needs a project, or a saved project, and there is none.
    NoActiveProject,
    /// An identifier does not resolve at the level where it was looked up.
    NotFound(Missing),
    /// A save was asked for and no path has been recorded.
    NoPath,
    /// The file system refused a read, a write or a copy; the text is the
    /// system's own.
    Io(String),
    /// A file's content is not a project document; the text is the parser's.
    Parse(String),
    /// A path has no file name or no parent directory.
    InvalidPath(PathPart),
}

impl StoreError {
    /// The message of this failure.
    pub open spec fn text(self) -> Seq<char> {
        match self {
            StoreError::NoActiveProject => "No active project"@,
            StoreError::NotFound(Missing::SeasonOrEpisode) => "Season or Episode not found"@,
            StoreError::NotFound(Missing::Item) => "Item not found"@,
            StoreError::NotFound(Missing::Season) => "Season not found"@,
            StoreError::NoPath => "Project has not been saved yet (Use Save As)"@,
            StoreError::Io(detail) => detail@,
            StoreError::Parse(detail) => detail@,
            StoreError::InvalidPath(PathPart::ProjectPath) => "Invalid project path"@,
            StoreError::InvalidPath(PathPart::SourceFilename) => "Invalid source filename"@,
        }
    }

    /// The message to show for this failure.
    pub fn message(&self) -> (text: String)
        ensures
            text@ == self.text(),
    {
        match self {
            StoreError::NoActiveProject => "No active project".to_string(),
            StoreError::NotFound(Missing::SeasonOrEpisode) => {
                "Season or Episode not found".to_string()
            },
            StoreError::NotFound(Missing::Item) => "Item not found".to_string(),
            StoreError::NotFound(Missing::Season) => "Season not found".to_string(),
            StoreError::NoPath => "Project has not been saved yet (Use Save As)".to_string(),
            StoreError::Io(detail) => detail.clone(),
            StoreError::Parse(detail) => detail.clone(),
            StoreError::InvalidPath(PathPart::ProjectPath) => "Invalid project path".to_string(),
            StoreError::InvalidPath(PathPart::SourceFilename) => {
                "Invalid source filename".to_string()
            },
        }
    }
}

} // verus!
