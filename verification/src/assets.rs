//! The assets of a saved project: files in the directory `assets` beside the
//! project file.
//!
//! Nothing here touches the file system. An import is planned here and
//! carried out by the caller; a directory is read by the caller and its
//! entries are sorted out here. Paths are taken apart and put together by
//! `std::path`, whose results are named and not worked out again.

use crate::error::{PathPart, StoreError};
use crate::models::text_view;
use crate::registry::seq_views;
use vstd::prelude::*;

verus! {

/// What `std::path::Path::parent` gives for the path `path`. It is worked out
/// from the text of the path alone, by the path syntax of the platform that
/// the library is built for.
pub uninterp spec fn parent_of(path: Seq<char>) -> Option<Seq<char>>;

/// What `std::path::Path::file_name` gives for the path `path`, from the text
/// of the path alone.
pub uninterp spec fn file_name_of(path: Seq<char>) -> Option<Seq<char>>;

/// What `std::path::Path::join` gives for the path `base` and the path
/// `more`, from the two texts alone.
pub uninterp spec fn joined(base: Seq<char>, more: Seq<char>) -> Seq<char>;

/// Calls `std::path::Path::parent` on a path given as text. The contract
/// claims only that the result is `parent_of` of that text, so that the same
/// text always gives the same result; it does not say what the result is.
/// Taken on trust, not proved.
#[verifier::external_body]
fn path_parent(path: &String) -> (parent: Option<String>)
    ensures
        text_view(parent) == parent_of(path@),
{
    match std::path::Path::new(path).parent() {
        Some(dir) => Some(dir.to_string_lossy().into_owned()),
        None => None,
    }
}

/// Calls `std::path::Path::file_name` on a path given as text. The contract
/// claims only that the result is `file_name_of` of that text, so that the
/// same text always gives the same result; it does not say what the result
/// is. Taken on trust, not proved.
#[verifier::external_body]
fn path_file_name(path: &String) -> (name: Option<String>)
    ensures
        text_view(name) == file_name_of(path@),
{
    match std::path::Path::new(path).file_name() {
        Some(name) => Some(name.to_string_lossy().into_owned()),
        None => None,
    }
}

/// Calls `std::path::Path::join` on two paths given as text. The contract
/// claims only that the result is `joined` of the two texts, so that the same
/// texts always give the same result; it does not say what the result is.
/// Taken on trust, not proved.
#[verifier::external_body]
fn path_join(base: &String, more: &str) -> (path: String)
    ensures
        path@ == joined(base@, more@),
{
    std::path::Path::new(base).join(more).to_string_lossy().into_owned()
}

/// Where an import goes: the caller makes sure that `assets_dir` exists,
/// copies the source file to `destination`, and refers to the asset by
/// `file_name` from then on.
#[derive(Debug)]
pub struct ImportPlan {
    pub assets_dir: String,
    pub destination: String,
    pub file_name: String,
}

/// The model of an import plan.
pub struct ImportPlanView {
    pub assets_dir: Seq<char>,
    pub destination: Seq<char>,
    pub file_name: Seq<char>,
}

impl View for ImportPlan {
    type V = ImportPlanView;

    open spec fn view(&self) -> ImportPlanView {
        ImportPlanView {
            assets_dir: self.assets_dir@,
            destination: self.destination@,
            file_name: self.file_name@,
        }
    }
}

/// The directory and the file name of an import, from the parent of the
/// project file's path and the file name of the source path: both must exist,
/// and a missing parent is reported first.
pub open spec fn import_parts(
    project_dir: Option<Seq<char>>,
    file_name: Option<Seq<char>>,
) -> Result<(Seq<char>, Seq<char>), StoreError> {
    match (project_dir, file_name) {
        (None, _) => Err(StoreError::InvalidPath(PathPart::ProjectPath)),
        (Some(_), None) => Err(StoreError::InvalidPath(PathPart::SourceFilename)),
        (Some(dir), Some(name)) => Ok((dir, name)),
    }
}

/// The assets directory of the project saved at `project_path`.
pub open spec fn assets_dir_of(project_path: Seq<char>) -> Result<Seq<char>, StoreError> {
    match parent_of(project_path) {
        Some(dir) => Ok(joined(dir, "assets"@)),
        None => Err(StoreError::InvalidPath(PathPart::ProjectPath)),
    }
}

/// The plan for importing the file at `source_path` into the project saved at
/// `project_path`: the file keeps its name and goes into the assets directory.
pub open spec fn import_plan_of(project_path: Seq<char>, source_path: Seq<char>) -> Result<
    ImportPlanView,
    StoreError,
> {
    match import_parts(parent_of(project_path), file_name_of(source_path)) {
        Ok((dir, name)) => Ok(
            ImportPlanView {
                assets_dir: joined(dir, "assets"@),
                destination: joined(joined(dir, "assets"@), name),
                file_name: name,
            },
        ),
        Err(e) => Err(e),
    }
}

/// Checks the two parts of an import that `std::path` was asked for: the
/// directory of the project file and the file name of the source.
pub fn resolve_import(project_dir: Option<String>, file_name: Option<String>) -> (r: Result<
    (String, String),
    StoreError,
>)
    ensures
        match r {
            Ok((dir, name)) => import_parts(text_view(project_dir), text_view(file_name)) == Ok::<
                (Seq<char>, Seq<char>),
                StoreError,
            >((dir@, name@)),
            Err(e) => import_parts(text_view(project_dir), text_view(file_name)) == Err::<
                (Seq<char>, Seq<char>),
                StoreError,
            >(e),
        },
{
    match project_dir {
        None => Err(StoreError::InvalidPath(PathPart::ProjectPath)),
        Some(dir) => match file_name {
            None => Err(StoreError::InvalidPath(PathPart::SourceFilename)),
            Some(name) => Ok((dir, name)),
        },
    }
}

/// The assets directory of the project saved at `project_path`: the directory
/// `assets` beside the project file.
pub fn assets_dir(project_path: &String) -> (r: Result<String, StoreError>)
    ensures
        match r {
            Ok(dir) => assets_dir_of(project_path@) == Ok::<Seq<char>, StoreError>(dir@),
            Err(e) => assets_dir_of(project_path@) == Err::<Seq<char>, StoreError>(e),
        },
{
    match path_parent(project_path) {
        Some(dir) => Ok(path_join(&dir, "assets")),
        None => Err(StoreError::InvalidPath(PathPart::ProjectPath)),
    }
}

/// Plans the import of the file at `source_path` into the project saved at
/// `project_path`.
pub fn plan_import(project_path: &String, source_path: &String) -> (r: Result<
    ImportPlan,
    StoreError,
>)
    ensures
        match r {
            Ok(plan) => import_plan_of(project_path@, source_path@) == Ok::<
                ImportPlanView,
                StoreError,
            >(plan@),
            Err(e) => import_plan_of(project_path@, source_path@) == Err::<
                ImportPlanView,
                StoreError,
            >(e),
        },
{
    match resolve_import(path_parent(project_path), path_file_name(source_path)) {
        Ok((dir, name)) => {
            let assets_dir = path_join(&dir, "assets");
            let destination = path_join(&assets_dir, name.as_str());
            Ok(ImportPlan { assets_dir, destination, file_name: name })
        },
        Err(e) => Err(e),
    }
}

/// One entry of a directory, as the caller found it.
#[derive(Debug)]
pub struct AssetEntry {
    /// The last component of the entry's path, if it has one.
    pub file_name: Option<String>,
    /// Whether the entry is a regular file.
    pub is_file: bool,
}

/// The model of a directory entry.
pub struct AssetEntryView {
    pub file_name: Option<Seq<char>>,
    pub is_file: bool,
}

impl View for AssetEntry {
    type V = AssetEntryView;

    open spec fn view(&self) -> AssetEntryView {
        AssetEntryView { file_name: text_view(self.file_name), is_file: self.is_file }
    }
}

/// The name under which an entry is listed: regular files are listed, by
/// their file name.
pub open spec fn asset_name(entry: AssetEntryView) -> Option<Seq<char>> {
    if entry.is_file {
        entry.file_name
    } else {
        None
    }
}

/// The assets among the entries of a directory, in the order of the entries.
pub open spec fn listed_assets(entries: Seq<AssetEntryView>) -> Seq<Seq<char>> {
    entries.filter_map(|entry: AssetEntryView| asset_name(entry))
}

/// The assets in a listing of the assets directory; none where the directory
/// does not exist.
pub open spec fn assets_in(listing: Option<Seq<AssetEntryView>>) -> Seq<Seq<char>> {
    match listing {
        Some(entries) => listed_assets(entries),
        None => Seq::empty(),
    }
}

/// The model of an optional listing.
pub open spec fn listing_view(listing: Option<Vec<AssetEntry>>) -> Option<Seq<AssetEntryView>> {
    match listing {
        Some(entries) => Some(seq_views(entries@)),
        None => None,
    }
}

/// The names of the assets in a listing of the assets directory: the file
/// names of the regular files, in the order of the listing. `None` stands for
/// a directory that does not exist, which has no assets.
pub fn asset_names(listing: Option<Vec<AssetEntry>>) -> (names: Vec<String>)
    ensures
        seq_views(names@) == assets_in(listing_view(listing)),
{
    let mut names: Vec<String> = Vec::new();
    match listing {
        None => {
            assert(seq_views(names@) =~= Seq::<Seq<char>>::empty());
        },
        Some(entries) => {
            let ghost all = seq_views(entries@);
            let ghost pick = |entry: AssetEntryView| asset_name(entry);
            let mut i: usize = 0;
            assert(seq_views(names@) =~= all.take(0).filter_map(pick));
            while i < entries.len()
                invariant
                    i <= entries.len(),
                    all == seq_views(entries@),
                    pick == |entry: AssetEntryView| asset_name(entry),
                    seq_views(names@) == all.take(i as int).filter_map(pick),
                decreases entries.len() - i,
            {
                let entry = &entries[i];
                proof {
                    all.lemma_filter_map_take_succ(pick, i as int);
                }
                let ghost before = names@;
                if entry.is_file {
                    match &entry.file_name {
                        Some(name) => {
                            names.push(name.clone());
                            assert(seq_views(names@) =~= seq_views(before) + seq![name@]);
                        },
                        None => {},
                    }
                }
                i += 1;
            }
            assert(all.take(entries.len() as int) =~= all);
        },
    }
    names
}

} // verus!
