use novel_store::assets::{asset_names, assets_dir, plan_import, resolve_import, AssetEntry};
use novel_store::error::{PathPart, StoreError};
use novel_store::models::Project;
use novel_store::store::ProjectStore;

fn text(value: &str) -> String {
    value.to_string()
}

fn file(name: &str) -> AssetEntry {
    AssetEntry { file_name: Some(text(name)), is_file: true }
}

fn saved_store(path: &str) -> ProjectStore {
    let mut store = ProjectStore::new();
    store.save_project_as(text(path), Project::default());
    store
}

#[test]
fn import_goes_into_assets_beside_the_project_file() {
    let store = saved_store("/tmp/demo.json");
    let plan = store.import_file(text("/abs/pic.png")).expect("plan");
    assert_eq!(plan.assets_dir, "/tmp/assets");
    assert_eq!(plan.destination, "/tmp/assets/pic.png");
    assert_eq!(plan.file_name, "pic.png");
}

#[test]
fn listing_after_an_import_names_the_asset() {
    let store = saved_store("/tmp/demo.json");
    let plan = store.import_file(text("/abs/pic.png")).expect("plan");
    let listing = vec![file(&plan.file_name)];
    assert_eq!(store.get_project_assets(Some(listing)), Ok(vec![text("pic.png")]));
}

#[test]
fn import_keeps_only_the_file_name_of_the_source() {
    let plan = plan_import(&text("/home/me/title/story.json"), &text("art/bg/night sky.jpg"))
        .expect("plan");
    assert_eq!(plan.assets_dir, "/home/me/title/assets");
    assert_eq!(plan.destination, "/home/me/title/assets/night sky.jpg");
    assert_eq!(plan.file_name, "night sky.jpg");
}

#[test]
fn import_beside_a_relative_project_file() {
    let plan = plan_import(&text("demo.json"), &text("pic.png")).expect("plan");
    assert_eq!(plan.assets_dir, "assets");
    assert_eq!(plan.destination, "assets/pic.png");
    assert_eq!(plan.file_name, "pic.png");
}

#[test]
fn import_without_a_saved_project_fails() {
    let mut store = ProjectStore::new();
    assert_eq!(
        store.import_file(text("/abs/pic.png")).map(|plan| plan.file_name),
        Err(StoreError::NoActiveProject)
    );
    store.create_project(text("Demo"));
    assert_eq!(
        store.import_file(text("/abs/pic.png")).map(|plan| plan.file_name),
        Err(StoreError::NoActiveProject)
    );
}

#[test]
fn import_with_a_project_path_without_parent_fails() {
    let store = saved_store("/");
    assert_eq!(
        store.import_file(text("/abs/pic.png")).map(|plan| plan.file_name),
        Err(StoreError::InvalidPath(PathPart::ProjectPath))
    );
    let store = saved_store("");
    assert_eq!(
        store.import_file(text("/abs/pic.png")).map(|plan| plan.file_name),
        Err(StoreError::InvalidPath(PathPart::ProjectPath))
    );
}

#[test]
fn import_of_a_source_without_file_name_fails() {
    let store = saved_store("/tmp/demo.json");
    assert_eq!(
        store.import_file(text("/abs/..")).map(|plan| plan.file_name),
        Err(StoreError::InvalidPath(PathPart::SourceFilename))
    );
    assert_eq!(
        store.import_file(text("/")).map(|plan| plan.file_name),
        Err(StoreError::InvalidPath(PathPart::SourceFilename))
    );
    assert_eq!(
        store.import_file(text("")).map(|plan| plan.file_name),
        Err(StoreError::InvalidPath(PathPart::SourceFilename))
    );
}

#[test]
fn a_missing_parent_is_reported_before_a_missing_file_name() {
    assert_eq!(resolve_import(None, None), Err(StoreError::InvalidPath(PathPart::ProjectPath)));
    assert_eq!(
        resolve_import(None, Some(text("pic.png"))),
        Err(StoreError::InvalidPath(PathPart::ProjectPath))
    );
    assert_eq!(
        resolve_import(Some(text("/tmp")), None),
        Err(StoreError::InvalidPath(PathPart::SourceFilename))
    );
    assert_eq!(
        resolve_import(Some(text("/tmp")), Some(text("pic.png"))),
        Ok((text("/tmp"), text("pic.png")))
    );
}

#[test]
fn assets_dir_is_named_assets() {
    assert_eq!(assets_dir(&text("/tmp/demo.json")), Ok(text("/tmp/assets")));
    assert_eq!(assets_dir(&text("/demo.json")), Ok(text("/assets")));
    assert_eq!(assets_dir(&text("/")), Err(StoreError::InvalidPath(PathPart::ProjectPath)));
    let store = saved_store("/tmp/demo.json");
    assert_eq!(store.assets_dir(), Ok(text("/tmp/assets")));
    assert_eq!(ProjectStore::new().assets_dir(), Err(StoreError::NoActiveProject));
}

#[test]
fn a_missing_assets_directory_has_no_assets() {
    let store = saved_store("/tmp/demo.json");
    assert_eq!(store.get_project_assets(None), Ok(Vec::<String>::new()));
    assert_eq!(asset_names(None), Vec::<String>::new());
}

#[test]
fn an_empty_assets_directory_has_no_assets() {
    let store = saved_store("/tmp/demo.json");
    assert_eq!(store.get_project_assets(Some(Vec::new())), Ok(Vec::<String>::new()));
}

#[test]
fn only_regular_files_with_a_name_are_listed() {
    let listing = vec![
        file("a.png"),
        AssetEntry { file_name: Some(text("thumbs")), is_file: false },
        AssetEntry { file_name: None, is_file: true },
        file("b.ogg"),
        AssetEntry { file_name: None, is_file: false },
        file("a.png"),
    ];
    assert_eq!(asset_names(Some(listing)), vec![text("a.png"), text("b.ogg"), text("a.png")]);
}

#[test]
fn assets_of_an_unsaved_project_cannot_be_listed() {
    let mut store = ProjectStore::new();
    assert_eq!(store.get_project_assets(None), Err(StoreError::NoActiveProject));
    store.create_project(text("Demo"));
    assert_eq!(
        store.get_project_assets(Some(vec![file("a.png")])),
        Err(StoreError::NoActiveProject)
    );
}

#[test]
fn assets_of_a_project_path_without_parent_cannot_be_listed() {
    let store = saved_store("/");
    assert_eq!(
        store.get_project_assets(Some(vec![file("a.png")])),
        Err(StoreError::InvalidPath(PathPart::ProjectPath))
    );
}
