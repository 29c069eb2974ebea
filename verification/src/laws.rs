//! What holds of the commands taken together, stated over the store's model.
//!
//! Each command is described by the result it gives and the store it leaves
//! (`StoreView::..._result` and `StoreView::after_...`). The laws below relate
//! several commands, or one command to the rest of the store.

use crate::error::{Missing, StoreError};
use crate::models::{ProjectView, SceneView, ScriptGraphView};
use crate::store::StoreView;
use vstd::prelude::*;

verus! {

/// Storing a value under an identifier and then another under the same
/// identifier is the same as storing the second alone: the identifier has one
/// entry, it holds the second value, and no other identifier is added.
pub proof fn law_upsert_replaces<T>(m: Map<Seq<char>, T>, id: Seq<char>, first: T, second: T)
    ensures
        m.insert(id, first).insert(id, second) == m.insert(id, second),
        m.insert(id, first).insert(id, second)[id] == second,
        m.insert(id, first).insert(id, second).dom() == m.insert(id, first).dom(),
        m.insert(id, first).insert(id, second).dom() == m.dom().insert(id),
{
}

/// Saving a scene and then a scene of the same id into the same episode
/// leaves what saving the second alone leaves: the episode has the second
/// scene under that id, and no scene was added by the second save.
pub proof fn law_save_scene_twice(
    store: StoreView,
    season_id: Seq<char>,
    episode_id: Seq<char>,
    first: SceneView,
    second: SceneView,
)
    requires
        first.id == second.id,
    ensures
        store.after_save_scene(season_id, episode_id, first).after_save_scene(
            season_id,
            episode_id,
            second,
        ) == store.after_save_scene(season_id, episode_id, second),
        store.after_save_scene(season_id, episode_id, first).save_scene_result(
            season_id,
            episode_id,
        ) == store.save_scene_result(season_id, episode_id),
        store.save_scene_result(season_id, episode_id) is Ok ==> {
            let once = store.after_save_scene(season_id, episode_id, first).project.unwrap();
            let twice = store.after_save_scene(season_id, episode_id, first).after_save_scene(
                season_id,
                episode_id,
                second,
            ).project.unwrap();
            &&& twice.seasons[season_id].episodes[episode_id].scenes[second.id] == second
            &&& twice.seasons[season_id].episodes[episode_id].scenes.dom()
                == once.seasons[season_id].episodes[episode_id].scenes.dom()
        },
{
    if store.save_scene_result(season_id, episode_id) is Ok {
        let before = store.project.unwrap();
        let once = before.with_scene(season_id, episode_id, first);
        let twice = once.with_scene(season_id, episode_id, second);
        let direct = before.with_scene(season_id, episode_id, second);
        let scenes = before.seasons[season_id].episodes[episode_id].scenes;
        law_upsert_replaces(scenes, second.id, first, second);
        assert(twice.seasons[season_id].episodes =~= direct.seasons[season_id].episodes);
        assert(twice.seasons =~= direct.seasons);
    }
}

/// Saving a script graph and then a graph of the same id leaves what saving
/// the second alone leaves: one graph under that id, the second.
pub proof fn law_save_script_graph_twice(
    store: StoreView,
    first: ScriptGraphView,
    second: ScriptGraphView,
)
    requires
        first.id == second.id,
    ensures
        store.after_save_script_graph(first).after_save_script_graph(second)
            == store.after_save_script_graph(second),
        store.project is Some ==> {
            let once = store.after_save_script_graph(first).project.unwrap();
            let twice = store.after_save_script_graph(first).after_save_script_graph(
                second,
            ).project.unwrap();
            &&& twice.script_graphs[second.id] == second
            &&& twice.script_graphs.dom() == once.script_graphs.dom()
        },
{
    if store.project is Some {
        law_upsert_replaces(store.project.unwrap().script_graphs, second.id, first, second);
    }
}

/// Saving a scene leaves every other scene, the characters, the script
/// graphs, the cursors and the save path as they were.
pub proof fn law_save_scene_leaves_the_rest(
    store: StoreView,
    season_id: Seq<char>,
    episode_id: Seq<char>,
    scene: SceneView,
    other_season: Seq<char>,
    other_episode: Seq<char>,
    other_scene: Seq<char>,
)
    requires
        store.save_scene_result(season_id, episode_id) is Ok,
        other_season != season_id || other_episode != episode_id || other_scene != scene.id,
    ensures
        ({
            let before = store.project.unwrap();
            let after = store.after_save_scene(season_id, episode_id, scene).project.unwrap();
            &&& after.has_scene(other_season, other_episode, other_scene) == before.has_scene(
                other_season,
                other_episode,
                other_scene,
            )
            &&& before.has_scene(other_season, other_episode, other_scene)
                ==> after.seasons[other_season].episodes[other_episode].scenes[other_scene]
                == before.seasons[other_season].episodes[other_episode].scenes[other_scene]
            &&& after.seasons.dom() == before.seasons.dom()
            &&& after.characters == before.characters
            &&& after.script_graphs == before.script_graphs
            &&& after.name == before.name
            &&& after.active_season_id == before.active_season_id
            &&& after.active_episode_id == before.active_episode_id
            &&& after.active_scene_id == before.active_scene_id
        }),
        store.after_save_scene(season_id, episode_id, scene).path == store.path,
{
}

/// A scene that is not there cannot be deleted, and a scene that was deleted
/// is not there: deleting it again fails.
pub proof fn law_delete_scene_twice(
    store: StoreView,
    season_id: Seq<char>,
    episode_id: Seq<char>,
    scene_id: Seq<char>,
)
    requires
        store.project is Some,
    ensures
        !store.project.unwrap().has_scene(season_id, episode_id, scene_id)
            ==> store.delete_scene_result(season_id, episode_id, scene_id) == Err::<
            (),
            StoreError,
        >(StoreError::NotFound(Missing::Item)),
        store.project.unwrap().has_scene(season_id, episode_id, scene_id)
            ==> store.delete_scene_result(season_id, episode_id, scene_id) == Ok::<
            (),
            StoreError,
        >(()),
        store.after_delete_scene(season_id, episode_id, scene_id).delete_scene_result(
            season_id,
            episode_id,
            scene_id,
        ) == Err::<(), StoreError>(StoreError::NotFound(Missing::Item)),
{
}

/// An episode that is not there cannot be deleted, and an episode that was
/// deleted is not there, nor are its scenes: deleting it again fails.
pub proof fn law_delete_episode_twice(
    store: StoreView,
    season_id: Seq<char>,
    episode_id: Seq<char>,
    scene_id: Seq<char>,
)
    requires
        store.project is Some,
    ensures
        !store.project.unwrap().has_episode(season_id, episode_id)
            ==> store.delete_episode_result(season_id, episode_id) == Err::<(), StoreError>(
            StoreError::NotFound(Missing::Item),
        ),
        store.project.unwrap().has_episode(season_id, episode_id) ==> store.delete_episode_result(
            season_id,
            episode_id,
        ) == Ok::<(), StoreError>(()),
        store.after_delete_episode(season_id, episode_id).delete_episode_result(
            season_id,
            episode_id,
        ) == Err::<(), StoreError>(StoreError::NotFound(Missing::Item)),
        !store.after_delete_episode(season_id, episode_id).project.unwrap().has_scene(
            season_id,
            episode_id,
            scene_id,
        ),
{
}

/// A season that is not there cannot be deleted, and a season that was
/// deleted is not there, nor is anything it held: deleting it again fails.
pub proof fn law_delete_season_twice(
    store: StoreView,
    season_id: Seq<char>,
    episode_id: Seq<char>,
    scene_id: Seq<char>,
)
    requires
        store.project is Some,
    ensures
        !store.project.unwrap().seasons.contains_key(season_id) ==> store.delete_season_result(
            season_id,
        ) == Err::<(), StoreError>(StoreError::NotFound(Missing::Season)),
        store.project.unwrap().seasons.contains_key(season_id) ==> store.delete_season_result(
            season_id,
        ) == Ok::<(), StoreError>(()),
        store.after_delete_season(season_id).delete_season_result(season_id) == Err::<
            (),
            StoreError,
        >(StoreError::NotFound(Missing::Season)),
        !store.after_delete_season(season_id).project.unwrap().has_episode(season_id, episode_id),
        !store.after_delete_season(season_id).project.unwrap().has_scene(
            season_id,
            episode_id,
            scene_id,
        ),
{
}

/// A command that fails before anything is written to a file leaves the
/// store as it was: an edit of the tree that does not resolve, and a save
/// without a recorded path.
pub proof fn law_failed_command_changes_nothing(
    store: StoreView,
    season_id: Seq<char>,
    episode_id: Seq<char>,
    scene_id: Seq<char>,
    scene: SceneView,
    graph: ScriptGraphView,
    project: ProjectView,
)
    ensures
        store.save_project_result() is Err ==> store.after_save_project(project) == store,
        store.save_scene_result(season_id, episode_id) is Err ==> store.after_save_scene(
            season_id,
            episode_id,
            scene,
        ) == store,
        store.save_script_graph_result() is Err ==> store.after_save_script_graph(graph) == store,
        store.delete_scene_result(season_id, episode_id, scene_id) is Err
            ==> store.after_delete_scene(season_id, episode_id, scene_id) == store,
        store.delete_episode_result(season_id, episode_id) is Err ==> store.after_delete_episode(
            season_id,
            episode_id,
        ) == store,
        store.delete_season_result(season_id) is Err ==> store.after_delete_season(season_id)
            == store,
{
}

/// At most one project is resident: a project that is created, loaded or
/// saved under a path takes the place of the one before it, whatever the
/// store held.
pub proof fn law_new_project_replaces_the_resident_one(
    store: StoreView,
    other: StoreView,
    name: Seq<char>,
    path: Seq<char>,
    project: ProjectView,
)
    ensures
        store.after_create_project(name) == other.after_create_project(name),
        store.after_load_project(path, Some(project)) == other.after_load_project(
            path,
            Some(project),
        ),
        store.after_save_project_as(path, project) == other.after_save_project_as(path, project),
        store.after_load_project(path, Some(project)).project == Some(project),
        store.after_save_project_as(path, project).project == Some(project),
        store.path is Some ==> store.after_save_project(project).project == Some(project),
        store.after_load_project(path, None) == store,
{
}

/// A save without a path fails, and changes nothing, until a path is
/// recorded: a store that holds nothing has none, and a new project has none.
/// After a save under a path, a later save goes to that path and leaves the
/// later project resident.
pub proof fn law_save_needs_a_recorded_path(
    store: StoreView,
    name: Seq<char>,
    path: Seq<char>,
    project: ProjectView,
    later: ProjectView,
)
    ensures
        StoreView::empty().save_project_result() == Err::<Seq<char>, StoreError>(
            StoreError::NoPath,
        ),
        store.after_create_project(name).save_project_result() == Err::<Seq<char>, StoreError>(
            StoreError::NoPath,
        ),
        store.after_create_project(name).after_save_project(later) == store.after_create_project(
            name,
        ),
        store.path is None ==> store.after_save_project(later) == store,
        store.after_save_project_as(path, project).save_project_result() == Ok::<
            Seq<char>,
            StoreError,
        >(path),
        store.after_save_project_as(path, project).after_save_project(later) == (StoreView {
            project: Some(later),
            path: Some(path),
        }),
        store.after_load_project(path, Some(project)).save_project_result() == Ok::<
            Seq<char>,
            StoreError,
        >(path),
{
}

/// Only `save_project_as` and `load_project` record a path: every other
/// command leaves a store without a path without one.
pub proof fn law_other_commands_record_no_path(
    store: StoreView,
    name: Seq<char>,
    project: ProjectView,
    season_id: Seq<char>,
    episode_id: Seq<char>,
    scene_id: Seq<char>,
    scene: SceneView,
    graph: ScriptGraphView,
)
    requires
        store.path is None,
    ensures
        store.after_create_project(name).path is None,
        store.after_save_project(project).path is None,
        store.after_load_project(name, None).path is None,
        store.after_save_scene(season_id, episode_id, scene).path is None,
        store.after_save_script_graph(graph).path is None,
        store.after_delete_scene(season_id, episode_id, scene_id).path is None,
        store.after_delete_episode(season_id, episode_id).path is None,
        store.after_delete_season(season_id).path is None,
{
}

} // verus!
