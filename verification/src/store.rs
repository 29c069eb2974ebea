//! The project store and its commands.
//!
//! A store holds at most one project, and the path of the file that the
//! project was loaded from or last saved to. A command reads or changes the
//! store in one step. What a command does to the store is written down as a
//! pair of functions on the store's model: the result it gives and the store
//! it leaves. Reading and writing files is the caller's part: a command that
//! involves a file takes what was read, or says what is to be written where.

use crate::assets::{
    asset_names, assets_dir, assets_dir_of, assets_in, import_plan_of, listing_view, plan_import,
    AssetEntry, AssetEntryView, ImportPlan, ImportPlanView,
};
use crate::error::{Missing, StoreError};
use crate::models::{Project, ProjectView, Scene, SceneView, ScriptGraph, ScriptGraphView};
use crate::models::seed_project;
use crate::registry::{
    lemma_views_insert, lemma_views_put_back, lemma_views_remove, seq_views, views,
};
use vstd::prelude::*;
use vstd::string::*;

verus! {

/// Holder of the one resident project and of its save path.
#[derive(Debug)]
pub struct ProjectStore {
    project: Option<Project>,
    current_path: Option<String>,
}

/// The model of a store.
pub struct StoreView {
    /// The resident project, if one was created or loaded.
    pub project: Option<ProjectView>,
    /// Where the project is saved; none for a project that never was.
    pub path: Option<Seq<char>>,
}

impl StoreView {
    /// A store that holds nothing.
    pub open spec fn empty() -> StoreView {
        StoreView { project: None, path: None }
    }

    /// A new project of the given name.
    pub open spec fn new_project(name: Seq<char>) -> ProjectView {
        ProjectView { name, ..seed_project() }
    }

    /// The store after `create_project`: it holds the new project, unsaved.
    pub open spec fn after_create_project(self, name: Seq<char>) -> StoreView {
        StoreView { project: Some(Self::new_project(name)), path: None }
    }

    /// The store after `load_project`: a project that was read replaces the
    /// resident one and its path is recorded; a failed read changes nothing.
    pub open spec fn after_load_project(
        self,
        path: Seq<char>,
        loaded: Option<ProjectView>,
    ) -> StoreView {
        match loaded {
            Some(project) => StoreView { project: Some(project), path: Some(path) },
            None => self,
        }
    }

    /// The store after `save_project_as`.
    pub open spec fn after_save_project_as(self, path: Seq<char>, project: ProjectView) -> StoreView {
        StoreView { project: Some(project), path: Some(path) }
    }

    /// What `save_project` gives: the path to write to, where one is recorded.
    pub open spec fn save_project_result(self) -> Result<Seq<char>, StoreError> {
        match self.path {
            Some(path) => Ok(path),
            None => Err(StoreError::NoPath),
        }
    }

    /// The store after `save_project`: with a recorded path the project is
    /// resident; without one the save fails and the store is as it was.
    pub open spec fn after_save_project(self, project: ProjectView) -> StoreView {
        match self.path {
            Some(_) => StoreView { project: Some(project), ..self },
            None => self,
        }
    }

    /// What `save_scene` gives.
    pub open spec fn save_scene_result(
        self,
        season_id: Seq<char>,
        episode_id: Seq<char>,
    ) -> Result<(), StoreError> {
        match self.project {
            None => Err(StoreError::NoActiveProject),
            Some(project) => if project.has_episode(season_id, episode_id) {
                Ok(())
            } else {
                Err(StoreError::NotFound(Missing::SeasonOrEpisode))
            },
        }
    }

    /// The store after `save_scene`.
    pub open spec fn after_save_scene(
        self,
        season_id: Seq<char>,
        episode_id: Seq<char>,
        scene: SceneView,
    ) -> StoreView {
        match self.project {
            Some(project) if project.has_episode(season_id, episode_id) => StoreView {
                project: Some(project.with_scene(season_id, episode_id, scene)),
                ..self
            },
            _ => self,
        }
    }

    /// What `save_script_graph` gives.
    pub open spec fn save_script_graph_result(self) -> Result<(), StoreError> {
        match self.project {
            None => Err(StoreError::NoActiveProject),
            Some(_) => Ok(()),
        }
    }

    /// The store after `save_script_graph`.
    pub open spec fn after_save_script_graph(self, graph: ScriptGraphView) -> StoreView {
        match self.project {
            Some(project) => StoreView { project: Some(project.with_script_graph(graph)), ..self },
            None => self,
        }
    }

    /// What `delete_scene` gives.
    pub open spec fn delete_scene_result(
        self,
        season_id: Seq<char>,
        episode_id: Seq<char>,
        scene_id: Seq<char>,
    ) -> Result<(), StoreError> {
        match self.project {
            None => Err(StoreError::NoActiveProject),
            Some(project) => if project.has_scene(season_id, episode_id, scene_id) {
                Ok(())
            } else {
                Err(StoreError::NotFound(Missing::Item))
            },
        }
    }

    /// The store after `delete_scene`.
    pub open spec fn after_delete_scene(
        self,
        season_id: Seq<char>,
        episode_id: Seq<char>,
        scene_id: Seq<char>,
    ) -> StoreView {
        match self.project {
            Some(project) if project.has_scene(season_id, episode_id, scene_id) => StoreView {
                project: Some(project.without_scene(season_id, episode_id, scene_id)),
                ..self
            },
            _ => self,
        }
    }

    /// What `delete_episode` gives.
    pub open spec fn delete_episode_result(
        self,
        season_id: Seq<char>,
        episode_id: Seq<char>,
    ) -> Result<(), StoreError> {
        match self.project {
            None => Err(StoreError::NoActiveProject),
            Some(project) => if project.has_episode(season_id, episode_id) {
                Ok(())
            } else {
                Err(StoreError::NotFound(Missing::Item))
            },
        }
    }

    /// The store after `delete_episode`.
    pub open spec fn after_delete_episode(
        self,
        season_id: Seq<char>,
        episode_id: Seq<char>,
    ) -> StoreView {
        match self.project {
            Some(project) if project.has_episode(season_id, episode_id) => StoreView {
                project: Some(project.without_episode(season_id, episode_id)),
                ..self
            },
            _ => self,
        }
    }

    /// What `delete_season` gives.
    pub open spec fn delete_season_result(self, season_id: Seq<char>) -> Result<(), StoreError> {
        match self.project {
            None => Err(StoreError::NoActiveProject),
            Some(project) => if project.seasons.contains_key(season_id) {
                Ok(())
            } else {
                Err(StoreError::NotFound(Missing::Season))
            },
        }
    }

    /// The store after `delete_season`.
    pub open spec fn after_delete_season(self, season_id: Seq<char>) -> StoreView {
        match self.project {
            Some(project) if project.seasons.contains_key(season_id) => StoreView {
                project: Some(project.without_season(season_id)),
                ..self
            },
            _ => self,
        }
    }

    /// What `assets_dir` gives: the directory `assets` beside the project
    /// file. A project that was never saved has none.
    pub open spec fn assets_dir_result(self) -> Result<Seq<char>, StoreError> {
        match self.path {
            Some(path) => assets_dir_of(path),
            None => Err(StoreError::NoActiveProject),
        }
    }

    /// What `import_file` gives.
    pub open spec fn import_file_result(self, source_path: Seq<char>) -> Result<
        ImportPlanView,
        StoreError,
    > {
        match self.path {
            Some(path) => import_plan_of(path, source_path),
            None => Err(StoreError::NoActiveProject),
        }
    }

    /// What `get_project_assets` gives for a listing of the assets directory.
    pub open spec fn get_project_assets_result(
        self,
        listing: Option<Seq<AssetEntryView>>,
    ) -> Result<Seq<Seq<char>>, StoreError> {
        match self.assets_dir_result() {
            Ok(_) => Ok(assets_in(listing)),
            Err(e) => Err(e),
        }
    }
}

/// The model of an optional project.
pub open spec fn project_view(project: Option<Project>) -> Option<ProjectView> {
    match project {
        Some(p) => Some(p@),
        None => None,
    }
}

impl ProjectStore {
    /// The store as a pair of an optional project and an optional path.
    pub closed spec fn view(self) -> StoreView {
        StoreView {
            project: project_view(self.project),
            path: crate::models::text_view(self.current_path),
        }
    }

    /// A store that holds no project and knows no path.
    pub fn new() -> (store: Self)
        ensures
            store@ == StoreView::empty(),
    {
        ProjectStore { project: None, current_path: None }
    }

    /// Makes a new project named `name` the resident project, forgets the
    /// save path, and returns a copy of the project.
    pub fn create_project(&mut self, name: String) -> (project: Project)
        ensures
            project@ == StoreView::new_project(name@),
            final(self)@ == old(self)@.after_create_project(name@),
    {
        let mut project = Project::default();
        project.name = name;
        self.project = Some(project.clone());
        self.current_path = None;
        project
    }

    /// A copy of the resident project, if there is one.
    pub fn get_current_project(&self) -> (project: Option<Project>)
        ensures
            project_view(project) == self@.project,
    {
        match &self.project {
            Some(project) => Some(project.clone()),
            None => None,
        }
    }

    /// Takes in what reading and parsing the file at `path` gave. A project
    /// becomes the resident one, with `path` as its save path, and a copy of
    /// it is returned. A failure is handed on and the store stays as it was.
    pub fn load_project(&mut self, path: String, loaded: Result<Project, StoreError>) -> (r: Result<
        Project,
        StoreError,
    >)
        ensures
            match loaded {
                Ok(project) => r.is_ok() && r.unwrap()@ == project@ && final(self)@ == old(
                    self,
                )@.after_load_project(path@, Some(project@)),
                Err(e) => r == Err::<Project, StoreError>(e) && final(self)@ == old(self)@,
            },
    {
        match loaded {
            Ok(project) => {
                self.project = Some(project.clone());
                self.current_path = Some(path);
                Ok(project)
            },
            Err(e) => Err(e),
        }
    }

    /// Makes `project` the resident project and `path` its save path. The
    /// caller then writes the project to `path`; the store keeps both even if
    /// that write fails.
    pub fn save_project_as(&mut self, path: String, project: Project)
        ensures
            final(self)@ == old(self)@.after_save_project_as(path@, project@),
    {
        self.project = Some(project);
        self.current_path = Some(path);
    }

    /// Makes `project` the resident project and returns the recorded path,
    /// to which the caller then writes it; the store keeps the project even
    /// if that write fails. Without a recorded path the save fails and the
    /// store stays as it was.
    pub fn save_project(&mut self, project: Project) -> (r: Result<String, StoreError>)
        ensures
            match r {
                Ok(path) => old(self)@.save_project_result() == Ok::<Seq<char>, StoreError>(path@),
                Err(e) => old(self)@.save_project_result() == Err::<Seq<char>, StoreError>(e),
            },
            final(self)@ == old(self)@.after_save_project(project@),
    {
        match &self.current_path {
            Some(path) => {
                let target = path.clone();
                self.project = Some(project);
                Ok(target)
            },
            None => Err(StoreError::NoPath),
        }
    }

    /// Stores `scene` under its own id in the episode `episode_id` of the
    /// season `season_id`, in place of a scene of that id if the episode has
    /// one. Fails, and changes nothing, if there is no project or if the
    /// season or the episode does not exist.
    pub fn save_scene(&mut self, season_id: String, episode_id: String, scene: Scene) -> (r: Result<
        (),
        StoreError,
    >)
        ensures
            r == old(self)@.save_scene_result(season_id@, episode_id@),
            final(self)@ == old(self)@.after_save_scene(season_id@, episode_id@, scene@),
    {
        match &mut self.project {
            Some(project) => {
                let ghost seasons = project.seasons@;
                match project.seasons.get_mut(&season_id) {
                    Some(season) => {
                        let ghost episodes = season.episodes@;
                        match season.episodes.get_mut(&episode_id) {
                            Some(episode) => {
                                let ghost scenes = episode.scenes@;
                                proof {
                                    lemma_views_insert(scenes, scene.id@, scene);
                                }
                                episode.scenes.insert(scene.id.clone(), scene);
                                proof {
                                    lemma_views_insert(episodes, episode_id@, *final(episode));
                                    lemma_views_insert(seasons, season_id@, *final(season));
                                }
                                Ok(())
                            },
                            None => {
                                proof {
                                    lemma_views_put_back(seasons, season_id@, *final(season));
                                }
                                Err(StoreError::NotFound(Missing::SeasonOrEpisode))
                            },
                        }
                    },
                    None => Err(StoreError::NotFound(Missing::SeasonOrEpisode)),
                }
            },
            None => Err(StoreError::NoActiveProject),
        }
    }

    /// Stores `graph` under its own id among the project's script graphs, in
    /// place of a graph of that id if there is one. Fails only if there is
    /// no project.
    pub fn save_script_graph(&mut self, graph: ScriptGraph) -> (r: Result<(), StoreError>)
        ensures
            r == old(self)@.save_script_graph_result(),
            final(self)@ == old(self)@.after_save_script_graph(graph@),
    {
        match &mut self.project {
            Some(project) => {
                proof {
                    lemma_views_insert(project.script_graphs@, graph.id@, graph);
                }
                project.script_graphs.insert(graph.id.clone(), graph);
                Ok(())
            },
            None => Err(StoreError::NoActiveProject),
        }
    }

    /// Removes the scene `scene_id` from the episode `episode_id` of the
    /// season `season_id`. Fails, and changes nothing, if there is no project
    /// or if the season, the episode or the scene does not exist.
    pub fn delete_scene(&mut self, season_id: String, episode_id: String, scene_id: String) -> (r:
        Result<(), StoreError>)
        ensures
            r == old(self)@.delete_scene_result(season_id@, episode_id@, scene_id@),
            final(self)@ == old(self)@.after_delete_scene(season_id@, episode_id@, scene_id@),
    {
        match &mut self.project {
            Some(project) => {
                let ghost seasons = project.seasons@;
                match project.seasons.get_mut(&season_id) {
                    Some(season) => {
                        let ghost episodes = season.episodes@;
                        match season.episodes.get_mut(&episode_id) {
                            Some(episode) => {
                                let ghost scenes = episode.scenes@;
                                let removed = episode.scenes.remove(&scene_id);
                                proof {
                                    lemma_views_remove(scenes, scene_id@);
                                    if scenes.contains_key(scene_id@) {
                                        lemma_views_insert(episodes, episode_id@, *final(episode));
                                        lemma_views_insert(seasons, season_id@, *final(season));
                                    } else {
                                        lemma_views_put_back(
                                            episodes,
                                            episode_id@,
                                            *final(episode),
                                        );
                                        lemma_views_put_back(seasons, season_id@, *final(season));
                                    }
                                }
                                match removed {
                                    Some(_) => Ok(()),
                                    None => Err(StoreError::NotFound(Missing::Item)),
                                }
                            },
                            None => {
                                proof {
                                    lemma_views_put_back(seasons, season_id@, *final(season));
                                }
                                Err(StoreError::NotFound(Missing::Item))
                            },
                        }
                    },
                    None => Err(StoreError::NotFound(Missing::Item)),
                }
            },
            None => Err(StoreError::NoActiveProject),
        }
    }

    /// Removes the episode `episode_id`, with its scenes, from the season
    /// `season_id`. Fails, and changes nothing, if there is no project or if
    /// the season or the episode does not exist.
    pub fn delete_episode(&mut self, season_id: String, episode_id: String) -> (r: Result<
        (),
        StoreError,
    >)
        ensures
            r == old(self)@.delete_episode_result(season_id@, episode_id@),
            final(self)@ == old(self)@.after_delete_episode(season_id@, episode_id@),
    {
        match &mut self.project {
            Some(project) => {
                let ghost seasons = project.seasons@;
                match project.seasons.get_mut(&season_id) {
                    Some(season) => {
                        let ghost episodes = season.episodes@;
                        let removed = season.episodes.remove(&episode_id);
                        proof {
                            lemma_views_remove(episodes, episode_id@);
                            if episodes.contains_key(episode_id@) {
                                lemma_views_insert(seasons, season_id@, *final(season));
                            } else {
                                lemma_views_put_back(seasons, season_id@, *final(season));
                            }
                        }
                        match removed {
                            Some(_) => Ok(()),
                            None => Err(StoreError::NotFound(Missing::Item)),
                        }
                    },
                    None => Err(StoreError::NotFound(Missing::Item)),
                }
            },
            None => Err(StoreError::NoActiveProject),
        }
    }

    /// Removes the season `season_id` with all it holds. Fails, and changes
    /// nothing, if there is no project or no such season.
    pub fn delete_season(&mut self, season_id: String) -> (r: Result<(), StoreError>)
        ensures
            r == old(self)@.delete_season_result(season_id@),
            final(self)@ == old(self)@.after_delete_season(season_id@),
    {
        match &mut self.project {
            Some(project) => {
                let ghost seasons = project.seasons@;
                let removed = project.seasons.remove(&season_id);
                proof {
                    lemma_views_remove(seasons, season_id@);
                }
                match removed {
                    Some(_) => Ok(()),
                    None => Err(StoreError::NotFound(Missing::Season)),
                }
            },
            None => Err(StoreError::NoActiveProject),
        }
    }

    /// The directory that holds the assets of the saved project. It need not
    /// exist yet.
    pub fn assets_dir(&self) -> (r: Result<String, StoreError>)
        ensures
            match r {
                Ok(dir) => self@.assets_dir_result() == Ok::<Seq<char>, StoreError>(dir@),
                Err(e) => self@.assets_dir_result() == Err::<Seq<char>, StoreError>(e),
            },
    {
        match &self.current_path {
            Some(path) => assets_dir(path),
            None => Err(StoreError::NoActiveProject),
        }
    }

    /// Plans the import of the file at `file_path` as an asset of the saved
    /// project: it is to be copied into the assets directory under its own
    /// file name, which is then the reference to the asset. The store does
    /// not change.
    pub fn import_file(&self, file_path: String) -> (r: Result<ImportPlan, StoreError>)
        ensures
            match r {
                Ok(plan) => self@.import_file_result(file_path@) == Ok::<
                    ImportPlanView,
                    StoreError,
                >(plan@),
                Err(e) => self@.import_file_result(file_path@) == Err::<
                    ImportPlanView,
                    StoreError,
                >(e),
            },
    {
        match &self.current_path {
            Some(path) => plan_import(path, &file_path),
            None => Err(StoreError::NoActiveProject),
        }
    }

    /// The file names of the assets of the saved project, from a listing of
    /// its assets directory; `None` stands for a directory that does not
    /// exist yet.
    pub fn get_project_assets(&self, listing: Option<Vec<AssetEntry>>) -> (r: Result<
        Vec<String>,
        StoreError,
    >)
        ensures
            match r {
                Ok(names) => self@.get_project_assets_result(listing_view(listing)) == Ok::<
                    Seq<Seq<char>>,
                    StoreError,
                >(seq_views(names@)),
                Err(e) => self@.get_project_assets_result(listing_view(listing)) == Err::<
                    Seq<Seq<char>>,
                    StoreError,
                >(e),
            },
    {
        match self.assets_dir() {
            Ok(_) => Ok(asset_names(listing)),
            Err(e) => Err(e),
        }
    }

    /// The recorded save path, if there is one.
    pub fn current_path(&self) -> (path: Option<&String>)
        ensures
            match path {
                Some(p) => self@.path == Some(p@),
                None => self@.path.is_none(),
            },
    {
        self.current_path.as_ref()
    }
}

/// The confirmation of a save to `path`.
pub fn saved_message(path: &String) -> (text: String)
    ensures
        text@ == "Project saved to "@ + path@,
{
    let mut text = "Project saved to ".to_string();
    text.append(path.as_str());
    text
}

} // verus!
