//! The authoring data of one title: a project of seasons, episodes and scenes,
//! with its characters and script graphs.
//!
//! Every type has a mathematical model, reached with `@`: strings become
//! sequences of characters, vectors become sequences and registries become
//! maps. Contracts throughout the crate speak of these models.

use crate::registry::{lemma_views_equal, lemma_views_insert, seq_views, views, Registry};
use vstd::prelude::*;

verus! {

/// A single-precision number, held by its IEEE 754 bit pattern. The store
/// carries positions and sizes without computing on them.
#[derive(Clone, Copy, Debug, PartialEq, Eq, Structural)]
pub struct Scalar {
    pub bits: u32,
}

/// The model of an optional string.
pub open spec fn text_view(text: Option<String>) -> Option<Seq<char>> {
    match text {
        Some(t) => Some(t@),
        None => None,
    }
}

/// Kind of a visual item placed on a scene.
#[derive(Clone, Copy, Debug, PartialEq, Eq, Structural)]
pub enum ElementType {
    Text,
    Image,
    Choice,
    Dialogue,
}

/// One visual or interactive item on a scene. The order of the elements of a
/// scene is significant for display.
#[derive(Debug)]
pub struct SceneElement {
    pub id: String,
    pub element_type: ElementType,
    pub x: Scalar,
    pub y: Scalar,
    pub width: Scalar,
    pub height: Scalar,
    pub content: String,
    pub z_index: i32,
    pub properties: Registry<String>,
}

/// The model of a scene element.
pub struct SceneElementView {
    pub id: Seq<char>,
    pub element_type: ElementType,
    pub x: Scalar,
    pub y: Scalar,
    pub width: Scalar,
    pub height: Scalar,
    pub content: Seq<char>,
    pub z_index: i32,
    pub properties: Map<Seq<char>, Seq<char>>,
}

impl View for SceneElement {
    type V = SceneElementView;

    open spec fn view(&self) -> SceneElementView {
        SceneElementView {
            id: self.id@,
            element_type: self.element_type,
            x: self.x,
            y: self.y,
            width: self.width,
            height: self.height,
            content: self.content@,
            z_index: self.z_index,
            properties: views(self.properties@),
        }
    }
}

impl Clone for SceneElement {
    fn clone(&self) -> (copy: Self)
        ensures
            copy@ == self@,
    {
        let copy = SceneElement {
            id: self.id.clone(),
            element_type: self.element_type,
            x: self.x,
            y: self.y,
            width: self.width,
            height: self.height,
            content: self.content.clone(),
            z_index: self.z_index,
            properties: self.properties.clone(),
        };
        proof {
            lemma_views_equal(self.properties@, copy.properties@);
        }
        copy
    }
}

/// A single screen of authored content.
#[derive(Debug)]
pub struct Scene {
    pub id: String,
    pub name: String,
    pub background: Option<String>,
    pub elements: Vec<SceneElement>,
}

/// The model of a scene.
pub struct SceneView {
    pub id: Seq<char>,
    pub name: Seq<char>,
    pub background: Option<Seq<char>>,
    pub elements: Seq<SceneElementView>,
}

impl View for Scene {
    type V = SceneView;

    open spec fn view(&self) -> SceneView {
        SceneView {
            id: self.id@,
            name: self.name@,
            background: text_view(self.background),
            elements: seq_views(self.elements@),
        }
    }
}

impl Clone for Scene {
    fn clone(&self) -> (copy: Self)
        ensures
            copy@ == self@,
    {
        let copy = Scene {
            id: self.id.clone(),
            name: self.name.clone(),
            background: self.background.clone(),
            elements: self.elements.clone(),
        };
        proof {
            assert(seq_views(copy.elements@) =~= seq_views(self.elements@));
        }
        copy
    }
}

/// A named group of scenes.
#[derive(Debug)]
pub struct Episode {
    pub id: String,
    pub name: String,
    pub scenes: Registry<Scene>,
}

/// The model of an episode.
pub struct EpisodeView {
    pub id: Seq<char>,
    pub name: Seq<char>,
    pub scenes: Map<Seq<char>, SceneView>,
}

impl View for Episode {
    type V = EpisodeView;

    open spec fn view(&self) -> EpisodeView {
        EpisodeView { id: self.id@, name: self.name@, scenes: views(self.scenes@) }
    }
}

impl Clone for Episode {
    fn clone(&self) -> (copy: Self)
        ensures
            copy@ == self@,
    {
        let copy = Episode {
            id: self.id.clone(),
            name: self.name.clone(),
            scenes: self.scenes.clone(),
        };
        proof {
            lemma_views_equal(self.scenes@, copy.scenes@);
        }
        copy
    }
}

/// A named group of episodes.
#[derive(Debug)]
pub struct Season {
    pub id: String,
    pub name: String,
    pub episodes: Registry<Episode>,
}

/// The model of a season.
pub struct SeasonView {
    pub id: Seq<char>,
    pub name: Seq<char>,
    pub episodes: Map<Seq<char>, EpisodeView>,
}

impl View for Season {
    type V = SeasonView;

    open spec fn view(&self) -> SeasonView {
        SeasonView { id: self.id@, name: self.name@, episodes: views(self.episodes@) }
    }
}

impl Clone for Season {
    fn clone(&self) -> (copy: Self)
        ensures
            copy@ == self@,
    {
        let copy = Season {
            id: self.id.clone(),
            name: self.name.clone(),
            episodes: self.episodes.clone(),
        };
        proof {
            lemma_views_equal(self.episodes@, copy.episodes@);
        }
        copy
    }
}

/// A member of the cast. Elements and nodes refer to characters by id; the
/// store does not check such references.
#[derive(Debug)]
pub struct Character {
    pub id: String,
    pub name: String,
    pub color: String,
    pub default_sprite: Option<String>,
}

/// The model of a character.
pub struct CharacterView {
    pub id: Seq<char>,
    pub name: Seq<char>,
    pub color: Seq<char>,
    pub default_sprite: Option<Seq<char>>,
}

impl View for Character {
    type V = CharacterView;

    open spec fn view(&self) -> CharacterView {
        CharacterView {
            id: self.id@,
            name: self.name@,
            color: self.color@,
            default_sprite: text_view(self.default_sprite),
        }
    }
}

impl Clone for Character {
    fn clone(&self) -> (copy: Self)
        ensures
            copy@ == self@,
    {
        Character {
            id: self.id.clone(),
            name: self.name.clone(),
            color: self.color.clone(),
            default_sprite: self.default_sprite.clone(),
        }
    }
}

/// Kind of a node of a script graph.
#[derive(Clone, Copy, Debug, PartialEq, Eq, Structural)]
pub enum NodeType {
    Start,
    End,
    Text,
    Choice,
    SetVariable,
    CheckVariable,
    ChangeScene,
    Music,
    Character,
    SceneNode,
}

/// A node of a script graph. What `data` holds depends on the kind of node
/// and is passed through as it is.
#[derive(Debug)]
pub struct ScriptNode {
    pub id: String,
    pub label: Option<String>,
    pub node_type: NodeType,
    pub x: Scalar,
    pub y: Scalar,
    pub data: serde_json::Value,
}

/// The model of a script node; the payload stands for itself.
pub struct ScriptNodeView {
    pub id: Seq<char>,
    pub label: Option<Seq<char>>,
    pub node_type: NodeType,
    pub x: Scalar,
    pub y: Scalar,
    pub data: serde_json::Value,
}

impl View for ScriptNode {
    type V = ScriptNodeView;

    open spec fn view(&self) -> ScriptNodeView {
        ScriptNodeView {
            id: self.id@,
            label: text_view(self.label),
            node_type: self.node_type,
            x: self.x,
            y: self.y,
            data: self.data,
        }
    }
}

impl Clone for ScriptNode {
    fn clone(&self) -> (copy: Self)
        ensures
            copy@ == self@,
    {
        ScriptNode {
            id: self.id.clone(),
            label: self.label.clone(),
            node_type: self.node_type,
            x: self.x,
            y: self.y,
            data: self.data.clone(),
        }
    }
}

/// A link from a port of one node to a port of another node of the same
/// graph. The store does not check that the nodes and ports exist.
#[derive(Debug)]
pub struct ScriptConnection {
    pub id: String,
    pub from_node: String,
    pub from_port: String,
    pub to_node: String,
    pub to_port: String,
}

/// The model of a script connection.
pub struct ScriptConnectionView {
    pub id: Seq<char>,
    pub from_node: Seq<char>,
    pub from_port: Seq<char>,
    pub to_node: Seq<char>,
    pub to_port: Seq<char>,
}

impl View for ScriptConnection {
    type V = ScriptConnectionView;

    open spec fn view(&self) -> ScriptConnectionView {
        ScriptConnectionView {
            id: self.id@,
            from_node: self.from_node@,
            from_port: self.from_port@,
            to_node: self.to_node@,
            to_port: self.to_port@,
        }
    }
}

impl Clone for ScriptConnection {
    fn clone(&self) -> (copy: Self)
        ensures
            copy@ == self@,
    {
        ScriptConnection {
            id: self.id.clone(),
            from_node: self.from_node.clone(),
            from_port: self.from_port.clone(),
            to_node: self.to_node.clone(),
            to_port: self.to_port.clone(),
        }
    }
}

/// Branching narrative logic as nodes and the connections between them.
#[derive(Debug)]
pub struct ScriptGraph {
    pub id: String,
    pub name: String,
    pub nodes: Vec<ScriptNode>,
    pub connections: Vec<ScriptConnection>,
}

/// The model of a script graph.
pub struct ScriptGraphView {
    pub id: Seq<char>,
    pub name: Seq<char>,
    pub nodes: Seq<ScriptNodeView>,
    pub connections: Seq<ScriptConnectionView>,
}

impl View for ScriptGraph {
    type V = ScriptGraphView;

    open spec fn view(&self) -> ScriptGraphView {
        ScriptGraphView {
            id: self.id@,
            name: self.name@,
            nodes: seq_views(self.nodes@),
            connections: seq_views(self.connections@),
        }
    }
}

impl Clone for ScriptGraph {
    fn clone(&self) -> (copy: Self)
        ensures
            copy@ == self@,
    {
        let copy = ScriptGraph {
            id: self.id.clone(),
            name: self.name.clone(),
            nodes: self.nodes.clone(),
            connections: self.connections.clone(),
        };
        proof {
            assert(seq_views(copy.nodes@) =~= seq_views(self.nodes@));
            assert(seq_views(copy.connections@) =~= seq_views(self.connections@));
        }
        copy
    }
}

/// The root document of one title, with the cursors that say which season,
/// episode and scene are open in the editor.
#[derive(Debug)]
pub struct Project {
    pub name: String,
    pub width: u32,
    pub height: u32,
    pub seasons: Registry<Season>,
    pub characters: Registry<Character>,
    pub script_graphs: Registry<ScriptGraph>,
    pub active_season_id: Option<String>,
    pub active_episode_id: Option<String>,
    pub active_scene_id: Option<String>,
}

/// The model of a project.
pub struct ProjectView {
    pub name: Seq<char>,
    pub width: u32,
    pub height: u32,
    pub seasons: Map<Seq<char>, SeasonView>,
    pub characters: Map<Seq<char>, CharacterView>,
    pub script_graphs: Map<Seq<char>, ScriptGraphView>,
    pub active_season_id: Option<Seq<char>>,
    pub active_episode_id: Option<Seq<char>>,
    pub active_scene_id: Option<Seq<char>>,
}

impl View for Project {
    type V = ProjectView;

    open spec fn view(&self) -> ProjectView {
        ProjectView {
            name: self.name@,
            width: self.width,
            height: self.height,
            seasons: views(self.seasons@),
            characters: views(self.characters@),
            script_graphs: views(self.script_graphs@),
            active_season_id: text_view(self.active_season_id),
            active_episode_id: text_view(self.active_episode_id),
            active_scene_id: text_view(self.active_scene_id),
        }
    }
}

impl ProjectView {
    /// Whether `season_id` names a season that has an episode `episode_id`.
    pub open spec fn has_episode(self, season_id: Seq<char>, episode_id: Seq<char>) -> bool {
        self.seasons.contains_key(season_id) && self.seasons[season_id].episodes.contains_key(
            episode_id,
        )
    }

    /// Whether that episode exists and has a scene `scene_id`.
    pub open spec fn has_scene(
        self,
        season_id: Seq<char>,
        episode_id: Seq<char>,
        scene_id: Seq<char>,
    ) -> bool {
        self.has_episode(season_id, episode_id)
            && self.seasons[season_id].episodes[episode_id].scenes.contains_key(scene_id)
    }

    /// This project with `episode` stored under `episode_id` in the season
    /// `season_id`; seasons other than that one are as they were.
    pub open spec fn with_episode(
        self,
        season_id: Seq<char>,
        episode_id: Seq<char>,
        episode: EpisodeView,
    ) -> ProjectView {
        let season = self.seasons[season_id];
        ProjectView {
            seasons: self.seasons.insert(
                season_id,
                SeasonView { episodes: season.episodes.insert(episode_id, episode), ..season },
            ),
            ..self
        }
    }

    /// This project with `scene` stored under its own id in the given episode:
    /// added if the episode had no scene of that id, put in its place if it had.
    pub open spec fn with_scene(
        self,
        season_id: Seq<char>,
        episode_id: Seq<char>,
        scene: SceneView,
    ) -> ProjectView {
        let episode = self.seasons[season_id].episodes[episode_id];
        self.with_episode(
            season_id,
            episode_id,
            EpisodeView { scenes: episode.scenes.insert(scene.id, scene), ..episode },
        )
    }

    /// This project without the scene `scene_id` of the given episode.
    pub open spec fn without_scene(
        self,
        season_id: Seq<char>,
        episode_id: Seq<char>,
        scene_id: Seq<char>,
    ) -> ProjectView {
        let episode = self.seasons[season_id].episodes[episode_id];
        self.with_episode(
            season_id,
            episode_id,
            EpisodeView { scenes: episode.scenes.remove(scene_id), ..episode },
        )
    }

    /// This project without the episode `episode_id` of the season
    /// `season_id`, and so without the scenes of that episode.
    pub open spec fn without_episode(
        self,
        season_id: Seq<char>,
        episode_id: Seq<char>,
    ) -> ProjectView {
        let season = self.seasons[season_id];
        ProjectView {
            seasons: self.seasons.insert(
                season_id,
                SeasonView { episodes: season.episodes.remove(episode_id), ..season },
            ),
            ..self
        }
    }

    /// This project without the season `season_id`, and so without all that
    /// the season held.
    pub open spec fn without_season(self, season_id: Seq<char>) -> ProjectView {
        ProjectView { seasons: self.seasons.remove(season_id), ..self }
    }

    /// This project with `graph` stored under its own id: added if there was
    /// no graph of that id, put in its place if there was.
    pub open spec fn with_script_graph(self, graph: ScriptGraphView) -> ProjectView {
        ProjectView { script_graphs: self.script_graphs.insert(graph.id, graph), ..self }
    }
}

impl Clone for Project {
    fn clone(&self) -> (copy: Self)
        ensures
            copy@ == self@,
    {
        let copy = Project {
            name: self.name.clone(),
            width: self.width,
            height: self.height,
            seasons: self.seasons.clone(),
            characters: self.characters.clone(),
            script_graphs: self.script_graphs.clone(),
            active_season_id: self.active_season_id.clone(),
            active_episode_id: self.active_episode_id.clone(),
            active_scene_id: self.active_scene_id.clone(),
        };
        proof {
            lemma_views_equal(self.seasons@, copy.seasons@);
            lemma_views_equal(self.characters@, copy.characters@);
            lemma_views_equal(self.script_graphs@, copy.script_graphs@);
        }
        copy
    }
}

/// The scene that a new project starts with.
pub open spec fn seed_scene() -> SceneView {
    SceneView { id: "scene_1"@, name: "Scene 1"@, background: None, elements: Seq::empty() }
}

/// The episode that a new project starts with: it holds the seed scene.
pub open spec fn seed_episode() -> EpisodeView {
    EpisodeView {
        id: "ep_1"@,
        name: "Episode 1"@,
        scenes: Map::<Seq<char>, SceneView>::empty().insert("scene_1"@, seed_scene()),
    }
}

/// The season that a new project starts with: it holds the seed episode.
pub open spec fn seed_season() -> SeasonView {
    SeasonView {
        id: "s_1"@,
        name: "Season 1"@,
        episodes: Map::<Seq<char>, EpisodeView>::empty().insert("ep_1"@, seed_episode()),
    }
}

/// A new project: a 1920 by 1080 canvas, one season with one episode with one
/// empty scene, all three selected, no characters and no script graphs.
pub open spec fn seed_project() -> ProjectView {
    ProjectView {
        name: "New Project"@,
        width: 1920,
        height: 1080,
        seasons: Map::<Seq<char>, SeasonView>::empty().insert("s_1"@, seed_season()),
        characters: Map::empty(),
        script_graphs: Map::empty(),
        active_season_id: Some("s_1"@),
        active_episode_id: Some("ep_1"@),
        active_scene_id: Some("scene_1"@),
    }
}

impl Default for Project {
    fn default() -> (project: Self)
        ensures
            project@ == seed_project(),
    {
        let mut seasons: Registry<Season> = Registry::new();
        let mut episodes: Registry<Episode> = Registry::new();
        let mut scenes: Registry<Scene> = Registry::new();

        let scene_id = "scene_1".to_string();
        let scene = Scene {
            id: scene_id.clone(),
            name: "Scene 1".to_string(),
            background: None,
            elements: Vec::new(),
        };
        proof {
            assert(scene@.elements =~= Seq::empty());
            lemma_views_insert(scenes@, scene_id@, scene);
            assert(views(scenes@) =~= Map::<Seq<char>, SceneView>::empty());
        }
        scenes.insert(scene_id.clone(), scene);

        let episode_id = "ep_1".to_string();
        let episode = Episode { id: episode_id.clone(), name: "Episode 1".to_string(), scenes };
        proof {
            lemma_views_insert(episodes@, episode_id@, episode);
            assert(views(episodes@) =~= Map::<Seq<char>, EpisodeView>::empty());
        }
        episodes.insert(episode_id.clone(), episode);

        let season_id = "s_1".to_string();
        let season = Season { id: season_id.clone(), name: "Season 1".to_string(), episodes };
        proof {
            lemma_views_insert(seasons@, season_id@, season);
            assert(views(seasons@) =~= Map::<Seq<char>, SeasonView>::empty());
        }
        seasons.insert(season_id.clone(), season);

        let project = Project {
            name: "New Project".to_string(),
            width: 1920,
            height: 1080,
            seasons,
            characters: Registry::new(),
            script_graphs: Registry::new(),
            active_season_id: Some(season_id),
            active_episode_id: Some(episode_id),
            active_scene_id: Some(scene_id),
        };
        proof {
            assert(project@.characters =~= Map::<Seq<char>, CharacterView>::empty());
            assert(project@.script_graphs =~= Map::<Seq<char>, ScriptGraphView>::empty());
        }
        project
    }
}

} // verus!
