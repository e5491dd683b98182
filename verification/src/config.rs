//! The registry: the editor, the locations that are scanned for projects, the
//! projects that were registered one by one, and the projects that are
//! switched off.

use crate::paths::{
    is_first_match, lemma_position, lemma_position_found, no_match, paths_equal, position,
    same_path,
};
use crate::text::{option_text, owned, owned_option};
use vstd::prelude::*;

verus! {

/// Which template an icon is drawn from.
#[derive(Clone, Copy, Debug, PartialEq, Eq, Structural)]
pub enum IconStyle {
    /// The editor's own icon.
    Default,
    Cargo,
}

impl Default for IconStyle {
    fn default() -> (r: Self)
        ensures
            r == IconStyle::Default,
    {
        IconStyle::Default
    }
}

impl IconStyle {
    /// The name of the style, as it is written in file names.
    pub open spec fn name(self) -> Seq<char> {
        match self {
            IconStyle::Default => "Default"@,
            IconStyle::Cargo => "Cargo"@,
        }
    }

    /// The name of the style: the name of the variant.
    pub fn as_str(&self) -> (r: &'static str)
        ensures
            r@ == self.name(),
    {
        match self {
            IconStyle::Default => "Default",
            IconStyle::Cargo => "Cargo",
        }
    }
}

/// The style a location or project gets when none is asked for.
pub open spec fn style_or_default(style: Option<IconStyle>) -> IconStyle {
    match style {
        Some(s) => s,
        None => IconStyle::Default,
    }
}

/// A directory whose subdirectories are projects.
#[derive(Debug, PartialEq, Eq)]
pub struct ProjectLocation {
    pub path: String,
    /// A label that follows the name of each project found here.
    pub name: Option<String>,
    pub icon_style: IconStyle,
    pub description: Option<String>,
}

/// What a [`ProjectLocation`] holds.
pub struct ProjectLocationView {
    pub path: Seq<char>,
    pub name: Option<Seq<char>>,
    pub icon_style: IconStyle,
    pub description: Option<Seq<char>>,
}

impl View for ProjectLocation {
    type V = ProjectLocationView;

    open spec fn view(&self) -> ProjectLocationView {
        ProjectLocationView {
            path: self.path@,
            name: option_text(self.name),
            icon_style: self.icon_style,
            description: option_text(self.description),
        }
    }
}

impl Clone for ProjectLocation {
    fn clone(&self) -> (r: Self)
        ensures
            r@ == self@,
    {
        ProjectLocation {
            path: self.path.clone(),
            name: owned_option(&self.name),
            icon_style: self.icon_style,
            description: owned_option(&self.description),
        }
    }
}

/// One project: a directory that gets a shortcut of its own.
#[derive(Debug, PartialEq, Eq)]
pub struct Project {
    pub path: String,
    /// The display name, which also names the shortcut.
    pub name: String,
    /// The icon that was generated for the project, if one was.
    pub icon: Option<String>,
    pub description: Option<String>,
}

/// What a [`Project`] holds.
pub struct ProjectView {
    pub path: Seq<char>,
    pub name: Seq<char>,
    pub icon: Option<Seq<char>>,
    pub description: Option<Seq<char>>,
}

impl View for Project {
    type V = ProjectView;

    open spec fn view(&self) -> ProjectView {
        ProjectView {
            path: self.path@,
            name: self.name@,
            icon: option_text(self.icon),
            description: option_text(self.description),
        }
    }
}

impl Clone for Project {
    fn clone(&self) -> (r: Self)
        ensures
            r@ == self@,
    {
        Project {
            path: self.path.clone(),
            name: self.name.clone(),
            icon: owned_option(&self.icon),
            description: owned_option(&self.description),
        }
    }
}

impl Default for Project {
    fn default() -> (r: Self)
        ensures
            r@ == (ProjectView { path: Seq::empty(), name: Seq::empty(), icon: None, description: None }),
    {
        Project { path: String::new(), name: String::new(), icon: None, description: None }
    }
}

/// The kind of system the program runs on, as far as the registry cares.
#[derive(Clone, Copy, Debug, PartialEq, Eq, Structural)]
pub enum Platform {
    Windows,
    Other,
}

/// Where the editor is taken to be when it is not found on the search path.
pub open spec fn fallback_editor_path(platform: Platform) -> Seq<char> {
    match platform {
        Platform::Windows => "C:\\Program Files\\Microsoft VS Code\\Code.exe"@,
        Platform::Other => "/usr/bin/code"@,
    }
}

/// The editor of a new registry: the one that was found on the search path,
/// or the usual place on this platform.
pub fn default_vs_code_path(found: Option<String>, platform: Platform) -> (r: String)
    ensures
        r@ == match found {
            Some(path) => path@,
            None => fallback_editor_path(platform),
        },
{
    match found {
        Some(path) => path,
        None => match platform {
            Platform::Windows => owned("C:\\Program Files\\Microsoft VS Code\\Code.exe"),
            Platform::Other => owned("/usr/bin/code"),
        },
    }
}

/// The registry as it is kept from one run to the next.
#[derive(Debug, PartialEq, Eq)]
pub struct Config {
    /// The editor that the shortcuts start.
    pub editor_path: String,
    pub project_locations: Vec<ProjectLocation>,
    /// Projects that are switched off. They are kept and written back; nothing
    /// else reads them.
    pub disabled_projects: Vec<String>,
    pub projects: Vec<Project>,
}

/// What a [`Config`] holds.
pub struct ConfigView {
    pub editor_path: Seq<char>,
    pub project_locations: Seq<ProjectLocationView>,
    pub disabled_projects: Seq<Seq<char>>,
    pub projects: Seq<ProjectView>,
}

/// What each project of a list holds.
pub open spec fn project_views(projects: Seq<Project>) -> Seq<ProjectView> {
    projects.map_values(|p: Project| p@)
}

/// What each location of a list holds.
pub open spec fn location_views(locations: Seq<ProjectLocation>) -> Seq<ProjectLocationView> {
    locations.map_values(|l: ProjectLocation| l@)
}

/// The characters of each string of a list.
pub open spec fn text_views(texts: Seq<String>) -> Seq<Seq<char>> {
    texts.map_values(|t: String| t@)
}

/// The paths of a list of projects.
pub open spec fn project_paths(projects: Seq<ProjectView>) -> Seq<Seq<char>> {
    projects.map_values(|p: ProjectView| p.path)
}

/// The paths of a list of locations.
pub open spec fn location_paths(locations: Seq<ProjectLocationView>) -> Seq<Seq<char>> {
    locations.map_values(|l: ProjectLocationView| l.path)
}

impl View for Config {
    type V = ConfigView;

    open spec fn view(&self) -> ConfigView {
        ConfigView {
            editor_path: self.editor_path@,
            project_locations: location_views(self.project_locations@),
            disabled_projects: text_views(self.disabled_projects@),
            projects: project_views(self.projects@),
        }
    }
}

/// A registered project after it was registered again: the new name, the new
/// description if one was given, the rest as it was.
pub open spec fn renamed_project(
    old: ProjectView,
    name: Seq<char>,
    description: Option<Seq<char>>,
) -> ProjectView {
    ProjectView {
        path: old.path,
        name,
        icon: old.icon,
        description: if description is Some {
            description
        } else {
            old.description
        },
    }
}

/// A project that is registered for the first time. It has no icon yet.
pub open spec fn fresh_project(
    path: Seq<char>,
    name: Seq<char>,
    description: Option<Seq<char>>,
) -> ProjectView {
    ProjectView { path, name, icon: None, description }
}

/// The project that registering leaves in the list: the entry at `slot`
/// renamed, or a fresh one.
pub open spec fn project_entry(
    projects: Seq<ProjectView>,
    slot: Option<int>,
    path: Seq<char>,
    name: Seq<char>,
    description: Option<Seq<char>>,
) -> ProjectView {
    match slot {
        Some(i) => renamed_project(projects[i], name, description),
        None => fresh_project(path, name, description),
    }
}

/// The list after a project was put in: in place at `slot`, or at the end.
pub open spec fn put_project(
    projects: Seq<ProjectView>,
    slot: Option<int>,
    path: Seq<char>,
    name: Seq<char>,
    description: Option<Seq<char>>,
) -> Seq<ProjectView> {
    let entry = project_entry(projects, slot, path, name, description);
    match slot {
        Some(i) => projects.update(i, entry),
        None => projects.push(entry),
    }
}

/// The list after a project was registered: the first entry with the same
/// path is renamed in place; if there is none, a fresh entry follows the
/// others.
pub open spec fn register_project(
    projects: Seq<ProjectView>,
    path: Seq<char>,
    name: Seq<char>,
    description: Option<Seq<char>>,
) -> Seq<ProjectView> {
    put_project(projects, position(project_paths(projects), path), path, name, description)
}

/// A registered location after it was registered again: the new label, and
/// the style and description that were given; what was not given stays.
pub open spec fn relabelled_location(
    old: ProjectLocationView,
    name: Seq<char>,
    icon_style: Option<IconStyle>,
    description: Option<Seq<char>>,
) -> ProjectLocationView {
    ProjectLocationView {
        path: old.path,
        name: Some(name),
        icon_style: match icon_style {
            Some(s) => s,
            None => old.icon_style,
        },
        description: if description is Some {
            description
        } else {
            old.description
        },
    }
}

/// A location that is registered for the first time.
pub open spec fn fresh_location(
    path: Seq<char>,
    name: Seq<char>,
    icon_style: Option<IconStyle>,
    description: Option<Seq<char>>,
) -> ProjectLocationView {
    ProjectLocationView {
        path,
        name: Some(name),
        icon_style: style_or_default(icon_style),
        description,
    }
}

/// The list after a location was put in: in place at `slot`, or at the end.
pub open spec fn put_location(
    locations: Seq<ProjectLocationView>,
    slot: Option<int>,
    path: Seq<char>,
    name: Seq<char>,
    icon_style: Option<IconStyle>,
    description: Option<Seq<char>>,
) -> Seq<ProjectLocationView> {
    match slot {
        Some(i) => locations.update(
            i,
            relabelled_location(locations[i], name, icon_style, description),
        ),
        None => locations.push(fresh_location(path, name, icon_style, description)),
    }
}

/// The list after a location was registered: the first entry with the same
/// path is relabelled in place; if there is none, a fresh entry follows the
/// others.
pub open spec fn register_location(
    locations: Seq<ProjectLocationView>,
    path: Seq<char>,
    name: Seq<char>,
    icon_style: Option<IconStyle>,
    description: Option<Seq<char>>,
) -> Seq<ProjectLocationView> {
    put_location(
        locations,
        position(location_paths(locations), path),
        path,
        name,
        icon_style,
        description,
    )
}

/// No two entries of `paths` are the same path.
pub open spec fn distinct_paths(paths: Seq<Seq<char>>) -> bool {
    forall|i: int, j: int|
        0 <= i < j < paths.len() ==> !same_path(#[trigger] paths[i], #[trigger] paths[j])
}

/// An index of a list, as the number it is.
pub open spec fn slot_index(slot: Option<usize>) -> Option<int> {
    match slot {
        Some(i) => Some(i as int),
        None => None,
    }
}

impl Config {
    /// A registry that holds the editor and nothing else.
    pub fn with_editor(editor_path: String) -> (r: Config)
        ensures
            r@ == (ConfigView {
                editor_path: editor_path@,
                project_locations: Seq::empty(),
                disabled_projects: Seq::empty(),
                projects: Seq::empty(),
            }),
    {
        let r = Config {
            editor_path,
            project_locations: Vec::new(),
            disabled_projects: Vec::new(),
            projects: Vec::new(),
        };
        assert(r@.project_locations =~= Seq::empty());
        assert(r@.disabled_projects =~= Seq::empty());
        assert(r@.projects =~= Seq::empty());
        r
    }

    /// Where the project with this path is registered.
    pub fn find_project(&self, path: &str) -> (r: Option<usize>)
        ensures
            slot_index(r) == position(project_paths(self@.projects), path@),
            r matches Some(i) ==> i < self.projects.len(),
    {
        let ghost paths = project_paths(self@.projects);
        let mut i: usize = 0;
        while i < self.projects.len()
            invariant
                i <= self.projects.len(),
                paths == project_paths(self@.projects),
                forall|j: int| 0 <= j < i ==> !same_path(#[trigger] paths[j], path@),
            decreases self.projects.len() - i,
        {
            if paths_equal(self.projects[i].path.as_str(), path) {
                proof {
                    lemma_position_found(paths, path@, i as int);
                }
                return Some(i);
            }
            i += 1;
        }
        None
    }

    /// Puts a project into the list: with `slot`, the entry there gets the
    /// name, and the description if one is given; without, a new entry for
    /// `path` follows the others. Returns a copy of the entry.
    pub fn put_project(
        &mut self,
        slot: Option<usize>,
        path: String,
        name: String,
        description: Option<String>,
    ) -> (r: Project)
        requires
            slot matches Some(i) ==> i < old(self).projects.len(),
        ensures
            final(self)@.projects == put_project(
                old(self)@.projects,
                slot_index(slot),
                path@,
                name@,
                option_text(description),
            ),
            r@ == project_entry(
                old(self)@.projects,
                slot_index(slot),
                path@,
                name@,
                option_text(description),
            ),
            final(self)@.editor_path == old(self)@.editor_path,
            final(self)@.project_locations == old(self)@.project_locations,
            final(self)@.disabled_projects == old(self)@.disabled_projects,
    {
        match slot {
            Some(i) => {
                let entry = Project {
                    path: self.projects[i].path.clone(),
                    name,
                    icon: owned_option(&self.projects[i].icon),
                    description: match description {
                        Some(d) => Some(d),
                        None => owned_option(&self.projects[i].description),
                    },
                };
                let copy = entry.clone();
                self.projects.set(i, entry);
                copy
            },
            None => {
                let entry = Project { path, name, icon: None, description };
                let copy = entry.clone();
                self.projects.push(entry);
                copy
            },
        }
    }

    /// Registers a project. A project is known by its path: where one with
    /// the same path is registered already, that entry is renamed and no entry
    /// is added. Returns a copy of the entry.
    pub fn register_project(
        &mut self,
        path: String,
        name: String,
        description: Option<String>,
    ) -> (r: Project)
        ensures
            final(self)@.projects == register_project(
                old(self)@.projects,
                path@,
                name@,
                option_text(description),
            ),
            r@ == project_entry(
                old(self)@.projects,
                position(project_paths(old(self)@.projects), path@),
                path@,
                name@,
                option_text(description),
            ),
            distinct_paths(project_paths(old(self)@.projects)) ==> distinct_paths(
                project_paths(final(self)@.projects),
            ),
            final(self)@.editor_path == old(self)@.editor_path,
            final(self)@.project_locations == old(self)@.project_locations,
            final(self)@.disabled_projects == old(self)@.disabled_projects,
    {
        proof {
            if distinct_paths(project_paths(self@.projects)) {
                law_register_project_keeps_paths_distinct(
                    self@.projects,
                    path@,
                    name@,
                    option_text(description),
                );
            }
        }
        let slot = self.find_project(path.as_str());
        self.put_project(slot, path, name, description)
    }

    /// Where the location with this path is registered.
    pub fn find_location(&self, path: &str) -> (r: Option<usize>)
        ensures
            slot_index(r) == position(location_paths(self@.project_locations), path@),
            r matches Some(i) ==> i < self.project_locations.len(),
    {
        let ghost paths = location_paths(self@.project_locations);
        let mut i: usize = 0;
        while i < self.project_locations.len()
            invariant
                i <= self.project_locations.len(),
                paths == location_paths(self@.project_locations),
                forall|j: int| 0 <= j < i ==> !same_path(#[trigger] paths[j], path@),
            decreases self.project_locations.len() - i,
        {
            if paths_equal(self.project_locations[i].path.as_str(), path) {
                proof {
                    lemma_position_found(paths, path@, i as int);
                }
                return Some(i);
            }
            i += 1;
        }
        None
    }

    /// Puts a location into the list: with `slot`, the entry there gets the
    /// label, and the style and the description if they are given; without, a
    /// new entry for `path` follows the others.
    pub fn put_location(
        &mut self,
        slot: Option<usize>,
        path: String,
        name: String,
        icon_style: Option<IconStyle>,
        description: Option<String>,
    )
        requires
            slot matches Some(i) ==> i < old(self).project_locations.len(),
        ensures
            final(self)@.project_locations == put_location(
                old(self)@.project_locations,
                slot_index(slot),
                path@,
                name@,
                icon_style,
                option_text(description),
            ),
            final(self)@.editor_path == old(self)@.editor_path,
            final(self)@.disabled_projects == old(self)@.disabled_projects,
            final(self)@.projects == old(self)@.projects,
    {
        match slot {
            Some(i) => {
                let entry = ProjectLocation {
                    path: self.project_locations[i].path.clone(),
                    name: Some(name),
                    icon_style: match icon_style {
                        Some(s) => s,
                        None => self.project_locations[i].icon_style,
                    },
                    description: match description {
                        Some(d) => Some(d),
                        None => owned_option(&self.project_locations[i].description),
                    },
                };
                self.project_locations.set(i, entry);
            },
            None => {
                let entry = ProjectLocation {
                    path,
                    name: Some(name),
                    icon_style: match icon_style {
                        Some(s) => s,
                        None => IconStyle::default(),
                    },
                    description,
                };
                self.project_locations.push(entry);
            },
        }
    }

    /// Registers a location. A location is known by its path: where one with
    /// the same path is registered already, that entry is relabelled and no
    /// entry is added.
    pub fn register_location(
        &mut self,
        path: String,
        name: String,
        icon_style: Option<IconStyle>,
        description: Option<String>,
    )
        ensures
            final(self)@.project_locations == register_location(
                old(self)@.project_locations,
                path@,
                name@,
                icon_style,
                option_text(description),
            ),
            distinct_paths(location_paths(old(self)@.project_locations)) ==> distinct_paths(
                location_paths(final(self)@.project_locations),
            ),
            final(self)@.editor_path == old(self)@.editor_path,
            final(self)@.disabled_projects == old(self)@.disabled_projects,
            final(self)@.projects == old(self)@.projects,
    {
        proof {
            if distinct_paths(location_paths(self@.project_locations)) {
                law_register_location_keeps_paths_distinct(
                    self@.project_locations,
                    path@,
                    name@,
                    icon_style,
                    option_text(description),
                );
            }
        }
        let slot = self.find_location(path.as_str());
        self.put_location(slot, path, name, icon_style, description)
    }

    /// Switches a project off: its path follows the others in the list of
    /// disabled projects.
    pub fn disable_project(&mut self, path: String)
        ensures
            final(self)@.disabled_projects == old(self)@.disabled_projects.push(path@),
            final(self)@.editor_path == old(self)@.editor_path,
            final(self)@.project_locations == old(self)@.project_locations,
            final(self)@.projects == old(self)@.projects,
    {
        self.disabled_projects.push(path);
    }

    /// Sets the editor.
    pub fn set_editor_path(&mut self, path: String)
        ensures
            final(self)@.editor_path == path@,
            final(self)@.project_locations == old(self)@.project_locations,
            final(self)@.disabled_projects == old(self)@.disabled_projects,
            final(self)@.projects == old(self)@.projects,
    {
        self.editor_path = path;
    }
}

/// Registering a project whose path is registered already adds no entry.
/// The first entry with that path gets the new name, and the new description
/// if one is given; its path and icon stay, and so does every other entry.
pub proof fn law_register_known_project(
    projects: Seq<ProjectView>,
    path: Seq<char>,
    name: Seq<char>,
    description: Option<Seq<char>>,
)
    requires
        !no_match(project_paths(projects), path),
    ensures
        position(project_paths(projects), path) is Some,
        ({
            let i = position(project_paths(projects), path)->0;
            let after = register_project(projects, path, name, description);
            &&& is_first_match(project_paths(projects), path, i)
            &&& after.len() == projects.len()
            &&& after[i].path == projects[i].path
            &&& after[i].icon == projects[i].icon
            &&& after[i].name == name
            &&& after[i].description == if description is Some {
                description
            } else {
                projects[i].description
            }
            &&& forall|k: int| 0 <= k < projects.len() && k != i ==> after[k] == projects[k]
            &&& project_paths(after) == project_paths(projects)
        }),
{
    lemma_position(project_paths(projects), path);
}

/// Registering a project whose path is not registered yet adds one entry,
/// after the others, and changes none of them.
pub proof fn law_register_new_project(
    projects: Seq<ProjectView>,
    path: Seq<char>,
    name: Seq<char>,
    description: Option<Seq<char>>,
)
    requires
        no_match(project_paths(projects), path),
    ensures
        register_project(projects, path, name, description) == projects.push(
            fresh_project(path, name, description),
        ),
{
}

/// Registering the same path twice in a row leaves one entry for it: the
/// second registration adds nothing and moves nothing, and the entry carries
/// the second name.
pub proof fn law_register_project_twice(
    projects: Seq<ProjectView>,
    path: Seq<char>,
    name: Seq<char>,
    description: Option<Seq<char>>,
    name_again: Seq<char>,
    description_again: Option<Seq<char>>,
)
    ensures
        ({
            let once = register_project(projects, path, name, description);
            let twice = register_project(once, path, name_again, description_again);
            &&& twice.len() == once.len()
            &&& project_paths(twice) == project_paths(once)
            &&& position(project_paths(once), path) is Some
            &&& position(project_paths(twice), path) == position(project_paths(once), path)
            &&& twice[position(project_paths(once), path)->0].name == name_again
        }),
{
    let paths = project_paths(projects);
    let once = register_project(projects, path, name, description);
    lemma_position(paths, path);
    match position(paths, path) {
        Some(i) => {
            assert(project_paths(once) =~= paths);
        },
        None => {
            assert(project_paths(once) =~= paths.push(path));
            lemma_position_found(project_paths(once), path, paths.len() as int);
        },
    }
    law_register_known_project(once, path, name_again, description_again);
}

/// Where no two registered projects have the same path, registering a
/// project keeps it so.
pub proof fn law_register_project_keeps_paths_distinct(
    projects: Seq<ProjectView>,
    path: Seq<char>,
    name: Seq<char>,
    description: Option<Seq<char>>,
)
    requires
        distinct_paths(project_paths(projects)),
    ensures
        distinct_paths(project_paths(register_project(projects, path, name, description))),
{
    let paths = project_paths(projects);
    let after = register_project(projects, path, name, description);
    lemma_position(paths, path);
    match position(paths, path) {
        Some(i) => {
            assert(project_paths(after) =~= paths);
        },
        None => {
            assert(project_paths(after) =~= paths.push(path));
        },
    }
}

/// Registering a location whose path is registered already adds no entry.
/// The first entry with that path gets the new label, and the style and the
/// description if they are given; its path stays, and so does every other
/// entry.
pub proof fn law_register_known_location(
    locations: Seq<ProjectLocationView>,
    path: Seq<char>,
    name: Seq<char>,
    icon_style: Option<IconStyle>,
    description: Option<Seq<char>>,
)
    requires
        !no_match(location_paths(locations), path),
    ensures
        position(location_paths(locations), path) is Some,
        ({
            let i = position(location_paths(locations), path)->0;
            let after = register_location(locations, path, name, icon_style, description);
            &&& is_first_match(location_paths(locations), path, i)
            &&& after.len() == locations.len()
            &&& after[i] == relabelled_location(locations[i], name, icon_style, description)
            &&& after[i].path == locations[i].path
            &&& forall|k: int| 0 <= k < locations.len() && k != i ==> after[k] == locations[k]
            &&& location_paths(after) == location_paths(locations)
        }),
{
    lemma_position(location_paths(locations), path);
}

/// Registering a location whose path is not registered yet adds one entry,
/// after the others, and changes none of them.
pub proof fn law_register_new_location(
    locations: Seq<ProjectLocationView>,
    path: Seq<char>,
    name: Seq<char>,
    icon_style: Option<IconStyle>,
    description: Option<Seq<char>>,
)
    requires
        no_match(location_paths(locations), path),
    ensures
        register_location(locations, path, name, icon_style, description) == locations.push(
            fresh_location(path, name, icon_style, description),
        ),
{
}

/// Registering the same location twice in a row leaves one entry for it.
pub proof fn law_register_location_twice(
    locations: Seq<ProjectLocationView>,
    path: Seq<char>,
    name: Seq<char>,
    icon_style: Option<IconStyle>,
    description: Option<Seq<char>>,
    name_again: Seq<char>,
    icon_style_again: Option<IconStyle>,
    description_again: Option<Seq<char>>,
)
    ensures
        ({
            let once = register_location(locations, path, name, icon_style, description);
            let twice = register_location(
                once,
                path,
                name_again,
                icon_style_again,
                description_again,
            );
            &&& twice.len() == once.len()
            &&& location_paths(twice) == location_paths(once)
            &&& position(location_paths(once), path) is Some
            &&& twice[position(location_paths(once), path)->0].name == Some(name_again)
        }),
{
    let paths = location_paths(locations);
    let once = register_location(locations, path, name, icon_style, description);
    lemma_position(paths, path);
    match position(paths, path) {
        Some(i) => {
            assert(location_paths(once) =~= paths);
        },
        None => {
            assert(location_paths(once) =~= paths.push(path));
            lemma_position_found(location_paths(once), path, paths.len() as int);
        },
    }
    law_register_known_location(once, path, name_again, icon_style_again, description_again);
}

/// Where no two registered locations have the same path, registering a
/// location keeps it so.
pub proof fn law_register_location_keeps_paths_distinct(
    locations: Seq<ProjectLocationView>,
    path: Seq<char>,
    name: Seq<char>,
    icon_style: Option<IconStyle>,
    description: Option<Seq<char>>,
)
    requires
        distinct_paths(location_paths(locations)),
    ensures
        distinct_paths(
            location_paths(register_location(locations, path, name, icon_style, description)),
        ),
{
    let paths = location_paths(locations);
    let after = register_location(locations, path, name, icon_style, description);
    lemma_position(paths, path);
    match position(paths, path) {
        Some(i) => {
            assert(location_paths(after) =~= paths);
        },
        None => {
            assert(location_paths(after) =~= paths.push(path));
        },
    }
}

impl Clone for Config {
    fn clone(&self) -> (r: Self)
        ensures
            r@ == self@,
    {
        let mut locations: Vec<ProjectLocation> = Vec::new();
        let mut i: usize = 0;
        while i < self.project_locations.len()
            invariant
                i <= self.project_locations.len(),
                locations.len() == i,
                forall|k: int| 0 <= k < i ==> locations[k]@ == self.project_locations[k]@,
            decreases self.project_locations.len() - i,
        {
            locations.push(self.project_locations[i].clone());
            i += 1;
        }
        let mut disabled: Vec<String> = Vec::new();
        let mut j: usize = 0;
        while j < self.disabled_projects.len()
            invariant
                j <= self.disabled_projects.len(),
                disabled.len() == j,
                forall|k: int| 0 <= k < j ==> disabled[k]@ == self.disabled_projects[k]@,
            decreases self.disabled_projects.len() - j,
        {
            disabled.push(self.disabled_projects[j].clone());
            j += 1;
        }
        let projects = clone_projects(&self.projects);
        let r = Config {
            editor_path: self.editor_path.clone(),
            project_locations: locations,
            disabled_projects: disabled,
            projects,
        };
        assert(r@.project_locations =~= self@.project_locations);
        assert(r@.disabled_projects =~= self@.disabled_projects);
        r
    }
}

/// A copy of a list of projects.
pub fn clone_projects(projects: &Vec<Project>) -> (r: Vec<Project>)
    ensures
        project_views(r@) == project_views(projects@),
{
    let mut out: Vec<Project> = Vec::new();
    let mut i: usize = 0;
    while i < projects.len()
        invariant
            i <= projects.len(),
            out.len() == i,
            forall|k: int| 0 <= k < i ==> out[k]@ == projects[k]@,
        decreases projects.len() - i,
    {
        out.push(projects[i].clone());
        i += 1;
    }
    out
}

} // verus!
