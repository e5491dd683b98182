//! The commands, and what each of them does to the registry. A command is
//! told what it needs to know of the world around it (the current directory,
//! whether its path exists) and answers with the changed registry and with
//! what is to follow: saving it, and rebuilding shortcuts.

use crate::config::{
    project_entry, project_paths, register_location, register_project, ConfigView, IconStyle,
    Project, ProjectView,
};
use crate::paths::{file_name_of, path_file_name, position};
use crate::text::{joined, option_text, owned, owned_option};
use crate::utils::AppState;
use vstd::prelude::*;

verus! {

/// The command line.
#[derive(Clone, Debug, PartialEq, Eq)]
pub struct AutoProject {
    pub command: Command,
}

/// What the program is asked to do.
#[derive(Clone, Debug, PartialEq, Eq)]
#[allow(inconsistent_fields)]
pub enum Command {
    /// Builds the shortcuts of all projects.
    BuildShortcuts,
    /// Registers a directory that contains projects.
    AddProjectsLocation(AddProjectsDir),
    /// Switches a project off. Without a path, the current directory.
    AddDisabledProject { path: Option<String> },
    /// Sets the editor.
    SetEditorPath { path: String },
    /// Registers a project.
    AddProject(AddProject),
}

/// The arguments of the command that registers a project.
#[derive(Clone, Debug, PartialEq, Eq)]
pub struct AddProject {
    /// Without a name, the project is called by the last part of its path.
    pub name: Option<String>,
    pub icon_style: Option<IconStyle>,
    /// An icon to use in place of the generated one. It is accepted and not
    /// yet used.
    pub icon_path: Option<String>,
    pub description: Option<String>,
    /// Without a path, the current directory.
    pub path: Option<String>,
}

/// The arguments of the command that registers a location.
#[derive(Clone, Debug, PartialEq, Eq)]
pub struct AddProjectsDir {
    /// Without a name, the location is labelled by the last part of its
    /// path.
    pub name: Option<String>,
    pub icon_style: Option<IconStyle>,
    pub description: Option<String>,
    /// Without a path, the current directory.
    pub path: Option<String>,
}

/// What a command is told of the world around it.
#[derive(Clone, Debug, PartialEq, Eq)]
pub struct Environment {
    /// The current directory, if it can be had.
    pub current_dir: Option<String>,
    /// Whether the path that the command is about exists.
    pub target_exists: bool,
    /// Whether the editor of the registry exists.
    pub editor_exists: bool,
}

/// Why a command cannot be carried out.
#[derive(Clone, Debug, PartialEq, Eq)]
pub enum CommandError {
    /// No path was given and the current directory cannot be had.
    NoCurrentDir,
    /// The path that the command is about does not exist.
    PathDoesNotExist { path: String },
    /// No name was given and the path has no last part to take one from.
    NoFileName { path: String },
}

/// What a [`CommandError`] holds.
pub enum CommandErrorView {
    NoCurrentDir,
    PathDoesNotExist { path: Seq<char> },
    NoFileName { path: Seq<char> },
}

impl View for CommandError {
    type V = CommandErrorView;

    open spec fn view(&self) -> CommandErrorView {
        match self {
            CommandError::NoCurrentDir => CommandErrorView::NoCurrentDir,
            CommandError::PathDoesNotExist { path } => CommandErrorView::PathDoesNotExist {
                path: path@,
            },
            CommandError::NoFileName { path } => CommandErrorView::NoFileName { path: path@ },
        }
    }
}

impl CommandError {
    /// The error in words.
    pub fn message(&self) -> (r: String)
        ensures
            r@ == match self@ {
                CommandErrorView::NoCurrentDir => "Unable to get current directory"@,
                CommandErrorView::PathDoesNotExist { path } => "Path does not exist: "@ + path,
                CommandErrorView::NoFileName { path } => "Path has no file name: "@ + path,
            },
    {
        match self {
            CommandError::NoCurrentDir => owned("Unable to get current directory"),
            CommandError::PathDoesNotExist { path } => joined(
                "Path does not exist: ",
                path.as_str(),
            ),
            CommandError::NoFileName { path } => joined("Path has no file name: ", path.as_str()),
        }
    }
}

/// The path that a command is about: the one it was given, else the current
/// directory.
pub open spec fn target_of(path: Option<Seq<char>>, current_dir: Option<Seq<char>>) -> Option<
    Seq<char>,
> {
    match path {
        Some(p) => Some(p),
        None => current_dir,
    }
}

/// The path that a command is about, once it is known to exist.
pub open spec fn checked_target(
    path: Option<Seq<char>>,
    current_dir: Option<Seq<char>>,
    target_exists: bool,
) -> Result<Seq<char>, CommandErrorView> {
    match target_of(path, current_dir) {
        None => Err(CommandErrorView::NoCurrentDir),
        Some(p) => if target_exists {
            Ok(p)
        } else {
            Err(CommandErrorView::PathDoesNotExist { path: p })
        },
    }
}

/// The name that a project or a location is registered under: the one that
/// was given, else the last part of its path.
pub open spec fn checked_name(name: Option<Seq<char>>, path: Seq<char>) -> Result<
    Seq<char>,
    CommandErrorView,
> {
    match name {
        Some(n) => Ok(n),
        None => match path_file_name(path) {
            Some(n) => Ok(n),
            None => Err(CommandErrorView::NoFileName { path }),
        },
    }
}

/// The path and the name that a registration goes by. The path is looked at
/// first.
pub open spec fn checked_entry(
    name: Option<Seq<char>>,
    path: Option<Seq<char>>,
    current_dir: Option<Seq<char>>,
    target_exists: bool,
) -> Result<(Seq<char>, Seq<char>), CommandErrorView> {
    match checked_target(path, current_dir, target_exists) {
        Err(e) => Err(e),
        Ok(p) => match checked_name(name, p) {
            Err(e) => Err(e),
            Ok(n) => Ok((p, n)),
        },
    }
}

/// Computes [`target_of`].
pub fn target_path(path: &Option<String>, current_dir: &Option<String>) -> (r: Option<String>)
    ensures
        option_text(r) == target_of(option_text(*path), option_text(*current_dir)),
{
    match path {
        Some(p) => Some(p.clone()),
        None => owned_option(current_dir),
    }
}

/// Computes [`checked_target`].
fn resolve_target(path: &Option<String>, environment: &Environment) -> (r: Result<
    String,
    CommandError,
>)
    ensures
        match r {
            Ok(p) => checked_target(
                option_text(*path),
                option_text(environment.current_dir),
                environment.target_exists,
            ) == Ok::<Seq<char>, CommandErrorView>(p@),
            Err(e) => checked_target(
                option_text(*path),
                option_text(environment.current_dir),
                environment.target_exists,
            ) == Err::<Seq<char>, CommandErrorView>(e@),
        },
{
    match target_path(path, &environment.current_dir) {
        None => Err(CommandError::NoCurrentDir),
        Some(p) => if environment.target_exists {
            Ok(p)
        } else {
            Err(CommandError::PathDoesNotExist { path: p })
        },
    }
}

/// Computes [`checked_name`].
pub fn resolve_name(name: Option<String>, path: &str) -> (r: Result<String, CommandError>)
    ensures
        match r {
            Ok(n) => checked_name(option_text(name), path@) == Ok::<Seq<char>, CommandErrorView>(
                n@,
            ),
            Err(e) => checked_name(option_text(name), path@) == Err::<
                Seq<char>,
                CommandErrorView,
            >(e@),
        },
{
    match name {
        Some(n) => Ok(n),
        None => match file_name_of(path) {
            Some(n) => Ok(n),
            None => Err(CommandError::NoFileName { path: owned(path) }),
        },
    }
}

impl AddProject {
    /// The path that the command is about.
    pub fn target(&self, current_dir: &Option<String>) -> (r: Option<String>)
        ensures
            option_text(r) == target_of(option_text(self.path), option_text(*current_dir)),
    {
        target_path(&self.path, current_dir)
    }

    /// Registers the project. The path must exist. A project that is
    /// registered under the same path already is renamed and gets the
    /// description if one is given; otherwise the project is added after the
    /// others. Returns the entry as it stands in the registry. On an error
    /// the registry is as it was.
    pub fn execute(self, app_state: &mut AppState, environment: &Environment) -> (r: Result<
        Project,
        CommandError,
    >)
        ensures
            final(app_state).project_dirs@ == old(app_state).project_dirs@,
            match checked_entry(
                option_text(self.name),
                option_text(self.path),
                option_text(environment.current_dir),
                environment.target_exists,
            ) {
                Ok((path, name)) => {
                    &&& r matches Ok(project)
                    &&& project@ == project_entry(
                        old(app_state).config@.projects,
                        position(project_paths(old(app_state).config@.projects), path),
                        path,
                        name,
                        option_text(self.description),
                    )
                    &&& final(app_state).config@ == (ConfigView {
                        projects: register_project(
                            old(app_state).config@.projects,
                            path,
                            name,
                            option_text(self.description),
                        ),
                        ..old(app_state).config@
                    })
                },
                Err(error) => {
                    &&& r matches Err(e)
                    &&& e@ == error
                    &&& final(app_state).config@ == old(app_state).config@
                },
            },
    {
        let AddProject { name, icon_style: _, icon_path: _, description, path } = self;
        let path = match resolve_target(&path, environment) {
            Ok(p) => p,
            Err(e) => {
                return Err(e);
            },
        };
        let name = match resolve_name(name, path.as_str()) {
            Ok(n) => n,
            Err(e) => {
                return Err(e);
            },
        };
        let project = app_state.config.register_project(path, name, description);
        Ok(project)
    }
}

impl AddProjectsDir {
    /// The path that the command is about.
    pub fn target(&self, current_dir: &Option<String>) -> (r: Option<String>)
        ensures
            option_text(r) == target_of(option_text(self.path), option_text(*current_dir)),
    {
        target_path(&self.path, current_dir)
    }

    /// Registers the location. The path must exist. A location that is
    /// registered under the same path already is relabelled and gets the
    /// style and the description that are given; otherwise the location is
    /// added after the others. On an error the registry is as it was.
    pub fn execute(self, app_state: &mut AppState, environment: &Environment) -> (r: Result<
        (),
        CommandError,
    >)
        ensures
            final(app_state).project_dirs@ == old(app_state).project_dirs@,
            match checked_entry(
                option_text(self.name),
                option_text(self.path),
                option_text(environment.current_dir),
                environment.target_exists,
            ) {
                Ok((path, name)) => {
                    &&& r is Ok
                    &&& final(app_state).config@ == (ConfigView {
                        project_locations: register_location(
                            old(app_state).config@.project_locations,
                            path,
                            name,
                            self.icon_style,
                            option_text(self.description),
                        ),
                        ..old(app_state).config@
                    })
                },
                Err(error) => {
                    &&& r matches Err(e)
                    &&& e@ == error
                    &&& final(app_state).config@ == old(app_state).config@
                },
            },
    {
        let AddProjectsDir { name, icon_style, description, path } = self;
        let path = match resolve_target(&path, environment) {
            Ok(p) => p,
            Err(e) => {
                return Err(e);
            },
        };
        let name = match resolve_name(name, path.as_str()) {
            Ok(n) => n,
            Err(e) => {
                return Err(e);
            },
        };
        app_state.config.register_location(path, name, icon_style, description);
        Ok(())
    }
}

/// The shortcuts that a command leaves to be built.
#[derive(Clone, Debug, PartialEq, Eq)]
pub enum Rebuild {
    /// None.
    Nothing,
    /// Those of all projects, registered and found.
    AllProjects,
    /// That of this one project.
    OneProject(Project),
}

/// What a [`Rebuild`] holds.
pub enum RebuildView {
    Nothing,
    AllProjects,
    OneProject(ProjectView),
}

impl View for Rebuild {
    type V = RebuildView;

    open spec fn view(&self) -> RebuildView {
        match self {
            Rebuild::Nothing => RebuildView::Nothing,
            Rebuild::AllProjects => RebuildView::AllProjects,
            Rebuild::OneProject(project) => RebuildView::OneProject(project@),
        }
    }
}

/// What follows a command, in this order: a warning, saving the registry,
/// building shortcuts.
#[derive(Clone, Debug, PartialEq, Eq)]
pub struct Outcome {
    /// Whether to warn that the editor that was set until now does not
    /// exist.
    pub warn_editor_missing: bool,
    /// Whether the registry was changed and is to be saved.
    pub save: bool,
    pub rebuild: Rebuild,
}

/// What an [`Outcome`] holds.
pub struct OutcomeView {
    pub warn_editor_missing: bool,
    pub save: bool,
    pub rebuild: RebuildView,
}

impl View for Outcome {
    type V = OutcomeView;

    open spec fn view(&self) -> OutcomeView {
        OutcomeView {
            warn_editor_missing: self.warn_editor_missing,
            save: self.save,
            rebuild: self.rebuild@,
        }
    }
}

/// What the arguments of the command that registers a project hold.
pub struct AddProjectView {
    pub name: Option<Seq<char>>,
    pub icon_style: Option<IconStyle>,
    pub icon_path: Option<Seq<char>>,
    pub description: Option<Seq<char>>,
    pub path: Option<Seq<char>>,
}

impl View for AddProject {
    type V = AddProjectView;

    open spec fn view(&self) -> AddProjectView {
        AddProjectView {
            name: option_text(self.name),
            icon_style: self.icon_style,
            icon_path: option_text(self.icon_path),
            description: option_text(self.description),
            path: option_text(self.path),
        }
    }
}

/// What the arguments of the command that registers a location hold.
pub struct AddProjectsDirView {
    pub name: Option<Seq<char>>,
    pub icon_style: Option<IconStyle>,
    pub description: Option<Seq<char>>,
    pub path: Option<Seq<char>>,
}

impl View for AddProjectsDir {
    type V = AddProjectsDirView;

    open spec fn view(&self) -> AddProjectsDirView {
        AddProjectsDirView {
            name: option_text(self.name),
            icon_style: self.icon_style,
            description: option_text(self.description),
            path: option_text(self.path),
        }
    }
}

/// What a [`Command`] holds.
#[allow(inconsistent_fields)]
pub enum CommandView {
    BuildShortcuts,
    AddProjectsLocation(AddProjectsDirView),
    AddDisabledProject { path: Option<Seq<char>> },
    SetEditorPath { path: Seq<char> },
    AddProject(AddProjectView),
}

impl View for Command {
    type V = CommandView;

    open spec fn view(&self) -> CommandView {
        match self {
            Command::BuildShortcuts => CommandView::BuildShortcuts,
            Command::AddProjectsLocation(args) => CommandView::AddProjectsLocation(args@),
            Command::AddDisabledProject { path } => CommandView::AddDisabledProject {
                path: option_text(*path),
            },
            Command::SetEditorPath { path } => CommandView::SetEditorPath { path: path@ },
            Command::AddProject(args) => CommandView::AddProject(args@),
        }
    }
}

/// The path whose existence a command depends on, if there is one: the
/// path that a registration or a switching off is about.
pub open spec fn command_target(command: CommandView, current_dir: Option<Seq<char>>) -> Option<
    Seq<char>,
> {
    match command {
        CommandView::BuildShortcuts => None,
        CommandView::AddProjectsLocation(args) => target_of(args.path, current_dir),
        CommandView::AddDisabledProject { path } => target_of(path, current_dir),
        CommandView::SetEditorPath { path } => None,
        CommandView::AddProject(args) => target_of(args.path, current_dir),
    }
}

/// What a command makes of a registry: the registry after it and what
/// follows, or the error, with which the registry stays as it was.
///
/// Building the shortcuts changes nothing and rebuilds all. Registering a
/// location or switching a project off changes the registry, which is saved,
/// and rebuilds nothing. Setting the editor warns if the editor set until
/// now is not there, saves, and rebuilds all. Registering a project saves and
/// rebuilds the shortcut of that project alone.
pub open spec fn command_result(
    command: CommandView,
    config: ConfigView,
    current_dir: Option<Seq<char>>,
    target_exists: bool,
    editor_exists: bool,
) -> Result<(ConfigView, OutcomeView), CommandErrorView> {
    match command {
        CommandView::BuildShortcuts => Ok(
            (
                config,
                OutcomeView {
                    warn_editor_missing: false,
                    save: false,
                    rebuild: RebuildView::AllProjects,
                },
            ),
        ),
        CommandView::AddProjectsLocation(args) => match checked_entry(
            args.name,
            args.path,
            current_dir,
            target_exists,
        ) {
            Err(e) => Err(e),
            Ok((path, name)) => Ok(
                (
                    ConfigView {
                        project_locations: register_location(
                            config.project_locations,
                            path,
                            name,
                            args.icon_style,
                            args.description,
                        ),
                        ..config
                    },
                    OutcomeView {
                        warn_editor_missing: false,
                        save: true,
                        rebuild: RebuildView::Nothing,
                    },
                ),
            ),
        },
        CommandView::AddDisabledProject { path } => match checked_target(
            path,
            current_dir,
            target_exists,
        ) {
            Err(e) => Err(e),
            Ok(p) => Ok(
                (
                    ConfigView { disabled_projects: config.disabled_projects.push(p), ..config },
                    OutcomeView {
                        warn_editor_missing: false,
                        save: true,
                        rebuild: RebuildView::Nothing,
                    },
                ),
            ),
        },
        CommandView::SetEditorPath { path } => Ok(
            (
                ConfigView { editor_path: path, ..config },
                OutcomeView {
                    warn_editor_missing: !editor_exists,
                    save: true,
                    rebuild: RebuildView::AllProjects,
                },
            ),
        ),
        CommandView::AddProject(args) => match checked_entry(
            args.name,
            args.path,
            current_dir,
            target_exists,
        ) {
            Err(e) => Err(e),
            Ok((path, name)) => Ok(
                (
                    ConfigView {
                        projects: register_project(
                            config.projects,
                            path,
                            name,
                            args.description,
                        ),
                        ..config
                    },
                    OutcomeView {
                        warn_editor_missing: false,
                        save: true,
                        rebuild: RebuildView::OneProject(
                            project_entry(
                                config.projects,
                                position(project_paths(config.projects), path),
                                path,
                                name,
                                args.description,
                            ),
                        ),
                    },
                ),
            ),
        },
    }
}

impl Command {
    /// Computes [`command_target`].
    pub fn target(&self, current_dir: &Option<String>) -> (r: Option<String>)
        ensures
            option_text(r) == command_target(self@, option_text(*current_dir)),
    {
        match self {
            Command::BuildShortcuts => None,
            Command::AddProjectsLocation(args) => args.target(current_dir),
            Command::AddDisabledProject { path } => target_path(path, current_dir),
            Command::SetEditorPath { path: _ } => None,
            Command::AddProject(args) => args.target(current_dir),
        }
    }

    /// Carries out the command on the registry of `app_state`, as
    /// [`command_result`] says.
    pub fn run(self, app_state: &mut AppState, environment: &Environment) -> (r: Result<
        Outcome,
        CommandError,
    >)
        ensures
            final(app_state).project_dirs@ == old(app_state).project_dirs@,
            match command_result(
                self@,
                old(app_state).config@,
                option_text(environment.current_dir),
                environment.target_exists,
                environment.editor_exists,
            ) {
                Ok((config, outcome)) => {
                    &&& r matches Ok(o)
                    &&& o@ == outcome
                    &&& final(app_state).config@ == config
                },
                Err(error) => {
                    &&& r matches Err(e)
                    &&& e@ == error
                    &&& final(app_state).config@ == old(app_state).config@
                },
            },
    {
        match self {
            Command::BuildShortcuts => Ok(
                Outcome { warn_editor_missing: false, save: false, rebuild: Rebuild::AllProjects },
            ),
            Command::AddProjectsLocation(args) => match args.execute(app_state, environment) {
                Ok(()) => Ok(
                    Outcome { warn_editor_missing: false, save: true, rebuild: Rebuild::Nothing },
                ),
                Err(e) => Err(e),
            },
            Command::AddDisabledProject { path } => match resolve_target(&path, environment) {
                Ok(p) => {
                    app_state.config.disable_project(p);
                    Ok(
                        Outcome {
                            warn_editor_missing: false,
                            save: true,
                            rebuild: Rebuild::Nothing,
                        },
                    )
                },
                Err(e) => Err(e),
            },
            Command::SetEditorPath { path } => {
                app_state.config.set_editor_path(path);
                Ok(
                    Outcome {
                        warn_editor_missing: !environment.editor_exists,
                        save: true,
                        rebuild: Rebuild::AllProjects,
                    },
                )
            },
            Command::AddProject(args) => match args.execute(app_state, environment) {
                Ok(project) => Ok(
                    Outcome {
                        warn_editor_missing: false,
                        save: true,
                        rebuild: Rebuild::OneProject(project),
                    },
                ),
                Err(e) => Err(e),
            },
        }
    }
}

} // verus!
