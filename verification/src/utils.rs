//! The directories of the program and the state that a command works on.

use crate::config::{
    default_vs_code_path, fallback_editor_path, Config, ConfigView, Platform,
};
use crate::paths::{join_path, path_join};
use crate::text::option_text;
use vstd::prelude::*;

verus! {

/// The directories the program keeps its files in.
#[derive(Clone, Debug, PartialEq, Eq)]
pub struct ProjectDirs {
    /// Holds the registry.
    pub config_dir: String,
    /// Holds the vector images, one per letter and style.
    pub cache_dir: String,
    /// Holds the icons, one per project.
    pub data_dir: String,
}

/// What a [`ProjectDirs`] holds.
pub struct ProjectDirsView {
    pub config_dir: Seq<char>,
    pub cache_dir: Seq<char>,
    pub data_dir: Seq<char>,
}

impl View for ProjectDirs {
    type V = ProjectDirsView;

    open spec fn view(&self) -> ProjectDirsView {
        ProjectDirsView {
            config_dir: self.config_dir@,
            cache_dir: self.cache_dir@,
            data_dir: self.data_dir@,
        }
    }
}

/// What a command works on: the registry and the directories.
#[derive(Clone, Debug, PartialEq, Eq)]
pub struct AppState {
    pub config: Config,
    pub project_dirs: ProjectDirs,
}

/// The file that holds the registry, below the directory `config_dir`.
pub open spec fn config_file_path(config_dir: Seq<char>) -> Seq<char> {
    path_join(config_dir, "config.toml"@)
}

/// What is to be written where no registry exists yet.
#[derive(Clone, Debug, PartialEq, Eq)]
pub struct DefaultConfig {
    /// The directory to create first, if it is missing.
    pub create_dir: Option<String>,
    /// The file to write the registry to.
    pub file: String,
    /// The registry to write.
    pub config: Config,
}

/// What a [`DefaultConfig`] holds.
pub struct DefaultConfigView {
    pub create_dir: Option<Seq<char>>,
    pub file: Seq<char>,
    pub config: ConfigView,
}

impl View for DefaultConfig {
    type V = DefaultConfigView;

    open spec fn view(&self) -> DefaultConfigView {
        DefaultConfigView {
            create_dir: match self.create_dir {
                Some(dir) => Some(dir@),
                None => None,
            },
            file: self.file@,
            config: self.config@,
        }
    }
}

/// The registry of a first run: the editor that was found, or the usual one,
/// and nothing else.
pub open spec fn default_config(found_editor: Option<Seq<char>>, platform: Platform) -> ConfigView {
    ConfigView {
        editor_path: match found_editor {
            Some(path) => path,
            None => fallback_editor_path(platform),
        },
        project_locations: Seq::empty(),
        disabled_projects: Seq::empty(),
        projects: Seq::empty(),
    }
}

/// Where the registry is kept, and what a first run writes there.
pub trait GetConfig {
    /// The file that holds the registry.
    spec fn config_path(&self) -> Seq<char>;

    /// The directory that the file lies in.
    spec fn config_dir_path(&self) -> Seq<char>;

    /// Computes [`GetConfig::config_path`].
    fn get_config_path(&self) -> (r: String)
        ensures
            r@ == self.config_path(),
    ;

    /// Decides what a first run writes. Where the registry exists, nothing.
    /// Otherwise the default registry goes to the registry file, and the
    /// directory of that file is created before if it is missing.
    fn save_default_config(
        &self,
        file_exists: bool,
        dir_exists: bool,
        found_editor: Option<String>,
        platform: Platform,
    ) -> (r: Option<DefaultConfig>)
        ensures
            file_exists <==> r is None,
            r matches Some(plan) ==> plan@ == (DefaultConfigView {
                create_dir: if dir_exists {
                    None
                } else {
                    Some(self.config_dir_path())
                },
                file: self.config_path(),
                config: default_config(option_text(found_editor), platform),
            }),
    ;
}

impl GetConfig for ProjectDirs {
    open spec fn config_path(&self) -> Seq<char> {
        config_file_path(self.config_dir@)
    }

    open spec fn config_dir_path(&self) -> Seq<char> {
        self.config_dir@
    }

    fn get_config_path(&self) -> (r: String) {
        join_path(self.config_dir.as_str(), "config.toml")
    }

    fn save_default_config(
        &self,
        file_exists: bool,
        dir_exists: bool,
        found_editor: Option<String>,
        platform: Platform,
    ) -> (r: Option<DefaultConfig>) {
        if file_exists {
            return None;
        }
        let create_dir = if dir_exists {
            None
        } else {
            Some(self.config_dir.clone())
        };
        let editor = default_vs_code_path(found_editor, platform);
        Some(
            DefaultConfig {
                create_dir,
                file: self.get_config_path(),
                config: Config::with_editor(editor),
            },
        )
    }
}

/// What a run begins with.
#[derive(Clone, Copy, Debug, PartialEq, Eq, Structural)]
pub enum Startup {
    /// There is no registry: write the default one and stop.
    WriteDefaultConfig,
    /// The editor of the registry is not there: say so and stop.
    EditorMissing,
    /// Carry out the command.
    RunCommand,
}

/// Decides how a run begins. `editor_exists` is looked at only where the
/// registry exists.
pub fn startup(config_exists: bool, editor_exists: bool) -> (r: Startup)
    ensures
        r == if !config_exists {
            Startup::WriteDefaultConfig
        } else if !editor_exists {
            Startup::EditorMissing
        } else {
            Startup::RunCommand
        },
{
    if !config_exists {
        Startup::WriteDefaultConfig
    } else if !editor_exists {
        Startup::EditorMissing
    } else {
        Startup::RunCommand
    }
}

} // verus!
