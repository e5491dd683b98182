use auto_project::config::{Config, Platform};
use auto_project::utils::{startup, DefaultConfig, GetConfig, ProjectDirs, Startup};

fn dirs() -> ProjectDirs {
    ProjectDirs {
        config_dir: String::from("/home/u/.config/auto_project"),
        cache_dir: String::from("/home/u/.cache/auto_project"),
        data_dir: String::from("/home/u/.local/share/auto_project"),
    }
}

#[test]
fn registry_file_lies_in_the_configuration_directory() {
    assert_eq!(dirs().get_config_path(), "/home/u/.config/auto_project/config.toml");
}

#[test]
fn existing_registry_is_left_alone() {
    assert_eq!(dirs().save_default_config(true, true, None, Platform::Other), None);
    assert_eq!(dirs().save_default_config(true, false, None, Platform::Other), None);
}

#[test]
fn first_run_writes_the_default_registry() {
    let plan = dirs().save_default_config(false, true, None, Platform::Other);
    assert_eq!(
        plan,
        Some(DefaultConfig {
            create_dir: None,
            file: String::from("/home/u/.config/auto_project/config.toml"),
            config: Config::with_editor(String::from("/usr/bin/code")),
        })
    );
}

#[test]
fn first_run_creates_a_missing_directory() {
    let found = Some(String::from("/snap/bin/code"));
    let plan = dirs().save_default_config(false, false, found, Platform::Windows).unwrap();
    assert_eq!(plan.create_dir, Some(String::from("/home/u/.config/auto_project")));
    assert_eq!(plan.config.editor_path, "/snap/bin/code");
    assert!(plan.config.projects.is_empty());
    assert!(plan.config.project_locations.is_empty());
    assert!(plan.config.disabled_projects.is_empty());
}

#[test]
fn first_run_on_windows_takes_the_usual_place() {
    let plan = dirs().save_default_config(false, true, None, Platform::Windows).unwrap();
    assert_eq!(plan.config.editor_path, "C:\\Program Files\\Microsoft VS Code\\Code.exe");
}

#[test]
fn run_begins_with_the_registry_then_the_editor() {
    assert_eq!(startup(false, false), Startup::WriteDefaultConfig);
    assert_eq!(startup(false, true), Startup::WriteDefaultConfig);
    assert_eq!(startup(true, false), Startup::EditorMissing);
    assert_eq!(startup(true, true), Startup::RunCommand);
}
