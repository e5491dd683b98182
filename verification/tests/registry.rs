use auto_project::config::{
    default_vs_code_path, Config, IconStyle, Platform, Project, ProjectLocation,
};

fn registry() -> Config {
    Config::with_editor(String::from("/usr/bin/code"))
}

#[test]
fn new_registry_holds_only_the_editor() {
    let config = registry();
    assert_eq!(config.editor_path, "/usr/bin/code");
    assert!(config.project_locations.is_empty());
    assert!(config.disabled_projects.is_empty());
    assert!(config.projects.is_empty());
}

#[test]
fn default_editor_is_the_one_found() {
    let found = Some(String::from("/opt/code/bin/code"));
    assert_eq!(default_vs_code_path(found, Platform::Other), "/opt/code/bin/code");
}

#[test]
fn default_editor_falls_back_by_platform() {
    assert_eq!(default_vs_code_path(None, Platform::Other), "/usr/bin/code");
    assert_eq!(
        default_vs_code_path(None, Platform::Windows),
        "C:\\Program Files\\Microsoft VS Code\\Code.exe"
    );
}

#[test]
fn icon_style_names_and_default() {
    assert_eq!(IconStyle::Default.as_str(), "Default");
    assert_eq!(IconStyle::Cargo.as_str(), "Cargo");
    assert_eq!(IconStyle::default(), IconStyle::Default);
}

#[test]
fn default_project_is_empty() {
    let project = Project::default();
    assert_eq!(project.path, "");
    assert_eq!(project.name, "");
    assert_eq!(project.icon, None);
    assert_eq!(project.description, None);
}

#[test]
fn registering_a_new_project_appends_it() {
    let mut config = registry();
    let first = config.register_project(String::from("/p1"), String::from("Alpha"), None);
    let second = config.register_project(
        String::from("/p2"),
        String::from("Beta"),
        Some(String::from("second")),
    );
    assert_eq!(config.projects.len(), 2);
    assert_eq!(
        first,
        Project { path: String::from("/p1"), name: String::from("Alpha"), icon: None, description: None }
    );
    assert_eq!(config.projects[0], first);
    assert_eq!(
        second,
        Project {
            path: String::from("/p2"),
            name: String::from("Beta"),
            icon: None,
            description: Some(String::from("second")),
        }
    );
    assert_eq!(config.projects[1], second);
}

#[test]
fn registering_a_known_project_updates_it_in_place() {
    let mut config = registry();
    config.projects.push(Project {
        path: String::from("/p1"),
        name: String::from("Old"),
        icon: Some(String::from("/data/Old.ico")),
        description: Some(String::from("kept")),
    });
    config.register_project(String::from("/p2"), String::from("Beta"), None);
    let entry = config.register_project(String::from("/p1"), String::from("New"), None);
    assert_eq!(config.projects.len(), 2);
    assert_eq!(config.projects[0].path, "/p1");
    assert_eq!(config.projects[0].name, "New");
    assert_eq!(config.projects[0].icon, Some(String::from("/data/Old.ico")));
    assert_eq!(config.projects[0].description, Some(String::from("kept")));
    assert_eq!(config.projects[1].name, "Beta");
    assert_eq!(entry, config.projects[0]);
}

#[test]
fn registering_a_known_project_takes_a_given_description() {
    let mut config = registry();
    config.register_project(String::from("/p1"), String::from("Alpha"), Some(String::from("one")));
    config.register_project(String::from("/p1"), String::from("Alpha"), Some(String::from("two")));
    assert_eq!(config.projects.len(), 1);
    assert_eq!(config.projects[0].description, Some(String::from("two")));
}

#[test]
fn registering_twice_leaves_one_entry() {
    let mut config = registry();
    config.register_project(String::from("/p1"), String::from("First"), None);
    config.register_project(String::from("/p1"), String::from("Second"), None);
    config.register_project(String::from("/p1"), String::from("Third"), None);
    assert_eq!(config.projects.len(), 1);
    assert_eq!(config.projects[0].name, "Third");
}

#[test]
fn paths_are_compared_as_paths() {
    let mut config = registry();
    config.register_project(String::from("/home/u/app"), String::from("Alpha"), None);
    assert_eq!(config.find_project("/home/u/app/"), Some(0));
    assert_eq!(config.find_project("/home//u/app"), Some(0));
    assert_eq!(config.find_project("/home/u/./app"), Some(0));
    assert_eq!(config.find_project("/home/u/tool"), None);
    assert_eq!(config.find_project("/home/u/APP"), None);
    config.register_project(String::from("/home/u/app/"), String::from("Again"), None);
    assert_eq!(config.projects.len(), 1);
    assert_eq!(config.projects[0].path, "/home/u/app");
    assert_eq!(config.projects[0].name, "Again");
}

#[test]
fn the_first_of_two_equal_paths_is_found() {
    let mut config = registry();
    config.projects.push(Project {
        path: String::from("/p1"),
        name: String::from("A"),
        icon: None,
        description: None,
    });
    config.projects.push(Project {
        path: String::from("/p1"),
        name: String::from("B"),
        icon: None,
        description: None,
    });
    assert_eq!(config.find_project("/p1"), Some(0));
    config.register_project(String::from("/p1"), String::from("C"), None);
    assert_eq!(config.projects.len(), 2);
    assert_eq!(config.projects[0].name, "C");
    assert_eq!(config.projects[1].name, "B");
}

#[test]
fn put_project_with_a_slot_renames_that_entry() {
    let mut config = registry();
    config.put_project(None, String::from("/a"), String::from("A"), None);
    config.put_project(None, String::from("/b"), String::from("B"), None);
    let entry = config.put_project(Some(1), String::from("/ignored"), String::from("B2"), None);
    assert_eq!(config.projects.len(), 2);
    assert_eq!(entry.path, "/b");
    assert_eq!(entry.name, "B2");
    assert_eq!(config.projects[0].name, "A");
    assert_eq!(config.projects[1], entry);
}

#[test]
fn registering_a_new_location_appends_it() {
    let mut config = registry();
    config.register_location(String::from("/loc"), String::from("Lib"), None, None);
    config.register_location(
        String::from("/work"),
        String::from("Work"),
        Some(IconStyle::Cargo),
        Some(String::from("at work")),
    );
    assert_eq!(
        config.project_locations,
        vec![
            ProjectLocation {
                path: String::from("/loc"),
                name: Some(String::from("Lib")),
                icon_style: IconStyle::Default,
                description: None,
            },
            ProjectLocation {
                path: String::from("/work"),
                name: Some(String::from("Work")),
                icon_style: IconStyle::Cargo,
                description: Some(String::from("at work")),
            },
        ]
    );
}

#[test]
fn registering_a_known_location_updates_it_in_place() {
    let mut config = registry();
    config.register_location(
        String::from("/loc"),
        String::from("Lib"),
        Some(IconStyle::Cargo),
        Some(String::from("libraries")),
    );
    config.register_location(String::from("/work"), String::from("Work"), None, None);
    config.register_location(String::from("/loc"), String::from("Libs"), None, None);
    assert_eq!(config.project_locations.len(), 2);
    assert_eq!(
        config.project_locations[0],
        ProjectLocation {
            path: String::from("/loc"),
            name: Some(String::from("Libs")),
            icon_style: IconStyle::Cargo,
            description: Some(String::from("libraries")),
        }
    );
    config.register_location(
        String::from("/loc"),
        String::from("Libs"),
        Some(IconStyle::Default),
        Some(String::from("changed")),
    );
    assert_eq!(config.project_locations.len(), 2);
    assert_eq!(config.project_locations[0].icon_style, IconStyle::Default);
    assert_eq!(config.project_locations[0].description, Some(String::from("changed")));
    assert_eq!(config.project_locations[1].name, Some(String::from("Work")));
}

#[test]
fn registering_touches_nothing_else() {
    let mut config = registry();
    config.disable_project(String::from("/off"));
    config.register_location(String::from("/loc"), String::from("Lib"), None, None);
    config.register_project(String::from("/p1"), String::from("Alpha"), None);
    assert_eq!(config.editor_path, "/usr/bin/code");
    assert_eq!(config.disabled_projects, vec![String::from("/off")]);
    assert_eq!(config.project_locations.len(), 1);
    assert_eq!(config.projects.len(), 1);
}

#[test]
fn disabling_appends_the_path() {
    let mut config = registry();
    config.disable_project(String::from("/a"));
    config.disable_project(String::from("/b"));
    config.disable_project(String::from("/a"));
    assert_eq!(
        config.disabled_projects,
        vec![String::from("/a"), String::from("/b"), String::from("/a")]
    );
}

#[test]
fn setting_the_editor_replaces_it() {
    let mut config = registry();
    config.register_project(String::from("/p1"), String::from("Alpha"), None);
    config.set_editor_path(String::from("/opt/editor"));
    assert_eq!(config.editor_path, "/opt/editor");
    assert_eq!(config.projects.len(), 1);
}

#[test]
fn a_copy_of_the_registry_is_equal() {
    let mut config = registry();
    config.register_location(String::from("/loc"), String::from("Lib"), None, None);
    config.register_project(String::from("/p1"), String::from("Alpha"), None);
    config.disable_project(String::from("/off"));
    let copy = config.clone();
    assert_eq!(copy, config);
}
