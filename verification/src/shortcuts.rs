//! The launcher shortcuts: one per project, in a folder of their own in the
//! start menu. This module works out what each shortcut holds, in the form the
//! shell interface takes it; creating the files is left to the caller.

use crate::config::{project_views, Config, Project, ProjectView};
use crate::paths::{join_path, path_join};
use crate::text::{joined, joined3, owned};
use vstd::prelude::*;
use vstd::utf8::encode_utf8;

verus! {

/// The UTF-16 code units of one character: the character itself where it
/// fits in 16 bits, a surrogate pair where it does not.
pub open spec fn utf16_units(c: char) -> Seq<u16> {
    let v = c as u32;
    if v < 0x10000 {
        seq![v as u16]
    } else {
        seq![(0xD800 + (v - 0x10000) / 0x400) as u16, (0xDC00 + (v - 0x10000) % 0x400) as u16]
    }
}

/// The UTF-16 code units of a text.
pub open spec fn utf16_of(text: Seq<char>) -> Seq<u16>
    decreases text.len(),
{
    if text.len() == 0 {
        Seq::empty()
    } else {
        utf16_of(text.drop_last()) + utf16_units(text.last())
    }
}

/// The text as a wide string for the operating system: its UTF-16 code units
/// and a closing zero.
pub fn string_to_os_utf16(string: &str) -> (r: Vec<u16>)
    ensures
        r@ == utf16_of(string@).push(0u16),
{
    let mut out: Vec<u16> = Vec::new();
    for c in it: string.chars()
        invariant
            it.seq() == string@,
            out@ == utf16_of(string@.take(it.index())),
    {
        let ghost done = string@.take(it.index());
        let ghost next = string@.take(it.index() + 1);
        assert(next.drop_last() =~= done);
        let v: u32 = c as u32;
        if v < 0x10000 {
            out.push(v as u16);
        } else {
            let w: u32 = v - 0x10000;
            out.push((0xD800 + w / 0x400) as u16);
            out.push((0xDC00 + w % 0x400) as u16);
        }
    }
    assert(string@.take(string@.len() as int) =~= string@);
    out.push(0);
    out
}

/// The text as a string for a C interface: its UTF-8 bytes and a closing
/// zero. A text that holds a zero byte itself has no such form.
pub open spec fn c_string(text: Seq<char>) -> Option<Seq<u8>> {
    if encode_utf8(text).contains(0u8) {
        None
    } else {
        Some(encode_utf8(text).push(0u8))
    }
}

/// Why a shortcut cannot be made.
#[derive(Clone, Debug, PartialEq, Eq)]
pub enum ShortcutError {
    /// The start menu is not where it is expected.
    StartMenuMissing,
    /// A path holds a zero byte.
    PathNotCString { path: String },
    /// The description, and so the name of the project, holds a zero byte.
    DescriptionNotCString { name: String },
}

/// What a [`ShortcutError`] holds.
pub enum ShortcutErrorView {
    StartMenuMissing,
    PathNotCString { path: Seq<char> },
    DescriptionNotCString { name: Seq<char> },
}

impl View for ShortcutError {
    type V = ShortcutErrorView;

    open spec fn view(&self) -> ShortcutErrorView {
        match self {
            ShortcutError::StartMenuMissing => ShortcutErrorView::StartMenuMissing,
            ShortcutError::PathNotCString { path } => ShortcutErrorView::PathNotCString {
                path: path@,
            },
            ShortcutError::DescriptionNotCString { name } => {
                ShortcutErrorView::DescriptionNotCString { name: name@ }
            },
        }
    }
}

impl ShortcutError {
    /// The error in words.
    pub fn message(&self) -> (r: String)
        ensures
            r@ == match self@ {
                ShortcutErrorView::StartMenuMissing => "Start Menu does not exist"@,
                ShortcutErrorView::PathNotCString { path } => {
                    "Path was unable to be converted into a CString. "@ + path
                },
                ShortcutErrorView::DescriptionNotCString { name } => {
                    "Unable to create description"@
                },
            },
    {
        match self {
            ShortcutError::StartMenuMissing => owned("Start Menu does not exist"),
            ShortcutError::PathNotCString { path } => joined(
                "Path was unable to be converted into a CString. ",
                path.as_str(),
            ),
            ShortcutError::DescriptionNotCString { name: _ } => owned(
                "Unable to create description",
            ),
        }
    }
}

/// Whether a zero byte occurs in `bytes`.
fn has_zero(bytes: &Vec<u8>) -> (r: bool)
    ensures
        r == bytes@.contains(0u8),
{
    let mut i: usize = 0;
    while i < bytes.len()
        invariant
            i <= bytes.len(),
            forall|j: int| 0 <= j < i ==> bytes@[j] != 0u8,
        decreases bytes.len() - i,
    {
        if bytes[i] == 0 {
            return true;
        }
        i += 1;
    }
    false
}

/// The path as a string for a C interface, or the error that it has none.
pub fn path_to_c_string(path: &str) -> (r: Result<Vec<u8>, ShortcutError>)
    ensures
        match r {
            Ok(bytes) => c_string(path@) == Some(bytes@),
            Err(e) => c_string(path@) is None && e@ == (ShortcutErrorView::PathNotCString {
                path: path@,
            }),
        },
{
    let mut bytes = path.as_bytes_vec();
    if has_zero(&bytes) {
        Err(ShortcutError::PathNotCString { path: owned(path) })
    } else {
        bytes.push(0);
        Ok(bytes)
    }
}

/// The start menu of the user whose configuration directory is `config_dir`.
pub open spec fn start_menu_path(config_dir: Seq<char>) -> Seq<char> {
    path_join(
        path_join(path_join(path_join(config_dir, "Microsoft"@), "Windows"@), "Start Menu"@),
        "Programs"@,
    )
}

/// The folder in the start menu that holds the shortcuts.
pub open spec fn shortcut_folder_path(config_dir: Seq<char>) -> Seq<char> {
    path_join(start_menu_path(config_dir), "Programming Projects"@)
}

/// Computes [`start_menu_path`].
pub fn start_menu_dir(config_dir: &str) -> (r: String)
    ensures
        r@ == start_menu_path(config_dir@),
{
    let microsoft = join_path(config_dir, "Microsoft");
    let windows = join_path(microsoft.as_str(), "Windows");
    let start_menu = join_path(windows.as_str(), "Start Menu");
    join_path(start_menu.as_str(), "Programs")
}

/// Computes [`shortcut_folder_path`].
pub fn shortcut_folder(config_dir: &str) -> (r: String)
    ensures
        r@ == shortcut_folder_path(config_dir@),
{
    let start_menu = start_menu_dir(config_dir);
    join_path(start_menu.as_str(), "Programming Projects")
}

/// One shortcut, as the shell interface takes it. The strings for the
/// interface are bytes with a closing zero.
#[derive(Clone, Debug, PartialEq, Eq)]
pub struct Shortcut {
    /// The file that the shortcut is saved as.
    pub link_path: String,
    /// The program that the shortcut starts: the editor.
    pub target: Vec<u8>,
    /// What the program is started with: the path of the project.
    pub arguments: Vec<u8>,
    /// Where the program is started: the path of the project.
    pub working_directory: Vec<u8>,
    pub description: Vec<u8>,
    /// The icon of the project, if it has one.
    pub icon: Option<Vec<u8>>,
}

/// What a [`Shortcut`] holds.
pub struct ShortcutView {
    pub link_path: Seq<char>,
    pub target: Seq<u8>,
    pub arguments: Seq<u8>,
    pub working_directory: Seq<u8>,
    pub description: Seq<u8>,
    pub icon: Option<Seq<u8>>,
}

impl View for Shortcut {
    type V = ShortcutView;

    open spec fn view(&self) -> ShortcutView {
        ShortcutView {
            link_path: self.link_path@,
            target: self.target@,
            arguments: self.arguments@,
            working_directory: self.working_directory@,
            description: self.description@,
            icon: match self.icon {
                Some(bytes) => Some(bytes@),
                None => None,
            },
        }
    }
}

/// What each shortcut of a list holds.
pub open spec fn shortcut_views(links: Seq<Shortcut>) -> Seq<ShortcutView> {
    links.map_values(|l: Shortcut| l@)
}

/// The description of the shortcut of the project called `name`.
pub open spec fn description_text(name: Seq<char>) -> Seq<char> {
    "Open "@ + name + " in VS Code"@
}

/// The file name of the shortcut of the project called `name`.
pub open spec fn link_file_name(name: Seq<char>) -> Seq<char> {
    name + ".lnk"@
}

/// The shortcut of one project in `folder`, for the editor `target`: it
/// starts the editor with the path of the project, in the directory of the
/// project, and shows the icon of the project if it has one. The path, the
/// description and the icon are looked at in this order, and the first that
/// has no form for the C interface is the error.
pub open spec fn link_for(folder: Seq<char>, target: Seq<u8>, project: ProjectView) -> Result<
    ShortcutView,
    ShortcutErrorView,
> {
    if c_string(project.path) is None {
        Err(ShortcutErrorView::PathNotCString { path: project.path })
    } else if c_string(description_text(project.name)) is None {
        Err(ShortcutErrorView::DescriptionNotCString { name: project.name })
    } else if project.icon is Some && c_string(project.icon->0) is None {
        Err(ShortcutErrorView::PathNotCString { path: project.icon->0 })
    } else {
        Ok(
            ShortcutView {
                link_path: path_join(folder, link_file_name(project.name)),
                target,
                arguments: c_string(project.path)->0,
                working_directory: c_string(project.path)->0,
                description: c_string(description_text(project.name))->0,
                icon: match project.icon {
                    Some(icon) => c_string(icon),
                    None => None,
                },
            },
        )
    }
}

/// A copy of a byte string.
fn copy_bytes(bytes: &Vec<u8>) -> (r: Vec<u8>)
    ensures
        r@ == bytes@,
{
    let mut out: Vec<u8> = Vec::new();
    let mut i: usize = 0;
    while i < bytes.len()
        invariant
            i <= bytes.len(),
            out@ == bytes@.take(i as int),
        decreases bytes.len() - i,
    {
        out.push(bytes[i]);
        i += 1;
    }
    out
}

/// Computes [`link_for`].
pub fn shortcut_for(folder: &str, target: &Vec<u8>, project: &Project) -> (r: Result<
    Shortcut,
    ShortcutError,
>)
    ensures
        match r {
            Ok(link) => link_for(folder@, target@, project@) == Ok::<
                ShortcutView,
                ShortcutErrorView,
            >(link@),
            Err(e) => link_for(folder@, target@, project@) == Err::<
                ShortcutView,
                ShortcutErrorView,
            >(e@),
        },
{
    let directory = match path_to_c_string(project.path.as_str()) {
        Ok(bytes) => bytes,
        Err(e) => {
            return Err(e);
        },
    };
    let link_name = joined(project.name.as_str(), ".lnk");
    let link_path = join_path(folder, link_name.as_str());
    let text = joined3("Open ", project.name.as_str(), " in VS Code");
    let description = match path_to_c_string(text.as_str()) {
        Ok(bytes) => bytes,
        Err(_) => {
            return Err(ShortcutError::DescriptionNotCString { name: project.name.clone() });
        },
    };
    let icon = match &project.icon {
        Some(path) => match path_to_c_string(path.as_str()) {
            Ok(bytes) => Some(bytes),
            Err(e) => {
                return Err(e);
            },
        },
        None => None,
    };
    Ok(
        Shortcut {
            link_path,
            target: copy_bytes(target),
            arguments: copy_bytes(&directory),
            working_directory: directory,
            description,
            icon,
        },
    )
}

/// What is to be done to bring the shortcuts up to date.
#[derive(Clone, Debug, PartialEq, Eq)]
pub struct ShortcutPlan {
    /// The folder of the shortcuts. It is emptied, or made, before anything
    /// else is done.
    pub folder: String,
    /// The shortcuts to create, in this order.
    pub links: Vec<Shortcut>,
    /// The error to end with once the shortcuts above are created.
    pub failure: Option<ShortcutError>,
}

/// What a [`ShortcutPlan`] holds.
pub struct ShortcutPlanView {
    pub folder: Seq<char>,
    pub links: Seq<ShortcutView>,
    pub failure: Option<ShortcutErrorView>,
}

impl View for ShortcutPlan {
    type V = ShortcutPlanView;

    open spec fn view(&self) -> ShortcutPlanView {
        ShortcutPlanView {
            folder: self.folder@,
            links: shortcut_views(self.links@),
            failure: match self.failure {
                Some(e) => Some(e@),
                None => None,
            },
        }
    }
}

/// The plan is the one for these projects: the folder is the shortcut folder
/// below `config_dir`; the shortcuts are those of the projects, in their
/// order, as far as they can be made; and the failure is that of the first
/// project whose shortcut cannot be made. An editor path that has no form for
/// the C interface fails before any project is looked at.
pub open spec fn plan_is_for(
    plan: ShortcutPlanView,
    config_dir: Seq<char>,
    editor_path: Seq<char>,
    projects: Seq<ProjectView>,
) -> bool {
    let folder = shortcut_folder_path(config_dir);
    &&& plan.folder == folder
    &&& match c_string(editor_path) {
        None => {
            &&& plan.links.len() == 0
            &&& plan.failure == Some(ShortcutErrorView::PathNotCString { path: editor_path })
        },
        Some(target) => {
            &&& plan.links.len() <= projects.len()
            &&& forall|i: int|
                0 <= i < plan.links.len() ==> link_for(folder, target, #[trigger] projects[i])
                    == Ok::<ShortcutView, ShortcutErrorView>(plan.links[i])
            &&& match plan.failure {
                Some(e) => {
                    &&& plan.links.len() < projects.len()
                    &&& link_for(folder, target, projects[plan.links.len() as int]) == Err::<
                        ShortcutView,
                        ShortcutErrorView,
                    >(e)
                },
                None => plan.links.len() == projects.len(),
            }
        },
    }
}

/// The projects and the editor determine the plan: planning twice for the
/// same registry gives the same folder, the same shortcuts in the same order
/// and the same failure, so that building the shortcuts twice in a row leaves
/// the folder as the first build left it.
pub proof fn law_plan_is_determined(
    plan: ShortcutPlanView,
    again: ShortcutPlanView,
    config_dir: Seq<char>,
    editor_path: Seq<char>,
    projects: Seq<ProjectView>,
)
    requires
        plan_is_for(plan, config_dir, editor_path, projects),
        plan_is_for(again, config_dir, editor_path, projects),
    ensures
        plan == again,
{
    let folder = shortcut_folder_path(config_dir);
    match c_string(editor_path) {
        None => {
            assert(plan.links =~= again.links);
        },
        Some(target) => {
            assert forall|i: int| 0 <= i < plan.links.len() implies plan.links[i]
                == again.links[i] by {
                assert(link_for(folder, target, projects[i]) == Ok::<
                    ShortcutView,
                    ShortcutErrorView,
                >(plan.links[i]));
            }
            assert(plan.links =~= again.links);
        },
    }
}

/// Plans the shortcuts of `projects` for the editor of `config`. Without a
/// start menu nothing is planned. Otherwise the folder of the shortcuts is
/// made anew, and each project gets a shortcut in it, in the order of the
/// list, up to the first that cannot be made.
pub fn update_shortcuts(
    config_dir: &str,
    start_menu_exists: bool,
    projects: &Vec<Project>,
    config: &Config,
) -> (r: Result<ShortcutPlan, ShortcutError>)
    ensures
        match r {
            Ok(plan) => start_menu_exists && plan_is_for(
                plan@,
                config_dir@,
                config@.editor_path,
                project_views(projects@),
            ),
            Err(e) => !start_menu_exists && e@ == ShortcutErrorView::StartMenuMissing,
        },
{
    if !start_menu_exists {
        return Err(ShortcutError::StartMenuMissing);
    }
    let folder = shortcut_folder(config_dir);
    let mut links: Vec<Shortcut> = Vec::new();
    let target = match path_to_c_string(config.editor_path.as_str()) {
        Ok(bytes) => bytes,
        Err(e) => {
            let plan = ShortcutPlan { folder, links, failure: Some(e) };
            return Ok(plan);
        },
    };
    let mut failure: Option<ShortcutError> = None;
    let mut i: usize = 0;
    while i < projects.len() && failure.is_none()
        invariant
            i <= projects.len(),
            folder@ == shortcut_folder_path(config_dir@),
            c_string(config@.editor_path) == Some(target@),
            failure is None ==> links.len() == i,
            failure is Some ==> links.len() + 1 == i,
            forall|k: int|
                0 <= k < links.len() ==> link_for(
                    folder@,
                    target@,
                    #[trigger] project_views(projects@)[k],
                ) == Ok::<ShortcutView, ShortcutErrorView>(links[k]@),
            failure matches Some(e) ==> link_for(
                folder@,
                target@,
                project_views(projects@)[links.len() as int],
            ) == Err::<ShortcutView, ShortcutErrorView>(e@),
        decreases projects.len() - i,
    {
        match shortcut_for(folder.as_str(), &target, &projects[i]) {
            Ok(link) => {
                links.push(link);
            },
            Err(e) => {
                failure = Some(e);
            },
        }
        i += 1;
    }
    let plan = ShortcutPlan { folder, links, failure };
    Ok(plan)
}

} // verus!
