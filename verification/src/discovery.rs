//! Finding the projects: those that are registered one by one, and after
//! them a project for every directory that lies in a registered location.
//! The listings of the locations are taken by the caller and handed in.

use crate::config::{
    clone_projects, project_views, Project, ProjectLocation, ProjectLocationView, ProjectView,
};
use crate::icon::{build_icon, icon_path, icon_plan, IconPlan, IconPlanView};
use crate::text::joined3;
use crate::utils::{AppState, ProjectDirsView};
use vstd::prelude::*;

verus! {

/// One child of a location.
#[derive(Clone, Debug, PartialEq, Eq)]
pub struct DirEntry {
    /// The path of the child.
    pub path: String,
    /// The name of the child in its directory.
    pub file_name: String,
    /// Whether the child is a directory.
    pub is_dir: bool,
}

/// What a [`DirEntry`] holds.
pub struct DirEntryView {
    pub path: Seq<char>,
    pub file_name: Seq<char>,
    pub is_dir: bool,
}

impl View for DirEntry {
    type V = DirEntryView;

    open spec fn view(&self) -> DirEntryView {
        DirEntryView { path: self.path@, file_name: self.file_name@, is_dir: self.is_dir }
    }
}

/// What each child of a list holds.
pub open spec fn entry_views(entries: Seq<DirEntry>) -> Seq<DirEntryView> {
    entries.map_values(|e: DirEntry| e@)
}

/// What was found at the path of a location.
#[derive(Clone, Debug, PartialEq, Eq)]
pub enum Listing {
    /// Nothing is there.
    Missing,
    /// The children, in the order in which the system lists them.
    Children(Vec<DirEntry>),
}

/// What a [`Listing`] holds.
pub enum ListingView {
    Missing,
    Children(Seq<DirEntryView>),
}

impl View for Listing {
    type V = ListingView;

    open spec fn view(&self) -> ListingView {
        match self {
            Listing::Missing => ListingView::Missing,
            Listing::Children(entries) => ListingView::Children(entry_views(entries@)),
        }
    }
}

/// What each listing of a list holds.
pub open spec fn listing_views(listings: Seq<Listing>) -> Seq<ListingView> {
    listings.map_values(|l: Listing| l@)
}

/// A project that was found in a location, with the plan for its icon.
#[derive(Clone, Debug, PartialEq, Eq)]
pub struct Found {
    pub project: Project,
    pub icon: IconPlan,
}

/// What a [`Found`] holds.
pub struct FoundView {
    pub project: ProjectView,
    pub icon: IconPlanView,
}

impl View for Found {
    type V = FoundView;

    open spec fn view(&self) -> FoundView {
        FoundView { project: self.project@, icon: self.icon@ }
    }
}

/// What each found project of a list holds.
pub open spec fn found_views(found: Seq<Found>) -> Seq<FoundView> {
    found.map_values(|f: Found| f@)
}

/// The projects of a list of found projects.
pub open spec fn found_projects(found: Seq<FoundView>) -> Seq<ProjectView> {
    found.map_values(|f: FoundView| f.project)
}

/// The display name of a project found in a location: the name of its
/// directory, a dash, and the label of the location, or the word `Project`
/// where the location has none.
pub open spec fn display_name(file_name: Seq<char>, label: Option<Seq<char>>) -> Seq<char> {
    file_name + " - "@ + match label {
        Some(text) => text,
        None => "Project"@,
    }
}

/// The project that a directory in a location stands for. Its icon is the
/// icon file of its display name, in the style of the location.
pub open spec fn found_entry(
    dirs: ProjectDirsView,
    location: ProjectLocationView,
    entry: DirEntryView,
) -> FoundView {
    let name = display_name(entry.file_name, location.name);
    FoundView {
        project: ProjectView {
            path: entry.path,
            name,
            icon: Some(icon_path(dirs.data_dir, name)),
            description: None,
        },
        icon: icon_plan(location.icon_style, name, dirs.cache_dir, dirs.data_dir),
    }
}

/// The projects among the children of a location: one for each child that
/// is a directory, in the order of the children.
pub open spec fn found_among(
    dirs: ProjectDirsView,
    location: ProjectLocationView,
    entries: Seq<DirEntryView>,
) -> Seq<FoundView>
    decreases entries.len(),
{
    if entries.len() == 0 {
        Seq::empty()
    } else {
        let before = found_among(dirs, location, entries.drop_last());
        if entries.last().is_dir {
            before.push(found_entry(dirs, location, entries.last()))
        } else {
            before
        }
    }
}

/// The listing that belongs to the location at `i`. A location that no
/// listing was taken for counts as missing.
pub open spec fn listing_at(listings: Seq<ListingView>, i: int) -> ListingView {
    if 0 <= i < listings.len() {
        listings[i]
    } else {
        ListingView::Missing
    }
}

/// The projects of one location. A location that is missing has none.
pub open spec fn found_in(
    dirs: ProjectDirsView,
    location: ProjectLocationView,
    listing: ListingView,
) -> Seq<FoundView> {
    match listing {
        ListingView::Missing => Seq::empty(),
        ListingView::Children(entries) => found_among(dirs, location, entries),
    }
}

/// The projects of the first `n` locations, location by location.
pub open spec fn found_up_to(
    dirs: ProjectDirsView,
    locations: Seq<ProjectLocationView>,
    listings: Seq<ListingView>,
    n: int,
) -> Seq<FoundView>
    decreases n,
{
    if n <= 0 {
        Seq::empty()
    } else {
        found_up_to(dirs, locations, listings, n - 1) + found_in(
            dirs,
            locations[n - 1],
            listing_at(listings, n - 1),
        )
    }
}

/// The projects of all locations, in the order of the locations and, within
/// a location, of its children.
pub open spec fn found_everywhere(
    dirs: ProjectDirsView,
    locations: Seq<ProjectLocationView>,
    listings: Seq<ListingView>,
) -> Seq<FoundView> {
    found_up_to(dirs, locations, listings, locations.len() as int)
}

/// All projects: the registered ones as they are, then the found ones.
pub open spec fn resolved_projects(
    registered: Seq<ProjectView>,
    dirs: ProjectDirsView,
    locations: Seq<ProjectLocationView>,
    listings: Seq<ListingView>,
) -> Seq<ProjectView> {
    registered + found_projects(found_everywhere(dirs, locations, listings))
}

/// Computes [`found_in`], adding the projects to `out`.
fn discover_in(
    app_state: &AppState,
    location: &ProjectLocation,
    listing: &Listing,
    out: &mut Vec<Found>,
)
    ensures
        found_views(final(out)@) == found_views(old(out)@) + found_in(
            app_state.project_dirs@,
            location@,
            listing@,
        ),
{
    let ghost dirs = app_state.project_dirs@;
    match listing {
        Listing::Missing => {},
        Listing::Children(entries) => {
            let mut i: usize = 0;
            while i < entries.len()
                invariant
                    i <= entries.len(),
                    dirs == app_state.project_dirs@,
                    found_views(out@) == found_views(old(out)@) + found_among(
                        dirs,
                        location@,
                        entry_views(entries@).take(i as int),
                    ),
                decreases entries.len() - i,
            {
                let ghost before = out@;
                let ghost seen = entry_views(entries@).take(i as int);
                let ghost next = entry_views(entries@).take(i + 1);
                assert(next.drop_last() =~= seen);
                if entries[i].is_dir {
                    let label: &str = match &location.name {
                        Some(text) => text.as_str(),
                        None => "Project",
                    };
                    let name = joined3(entries[i].file_name.as_str(), " - ", label);
                    let icon = build_icon(location.icon_style, name.as_str(), app_state);
                    let project = Project {
                        path: entries[i].path.clone(),
                        name,
                        icon: Some(icon.icon_path.clone()),
                        description: None,
                    };
                    let found = Found { project, icon };
                    out.push(found);
                    assert(found_views(out@) =~= found_views(before).push(
                        found_entry(dirs, location@, entries[i as int]@),
                    ));
                }
                i += 1;
            }
            assert(entry_views(entries@).take(entries@.len() as int) =~= entry_views(entries@));
        },
    }
}

/// Finds the projects in the registered locations. `listings` holds, for
/// each location in turn, what was found at its path. A location that is
/// missing is passed over, and the others still give their projects. Each
/// directory in a location becomes a project, in the order of the listing;
/// what is not a directory is passed over.
pub fn discover(app_state: &AppState, listings: &Vec<Listing>) -> (r: Vec<Found>)
    ensures
        found_views(r@) == found_everywhere(
            app_state.project_dirs@,
            app_state.config@.project_locations,
            listing_views(listings@),
        ),
{
    let ghost dirs = app_state.project_dirs@;
    let ghost locations = app_state.config@.project_locations;
    let ghost lists = listing_views(listings@);
    let mut out: Vec<Found> = Vec::new();
    let missing = Listing::Missing;
    let mut n: usize = 0;
    while n < app_state.config.project_locations.len()
        invariant
            n <= app_state.config.project_locations.len(),
            dirs == app_state.project_dirs@,
            locations == app_state.config@.project_locations,
            lists == listing_views(listings@),
            missing@ == ListingView::Missing,
            found_views(out@) == found_up_to(dirs, locations, lists, n as int),
        decreases app_state.config.project_locations.len() - n,
    {
        let listing = if n < listings.len() {
            &listings[n]
        } else {
            &missing
        };
        discover_in(app_state, &app_state.config.project_locations[n], listing, &mut out);
        n += 1;
    }
    out
}

/// All projects, ready for their shortcuts: first the registered projects,
/// in their order and as they are; then the projects found in the
/// locations, as [`discover`] gives them.
pub fn get_projects(app_state: &AppState, listings: &Vec<Listing>) -> (r: Vec<Project>)
    ensures
        project_views(r@) == resolved_projects(
            app_state.config@.projects,
            app_state.project_dirs@,
            app_state.config@.project_locations,
            listing_views(listings@),
        ),
{
    let mut projects = clone_projects(&app_state.config.projects);
    let found = discover(app_state, listings);
    let ghost registered = project_views(projects@);
    let mut i: usize = 0;
    while i < found.len()
        invariant
            i <= found.len(),
            project_views(projects@) == registered + found_projects(found_views(found@)).take(
                i as int,
            ),
        decreases found.len() - i,
    {
        let ghost before = projects@;
        projects.push(found[i].project.clone());
        assert(project_views(projects@) =~= project_views(before).push(found[i as int].project@));
        i += 1;
    }
    projects
}

/// The registered projects come first, unchanged, and the found projects
/// follow them.
pub proof fn law_registered_projects_come_first(
    registered: Seq<ProjectView>,
    dirs: ProjectDirsView,
    locations: Seq<ProjectLocationView>,
    listings: Seq<ListingView>,
)
    ensures
        ({
            let all = resolved_projects(registered, dirs, locations, listings);
            &&& all.len() >= registered.len()
            &&& all.take(registered.len() as int) == registered
            &&& all.skip(registered.len() as int) == found_projects(
                found_everywhere(dirs, locations, listings),
            )
        }),
{
    let all = resolved_projects(registered, dirs, locations, listings);
}

/// The projects found in a location are its directories, in the order in
/// which they are listed: what is not a directory leaves no trace, and
/// nothing is sorted.
pub proof fn law_found_are_the_directories_in_listing_order(
    dirs: ProjectDirsView,
    location: ProjectLocationView,
    entries: Seq<DirEntryView>,
)
    ensures
        found_among(dirs, location, entries) == entries.filter(
            |e: DirEntryView| e.is_dir,
        ).map_values(|e: DirEntryView| found_entry(dirs, location, e)),
    decreases entries.len(),
{
    reveal(Seq::filter);
    if entries.len() > 0 {
        law_found_are_the_directories_in_listing_order(dirs, location, entries.drop_last());
    }
}

/// A location that is missing gives no project and takes none away: the
/// result is the same as if the location were not registered at all.
pub proof fn law_missing_location_is_passed_over(
    dirs: ProjectDirsView,
    locations: Seq<ProjectLocationView>,
    listings: Seq<ListingView>,
    k: int,
)
    requires
        listings.len() == locations.len(),
        0 <= k < locations.len(),
        listings[k] is Missing,
    ensures
        found_everywhere(dirs, locations, listings) == found_everywhere(
            dirs,
            locations.remove(k),
            listings.remove(k),
        ),
{
    lemma_missing_up_to(dirs, locations, listings, k, locations.len() as int);
}

/// The projects found up to `n`, with and without the missing location `k`.
proof fn lemma_missing_up_to(
    dirs: ProjectDirsView,
    locations: Seq<ProjectLocationView>,
    listings: Seq<ListingView>,
    k: int,
    n: int,
)
    requires
        listings.len() == locations.len(),
        0 <= k < locations.len(),
        listings[k] is Missing,
        0 <= n <= locations.len(),
    ensures
        n <= k ==> found_up_to(dirs, locations, listings, n) == found_up_to(
            dirs,
            locations.remove(k),
            listings.remove(k),
            n,
        ),
        n > k ==> found_up_to(dirs, locations, listings, n) == found_up_to(
            dirs,
            locations.remove(k),
            listings.remove(k),
            n - 1,
        ),
    decreases n,
{
    if n > 0 {
        lemma_missing_up_to(dirs, locations, listings, k, n - 1);
    }
}

} // verus!
