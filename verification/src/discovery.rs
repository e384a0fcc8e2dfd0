//! From the entries of the projects directory to the work of a run: one
//! unit for each project and each behaviour of the catalog.

use crate::catalog::{HyperfineCmd, HyperfineCmdView};
use crate::errors::{IOError, IOErrorView};
use crate::text::{clone_text, deep_result};
use vstd::arithmetic::div_mod::lemma_fundamental_div_mod_converse;
use vstd::prelude::*;
use vstd::string::*;

verus! {

/// What came of listing a directory: the failure, or what was learned of
/// each entry, in the order of the listing.
#[derive(Debug, Clone, PartialEq, Eq)]
pub enum Listing<E> {
    Failed(Option<String>),
    Entries(Vec<E>),
}

/// The mathematical view of [`Listing`]: every text as its sequence of characters.
pub enum ListingView<V> {
    Failed(Option<Seq<char>>),
    Entries(Seq<V>),
}

impl<E: DeepView> View for Listing<E> {
    type V = ListingView<E::V>;

    open spec fn view(&self) -> ListingView<E::V> {
        match self {
            Listing::Failed(cause) => ListingView::Failed(cause.deep_view()),
            Listing::Entries(entries) => ListingView::Entries(entries.deep_view()),
        }
    }
}

impl<E: DeepView> DeepView for Listing<E> {
    type V = ListingView<E::V>;

    open spec fn deep_view(&self) -> ListingView<E::V> {
        self.view()
    }
}

/// What was learned of one entry of the projects directory.
#[derive(Debug, Clone, PartialEq, Eq)]
pub enum ProjectEntry {
    /// The entry could not be read or examined; the cause, if known.
    Unreadable(Option<String>),
    /// The entry is not a directory.
    NotDirectory,
    /// A directory whose path has no final component; its path.
    NoFileName(String),
    /// A directory whose name is not valid Unicode; its path.
    NotUnicode(String),
    /// A project directory; its path and its name.
    Project(String, String),
}

/// The mathematical view of [`ProjectEntry`]: every text as its sequence of characters.
pub enum ProjectEntryView {
    Unreadable(Option<Seq<char>>),
    NotDirectory,
    NoFileName(Seq<char>),
    NotUnicode(Seq<char>),
    Project(Seq<char>, Seq<char>),
}

impl View for ProjectEntry {
    type V = ProjectEntryView;

    open spec fn view(&self) -> ProjectEntryView {
        match self {
            ProjectEntry::Unreadable(cause) => ProjectEntryView::Unreadable(cause.deep_view()),
            ProjectEntry::NotDirectory => ProjectEntryView::NotDirectory,
            ProjectEntry::NoFileName(path) => ProjectEntryView::NoFileName(path@),
            ProjectEntry::NotUnicode(path) => ProjectEntryView::NotUnicode(path@),
            ProjectEntry::Project(path, name) => ProjectEntryView::Project(path@, name@),
        }
    }
}

impl DeepView for ProjectEntry {
    type V = ProjectEntryView;

    open spec fn deep_view(&self) -> ProjectEntryView {
        self.view()
    }
}

/// One run of the engine that is to be made: a behaviour of the catalog on
/// a project.
#[derive(Debug, Clone, PartialEq, Eq)]
pub struct WorkUnit<'a> {
    pub project_path: String,
    pub project_name: String,
    pub cmd: HyperfineCmd<'a>,
}

/// The mathematical view of [`WorkUnit`]: every text as its sequence of characters.
pub struct WorkUnitView {
    pub project_path: Seq<char>,
    pub project_name: Seq<char>,
    pub cmd: HyperfineCmdView,
}

impl<'a> View for WorkUnit<'a> {
    type V = WorkUnitView;

    open spec fn view(&self) -> WorkUnitView {
        WorkUnitView {
            project_path: self.project_path@,
            project_name: self.project_name@,
            cmd: self.cmd@,
        }
    }
}

impl<'a> DeepView for WorkUnit<'a> {
    type V = WorkUnitView;

    open spec fn deep_view(&self) -> WorkUnitView {
        self.view()
    }
}

/// The projects among `entries`, each by its path and its name, in order;
/// or the error of the first entry that cannot be used. An entry that is no
/// directory is passed over.
pub open spec fn projects_of(projects_dir: Seq<char>, entries: Seq<ProjectEntryView>) -> Result<
    Seq<(Seq<char>, Seq<char>)>,
    IOErrorView,
>
    decreases entries.len(),
{
    if entries.len() == 0 {
        Ok(Seq::empty())
    } else {
        match projects_of(projects_dir, entries.drop_last()) {
            Err(e) => Err(e),
            Ok(projects) => match entries.last() {
                ProjectEntryView::Unreadable(cause) => Err(
                    IOErrorView::ReadErr(projects_dir, cause),
                ),
                ProjectEntryView::NotDirectory => Ok(projects),
                ProjectEntryView::NoFileName(path) => Err(IOErrorView::MissingFilenameErr(path)),
                ProjectEntryView::NotUnicode(path) => Err(
                    IOErrorView::FilenameNotUnicodeErr(path),
                ),
                ProjectEntryView::Project(path, name) => Ok(projects.push((path, name))),
            },
        }
    }
}

/// The unit of one project, given by its path and its name, and one
/// catalog entry.
pub open spec fn unit_of(project: (Seq<char>, Seq<char>), cmd: HyperfineCmdView) -> WorkUnitView {
    WorkUnitView { project_path: project.0, project_name: project.1, cmd }
}

/// Every project paired with every entry of the catalog: the units of one
/// project stand together, in the catalog's order, and the projects follow
/// each other in their own order.
pub open spec fn work_units(
    projects: Seq<(Seq<char>, Seq<char>)>,
    catalog: Seq<HyperfineCmdView>,
) -> Seq<WorkUnitView> {
    Seq::new(
        projects.len() * catalog.len(),
        |k: int|
            unit_of(projects[k / (catalog.len() as int)], catalog[k % (catalog.len() as int)]),
    )
}

/// The work of a run, from the listing of the projects directory.
pub open spec fn discover(
    projects_dir: Seq<char>,
    listing: ListingView<ProjectEntryView>,
    catalog: Seq<HyperfineCmdView>,
) -> Result<Seq<WorkUnitView>, IOErrorView> {
    match listing {
        ListingView::Failed(cause) => Err(IOErrorView::ReadErr(projects_dir, cause)),
        ListingView::Entries(entries) => match projects_of(projects_dir, entries) {
            Err(e) => Err(e),
            Ok(projects) => Ok(work_units(projects, catalog)),
        },
    }
}

/// Where every entry is a project, every entry is found: the projects are
/// the entries, in order.
pub proof fn lemma_every_project_is_found(projects_dir: Seq<char>, entries: Seq<ProjectEntryView>)
    requires
        forall|k: int| 0 <= k < entries.len() ==> #[trigger] entries[k] is Project,
    ensures
        projects_of(projects_dir, entries) == Ok::<Seq<(Seq<char>, Seq<char>)>, IOErrorView>(
            Seq::new(entries.len(), |k: int| (entries[k]->Project_0, entries[k]->Project_1)),
        ),
    decreases entries.len(),
{
    let found = Seq::new(entries.len(), |k: int| (entries[k]->Project_0, entries[k]->Project_1));
    if entries.len() == 0 {
        assert(found =~= Seq::empty());
    } else {
        let front = entries.drop_last();
        assert forall|k: int| 0 <= k < front.len() implies #[trigger] front[k] is Project by {
            assert(front[k] == entries[k]);
        }
        lemma_every_project_is_found(projects_dir, front);
        assert(entries.last() is Project);
        assert(found =~= Seq::new(
            front.len(),
            |k: int| (front[k]->Project_0, front[k]->Project_1),
        ).push((entries.last()->Project_0, entries.last()->Project_1)));
    }
}

/// The unit of project `i` and catalog entry `j` stands at `i * m + j`,
/// where `m` is the size of the catalog.
pub open spec fn pair_has_unit(
    projects: Seq<(Seq<char>, Seq<char>)>,
    catalog: Seq<HyperfineCmdView>,
    i: int,
    j: int,
) -> bool {
    let k = i * catalog.len() + j;
    &&& 0 <= k < work_units(projects, catalog).len()
    &&& work_units(projects, catalog)[k] == unit_of(projects[i], catalog[j])
}

/// The unit at `k` is that of a project and a catalog entry, which `k`
/// determines.
pub open spec fn unit_has_pair(
    projects: Seq<(Seq<char>, Seq<char>)>,
    catalog: Seq<HyperfineCmdView>,
    k: int,
) -> bool {
    let i = k / (catalog.len() as int);
    let j = k % (catalog.len() as int);
    &&& 0 <= i < projects.len()
    &&& 0 <= j < catalog.len()
    &&& k == i * catalog.len() + j
    &&& work_units(projects, catalog)[k] == unit_of(projects[i], catalog[j])
}

/// Discovery gives exactly one work unit for each pair of a project and a
/// catalog entry: as many units as pairs, each pair at a place of its own,
/// and a pair at each place.
pub proof fn lemma_one_unit_per_pair(
    projects: Seq<(Seq<char>, Seq<char>)>,
    catalog: Seq<HyperfineCmdView>,
)
    ensures
        work_units(projects, catalog).len() == projects.len() * catalog.len(),
        forall|i: int, j: int|
            0 <= i < projects.len() && 0 <= j < catalog.len() ==> #[trigger] pair_has_unit(
                projects,
                catalog,
                i,
                j,
            ),
        forall|k: int|
            0 <= k < work_units(projects, catalog).len() ==> #[trigger] unit_has_pair(
                projects,
                catalog,
                k,
            ),
{
    let n = projects.len() as int;
    let m = catalog.len() as int;
    assert(0 <= n * m) by (nonlinear_arith)
        requires
            0 <= n,
            0 <= m,
    ;
    assert forall|i: int, j: int| 0 <= i < n && 0 <= j < m implies #[trigger] pair_has_unit(
        projects,
        catalog,
        i,
        j,
    ) by {
        let k = i * m + j;
        lemma_fundamental_div_mod_converse(k, m, i, j);
        assert(0 <= i * m + j < n * m) by (nonlinear_arith)
            requires
                0 <= i < n,
                0 <= j < m,
        ;
    }
    assert forall|k: int| 0 <= k < n * m implies #[trigger] unit_has_pair(projects, catalog, k) by {
        lemma_unit_place(k, n, m);
    }
}

proof fn lemma_unit_place(k: int, n: int, m: int)
    requires
        0 <= k < n * m,
        0 <= n,
        0 <= m,
    ensures
        0 < m,
        0 <= k / m < n,
        0 <= k % m < m,
        k == (k / m) * m + k % m,
{
    assert(0 < m) by (nonlinear_arith)
        requires
            0 <= k < n * m,
            0 <= m,
    ;
    assert(0 <= k / m < n && 0 <= k % m < m && k == (k / m) * m + k % m) by (nonlinear_arith)
        requires
            0 <= k < n * m,
            0 < m,
    ;
}

/// The units of one more project are those of the projects before it,
/// then one for each catalog entry on the new project.
proof fn lemma_work_units_push(
    projects: Seq<(Seq<char>, Seq<char>)>,
    project: (Seq<char>, Seq<char>),
    catalog: Seq<HyperfineCmdView>,
)
    ensures
        work_units(projects.push(project), catalog) == work_units(projects, catalog) + Seq::new(
            catalog.len(),
            |j: int| unit_of(project, catalog[j]),
        ),
{
    let n = projects.len() as int;
    let m = catalog.len() as int;
    let left = work_units(projects.push(project), catalog);
    let row = Seq::new(catalog.len(), |j: int| unit_of(project, catalog[j]));
    let right = work_units(projects, catalog) + row;
    assert((n + 1) * m == n * m + m) by (nonlinear_arith);
    assert(0 <= n * m) by (nonlinear_arith)
        requires
            0 <= n,
            0 <= m,
    ;
    assert(left.len() == right.len());
    assert forall|k: int| 0 <= k < left.len() implies left[k] == right[k] by {
        lemma_unit_place(k, n + 1, m);
        if k < n * m {
            lemma_unit_place(k, n, m);
        } else {
            lemma_fundamental_div_mod_converse(k, m, n, k - n * m);
        }
    }
    assert(left =~= right);
}

/// The first entry that cannot be used decides: what follows it changes
/// nothing.
proof fn lemma_error_stays(projects_dir: Seq<char>, entries: Seq<ProjectEntryView>, k: int)
    requires
        0 <= k <= entries.len(),
        projects_of(projects_dir, entries.take(k)) is Err,
    ensures
        projects_of(projects_dir, entries) == projects_of(projects_dir, entries.take(k)),
    decreases entries.len() - k,
{
    if k == entries.len() {
        assert(entries.take(k) =~= entries);
    } else {
        assert(entries.take(k + 1).drop_last() =~= entries.take(k));
        lemma_error_stays(projects_dir, entries, k + 1);
    }
}

/// Pairs every project of the listing with every entry of the catalog.
///
/// Fails with the error of the first entry that cannot be used: one that
/// could not be read, or a directory without a name or with a name that is
/// not valid Unicode. Entries that are no directories are passed over.
pub fn get_projects<'a>(
    projects_dir: &str,
    listing: &Listing<ProjectEntry>,
    catalog: &Vec<HyperfineCmd<'a>>,
) -> (r: Result<Vec<WorkUnit<'a>>, IOError>)
    ensures
        deep_result(r) == discover(projects_dir@, listing.deep_view(), catalog.deep_view()),
{
    match listing {
        Listing::Failed(cause) => Err(
            IOError::ReadErr(String::from_str(projects_dir), clone_text(cause)),
        ),
        Listing::Entries(entries) => {
            let ghost all = entries.deep_view();
            let ghost mut projects: Seq<(Seq<char>, Seq<char>)> = Seq::empty();
            let mut units: Vec<WorkUnit<'a>> = Vec::new();
            assert(all.take(0) =~= Seq::empty());
            assert(units.deep_view() =~= work_units(projects, catalog.deep_view()));
            let mut i: usize = 0;
            while i < entries.len()
                invariant
                    all == entries.deep_view(),
                    listing.deep_view() == ListingView::Entries(all),
                    i <= entries.len(),
                    projects_of(projects_dir@, all.take(i as int)) == Ok::<
                        Seq<(Seq<char>, Seq<char>)>,
                        IOErrorView,
                    >(projects),
                    units.deep_view() == work_units(projects, catalog.deep_view()),
                decreases entries.len() - i,
            {
                proof {
                    assert(all.take(i + 1).drop_last() =~= all.take(i as int));
                    assert(all.take(i + 1).last() == entries[i as int]@);
                }
                match &entries[i] {
                    ProjectEntry::Unreadable(cause) => {
                        proof {
                            lemma_error_stays(projects_dir@, all, i + 1);
                        }
                        return Err(
                            IOError::ReadErr(String::from_str(projects_dir), clone_text(cause)),
                        );
                    },
                    ProjectEntry::NotDirectory => {},
                    ProjectEntry::NoFileName(path) => {
                        proof {
                            lemma_error_stays(projects_dir@, all, i + 1);
                        }
                        return Err(IOError::MissingFilenameErr(path.clone()));
                    },
                    ProjectEntry::NotUnicode(path) => {
                        proof {
                            lemma_error_stays(projects_dir@, all, i + 1);
                        }
                        return Err(IOError::FilenameNotUnicodeErr(path.clone()));
                    },
                    ProjectEntry::Project(path, name) => {
                        let ghost before = units.deep_view();
                        let ghost project = (path@, name@);
                        let mut j: usize = 0;
                        while j < catalog.len()
                            invariant
                                j <= catalog.len(),
                                project == (path@, name@),
                                units.deep_view() == before + Seq::new(
                                    j as nat,
                                    |j: int| unit_of(project, catalog.deep_view()[j]),
                                ),
                            decreases catalog.len() - j,
                        {
                            let ghost old_units = units.deep_view();
                            units.push(
                                WorkUnit {
                                    project_path: path.clone(),
                                    project_name: name.clone(),
                                    cmd: catalog[j],
                                },
                            );
                            assert(units.deep_view() =~= old_units.push(
                                unit_of(project, catalog.deep_view()[j as int]),
                            ));
                            assert(units.deep_view() =~= before + Seq::new(
                                (j + 1) as nat,
                                |j: int| unit_of(project, catalog.deep_view()[j]),
                            ));
                            j += 1;
                        }
                        proof {
                            lemma_work_units_push(projects, project, catalog.deep_view());
                            projects = projects.push(project);
                        }
                    },
                }
                i += 1;
            }
            assert(all.take(i as int) =~= all);
            Ok(units)
        },
    }
}

} // verus!
