//! Projects: the git repositories kilds are created in, their stored list,
//! the ids sessions are filtered by, and their display names.
//!
//! Paths are held as strings. Probing the file system (canonicalising,
//! checking for a directory or a repository) happens outside this module;
//! the functions here take what the probes found.
use vstd::prelude::*;
use crate::paths::{canonicalize, home_dir, join, spec_join};
use crate::text::{hex_digits, is_hex_char, lemma_hex_digits_are_hex, owned, push_hex, push_str};

verus! {

/// What `std::path::Path::file_name` gives for a path, as text: the final
/// normal component, or `None` for a root, an empty path or one ending in `..`.
pub uninterp spec fn spec_file_name(path: Seq<char>) -> Option<Seq<char>>;

/// Whether two paths are equal as `std::path::Path` values (component by
/// component, so `"/a//b/"` equals `"/a/b"`).
pub uninterp spec fn spec_same_path(a: Seq<char>, b: Seq<char>) -> bool;

/// The 64-bit hash of a path under `DefaultHasher::new()` (SipHash with
/// fixed keys, so the same path hashes the same in every process).
pub uninterp spec fn spec_path_hash(path: Seq<char>) -> u64;

/// The final component of `path` (`Path::file_name`).
///
/// Trusted: the result is `spec_file_name` of the path, as text.
#[verifier::external_body]
pub(crate) fn file_name(path: &str) -> (r: Option<String>)
    ensures
        match r {
            Some(n) => spec_file_name(path@) == Some(n@),
            None => spec_file_name(path@) is None,
        },
{
    match std::path::Path::new(path).file_name() {
        Some(n) => Some(n.to_string_lossy().into_owned()),
        None => None,
    }
}

/// Path equality (`<Path as PartialEq>::eq`).
///
/// Trusted: the result is `spec_same_path` of the two paths, and identical
/// strings are equal paths.
#[verifier::external_body]
pub(crate) fn same_path(a: &str, b: &str) -> (r: bool)
    ensures
        r == spec_same_path(a@, b@),
        a@ == b@ ==> r,
{
    std::path::Path::new(a) == std::path::Path::new(b)
}

/// Hashes a path with a freshly created `DefaultHasher`
/// (`BuildHasher::hash_one` on `BuildHasherDefault<DefaultHasher>`, which
/// builds the hasher, feeds it the path and finishes).
///
/// Trusted: the result is `spec_path_hash` of the path.
#[verifier::external_body]
fn path_hash(path: &str) -> (h: u64)
    ensures
        h == spec_path_hash(path@),
{
    std::hash::BuildHasher::hash_one(
        &std::hash::BuildHasherDefault::<std::collections::hash_map::DefaultHasher>::default(),
        std::path::Path::new(path),
    )
}

/// Why a project could not be created.
#[derive(Debug, Clone, PartialEq, Eq)]
pub enum ProjectError {
    /// The path is not a directory.
    NotADirectory,
    /// The path is not a git repository.
    NotAGitRepo,
    /// The path could not be canonicalised; holds the system's error message.
    CanonicalizationFailed(String),
}

/// The message shown for a project error.
pub open spec fn project_error_text(e: ProjectError) -> Seq<char> {
    match e {
        ProjectError::NotADirectory => "Path is not a directory"@,
        ProjectError::NotAGitRepo => "Path is not a git repository"@,
        ProjectError::CanonicalizationFailed(m) => "Cannot resolve path: "@ + m@,
    }
}

impl ProjectError {
    /// The message shown for this error.
    pub fn to_string(&self) -> (r: String)
        ensures
            r@ == project_error_text(*self),
    {
        match self {
            ProjectError::NotADirectory => owned("Path is not a directory"),
            ProjectError::NotAGitRepo => owned("Path is not a git repository"),
            ProjectError::CanonicalizationFailed(m) => {
                let mut out = owned("Cannot resolve path: ");
                push_str(&mut out, m.as_str());
                out
            },
        }
    }
}

/// A project: a git repository (by its canonical path) and a display name.
#[derive(Debug, Clone)]
pub struct Project {
    path: String,
    name: String,
}

/// The content of a project.
pub struct ProjectView {
    pub path: Seq<char>,
    pub name: Seq<char>,
}

impl View for Project {
    type V = ProjectView;

    closed spec fn view(&self) -> ProjectView {
        ProjectView { path: self.path@, name: self.name@ }
    }
}

impl PartialEq for Project {
    fn eq(&self, other: &Self) -> (r: bool) {
        same_path(self.path.as_str(), other.path.as_str()) && self.name == other.name
    }
}

impl vstd::std_specs::cmp::PartialEqSpecImpl for Project {
    open spec fn obeys_eq_spec() -> bool {
        true
    }

    open spec fn eq_spec(&self, other: &Self) -> bool {
        spec_same_path(self@.path, other@.path) && self@.name == other@.name
    }
}

/// The display name derived from a path: its final component, or
/// `"unknown"` when it has none (such as the root `/`).
pub open spec fn display_name(path: Seq<char>) -> Seq<char> {
    match spec_file_name(path) {
        Some(n) => n,
        None => "unknown"@,
    }
}

/// The id sessions use for the project at `path`: the lowercase hexadecimal
/// rendering of the path's hash.
pub open spec fn project_id(path: Seq<char>) -> Seq<char> {
    hex_digits(spec_path_hash(path) as nat)
}

/// The outcome of creating a project from the probes of its path: the
/// canonicalisation result, whether the canonical path is a directory and
/// whether it is a git repository; the name defaults to the display name.
pub open spec fn new_project_outcome(
    canonical: Result<Seq<char>, Seq<char>>,
    is_dir: bool,
    is_git_repo: bool,
    name: Option<Seq<char>>,
) -> Result<ProjectView, ProjectErrorKind> {
    match canonical {
        Err(e) => Err(ProjectErrorKind::CanonicalizationFailed(e)),
        Ok(c) => if !is_dir {
            Err(ProjectErrorKind::NotADirectory)
        } else if !is_git_repo {
            Err(ProjectErrorKind::NotAGitRepo)
        } else {
            Ok(ProjectView {
                path: c,
                name: match name {
                    Some(n) => n,
                    None => display_name(c),
                },
            })
        },
    }
}

/// The content of a project error.
pub enum ProjectErrorKind {
    NotADirectory,
    NotAGitRepo,
    CanonicalizationFailed(Seq<char>),
}

/// The content of a project error value.
pub open spec fn error_kind(e: ProjectError) -> ProjectErrorKind {
    match e {
        ProjectError::NotADirectory => ProjectErrorKind::NotADirectory,
        ProjectError::NotAGitRepo => ProjectErrorKind::NotAGitRepo,
        ProjectError::CanonicalizationFailed(m) => ProjectErrorKind::CanonicalizationFailed(m@),
    }
}

/// The content of a project-creation result.
pub open spec fn outcome_view(r: Result<Project, ProjectError>) -> Result<ProjectView, ProjectErrorKind> {
    match r {
        Ok(p) => Ok(p@),
        Err(e) => Err(error_kind(e)),
    }
}

/// The content of a string result.
pub open spec fn result_view(r: Result<String, String>) -> Result<Seq<char>, Seq<char>> {
    match r {
        Ok(s) => Ok(s@),
        Err(e) => Err(e@),
    }
}

/// The content of an optional string.
pub open spec fn option_view(o: Option<String>) -> Option<Seq<char>> {
    match o {
        Some(s) => Some(s@),
        None => None,
    }
}

impl Project {
    /// Creates a validated project from the probes of its path.
    ///
    /// `canonical` is the result of canonicalising the path (the error holds
    /// the system's message), `is_dir` whether the canonical path is a
    /// directory and `is_git_repo` whether it is a git repository. Fails, in
    /// this order, when the path could not be canonicalised, is not a
    /// directory, or is not a repository. Without a `name` the project is
    /// named after the final component of its canonical path.
    pub fn new(
        canonical: Result<String, String>,
        is_dir: bool,
        is_git_repo: bool,
        name: Option<String>,
    ) -> (r: Result<Project, ProjectError>)
        ensures
            outcome_view(r) == new_project_outcome(
                result_view(canonical),
                is_dir,
                is_git_repo,
                option_view(name),
            ),
    {
        let canonical = match canonical {
            Ok(c) => c,
            Err(e) => {
                return Err(ProjectError::CanonicalizationFailed(e));
            },
        };
        if !is_dir {
            return Err(ProjectError::NotADirectory);
        }
        if !is_git_repo {
            return Err(ProjectError::NotAGitRepo);
        }
        let name = match name {
            Some(n) => n,
            None => derive_display_name(canonical.as_str()),
        };
        Ok(Project { path: canonical, name })
    }

    /// Creates a project as given, without validation.
    pub fn new_unchecked(path: String, name: String) -> (r: Project)
        ensures
            r@.path == path@,
            r@.name == name@,
    {
        Project { path, name }
    }

    /// The project's path.
    pub fn path(&self) -> (r: &str)
        ensures
            r@ == self@.path,
    {
        self.path.as_str()
    }

    /// The project's display name.
    pub fn name(&self) -> (r: &str)
        ensures
            r@ == self@.name,
    {
        self.name.as_str()
    }

    /// Renames the project; the path is unchanged.
    pub fn set_name(&mut self, name: String)
        ensures
            final(self)@.name == name@,
            final(self)@.path == old(self)@.path,
    {
        self.name = name;
    }

    /// Moves the project to another path; the name is unchanged.
    pub fn set_path(&mut self, path: String)
        ensures
            final(self)@.path == path@,
            final(self)@.name == old(self)@.name,
    {
        self.path = path;
    }
}

/// The id sessions use for the project at `path`: the path's hash under a
/// fixed-key `DefaultHasher`, in lowercase hexadecimal. The same path always
/// gives the same id; the id is a non-empty string of hexadecimal digits.
pub fn derive_project_id(path: &str) -> (r: String)
    ensures
        r@ == project_id(path@),
        r@.len() >= 1,
        forall|i: int| 0 <= i < r@.len() ==> is_hex_char(#[trigger] r@[i]),
{
    let h = path_hash(path);
    let mut out = String::new();
    push_hex(&mut out, h);
    proof {
        lemma_hex_digits_are_hex(h as nat);
        assert(out@ == hex_digits(h as nat));
    }
    out
}

/// A human-readable name for a path: its final component, or `"unknown"`
/// when it has none (such as the root `/`).
pub fn derive_display_name(path: &str) -> (r: String)
    ensures
        r@ == display_name(path@),
{
    match file_name(path) {
        Some(n) => n,
        None => owned("unknown"),
    }
}

/// The outcome of checking a path before adding it as a project.
#[derive(Debug, Clone, Copy, PartialEq, Eq, Structural)]
pub enum ProjectValidation {
    Valid,
    NotADirectory,
    NotAGitRepo,
    AlreadyExists,
}

/// Whether some project in `existing` has the same path as `path`.
pub open spec fn path_listed(path: Seq<char>, existing: Seq<Project>) -> bool {
    exists|i: int| 0 <= i < existing.len() && spec_same_path(#[trigger] existing[i]@.path, path)
}

/// The verdict on adding `path` next to `existing`, given whether the path
/// is a directory and whether it is a git repository.
pub open spec fn validation_of(
    path: Seq<char>,
    existing: Seq<Project>,
    is_dir: bool,
    is_git_repo: bool,
) -> ProjectValidation {
    if !is_dir {
        ProjectValidation::NotADirectory
    } else if !is_git_repo {
        ProjectValidation::NotAGitRepo
    } else if path_listed(path, existing) {
        ProjectValidation::AlreadyExists
    } else {
        ProjectValidation::Valid
    }
}

/// Checks a path before adding it as a project: it must be a directory
/// (`is_dir`), a git repository (`is_git_repo`), and not the path of any
/// project in `existing`; the first failed check is reported.
pub fn validate_project_path(
    path: &str,
    existing: &[Project],
    is_dir: bool,
    is_git_repo: bool,
) -> (r: ProjectValidation)
    ensures
        r == validation_of(path@, existing@, is_dir, is_git_repo),
{
    if !is_dir {
        return ProjectValidation::NotADirectory;
    }
    if !is_git_repo {
        return ProjectValidation::NotAGitRepo;
    }
    let mut i: usize = 0;
    while i < existing.len()
        invariant
            is_dir && is_git_repo,
            i <= existing@.len(),
            forall|j: int| 0 <= j < i ==> !spec_same_path(#[trigger] existing@[j]@.path, path@),
        decreases existing@.len() - i,
    {
        if same_path(existing[i].path(), path) {
            assert(spec_same_path(existing@[i as int]@.path, path@));
            assert(path_listed(path@, existing@));
            return ProjectValidation::AlreadyExists;
        }
        i = i + 1;
    }
    ProjectValidation::Valid
}

/// The name of the first project whose path equals `path` (as paths).
pub open spec fn name_at_path(ps: Seq<Project>, path: Seq<char>) -> Option<Seq<char>>
    decreases ps.len(),
{
    if ps.len() == 0 {
        None
    } else if spec_same_path(ps[0]@.path, path) {
        Some(ps[0]@.name)
    } else {
        name_at_path(ps.drop_first(), path)
    }
}

/// The label of the project selector: `All Projects` without a selection,
/// else the name of the selected project, or `Select Project` when no
/// project has the selected path.
pub open spec fn selector_label(ps: Seq<Project>, active: Option<Seq<char>>) -> Seq<char> {
    match active {
        None => "All Projects"@,
        Some(a) => match name_at_path(ps, a) {
            Some(n) => n,
            None => "Select Project"@,
        },
    }
}

/// The content of an optional string slice.
pub open spec fn str_option_view(o: Option<&str>) -> Option<Seq<char>> {
    match o {
        Some(s) => Some(s@),
        None => None,
    }
}

/// The label of the project selector (see [`selector_label`]).
pub fn project_selector_label(projects: &[Project], active: Option<&str>) -> (r: String)
    ensures
        r@ == selector_label(projects@, str_option_view(active)),
{
    match active {
        None => owned("All Projects"),
        Some(a) => {
            let n = projects.len();
            let mut i: usize = 0;
            assert(projects@.subrange(0, n as int) =~= projects@);
            while i < n
                invariant
                    n == projects@.len(),
                    i <= n,
                    active == Some(a),
                    name_at_path(projects@, a@) == name_at_path(projects@.subrange(i as int, n as int), a@),
                decreases n - i,
            {
                let ghost rest = projects@.subrange(i as int, n as int);
                assert(rest[0] == projects@[i as int]);
                assert(rest.drop_first() =~= projects@.subrange(i + 1, n as int));
                if same_path(projects[i].path(), a) {
                    assert(name_at_path(rest, a@) == Some(rest[0]@.name));
                    return owned(projects[i].name());
                }
                assert(name_at_path(rest, a@) == name_at_path(rest.drop_first(), a@));
                i = i + 1;
            }
            assert(projects@.subrange(n as int, n as int).len() == 0);
            owned("Select Project")
        },
    }
}

/// The stored project list.
#[derive(Debug, Clone)]
pub struct ProjectsData {
    pub projects: Vec<Project>,
    /// Path of the selected project, if any.
    pub active: Option<String>,
    /// Why loading the stored list failed, if it did.
    pub load_error: Option<String>,
}

impl Default for ProjectsData {
    fn default() -> (r: ProjectsData)
        ensures
            r.projects@.len() == 0,
            r.active is None,
            r.load_error is None,
    {
        ProjectsData { projects: Vec::new(), active: None, load_error: None }
    }
}

/// The path a stored path migrates to, given the result of canonicalising
/// it: the canonical path when it differs, else the stored path.
pub open spec fn migrated_path(stored: Seq<char>, canonical: Result<Seq<char>, Seq<char>>) -> Seq<char> {
    match canonical {
        Ok(c) => if spec_same_path(c, stored) { stored } else { c },
        Err(_) => stored,
    }
}

/// Whether migrating a stored project path changes it.
pub open spec fn path_moves(stored: Seq<char>, canonical: Result<Seq<char>, Seq<char>>) -> bool {
    canonical matches Ok(c) && !spec_same_path(c, stored)
}

/// The selection after migration: moved to its canonical path when that
/// differs, cleared when it could not be canonicalised.
pub open spec fn migrated_active(
    active: Option<Seq<char>>,
    canonical: Option<Result<Seq<char>, Seq<char>>>,
) -> Option<Seq<char>> {
    match (active, canonical) {
        (Some(a), Some(Ok(c))) => if spec_same_path(c, a) { Some(a) } else { Some(c) },
        (Some(_), Some(Err(_))) => None,
        _ => active,
    }
}

/// Whether migrating the selection changes it.
pub open spec fn active_moves(
    active: Option<Seq<char>>,
    canonical: Option<Result<Seq<char>, Seq<char>>>,
) -> bool {
    match (active, canonical) {
        (Some(a), Some(Ok(c))) => !spec_same_path(c, a),
        (Some(_), Some(Err(_))) => true,
        _ => false,
    }
}

/// The content of an optional string result.
pub open spec fn option_result_view(o: Option<Result<String, String>>) -> Option<Result<Seq<char>, Seq<char>>> {
    match o {
        Some(r) => Some(result_view(r)),
        None => None,
    }
}

/// Rewrites stored paths to their canonical form.
///
/// `canonical[i]` is the result of canonicalising the path of project `i`,
/// and `active_canonical` that of the selected path (present whenever a
/// project is selected). A project whose path canonicalises to a different
/// path moves there; one whose path cannot be canonicalised keeps it. The
/// selection moves likewise, but is cleared when its path cannot be
/// canonicalised. Names, the number and order of projects and the load
/// error are untouched. Returns whether anything changed.
pub fn apply_canonical_paths(
    data: &mut ProjectsData,
    canonical: &Vec<Result<String, String>>,
    active_canonical: Option<Result<String, String>>,
) -> (changed: bool)
    requires
        canonical@.len() == old(data).projects@.len(),
        old(data).active is Some ==> active_canonical is Some,
    ensures
        final(data).projects@.len() == old(data).projects@.len(),
        forall|i: int| 0 <= i < old(data).projects@.len() ==> {
            &&& (#[trigger] final(data).projects@[i])@.path == migrated_path(
                old(data).projects@[i]@.path,
                result_view(canonical@[i]),
            )
            &&& final(data).projects@[i]@.name == old(data).projects@[i]@.name
        },
        option_view(final(data).active) == migrated_active(
            option_view(old(data).active),
            option_result_view(active_canonical),
        ),
        final(data).load_error == old(data).load_error,
        changed == ((exists|i: int|
            0 <= i < old(data).projects@.len() && path_moves(
                #[trigger] old(data).projects@[i]@.path,
                result_view(canonical@[i]),
            )) || active_moves(option_view(old(data).active), option_result_view(active_canonical))),
{
    let ghost old_projects = data.projects@;
    let mut changed = false;
    let n = data.projects.len();
    let mut i: usize = 0;
    while i < n
        invariant
            n == old_projects.len(),
            n == canonical@.len(),
            i <= n,
            data.projects@.len() == n,
            forall|j: int| 0 <= j < i ==> {
                &&& (#[trigger] data.projects@[j])@.path == migrated_path(
                    old_projects[j]@.path,
                    result_view(canonical@[j]),
                )
                &&& data.projects@[j]@.name == old_projects[j]@.name
            },
            forall|j: int| i <= j < n ==> #[trigger] data.projects@[j] == old_projects[j],
            changed == exists|j: int|
                0 <= j < i && path_moves(#[trigger] old_projects[j]@.path, result_view(canonical@[j])),
            data.active == old(data).active,
            data.load_error == old(data).load_error,
        decreases n - i,
    {
        match &canonical[i] {
            Ok(c) => {
                if !same_path(c.as_str(), data.projects[i].path()) {
                    let p = Project { path: c.clone(), name: data.projects[i].name.clone() };
                    data.projects.set(i, p);
                    changed = true;
                }
            },
            Err(_) => {},
        }
        i = i + 1;
    }
    let ghost projects_changed = changed;
    let active = data.active.take();
    match (active, active_canonical) {
        (Some(a), Some(Ok(c))) => {
            if same_path(c.as_str(), a.as_str()) {
                data.active = Some(a);
            } else {
                data.active = Some(c);
                changed = true;
            }
        },
        (Some(_), Some(Err(_))) => {
            changed = true;
        },
        (a, _) => {
            data.active = a;
        },
    }
    assert(changed == (projects_changed || active_moves(
        option_view(old(data).active),
        option_result_view(active_canonical),
    )));
    changed
}


/// Whether a result of canonicalising a path is one the file system can
/// give: a path in canonical form (absolute, without `.` or `..`
/// components), or an error.
pub open spec fn possible_canonical(r: Result<Seq<char>, Seq<char>>) -> bool {
    r matches Ok(c) ==> crate::paths::canonical_form(c)
}

/// Whether `new` (with `changed`) is the list `old` after migration, when
/// canonicalising the path of project `i` gave `canonical[i]` and
/// canonicalising the selected path gave `active_canonical` (asked exactly
/// when a project is selected); see [`apply_canonical_paths`].
pub open spec fn migration_of(
    old: ProjectsData,
    new: ProjectsData,
    canonical: Seq<Result<Seq<char>, Seq<char>>>,
    active_canonical: Option<Result<Seq<char>, Seq<char>>>,
    changed: bool,
) -> bool {
    &&& canonical.len() == old.projects@.len()
    &&& (old.active is Some <==> active_canonical is Some)
    &&& forall|i: int| 0 <= i < canonical.len() ==> possible_canonical(#[trigger] canonical[i])
    &&& (active_canonical matches Some(a) ==> possible_canonical(a))
    &&& new.projects@.len() == old.projects@.len()
    &&& forall|i: int| 0 <= i < old.projects@.len() ==> {
        &&& (#[trigger] new.projects@[i])@.path == migrated_path(old.projects@[i]@.path, canonical[i])
        &&& new.projects@[i]@.name == old.projects@[i]@.name
    }
    &&& option_view(new.active) == migrated_active(option_view(old.active), active_canonical)
    &&& new.load_error == old.load_error
    &&& changed == ((exists|i: int| 0 <= i < old.projects@.len() && path_moves(
        #[trigger] old.projects@[i]@.path,
        canonical[i],
    )) || active_moves(option_view(old.active), active_canonical))
}

/// Rewrites the stored paths to their canonical form, asking the file
/// system for each (see [`apply_canonical_paths`]). Returns whether anything
/// changed, in which case the list should be saved again.
///
/// Whatever the file system answers, the number and order of projects,
/// their names and the load error are kept, and when nothing changed every
/// path and the selection are as before.
pub fn migrate_projects_to_canonical(data: &mut ProjectsData) -> (changed: bool)
    ensures
        final(data).projects@.len() == old(data).projects@.len(),
        forall|i: int| 0 <= i < old(data).projects@.len() ==>
            (#[trigger] final(data).projects@[i])@.name == old(data).projects@[i]@.name,
        final(data).load_error == old(data).load_error,
        !changed ==> {
            &&& forall|i: int| 0 <= i < old(data).projects@.len() ==>
                (#[trigger] final(data).projects@[i])@.path == old(data).projects@[i]@.path
            &&& option_view(final(data).active) == option_view(old(data).active)
        },
        exists|canonical: Seq<Result<Seq<char>, Seq<char>>>, active_canonical: Option<Result<Seq<char>, Seq<char>>>|
            #[trigger] migration_of(*old(data), *final(data), canonical, active_canonical, changed),
{
    let mut results: Vec<Result<String, String>> = Vec::new();
    let mut i: usize = 0;
    while i < data.projects.len()
        invariant
            i <= data.projects@.len(),
            results@.len() == i,
            forall|j: int| 0 <= j < i ==> possible_canonical(#[trigger] result_view(results@[j])),
        decreases data.projects@.len() - i,
    {
        results.push(canonicalize(data.projects[i].path()));
        i = i + 1;
    }
    let active_result = match &data.active {
        Some(a) => Some(canonicalize(a.as_str())),
        None => None,
    };
    let ghost old_data = *data;
    let ghost cs = Seq::new(results@.len(), |j: int| result_view(results@[j]));
    let ghost ac = option_result_view(active_result);
    let changed = apply_canonical_paths(data, &results, active_result);
    proof {
        assert forall|j: int| 0 <= j < cs.len() implies possible_canonical(#[trigger] cs[j]) by {
            assert(possible_canonical(result_view(results@[j])));
        }
        assert forall|j: int| 0 <= j < old_data.projects@.len() implies
            path_moves(old_data.projects@[j]@.path, #[trigger] cs[j]) == path_moves(
                old_data.projects@[j]@.path,
                result_view(results@[j]),
            ) by {}
        assert(migration_of(old_data, *data, cs, ac, changed));
        if !changed {
            assert forall|i: int| 0 <= i < old_data.projects@.len() implies
                (#[trigger] data.projects@[i])@.path == old_data.projects@[i]@.path by {
                assert(!path_moves(old_data.projects@[i]@.path, result_view(results@[i])));
            }
        }
    }
    changed
}

/// Where the project list is stored: the override when one is set and not
/// empty, else `.kild/projects.json` under the home directory, or under the
/// current directory when there is no home directory.
pub open spec fn projects_file_location(env_override: Option<Seq<char>>, home: Option<Seq<char>>) -> Seq<char> {
    match env_override {
        Some(p) if p.len() > 0 => p,
        _ => {
            let base = match home {
                Some(h) => h,
                None => "."@,
            };
            spec_join(spec_join(base, ".kild"@), "projects.json"@)
        },
    }
}

/// The file the project list is stored in, given the value of the override
/// variable (if set) and the home directory.
pub fn projects_file_path_with(env_override: Option<String>, home: Option<String>) -> (r: String)
    ensures
        r@ == projects_file_location(option_view(env_override), option_view(home)),
{
    if let Some(p) = env_override {
        if p.unicode_len() > 0 {
            return p;
        }
    }
    let base = match home {
        Some(h) => h,
        None => owned("."),
    };
    let dir = join(base.as_str(), ".kild");
    join(dir.as_str(), "projects.json")
}

/// The file the project list is stored in, given the value of the override
/// variable (if set); the home directory is looked up.
pub fn projects_file_path(env_override: Option<String>) -> (r: String)
    ensures
        env_override is Some && env_override->0@.len() > 0 ==> r@ == env_override->0@,
        exists|home: Option<Seq<char>>| r@ == projects_file_location(option_view(env_override), home),
{
    let home = home_dir();
    projects_file_path_with(env_override, home)
}

/// What reading the stored project list produced.
pub enum LoadOutcome {
    /// There is no file.
    Missing,
    /// The file held this list.
    Parsed(ProjectsData),
    /// The file is not a valid list; holds the parser's message.
    Corrupted(String),
    /// The file could not be read; holds the system's message.
    Unreadable(String),
}

/// The message when the stored list is not valid.
pub open spec fn corrupted_text(err: Seq<char>, path: Seq<char>) -> Seq<char> {
    "Projects file corrupted ("@ + err + "). Your project list could not be loaded. Delete "@ + path
        + " to reset."@
}

/// The message when the stored list cannot be read.
pub open spec fn unreadable_text(err: Seq<char>, path: Seq<char>) -> Seq<char> {
    "Failed to read projects file: "@ + err + ". Check permissions on "@ + path
}

/// The project list after loading from `path`: what was parsed, or an empty
/// list (with no selection) that records why loading failed; a missing file
/// gives an empty list with no error.
pub fn projects_from_load(outcome: LoadOutcome, path: &str) -> (r: ProjectsData)
    ensures
        match outcome {
            LoadOutcome::Parsed(d) => r == d,
            LoadOutcome::Missing => r.projects@.len() == 0 && r.active is None && r.load_error is None,
            LoadOutcome::Corrupted(e) => {
                &&& r.projects@.len() == 0
                &&& r.active is None
                &&& r.load_error matches Some(m) && m@ == corrupted_text(e@, path@)
            },
            LoadOutcome::Unreadable(e) => {
                &&& r.projects@.len() == 0
                &&& r.active is None
                &&& r.load_error matches Some(m) && m@ == unreadable_text(e@, path@)
            },
        },
{
    match outcome {
        LoadOutcome::Parsed(d) => d,
        LoadOutcome::Missing => ProjectsData::default(),
        LoadOutcome::Corrupted(e) => {
            let mut m = owned("Projects file corrupted (");
            push_str(&mut m, e.as_str());
            push_str(&mut m, "). Your project list could not be loaded. Delete ");
            push_str(&mut m, path);
            push_str(&mut m, " to reset.");
            let mut d = ProjectsData::default();
            d.load_error = Some(m);
            d
        },
        LoadOutcome::Unreadable(e) => {
            let mut m = owned("Failed to read projects file: ");
            push_str(&mut m, e.as_str());
            push_str(&mut m, ". Check permissions on ");
            push_str(&mut m, path);
            let mut d = ProjectsData::default();
            d.load_error = Some(m);
            d
        },
    }
}

/// Adding a path is refused in this order: not a directory, then not a
/// repository; a repository is refused as already present exactly when some
/// project in the list, at any position, has the same path, and is valid
/// exactly when none has.
pub proof fn lemma_validation_verdicts(path: Seq<char>, existing: Seq<Project>, is_dir: bool, is_git_repo: bool)
    ensures
        !is_dir ==> validation_of(path, existing, is_dir, is_git_repo) == ProjectValidation::NotADirectory,
        is_dir && !is_git_repo ==> validation_of(path, existing, is_dir, is_git_repo) == ProjectValidation::NotAGitRepo,
        is_dir && is_git_repo ==> (validation_of(path, existing, is_dir, is_git_repo) == ProjectValidation::AlreadyExists
            <==> exists|i: int| 0 <= i < existing.len() && #[trigger] spec_same_path(existing[i]@.path, path)),
        is_dir && is_git_repo ==> (validation_of(path, existing, is_dir, is_git_repo) == ProjectValidation::Valid
            <==> forall|i: int| 0 <= i < existing.len() ==> !#[trigger] spec_same_path(existing[i]@.path, path)),
{
}

} // verus!
