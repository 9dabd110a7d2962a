//! Turning a path the user typed into the canonical path a project is
//! stored under: trimming, `~` expansion, a missing leading `/`, and
//! canonicalisation.
use vstd::prelude::*;
use crate::text::{owned, push_str, split_on};

verus! {

/// Whether a character has the Unicode `White_Space` property.
pub open spec fn is_white_space(c: char) -> bool {
    let u = c as u32;
    (0x9 <= u && u <= 0xD) || u == 0x20 || u == 0x85 || u == 0xA0 || u == 0x1680 || (0x2000 <= u && u <= 0x200A)
        || u == 0x2028 || u == 0x2029 || u == 0x202F || u == 0x205F || u == 0x3000
}

/// The text without its leading white space.
pub open spec fn trim_start(s: Seq<char>) -> Seq<char>
    decreases s.len(),
{
    if s.len() > 0 && is_white_space(s[0]) {
        trim_start(s.drop_first())
    } else {
        s
    }
}

/// The text without its trailing white space.
pub open spec fn trim_end(s: Seq<char>) -> Seq<char>
    decreases s.len(),
{
    if s.len() > 0 && is_white_space(s.last()) {
        trim_end(s.drop_last())
    } else {
        s
    }
}

/// What `str::trim` gives: the text without leading and trailing white
/// space (the Unicode `White_Space` property).
pub open spec fn spec_trim(s: Seq<char>) -> Seq<char> {
    trim_end(trim_start(s))
}

/// What `Path::join` gives (on Unix) when `rest` is appended to `base`: an
/// absolute `rest` replaces `base`; otherwise `rest` follows `base`, with a
/// `/` between them unless `base` is empty or already ends in one.
pub open spec fn spec_join(base: Seq<char>, rest: Seq<char>) -> Seq<char> {
    if rest.len() > 0 && rest[0] == '/' {
        rest
    } else if base.len() > 0 && base.last() != '/' {
        base + seq!['/'] + rest
    } else {
        base + rest
    }
}

/// Removes leading and trailing white space (`str::trim`).
///
/// Trusted: the result is the input without leading and trailing
/// characters of the Unicode `White_Space` property, as `str::trim`
/// documents (`spec_trim`).
#[verifier::external_body]
pub(crate) fn trim(s: &str) -> (r: String)
    ensures
        r@ == spec_trim(s@),
{
    s.trim().to_string()
}

/// Appends a path to a base path (`Path::join`).
///
/// Trusted: the result is `spec_join` of the two paths, as text: on Unix
/// `PathBuf::push` replaces the base with an absolute path (one starting
/// with `/`) and otherwise adds a `/` unless the base is empty or ends in
/// one; the text of `&str` paths comes back unchanged.
#[verifier::external_body]
pub(crate) fn join(base: &str, rest: &str) -> (r: String)
    ensures
        r@ == spec_join(base@, rest@),
{
    std::path::Path::new(base).join(rest).to_string_lossy().into_owned()
}

/// Whether a path is in the form canonicalising gives: absolute (it
/// starts with `/`), with no `.` or `..` component between its slashes.
pub open spec fn canonical_form(c: Seq<char>) -> bool {
    &&& starts_with_char(c, '/')
    &&& forall|i: int| 0 <= i < split_on(c, '/').len() ==> #[trigger] split_on(c, '/')[i] != "."@
        && split_on(c, '/')[i] != ".."@
}

/// Resolves a path against the file system (`Path::canonicalize`); the
/// error is the system's message.
///
/// Trusted: on success the path is in canonical form (`canonical_form`),
/// as the function documents ("the canonical, absolute form of a path with
/// all intermediate components normalized": on Unix an absolute path
/// starts with `/`, and a normalized one has no `.` or `..` component).
/// Which path comes back, and whether the call fails, depends on the file
/// system and is left unsaid.
#[verifier::external_body]
pub(crate) fn canonicalize(path: &str) -> (r: Result<String, String>)
    ensures
        r matches Ok(c) ==> canonical_form(c@),
{
    match std::path::Path::new(path).canonicalize() {
        Ok(p) => Ok(p.to_string_lossy().into_owned()),
        Err(e) => Err(e.to_string()),
    }
}

/// The current user's home directory (`dirs::home_dir`).
///
/// Trusted for nothing: the outcome depends on the environment.
#[verifier::external_body]
pub(crate) fn home_dir() -> (r: Option<String>) {
    match dirs::home_dir() {
        Some(p) => Some(p.to_string_lossy().into_owned()),
        None => None,
    }
}

/// What a look at a path on disk found.
#[derive(Debug, Clone, PartialEq, Eq)]
pub enum DirProbe {
    /// The path exists; whether it is a directory.
    Metadata { is_dir: bool },
    /// The path does not exist.
    NotFound,
    /// Looking failed for another reason; holds the system's message.
    Failed(String),
}

/// Looks at a path on disk (`Path::metadata`, then `Metadata::is_dir`).
///
/// Trusted for nothing: the outcome depends on the file system.
#[verifier::external_body]
fn probe_dir(path: &str) -> (r: DirProbe) {
    match std::path::Path::new(path).metadata() {
        Ok(meta) => DirProbe::Metadata { is_dir: meta.is_dir() },
        Err(e) => match e.kind() {
            std::io::ErrorKind::NotFound => DirProbe::NotFound,
            _ => DirProbe::Failed(e.to_string()),
        },
    }
}

/// The message for a path that cannot be accessed.
pub open spec fn access_error_text(path: Seq<char>, err: Seq<char>) -> Seq<char> {
    "Cannot access '"@ + path + "': "@ + err
}

/// The message when `~` cannot be expanded.
pub open spec fn no_home_text() -> Seq<char> {
    "Could not determine home directory. Is $HOME set?"@
}

/// The outcome of canonicalising `path`, given what the file system said.
pub open spec fn access_outcome(path: Seq<char>, result: Result<Seq<char>, Seq<char>>) -> Result<Seq<char>, Seq<char>> {
    match result {
        Ok(c) => Ok(c),
        Err(e) => Err(access_error_text(path, e)),
    }
}

/// The content of a string result.
pub open spec fn result_text(r: Result<String, String>) -> Result<Seq<char>, Seq<char>> {
    match r {
        Ok(s) => Ok(s@),
        Err(e) => Err(e@),
    }
}

/// Words the outcome of canonicalising `path`: the canonical path, or the
/// system's error prefixed with which path could not be accessed.
pub fn access_result(path: &str, result: Result<String, String>) -> (r: Result<String, String>)
    ensures
        result_text(r) == access_outcome(path@, result_text(result)),
{
    match result {
        Ok(c) => Ok(c),
        Err(e) => {
            let mut m = owned("Cannot access '");
            push_str(&mut m, path);
            push_str(&mut m, "': ");
            push_str(&mut m, e.as_str());
            Err(m)
        },
    }
}

/// What canonicalising `path` may give: a path in canonical form, or the message
/// `"Cannot access '<path>': <reason>"`.
pub open spec fn canonical_outcome(path: Seq<char>, r: Result<Seq<char>, Seq<char>>) -> bool {
    match r {
        Ok(c) => canonical_form(c),
        Err(m) => exists|e: Seq<char>| m == access_error_text(path, e),
    }
}

/// Canonicalises a path so that the same directory always gets the same
/// text (symbolic links resolved, case normalised where the file system
/// ignores it). Gives a path in canonical form, or fails with
/// `"Cannot access '<path>': <reason>"` when the path does not exist or
/// cannot be read.
pub fn canonicalize_path(path: &str) -> (r: Result<String, String>)
    ensures
        canonical_outcome(path@, result_text(r)),
        r matches Err(m) ==> exists|e: Seq<char>| m@ == access_error_text(path@, e),
{
    let result = canonicalize(path);
    let ghost rt = result_text(result);
    let r = access_result(path, result);
    proof {
        if let Err(e) = rt {
            assert(r matches Err(m) && m@ == access_error_text(path@, e));
        }
    }
    r
}

/// What to do with a trimmed path.
pub enum PathPlan {
    /// It starts with `~` but there is no home directory to expand it to.
    NoHome,
    /// Canonicalise this path.
    Canonicalize(Seq<char>),
    /// It has no leading `/`: if the first path is a directory, canonicalise
    /// it; otherwise canonicalise the second (the text as typed).
    TrySlashed(Seq<char>, Seq<char>),
}

/// Whether `s` starts with character `c`.
pub open spec fn starts_with_char(s: Seq<char>, c: char) -> bool {
    s.len() > 0 && s[0] == c
}

/// The plan for a trimmed path `t` given the home directory.
///
/// `~/rest` expands to `home/rest` and a lone `~` to the home directory; a
/// `~` elsewhere in front (such as `~project`) is kept as typed. A non-empty
/// path without a leading `/` or `~` is first tried with a `/` in front.
pub open spec fn path_plan(t: Seq<char>, home: Option<Seq<char>>) -> PathPlan {
    if starts_with_char(t, '~') {
        match home {
            None => PathPlan::NoHome,
            Some(h) => if t.len() >= 2 && t[1] == '/' {
                PathPlan::Canonicalize(spec_join(h, t.subrange(2, t.len() as int)))
            } else if t.len() == 1 {
                PathPlan::Canonicalize(h)
            } else {
                PathPlan::Canonicalize(t)
            },
        }
    } else if !starts_with_char(t, '/') && t.len() > 0 {
        PathPlan::TrySlashed(spec_join("/"@, t), t)
    } else {
        PathPlan::Canonicalize(t)
    }
}

/// After probing the slashed form of a path: the slashed form when it is a
/// directory; the text as typed when it is not one or does not exist; the
/// error when the probe failed for another reason.
pub open spec fn slashed_choice(slashed: Seq<char>, typed: Seq<char>, probe: DirProbe) -> Result<Seq<char>, Seq<char>> {
    match probe {
        DirProbe::Metadata { is_dir: true } => Ok(slashed),
        DirProbe::Metadata { is_dir: false } | DirProbe::NotFound => Ok(typed),
        DirProbe::Failed(e) => Err(access_error_text(slashed, e@)),
    }
}

/// The exec form of a path plan.
pub enum PlannedPath {
    NoHome,
    Canonicalize(String),
    TrySlashed(String, String),
}

/// The content of a planned path.
pub open spec fn planned_view(p: PlannedPath) -> PathPlan {
    match p {
        PlannedPath::NoHome => PathPlan::NoHome,
        PlannedPath::Canonicalize(s) => PathPlan::Canonicalize(s@),
        PlannedPath::TrySlashed(a, b) => PathPlan::TrySlashed(a@, b@),
    }
}

/// The content of an optional string.
pub open spec fn option_text(o: Option<String>) -> Option<Seq<char>> {
    match o {
        Some(s) => Some(s@),
        None => None,
    }
}

/// Decides what to do with a trimmed path, given the home directory.
pub fn plan_path(t: &str, home: Option<String>) -> (r: PlannedPath)
    ensures
        planned_view(r) == path_plan(t@, option_text(home)),
{
    let n = t.unicode_len();
    if n > 0 && t.get_char(0) == '~' {
        match home {
            None => PlannedPath::NoHome,
            Some(h) => {
                if n >= 2 && t.get_char(1) == '/' {
                    let rest = t.substring_char(2, n);
                    PlannedPath::Canonicalize(join(h.as_str(), rest))
                } else if n == 1 {
                    PlannedPath::Canonicalize(h)
                } else {
                    PlannedPath::Canonicalize(owned(t))
                }
            },
        }
    } else if !(n > 0 && t.get_char(0) == '/') && n > 0 {
        PlannedPath::TrySlashed(join("/", t), owned(t))
    } else {
        PlannedPath::Canonicalize(owned(t))
    }
}

/// Chooses the path to canonicalise after probing the slashed form.
pub fn choose_slashed(slashed: String, typed: String, probe: DirProbe) -> (r: Result<String, String>)
    ensures
        result_text(r) == slashed_choice(slashed@, typed@, probe),
{
    match probe {
        DirProbe::Metadata { is_dir } => if is_dir { Ok(slashed) } else { Ok(typed) },
        DirProbe::NotFound => Ok(typed),
        DirProbe::Failed(e) => {
            let mut m = owned("Cannot access '");
            push_str(&mut m, slashed.as_str());
            push_str(&mut m, "': ");
            push_str(&mut m, e.as_str());
            Err(m)
        },
    }
}

/// What normalising the trimmed path `t` may give, with home directory
/// `home`: the error for a missing home directory; else what
/// canonicalising the planned path gives, where a path typed without a
/// leading `/` leads to its slashed form or to the text as typed (and a
/// failed look at the slashed form is reported for that form).
pub open spec fn normalize_outcome(t: Seq<char>, home: Option<Seq<char>>, r: Result<Seq<char>, Seq<char>>) -> bool {
    match path_plan(t, home) {
        PathPlan::NoHome => r == Err::<Seq<char>, Seq<char>>(no_home_text()),
        PathPlan::Canonicalize(p) => canonical_outcome(p, r),
        PathPlan::TrySlashed(slashed, typed) => canonical_outcome(slashed, r) || canonical_outcome(typed, r),
    }
}

/// Normalises a path the user typed for adding a project: trims it, expands
/// a leading `~/` or a lone `~` to the home directory, tries a path without
/// a leading `/` as an absolute one when that is a directory, and
/// canonicalises the result.
///
/// Fails with `"Could not determine home directory. Is $HOME set?"` when the
/// trimmed path starts with `~` and there is no home directory, and with a
/// `"Cannot access '<path>': <reason>"` message when the path to use cannot
/// be accessed.
pub fn normalize_project_path(path_str: &str) -> (r: Result<String, String>)
    ensures
        exists|home: Option<Seq<char>>| #[trigger] normalize_outcome(spec_trim(path_str@), home, result_text(r)),
        r matches Err(m) ==> {
            ||| (m@ == no_home_text() && starts_with_char(spec_trim(path_str@), '~'))
            ||| exists|p: Seq<char>, e: Seq<char>| m@ == access_error_text(p, e)
        },
{
    let t = trim(path_str);
    let home = if t.unicode_len() > 0 && t.as_str().get_char(0) == '~' {
        home_dir()
    } else {
        None
    };
    let ghost tv = t@;
    let ghost hv = option_text(home);
    let r = match plan_path(t.as_str(), home) {
        PlannedPath::NoHome => {
            assert(starts_with_char(t@, '~'));
            Err(owned("Could not determine home directory. Is $HOME set?"))
        },
        PlannedPath::Canonicalize(p) => canonicalize_path(p.as_str()),
        PlannedPath::TrySlashed(slashed, typed) => {
            let probe = probe_dir(slashed.as_str());
            let ghost s = slashed@;
            let ghost ty = typed@;
            let ghost pr = probe;
            match choose_slashed(slashed, typed, probe) {
                Ok(target) => {
                    let c = canonicalize_path(target.as_str());
                    proof {
                        assert(target@ == s || target@ == ty);
                        assert(canonical_outcome(s, result_text(c)) || canonical_outcome(ty, result_text(c)));
                    }
                    c
                },
                Err(m) => {
                    proof {
                        if let DirProbe::Failed(e) = pr {
                            assert(m@ == access_error_text(s, e@));
                            assert(canonical_outcome(s, result_text(Err::<String, String>(m))));
                        }
                    }
                    Err(m)
                },
            }
        },
    };
    proof {
        assert(normalize_outcome(tv, hv, result_text(r)));
    }
    r
}

} // verus!
