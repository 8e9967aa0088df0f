//! Where the documents live: the application directory, resolved from a
//! snapshot of the process environment, and the path of a document in it.

use vstd::prelude::*;

verus! {

/// What the process environment says about where per-user data belongs,
/// taken once by the caller.
#[derive(Debug, Clone, PartialEq, Eq)]
pub struct Environment {
    /// The per-user application-data directory, where the host defines one.
    pub app_data: Option<String>,
    /// The user's home directory, where the host defines one.
    pub home: Option<String>,
    /// The current working directory.
    pub current_dir: String,
}

/// An `Environment` with its paths as sequences of characters.
pub struct EnvironmentView {
    pub app_data: Option<Seq<char>>,
    pub home: Option<Seq<char>>,
    pub current_dir: Seq<char>,
}

impl View for Environment {
    type V = EnvironmentView;

    open spec fn view(&self) -> EnvironmentView {
        EnvironmentView {
            app_data: match self.app_data {
                Some(p) => Some(p@),
                None => None,
            },
            home: match self.home {
                Some(p) => Some(p@),
                None => None,
            },
            current_dir: self.current_dir@,
        }
    }
}

/// Whether a path starts at the root.
pub open spec fn is_rooted(path: Seq<char>) -> bool {
    path.len() > 0 && path[0] == '/'
}

/// Whether a separator has to be put behind `base` before a segment follows.
pub open spec fn needs_separator(base: Seq<char>) -> bool {
    base.len() > 0 && base.last() != '/'
}

/// `segment` adjoined to `base`: a rooted segment stands alone; any other
/// follows the base, parted from it by exactly one separator unless the base
/// is empty or already ends in one.
pub open spec fn joined(base: Seq<char>, segment: Seq<char>) -> Seq<char> {
    if is_rooted(segment) {
        segment
    } else if needs_separator(base) {
        base + seq!['/'] + segment
    } else {
        base + segment
    }
}

/// The application directory for an environment: `ucanduit` under the
/// application-data directory if there is one, else `.ucanduit` under the home
/// directory if there is one, else `data` under the working directory.
pub open spec fn app_dir(env: EnvironmentView) -> Seq<char> {
    match env.app_data {
        Some(base) => joined(base, "ucanduit"@),
        None => match env.home {
            Some(base) => joined(base, ".ucanduit"@),
            None => joined(env.current_dir, "data"@),
        },
    }
}

/// The path of the document `filename` for an environment.
pub open spec fn document_path(env: EnvironmentView, filename: Seq<char>) -> Seq<char> {
    joined(app_dir(env), filename)
}

/// The application-data directory takes precedence: where the environment
/// names one, the application directory lies under it, whatever the home and
/// working directories are.
pub proof fn app_data_takes_precedence(env: EnvironmentView, base: Seq<char>)
    requires
        env.app_data == Some(base),
    ensures
        app_dir(env) == joined(base, "ucanduit"@),
        needs_separator(base) ==> app_dir(env) == base + "/ucanduit"@,
{
    reveal_strlit("ucanduit");
    reveal_strlit("/ucanduit");
    assert(base + seq!['/'] + "ucanduit"@ =~= base + "/ucanduit"@);
}

/// The home directory decides only where no application-data directory is
/// named, and the working directory only where neither is.
pub proof fn home_and_working_directory_follow(env: EnvironmentView)
    requires
        env.app_data is None,
    ensures
        env.home matches Some(base) ==> app_dir(env) == joined(base, ".ucanduit"@),
        env.home is None ==> app_dir(env) == joined(env.current_dir, "data"@),
{
}

/// Adjoins `segment` to `base`.
pub fn join(base: &str, segment: &str) -> (path: String)
    ensures
        path@ == joined(base@, segment@),
{
    if segment.unicode_len() > 0 && segment.get_char(0) == '/' {
        return String::from_str(segment);
    }
    let n: usize = base.unicode_len();
    let path = String::from_str(base);
    if n > 0 && base.get_char(n - 1) != '/' {
        proof {
            reveal_strlit("/");
            assert("/"@ =~= seq!['/']);
        }
        path.concat("/").concat(segment)
    } else {
        path.concat(segment)
    }
}

/// Resolves the application directory from a snapshot of the environment.
pub fn resolve_app_dir(env: &Environment) -> (dir: String)
    ensures
        dir@ == app_dir(env@),
{
    match &env.app_data {
        Some(base) => join(base.as_str(), "ucanduit"),
        None => match &env.home {
            Some(base) => join(base.as_str(), ".ucanduit"),
            None => join(env.current_dir.as_str(), "data"),
        },
    }
}

/// The path of the file that holds the document `filename`. The name is
/// adjoined as it is given, with nothing sanitised: a name that climbs out
/// of the application directory, or a rooted one, is followed.
pub fn resolve_document_path(env: &Environment, filename: &str) -> (path: String)
    ensures
        path@ == document_path(env@, filename@),
{
    let dir = resolve_app_dir(env);
    join(dir.as_str(), filename)
}

} // verus!
