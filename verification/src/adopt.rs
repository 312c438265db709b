//! Secret adoption: validating a candidate file and planning its relocation
//! into the per-user managed tree, preserving the file's layout relative to
//! the home directory.
//!
//! The planning half is pure and fully specified; the filesystem half
//! (metadata queries, directory creation, copy, delete) is carried out by the
//! caller on the returned plan.

use vstd::prelude::*;

verus! {

/// The managed secrets tree: adopted files are mirrored under
/// `path / <username> / "pack"`.
pub struct Secretz {
    pub path: String,
}

/// Structural hazards that make a candidate file unadoptable. These are hard
/// failures; "nothing to do" conditions (no home directory, file outside the
/// home directory, file directly in the home directory) are silent no-ops
/// instead.
#[derive(PartialEq, Eq, Structural, Debug, Clone, Copy)]
pub enum AdoptionError {
    IsDirectory,
    IsSymlink,
}

/// The relocation a successful adoption performs: create `dest_dir` (and any
/// missing intermediate directories), copy the file's bytes to `dest_path`,
/// then delete the original.
#[derive(PartialEq, Eq, Debug)]
pub struct AdoptPlan {
    pub dest_dir: String,
    pub dest_path: String,
}

/// The root of the managed tree for one user: `root/<username>/pack`.
pub open spec fn spec_pack_dir(root: Seq<char>, username: Seq<char>) -> Seq<char> {
    root + "/"@ + username + "/pack"@
}

/// Whether `path` lies strictly under the directory `home`: it extends
/// `home` with a separator and at least one further character.
pub open spec fn spec_under(home: Seq<char>, path: Seq<char>) -> bool {
    &&& path.len() > home.len() + 1
    &&& path.subrange(0, home.len() as int) == home
    &&& path[home.len() as int] == '/'
}

/// The position of `path` relative to `home`: everything past the separator.
pub open spec fn spec_rel(home: Seq<char>, path: Seq<char>) -> Seq<char> {
    path.subrange(home.len() as int + 1, path.len() as int)
}

/// The index of the last separator in `rel`, or -1 when it has none.
pub open spec fn spec_last_slash(rel: Seq<char>) -> int
    decreases rel.len(),
{
    if rel.len() == 0 {
        -1
    } else if rel[rel.len() - 1] == '/' {
        rel.len() - 1
    } else {
        spec_last_slash(rel.take(rel.len() - 1))
    }
}

/// The plan adoption settles on for a file at `path`, under a known home
/// directory and username: `None` when there is nothing to do, otherwise the
/// mirrored destination under the pack directory.
pub open spec fn spec_adoption_plan(
    root: Seq<char>,
    username: Seq<char>,
    home: Seq<char>,
    path: Seq<char>,
) -> Option<(Seq<char>, Seq<char>)> {
    if !spec_under(home, path) {
        None
    } else {
        let rel = spec_rel(home, path);
        let k = spec_last_slash(rel);
        if k < 0 {
            None
        } else {
            let pack = spec_pack_dir(root, username);
            Some((pack + "/"@ + rel.take(k), pack + "/"@ + rel))
        }
    }
}

proof fn lemma_last_slash_found(rel: Seq<char>, k: int)
    requires
        0 <= k < rel.len(),
        rel[k] == '/',
        forall|j: int| k < j < rel.len() ==> rel[j] != '/',
    ensures
        spec_last_slash(rel) == k,
    decreases rel.len(),
{
    if k == rel.len() - 1 {
    } else {
        let front = rel.take(rel.len() - 1);
        assert(front[k] == '/');
        assert forall|j: int| k < j < front.len() implies front[j] != '/' by {
            assert(front[j] == rel[j]);
        }
        lemma_last_slash_found(front, k);
    }
}

proof fn lemma_last_slash_none(rel: Seq<char>)
    requires
        forall|j: int| 0 <= j < rel.len() ==> rel[j] != '/',
    ensures
        spec_last_slash(rel) == -1,
    decreases rel.len(),
{
    if rel.len() > 0 {
        let front = rel.take(rel.len() - 1);
        assert forall|j: int| 0 <= j < front.len() implies front[j] != '/' by {
            assert(front[j] == rel[j]);
        }
        lemma_last_slash_none(front);
    }
}

/// The index of the last separator in `s`, or `None` when `s` holds none.
fn find_last_slash(s: &str) -> (r: Option<usize>)
    ensures
        (match r {
            Some(k) => spec_last_slash(s@) == k && k < s@.len(),
            None => spec_last_slash(s@) == -1,
        }),
{
    let n = s.unicode_len();
    let mut i = n;
    while i > 0
        invariant
            i <= n,
            n == s@.len(),
            forall|j: int| i <= j < n ==> s@[j] != '/',
        decreases i,
    {
        if s.get_char(i - 1) == '/' {
            proof {
                lemma_last_slash_found(s@, i - 1);
            }
            return Some(i - 1);
        }
        i = i - 1;
    }
    proof {
        lemma_last_slash_none(s@);
    }
    None
}

/// Whether `path` lies strictly under the directory `home`.
fn is_under(home: &str, path: &str) -> (r: bool)
    ensures
        r == spec_under(home@, path@),
{
    let home_len = home.unicode_len();
    let path_len = path.unicode_len();
    if path_len <= home_len || path_len - home_len < 2 {
        proof {
            assert(!spec_under(home@, path@));
        }
        return false;
    }
    if path.get_char(home_len) != '/' {
        return false;
    }
    let mut j: usize = 0;
    while j < home_len
        invariant
            j <= home_len,
            home_len == home@.len(),
            path@.len() > home_len + 1,
            forall|t: int| 0 <= t < j ==> path@[t] == home@[t],
        decreases home_len - j,
    {
        if path.get_char(j) != home.get_char(j) {
            proof {
                assert(path@.subrange(0, home@.len() as int)[j as int] != home@[j as int]);
            }
            return false;
        }
        j = j + 1;
    }
    proof {
        assert(path@.subrange(0, home@.len() as int) =~= home@);
    }
    true
}

fn concat3(a: &str, b: &str, c: &str) -> (r: String)
    ensures
        r@ == a@ + b@ + c@,
{
    let mut s = String::from_str(a);
    s.append(b);
    s.append(c);
    s
}

impl Secretz {
    /// The pack directory for `username`: `path/<username>/pack`.
    pub fn pack_dir(&self, username: &str) -> (r: String)
        ensures
            r@ == spec_pack_dir(self.path@, username@),
    {
        let mut s = String::from_str(self.path.as_str());
        s.append("/");
        s.append(username);
        s.append("/pack");
        proof {
            assert(s@ =~= spec_pack_dir(self.path@, username@));
        }
        s
    }

    /// Validates a candidate file and plans its adoption. `is_dir` and
    /// `is_symlink` are the file's own metadata (the link itself, never its
    /// target); `username` and `home` locate the managed tree and the
    /// directory the file's relative position is taken from.
    ///
    /// A directory or a symlink is rejected outright. A file with no
    /// computable position under `home`, or sitting directly in `home` with
    /// no parent segment, yields no plan: adoption is a silent no-op there.
    pub fn adoption_plan(
        &self,
        username: &str,
        home: &str,
        path: &str,
        is_dir: bool,
        is_symlink: bool,
    ) -> (r: Result<Option<AdoptPlan>, AdoptionError>)
        ensures
            is_dir ==> r == Err::<Option<AdoptPlan>, AdoptionError>(AdoptionError::IsDirectory),
            !is_dir && is_symlink ==> r == Err::<Option<AdoptPlan>, AdoptionError>(
                AdoptionError::IsSymlink,
            ),
            !is_dir && !is_symlink ==> (match r {
                Ok(plan) => (match spec_adoption_plan(self.path@, username@, home@, path@) {
                    Some(pair) => {
                        &&& plan matches Some(p)
                        &&& p.dest_dir@ == pair.0
                        &&& p.dest_path@ == pair.1
                    },
                    None => plan is None,
                }),
                Err(_) => false,
            }),
    {
        if is_dir {
            return Err(AdoptionError::IsDirectory);
        }
        if is_symlink {
            return Err(AdoptionError::IsSymlink);
        }
        if !is_under(home, path) {
            return Ok(None);
        }
        let home_len = home.unicode_len();
        let path_len = path.unicode_len();
        let rel = path.substring_char(home_len + 1, path_len);
        match find_last_slash(rel) {
            None => Ok(None),
            Some(k) => {
                let parent = rel.substring_char(0, k);
                let pack = self.pack_dir(username);
                let dest_dir = concat3(pack.as_str(), "/", parent);
                let dest_path = concat3(pack.as_str(), "/", rel);
                proof {
                    assert(rel@ == spec_rel(home@, path@));
                    assert(parent@ =~= spec_rel(home@, path@).take(k as int));
                }
                Ok(Some(AdoptPlan { dest_dir, dest_path }))
            },
        }
    }
}

/// Whether `p` is exactly the relocation that `spec_adoption_plan` settles
/// on for a file at `path`, for the given managed-tree root, username and
/// home directory.
pub open spec fn spec_plan_matches(
    root: Seq<char>,
    username: Seq<char>,
    home: Seq<char>,
    path: Seq<char>,
    p: AdoptPlan,
) -> bool {
    match spec_adoption_plan(root, username, home, path) {
        Some(pair) => p.dest_dir@ == pair.0 && p.dest_path@ == pair.1,
        None => false,
    }
}

#[verifier::external_type_specification]
#[verifier::external_body]
pub struct ExBaseDirs(directories::BaseDirs);

/// Relies on whoami::username: the name of the user running the process,
/// when the platform can report it.
#[verifier::external_body]
fn process_username() -> (r: Option<String>) {
    whoami::username().ok()
}

/// Relies on directories::BaseDirs::new: the user's standard base
/// directories, when the platform knows of a home directory.
#[verifier::external_body]
fn base_dirs() -> (r: Option<directories::BaseDirs>) {
    directories::BaseDirs::new()
}

/// Relies on directories::BaseDirs::home_dir: the user's home directory,
/// handed out when its path is valid Unicode.
#[verifier::external_body]
fn home_dir_string(dirs: &directories::BaseDirs) -> (r: Option<String>) {
    match dirs.home_dir().to_str() {
        Some(s) => Some(String::from(s)),
        None => None,
    }
}

fn resolve_home() -> (r: Option<String>) {
    match base_dirs() {
        Some(dirs) => home_dir_string(&dirs),
        None => None,
    }
}

impl Secretz {
    /// Validates the file at `path` and plans its adoption, resolving the
    /// current username and home directory from the environment. `is_dir`
    /// and `is_symlink` are the file's own metadata. When the username or
    /// the home directory cannot be resolved, the call plans nothing: a
    /// silent no-op, not an error.
    ///
    /// Whatever the environment reports, a directory or a symlink is
    /// rejected, nothing else is, and any plan handed back mirrors the
    /// file's position under some resolved home directory into the pack
    /// directory of some resolved username.
    pub fn adopt(&self, path: &str, is_dir: bool, is_symlink: bool) -> (r: Result<
        Option<AdoptPlan>,
        AdoptionError,
    >)
        ensures
            is_dir ==> r == Err::<Option<AdoptPlan>, AdoptionError>(AdoptionError::IsDirectory),
            !is_dir && is_symlink ==> r == Err::<Option<AdoptPlan>, AdoptionError>(
                AdoptionError::IsSymlink,
            ),
            !is_dir && !is_symlink ==> r is Ok,
            (r matches Ok(Some(p)) ==> exists|u: Seq<char>, h: Seq<char>|
                spec_plan_matches(self.path@, u, h, path@, p)),
    {
        if is_dir {
            return Err(AdoptionError::IsDirectory);
        }
        if is_symlink {
            return Err(AdoptionError::IsSymlink);
        }
        let username = match process_username() {
            Some(u) => u,
            None => {
                return Ok(None);
            },
        };
        let home = match resolve_home() {
            Some(h) => h,
            None => {
                return Ok(None);
            },
        };
        match self.adoption_plan(username.as_str(), home.as_str(), path, is_dir, is_symlink) {
            Ok(plan) => {
                proof {
                    if let Some(ref p) = plan {
                        assert(spec_plan_matches(self.path@, username@, home@, path@, *p));
                    }
                }
                Ok(plan)
            },
            Err(e) => Err(e),
        }
    }
}

/// Adoption preserves the file's layout: a file at `home/<rel>` whose
/// relative position has a parent segment is planned to land at exactly
/// `root/<username>/pack/<rel>`, with its destination directory at
/// `root/<username>/pack/<parent>`.
pub proof fn lemma_adoption_mirrors_relative_path(
    root: Seq<char>,
    username: Seq<char>,
    home: Seq<char>,
    rel: Seq<char>,
)
    requires
        spec_last_slash(rel) >= 0,
    ensures
        (spec_adoption_plan(root, username, home, home + "/"@ + rel) matches Some(pair) && {
            &&& pair.1 == spec_pack_dir(root, username) + "/"@ + rel
            &&& pair.0 == spec_pack_dir(root, username) + "/"@ + rel.take(spec_last_slash(rel))
        }),
{
    reveal_strlit("/");
    let path = home + "/"@ + rel;
    assert(rel.len() > 0);
    assert(path.subrange(0, home.len() as int) =~= home);
    assert(path[home.len() as int] == '/');
    assert(spec_under(home, path));
    assert(spec_rel(home, path) =~= rel);
}

} // verus!
