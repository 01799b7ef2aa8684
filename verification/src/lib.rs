//! A thin dispatcher between two package sources: a package string that
//! contains a path separator names an `owner/repo` pair to be cloned from
//! a hosted repository, while a bare name may be fetched from the AUR when
//! the caller asks for it.  This crate holds the classification logic and
//! the construction of the external command line; running the command is
//! left to the binary around it.

use vstd::prelude::*;

verus! {

/// True when `s` contains at least one path separator.
pub open spec fn has_separator(s: Seq<char>) -> bool {
    exists|i: int| 0 <= i < s.len() && s[i] == '/'
}

/// `i` is the index of the first path separator of `s`.
pub open spec fn is_first_separator(s: Seq<char>, i: int) -> bool {
    &&& 0 <= i < s.len()
    &&& s[i] == '/'
    &&& forall|j: int| 0 <= j < i ==> s[j] != '/'
}

/// The index of the first path separator of `s` (meaningful only when one exists).
pub open spec fn first_separator(s: Seq<char>) -> int {
    choose|i: int| is_first_separator(s, i)
}

/// A string has at most one first separator.
pub proof fn lemma_first_separator_unique(s: Seq<char>, i: int, j: int)
    requires
        is_first_separator(s, i),
        is_first_separator(s, j),
    ensures
        i == j,
{
    if i < j {
        assert(s[i] != '/');
    } else if j < i {
        assert(s[j] != '/');
    }
}

/// The part of `s` before its first path separator.
pub open spec fn owner_of(s: Seq<char>) -> Seq<char>
    recommends
        has_separator(s),
{
    s.subrange(0, first_separator(s))
}

/// The part of `s` after its first path separator; further separators stay in it.
pub open spec fn repo_of(s: Seq<char>) -> Seq<char>
    recommends
        has_separator(s),
{
    s.subrange(first_separator(s) + 1, s.len() as int)
}

/// The clone URL built from an `owner/repo` package string.
pub open spec fn github_url(s: Seq<char>) -> Seq<char>
    recommends
        has_separator(s),
{
    "https://github.com/"@ + owner_of(s) + "/"@ + repo_of(s)
}

/// The two parsed command-line inputs.
pub struct Fastener {
    /// Fetch from the AUR instead of cloning a repository.
    pub aur: bool,
    /// The package to fetch: a bare name, or an `owner/repo` pair.
    pub package: String,
}

/// Where a package is fetched from.
#[derive(Debug, PartialEq, Eq)]
pub enum Mode {
    /// Fetch from the AUR; the package name is taken from the arguments.
    AUR,
    /// Clone the repository at the carried URL.
    GITHUB(String),
}

/// Everything that can go wrong while classifying or fetching.
#[derive(Debug, PartialEq, Eq)]
pub enum FastenerErr {
    /// Waiting for the spawned fetch process failed.
    FailedFetchingPackage,
    /// A bare package name was given without asking for the AUR.
    NoSlash,
    /// A separator-containing package string could not be decomposed.
    ParseErr,
}

/// The external command that fetches a package: a program name and its arguments.
pub struct Invocation {
    /// The executable to look up on the search path.
    pub program: String,
    /// The arguments handed to it, in order.
    pub args: Vec<String>,
}

/// Scan for the first path separator, left to right.
fn find_separator(s: &str) -> (r: Option<usize>)
    ensures
        match r {
            Some(i) => is_first_separator(s@, i as int) && i as int == first_separator(s@),
            None => !has_separator(s@),
        },
        r is Some <==> has_separator(s@),
{
    let n = s.unicode_len();
    let mut i: usize = 0;
    while i < n
        invariant
            n == s@.len(),
            0 <= i <= n,
            forall|j: int| 0 <= j < i ==> s@[j] != '/',
        decreases n - i,
    {
        if s.get_char(i) == '/' {
            proof {
                assert(is_first_separator(s@, i as int));
                lemma_first_separator_unique(s@, i as int, first_separator(s@));
            }
            return Some(i);
        }
        i += 1;
    }
    None
}

impl Fastener {
    /// Expand an `owner/repo` package string into its clone URL; a string
    /// without a separator cannot be decomposed.
    pub fn fmt_git(&self) -> (r: Result<String, FastenerErr>)
        ensures
            has_separator(self.package@) ==> (r matches Ok(url) && url@ == github_url(
                self.package@,
            )),
            !has_separator(self.package@) ==> r == Err::<String, FastenerErr>(
                FastenerErr::ParseErr,
            ),
    {
        match find_separator(self.package.as_str()) {
            Some(i) => {
                let n = self.package.as_str().unicode_len();
                let owner = self.package.as_str().substring_char(0, i);
                let repo = self.package.as_str().substring_char(i + 1, n);
                let mut url = String::from_str("https://github.com/");
                url.append(owner);
                url.append("/");
                url.append(repo);
                Ok(url)
            },
            None => Err(FastenerErr::ParseErr),
        }
    }

    /// Classify the arguments into a fetch mode.  A separator always wins:
    /// only a bare name can select the AUR, and only when the flag asks for
    /// it; a bare name without the flag is ambiguous and is rejected.
    pub fn check(&self) -> (r: Result<Mode, FastenerErr>)
        ensures
            has_separator(self.package@) ==> (r matches Ok(m) && m matches Mode::GITHUB(url)
                && url@ == github_url(self.package@)),
            !has_separator(self.package@) && self.aur ==> r == Ok::<Mode, FastenerErr>(Mode::AUR),
            !has_separator(self.package@) && !self.aur ==> r == Err::<Mode, FastenerErr>(
                FastenerErr::NoSlash,
            ),
    {
        match find_separator(self.package.as_str()) {
            None => {
                if self.aur {
                    Ok(Mode::AUR)
                } else {
                    Err(FastenerErr::NoSlash)
                }
            },
            Some(_) => {
                match self.fmt_git() {
                    Ok(url) => Ok(Mode::GITHUB(url)),
                    Err(_) => Err(FastenerErr::ParseErr),
                }
            },
        }
    }

    /// Build the one command line a resolved mode stands for: `git clone <url>`
    /// for a repository, `yay -S <package>` for the AUR — there with the
    /// original, unmodified package string, not the URL.
    pub fn invocation(&self, mode: Mode) -> (r: Invocation)
        ensures
            mode matches Mode::GITHUB(url) ==> (r.program@ == "git"@ && r.args@.len() == 2
                && r.args@[0]@ == "clone"@ && r.args@[1]@ == url@),
            mode is AUR ==> (r.program@ == "yay"@ && r.args@.len() == 2 && r.args@[0]@ == "-S"@
                && r.args@[1]@ == self.package@),
    {
        match mode {
            Mode::GITHUB(url) => Invocation {
                program: String::from_str("git"),
                args: vec![String::from_str("clone"), url],
            },
            Mode::AUR => Invocation {
                program: String::from_str("yay"),
                args: vec![String::from_str("-S"), self.package.clone()],
            },
        }
    }
}

/// The halves of a split put back together: the owner, one separator, the repo.
pub open spec fn split_join(s: Seq<char>) -> Seq<char>
    recommends
        has_separator(s),
{
    owner_of(s) + seq!['/'] + repo_of(s)
}

/// A string with a separator somewhere also has a first one.
pub proof fn lemma_first_separator_exists(s: Seq<char>)
    requires
        has_separator(s),
    ensures
        is_first_separator(s, first_separator(s)),
{
    let w = choose|i: int| 0 <= i < s.len() && s[i] == '/';
    lemma_some_separator_is_first(s, w);
}

proof fn lemma_some_separator_is_first(s: Seq<char>, w: int)
    requires
        0 <= w < s.len(),
        s[w] == '/',
    ensures
        is_first_separator(s, first_separator(s)),
    decreases w,
{
    if forall|j: int| 0 <= j < w ==> s[j] != '/' {
        assert(is_first_separator(s, w));
    } else {
        let j = choose|j: int| 0 <= j < w && s[j] == '/';
        lemma_some_separator_is_first(s, j);
    }
}

/// Splitting at the first separator and joining the halves back with one
/// separator gives the string itself; so doing the split and join again
/// changes nothing further.
pub proof fn lemma_split_join_idempotent(s: Seq<char>)
    requires
        has_separator(s),
    ensures
        split_join(s) == s,
        split_join(split_join(s)) == split_join(s),
{
    lemma_first_separator_exists(s);
    assert(split_join(s) =~= s);
}

} // verus!
