//! What a search runs over: a local directory, or a Git / SVN remote URL.
use vstd::prelude::*;
use crate::i18n::UiLanguage;
use crate::text::{chars_of, string_of_range, trim, trim_string};

verus! {

#[derive(Debug, Clone, Copy, PartialEq, Eq, Structural)]
pub enum SearchTargetMode {
    /// A local directory.
    Directory,
    /// A Git remote URL (no clone needed beforehand).
    GitRemote,
    /// An SVN remote URL (no checkout needed beforehand).
    SvnRemote,
}

impl Default for SearchTargetMode {
    fn default() -> (r: Self)
        ensures
            r == SearchTargetMode::Directory,
    {
        SearchTargetMode::Directory
    }
}

impl SearchTargetMode {
    pub fn label(self, lang: UiLanguage) -> (r: &'static str)
        ensures
            r@ == (match self {
                SearchTargetMode::Directory => crate::i18n::pick(lang, "ローカル"@, "Local"@),
                SearchTargetMode::GitRemote => "Git URL"@,
                SearchTargetMode::SvnRemote => "SVN URL"@,
            }),
    {
        match (self, lang) {
            (SearchTargetMode::Directory, UiLanguage::Japanese) => "ローカル",
            (SearchTargetMode::Directory, UiLanguage::English) => "Local",
            (SearchTargetMode::GitRemote, _) => "Git URL",
            (SearchTargetMode::SvnRemote, _) => "SVN URL",
        }
    }
}

/// Whether a fetched remote tree is reused.
#[derive(Debug, Clone, Copy, PartialEq, Eq, Structural)]
pub enum RemoteCachePolicy {
    /// Reuse the cached tree when there is one.
    UseCache,
    /// Fetch again on the next search.
    RefreshNext,
}

impl Default for RemoteCachePolicy {
    fn default() -> (r: Self)
        ensures
            r == RemoteCachePolicy::UseCache,
    {
        RemoteCachePolicy::UseCache
    }
}

/// Settings of a remote search target.
#[derive(Debug)]
pub struct RemoteTargetConfig {
    pub url: String,
    /// Git branch, tag or commit (empty: the default branch).
    pub git_ref: String,
    /// SVN revision (empty: HEAD).
    pub svn_revision: String,
    /// Subdirectory from the repository root (empty: the whole tree).
    pub subdir: String,
    pub cache_policy: RemoteCachePolicy,
}

impl Default for RemoteTargetConfig {
    fn default() -> (r: Self)
        ensures
            r.url@.len() == 0 && r.git_ref@.len() == 0 && r.svn_revision@.len() == 0 && r.subdir@.len() == 0,
            r.cache_policy == RemoteCachePolicy::UseCache,
    {
        RemoteTargetConfig {
            url: String::new(),
            git_ref: String::new(),
            svn_revision: String::new(),
            subdir: String::new(),
            cache_policy: RemoteCachePolicy::UseCache,
        }
    }
}

impl Clone for RemoteTargetConfig {
    fn clone(&self) -> (r: Self)
        ensures
            r.url@ == self.url@,
            r.git_ref@ == self.git_ref@,
            r.svn_revision@ == self.svn_revision@,
            r.subdir@ == self.subdir@,
            r.cache_policy == self.cache_policy,
    {
        RemoteTargetConfig {
            url: self.url.clone(),
            git_ref: self.git_ref.clone(),
            svn_revision: self.svn_revision.clone(),
            subdir: self.subdir.clone(),
            cache_policy: self.cache_policy,
        }
    }
}

/// The trimmed ref (Git) or revision (SVN) for `mode`; empty for a directory.
pub open spec fn ref_or_revision_spec(cfg: RemoteTargetConfig, mode: SearchTargetMode) -> Seq<char> {
    match mode {
        SearchTargetMode::GitRemote => trim(cfg.git_ref@),
        SearchTargetMode::SvnRemote => trim(cfg.svn_revision@),
        SearchTargetMode::Directory => Seq::empty(),
    }
}

/// A remote mode with a non-blank URL.
pub open spec fn remote_ready_spec(cfg: RemoteTargetConfig, mode: SearchTargetMode) -> bool {
    mode != SearchTargetMode::Directory && trim(cfg.url@).len() > 0
}

impl RemoteTargetConfig {
    pub fn ref_or_revision_for(&self, mode: SearchTargetMode) -> (r: String)
        ensures
            r@ == ref_or_revision_spec(*self, mode),
    {
        proof { reveal_strlit(""); }
        match mode {
            SearchTargetMode::GitRemote => trim_string(self.git_ref.as_str()),
            SearchTargetMode::SvnRemote => trim_string(self.svn_revision.as_str()),
            SearchTargetMode::Directory => String::new(),
        }
    }

    pub fn is_remote_ready(&self, mode: SearchTargetMode) -> (b: bool)
        ensures
            b == remote_ready_spec(*self, mode),
    {
        let t = trim_string(self.url.as_str());
        mode != SearchTargetMode::Directory && !t.as_str().is_empty()
    }
}

/// A fetch to run.
#[derive(Debug)]
pub struct RemoteFetchRequest {
    pub mode: SearchTargetMode,
    pub url: String,
    pub ref_or_revision: String,
    pub subdir: String,
    pub force_refresh: bool,
}

/// `s` without leading and trailing `c`.
pub open spec fn trim_char(s: Seq<char>, c: char) -> Seq<char>
    decreases s.len(),
{
    if s.len() > 0 && s[0] == c {
        trim_char(s.drop_first(), c)
    } else if s.len() > 0 && s.last() == c {
        trim_char(s.drop_last(), c)
    } else {
        s
    }
}

/// The subdirectory to apply: trimmed, without leading or trailing `/`
/// (empty: the repository root itself).
pub open spec fn subdir_spec(subdir: Seq<char>) -> Seq<char> {
    trim_char(trim(subdir), '/')
}

/// The relative subdirectory that `resolve_subdir_path` joins to the fetched tree.
pub fn normalized_subdir(subdir: &str) -> (r: String)
    ensures
        r@ == subdir_spec(subdir@),
{
    let t = trim_string(subdir);
    let v = chars_of(t.as_str());
    let mut a: usize = 0;
    let mut b: usize = v.len();
    assert(v@.subrange(0, v.len() as int) =~= v@);
    while a < b && (v[a] == '/' || v[b - 1] == '/')
        invariant
            a <= b <= v.len(),
            trim_char(v@.subrange(a as int, b as int), '/') == trim_char(v@, '/'),
        decreases b - a,
    {
        if v[a] == '/' {
            assert(v@.subrange(a as int, b as int).drop_first() =~= v@.subrange(a + 1, b as int));
            a = a + 1;
        } else {
            assert(v@.subrange(a as int, b as int).drop_last() =~= v@.subrange(a as int, b - 1));
            b = b - 1;
        }
    }
    string_of_range(v.as_slice(), a, b)
}

} // verus!
