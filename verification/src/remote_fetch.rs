//! Where a search runs: a local directory, or a remote tree fetched into the
//! cache first.
use vstd::prelude::*;
use crate::search::SearchConditions;
use crate::search_target::{ref_or_revision_spec, RemoteCachePolicy, RemoteFetchRequest, SearchTargetMode};
use crate::text::{push_str, trim, trim_string};

verus! {

/// What the background fetch reports.
#[derive(Debug)]
pub enum RemoteFetchMessage {
    Progress(String),
    Done { local_path: String },
    Error(String),
}

/// How the directory of a search is obtained.
#[derive(Debug)]
pub enum SearchDirPlan {
    /// A local directory, searched as it is.
    Local(String),
    /// A remote tree, fetched (or taken from the cache) first.
    Fetch(RemoteFetchRequest),
}

pub open spec fn empty_dir_text() -> Seq<char> {
    "search directory is empty"@
}

/// The plan for the conditions' search directory: the trimmed directory in
/// the directory mode (an error when it is blank), else the fetch of the
/// remote target, forced when asked or when the cache policy says so.
pub fn resolve_search_dir_from_conditions(cond: &SearchConditions, force_refresh: bool) -> (r: Result<SearchDirPlan, String>)
    ensures
        cond.search_target_mode == SearchTargetMode::Directory ==> match r {
            Ok(SearchDirPlan::Local(d)) => d@ == trim(cond.search_dir@) && d@.len() > 0,
            Ok(SearchDirPlan::Fetch(_)) => false,
            Err(e) => trim(cond.search_dir@).len() == 0 && e@ == empty_dir_text(),
        },
        cond.search_target_mode != SearchTargetMode::Directory ==> match r {
            Ok(SearchDirPlan::Fetch(req)) => {
                &&& req.mode == cond.search_target_mode
                &&& req.url@ == cond.remote_target.url@
                &&& req.ref_or_revision@ == ref_or_revision_spec(cond.remote_target, cond.search_target_mode)
                &&& req.subdir@ == cond.remote_target.subdir@
                &&& req.force_refresh == (force_refresh || cond.remote_target.cache_policy == RemoteCachePolicy::RefreshNext)
            },
            _ => false,
        },
{
    match cond.search_target_mode {
        SearchTargetMode::Directory => {
            let dir = trim_string(cond.search_dir.as_str());
            if dir.as_str().is_empty() {
                return Err("search directory is empty".to_string());
            }
            Ok(SearchDirPlan::Local(dir))
        },
        _ => {
            let policy_refresh = match cond.remote_target.cache_policy {
                RemoteCachePolicy::RefreshNext => true,
                RemoteCachePolicy::UseCache => false,
            };
            let req = RemoteFetchRequest {
                mode: cond.search_target_mode,
                url: cond.remote_target.url.clone(),
                ref_or_revision: cond.remote_target.ref_or_revision_for(cond.search_target_mode),
                subdir: cond.remote_target.subdir.clone(),
                force_refresh: force_refresh || policy_refresh,
            };
            Ok(SearchDirPlan::Fetch(req))
        },
    }
}

/// Whether the tree must be fetched: when a refresh is forced or the cache is
/// not ready.
pub fn needs_fetch(req: &RemoteFetchRequest, cache_ready: bool) -> (b: bool)
    ensures
        b == (req.force_refresh || !cache_ready),
{
    !(!req.force_refresh && cache_ready)
}

pub open spec fn fetch_progress_spec(url: Seq<char>) -> Seq<char> {
    "fetching "@ + url + " …"@
}

/// The progress line shown while a remote tree is fetched.
pub fn fetch_progress_message(url: &str) -> (r: String)
    ensures
        r@ == fetch_progress_spec(url@),
{
    let mut s = "fetching ".to_string();
    push_str(&mut s, url);
    push_str(&mut s, " …");
    s
}

pub open spec fn cached_copy_text() -> Seq<char> {
    "using cached copy"@
}

/// The progress line shown when the cached tree is reused.
pub fn cached_copy_message() -> (r: String)
    ensures
        r@ == cached_copy_text(),
{
    "using cached copy".to_string()
}

} // verus!
