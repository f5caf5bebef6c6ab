//! Batch search over several patterns: jobs, job files and the report.
use vstd::prelude::*;
use crate::cli_config::BatchCommonOptions;
use crate::file_encoding::FileEncodingPreference;
use crate::lang::SupportedLanguage;
use crate::search::{FileResult, PlainTextSearchOptions, SearchConditions, SearchMode, SearchStats};
use crate::search_target::{ref_or_revision_spec, remote_ready_spec, RemoteTargetConfig, SearchTargetMode};
use crate::text::{decimal, lines, lines_vec, push_str, starts_with, string_views, trim, trim_string, usize_string};

verus! {

/// `job_id` reserved for a single search (batch jobs count from 1).
pub const SINGLE_SEARCH_JOB_ID: usize = 0;

/// One search of a batch: a pattern with its own conditions.
#[derive(Debug)]
pub struct PatternJob {
    pub id: usize,
    pub label: String,
    pub enabled: bool,
    pub pattern: String,
    pub search_dir: String,
    pub search_target_mode: SearchTargetMode,
    pub remote_target: RemoteTargetConfig,
    pub selected_lang: SupportedLanguage,
    pub context_lines: usize,
    pub file_filter: String,
    pub file_encoding_preference: FileEncodingPreference,
    pub max_file_size_mb: u64,
    pub max_search_hits: usize,
    pub skip_dirs: String,
    pub search_mode: SearchMode,
    pub plain_text_options: PlainTextSearchOptions,
    /// Include directories for C++ type hints (`;`-separated).
    pub cpp_include_dirs: String,
    /// Whether metavariable type hints are computed.
    pub type_hints_enabled: bool,
}

pub open spec fn same_remote(a: RemoteTargetConfig, b: RemoteTargetConfig) -> bool {
    &&& a.url@ == b.url@
    &&& a.git_ref@ == b.git_ref@
    &&& a.svn_revision@ == b.svn_revision@
    &&& a.subdir@ == b.subdir@
    &&& a.cache_policy == b.cache_policy
}

/// Two jobs agree on everything but their ids.
pub open spec fn same_job_but_id(a: PatternJob, b: PatternJob) -> bool {
    &&& a.label@ == b.label@
    &&& a.enabled == b.enabled
    &&& a.pattern@ == b.pattern@
    &&& a.search_dir@ == b.search_dir@
    &&& a.search_target_mode == b.search_target_mode
    &&& same_remote(a.remote_target, b.remote_target)
    &&& a.selected_lang == b.selected_lang
    &&& a.context_lines == b.context_lines
    &&& a.file_filter@ == b.file_filter@
    &&& a.file_encoding_preference == b.file_encoding_preference
    &&& a.max_file_size_mb == b.max_file_size_mb
    &&& a.max_search_hits == b.max_search_hits
    &&& a.skip_dirs@ == b.skip_dirs@
    &&& a.search_mode == b.search_mode
    &&& a.plain_text_options == b.plain_text_options
    &&& a.cpp_include_dirs@ == b.cpp_include_dirs@
    &&& a.type_hints_enabled == b.type_hints_enabled
}

impl Clone for PatternJob {
    fn clone(&self) -> (r: Self)
        ensures
            r.id == self.id,
            same_job_but_id(r, *self),
    {
        PatternJob {
            id: self.id,
            label: self.label.clone(),
            enabled: self.enabled,
            pattern: self.pattern.clone(),
            search_dir: self.search_dir.clone(),
            search_target_mode: self.search_target_mode,
            remote_target: self.remote_target.clone(),
            selected_lang: self.selected_lang,
            context_lines: self.context_lines,
            file_filter: self.file_filter.clone(),
            file_encoding_preference: self.file_encoding_preference,
            max_file_size_mb: self.max_file_size_mb,
            max_search_hits: self.max_search_hits,
            skip_dirs: self.skip_dirs.clone(),
            search_mode: self.search_mode,
            plain_text_options: self.plain_text_options,
            cpp_include_dirs: self.cpp_include_dirs.clone(),
            type_hints_enabled: self.type_hints_enabled,
        }
    }
}

/// A job can run: enabled, with a non-blank pattern, and a non-blank
/// directory (local) or a ready remote target.
pub open spec fn runnable_spec(j: PatternJob) -> bool {
    &&& j.enabled
    &&& trim(j.pattern@).len() > 0
    &&& match j.search_target_mode {
        SearchTargetMode::Directory => trim(j.search_dir@).len() > 0,
        m => remote_ready_spec(j.remote_target, m),
    }
}

/// Where a job searches, as shown: the directory, or `url[@rev][/subdir]`.
pub open spec fn search_dir_display_spec(j: PatternJob) -> Seq<char> {
    match j.search_target_mode {
        SearchTargetMode::Directory => j.search_dir@,
        m => {
            let rev = ref_or_revision_spec(j.remote_target, m);
            let sub = trim(j.remote_target.subdir@);
            j.remote_target.url@
                + (if rev.len() > 0 { "@"@ + rev } else { Seq::empty() })
                + (if sub.len() > 0 { "/"@ + sub } else { Seq::empty() })
        },
    }
}

impl PatternJob {
    /// The job's conditions as exported with its results.
    pub fn to_conditions(&self) -> (r: SearchConditions)
        ensures
            r.search_dir@ == self.search_dir@,
            r.search_target_mode == self.search_target_mode,
            same_remote(r.remote_target, self.remote_target),
            r.pattern@ == self.pattern@,
            r.selected_lang == self.selected_lang,
            r.context_lines == self.context_lines,
            r.file_filter@ == self.file_filter@,
            r.file_encoding_preference == self.file_encoding_preference,
            r.max_file_size_mb == self.max_file_size_mb,
            r.max_search_hits == self.max_search_hits,
            r.skip_dirs@ == self.skip_dirs@,
            r.search_mode == self.search_mode,
            r.plain_text_options == self.plain_text_options,
            r.cpp_include_dirs@ == self.cpp_include_dirs@,
            r.type_hints_enabled == self.type_hints_enabled,
    {
        SearchConditions {
            search_dir: self.search_dir.clone(),
            search_target_mode: self.search_target_mode,
            remote_target: self.remote_target.clone(),
            pattern: self.pattern.clone(),
            selected_lang: self.selected_lang,
            context_lines: self.context_lines,
            file_filter: self.file_filter.clone(),
            file_encoding_preference: self.file_encoding_preference,
            max_file_size_mb: self.max_file_size_mb,
            max_search_hits: self.max_search_hits,
            skip_dirs: self.skip_dirs.clone(),
            search_mode: self.search_mode,
            plain_text_options: self.plain_text_options,
            cpp_include_dirs: self.cpp_include_dirs.clone(),
            type_hints_enabled: self.type_hints_enabled,
        }
    }

    /// A new, enabled job from the main screen's current settings.
    pub fn from_app_snapshot(
        id: usize,
        label: String,
        pattern: String,
        search_dir: String,
        search_target_mode: SearchTargetMode,
        remote_target: RemoteTargetConfig,
        selected_lang: SupportedLanguage,
        context_lines: usize,
        file_filter: String,
        file_encoding_preference: FileEncodingPreference,
        max_file_size_mb: u64,
        max_search_hits: usize,
        skip_dirs: String,
        search_mode: SearchMode,
        plain_text_options: PlainTextSearchOptions,
        cpp_include_dirs: String,
        type_hints_enabled: bool,
    ) -> (r: Self)
        ensures
            r == (PatternJob {
                id, label, enabled: true, pattern, search_dir, search_target_mode, remote_target,
                selected_lang, context_lines, file_filter, file_encoding_preference, max_file_size_mb,
                max_search_hits, skip_dirs, search_mode, plain_text_options, cpp_include_dirs,
                type_hints_enabled,
            }),
    {
        PatternJob {
            id,
            label,
            enabled: true,
            pattern,
            search_dir,
            search_target_mode,
            remote_target,
            selected_lang,
            context_lines,
            file_filter,
            file_encoding_preference,
            max_file_size_mb,
            max_search_hits,
            skip_dirs,
            search_mode,
            plain_text_options,
            cpp_include_dirs,
            type_hints_enabled,
        }
    }

    pub fn is_runnable(&self) -> (b: bool)
        ensures
            b == runnable_spec(*self),
    {
        if !self.enabled {
            return false;
        }
        let p = trim_string(self.pattern.as_str());
        if p.as_str().is_empty() {
            return false;
        }
        match self.search_target_mode {
            SearchTargetMode::Directory => {
                let d = trim_string(self.search_dir.as_str());
                !d.as_str().is_empty()
            },
            mode => self.remote_target.is_remote_ready(mode),
        }
    }

    pub fn effective_search_dir_display(&self) -> (r: String)
        ensures
            r@ == search_dir_display_spec(*self),
    {
        match self.search_target_mode {
            SearchTargetMode::Directory => self.search_dir.clone(),
            mode => {
                let mut s = self.remote_target.url.clone();
                let rev = self.remote_target.ref_or_revision_for(mode);
                let ghost after_url = s@;
                if !rev.as_str().is_empty() {
                    push_str(&mut s, "@");
                    push_str(&mut s, rev.as_str());
                }
                let ghost after_rev = s@;
                assert(after_rev =~= after_url + (if rev@.len() > 0 { "@"@ + rev@ } else { Seq::<char>::empty() }));
                let sub = trim_string(self.remote_target.subdir.as_str());
                if !sub.as_str().is_empty() {
                    push_str(&mut s, "/");
                    push_str(&mut s, sub.as_str());
                }
                assert(s@ =~= after_rev + (if sub@.len() > 0 { "/"@ + sub@ } else { Seq::<char>::empty() }));
                s
            },
        }
    }
}

/// A saved list of batch jobs.
#[derive(Debug)]
pub struct BatchJobsFile {
    /// Schema version.
    pub version: u32,
    pub jobs: Vec<PatternJob>,
}

/// The ids `1, 2, …` in order, everything else unchanged.
pub open spec fn renumbered(old: Seq<PatternJob>, new: Seq<PatternJob>) -> bool {
    &&& new.len() == old.len()
    &&& forall|i: int| 0 <= i < new.len() ==> (#[trigger] new[i]).id == i + 1 && same_job_but_id(new[i], old[i])
}

impl BatchJobsFile {
    pub const CURRENT_VERSION: u32 = 1;

    pub fn new(jobs: Vec<PatternJob>) -> (r: Self)
        ensures
            r.version == 1,
            r.jobs == jobs,
    {
        BatchJobsFile { version: Self::CURRENT_VERSION, jobs }
    }

    /// Renumbers the jobs `1, 2, …` and returns them with the next free id.
    pub fn renumber_job_ids(self) -> (r: (Vec<PatternJob>, usize))
        requires
            self.jobs@.len() < usize::MAX,
        ensures
            renumbered(self.jobs@, r.0@),
            r.1 == self.jobs@.len() + 1,
    {
        let ghost orig = self.jobs@;
        let mut jobs = self.jobs;
        let mut out: Vec<PatternJob> = Vec::new();
        let mut next: usize = 1;
        let n = jobs.len();
        let mut k: usize = 0;
        while k < n
            invariant
                k <= n,
                n == orig.len(),
                n < usize::MAX,
                next == k + 1,
                jobs@ == orig,
                out@.len() == k,
                forall|i: int| 0 <= i < k ==> (#[trigger] out@[i]).id == i + 1 && same_job_but_id(out@[i], orig[i]),
            decreases n - k,
        {
            let mut j = jobs[k].clone();
            j.id = next;
            out.push(j);
            next = next + 1;
            k = k + 1;
        }
        (out, next)
    }
}

pub open spec fn version_error_text(version: u32) -> Seq<char> {
    "unsupported batch file version "@ + decimal(version as nat) + " (max 1)"@
}

/// A loaded job file: refused when written by a newer schema, else its jobs
/// renumbered `1, 2, …` with the next free id.
pub fn accept_batch_jobs_file(file: BatchJobsFile) -> (r: Result<(Vec<PatternJob>, usize), String>)
    requires
        file.jobs@.len() < usize::MAX,
    ensures
        file.version > 1 ==> (r matches Err(e) && e@ == version_error_text(file.version)),
        file.version <= 1 ==> (r matches Ok((jobs, next)) && renumbered(file.jobs@, jobs@) && next == file.jobs@.len() + 1),
{
    if file.version > BatchJobsFile::CURRENT_VERSION {
        let mut msg = "unsupported batch file version ".to_string();
        let v = crate::text::decimal_string(file.version as u64);
        push_str(&mut msg, v.as_str());
        push_str(&mut msg, " (max 1)");
        return Err(msg);
    }
    Ok(BatchJobsFile::new(file.jobs).renumber_job_ids())
}

/// The outcome of one batch job.
#[derive(Debug)]
pub struct BatchRunResult {
    pub job_id: usize,
    pub label: String,
    pub conditions: SearchConditions,
    pub results: Vec<FileResult>,
    pub stats: SearchStats,
    pub error: Option<String>,
}

/// All outcomes of a finished batch.
#[derive(Debug)]
pub struct BatchReport {
    pub total_elapsed_ms: u64,
    pub runs: Vec<BatchRunResult>,
}

pub open spec fn sum_matches(runs: Seq<BatchRunResult>) -> nat
    decreases runs.len(),
{
    if runs.len() == 0 { 0 } else { sum_matches(runs.drop_last()) + runs.last().stats.total_matches as nat }
}

pub open spec fn sum_files(runs: Seq<BatchRunResult>) -> nat
    decreases runs.len(),
{
    if runs.len() == 0 { 0 } else { sum_files(runs.drop_last()) + runs.last().stats.total_files as nat }
}

pub open spec fn count_failed(runs: Seq<BatchRunResult>) -> nat
    decreases runs.len(),
{
    if runs.len() == 0 { 0 } else { count_failed(runs.drop_last()) + if runs.last().error is Some { 1nat } else { 0nat } }
}

proof fn lemma_sum_prefix(runs: Seq<BatchRunResult>, i: int)
    requires
        0 <= i <= runs.len(),
    ensures
        sum_matches(runs.take(i)) <= sum_matches(runs),
        sum_files(runs.take(i)) <= sum_files(runs),
        count_failed(runs.take(i)) <= runs.len(),
    decreases runs.len(),
{
    if i < runs.len() {
        lemma_sum_prefix(runs.drop_last(), i);
        assert(runs.drop_last().take(i) =~= runs.take(i));
    } else {
        assert(runs.take(i) =~= runs);
        lemma_failed_bound(runs);
    }
}

proof fn lemma_failed_bound(runs: Seq<BatchRunResult>)
    ensures
        count_failed(runs) <= runs.len(),
    decreases runs.len(),
{
    if runs.len() > 0 {
        lemma_failed_bound(runs.drop_last());
    }
}

impl BatchReport {
    pub fn total_matches(&self) -> (r: usize)
        requires
            sum_matches(self.runs@) <= usize::MAX,
        ensures
            r == sum_matches(self.runs@),
    {
        let mut total: usize = 0;
        let mut i: usize = 0;
        while i < self.runs.len()
            invariant
                i <= self.runs.len(),
                sum_matches(self.runs@) <= usize::MAX,
                total == sum_matches(self.runs@.take(i as int)),
            decreases self.runs.len() - i,
        {
            assert(self.runs@.take(i + 1).drop_last() =~= self.runs@.take(i as int));
            proof { lemma_sum_prefix(self.runs@, i + 1); }
            total = total + self.runs[i].stats.total_matches;
            i = i + 1;
        }
        assert(self.runs@.take(i as int) =~= self.runs@);
        total
    }

    pub fn total_files(&self) -> (r: usize)
        requires
            sum_files(self.runs@) <= usize::MAX,
        ensures
            r == sum_files(self.runs@),
    {
        let mut total: usize = 0;
        let mut i: usize = 0;
        while i < self.runs.len()
            invariant
                i <= self.runs.len(),
                sum_files(self.runs@) <= usize::MAX,
                total == sum_files(self.runs@.take(i as int)),
            decreases self.runs.len() - i,
        {
            assert(self.runs@.take(i + 1).drop_last() =~= self.runs@.take(i as int));
            proof { lemma_sum_prefix(self.runs@, i + 1); }
            total = total + self.runs[i].stats.total_files;
            i = i + 1;
        }
        assert(self.runs@.take(i as int) =~= self.runs@);
        total
    }

    pub fn failed_count(&self) -> (r: usize)
        ensures
            r == count_failed(self.runs@),
    {
        let mut total: usize = 0;
        let mut i: usize = 0;
        while i < self.runs.len()
            invariant
                i <= self.runs.len(),
                total == count_failed(self.runs@.take(i as int)),
            decreases self.runs.len() - i,
        {
            assert(self.runs@.take(i + 1).drop_last() =~= self.runs@.take(i as int));
            proof { lemma_sum_prefix(self.runs@, i + 1); }
            if self.runs[i].error.is_some() {
                total = total + 1;
            }
            i = i + 1;
        }
        assert(self.runs@.take(i as int) =~= self.runs@);
        total
    }
}

/// The pattern lines of `ls`: trimmed, without blank lines and `#` comments.
pub open spec fn pattern_lines_from(ls: Seq<Seq<char>>) -> Seq<Seq<char>>
    decreases ls.len(),
{
    if ls.len() == 0 {
        Seq::empty()
    } else {
        let rest = pattern_lines_from(ls.drop_last());
        let l = trim(ls.last());
        if l.len() > 0 && !starts_with(l, "#"@) { rest.push(l) } else { rest }
    }
}

/// One pattern per line: blank lines and `#` comments are skipped, the rest trimmed.
pub fn parse_pattern_lines(s: &str) -> (r: Vec<String>)
    ensures
        string_views(r@) == pattern_lines_from(lines(s@)),
{
    let ls = lines_vec(s);
    let ghost lv = string_views(ls@);
    let mut out: Vec<String> = Vec::new();
    let mut i: usize = 0;
    assert(lv.take(0) =~= Seq::<Seq<char>>::empty());
    assert(string_views(out@) =~= Seq::<Seq<char>>::empty());
    while i < ls.len()
        invariant
            i <= ls.len(),
            lv == string_views(ls@),
            string_views(out@) == pattern_lines_from(lv.take(i as int)),
        decreases ls.len() - i,
    {
        assert(lv.take(i + 1).drop_last() =~= lv.take(i as int));
        assert(lv.take(i + 1).last() == ls@[i as int]@);
        let l = trim_string(ls[i].as_str());
        let ghost before = out@;
        if !l.as_str().is_empty() && !crate::text::str_starts_with(l.as_str(), "#") {
            out.push(l);
            assert(string_views(out@) =~= string_views(before).push(l@));
        }
        i = i + 1;
    }
    assert(lv.take(ls.len() as int) =~= lv);
    out
}

/// The label of the `id`-th job made from a pattern file.
pub open spec fn pattern_job_label(id: nat) -> Seq<char> {
    "pattern-"@ + decimal(id)
}

/// The job made from the `i`-th pattern with the shared options.
pub open spec fn job_from_pattern(j: PatternJob, i: int, pattern: Seq<char>, common: BatchCommonOptions) -> bool {
    &&& j.id == i + 1
    &&& j.label@ == pattern_job_label((i + 1) as nat)
    &&& j.enabled
    &&& j.pattern@ == pattern
    &&& j.search_dir@ == common.search_dir@
    &&& j.search_target_mode == SearchTargetMode::Directory
    &&& j.remote_target.url@.len() == 0 && j.remote_target.git_ref@.len() == 0
    &&& j.remote_target.svn_revision@.len() == 0 && j.remote_target.subdir@.len() == 0
    &&& j.selected_lang == common.selected_lang
    &&& j.context_lines == common.context_lines
    &&& j.file_filter@ == common.file_filter@
    &&& j.file_encoding_preference == common.file_encoding_preference
    &&& j.max_file_size_mb == common.max_file_size_mb
    &&& j.max_search_hits == common.max_search_hits
    &&& j.skip_dirs@ == common.skip_dirs@
    &&& j.search_mode == common.search_mode
    &&& j.plain_text_options == common.plain_text_options
    &&& j.cpp_include_dirs@ == common.cpp_include_dirs@
    &&& j.type_hints_enabled == common.type_hints_enabled
}

/// One enabled job per pattern, numbered from 1 and labelled `pattern-<id>`,
/// with the shared options (searching the local directory).
pub fn jobs_from_pattern_lines(patterns: &[String], common: &BatchCommonOptions) -> (r: Vec<PatternJob>)
    requires
        patterns@.len() < usize::MAX,
    ensures
        r@.len() == patterns@.len(),
        forall|i: int| 0 <= i < r@.len() ==> job_from_pattern(#[trigger] r@[i], i, patterns@[i]@, *common),
{
    let mut out: Vec<PatternJob> = Vec::new();
    let mut i: usize = 0;
    while i < patterns.len()
        invariant
            i <= patterns.len(),
            patterns@.len() < usize::MAX,
            out@.len() == i,
            forall|k: int| 0 <= k < i ==> job_from_pattern(#[trigger] out@[k], k, patterns@[k]@, *common),
        decreases patterns.len() - i,
    {
        let id = i + 1;
        let mut label = "pattern-".to_string();
        let n = usize_string(id);
        push_str(&mut label, n.as_str());
        let job = PatternJob {
            id,
            label,
            enabled: true,
            pattern: patterns[i].clone(),
            search_dir: common.search_dir.clone(),
            search_target_mode: SearchTargetMode::default(),
            remote_target: RemoteTargetConfig::default(),
            selected_lang: common.selected_lang,
            context_lines: common.context_lines,
            file_filter: common.file_filter.clone(),
            file_encoding_preference: common.file_encoding_preference,
            max_file_size_mb: common.max_file_size_mb,
            max_search_hits: common.max_search_hits,
            skip_dirs: common.skip_dirs.clone(),
            search_mode: common.search_mode,
            plain_text_options: common.plain_text_options,
            cpp_include_dirs: common.cpp_include_dirs.clone(),
            type_hints_enabled: common.type_hints_enabled,
        };
        out.push(job);
        i = i + 1;
    }
    out
}

/// Every pattern read from a pattern file is a non-blank line, trimmed (no
/// white space at either end), that is not a `#` comment.
pub proof fn lemma_pattern_lines_clean(ls: Seq<Seq<char>>)
    ensures
        forall|i: int| 0 <= i < pattern_lines_from(ls).len() ==> {
            let p = #[trigger] pattern_lines_from(ls)[i];
            &&& p.len() > 0
            &&& !starts_with(p, "#"@)
            &&& !crate::text::is_white_space(p[0])
            &&& !crate::text::is_white_space(p.last())
        },
    decreases ls.len(),
{
    if ls.len() > 0 {
        lemma_pattern_lines_clean(ls.drop_last());
        let rest = pattern_lines_from(ls.drop_last());
        let l = trim(ls.last());
        crate::text::lemma_trim_edges(ls.last());
        let all = pattern_lines_from(ls);
        assert forall|i: int| 0 <= i < all.len() implies {
            let p = #[trigger] all[i];
            &&& p.len() > 0
            &&& !starts_with(p, "#"@)
            &&& !crate::text::is_white_space(p[0])
            &&& !crate::text::is_white_space(p.last())
        } by {
            if i < rest.len() {
                assert(all[i] == rest[i]);
            } else {
                assert(all[i] == l);
            }
        }
    }
}

} // verus!
