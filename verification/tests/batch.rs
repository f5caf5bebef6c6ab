use ast_grep_gui::batch::{accept_batch_jobs_file, jobs_from_pattern_lines, parse_pattern_lines, BatchJobsFile, BatchReport, BatchRunResult, PatternJob};
use ast_grep_gui::cli_config::BatchCommonOptions;
use ast_grep_gui::file_encoding::FileEncodingPreference;
use ast_grep_gui::lang::SupportedLanguage;
use ast_grep_gui::search::{default_type_hints_enabled, PlainTextSearchOptions, SearchConditions, SearchMode, SearchStats};
use ast_grep_gui::search_target::{RemoteTargetConfig, SearchTargetMode};

fn make_job(id: usize, enabled: bool, pattern: &str, search_dir: &str) -> PatternJob {
    PatternJob {
        id,
        label: format!("job-{id}"),
        enabled,
        pattern: pattern.to_string(),
        search_dir: search_dir.to_string(),
        search_target_mode: SearchTargetMode::default(),
        remote_target: RemoteTargetConfig::default(),
        selected_lang: SupportedLanguage::Rust,
        context_lines: 0,
        file_filter: String::new(),
        file_encoding_preference: FileEncodingPreference::Auto,
        max_file_size_mb: 10,
        max_search_hits: 1000,
        skip_dirs: String::new(),
        search_mode: SearchMode::AstGrep,
        plain_text_options: PlainTextSearchOptions::default(),
        cpp_include_dirs: String::new(),
        type_hints_enabled: default_type_hints_enabled(),
    }
}

fn make_run_result(matches: usize, files: usize, error: Option<String>) -> BatchRunResult {
    BatchRunResult {
        job_id: 1,
        label: "test".to_string(),
        conditions: SearchConditions {
            search_dir: String::new(),
            search_target_mode: SearchTargetMode::default(),
            remote_target: RemoteTargetConfig::default(),
            pattern: String::new(),
            selected_lang: SupportedLanguage::Rust,
            context_lines: 0,
            file_filter: String::new(),
            file_encoding_preference: FileEncodingPreference::Auto,
            max_file_size_mb: 10,
            max_search_hits: 100,
            skip_dirs: String::new(),
            search_mode: SearchMode::AstGrep,
            plain_text_options: PlainTextSearchOptions::default(),
            cpp_include_dirs: String::new(),
            type_hints_enabled: default_type_hints_enabled(),
        },
        results: vec![],
        stats: SearchStats {
            total_matches: matches,
            total_files: files,
            elapsed_ms: 0,
            scanned: 0,
            hit_limit_reached: false,
        },
        error,
    }
}

#[test]
fn is_runnable_enabled_with_content() {
    assert!(make_job(1, true, "fn $NAME()", "/src").is_runnable());
}

#[test]
fn is_runnable_false_when_disabled() {
    assert!(!make_job(1, false, "fn $NAME()", "/src").is_runnable());
}

#[test]
fn is_runnable_false_when_pattern_blank() {
    assert!(!make_job(1, true, "   ", "/src").is_runnable());
}

#[test]
fn is_runnable_true_for_git_remote_url() {
    let mut job = make_job(1, true, "fn main", "");
    job.search_target_mode = SearchTargetMode::GitRemote;
    job.remote_target.url = "https://example.com/repo.git".into();
    assert!(job.is_runnable());
}

#[test]
fn is_runnable_false_when_dir_blank() {
    assert!(!make_job(1, true, "fn $NAME()", "  ").is_runnable());
}

#[test]
fn renumber_ids_assigns_sequential_from_one() {
    let jobs = vec![make_job(99, true, "p1", "/a"), make_job(42, true, "p2", "/b"), make_job(7, true, "p3", "/c")];
    let (renumbered, next_id) = BatchJobsFile::new(jobs).renumber_job_ids();
    assert_eq!(renumbered[0].id, 1);
    assert_eq!(renumbered[1].id, 2);
    assert_eq!(renumbered[2].id, 3);
    assert_eq!(next_id, 4);
}

#[test]
fn renumber_ids_empty_returns_next_one() {
    let (jobs, next_id) = BatchJobsFile::new(vec![]).renumber_job_ids();
    assert!(jobs.is_empty());
    assert_eq!(next_id, 1);
}

#[test]
fn batch_report_aggregates_totals() {
    let report = BatchReport { total_elapsed_ms: 500, runs: vec![make_run_result(5, 2, None), make_run_result(3, 1, None)] };
    assert_eq!(report.total_matches(), 8);
    assert_eq!(report.total_files(), 3);
    assert_eq!(report.failed_count(), 0);
}

#[test]
fn batch_report_failed_count() {
    let report = BatchReport {
        total_elapsed_ms: 100,
        runs: vec![
            make_run_result(0, 0, Some("error".to_string())),
            make_run_result(5, 1, None),
            make_run_result(0, 0, Some("another error".to_string())),
        ],
    };
    assert_eq!(report.failed_count(), 2);
    assert_eq!(report.total_matches(), 5);
}

#[test]
fn parse_pattern_lines_skips_comments_and_blanks() {
    let text = "# comment\n\nfn $NAME()\nconsole.log($$$ARGS)\n";
    let lines = parse_pattern_lines(text);
    assert_eq!(lines.len(), 2);
    assert_eq!(lines[0], "fn $NAME()");
    assert_eq!(lines[1], "console.log($$$ARGS)");
}

#[test]
fn unsupported_version_returns_error() {
    let file = BatchJobsFile { version: 9999, jobs: vec![] };
    assert!(accept_batch_jobs_file(file).is_err());
}

#[test]
fn current_version_file_is_accepted_and_renumbered() {
    let file = BatchJobsFile { version: 1, jobs: vec![make_job(5, true, "a", "/x"), make_job(5, true, "b", "/y")] };
    let (jobs, next) = accept_batch_jobs_file(file).unwrap();
    assert_eq!(jobs[0].id, 1);
    assert_eq!(jobs[1].id, 2);
    assert_eq!(jobs[1].pattern, "b");
    assert_eq!(next, 3);
}

#[test]
fn pattern_lines_are_trimmed() {
    let lines = parse_pattern_lines("  foo($A)  \r\n\t# not this\n   \nbar\n");
    assert_eq!(lines, vec!["foo($A)".to_string(), "bar".to_string()]);
}

#[test]
fn jobs_from_lines_carry_common_options() {
    let mut common = BatchCommonOptions::default();
    common.search_dir = "/src".to_string();
    common.selected_lang = SupportedLanguage::Go;
    let jobs = jobs_from_pattern_lines(&["a".to_string(), "b".to_string()], &common);
    assert_eq!(jobs.len(), 2);
    assert_eq!(jobs[0].id, 1);
    assert_eq!(jobs[1].id, 2);
    assert_eq!(jobs[1].pattern, "b");
    assert_eq!(jobs[0].search_dir, "/src");
    assert_eq!(jobs[0].selected_lang, SupportedLanguage::Go);
    assert!(jobs[0].enabled);
}
