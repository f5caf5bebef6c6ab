use ast_grep_gui::file_encoding::FileEncodingPreference;
use ast_grep_gui::lang::SupportedLanguage;
use ast_grep_gui::remote_fetch::{cached_copy_message, fetch_progress_message, needs_fetch, resolve_search_dir_from_conditions, SearchDirPlan};
use ast_grep_gui::search::{PlainTextSearchOptions, SearchConditions, SearchMode};
use ast_grep_gui::search_target::{normalized_subdir, RemoteCachePolicy, RemoteTargetConfig, SearchTargetMode};

fn cond(mode: SearchTargetMode, dir: &str) -> SearchConditions {
    SearchConditions {
        search_dir: dir.to_string(),
        search_target_mode: mode,
        remote_target: RemoteTargetConfig {
            url: "https://example.com/r.git".to_string(),
            git_ref: " main ".to_string(),
            svn_revision: "42".to_string(),
            subdir: "src".to_string(),
            cache_policy: RemoteCachePolicy::UseCache,
        },
        pattern: String::new(),
        selected_lang: SupportedLanguage::Auto,
        context_lines: 2,
        file_filter: String::new(),
        file_encoding_preference: FileEncodingPreference::Auto,
        max_file_size_mb: 10,
        max_search_hits: 100,
        skip_dirs: String::new(),
        search_mode: SearchMode::AstGrep,
        plain_text_options: PlainTextSearchOptions::default(),
        cpp_include_dirs: String::new(),
        type_hints_enabled: true,
    }
}

#[test]
fn local_directory_is_trimmed() {
    match resolve_search_dir_from_conditions(&cond(SearchTargetMode::Directory, "  /src  "), false).unwrap() {
        SearchDirPlan::Local(d) => assert_eq!(d, "/src"),
        other => panic!("unexpected {other:?}"),
    }
}

#[test]
fn blank_directory_is_an_error() {
    let e = resolve_search_dir_from_conditions(&cond(SearchTargetMode::Directory, "   "), false).unwrap_err();
    assert_eq!(e, "search directory is empty");
}

#[test]
fn git_remote_plans_a_fetch() {
    let mut c = cond(SearchTargetMode::GitRemote, "");
    c.remote_target.cache_policy = RemoteCachePolicy::RefreshNext;
    match resolve_search_dir_from_conditions(&c, false).unwrap() {
        SearchDirPlan::Fetch(req) => {
            assert_eq!(req.mode, SearchTargetMode::GitRemote);
            assert_eq!(req.url, "https://example.com/r.git");
            assert_eq!(req.ref_or_revision, "main");
            assert_eq!(req.subdir, "src");
            assert!(req.force_refresh);
            assert!(needs_fetch(&req, true));
        }
        other => panic!("unexpected {other:?}"),
    }
}

#[test]
fn cached_tree_is_reused_unless_forced() {
    match resolve_search_dir_from_conditions(&cond(SearchTargetMode::SvnRemote, ""), false).unwrap() {
        SearchDirPlan::Fetch(req) => {
            assert_eq!(req.ref_or_revision, "42");
            assert!(!req.force_refresh);
            assert!(!needs_fetch(&req, true));
            assert!(needs_fetch(&req, false));
        }
        other => panic!("unexpected {other:?}"),
    }
}

#[test]
fn progress_texts() {
    assert_eq!(fetch_progress_message("u"), "fetching u …");
    assert_eq!(cached_copy_message(), "using cached copy");
}

#[test]
fn subdir_is_normalised() {
    assert_eq!(normalized_subdir(" /a/b/ "), "a/b");
    assert_eq!(normalized_subdir(""), "");
}
