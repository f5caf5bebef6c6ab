//! The batch command line: recognising batch mode and turning its arguments
//! into a batch request.
use vstd::prelude::*;
use crate::cli_config::{
    view_for_name, views_from_pieces, views_from_values,
    default_skip_dirs, default_skip_dirs_spec, parse_output_format, parse_output_views,
    parse_output_views_spec, unknown_format_message, BatchCommonOptions, BatchRunRequest,
};
use crate::export::{format_cli_name, format_for_name, view_cli_name, views_cli_arg, with_view, OutputFormat, OutputView, OutputViewSet};
use crate::file_encoding::FileEncodingPreference;
use crate::i18n::UiLanguage;
use crate::lang::{cli_name_spec, lang_for_cli_name, SupportedLanguage};
use crate::search::{PlainTextSearchOptions, SearchMode};
use crate::text::{join, lemma_split_join, lowercase, plain_lower_ascii, push_str, split_char, string_views, to_lowercase, trim, contains_char};

verus! {

/// Whether one of the arguments is exactly `--batch`.
pub fn is_batch_mode(args: &[String]) -> (b: bool)
    ensures
        b == exists|i: int| 0 <= i < args@.len() && (#[trigger] args@[i])@ == "--batch"@,
{
    let mut i: usize = 0;
    while i < args.len()
        invariant
            i <= args.len(),
            forall|j: int| 0 <= j < i ==> (#[trigger] args@[j])@ != "--batch"@,
        decreases args.len() - i,
    {
        let v = crate::text::chars_of(args[i].as_str());
        if crate::lang::str_eq(v.as_slice(), "--batch") {
            return true;
        }
        i = i + 1;
    }
    false
}

pub open spec fn unknown_language_message(s: Seq<char>) -> Seq<char> {
    "unknown language: "@ + s
}

/// The language named by `--lang`: `auto`, or a name that
/// `SupportedLanguage::from_cli_str` knows (case does not matter).
pub open spec fn parse_lang_spec(s: Seq<char>) -> Result<SupportedLanguage, Seq<char>> {
    let lower = lowercase(s);
    if lower == "auto"@ {
        Ok(SupportedLanguage::Auto)
    } else {
        match lang_for_cli_name(lowercase(lower)) {
            Some(l) => Ok(l),
            None => Err(unknown_language_message(lower)),
        }
    }
}

pub fn parse_lang(s: &str) -> (r: Result<SupportedLanguage, String>)
    ensures
        match r {
            Ok(l) => parse_lang_spec(s@) == Ok::<SupportedLanguage, Seq<char>>(l),
            Err(e) => parse_lang_spec(s@) == Err::<SupportedLanguage, Seq<char>>(e@),
        },
{
    let lower = to_lowercase(s);
    let v = crate::text::chars_of(lower.as_str());
    if crate::lang::str_eq(v.as_slice(), "auto") {
        return Ok(SupportedLanguage::Auto);
    }
    match SupportedLanguage::from_cli_str(lower.as_str()) {
        Some(l) => Ok(l),
        None => {
            let mut msg = "unknown language: ".to_string();
            push_str(&mut msg, lower.as_str());
            Err(msg)
        },
    }
}

/// The batch command line's arguments as plain values.
#[derive(Debug)]
pub struct BatchArgs {
    /// `--batch`: run without the GUI.
    pub batch: bool,
    /// `--patterns`: the pattern file.
    pub patterns: String,
    /// `--dir`: the directory searched.
    pub dir: String,
    /// `--lang` (default `auto`).
    pub lang: String,
    /// `--view` values (default `table`).
    pub view: Vec<String>,
    /// `--format` (default `json`).
    pub format: String,
    /// `--output`.
    pub output: Option<String>,
    /// `--context` (default 2).
    pub context: usize,
    /// `--filter` (default empty).
    pub filter: String,
    /// `--skip-dirs`.
    pub skip_dirs: Option<String>,
    /// `--max-hits`.
    pub max_hits: Option<usize>,
    /// `--max-file-size-mb` (default 10).
    pub max_file_size_mb: u64,
    /// `--include-dirs` (default empty).
    pub include_dirs: String,
    /// `--no-type-hints`.
    pub no_type_hints: bool,
}

pub open spec fn batch_flag_missing_text() -> Seq<char> {
    "--batch flag is required for CLI batch mode"@
}

pub open spec fn output_missing_text() -> Seq<char> {
    "--output is required for batch mode"@
}

/// The error of a batch command line, checked in this order: the batch flag,
/// the output file, the views, the format, the language.
pub open spec fn batch_args_error(a: BatchArgs) -> Option<Seq<char>> {
    if !a.batch {
        Some(batch_flag_missing_text())
    } else if a.output is None {
        Some(output_missing_text())
    } else if parse_output_views_spec(string_views(a.view@)) is Err {
        Some(parse_output_views_spec(string_views(a.view@))->Err_0)
    } else if format_for_name(lowercase(a.format@)) is None {
        Some(unknown_format_message(a.format@))
    } else if parse_lang_spec(a.lang@) is Err {
        Some(parse_lang_spec(a.lang@)->Err_0)
    } else {
        None
    }
}

/// The batch request of a valid command line: the search options come from
/// the arguments, the rest from the defaults (AST search, automatic
/// encoding, Japanese report texts).
pub fn batch_request_from_args(args: BatchArgs) -> (r: Result<BatchRunRequest, String>)
    ensures
        match r {
            Err(e) => batch_args_error(args) == Some(e@),
            Ok(req) => {
                &&& batch_args_error(args) is None
                &&& req.patterns_file@ == args.patterns@
                &&& Ok::<OutputViewSet, Seq<char>>(req.views) == parse_output_views_spec(string_views(args.view@))
                &&& format_for_name(lowercase(args.format@)) == Some(req.format)
                &&& req.output is Some && req.output->Some_0@ == args.output->Some_0@
                &&& req.ui_lang == UiLanguage::Japanese
                &&& req.common.search_dir@ == args.dir@
                &&& Ok::<SupportedLanguage, Seq<char>>(req.common.selected_lang) == parse_lang_spec(args.lang@)
                &&& req.common.context_lines == args.context
                &&& req.common.file_filter@ == args.filter@
                &&& req.common.file_encoding_preference == FileEncodingPreference::Auto
                &&& req.common.max_file_size_mb == args.max_file_size_mb
                &&& req.common.max_search_hits == match args.max_hits { Some(n) => n, None => 100_000 }
                &&& req.common.skip_dirs@ == match args.skip_dirs { Some(s) => s@, None => default_skip_dirs_spec() }
                &&& req.common.search_mode == SearchMode::AstGrep
                &&& !req.common.plain_text_options.case_insensitive && !req.common.plain_text_options.whole_word
                &&& req.common.cpp_include_dirs@ == args.include_dirs@
                &&& req.common.type_hints_enabled == !args.no_type_hints
            },
        },
{
    if !args.batch {
        return Err("--batch flag is required for CLI batch mode".to_string());
    }
    let output = match args.output {
        Some(o) => o,
        None => return Err("--output is required for batch mode".to_string()),
    };
    let views = match parse_output_views(args.view.as_slice()) {
        Ok(v) => v,
        Err(e) => return Err(e),
    };
    let format = match parse_output_format(args.format.as_str()) {
        Ok(f) => f,
        Err(e) => return Err(e),
    };
    let lang = match parse_lang(args.lang.as_str()) {
        Ok(l) => l,
        Err(e) => return Err(e),
    };
    let skip_dirs = match args.skip_dirs {
        Some(s) => s,
        None => default_skip_dirs().to_string(),
    };
    let max_search_hits = match args.max_hits {
        Some(n) => n,
        None => crate::search::default_max_search_hits(),
    };
    let common = BatchCommonOptions {
        search_dir: args.dir,
        selected_lang: lang,
        context_lines: args.context,
        file_filter: args.filter,
        file_encoding_preference: FileEncodingPreference::default(),
        max_file_size_mb: args.max_file_size_mb,
        max_search_hits,
        skip_dirs,
        search_mode: SearchMode::AstGrep,
        plain_text_options: PlainTextSearchOptions::default(),
        cpp_include_dirs: args.include_dirs,
        type_hints_enabled: !args.no_type_hints,
    };
    Ok(BatchRunRequest {
        patterns_file: args.patterns,
        common,
        views,
        format,
        output: Some(output),
        ui_lang: UiLanguage::Japanese,
    })
}

pub open spec fn no_patterns_text() -> Seq<char> {
    "no patterns found in pattern file"@
}

/// A batch needs at least one job.
pub fn require_jobs<T>(jobs: Vec<T>) -> (r: Result<Vec<T>, String>)
    ensures
        match r {
            Ok(v) => v@ == jobs@ && jobs@.len() > 0,
            Err(e) => jobs@.len() == 0 && e@ == no_patterns_text(),
        },
{
    if jobs.len() == 0 {
        Err("no patterns found in pattern file".to_string())
    } else {
        Ok(jobs)
    }
}

// ───────────────────────── what the command preview writes is read back ─────────────────────────

proof fn lemma_view_name(v: OutputView)
    ensures
        trim(view_cli_name(v)) == view_cli_name(v),
        lowercase(view_cli_name(v)) == view_cli_name(v),
        view_for_name(view_cli_name(v)) == Some(v),
        view_cli_name(v).len() > 0,
        !contains_char(view_cli_name(v), ','),
{
    reveal_strlit("code");
    reveal_strlit("table");
    reveal_strlit("summary");
    let n = view_cli_name(v);
    assert(plain_lower_ascii(n));
    assert(!crate::text::is_white_space(n[0]));
    assert(!crate::text::is_white_space(n.last()));
    assert(crate::text::trim_start(n) == n);
    assert(crate::text::trim_end(n) == n);
}

/// The names of the views of a set, in the order code, table, summary.
spec fn view_names(s: OutputViewSet) -> Seq<Seq<char>> {
    (if s.code { seq![view_cli_name(OutputView::Code)] } else { Seq::<Seq<char>>::empty() })
        + (if s.table { seq![view_cli_name(OutputView::Table)] } else { Seq::<Seq<char>>::empty() })
        + (if s.summary { seq![view_cli_name(OutputView::Summary)] } else { Seq::<Seq<char>>::empty() })
}

proof fn lemma_read_view_names(names: Seq<Seq<char>>, vs: Seq<OutputView>, set: OutputViewSet)
    requires
        names.len() == vs.len(),
        forall|i: int| 0 <= i < names.len() ==> (#[trigger] names[i]) == view_cli_name(vs[i]),
    ensures
        views_from_pieces(names, set) == Ok::<OutputViewSet, Seq<char>>(add_views(set, vs)),
    decreases names.len(),
{
    if names.len() > 0 {
        lemma_view_name(vs[0]);
        assert(names[0] == view_cli_name(vs[0]));
        lemma_read_view_names(names.drop_first(), vs.drop_first(), with_view(set, vs[0]));
    }
}

/// `set` with each of `vs` added, in order.
spec fn add_views(set: OutputViewSet, vs: Seq<OutputView>) -> OutputViewSet
    decreases vs.len(),
{
    if vs.len() == 0 { set } else { add_views(with_view(set, vs[0]), vs.drop_first()) }
}

/// The `--view` value that the command preview writes for a set of views
/// (any set with at least one view) is read back by the batch command line
/// as that same set.
pub proof fn lemma_view_arg_round_trip(s: OutputViewSet)
    requires
        s.code || s.table || s.summary,
    ensures
        parse_output_views_spec(seq![views_cli_arg(s)]) == Ok::<OutputViewSet, Seq<char>>(s),
{
    reveal_strlit(",");
    reveal_strlit("code");
    reveal_strlit("table");
    reveal_strlit("summary");
    let names = view_names(s);
    let vs = (if s.code { seq![OutputView::Code] } else { Seq::<OutputView>::empty() })
        + (if s.table { seq![OutputView::Table] } else { Seq::<OutputView>::empty() })
        + (if s.summary { seq![OutputView::Summary] } else { Seq::<OutputView>::empty() });
    assert(names.len() == vs.len());
    assert forall|i: int| 0 <= i < names.len() implies (#[trigger] names[i]) == view_cli_name(vs[i]) by {}
    assert forall|i: int| 0 <= i < names.len() implies !contains_char(#[trigger] names[i], ',') by {
        lemma_view_name(vs[i]);
    }
    assert(views_cli_arg(s) == join(names, seq![','])) by {
        assert(","@ =~= seq![',']);
    }
    lemma_split_join(names, ',');
    let empty = OutputViewSet { code: false, table: false, summary: false };
    lemma_read_view_names(names, vs, empty);
    reveal_with_fuel(add_views, 4);
    assert(add_views(empty, vs) == s);
    let values = seq![views_cli_arg(s)];
    assert(values.drop_first() =~= Seq::<Seq<char>>::empty());
    assert(views_from_values(values.drop_first(), s) == Ok::<OutputViewSet, Seq<char>>(s));
    assert(split_char(values[0], ',') == names);
    assert(views_from_values(values, empty) == Ok::<OutputViewSet, Seq<char>>(s));
}

/// The `--format` value that the command preview writes for a format is read
/// back as that format.
pub proof fn lemma_format_round_trip(f: OutputFormat)
    ensures
        format_for_name(lowercase(format_cli_name(f))) == Some(f),
{
    reveal_strlit("json");
    reveal_strlit("text");
    reveal_strlit("txt");
    reveal_strlit("markdown");
    reveal_strlit("md");
    reveal_strlit("html");
    reveal_strlit("htm");
    reveal_strlit("xlsx");
    reveal_strlit("excel");
    assert(plain_lower_ascii(format_cli_name(f)));
    match f {
        OutputFormat::Json => { assert(format_cli_name(f) == "json"@); assert(lowercase("json"@) == "json"@); assert(format_for_name("json"@) == Some(OutputFormat::Json)); },
        OutputFormat::Text => { assert(lowercase(format_cli_name(f)) == format_cli_name(f)); assert("json"@[0] == 'j'); },
        OutputFormat::Markdown => { assert(lowercase(format_cli_name(f)) == format_cli_name(f));  },
        OutputFormat::Html => { assert(lowercase(format_cli_name(f)) == format_cli_name(f)); assert("json"@[0] == 'j'); assert("text"@[0] == 't'); },
        OutputFormat::Xlsx => { assert(lowercase(format_cli_name(f)) == format_cli_name(f)); assert("json"@[0] == 'j'); assert("text"@[0] == 't'); assert("html"@[0] == 'h'); },
    }
}

/// The `--lang` value that the command preview writes for a language (none
/// for `Auto`, whose default value is `auto`) is read back as that language.
pub proof fn lemma_lang_arg_round_trip(l: SupportedLanguage)
    ensures
        parse_lang_spec(match cli_name_spec(l) { Some(n) => n, None => "auto"@ }) == Ok::<SupportedLanguage, Seq<char>>(l),
{
    reveal_strlit("auto");
    reveal_strlit("rust");
    reveal_strlit("rs");
    reveal_strlit("java");
    reveal_strlit("python");
    reveal_strlit("py");
    reveal_strlit("javascript");
    reveal_strlit("js");
    reveal_strlit("typescript");
    reveal_strlit("ts");
    reveal_strlit("go");
    reveal_strlit("c");
    reveal_strlit("cpp");
    reveal_strlit("c++");
    reveal_strlit("cc");
    reveal_strlit("cxx");
    reveal_strlit("csharp");
    reveal_strlit("cs");
    reveal_strlit("c#");
    reveal_strlit("kotlin");
    reveal_strlit("kt");
    reveal_strlit("kts");
    reveal_strlit("ktm");
    reveal_strlit("scala");
    reveal_strlit("sc");
    reveal_strlit("sbt");
    let n = match cli_name_spec(l) { Some(n) => n, None => "auto"@ };
    assert(plain_lower_ascii(n));
    match l {
        SupportedLanguage::Auto => {
            assert(lowercase(n) == n);
        },
        SupportedLanguage::Rust => {
            assert(lowercase(n) == n);
            assert(lowercase(lowercase(n)) == n);
            assert(n != "auto"@) by { assert("auto"@[0] != n[0]); }
        },
        SupportedLanguage::Java => {
            assert(lowercase(n) == n);
            assert(lowercase(lowercase(n)) == n);
            assert(n != "auto"@) by { assert("auto"@[0] != n[0]); }
            assert(n != "rust"@) by { assert("rust"@[0] != n[0]); }
            assert(n != "rs"@) by { assert("rs"@.len() == 2); }
        },
        SupportedLanguage::Python => {
            assert(lowercase(n) == n);
            assert(lowercase(lowercase(n)) == n);
            assert(n != "auto"@) by { assert("auto"@.len() == 4); }
            assert(n != "rust"@) by { assert("rust"@.len() == 4); }
            assert(n != "rs"@) by { assert("rs"@.len() == 2); }
            assert(n != "java"@) by { assert("java"@.len() == 4); }
        },
        SupportedLanguage::JavaScript => {
            assert(lowercase(n) == n);
            assert(lowercase(lowercase(n)) == n);
            assert(n != "auto"@) by { assert("auto"@.len() == 4); }
            assert(n != "rust"@) by { assert("rust"@.len() == 4); }
            assert(n != "rs"@) by { assert("rs"@.len() == 2); }
            assert(n != "java"@) by { assert("java"@.len() == 4); }
            assert(n != "python"@) by { assert("python"@.len() == 6); }
            assert(n != "py"@) by { assert("py"@.len() == 2); }
        },
        SupportedLanguage::TypeScript => {
            assert(lowercase(n) == n);
            assert(lowercase(lowercase(n)) == n);
            assert(n != "auto"@) by { assert("auto"@.len() == 4); }
            assert(n != "rust"@) by { assert("rust"@.len() == 4); }
            assert(n != "rs"@) by { assert("rs"@.len() == 2); }
            assert(n != "java"@) by { assert("java"@.len() == 4); }
            assert(n != "python"@) by { assert("python"@.len() == 6); }
            assert(n != "py"@) by { assert("py"@.len() == 2); }
            assert(n != "javascript"@) by { assert("javascript"@[0] != n[0]); }
            assert(n != "js"@) by { assert("js"@.len() == 2); }
        },
        SupportedLanguage::Go => {
            assert(lowercase(n) == n);
            assert(lowercase(lowercase(n)) == n);
            assert(n != "auto"@) by { assert("auto"@.len() == 4); }
            assert(n != "rust"@) by { assert("rust"@.len() == 4); }
            assert(n != "rs"@) by { assert("rs"@[0] != n[0]); }
            assert(n != "java"@) by { assert("java"@.len() == 4); }
            assert(n != "python"@) by { assert("python"@.len() == 6); }
            assert(n != "py"@) by { assert("py"@[0] != n[0]); }
            assert(n != "javascript"@) by { assert("javascript"@.len() == 10); }
            assert(n != "js"@) by { assert("js"@[0] != n[0]); }
            assert(n != "typescript"@) by { assert("typescript"@.len() == 10); }
            assert(n != "ts"@) by { assert("ts"@[0] != n[0]); }
        },
        SupportedLanguage::C => {
            assert(lowercase(n) == n);
            assert(lowercase(lowercase(n)) == n);
            assert(n != "auto"@) by { assert("auto"@.len() == 4); }
            assert(n != "rust"@) by { assert("rust"@.len() == 4); }
            assert(n != "rs"@) by { assert("rs"@.len() == 2); }
            assert(n != "java"@) by { assert("java"@.len() == 4); }
            assert(n != "python"@) by { assert("python"@.len() == 6); }
            assert(n != "py"@) by { assert("py"@.len() == 2); }
            assert(n != "javascript"@) by { assert("javascript"@.len() == 10); }
            assert(n != "js"@) by { assert("js"@.len() == 2); }
            assert(n != "typescript"@) by { assert("typescript"@.len() == 10); }
            assert(n != "ts"@) by { assert("ts"@.len() == 2); }
            assert(n != "go"@) by { assert("go"@.len() == 2); }
        },
        SupportedLanguage::Cpp => {
            assert(lowercase(n) == n);
            assert(lowercase(lowercase(n)) == n);
            assert(n != "auto"@) by { assert("auto"@.len() == 4); }
            assert(n != "rust"@) by { assert("rust"@.len() == 4); }
            assert(n != "rs"@) by { assert("rs"@.len() == 2); }
            assert(n != "java"@) by { assert("java"@.len() == 4); }
            assert(n != "python"@) by { assert("python"@.len() == 6); }
            assert(n != "py"@) by { assert("py"@.len() == 2); }
            assert(n != "javascript"@) by { assert("javascript"@.len() == 10); }
            assert(n != "js"@) by { assert("js"@.len() == 2); }
            assert(n != "typescript"@) by { assert("typescript"@.len() == 10); }
            assert(n != "ts"@) by { assert("ts"@.len() == 2); }
            assert(n != "go"@) by { assert("go"@.len() == 2); }
            assert(n != "c"@) by { assert("c"@.len() == 1); }
        },
        SupportedLanguage::CSharp => {
            assert(lowercase(n) == n);
            assert(lowercase(lowercase(n)) == n);
            assert(n != "auto"@) by { assert("auto"@.len() == 4); }
            assert(n != "rust"@) by { assert("rust"@.len() == 4); }
            assert(n != "rs"@) by { assert("rs"@.len() == 2); }
            assert(n != "java"@) by { assert("java"@.len() == 4); }
            assert(n != "python"@) by { assert("python"@[0] != n[0]); }
            assert(n != "py"@) by { assert("py"@.len() == 2); }
            assert(n != "javascript"@) by { assert("javascript"@.len() == 10); }
            assert(n != "js"@) by { assert("js"@.len() == 2); }
            assert(n != "typescript"@) by { assert("typescript"@.len() == 10); }
            assert(n != "ts"@) by { assert("ts"@.len() == 2); }
            assert(n != "go"@) by { assert("go"@.len() == 2); }
            assert(n != "c"@) by { assert("c"@.len() == 1); }
            assert(n != "cpp"@) by { assert("cpp"@.len() == 3); }
            assert(n != "c++"@) by { assert("c++"@.len() == 3); }
            assert(n != "cc"@) by { assert("cc"@.len() == 2); }
            assert(n != "cxx"@) by { assert("cxx"@.len() == 3); }
        },
        SupportedLanguage::Kotlin => {
            assert(lowercase(n) == n);
            assert(lowercase(lowercase(n)) == n);
            assert(n != "auto"@) by { assert("auto"@.len() == 4); }
            assert(n != "rust"@) by { assert("rust"@.len() == 4); }
            assert(n != "rs"@) by { assert("rs"@.len() == 2); }
            assert(n != "java"@) by { assert("java"@.len() == 4); }
            assert(n != "python"@) by { assert("python"@[0] != n[0]); }
            assert(n != "py"@) by { assert("py"@.len() == 2); }
            assert(n != "javascript"@) by { assert("javascript"@.len() == 10); }
            assert(n != "js"@) by { assert("js"@.len() == 2); }
            assert(n != "typescript"@) by { assert("typescript"@.len() == 10); }
            assert(n != "ts"@) by { assert("ts"@.len() == 2); }
            assert(n != "go"@) by { assert("go"@.len() == 2); }
            assert(n != "c"@) by { assert("c"@.len() == 1); }
            assert(n != "cpp"@) by { assert("cpp"@.len() == 3); }
            assert(n != "c++"@) by { assert("c++"@.len() == 3); }
            assert(n != "cc"@) by { assert("cc"@.len() == 2); }
            assert(n != "cxx"@) by { assert("cxx"@.len() == 3); }
            assert(n != "csharp"@) by { assert("csharp"@[0] != n[0]); }
            assert(n != "cs"@) by { assert("cs"@.len() == 2); }
            assert(n != "c#"@) by { assert("c#"@.len() == 2); }
        },
        SupportedLanguage::Scala => {
            assert(lowercase(n) == n);
            assert(lowercase(lowercase(n)) == n);
            assert(n != "auto"@) by { assert("auto"@.len() == 4); }
            assert(n != "rust"@) by { assert("rust"@.len() == 4); }
            assert(n != "rs"@) by { assert("rs"@.len() == 2); }
            assert(n != "java"@) by { assert("java"@.len() == 4); }
            assert(n != "python"@) by { assert("python"@.len() == 6); }
            assert(n != "py"@) by { assert("py"@.len() == 2); }
            assert(n != "javascript"@) by { assert("javascript"@.len() == 10); }
            assert(n != "js"@) by { assert("js"@.len() == 2); }
            assert(n != "typescript"@) by { assert("typescript"@.len() == 10); }
            assert(n != "ts"@) by { assert("ts"@.len() == 2); }
            assert(n != "go"@) by { assert("go"@.len() == 2); }
            assert(n != "c"@) by { assert("c"@.len() == 1); }
            assert(n != "cpp"@) by { assert("cpp"@.len() == 3); }
            assert(n != "c++"@) by { assert("c++"@.len() == 3); }
            assert(n != "cc"@) by { assert("cc"@.len() == 2); }
            assert(n != "cxx"@) by { assert("cxx"@.len() == 3); }
            assert(n != "csharp"@) by { assert("csharp"@.len() == 6); }
            assert(n != "cs"@) by { assert("cs"@.len() == 2); }
            assert(n != "c#"@) by { assert("c#"@.len() == 2); }
            assert(n != "kotlin"@) by { assert("kotlin"@.len() == 6); }
            assert(n != "kt"@) by { assert("kt"@.len() == 2); }
            assert(n != "kts"@) by { assert("kts"@.len() == 3); }
            assert(n != "ktm"@) by { assert("ktm"@.len() == 3); }
        },
    }
}

} // verus!
