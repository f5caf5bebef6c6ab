//! Settings shared by the batch command line and the GUI's command preview.
use vstd::prelude::*;
use crate::export::{views_cli_arg, view_in, with_view, OutputFormat, OutputView, OutputViewSet, format_cli_name};
use crate::file_encoding::FileEncodingPreference;
use crate::i18n::UiLanguage;
use crate::lang::{cli_name_spec, SupportedLanguage};
use crate::search::{PlainTextSearchOptions, SearchMode};
use crate::text::{
    chars_of, contains_char, decimal, join, join_strings, lowercase, push_char, push_str,
    replace_char, replace_char_string, split_char, split_char_vec, str_contains_char, string_of,
    string_views, trim, trim_string, to_lowercase, usize_string, decimal_string,
};

verus! {

/// Options applied to every pattern of a batch.
#[derive(Debug)]
pub struct BatchCommonOptions {
    pub search_dir: String,
    pub selected_lang: SupportedLanguage,
    pub context_lines: usize,
    pub file_filter: String,
    pub file_encoding_preference: FileEncodingPreference,
    pub max_file_size_mb: u64,
    pub max_search_hits: usize,
    pub skip_dirs: String,
    pub search_mode: SearchMode,
    pub plain_text_options: PlainTextSearchOptions,
    pub cpp_include_dirs: String,
    pub type_hints_enabled: bool,
}

/// Directories skipped unless the user says otherwise.
pub open spec fn default_skip_dirs_spec() -> Seq<char> {
    ".git;.hg;.svn;target;node_modules;dist;build;.cache;.next;vendor;__pycache__;venv;.venv"@
}

pub fn default_skip_dirs() -> (r: &'static str)
    ensures
        r@ == default_skip_dirs_spec(),
{
    ".git;.hg;.svn;target;node_modules;dist;build;.cache;.next;vendor;__pycache__;venv;.venv"
}

impl Default for BatchCommonOptions {
    fn default() -> (r: Self)
        ensures
            r.search_dir@.len() == 0,
            r.selected_lang == SupportedLanguage::Auto,
            r.context_lines == 2,
            r.file_filter@.len() == 0,
            r.file_encoding_preference == FileEncodingPreference::Auto,
            r.max_file_size_mb == 10,
            r.max_search_hits == 100_000,
            r.skip_dirs@ == default_skip_dirs_spec(),
            r.search_mode == SearchMode::AstGrep,
            !r.plain_text_options.case_insensitive && !r.plain_text_options.whole_word,
            r.cpp_include_dirs@.len() == 0,
            r.type_hints_enabled,
    {
        proof { reveal_strlit(""); }
        BatchCommonOptions {
            search_dir: String::new(),
            selected_lang: SupportedLanguage::Auto,
            context_lines: 2,
            file_filter: String::new(),
            file_encoding_preference: FileEncodingPreference::default(),
            max_file_size_mb: 10,
            max_search_hits: crate::search::default_max_search_hits(),
            skip_dirs: default_skip_dirs().to_string(),
            search_mode: SearchMode::AstGrep,
            plain_text_options: PlainTextSearchOptions::default(),
            cpp_include_dirs: String::new(),
            type_hints_enabled: crate::search::default_type_hints_enabled(),
        }
    }
}

impl Clone for BatchCommonOptions {
    fn clone(&self) -> (r: Self)
        ensures
            r.search_dir@ == self.search_dir@,
            r.selected_lang == self.selected_lang,
            r.context_lines == self.context_lines,
            r.file_filter@ == self.file_filter@,
            r.file_encoding_preference == self.file_encoding_preference,
            r.max_file_size_mb == self.max_file_size_mb,
            r.max_search_hits == self.max_search_hits,
            r.skip_dirs@ == self.skip_dirs@,
            r.search_mode == self.search_mode,
            r.plain_text_options == self.plain_text_options,
            r.cpp_include_dirs@ == self.cpp_include_dirs@,
            r.type_hints_enabled == self.type_hints_enabled,
    {
        BatchCommonOptions {
            search_dir: self.search_dir.clone(),
            selected_lang: self.selected_lang,
            context_lines: self.context_lines,
            file_filter: self.file_filter.clone(),
            file_encoding_preference: self.file_encoding_preference,
            max_file_size_mb: self.max_file_size_mb,
            max_search_hits: self.max_search_hits,
            skip_dirs: self.skip_dirs.clone(),
            search_mode: self.search_mode,
            plain_text_options: self.plain_text_options,
            cpp_include_dirs: self.cpp_include_dirs.clone(),
            type_hints_enabled: self.type_hints_enabled,
        }
    }
}

/// A batch run as requested from the command line or the GUI.
#[derive(Debug)]
pub struct BatchRunRequest {
    /// The pattern file (one pattern per line).
    pub patterns_file: String,
    pub common: BatchCommonOptions,
    pub views: OutputViewSet,
    pub format: OutputFormat,
    pub output: Option<String>,
    pub ui_lang: UiLanguage,
}

/// Name of the distributed executable (for the command preview).
pub fn default_cli_exe_name(windows: bool) -> (r: &'static str)
    ensures
        r@ == (if windows { "ast-grep-gui.exe"@ } else { "ast-grep-gui"@ }),
{
    if windows { "ast-grep-gui.exe" } else { "ast-grep-gui" }
}

/// `s`, double-quoted with inner `"` escaped when it holds a blank or a `"`.
pub open spec fn shell_quote_spec(s: Seq<char>) -> Seq<char> {
    if contains_char(s, ' ') || contains_char(s, '"') {
        "\""@ + replace_char(s, '"', "\\\""@) + "\""@
    } else {
        s
    }
}

pub fn shell_quote(s: &str) -> (r: String)
    ensures
        r@ == shell_quote_spec(s@),
{
    if str_contains_char(s, ' ') || str_contains_char(s, '"') {
        let mut out = "\"".to_string();
        let esc = replace_char_string(s, '"', "\\\"");
        push_str(&mut out, esc.as_str());
        push_str(&mut out, "\"");
        out
    } else {
        s.to_string()
    }
}

/// The `--lang` value of a language (`None` for `Auto`).
pub fn lang_cli_arg(lang: SupportedLanguage) -> (r: Option<&'static str>)
    ensures
        match r {
            Some(s) => cli_name_spec(lang) == Some(s@),
            None => cli_name_spec(lang) is None,
        },
{
    lang.to_cli_lang_str()
}

pub open spec fn opt_pair(cond: bool, flag: Seq<char>, value: Seq<char>) -> Seq<Seq<char>> {
    if cond { seq![flag, value] } else { Seq::empty() }
}

/// The words of the batch command line for `req`: the executable, `--batch`,
/// the pattern file and directory, then each option that differs from its default.
pub open spec fn cli_words_spec(req: BatchRunRequest, exe_name: Seq<char>) -> Seq<Seq<char>> {
    let c = req.common;
    seq![exe_name, "--batch"@, "--patterns"@, shell_quote_spec(req.patterns_file@), "--dir"@, shell_quote_spec(c.search_dir@)]
        + opt_pair(cli_name_spec(c.selected_lang) is Some, "--lang"@, cli_name_spec(c.selected_lang)->0)
        + opt_pair(!(!req.views.code && req.views.table && !req.views.summary), "--view"@, views_cli_arg(req.views))
        + opt_pair(req.format != OutputFormat::Json, "--format"@, format_cli_name(req.format))
        + opt_pair(req.output is Some, "--output"@, shell_quote_spec(req.output->0@))
        + opt_pair(c.context_lines != 2, "--context"@, decimal(c.context_lines as nat))
        + opt_pair(trim(c.file_filter@).len() > 0, "--filter"@, shell_quote_spec(trim(c.file_filter@)))
        + opt_pair(c.skip_dirs@ != default_skip_dirs_spec(), "--skip-dirs"@, shell_quote_spec(c.skip_dirs@))
        + opt_pair(c.max_search_hits != 100_000, "--max-hits"@, decimal(c.max_search_hits as nat))
        + opt_pair(c.max_file_size_mb != 10, "--max-file-size-mb"@, decimal(c.max_file_size_mb as nat))
        + opt_pair(trim(c.cpp_include_dirs@).len() > 0, "--include-dirs"@, shell_quote_spec(trim(c.cpp_include_dirs@)))
        + (if !c.type_hints_enabled { seq!["--no-type-hints"@] } else { Seq::<Seq<char>>::empty() })
}

fn push_word(parts: &mut Vec<String>, w: String)
    ensures
        string_views(final(parts)@) == string_views(old(parts)@).push(w@),
{
    let ghost before = parts@;
    parts.push(w);
    assert(string_views(parts@) =~= string_views(before).push(w@));
}

fn push_pair(parts: &mut Vec<String>, cond: bool, flag: &str, value: String)
    ensures
        string_views(final(parts)@) == string_views(old(parts)@) + opt_pair(cond, flag@, value@),
{
    if cond {
        push_word(parts, flag.to_string());
        push_word(parts, value);
        assert(string_views(old(parts)@).push(flag@).push(value@) =~= string_views(old(parts)@) + seq![flag@, value@]);
    } else {
        assert(string_views(parts@) =~= string_views(parts@) + Seq::<Seq<char>>::empty());
    }
}

fn same_text(a: &str, b: &str) -> (r: bool)
    ensures
        r == (a@ == b@),
{
    let av = chars_of(a);
    crate::lang::str_eq(av.as_slice(), b)
}

/// The batch command line (`ast-grep-gui --batch …`) that runs `req`.
pub fn format_cli_command(req: &BatchRunRequest, exe_name: &str) -> (r: String)
    ensures
        r@ == join(cli_words_spec(*req, exe_name@), " "@),
{
    let c = &req.common;
    let mut parts: Vec<String> = Vec::new();
    proof {
        assert(string_views(parts@) =~= Seq::<Seq<char>>::empty());
    }
    push_word(&mut parts, exe_name.to_string());
    push_word(&mut parts, "--batch".to_string());
    push_word(&mut parts, "--patterns".to_string());
    push_word(&mut parts, shell_quote(req.patterns_file.as_str()));
    push_word(&mut parts, "--dir".to_string());
    push_word(&mut parts, shell_quote(c.search_dir.as_str()));
    let ghost base = seq![exe_name@, "--batch"@, "--patterns"@, shell_quote_spec(req.patterns_file@), "--dir"@, shell_quote_spec(c.search_dir@)];
    assert(string_views(parts@) =~= base);
    match lang_cli_arg(c.selected_lang) {
        Some(l) => push_pair(&mut parts, true, "--lang", l.to_string()),
        None => push_pair(&mut parts, false, "--lang", String::new()),
    }
    let dv = !req.views.is_default_table_only();
    push_pair(&mut parts, dv, "--view", req.views.to_cli_arg());
    let nf = match req.format {
        OutputFormat::Json => false,
        _ => true,
    };
    push_pair(&mut parts, nf, "--format", req.format.cli_name().to_string());
    match &req.output {
        Some(o) => push_pair(&mut parts, true, "--output", shell_quote(o.as_str())),
        None => push_pair(&mut parts, false, "--output", String::new()),
    }
    push_pair(&mut parts, c.context_lines != 2, "--context", usize_string(c.context_lines));
    let filter = trim_string(c.file_filter.as_str());
    push_pair(&mut parts, !filter.as_str().is_empty(), "--filter", shell_quote(filter.as_str()));
    let skip_default = same_text(c.skip_dirs.as_str(), default_skip_dirs());
    push_pair(&mut parts, !skip_default, "--skip-dirs", shell_quote(c.skip_dirs.as_str()));
    push_pair(&mut parts, c.max_search_hits != 100_000, "--max-hits", usize_string(c.max_search_hits));
    push_pair(&mut parts, c.max_file_size_mb != 10, "--max-file-size-mb", decimal_string(c.max_file_size_mb));
    let inc = trim_string(c.cpp_include_dirs.as_str());
    push_pair(&mut parts, !inc.as_str().is_empty(), "--include-dirs", shell_quote(inc.as_str()));
    if !c.type_hints_enabled {
        push_word(&mut parts, "--no-type-hints".to_string());
    }
    proof {
        assert(string_views(parts@) =~= cli_words_spec(*req, exe_name@));
    }
    join_strings(parts.as_slice(), " ")
}

/// The view a lower-cased name denotes.
pub open spec fn view_for_name(s: Seq<char>) -> Option<OutputView> {
    if s == "code"@ {
        Some(OutputView::Code)
    } else if s == "table"@ {
        Some(OutputView::Table)
    } else if s == "summary"@ {
        Some(OutputView::Summary)
    } else {
        None
    }
}

pub open spec fn unknown_view_message(lower: Seq<char>) -> Seq<char> {
    "unknown view: "@ + lower + " (expected code, table, or summary)"@
}

/// One `--view` name (case-insensitive).
pub fn parse_output_view(s: &str) -> (r: Result<OutputView, String>)
    ensures
        match r {
            Ok(v) => view_for_name(lowercase(s@)) == Some(v),
            Err(e) => view_for_name(lowercase(s@)) is None && e@ == unknown_view_message(lowercase(s@)),
        },
{
    let lower = to_lowercase(s);
    let v = chars_of(lower.as_str());
    if crate::lang::str_eq(v.as_slice(), "code") {
        Ok(OutputView::Code)
    } else if crate::lang::str_eq(v.as_slice(), "table") {
        Ok(OutputView::Table)
    } else if crate::lang::str_eq(v.as_slice(), "summary") {
        Ok(OutputView::Summary)
    } else {
        let mut msg = "unknown view: ".to_string();
        push_str(&mut msg, lower.as_str());
        push_str(&mut msg, " (expected code, table, or summary)");
        Err(msg)
    }
}

/// Reads the comma-separated names of one value into `set`, from piece `k` on.
pub open spec fn views_from_pieces(pieces: Seq<Seq<char>>, set: OutputViewSet) -> Result<OutputViewSet, Seq<char>>
    decreases pieces.len(),
{
    if pieces.len() == 0 {
        Ok(set)
    } else {
        let p = trim(pieces[0]);
        if p.len() == 0 {
            views_from_pieces(pieces.drop_first(), set)
        } else {
            match view_for_name(lowercase(p)) {
                Some(v) => views_from_pieces(pieces.drop_first(), with_view(set, v)),
                None => Err(unknown_view_message(lowercase(p))),
            }
        }
    }
}

/// Reads the values from index `i` on into `set`.
pub open spec fn views_from_values(values: Seq<Seq<char>>, set: OutputViewSet) -> Result<OutputViewSet, Seq<char>>
    decreases values.len(),
{
    if values.len() == 0 {
        Ok(set)
    } else {
        match views_from_pieces(split_char(values[0], ','), set) {
            Ok(s2) => views_from_values(values.drop_first(), s2),
            Err(e) => Err(e),
        }
    }
}

/// The views named by `--view` values (each comma-separated, blanks ignored);
/// only the table when none is named.
pub open spec fn parse_output_views_spec(values: Seq<Seq<char>>) -> Result<OutputViewSet, Seq<char>> {
    match views_from_values(values, OutputViewSet { code: false, table: false, summary: false }) {
        Ok(s) => Ok(if !s.code && !s.table && !s.summary { OutputViewSet { table: true, ..s } } else { s }),
        Err(e) => Err(e),
    }
}

pub fn parse_output_views(values: &[String]) -> (r: Result<OutputViewSet, String>)
    ensures
        match r {
            Ok(s) => parse_output_views_spec(string_views(values@)) == Ok::<OutputViewSet, Seq<char>>(s),
            Err(e) => parse_output_views_spec(string_views(values@)) == Err::<OutputViewSet, Seq<char>>(e@),
        },
{
    let mut set = OutputViewSet::default();
    let mut i: usize = 0;
    let ghost vals = string_views(values@);
    assert(vals.skip(0) =~= vals);
    while i < values.len()
        invariant
            i <= values.len(),
            vals == string_views(values@),
            views_from_values(vals, OutputViewSet { code: false, table: false, summary: false })
                == views_from_values(vals.skip(i as int), set),
        decreases values.len() - i,
    {
        assert(vals.skip(i as int)[0] == values@[i as int]@);
        assert(vals.skip(i as int).drop_first() =~= vals.skip(i + 1));
        let cv = chars_of(values[i].as_str());
        let parts = split_char_vec(cv.as_slice(), ',');
        let ghost pieces = split_char(values@[i as int]@, ',');
        let mut k: usize = 0;
        let ghost set_at_value = set;
        assert(pieces.skip(0) =~= pieces);
        while k < parts.len()
            invariant
                k <= parts.len(),
                parts@.len() == pieces.len(),
                forall|q: int| 0 <= q < parts@.len() ==> (#[trigger] parts@[q])@ == pieces[q],
                views_from_pieces(pieces, set_at_value) == views_from_pieces(pieces.skip(k as int), set),
                i < values.len(),
                vals == string_views(values@),
                pieces == split_char(vals.skip(i as int)[0], ','),
                views_from_values(vals, OutputViewSet { code: false, table: false, summary: false })
                    == views_from_values(vals.skip(i as int), set_at_value),
                vals.skip(i as int).drop_first() == vals.skip(i + 1),
                vals.skip(i as int).len() > 0,
            decreases parts.len() - k,
        {
            assert(pieces.skip(k as int)[0] == pieces[k as int]);
            assert(pieces.skip(k as int).drop_first() =~= pieces.skip(k + 1));
            let piece = string_of(parts[k].as_slice());
            let p = trim_string(piece.as_str());
            if !p.as_str().is_empty() {
                match parse_output_view(p.as_str()) {
                    Ok(v) => {
                        set.insert(v);
                    },
                    Err(e) => {
                        return Err(e);
                    },
                }
            }
            k = k + 1;
        }
        assert(pieces.skip(k as int).len() == 0);
        i = i + 1;
    }
    assert(vals.skip(i as int).len() == 0);
    if set.is_empty() {
        set.insert(OutputView::Table);
    }
    Ok(set)
}

pub open spec fn unknown_format_message(s: Seq<char>) -> Seq<char> {
    "unknown format: "@ + s
}

pub fn parse_output_format(s: &str) -> (r: Result<OutputFormat, String>)
    ensures
        match r {
            Ok(f) => crate::export::format_for_name(lowercase(s@)) == Some(f),
            Err(e) => crate::export::format_for_name(lowercase(s@)) is None && e@ == unknown_format_message(s@),
        },
{
    match OutputFormat::from_cli_str(s) {
        Some(f) => Ok(f),
        None => {
            let mut msg = "unknown format: ".to_string();
            push_str(&mut msg, s);
            Err(msg)
        },
    }
}

/// A batch run never has an empty set of views: parsing `--view` values
/// either fails or selects at least one view.
pub proof fn lemma_parsed_views_nonempty(values: Seq<Seq<char>>)
    ensures
        parse_output_views_spec(values) matches Ok(s) ==> s.code || s.table || s.summary,
{
}

} // verus!
