//! Search modes, results and the pure parts of building a match from a file.
use vstd::prelude::*;
use vstd::string::StringSliceAdditionalSpecFns;
use crate::file_encoding::{FileEncoding, FileEncodingPreference};
use crate::lang::SupportedLanguage;
use crate::search_target::{RemoteTargetConfig, SearchTargetMode};
use crate::text::{
    chars_of, contains, is_white_space, is_white_space_char, join, push_char, push_str,
    replace_char, replace_char_string, split_char, split_char_vec, str_contains, string_of,
    string_views, trim, trim_bounds,
};

verus! {

/// How the pattern is matched.
#[derive(Debug, Clone, Copy, PartialEq, Eq, Structural)]
pub enum SearchMode {
    /// AST pattern (the same match ranges as the ast-grep CLI).
    AstGrep,
    /// Blank-separated tokens in order, with any blanks between them.
    TokenSearch,
    /// Plain substring.
    PlainText,
    /// Regular expression.
    Regex,
}

impl SearchMode {
    pub fn is_ast_mode(self) -> (b: bool)
        ensures
            b == (self == SearchMode::AstGrep),
    {
        match self {
            SearchMode::AstGrep => true,
            _ => false,
        }
    }
}

/// Options of the plain-text mode.
#[derive(Debug, Clone, Copy, PartialEq, Eq, Structural)]
pub struct PlainTextSearchOptions {
    /// Ignore letter case.
    pub case_insensitive: bool,
    /// Only matches delimited by whitespace or the line's ends.
    pub whole_word: bool,
}

impl Default for PlainTextSearchOptions {
    fn default() -> (r: Self)
        ensures
            !r.case_insensitive && !r.whole_word,
    {
        PlainTextSearchOptions { case_insensitive: false, whole_word: false }
    }
}

/// One match.
#[derive(Debug)]
pub struct MatchItem {
    /// 1-based.
    pub line_start: usize,
    /// Byte offset within the line.
    pub col_start: usize,
    pub line_end: usize,
    pub col_end: usize,
    pub matched_text: String,
    /// Every source line the match spans, joined by `\n`.
    pub span_lines_text: String,
    pub context_before: Vec<String>,
    pub context_after: Vec<String>,
    /// Receiver type guessed from `$RECV`.
    pub recv_type_hint: Option<String>,
}

/// The matches of one file.
#[derive(Debug)]
pub struct FileResult {
    pub path: String,
    pub relative_path: String,
    /// Language the file was parsed as.
    pub source_language: SupportedLanguage,
    /// Encoding the file was read with.
    pub text_encoding: FileEncoding,
    pub matches: Vec<MatchItem>,
}

/// What the background search reports to the UI.
#[derive(Debug)]
pub enum SearchMessage {
    FileResult { job_id: usize, file: FileResult },
    Progress { job_id: usize, scanned: usize },
    Done { job_id: usize, elapsed_ms: u64, hit_limit_reached: bool },
    Error { job_id: usize, msg: String },
}

/// The search parameters as exported with the results.
#[derive(Debug)]
pub struct SearchConditions {
    pub search_dir: String,
    pub search_target_mode: SearchTargetMode,
    pub remote_target: RemoteTargetConfig,
    pub pattern: String,
    pub selected_lang: SupportedLanguage,
    pub context_lines: usize,
    pub file_filter: String,
    pub file_encoding_preference: FileEncodingPreference,
    pub max_file_size_mb: u64,
    /// Cap on collected hits (0: none).
    pub max_search_hits: usize,
    pub skip_dirs: String,
    pub search_mode: SearchMode,
    /// Only used in the plain-text mode.
    pub plain_text_options: PlainTextSearchOptions,
    /// Include directories for C++ type hints (`;`-separated, like `-I`).
    pub cpp_include_dirs: String,
    /// Whether metavariable type hints are computed.
    pub type_hints_enabled: bool,
}

/// Type hints are on unless turned off.
pub fn default_type_hints_enabled() -> (r: bool)
    ensures
        r,
{
    true
}

/// Totals of a finished search.
#[derive(Debug, Clone, Copy)]
pub struct SearchStats {
    pub total_matches: usize,
    pub total_files: usize,
    pub elapsed_ms: u64,
    pub scanned: usize,
    /// The hit cap cut the results short.
    pub hit_limit_reached: bool,
}

impl Default for SearchStats {
    fn default() -> (r: Self)
        ensures
            r.total_matches == 0 && r.total_files == 0 && r.elapsed_ms == 0 && r.scanned == 0 && !r.hit_limit_reached,
    {
        SearchStats { total_matches: 0, total_files: 0, elapsed_ms: 0, scanned: 0, hit_limit_reached: false }
    }
}

pub fn default_max_search_hits() -> (r: usize)
    ensures
        r == 100_000,
{
    100_000
}

// ───────────────────────── match text ─────────────────────────

/// Each line followed by `\n`.
pub open spec fn lines_with_newlines(v: Seq<Seq<char>>) -> Seq<char>
    decreases v.len(),
{
    if v.len() == 0 { Seq::empty() } else { lines_with_newlines(v.drop_last()) + v.last() + seq!['\n'] }
}

/// `s` without its trailing `\n`s.
pub open spec fn trim_end_newlines(s: Seq<char>) -> Seq<char>
    decreases s.len(),
{
    if s.len() > 0 && s.last() == '\n' { trim_end_newlines(s.drop_last()) } else { s }
}

/// The lines that a match spans with its context, as shown in the table and exports:
/// the context before, the spanned lines (or the matched text when they are
/// unknown), the context after, without trailing newlines.
pub open spec fn program_with_context_spec(m: MatchItem) -> Seq<char> {
    let center = if m.span_lines_text@.len() == 0 { m.matched_text@ } else { m.span_lines_text@ };
    let head = lines_with_newlines(string_views(m.context_before@)) + center;
    let full = if m.context_after@.len() == 0 {
        head
    } else {
        let sep = if center.len() > 0 && !(head.len() > 0 && head.last() == '\n') { seq!['\n'] } else { Seq::empty() };
        head + sep + lines_with_newlines(string_views(m.context_after@))
    };
    trim_end_newlines(full)
}

fn push_lines_with_newlines(s: &mut String, v: &Vec<String>)
    ensures
        final(s)@ == old(s)@ + lines_with_newlines(string_views(v@)),
{
    let ghost start = s@;
    let mut i: usize = 0;
    proof {
        assert(string_views(v@.take(0)) =~= Seq::<Seq<char>>::empty());
        assert(start + Seq::<char>::empty() =~= start);
    }
    while i < v.len()
        invariant
            i <= v.len(),
            s@ == start + lines_with_newlines(string_views(v@.take(i as int))),
        decreases v.len() - i,
    {
        push_str(s, v[i].as_str());
        push_char(s, '\n');
        proof {
            let a = string_views(v@.take(i + 1));
            assert(a.drop_last() =~= string_views(v@.take(i as int)));
            assert(a.last() == v@[i as int]@);
        }
        i = i + 1;
    }
    assert(v@.take(v.len() as int) =~= v@);
}

fn trim_end_newlines_string(s: &str) -> (r: String)
    ensures
        r@ == trim_end_newlines(s@),
{
    let v = chars_of(s);
    let mut n = v.len();
    assert(v@.take(n as int) =~= v@);
    while n > 0 && v[n - 1] == '\n'
        invariant
            n <= v.len(),
            trim_end_newlines(v@.take(n as int)) == trim_end_newlines(v@),
        decreases n,
    {
        assert(v@.take(n as int).drop_last() =~= v@.take(n - 1));
        n = n - 1;
    }
    crate::text::string_of_range(v.as_slice(), 0, n)
}

impl MatchItem {
    /// The spanned lines with their context (the table's source column, exports).
    pub fn program_with_context(&self) -> (r: String)
        ensures
            r@ == program_with_context_spec(*self),
    {
        let center: &str = if self.span_lines_text.as_str().is_empty() {
            self.matched_text.as_str()
        } else {
            self.span_lines_text.as_str()
        };
        let ghost cv = if self.span_lines_text@.len() == 0 { self.matched_text@ } else { self.span_lines_text@ };
        assert(center@ == cv);
        let mut s = String::new();
        proof { reveal_strlit(""); }
        push_lines_with_newlines(&mut s, &self.context_before);
        push_str(&mut s, center);
        let ghost head = lines_with_newlines(string_views(self.context_before@)) + cv;
        assert(s@ =~= head);
        if self.context_after.len() > 0 {
            let sv = chars_of(s.as_str());
            let ends_nl = sv.len() > 0 && sv[sv.len() - 1] == '\n';
            if !center.is_empty() && !ends_nl {
                push_char(&mut s, '\n');
            }
            let ghost mid = s@;
            assert(mid =~= head + (if cv.len() > 0 && !(head.len() > 0 && head.last() == '\n') { seq!['\n'] } else { Seq::<char>::empty() }));
            push_lines_with_newlines(&mut s, &self.context_after);
        }
        trim_end_newlines_string(s.as_str())
    }

    /// The same as [`MatchItem::program_with_context`].
    pub fn text_with_context(&self) -> (r: String)
        ensures
            r@ == program_with_context_spec(*self),
    {
        self.program_with_context()
    }
}

/// The pattern uses the metavariable `$RECV` (receiver type hints are computed then).
pub fn pattern_contains_dollar_recv(pattern: &str) -> (b: bool)
    ensures
        b == contains(pattern@, "$RECV"@),
{
    str_contains(pattern, "$RECV")
}

// ───────────────────────── lines of a file ─────────────────────────

/// Byte offsets where lines start: 0, and one past every `\n`.
pub open spec fn line_starts_spec(b: Seq<u8>) -> Seq<usize>
    decreases b.len(),
{
    if b.len() == 0 {
        seq![0usize]
    } else if b.last() == 10 {
        line_starts_spec(b.drop_last()).push(b.len() as usize)
    } else {
        line_starts_spec(b.drop_last())
    }
}

/// Line starts of a source text, for turning byte offsets into lines and columns.
pub struct LineIndex {
    pub line_starts: Vec<usize>,
}

proof fn lemma_line_starts(b: Seq<u8>)
    requires
        b.len() <= usize::MAX,
    ensures
        line_starts_spec(b).len() >= 1,
        line_starts_spec(b)[0] == 0,
        forall|i: int, j: int| 0 <= i < j < line_starts_spec(b).len() ==> line_starts_spec(b)[i] < line_starts_spec(b)[j],
        forall|i: int| 0 <= i < line_starts_spec(b).len() ==> line_starts_spec(b)[i] <= b.len(),
    decreases b.len(),
{
    if b.len() > 0 {
        let p = b.drop_last();
        lemma_line_starts(p);
        let sp = line_starts_spec(p);
        if b.last() == 10 {
            let sb = sp.push(b.len() as usize);
            assert forall|i: int, j: int| 0 <= i < j < sb.len() implies sb[i] < sb[j] by {
                if j == sb.len() - 1 {
                    assert(sb[i] == sp[i]);
                    assert(sp[i] <= p.len());
                } else {
                    assert(sb[i] == sp[i] && sb[j] == sp[j]);
                }
            }
            assert forall|i: int| 0 <= i < sb.len() implies sb[i] <= b.len() by {
                if i < sb.len() - 1 {
                    assert(sb[i] == sp[i]);
                }
            }
        }
    }
}

impl LineIndex {
    pub fn new(source: &str) -> (r: LineIndex)
        ensures
            r.line_starts@ == line_starts_spec(source.spec_bytes()),
    {
        let b = source.as_bytes();
        let mut line_starts: Vec<usize> = Vec::new();
        line_starts.push(0);
        let mut i: usize = 0;
        assert(b@.take(0) =~= Seq::<u8>::empty());
        while i < b.len()
            invariant
                i <= b.len(),
                line_starts@ == line_starts_spec(b@.take(i as int)),
            decreases b.len() - i,
        {
            assert(b@.take(i + 1).drop_last() =~= b@.take(i as int));
            if b[i] == 10 {
                line_starts.push(i + 1);
            }
            i = i + 1;
        }
        assert(b@.take(b.len() as int) =~= b@);
        LineIndex { line_starts }
    }

    /// 0-based line and byte column of a byte offset (capped at the end of the text):
    /// the last line start at or before the offset, and the distance from it.
    pub fn byte_offset_to_line_col(&self, source: &str, byte_offset: usize) -> (r: (usize, usize))
        requires
            self.line_starts@ == line_starts_spec(source.spec_bytes()),
        ensures
            ({
                let capped = if byte_offset < source.spec_bytes().len() { byte_offset as int } else { source.spec_bytes().len() as int };
                let st = self.line_starts@;
                &&& 0 <= r.0 < st.len()
                &&& st[r.0 as int] <= capped
                &&& (r.0 + 1 == st.len() || st[r.0 + 1] > capped)
                &&& r.1 == capped - st[r.0 as int]
            }),
    {
        let len = source.as_bytes().len();
        proof { lemma_line_starts(source.spec_bytes()); }
        let capped = if byte_offset < len { byte_offset } else { len };
        let st = &self.line_starts;
        let mut lo: usize = 0;
        let mut hi: usize = st.len();
        while lo < hi
            invariant
                0 <= lo <= hi <= st.len(),
                st@ == line_starts_spec(source.spec_bytes()),
                forall|i: int, j: int| 0 <= i < j < st@.len() ==> st@[i] < st@[j],
                forall|k: int| 0 <= k < lo ==> st@[k] <= capped,
                forall|k: int| hi <= k < st.len() ==> st@[k] > capped,
            decreases hi - lo,
        {
            let mid = lo + (hi - lo) / 2;
            if st[mid] <= capped {
                lo = mid + 1;
            } else {
                hi = mid;
            }
        }
        assert(st@[0] <= capped);
        let line = lo - 1;
        (line, capped - st[line])
    }
}

/// Lines `[a, b)` of `lines`, owned.
fn owned_range(lines: &[&str], a: usize, b: usize) -> (r: Vec<String>)
    requires
        a <= b <= lines.len(),
    ensures
        string_views(r@) == crate::text::str_views(lines@).subrange(a as int, b as int),
{
    let mut r: Vec<String> = Vec::new();
    let mut i = a;
    while i < b
        invariant
            a <= i <= b <= lines.len(),
            string_views(r@) == crate::text::str_views(lines@).subrange(a as int, i as int),
        decreases b - i,
    {
        let ghost before = r@;
        r.push(lines[i].to_string());
        assert(string_views(r@) =~= string_views(before).push(lines@[i as int]@));
        assert(crate::text::str_views(lines@).subrange(a as int, i + 1) =~= crate::text::str_views(lines@).subrange(a as int, i as int).push(lines@[i as int]@));
        i = i + 1;
    }
    r
}

/// Context before: up to `n` lines before the first line (none when it is the
/// first line). Context after: up to `n` lines after the last line, within the text.
pub open spec fn context_spec(lines: Seq<Seq<char>>, start0: int, end0: int, n: int) -> (Seq<Seq<char>>, Seq<Seq<char>>) {
    let before_start = if start0 > n { start0 - n } else { 0 };
    let last = if lines.len() > 0 { lines.len() - 1 } else { 0 };
    let after_end = if end0 + n < last { end0 + n } else { last };
    let s0 = if start0 < lines.len() { start0 } else { lines.len() as int };
    let b0 = if before_start < s0 { before_start } else { s0 };
    let before = if start0 > 0 { lines.subrange(b0, s0) } else { Seq::empty() };
    let after = if end0 + 1 < lines.len() && end0 + 1 <= after_end { lines.subrange(end0 + 1, after_end + 1) } else { Seq::empty() };
    (before, after)
}

/// The context of a match spanning lines `[s, e]`: the lines after it are
/// the up to `n` lines that follow its last line, in order; the lines
/// before it are the up to `n` lines that precede its first line, in order.
pub proof fn lemma_context_lines(lines: Seq<Seq<char>>, s: int, e: int, n: int)
    requires
        0 <= s <= e < lines.len(),
        0 <= n,
    ensures
        ({
            let (before, after) = context_spec(lines, s, e, n);
            &&& after.len() == (if n < lines.len() - 1 - e { n } else { lines.len() - 1 - e })
            &&& forall|k: int| 0 <= k < after.len() ==> #[trigger] after[k] == lines[e + 1 + k]
            &&& before.len() == (if n < s { n } else { s })
            &&& forall|k: int| 0 <= k < before.len() ==> #[trigger] before[k] == lines[s - before.len() + k]
        }),
{
}

/// The context lines around the 0-based line range `[start0, end0]`.
fn slice_context_lines(lines: &[&str], line_start_0: usize, line_end_0: usize, context_lines: usize) -> (r: (Vec<String>, Vec<String>))
    requires
        line_end_0 < usize::MAX,
        line_end_0 + context_lines <= usize::MAX,
    ensures
        (string_views(r.0@), string_views(r.1@)) == context_spec(
            crate::text::str_views(lines@), line_start_0 as int, line_end_0 as int, context_lines as int),
{
    let before_start = if line_start_0 > context_lines { line_start_0 - context_lines } else { 0 };
    let last = if lines.len() > 0 { lines.len() - 1 } else { 0 };
    let after_end = if line_end_0 + context_lines < last { line_end_0 + context_lines } else { last };
    let s0 = if line_start_0 < lines.len() { line_start_0 } else { lines.len() };
    let b0 = if before_start < s0 { before_start } else { s0 };
    let before = if line_start_0 > 0 {
        owned_range(lines, b0, s0)
    } else {
        let v: Vec<String> = Vec::new();
        assert(string_views(v@) =~= Seq::<Seq<char>>::empty());
        v
    };
    let after = if line_end_0 + 1 < lines.len() && line_end_0 + 1 <= after_end {
        owned_range(lines, line_end_0 + 1, after_end + 1)
    } else {
        let v: Vec<String> = Vec::new();
        assert(string_views(v@) =~= Seq::<Seq<char>>::empty());
        v
    };
    (before, after)
}

/// The 0-based lines `[start0, end0]` (clipped to the text) joined by `\n`; empty
/// when the range starts past the text or is empty.
pub open spec fn span_lines_spec(lines: Seq<Seq<char>>, start0: int, end0: int) -> Seq<char> {
    if lines.len() == 0 || start0 >= lines.len() {
        Seq::empty()
    } else {
        let end = if end0 < lines.len() - 1 { end0 } else { lines.len() - 1 };
        if start0 > end { Seq::empty() } else { join(lines.subrange(start0, end + 1), "\n"@) }
    }
}

fn join_span_lines(lines: &[&str], line_start_0: usize, line_end_0: usize) -> (r: String)
    ensures
        r@ == span_lines_spec(crate::text::str_views(lines@), line_start_0 as int, line_end_0 as int),
{
    proof { reveal_strlit(""); }
    if lines.len() == 0 || line_start_0 >= lines.len() {
        return String::new();
    }
    let end = if line_end_0 < lines.len() - 1 { line_end_0 } else { lines.len() - 1 };
    if line_start_0 > end {
        return String::new();
    }
    let mut part: Vec<&str> = Vec::new();
    let mut i = line_start_0;
    while i <= end
        invariant
            line_start_0 <= i <= end + 1,
            end < lines.len(),
            part@ == lines@.subrange(line_start_0 as int, i as int),
        decreases end + 1 - i,
    {
        part.push(lines[i]);
        assert(part@ =~= lines@.subrange(line_start_0 as int, i + 1));
        i = i + 1;
    }
    assert(crate::text::str_views(part@) =~= crate::text::str_views(lines@).subrange(line_start_0 as int, end + 1));
    crate::text::join_strs(part.as_slice(), "\n")
}

/// A match from 0-based lines and byte columns, with its context and spanned lines.
pub fn build_match_item(
    line_start: usize,
    col_start: usize,
    line_end: usize,
    col_end: usize,
    matched_text: String,
    lines: &[&str],
    context_lines: usize,
    recv_type_hint: Option<String>,
) -> (r: MatchItem)
    requires
        line_start < usize::MAX,
        line_end < usize::MAX,
        line_end + context_lines <= usize::MAX,
    ensures
        r.line_start == line_start + 1,
        r.col_start == col_start,
        r.line_end == line_end + 1,
        r.col_end == col_end,
        r.matched_text == matched_text,
        r.span_lines_text@ == span_lines_spec(crate::text::str_views(lines@), line_start as int, line_end as int),
        (string_views(r.context_before@), string_views(r.context_after@)) == context_spec(
            crate::text::str_views(lines@), line_start as int, line_end as int, context_lines as int),
        r.recv_type_hint == recv_type_hint,
{
    let (context_before, context_after) = slice_context_lines(lines, line_start, line_end, context_lines);
    let span_lines_text = join_span_lines(lines, line_start, line_end);
    MatchItem {
        line_start: line_start + 1,
        col_start,
        line_end: line_end + 1,
        col_end,
        matched_text,
        span_lines_text,
        context_before,
        context_after,
        recv_type_hint,
    }
}

// ───────────────────────── whole-word check ─────────────────────────

/// `[start, end)` (byte offsets) of `line` is delimited by whitespace or the
/// line's ends: the character before `start` and the one at `end`, where
/// they exist, are whitespace.
pub open spec fn whitespace_delimited_spec(line: Seq<char>, start: int, end: int) -> bool {
    let b = vstd::utf8::encode_utf8(line);
    let before = vstd::utf8::decode_utf8(b.subrange(0, start));
    let after = vstd::utf8::decode_utf8(b.subrange(end, b.len() as int));
    &&& (start > 0 && before.len() > 0 ==> is_white_space(before.last()))
    &&& (end < b.len() && after.len() > 0 ==> is_white_space(after[0]))
}

/// Whether `[start, end)` of `line` is a whitespace-delimited token.
pub fn is_whitespace_delimited_token(line: &str, start: usize, end: usize) -> (b: bool)
    requires
        start <= line.spec_bytes().len(),
        end <= line.spec_bytes().len(),
        vstd::utf8::is_char_boundary(line.spec_bytes(), start as int),
        vstd::utf8::is_char_boundary(line.spec_bytes(), end as int),
    ensures
        b == whitespace_delimited_spec(line@, start as int, end as int),
{
    let len = line.as_bytes().len();
    if start > 0 {
        let (head, _) = line.split_at(start);
        proof {
            vstd::utf8::encode_utf8_decode_utf8(head@);
        }
        let hv = chars_of(head);
        assert(hv@ == vstd::utf8::decode_utf8(line.spec_bytes().subrange(0, start as int)));
        if hv.len() > 0 && !is_white_space_char(hv[hv.len() - 1]) {
            return false;
        }
    }
    if end < len {
        let (_, tail) = line.split_at(end);
        proof {
            vstd::utf8::encode_utf8_decode_utf8(tail@);
        }
        let tv = chars_of(tail);
        assert(tv@ == vstd::utf8::decode_utf8(line.spec_bytes().subrange(end as int, len as int)));
        if tv.len() > 0 && !is_white_space_char(tv[0]) {
            return false;
        }
    }
    true
}

// ───────────────────────── file filter ─────────────────────────

/// The anchored regex source of one glob-like file filter entry: `.` taken
/// literally, `*` as any run of characters.
pub open spec fn filter_regex_source(entry: Seq<char>) -> Seq<char> {
    "^"@ + replace_char(replace_char(entry, '.', "\\."@), '*', ".*"@) + "$"@
}

/// The regex sources of the non-empty (trimmed) entries among `pieces`, in order.
pub open spec fn regex_sources_from(pieces: Seq<Seq<char>>) -> Seq<Seq<char>>
    decreases pieces.len(),
{
    if pieces.len() == 0 {
        Seq::empty()
    } else {
        let rest = regex_sources_from(pieces.drop_last());
        let p = trim(pieces.last());
        if p.len() > 0 { rest.push(filter_regex_source(p)) } else { rest }
    }
}

/// The regex sources of a `;`-separated file filter (`*.rs;test_.*`), one per
/// non-empty entry, anchored at both ends.
pub open spec fn file_filter_sources_spec(filter: Seq<char>) -> Seq<Seq<char>> {
    regex_sources_from(split_char(trim(filter), ';'))
}

/// The regex sources of the filter entries, in order.
pub fn file_filter_regex_sources(filter: &str) -> (r: Vec<String>)
    ensures
        string_views(r@) == file_filter_sources_spec(filter@),
{
    let t = crate::text::trim_string(filter);
    let tv = chars_of(t.as_str());
    let parts = split_char_vec(tv.as_slice(), ';');
    let ghost pieces = split_char(trim(filter@), ';');
    let mut out: Vec<String> = Vec::new();
    let mut i: usize = 0;
    proof {
        assert(string_views(out@) =~= Seq::<Seq<char>>::empty());
        assert(pieces.take(0) =~= Seq::<Seq<char>>::empty());
    }
    while i < parts.len()
        invariant
            i <= parts.len(),
            parts@.len() == pieces.len(),
            pieces == split_char(trim(filter@), ';'),
            forall|k: int| 0 <= k < parts@.len() ==> (#[trigger] parts@[k])@ == pieces[k],
            string_views(out@) == regex_sources_from(pieces.take(i as int)),
        decreases parts.len() - i,
    {
        let piece = string_of(parts[i].as_slice());
        let p = crate::text::trim_string(piece.as_str());
        let ghost before = out@;
        assert(pieces.take(i + 1).drop_last() =~= pieces.take(i as int));
        assert(pieces.take(i + 1).last() == pieces[i as int]);
        if !p.as_str().is_empty() {
            let escaped = replace_char_string(p.as_str(), '.', "\\.");
            let starred = replace_char_string(escaped.as_str(), '*', ".*");
            let mut src = "^".to_string();
            push_str(&mut src, starred.as_str());
            push_str(&mut src, "$");
            out.push(src);
            assert(string_views(out@) =~= string_views(before).push(filter_regex_source(p@)));
        }
        i = i + 1;
    }
    assert(pieces.take(pieces.len() as int) =~= pieces);
    out
}

} // verus!
