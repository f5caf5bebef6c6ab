//! Searching the text of one file: plain text (exact or whole words), and
//! the resulting matches with their lines, columns and context.
use vstd::prelude::*;
use vstd::string::StringSliceAdditionalSpecFns;
use regex::Regex;
use crate::search::{build_match_item, context_spec, is_whitespace_delimited_token, line_starts_spec, span_lines_spec, whitespace_delimited_spec, LineIndex, MatchItem, PlainTextSearchOptions, SearchMode};
use crate::i18n::{pick, Tr, UiLanguage};
use crate::lang::SupportedLanguage;
use crate::ast_pattern::{ast_match_ranges, compile_strategies, match_captures, strategy_keys, PatternKey};
use crate::text::{contains, is_white_space, lines, lines_vec, str_views, string_views};
use crate::xlsx_layout::utf8_len;

verus! {

// ───────────────────────── occurrences in a line ─────────────────────────

pub open spec fn occurs_at(l: Seq<char>, n: Seq<char>, i: int) -> bool {
    0 <= i && i + n.len() <= l.len() && l.subrange(i, i + n.len()) == n
}

/// The first occurrence of `n` in `l` at or after `from`.
pub open spec fn next_occ(l: Seq<char>, n: Seq<char>, from: nat) -> Option<nat>
    decreases l.len() - from,
{
    if from + n.len() > l.len() {
        None
    } else if occurs_at(l, n, from as int) {
        Some(from)
    } else {
        proof {
            assert(n.len() > 0) by {
                if n.len() == 0 {
                    assert(l.subrange(from as int, from as int) =~= n);
                }
            }
        }
        next_occ(l, n, from + 1)
    }
}

pub proof fn lemma_next_occ(l: Seq<char>, n: Seq<char>, from: nat)
    ensures
        next_occ(l, n, from) matches Some(i) ==> from <= i && i + n.len() <= l.len() && occurs_at(l, n, i as int),
        next_occ(l, n, from) matches Some(i) ==> forall|q: int| from <= q < i ==> !occurs_at(l, n, q),
        next_occ(l, n, from) is None ==> forall|q: int| from <= q ==> !occurs_at(l, n, q),
    decreases l.len() - from,
{
    if from + n.len() <= l.len() && !occurs_at(l, n, from as int) {
        assert(n.len() > 0) by {
            if n.len() == 0 {
                assert(l.subrange(from as int, from as int) =~= n);
            }
        }
        lemma_next_occ(l, n, from + 1);
    }
}

/// `[i, j)` is delimited by white space or the ends of the line.
pub open spec fn delimited(l: Seq<char>, i: int, j: int) -> bool {
    &&& (i == 0 || is_white_space(l[i - 1]))
    &&& (j >= l.len() || is_white_space(l[j]))
}

/// The occurrences of `n` (non-empty) in `l` from `from` on, as character
/// ranges: each search resumes after the previous occurrence; with
/// `whole`, an occurrence that is not delimited by white space is skipped
/// and the search resumes one character later.
pub open spec fn line_hits(l: Seq<char>, n: Seq<char>, whole: bool, from: nat) -> Seq<(nat, nat)>
    decreases l.len() + 1 - from,
{
    if n.len() == 0 || from > l.len() {
        Seq::empty()
    } else {
        match next_occ(l, n, from) {
            None => Seq::empty(),
            Some(i) => {
                proof { lemma_next_occ(l, n, from); }
                let j = i + n.len();
                if whole && !delimited(l, i as int, j as int) {
                    line_hits(l, n, whole, i + 1)
                } else if j >= l.len() {
                    seq![(i, j)]
                } else {
                    seq![(i, j)] + line_hits(l, n, whole, j)
                }
            },
        }
    }
}

fn occurs_at_exec(l: &[char], n: &[char], i: usize) -> (b: bool)
    requires
        i + n@.len() <= l@.len(),
        l@.len() <= usize::MAX,
    ensures
        b == occurs_at(l@, n@, i as int),
{
    let mut k: usize = 0;
    while k < n.len()
        invariant
            k <= n.len(),
            i + n@.len() <= l@.len(),
            l@.len() <= usize::MAX,
            forall|q: int| 0 <= q < k ==> l@[i + q] == n@[q],
        decreases n.len() - k,
    {
        if l[i + k] != n[k] {
            assert(l@.subrange(i as int, i + n@.len())[k as int] != n@[k as int]);
            return false;
        }
        k = k + 1;
    }
    assert(l@.subrange(i as int, i + n@.len()) =~= n@);
    true
}

fn next_occ_exec(l: &[char], n: &[char], from: usize) -> (r: Option<usize>)
    requires
        n@.len() > 0,
        from <= l@.len(),
        l@.len() + n@.len() <= usize::MAX,
    ensures
        match r {
            Some(i) => next_occ(l@, n@, from as nat) == Some(i as nat),
            None => next_occ(l@, n@, from as nat) is None,
        },
{
    let mut q = from;
    while q + n.len() <= l.len()
        invariant
            from <= q <= l@.len(),
            n@.len() > 0,
            l@.len() + n@.len() <= usize::MAX,
            next_occ(l@, n@, from as nat) == next_occ(l@, n@, q as nat),
        decreases l.len() - q,
    {
        if occurs_at_exec(l, n, q) {
            return Some(q);
        }
        q = q + 1;
    }
    None
}

fn delimited_exec(l: &[char], i: usize, j: usize) -> (b: bool)
    requires
        0 <= i <= j <= l@.len(),
    ensures
        b == delimited(l@, i as int, j as int),
{
    let before_ok = i == 0 || crate::text::is_white_space_char(l[i - 1]);
    let after_ok = j >= l.len() || crate::text::is_white_space_char(l[j]);
    before_ok && after_ok
}

/// The occurrences of `n` in `l` (see `line_hits`), as character ranges.
pub fn line_hits_exec(l: &[char], n: &[char], whole: bool) -> (r: Vec<(usize, usize)>)
    requires
        n@.len() > 0,
        l@.len() + n@.len() + 1 <= usize::MAX,
    ensures
        r@.len() == line_hits(l@, n@, whole, 0).len(),
        forall|k: int| 0 <= k < r@.len() ==> (r@[k].0 as nat, r@[k].1 as nat) == #[trigger] line_hits(l@, n@, whole, 0)[k],
{
    let mut out: Vec<(usize, usize)> = Vec::new();
    let mut from: usize = 0;
    let ghost all = line_hits(l@, n@, whole, 0);
    while from <= l.len()
        invariant
            n@.len() > 0,
            l@.len() + n@.len() + 1 <= usize::MAX,
            from <= l@.len() + 1,
            all == line_hits(l@, n@, whole, 0),
            out@.len() + line_hits(l@, n@, whole, from as nat).len() == all.len(),
            forall|k: int| 0 <= k < out@.len() ==> (out@[k].0 as nat, out@[k].1 as nat) == #[trigger] all[k],
            forall|k: int| 0 <= k < line_hits(l@, n@, whole, from as nat).len()
                ==> #[trigger] line_hits(l@, n@, whole, from as nat)[k] == all[out@.len() + k],
        decreases l@.len() + 1 - from,
    {
        proof { lemma_next_occ(l@, n@, from as nat); }
        let ghost rest = line_hits(l@, n@, whole, from as nat);
        match next_occ_exec(l, n, from) {
            None => {
                assert(rest.len() == 0);
                from = l.len() + 1;
            },
            Some(i) => {
                let j = i + n.len();
                if whole && !delimited_exec(l, i, j) {
                    assert(rest == line_hits(l@, n@, whole, (i + 1) as nat));
                    from = i + 1;
                } else {
                    out.push((i, j));
                    assert(rest[0] == (i as nat, j as nat));
                    if j >= l.len() {
                        assert(rest == seq![(i as nat, j as nat)]);
                        from = l.len() + 1;
                    } else {
                        assert(rest == seq![(i as nat, j as nat)] + line_hits(l@, n@, whole, j as nat));
                        assert forall|k: int| 0 <= k < line_hits(l@, n@, whole, j as nat).len()
                            implies #[trigger] line_hits(l@, n@, whole, j as nat)[k] == all[out@.len() + k] by {
                            assert(rest[k + 1] == line_hits(l@, n@, whole, j as nat)[k]);
                        }
                        from = j;
                    }
                }
            },
        }
    }
    out
}

// ───────────────────────── plain-text search of a file ─────────────────────────

/// Bytes of the first `i` characters of `l` in UTF-8.
pub open spec fn utf8_prefix(l: Seq<char>, i: int) -> nat
    decreases i,
{
    if i <= 0 || i > l.len() { 0 } else { utf8_prefix(l, i - 1) + utf8_len(l[i - 1]) }
}

proof fn lemma_utf8_prefix_bound(l: Seq<char>, i: int)
    requires
        0 <= i <= l.len(),
    ensures
        utf8_prefix(l, i) <= 4 * i,
    decreases i,
{
    if i > 0 {
        lemma_utf8_prefix_bound(l, i - 1);
    }
}

/// The byte offsets of every character boundary of `l` (from 0 to its end).
fn byte_offsets(l: &[char]) -> (r: Vec<usize>)
    requires
        4 * l@.len() <= usize::MAX,
    ensures
        r@.len() == l@.len() + 1,
        forall|k: int| 0 <= k <= l@.len() ==> #[trigger] r@[k] == utf8_prefix(l@, k),
{
    let mut out: Vec<usize> = Vec::new();
    out.push(0);
    let mut acc: usize = 0;
    let mut k: usize = 0;
    while k < l.len()
        invariant
            k <= l@.len(),
            4 * l@.len() <= usize::MAX,
            acc == utf8_prefix(l@, k as int),
            out@.len() == k + 1,
            forall|q: int| 0 <= q <= k ==> #[trigger] out@[q] == utf8_prefix(l@, q),
        decreases l.len() - k,
    {
        proof { lemma_utf8_prefix_bound(l@, (k + 1) as int); }
        acc = acc + crate::xlsx_layout::char_utf8_len_pub(l[k]);
        out.push(acc);
        k = k + 1;
    }
    out
}

/// The occurrences over all lines: (line index, start, end) in characters.
pub open spec fn plain_hits(ls: Seq<Seq<char>>, n: Seq<char>, whole: bool) -> Seq<(nat, nat, nat)>
    decreases ls.len(),
{
    if ls.len() == 0 {
        Seq::empty()
    } else {
        plain_hits(ls.drop_last(), n, whole)
            + line_hits(ls.last(), n, whole, 0).map_values(|h: (nat, nat)| ((ls.len() - 1) as nat, h.0, h.1))
    }
}

/// A match item stands for the occurrence `h` of the needle `n` on the lines
/// `ls`: its 1-based line, byte columns, text, spanned line and context.
pub open spec fn plain_item_ok(m: MatchItem, ls: Seq<Seq<char>>, h: (nat, nat, nat), n: Seq<char>, context: nat) -> bool {
    &&& m.line_start == h.0 + 1
    &&& m.line_end == h.0 + 1
    &&& m.col_start == utf8_prefix(ls[h.0 as int], h.1 as int)
    &&& m.col_end == utf8_prefix(ls[h.0 as int], h.2 as int)
    &&& m.matched_text@ == n
    &&& m.span_lines_text@ == span_lines_spec(ls, h.0 as int, h.0 as int)
    &&& (string_views(m.context_before@), string_views(m.context_after@)) == context_spec(ls, h.0 as int, h.0 as int, context as int)
    &&& m.recv_type_hint is None
}

/// How many hits are kept under a budget (`None`: no limit).
pub open spec fn kept(total: nat, budget: Option<usize>) -> nat {
    match budget {
        None => total,
        Some(b) => if b < total { b as nat } else { total },
    }
}

fn str_refs(v: &Vec<String>) -> (r: Vec<&str>)
    ensures
        str_views(r@) == string_views(v@),
{
    let mut out: Vec<&str> = Vec::new();
    let mut i: usize = 0;
    while i < v.len()
        invariant
            i <= v.len(),
            out@.len() == i,
            forall|k: int| 0 <= k < i ==> (#[trigger] out@[k])@ == v@[k]@,
        decreases v.len() - i,
    {
        out.push(v[i].as_str());
        i = i + 1;
    }
    assert(str_views(out@) =~= string_views(v@));
    out
}

/// Plain-text search of a file: every occurrence of `needle` on each line
/// (see `line_hits`), in order, as match items with `context_lines` lines of
/// context, cut off after `budget` hits. Also whether a hit was cut off.
pub fn plain_text_matches(source: &str, needle: &str, whole_word: bool, context_lines: usize, budget: Option<usize>)
    -> (r: (Vec<MatchItem>, bool))
    requires
        needle@.len() > 0,
        4 * source@.len() + needle@.len() + context_lines + 8 <= usize::MAX,
    ensures
        ({
            let ls = lines(source@);
            let hits = plain_hits(ls, needle@, whole_word);
            &&& r.0@.len() == kept(hits.len(), budget)
            &&& r.1 == (kept(hits.len(), budget) < hits.len())
            &&& forall|k: int| 0 <= k < r.0@.len() ==> plain_item_ok(#[trigger] r.0@[k], ls, hits[k], needle@, context_lines as nat)
        }),
{
    let owned = lines_vec(source);
    let line_refs = str_refs(&owned);
    let ghost ls = lines(source@);
    proof { crate::text::lemma_lines_bounds(source@); }
    assert(line_refs@.len() == str_views(line_refs@).len());
    assert(owned@.len() == string_views(owned@).len());
    let nv = crate::text::chars_of(needle);
    let mut out: Vec<MatchItem> = Vec::new();
    let mut limit_hit = false;
    let mut li: usize = 0;
    assert(ls.take(0) =~= Seq::<Seq<char>>::empty());
    while li < owned.len() && !limit_hit
        invariant
            li <= owned@.len(),
            ls == lines(source@),
            string_views(owned@) == ls,
            str_views(line_refs@) == ls,
            line_refs@.len() == ls.len(),
            ls.len() == owned@.len(),
            ls.len() <= source@.len() + 1,
            forall|i: int| 0 <= i < ls.len() ==> (#[trigger] ls[i]).len() <= source@.len(),
            nv@ == needle@,
            needle@.len() > 0,
            4 * source@.len() + needle@.len() + context_lines + 8 <= usize::MAX,
            !limit_hit ==> out@.len() == plain_hits(ls.take(li as int), needle@, whole_word).len(),
            !limit_hit ==> kept(plain_hits(ls.take(li as int), needle@, whole_word).len(), budget) == out@.len(),
            limit_hit ==> out@.len() == kept(plain_hits(ls, needle@, whole_word).len(), budget)
                && kept(plain_hits(ls, needle@, whole_word).len(), budget) < plain_hits(ls, needle@, whole_word).len(),
            forall|k: int| 0 <= k < out@.len() ==> plain_item_ok(#[trigger] out@[k], ls, plain_hits(ls, needle@, whole_word)[k], needle@, context_lines as nat),
        decreases owned@.len() - li, (if limit_hit { 0int } else { 1int }),
    {
        let lv = crate::text::chars_of(owned[li].as_str());
        assert(lv@ == ls[li as int]);
        let hits = line_hits_exec(lv.as_slice(), nv.as_slice(), whole_word);
        let offs = byte_offsets(lv.as_slice());
        let ghost prefix = ls.take(li as int);
        let ghost lh = line_hits(ls[li as int], needle@, whole_word, 0);
        assert(ls.take(li + 1).drop_last() =~= prefix);
        assert(ls.take(li + 1).last() == ls[li as int]);
        let ghost here = lh.map_values(|h: (nat, nat)| (li as nat, h.0, h.1));
        assert(plain_hits(ls.take(li + 1), needle@, whole_word) == plain_hits(prefix, needle@, whole_word) + here);
        proof { lemma_plain_hits_prefix(ls, needle@, whole_word, (li + 1) as int); }
        let mut k: usize = 0;
        while k < hits.len() && !limit_hit
            invariant
                k <= hits@.len(),
                hits@.len() == lh.len(),
                lh == line_hits(ls[li as int], needle@, whole_word, 0),
                line_refs@.len() == ls.len(),
                ls.len() == owned@.len(),
                forall|q: int| 0 <= q < hits@.len() ==> (hits@[q].0 as nat, hits@[q].1 as nat) == #[trigger] lh[q],
                li < owned@.len(),
                ls == lines(source@),
                str_views(line_refs@) == ls,
                ls.len() <= source@.len() + 1,
                lv@ == ls[li as int],
                ls[li as int].len() <= source@.len(),
                offs@.len() == lv@.len() + 1,
                forall|q: int| 0 <= q <= lv@.len() ==> #[trigger] offs@[q] == utf8_prefix(lv@, q),
                4 * source@.len() + needle@.len() + context_lines + 8 <= usize::MAX,
                plain_hits(ls.take(li + 1), needle@, whole_word) == plain_hits(prefix, needle@, whole_word) + here,
                here == lh.map_values(|h: (nat, nat)| (li as nat, h.0, h.1)),
                plain_hits(ls.take(li + 1), needle@, whole_word).len() <= plain_hits(ls, needle@, whole_word).len(),
                forall|q: int| 0 <= q < plain_hits(ls.take(li + 1), needle@, whole_word).len()
                    ==> #[trigger] plain_hits(ls, needle@, whole_word)[q] == plain_hits(ls.take(li + 1), needle@, whole_word)[q],
                !limit_hit ==> out@.len() == plain_hits(prefix, needle@, whole_word).len() + k,
                !limit_hit ==> kept((plain_hits(prefix, needle@, whole_word).len() + k) as nat, budget) == out@.len(),
                limit_hit ==> out@.len() == kept(plain_hits(ls, needle@, whole_word).len(), budget)
                    && kept(plain_hits(ls, needle@, whole_word).len(), budget) < plain_hits(ls, needle@, whole_word).len(),
                forall|q: int| 0 <= q < out@.len() ==> plain_item_ok(#[trigger] out@[q], ls, plain_hits(ls, needle@, whole_word)[q], needle@, context_lines as nat),
            decreases hits@.len() - k, (if limit_hit { 0int } else { 1int }),
        {
            let full = match budget {
                Some(b) => out.len() >= b,
                None => false,
            };
            if full {
                limit_hit = true;
            } else {
                let (ci, cj) = hits[k];
                proof {
                    lemma_line_hits_range(ls[li as int], needle@, whole_word, 0, k as int);
                }
                let item = build_match_item(li, offs[ci], li, offs[cj], needle.to_string(), line_refs.as_slice(), context_lines, None);
                let ghost g = plain_hits(prefix, needle@, whole_word).len() + k;
                assert(plain_hits(ls.take(li + 1), needle@, whole_word)[g as int] == here[k as int]);
                assert(here[k as int] == (li as nat, ci as nat, cj as nat));
                assert(plain_hits(ls, needle@, whole_word)[g as int] == (li as nat, ci as nat, cj as nat));
                assert(plain_item_ok(item, ls, plain_hits(ls, needle@, whole_word)[g as int], needle@, context_lines as nat));
                out.push(item);
                k = k + 1;
            }
        }
        if !limit_hit {
            assert(out@.len() == plain_hits(ls.take(li + 1), needle@, whole_word).len());
        }
        li = li + 1;
    }
    if !limit_hit {
        assert(ls.take(owned@.len() as int) =~= ls);
    }
    (out, limit_hit)
}

proof fn lemma_line_hits_range(l: Seq<char>, n: Seq<char>, whole: bool, from: nat, k: int)
    requires
        0 <= k < line_hits(l, n, whole, from).len(),
    ensures
        from <= line_hits(l, n, whole, from)[k].0 <= line_hits(l, n, whole, from)[k].1 <= l.len(),
    decreases l.len() + 1 - from,
{
    lemma_next_occ(l, n, from);
    match next_occ(l, n, from) {
        None => {},
        Some(i) => {
            let j = i + n.len();
            if whole && !delimited(l, i as int, j as int) {
                lemma_line_hits_range(l, n, whole, i + 1, k);
            } else if j >= l.len() {
            } else if k > 0 {
                assert(line_hits(l, n, whole, from)[k] == line_hits(l, n, whole, j)[k - 1]);
                lemma_line_hits_range(l, n, whole, j, k - 1);
            }
        },
    }
}

proof fn lemma_plain_hits_prefix(ls: Seq<Seq<char>>, n: Seq<char>, whole: bool, i: int)
    requires
        0 <= i <= ls.len(),
    ensures
        plain_hits(ls.take(i), n, whole).len() <= plain_hits(ls, n, whole).len(),
        forall|q: int| 0 <= q < plain_hits(ls.take(i), n, whole).len()
            ==> #[trigger] plain_hits(ls, n, whole)[q] == plain_hits(ls.take(i), n, whole)[q],
    decreases ls.len() - i,
{
    if i < ls.len() {
        lemma_plain_hits_prefix(ls, n, whole, i + 1);
        assert(ls.take(i + 1).drop_last() =~= ls.take(i));
    } else {
        assert(ls.take(i) =~= ls);
    }
}

// ───────────────────────── regular expressions ─────────────────────────

#[verifier::external_type_specification]
#[verifier::external_body]
pub struct ExRegex(regex::Regex);

/// A compiled regex together with its source and whether it ignores case.
pub struct CompiledRegex {
    re: Regex,
    source: String,
    ci: bool,
}

impl CompiledRegex {
    /// The regex's source text.
    pub closed spec fn source_view(&self) -> Seq<char> {
        self.source@
    }

    /// Whether the regex was built case-insensitive.
    pub closed spec fn ci_view(&self) -> bool {
        self.ci
    }

    /// The compiled regex.
    pub fn regex(&self) -> &Regex {
        &self.re
    }
}

/// Names what the `regex` crate reports for a pattern it refuses (`Regex::new`
/// returns `Err` exactly when this is `Some`), as its `Display` text.
pub uninterp spec fn regex_error_text(pattern: Seq<char>) -> Option<Seq<char>>;

/// Calls `regex::Regex::new`, keeping the error's text, and the source with
/// the compiled regex.
#[verifier::external_body]
pub(crate) fn regex_compile(pattern: &str) -> (r: Result<CompiledRegex, String>)
    ensures
        match r {
            Ok(c) => regex_error_text(pattern@) is None && c.source_view() == pattern@ && !c.ci_view(),
            Err(e) => regex_error_text(pattern@) == Some(e@),
        },
{
    Regex::new(pattern).map(|re| CompiledRegex { re, source: pattern.to_string(), ci: false }).map_err(|e| e.to_string())
}

/// Names what `RegexBuilder::build` with case-insensitive matching reports for
/// a pattern it refuses, as its `Display` text.
pub uninterp spec fn ci_regex_error_text(pattern: Seq<char>) -> Option<Seq<char>>;

/// Calls `regex::RegexBuilder::new(pattern).case_insensitive(true).build()`,
/// keeping the error's text, and the source with the compiled regex.
#[verifier::external_body]
fn regex_compile_ci(pattern: &str) -> (r: Result<CompiledRegex, String>)
    ensures
        match r {
            Ok(c) => ci_regex_error_text(pattern@) is None && c.source_view() == pattern@ && c.ci_view(),
            Err(e) => ci_regex_error_text(pattern@) == Some(e@),
        },
{
    regex::RegexBuilder::new(pattern)
        .case_insensitive(true)
        .build()
        .map(|re| CompiledRegex { re, source: pattern.to_string(), ci: true })
        .map_err(|e| e.to_string())
}

/// Byte ranges in a text, each within it, on character boundaries, in order
/// and not overlapping.
pub open spec fn spans_ok(spans: Seq<(usize, usize)>, b: Seq<u8>) -> bool {
    &&& forall|k: int| 0 <= k < spans.len() ==> {
        let sp = #[trigger] spans[k];
        &&& sp.0 <= sp.1 <= b.len()
        &&& vstd::utf8::is_char_boundary(b, sp.0 as int)
        &&& vstd::utf8::is_char_boundary(b, sp.1 as int)
    }
    &&& forall|k: int| 0 <= k < spans.len() - 1 ==> (#[trigger] spans[k]).1 <= spans[k + 1].0
}

/// Names what `Regex::find_iter` yields on a text for a regex compiled from a
/// source (case-insensitive or not): the start and end of each match. A
/// function of the source, the flag and the text.
pub uninterp spec fn regex_find_spans(pattern: Seq<char>, ci: bool, hay: Seq<char>) -> Seq<(usize, usize)>;

/// Calls `Regex::find_iter` on `hay`: the start and end of each match. The
/// crate documents that the matches come in order, do not overlap and start
/// and end on UTF-8 boundaries.
#[verifier::external_body]
fn regex_spans(re: &CompiledRegex, hay: &str) -> (r: Vec<(usize, usize)>)
    ensures
        r@ == regex_find_spans(re.source_view(), re.ci_view(), hay@),
        spans_ok(r@, hay.spec_bytes()),
{
    re.re.find_iter(hay).map(|m| (m.start(), m.end())).collect()
}

/// A regex meta character (`regex::escape` puts a backslash before it).
pub open spec fn is_meta(c: char) -> bool {
    c == '\\' || c == '.' || c == '+' || c == '*' || c == '?' || c == '(' || c == ')' || c == '|' || c == '['
        || c == ']' || c == '{' || c == '}' || c == '^' || c == '$' || c == '#' || c == '&' || c == '-' || c == '~'
}

/// `regex::escape`: each meta character preceded by a backslash.
pub open spec fn escape_spec(s: Seq<char>) -> Seq<char>
    decreases s.len(),
{
    if s.len() == 0 {
        Seq::empty()
    } else {
        escape_spec(s.drop_last()) + (if is_meta(s.last()) { seq!['\\', s.last()] } else { seq![s.last()] })
    }
}

/// A character that regex syntax gives a meaning of its own (besides `\`):
/// `. + * ? ( ) | [ ] { } ^ $ # & - ~`.
pub open spec fn regex_syntax_char(c: char) -> bool {
    c == '.' || c == '+' || c == '*' || c == '?' || c == '(' || c == ')' || c == '|' || c == '['
        || c == ']' || c == '{' || c == '}' || c == '^' || c == '$' || c == '#' || c == '&' || c == '-' || c == '~'
}

/// How many characters of `s` need escaping in a regex: the syntax
/// characters and `\`.
pub open spec fn escapes_needed(s: Seq<char>) -> nat
    decreases s.len(),
{
    if s.len() == 0 {
        0
    } else {
        escapes_needed(s.drop_last()) + (if s.last() == '\\' || regex_syntax_char(s.last()) { 1nat } else { 0nat })
    }
}

/// The escaped text is read literally by a regex: every regex syntax
/// character in it is preceded by a backslash, and it is the text with one
/// backslash added for each character that needs one.
pub proof fn lemma_escape_literal(s: Seq<char>)
    ensures
        forall|i: int| 0 <= i < escape_spec(s).len() && regex_syntax_char(#[trigger] escape_spec(s)[i])
            ==> i > 0 && escape_spec(s)[i - 1] == '\\',
        escape_spec(s).len() == s.len() + escapes_needed(s),
    decreases s.len(),
{
    if s.len() > 0 {
        let d = s.drop_last();
        lemma_escape_literal(d);
        let e0 = escape_spec(d);
        let c = s.last();
        let piece: Seq<char> = if is_meta(c) { seq!['\\', c] } else { seq![c] };
        let e = e0 + piece;
        assert(escape_spec(s) == e);
        assert forall|i: int| 0 <= i < e.len() && regex_syntax_char(#[trigger] e[i]) implies i > 0 && e[i - 1] == '\\' by {
            if i < e0.len() {
                assert(e[i] == e0[i]);
                assert(e[i - 1] == e0[i - 1]);
            } else if is_meta(c) {
                if i == e0.len() {
                    assert(e[i] == '\\');
                } else {
                    assert(e[i - 1] == '\\');
                }
            } else {
                assert(e[i] == c);
            }
        }
    }
}

/// The pattern text with every regex meta character escaped.
pub fn regex_escape(s: &str) -> (r: String)
    ensures
        r@ == escape_spec(s@),
        forall|i: int| 0 <= i < r@.len() && regex_syntax_char(#[trigger] r@[i]) ==> i > 0 && r@[i - 1] == '\\',
        r@.len() == s@.len() + escapes_needed(s@),
{
    proof { lemma_escape_literal(s@); }
    let v = crate::text::chars_of(s);
    let mut out = String::new();
    let mut i: usize = 0;
    proof { reveal_strlit(""); }
    assert(v@.take(0) =~= Seq::<char>::empty());
    while i < v.len()
        invariant
            i <= v.len(),
            v@ == s@,
            out@ == escape_spec(v@.take(i as int)),
        decreases v.len() - i,
    {
        let c = v[i];
        assert(v@.take(i + 1).drop_last() =~= v@.take(i as int));
        assert(v@.take(i + 1).last() == c);
        let meta = c == '\\' || c == '.' || c == '+' || c == '*' || c == '?' || c == '(' || c == ')' || c == '|'
            || c == '[' || c == ']' || c == '{' || c == '}' || c == '^' || c == '$' || c == '#' || c == '&'
            || c == '-' || c == '~';
        if meta {
            crate::text::push_char(&mut out, '\\');
        }
        crate::text::push_char(&mut out, c);
        i = i + 1;
    }
    assert(v@.take(v.len() as int) =~= v@);
    out
}

/// The regex of a token search: the pattern's white-space separated words,
/// escaped, joined by `\s*` (so that any spacing, line breaks included,
/// matches between them); `None` when the pattern has no word.
pub open spec fn token_regex_spec(pattern: Seq<char>) -> Option<Seq<char>> {
    let ws = crate::text::words(pattern);
    if ws.len() == 0 {
        None
    } else {
        Some(crate::text::join(ws.map_values(|w: Seq<char>| escape_spec(w)), "\\s*"@))
    }
}

pub fn token_search_regex(pattern: &str) -> (r: Option<String>)
    ensures
        match r {
            Some(t) => token_regex_spec(pattern@) == Some(t@),
            None => token_regex_spec(pattern@) is None,
        },
{
    let pv = crate::text::chars_of(pattern);
    let ws = crate::text::words_vec(pv.as_slice());
    if ws.len() == 0 {
        return None;
    }
    let mut escaped: Vec<String> = Vec::new();
    let mut i: usize = 0;
    while i < ws.len()
        invariant
            i <= ws.len(),
            escaped@.len() == i,
            forall|k: int| 0 <= k < i ==> (#[trigger] escaped@[k])@ == escape_spec(ws@[k]@),
        decreases ws.len() - i,
    {
        escaped.push(regex_escape(ws[i].as_str()));
        i = i + 1;
    }
    let ghost wv = string_views(ws@);
    assert(string_views(escaped@) =~= wv.map_values(|w: Seq<char>| escape_spec(w)));
    Some(crate::text::join_strings(escaped.as_slice(), "\\s*"))
}

proof fn lemma_line_starts_len(b: Seq<u8>)
    ensures
        line_starts_spec(b).len() <= b.len() + 1,
    decreases b.len(),
{
    if b.len() > 0 {
        lemma_line_starts_len(b.drop_last());
    }
}

/// A match item stands for the span `sp` of the source: its line and column
/// come from the line index, its text is the spanned bytes.
pub open spec fn span_item_ok(m: MatchItem, src: Seq<char>, sp: (usize, usize), context: nat) -> bool {
    let b = vstd::utf8::encode_utf8(src);
    let ls = lines(src);
    &&& vstd::utf8::encode_utf8(m.matched_text@) == b.subrange(sp.0 as int, sp.1 as int)
    &&& line_col_ok(line_starts_spec(b), b.len(), sp.0, (m.line_start - 1) as int, m.col_start as int)
    &&& line_col_ok(line_starts_spec(b), b.len(), sp.1, (m.line_end - 1) as int, m.col_end as int)
    &&& m.line_start >= 1 && m.line_end >= 1
    &&& m.span_lines_text@ == span_lines_spec(ls, m.line_start - 1, m.line_end - 1)
    &&& (string_views(m.context_before@), string_views(m.context_after@)) == context_spec(ls, m.line_start - 1, m.line_end - 1, context as int)
    &&& m.recv_type_hint is None
}

/// `(line, col)` is where byte `off` lies by the line starts `st`.
pub open spec fn line_col_ok(st: Seq<usize>, len: nat, off: usize, line: int, col: int) -> bool {
    let capped = if off < len { off as int } else { len as int };
    &&& 0 <= line < st.len()
    &&& st[line] <= capped
    &&& (line + 1 == st.len() || st[line + 1] > capped)
    &&& col == capped - st[line]
}

/// The match items of byte spans of the source, in order, cut off after
/// `budget` of them; also whether some were cut off.
pub fn spans_to_items(source: &str, spans: &Vec<(usize, usize)>, context_lines: usize, budget: Option<usize>)
    -> (r: (Vec<MatchItem>, bool))
    requires
        spans_ok(spans@, source.spec_bytes()),
        source.spec_bytes().len() + context_lines + 2 <= usize::MAX,
    ensures
        r.0@.len() == kept(spans@.len(), budget),
        r.1 == (kept(spans@.len(), budget) < spans@.len()),
        forall|k: int| 0 <= k < r.0@.len() ==> span_item_ok(#[trigger] r.0@[k], source@, spans@[k], context_lines as nat),
{
    let index = LineIndex::new(source);
    let owned = lines_vec(source);
    let line_refs = str_refs(&owned);
    proof { lemma_line_starts_len(source.spec_bytes()); }
    let mut out: Vec<MatchItem> = Vec::new();
    let mut k: usize = 0;
    let mut limit_hit = false;
    while k < spans.len() && !limit_hit
        invariant
            k <= spans@.len(),
            spans_ok(spans@, source.spec_bytes()),
            source.spec_bytes().len() + context_lines + 2 <= usize::MAX,
            index.line_starts@ == line_starts_spec(source.spec_bytes()),
            line_starts_spec(source.spec_bytes()).len() <= source.spec_bytes().len() + 1,
            str_views(line_refs@) == lines(source@),
            !limit_hit ==> out@.len() == k && kept(k as nat, budget) == k,
            limit_hit ==> out@.len() == kept(spans@.len(), budget) && kept(spans@.len(), budget) < spans@.len(),
            forall|q: int| 0 <= q < out@.len() ==> span_item_ok(#[trigger] out@[q], source@, spans@[q], context_lines as nat),
        decreases spans@.len() - k, (if limit_hit { 0int } else { 1int }),
    {
        let full = match budget {
            Some(b) => out.len() >= b,
            None => false,
        };
        if full {
            limit_hit = true;
        } else {
            let (s, e) = spans[k];
            let (ls, cs) = index.byte_offset_to_line_col(source, s);
            let (le, ce) = index.byte_offset_to_line_col(source, e);
            let text = match crate::highlight_layout::str_get_pub(source, s, e) {
                Some(t) => t.to_string(),
                None => String::new(),
            };
            let item = build_match_item(ls, cs, le, ce, text, line_refs.as_slice(), context_lines, None);
            proof { vstd::utf8::encode_utf8_valid_utf8(source@); }
            assert(span_item_ok(item, source@, spans@[k as int], context_lines as nat));
            out.push(item);
            k = k + 1;
        }
    }
    (out, limit_hit)
}

// ───────────────────────── a whole search ─────────────────────────

/// A search ready to run on each file: the AST pattern, the plain text (with
/// its case-insensitive regex when letter case is ignored), or a compiled
/// regular expression (regex mode, token mode).
pub enum PreparedSearch {
    Ast(String),
    Plain { needle: String, whole_word: bool, case_insensitive: Option<CompiledRegex> },
    Regex(CompiledRegex),
    Tokens(CompiledRegex),
}

pub open spec fn empty_pattern_text() -> Seq<char> {
    "パターンが空です"@
}

pub open spec fn regex_error_message(lang: UiLanguage, e: Seq<char>) -> Seq<char> {
    pick(lang, "正規表現エラー: "@ + e, "Regex error: "@ + e)
}

/// When preparing a search fails, and with which message: a regex that does
/// not compile; a token search without a word; an empty plain text.
pub open spec fn prepare_error(pattern: Seq<char>, mode: SearchMode, options: PlainTextSearchOptions, lang: UiLanguage) -> Option<Seq<char>> {
    match mode {
        SearchMode::AstGrep => None,
        SearchMode::PlainText => if pattern.len() == 0 {
            Some(empty_pattern_text())
        } else if options.case_insensitive {
            match ci_regex_error_text(escape_spec(pattern)) {
                Some(e) => Some(regex_error_message(lang, e)),
                None => None,
            }
        } else {
            None
        },
        SearchMode::Regex => match regex_error_text(pattern) {
            Some(e) => Some(regex_error_message(lang, e)),
            None => None,
        },
        SearchMode::TokenSearch => match token_regex_spec(pattern) {
            None => Some(empty_pattern_text()),
            Some(t) => match regex_error_text(t) {
                Some(e) => Some(regex_error_message(lang, e)),
                None => None,
            },
        },
    }
}

/// The prepared search for the mode, or the message of why it cannot run.
pub fn prepare_search(pattern: &str, mode: SearchMode, options: PlainTextSearchOptions, ui_lang: UiLanguage)
    -> (r: Result<PreparedSearch, String>)
    ensures
        match r {
            Err(e) => prepare_error(pattern@, mode, options, ui_lang) == Some(e@),
            Ok(p) => {
                &&& prepare_error(pattern@, mode, options, ui_lang) is None
                &&& match mode {
                    SearchMode::AstGrep => p matches PreparedSearch::Ast(a) && a@ == pattern@,
                    SearchMode::PlainText => p matches PreparedSearch::Plain { needle, whole_word, case_insensitive }
                        && needle@ == pattern@ && whole_word == options.whole_word
                        && (case_insensitive is Some) == options.case_insensitive
                        && (case_insensitive matches Some(c) ==> c.source_view() == escape_spec(pattern@) && c.ci_view()),
                    SearchMode::Regex => p matches PreparedSearch::Regex(c) && c.source_view() == pattern@ && !c.ci_view(),
                    SearchMode::TokenSearch => p matches PreparedSearch::Tokens(c)
                        && token_regex_spec(pattern@) == Some(c.source_view()) && !c.ci_view(),
                }
            },
        },
{
    let t = Tr(ui_lang);
    match mode {
        SearchMode::AstGrep => Ok(PreparedSearch::Ast(pattern.to_string())),
        SearchMode::PlainText => {
            if pattern.is_empty() {
                return Err("パターンが空です".to_string());
            }
            if options.case_insensitive {
                let escaped = regex_escape(pattern);
                match regex_compile_ci(escaped.as_str()) {
                    Ok(re) => Ok(PreparedSearch::Plain { needle: pattern.to_string(), whole_word: options.whole_word, case_insensitive: Some(re) }),
                    Err(e) => Err(t.err_regex_compile(e.as_str())),
                }
            } else {
                Ok(PreparedSearch::Plain { needle: pattern.to_string(), whole_word: options.whole_word, case_insensitive: None })
            }
        },
        SearchMode::Regex => match regex_compile(pattern) {
            Ok(re) => Ok(PreparedSearch::Regex(re)),
            Err(e) => Err(t.err_regex_compile(e.as_str())),
        },
        SearchMode::TokenSearch => match token_search_regex(pattern) {
            None => Err("パターンが空です".to_string()),
            Some(src) => match regex_compile(src.as_str()) {
                Ok(re) => Ok(PreparedSearch::Tokens(re)),
                Err(e) => Err(t.err_regex_compile(e.as_str())),
            },
        },
    }
}

/// A match item found on line `line` (0-based) at the byte range `[s, e)` of
/// that line, whose text is that range.
pub open spec fn line_item_ok(m: MatchItem, ls: Seq<Seq<char>>, line: int, s: int, e: int, context: nat) -> bool {
    &&& 0 <= line < ls.len()
    &&& m.line_start == line + 1
    &&& m.line_end == line + 1
    &&& m.col_start == s
    &&& m.col_end == e
    &&& vstd::utf8::encode_utf8(m.matched_text@) == vstd::utf8::encode_utf8(ls[line]).subrange(s, e)
    &&& m.span_lines_text@ == span_lines_spec(ls, line, line)
    &&& (string_views(m.context_before@), string_views(m.context_after@)) == context_spec(ls, line, line, context as int)
    &&& m.recv_type_hint is None
}

/// The spans from index `k` on that a case-insensitive search keeps on a
/// line: all of them, or with `whole` those delimited by white space.
pub open spec fn ci_line_hits(line: Seq<char>, spans: Seq<(usize, usize)>, whole: bool, k: int) -> Seq<(usize, usize)>
    decreases spans.len() - k,
{
    if k < 0 || k >= spans.len() {
        Seq::empty()
    } else {
        let rest = ci_line_hits(line, spans, whole, k + 1);
        if !whole || whitespace_delimited_spec(line, spans[k].0 as int, spans[k].1 as int) {
            seq![spans[k]] + rest
        } else {
            rest
        }
    }
}

/// The hits of a case-insensitive search over the first `sp.len()` lines,
/// given the regex's spans on each: (0-based line, start, end), in order.
pub open spec fn ci_hits(ls: Seq<Seq<char>>, sp: Seq<Seq<(usize, usize)>>, whole: bool) -> Seq<(nat, usize, usize)>
    decreases sp.len(),
{
    if sp.len() == 0 {
        Seq::empty()
    } else {
        let i = (sp.len() - 1) as nat;
        ci_hits(ls, sp.drop_last(), whole) + ci_line_hits(ls[i as int], sp.last(), whole, 0).map_values(
            |h: (usize, usize)| (i, h.0, h.1),
        )
    }
}

/// The regex's matches on each line.
pub open spec fn line_spans(ls: Seq<Seq<char>>, pattern: Seq<char>, ci: bool) -> Seq<Seq<(usize, usize)>> {
    Seq::new(ls.len(), |i: int| regex_find_spans(pattern, ci, ls[i]))
}

proof fn lemma_ci_hits_prefix(ls: Seq<Seq<char>>, full: Seq<Seq<(usize, usize)>>, whole: bool, n: int)
    requires
        0 <= n <= full.len(),
    ensures
        ci_hits(ls, full.take(n), whole).len() <= ci_hits(ls, full, whole).len(),
        forall|q: int| 0 <= q < ci_hits(ls, full.take(n), whole).len() ==>
            #[trigger] ci_hits(ls, full.take(n), whole)[q] == ci_hits(ls, full, whole)[q],
    decreases full.len(),
{
    if n == full.len() {
        assert(full.take(n) =~= full);
    } else {
        let d = full.drop_last();
        assert(full.take(n) =~= d.take(n));
        lemma_ci_hits_prefix(ls, d, whole, n);
        assert(full.drop_last() == d);
    }
}

/// Case-insensitive plain-text search: the regex's matches on each line (with
/// `whole`, only those delimited by white space), in order, cut off after
/// `budget` hits; also whether a hit was cut off. Which text the regex
/// matches is not stated.
pub fn ci_line_matches(source: &str, re: &CompiledRegex, whole: bool, context_lines: usize, budget: Option<usize>)
    -> (r: (Vec<MatchItem>, bool))
    requires
        source.spec_bytes().len() + context_lines + 2 <= usize::MAX,
    ensures
        budget matches Some(b) ==> r.0@.len() <= b,
        forall|k: int| 0 <= k < r.0@.len() ==> {
            let m = #[trigger] r.0@[k];
            &&& line_item_ok(m, lines(source@), m.line_start - 1, m.col_start as int, m.col_end as int, context_lines as nat)
            &&& whole ==> whitespace_delimited_spec(lines(source@)[m.line_start - 1], m.col_start as int, m.col_end as int)
        },
        r.0@.len() == kept(ci_hits(lines(source@), line_spans(lines(source@), re.source_view(), re.ci_view()), whole).len(), budget),
        r.1 == (kept(ci_hits(lines(source@), line_spans(lines(source@), re.source_view(), re.ci_view()), whole).len(), budget)
            < ci_hits(lines(source@), line_spans(lines(source@), re.source_view(), re.ci_view()), whole).len()),
        forall|k: int| 0 <= k < r.0@.len() ==> {
            let h = ci_hits(lines(source@), line_spans(lines(source@), re.source_view(), re.ci_view()), whole)[k];
            line_item_ok(#[trigger] r.0@[k], lines(source@), h.0 as int, h.1 as int, h.2 as int, context_lines as nat)
        },
{
    let owned = lines_vec(source);
    let line_refs = str_refs(&owned);
    let ghost ls = lines(source@);
    proof {
        crate::text::lemma_lines_bounds(source@);
        crate::text::lemma_encode_len(source@);
    }
    assert(line_refs@.len() == str_views(line_refs@).len());
    assert(owned@.len() == string_views(owned@).len());
    let mut out: Vec<MatchItem> = Vec::new();
    let mut limit_hit = false;
    let mut li: usize = 0;
    let ghost mut sp: Seq<Seq<(usize, usize)>> = Seq::empty();
    while li < owned.len() && !limit_hit
        invariant
            li <= owned@.len(),
            ls == lines(source@),
            string_views(owned@) == ls,
            str_views(line_refs@) == ls,
            owned@.len() == ls.len(),
            ls.len() <= source@.len() + 1,
            source@.len() <= source.spec_bytes().len(),
            source.spec_bytes().len() + context_lines + 2 <= usize::MAX,
            budget matches Some(b) ==> out@.len() <= b,
            forall|k: int| 0 <= k < out@.len() ==> {
                let m = #[trigger] out@[k];
                &&& line_item_ok(m, ls, m.line_start - 1, m.col_start as int, m.col_end as int, context_lines as nat)
                &&& whole ==> whitespace_delimited_spec(ls[m.line_start - 1], m.col_start as int, m.col_end as int)
            },
            sp.len() == li,
            sp == line_spans(ls, re.source_view(), re.ci_view()).take(li as int),
            !limit_hit ==> out@.len() == ci_hits(ls, sp, whole).len(),
            limit_hit ==> (budget matches Some(b) && out@.len() == b && out@.len() < ci_hits(ls, sp, whole).len()),
            forall|q: int| 0 <= q < out@.len() ==> {
                let h = ci_hits(ls, sp, whole)[q];
                line_item_ok(#[trigger] out@[q], ls, h.0 as int, h.1 as int, h.2 as int, context_lines as nat)
            },
        decreases owned@.len() - li, (if limit_hit { 0int } else { 1int }),
    {
        let line: &str = owned[li].as_str();
        assert(line@ == ls[li as int]);
        let line_len = line.as_bytes().len();
        let spans = regex_spans(re, line);
        let ghost base = ci_hits(ls, sp, whole);
        let ghost lh0 = ci_line_hits(ls[li as int], spans@, whole, 0);
        let ghost hf = ci_hits(ls, sp.push(spans@), whole);
        proof {
            assert(sp.push(spans@).drop_last() =~= sp);
            assert(hf == base + lh0.map_values(|h: (usize, usize)| (li as nat, h.0, h.1)));
            assert forall|j: int| 0 <= j < lh0.len() implies #[trigger] hf[base.len() + j] == (li as nat, lh0[j].0, lh0[j].1) by {}
        }
        let mut k: usize = 0;
        while k < spans.len() && !limit_hit
            invariant
                k <= spans@.len(),
                li < owned@.len(),
                line_len == line.spec_bytes().len(),
                spans_ok(spans@, line.spec_bytes()),
                line@ == ls[li as int],
                ls == lines(source@),
                str_views(line_refs@) == ls,
                owned@.len() == ls.len(),
                ls.len() <= source@.len() + 1,
                source@.len() <= source.spec_bytes().len(),
                source.spec_bytes().len() + context_lines + 2 <= usize::MAX,
                budget matches Some(b) ==> out@.len() <= b,
                forall|q: int| 0 <= q < out@.len() ==> {
                    let m = #[trigger] out@[q];
                    &&& line_item_ok(m, ls, m.line_start - 1, m.col_start as int, m.col_end as int, context_lines as nat)
                    &&& whole ==> whitespace_delimited_spec(ls[m.line_start - 1], m.col_start as int, m.col_end as int)
                },
                hf == ci_hits(ls, sp.push(spans@), whole),
                !limit_hit ==> out@.len() + ci_line_hits(ls[li as int], spans@, whole, k as int).len() == hf.len(),
                !limit_hit ==> forall|j: int| 0 <= j < ci_line_hits(ls[li as int], spans@, whole, k as int).len() ==>
                    #[trigger] hf[out@.len() + j] == (li as nat,
                        ci_line_hits(ls[li as int], spans@, whole, k as int)[j].0,
                        ci_line_hits(ls[li as int], spans@, whole, k as int)[j].1),
                limit_hit ==> (budget matches Some(b) && out@.len() == b && out@.len() < hf.len()),
                forall|q: int| 0 <= q < out@.len() ==> {
                    let h = hf[q];
                    line_item_ok(#[trigger] out@[q], ls, h.0 as int, h.1 as int, h.2 as int, context_lines as nat)
                },
            decreases spans@.len() - k, (if limit_hit { 0int } else { 1int }),
        {
            let (s, e) = spans[k];
            let ghost from_k = ci_line_hits(ls[li as int], spans@, whole, k as int);
            let ghost from_next = ci_line_hits(ls[li as int], spans@, whole, k + 1);
            if whole && !is_whitespace_delimited_token(line, s, e) {
                assert(from_k == from_next);
                k = k + 1;
                continue;
            }
            assert(from_k == seq![spans@[k as int]] + from_next);
            assert(from_k[0] == (s, e));
            let full = match budget {
                Some(b) => out.len() >= b,
                None => false,
            };
            if full {
                limit_hit = true;
            } else {
                let text = match crate::highlight_layout::str_get_pub(line, s, e) {
                    Some(t) => t.to_string(),
                    None => String::new(),
                };
                let item = build_match_item(li, s, li, e, text, line_refs.as_slice(), context_lines, None);
                assert(line_item_ok(item, ls, li as int, s as int, e as int, context_lines as nat));
                let ghost n0: int = out@.len() as int;
                assert(hf[n0 + 0] == (li as nat, s, e));
                out.push(item);
                proof {
                    assert forall|j: int| 0 <= j < from_next.len() implies #[trigger] hf[out@.len() + j] == (li as nat, from_next[j].0, from_next[j].1) by {
                        assert(from_k[j + 1] == from_next[j]);
                        assert(hf[n0 + (j + 1)] == (li as nat, from_k[j + 1].0, from_k[j + 1].1));
                    }
                }
                k = k + 1;
            }
        }
        proof {
            let full = line_spans(ls, re.source_view(), re.ci_view());
            assert(spans@ == full[li as int]);
            assert(full.take(li + 1) =~= sp.push(spans@));
            sp = sp.push(spans@);
        }
        li = li + 1;
    }
    proof {
        let full = line_spans(ls, re.source_view(), re.ci_view());
        lemma_ci_hits_prefix(ls, full, whole, li as int);
        if !limit_hit {
            assert(sp =~= full);
        }
    }
    (out, limit_hit)
}

/// A match item of an AST match: its line, columns and context come from
/// where the matched node starts and ends (its end cut at the text's end).
pub open spec fn ast_item_ok(m: MatchItem, src: Seq<char>, context: nat) -> bool {
    let b = vstd::utf8::encode_utf8(src);
    let ls = lines(src);
    &&& m.line_start >= 1 && m.line_end >= 1
    &&& m.span_lines_text@ == span_lines_spec(ls, m.line_start - 1, m.line_end - 1)
    &&& (string_views(m.context_before@), string_views(m.context_after@)) == context_spec(ls, m.line_start - 1, m.line_end - 1, context as int)
    &&& exists|s: usize, e: usize| {
        &&& e <= b.len()
        &&& #[trigger] line_col_ok(line_starts_spec(b), b.len(), s, (m.line_start - 1) as int, m.col_start as int)
        &&& #[trigger] line_col_ok(line_starts_spec(b), b.len(), e, (m.line_end - 1) as int, m.col_end as int)
    }
}

/// A match item placed at the matched node's byte range `f` (its end cut at
/// the text's end).
pub open spec fn ast_item_at(m: MatchItem, b: Seq<u8>, f: (usize, usize)) -> bool {
    &&& line_col_ok(line_starts_spec(b), b.len(), f.0, (m.line_start - 1) as int, m.col_start as int)
    &&& line_col_ok(line_starts_spec(b), b.len(), f.1, (m.line_end - 1) as int, m.col_end as int)
}

/// The byte ranges of what `match_captures` found.
pub open spec fn found_ranges(found: Seq<(usize, usize, String, Option<(usize, usize, String)>)>) -> Seq<(usize, usize)> {
    found.map_values(|x: (usize, usize, String, Option<(usize, usize, String)>)| (x.0, x.1))
}

/// The matches of the first compiled pattern, from index `i` on, that has any.
pub open spec fn first_found(source: Seq<char>, keys: Seq<PatternKey>, i: int) -> Seq<(usize, usize, Seq<char>)>
    decreases keys.len() - i,
{
    if i < 0 || i >= keys.len() {
        Seq::empty()
    } else {
        let f = ast_match_ranges(source, keys[i].lang, keys[i].context, keys[i].selector, keys[i].strict);
        if f.len() > 0 { f } else { first_found(source, keys, i + 1) }
    }
}

/// The matches an AST search of `source` reports: those of the first compile
/// strategy of the pattern that has any; none for `Auto`.
pub open spec fn ast_found(source: Seq<char>, pattern: Seq<char>, lang: SupportedLanguage) -> Seq<(usize, usize, Seq<char>)> {
    match crate::lang::cli_name_spec(lang) {
        None => Seq::empty(),
        Some(name) => first_found(source, strategy_keys(pattern, lang, name), 0),
    }
}

pub open spec fn node_spans(f: Seq<(usize, usize, Seq<char>)>) -> Seq<(usize, usize)> {
    Seq::new(f.len(), |j: int| (f[j].0, f[j].1))
}

/// AST search of a file: the matches of the first strategy (see
/// `compile_strategies`) that has any, in order, cut off after `budget` hits;
/// none for `Auto` or a pattern that does not compile. The matched text is
/// the source between the node's ends where they are character boundaries,
/// else the node's text. When the pattern uses `$RECV`, each item carries the
/// type hint of the node `$RECV` captured (`hint_for_capture` on the file's
/// syntax tree). Which nodes match is not stated.
pub fn ast_file_matches(source: &str, pattern: &str, file_lang: SupportedLanguage, context_lines: usize, budget: Option<usize>)
    -> (r: (Vec<MatchItem>, bool))
    requires
        source.spec_bytes().len() + context_lines + 2 <= usize::MAX,
    ensures
        file_lang == SupportedLanguage::Auto ==> r.0@.len() == 0,
        budget matches Some(b) ==> r.0@.len() <= b,
        forall|k: int| 0 <= k < r.0@.len() ==> ast_item_ok(#[trigger] r.0@[k], source@, context_lines as nat),
        !contains(pattern@, "$RECV"@) ==> forall|k: int| 0 <= k < r.0@.len() ==> (#[trigger] r.0@[k]).recv_type_hint is None,
        r.0@.len() == kept(ast_found(source@, pattern@, file_lang).len(), budget),
        r.1 == (kept(ast_found(source@, pattern@, file_lang).len(), budget) < ast_found(source@, pattern@, file_lang).len()),
        forall|k: int| 0 <= k < r.0@.len() ==>
            ast_item_at(#[trigger] r.0@[k], source.spec_bytes(), node_spans(ast_found(source@, pattern@, file_lang))[k]),
{
    let mut out: Vec<MatchItem> = Vec::new();
    let ghost ff = ast_found(source@, pattern@, file_lang);
    let ast_lang = match file_lang.ast_lang() {
        Some(l) => l,
        None => {
            return (out, false);
        },
    };
    let ghost keys = strategy_keys(pattern@, file_lang, ast_lang.name_view());
    assert(ff == first_found(source@, keys, 0));
    let compiled = compile_strategies(pattern, file_lang, &ast_lang);
    let want_hint = crate::search::pattern_contains_dollar_recv(pattern);
    let tree = if want_hint { crate::syntax_tree::SyntaxTree::parse(source, file_lang) } else { None };
    let index = LineIndex::new(source);
    let owned = lines_vec(source);
    let line_refs = str_refs(&owned);
    let len = source.as_bytes().len();
    proof { lemma_line_starts_len(source.spec_bytes()); }
    let mut limit_hit = false;
    let mut i: usize = 0;
    let ghost mut chosen: Seq<(usize, usize)> = Seq::empty();
    while i < compiled.len() && out.len() == 0
        invariant
            i <= compiled@.len(),
            len == source.spec_bytes().len(),
            source.spec_bytes().len() + context_lines + 2 <= usize::MAX,
            index.line_starts@ == line_starts_spec(source.spec_bytes()),
            line_starts_spec(source.spec_bytes()).len() <= source.spec_bytes().len() + 1,
            str_views(line_refs@) == lines(source@),
            budget matches Some(b) ==> out@.len() <= b,
            forall|q: int| 0 <= q < out@.len() ==> ast_item_ok(#[trigger] out@[q], source@, context_lines as nat),
            want_hint == contains(pattern@, "$RECV"@),
            tree matches Some(t) ==> t.wf(),
            !want_hint ==> tree is None,
            !want_hint ==> forall|q: int| 0 <= q < out@.len() ==> (#[trigger] out@[q]).recv_type_hint is None,
            out@.len() == kept(chosen.len(), budget),
            limit_hit == (kept(chosen.len(), budget) < chosen.len()),
            limit_hit ==> (budget matches Some(b) && out@.len() == b),
            forall|q: int| 0 <= q < out@.len() ==> ast_item_at(#[trigger] out@[q], source.spec_bytes(), chosen[q]),
            crate::ast_pattern::keys_of(compiled@) == keys,
            ff == first_found(source@, keys, 0),
            !limit_hit && out@.len() == 0 ==> first_found(source@, keys, i as int) == ff,
            limit_hit || out@.len() > 0 ==> chosen == node_spans(ff),
        decreases compiled@.len() - i,
    {
        let found = match_captures(source, &compiled[i], "RECV");
        proof {
            let k = keys[i as int];
            assert(compiled@[i as int].key() == k);
            let f = ast_match_ranges(source@, k.lang, k.context, k.selector, k.strict);
            assert(found_ranges(found@) =~= node_spans(f));
            if !limit_hit {
                if f.len() > 0 {
                    assert(ff == f);
                } else {
                    assert(first_found(source@, keys, i + 1) == ff);
                }
            }
        }
        let ghost fresh = !limit_hit;
        proof {
            if fresh {
                chosen = found_ranges(found@);
            }
        }
        let mut k: usize = 0;
        let mut stop = false;
        while k < found.len() && !stop
            invariant
                k <= found@.len(),
                len == source.spec_bytes().len(),
                source.spec_bytes().len() + context_lines + 2 <= usize::MAX,
                index.line_starts@ == line_starts_spec(source.spec_bytes()),
                line_starts_spec(source.spec_bytes()).len() <= source.spec_bytes().len() + 1,
                str_views(line_refs@) == lines(source@),
                budget matches Some(b) ==> out@.len() <= b,
                forall|q: int| 0 <= q < out@.len() ==> ast_item_ok(#[trigger] out@[q], source@, context_lines as nat),
                want_hint == contains(pattern@, "$RECV"@),
                tree matches Some(t) ==> t.wf(),
                !want_hint ==> tree is None,
                !want_hint ==> forall|q: int| 0 <= q < out@.len() ==> (#[trigger] out@[q]).recv_type_hint is None,
                fresh ==> chosen == found_ranges(found@),
                !fresh ==> limit_hit && out@.len() == kept(chosen.len(), budget) && kept(chosen.len(), budget) < chosen.len(),
                fresh && !limit_hit ==> out@.len() == k,
                limit_hit ==> (budget matches Some(b) && out@.len() == b && (b as int) < chosen.len()),
                stop ==> limit_hit,
                forall|q: int| 0 <= q < out@.len() ==> ast_item_at(#[trigger] out@[q], source.spec_bytes(), chosen[q]),
            decreases found@.len() - k, (if stop { 0int } else { 1int }),
        {
            let full = match budget {
                Some(b) => out.len() >= b,
                None => false,
            };
            if full {
                limit_hit = true;
                stop = true;
            } else {
                let start = found[k].0;
                let end = if found[k].1 < len { found[k].1 } else { len };
                let (ls, cs) = index.byte_offset_to_line_col(source, start);
                let (le, ce) = index.byte_offset_to_line_col(source, end);
                let text = match crate::highlight_layout::str_get_pub(source, start, end) {
                    Some(t) => t.to_string(),
                    None => found[k].2.clone(),
                };
                let hint = match (&tree, &found[k].3) {
                    (Some(t), Some(cap)) => crate::recv_infer::hint_for_capture(t, file_lang, cap.0, cap.1, cap.2.as_str()),
                    _ => None,
                };
                let item = build_match_item(ls, cs, le, ce, text, line_refs.as_slice(), context_lines, hint);
                proof {
                    vstd::utf8::encode_utf8_valid_utf8(source@);
                    let b = vstd::utf8::encode_utf8(source@);
                    assert(b == source.spec_bytes());
                    assert(line_col_ok(line_starts_spec(b), b.len(), start, (item.line_start - 1) as int, item.col_start as int));
                    assert(line_col_ok(line_starts_spec(b), b.len(), end, (item.line_end - 1) as int, item.col_end as int));
                }
                assert(ast_item_ok(item, source@, context_lines as nat));
                assert(chosen[out@.len() as int] == (start, found@[k as int].1));
                assert(ast_item_at(item, source.spec_bytes(), chosen[out@.len() as int]));
                out.push(item);
                k = k + 1;
            }
        }
        i = i + 1;
    }
    proof {
        if !limit_hit && out@.len() == 0 {
            assert(ff.len() == 0);
        } else {
            assert(chosen == node_spans(ff));
        }
    }
    (out, limit_hit)
}

/// The items of a regex search: the matches' spans in order, cut off after
/// `budget`, whether some were cut off, and each item standing for its span.
pub open spec fn regex_items_ok(r: (Vec<MatchItem>, bool), source: Seq<char>, spans: Seq<(usize, usize)>, budget: Option<usize>, context: nat) -> bool {
    &&& r.0@.len() == kept(spans.len(), budget)
    &&& r.1 == (kept(spans.len(), budget) < spans.len())
    &&& forall|k: int| 0 <= k < r.0@.len() ==> span_item_ok(#[trigger] r.0@[k], source, spans[k], context)
}

/// Searches one file's text with a prepared search: plain text as
/// `plain_text_matches` (or `ci_line_matches` when case is ignored), regex
/// and token searches as the regex's matches over the whole text
/// (`spans_to_items`), AST searches as `ast_file_matches` in the file's
/// language. Cut off after `budget` hits; also whether a hit was cut off.
pub fn search_file_text(prepared: &PreparedSearch, source: &str, file_lang: SupportedLanguage, context_lines: usize, budget: Option<usize>)
    -> (r: (Vec<MatchItem>, bool))
    requires
        4 * source.spec_bytes().len() + context_lines + 8 <= usize::MAX,
        prepared matches PreparedSearch::Plain { needle, .. } ==> needle@.len() > 0
            && 4 * source.spec_bytes().len() + needle@.len() + context_lines + 8 <= usize::MAX,
    ensures
        budget matches Some(b) ==> r.0@.len() <= b,
        match prepared {
            PreparedSearch::Plain { needle, whole_word, case_insensitive: None } => {
                let hits = plain_hits(lines(source@), needle@, *whole_word);
                &&& r.0@.len() == kept(hits.len(), budget)
                &&& r.1 == (kept(hits.len(), budget) < hits.len())
                &&& forall|k: int| 0 <= k < r.0@.len() ==> plain_item_ok(#[trigger] r.0@[k], lines(source@), hits[k], needle@, context_lines as nat)
            },
            _ => true,
        },
        prepared matches PreparedSearch::Ast(_) ==> forall|k: int| 0 <= k < r.0@.len() ==> ast_item_ok(#[trigger] r.0@[k], source@, context_lines as nat),
        prepared matches PreparedSearch::Ast(a) ==> {
            let found = ast_found(source@, a@, file_lang);
            &&& r.0@.len() == kept(found.len(), budget)
            &&& r.1 == (kept(found.len(), budget) < found.len())
            &&& forall|k: int| 0 <= k < r.0@.len() ==> ast_item_at(#[trigger] r.0@[k], source.spec_bytes(), node_spans(found)[k])
        },
        prepared matches PreparedSearch::Regex(c) ==> regex_items_ok(r, source@, regex_find_spans(c.source_view(), c.ci_view(), source@), budget, context_lines as nat),
        prepared matches PreparedSearch::Tokens(c) ==> regex_items_ok(r, source@, regex_find_spans(c.source_view(), c.ci_view(), source@), budget, context_lines as nat),
        prepared matches PreparedSearch::Plain { whole_word, case_insensitive: Some(c), .. } ==> {
            let hits = ci_hits(lines(source@), line_spans(lines(source@), c.source_view(), c.ci_view()), *whole_word);
            &&& r.0@.len() == kept(hits.len(), budget)
            &&& r.1 == (kept(hits.len(), budget) < hits.len())
        },
{
    proof { crate::text::lemma_encode_len(source@); }
    match prepared {
        PreparedSearch::Ast(pattern) => ast_file_matches(source, pattern.as_str(), file_lang, context_lines, budget),
        PreparedSearch::Plain { needle, whole_word, case_insensitive } => match case_insensitive {
            Some(re) => ci_line_matches(source, re, *whole_word, context_lines, budget),
            None => plain_text_matches(source, needle.as_str(), *whole_word, context_lines, budget),
        },
        PreparedSearch::Regex(re) => {
            let spans = regex_spans(re, source);
            spans_to_items(source, &spans, context_lines, budget)
        },
        PreparedSearch::Tokens(re) => {
            let spans = regex_spans(re, source);
            spans_to_items(source, &spans, context_lines, budget)
        },
    }
}

// ───────────────────────── which files are searched ─────────────────────────

/// Calls `Regex::is_match`: whether the regex matches somewhere in the
/// text, so whether `find_iter` yields a match.
#[verifier::external_body]
fn regex_is_match(re: &CompiledRegex, text: &str) -> (b: bool)
    ensures
        b == (regex_find_spans(re.source_view(), re.ci_view(), text@).len() > 0),
{
    re.re.is_match(text)
}

/// The regex sources the `regex` crate accepts, in order.
pub open spec fn compiling_sources(srcs: Seq<Seq<char>>) -> Seq<Seq<char>>
    decreases srcs.len(),
{
    if srcs.len() == 0 {
        Seq::empty()
    } else {
        let rest = compiling_sources(srcs.drop_last());
        if regex_error_text(srcs.last()) is None { rest.push(srcs.last()) } else { rest }
    }
}

proof fn lemma_compiling_sources_le(srcs: Seq<Seq<char>>)
    ensures
        compiling_sources(srcs).len() <= srcs.len(),
    decreases srcs.len(),
{
    if srcs.len() > 0 {
        lemma_compiling_sources_le(srcs.drop_last());
    }
}

/// The sources of compiled regexes, and whether each ignores case.
pub open spec fn regex_sources(v: Seq<CompiledRegex>) -> Seq<Seq<char>> {
    Seq::new(v.len(), |i: int| v[i].source_view())
}

/// The file-name filter as compiled regexes, one for each entry the `regex`
/// crate accepts, in order (entries that do not compile are dropped); `None`
/// when no entry is left, so that the language's extensions decide.
pub fn parse_file_filter(filter: &str) -> (r: Option<Vec<CompiledRegex>>)
    ensures
        r is None <==> compiling_sources(crate::search::file_filter_sources_spec(filter@)).len() == 0,
        r matches Some(v) ==> regex_sources(v@) == compiling_sources(crate::search::file_filter_sources_spec(filter@)),
        r matches Some(v) ==> forall|i: int| 0 <= i < v@.len() ==> !(#[trigger] v@[i]).ci_view(),
        r matches Some(v) ==> v@.len() > 0 && v@.len() <= crate::search::file_filter_sources_spec(filter@).len(),
        crate::search::file_filter_sources_spec(filter@).len() == 0 ==> r is None,
{
    let sources = crate::search::file_filter_regex_sources(filter);
    let ghost srcs = string_views(sources@);
    let mut out: Vec<CompiledRegex> = Vec::new();
    let mut i: usize = 0;
    assert(srcs.take(0) =~= Seq::<Seq<char>>::empty());
    assert(regex_sources(out@) =~= Seq::<Seq<char>>::empty());
    while i < sources.len()
        invariant
            i <= sources@.len(),
            srcs == string_views(sources@),
            srcs.len() == sources@.len(),
            regex_sources(out@) == compiling_sources(srcs.take(i as int)),
            forall|q: int| 0 <= q < out@.len() ==> !(#[trigger] out@[q]).ci_view(),
        decreases sources@.len() - i,
    {
        assert(srcs.take(i + 1).drop_last() =~= srcs.take(i as int));
        assert(srcs.take(i + 1).last() == sources@[i as int]@);
        match regex_compile(sources[i].as_str()) {
            Ok(re) => {
                let ghost before = out@;
                out.push(re);
                assert(regex_sources(out@) =~= regex_sources(before).push(sources@[i as int]@));
            },
            Err(_) => {},
        }
        i = i + 1;
    }
    assert(srcs.take(sources@.len() as int) =~= srcs);
    proof { lemma_compiling_sources_le(srcs); }
    assert(out@.len() == regex_sources(out@).len());
    if out.len() == 0 {
        None
    } else {
        Some(out)
    }
}

/// The directory names that are not descended into: the `;`-separated
/// entries, trimmed, blank ones dropped.
pub open spec fn skip_dir_names_spec(s: Seq<char>) -> Seq<Seq<char>>
{
    names_from(crate::text::split_char(s, ';'))
}

pub open spec fn names_from(pieces: Seq<Seq<char>>) -> Seq<Seq<char>>
    decreases pieces.len(),
{
    if pieces.len() == 0 {
        Seq::empty()
    } else {
        let rest = names_from(pieces.drop_last());
        let p = crate::text::trim(pieces.last());
        if p.len() > 0 { rest.push(p) } else { rest }
    }
}

pub fn skip_dir_names(skip_dirs: &str) -> (r: Vec<String>)
    ensures
        string_views(r@) == skip_dir_names_spec(skip_dirs@),
{
    let v = crate::text::chars_of(skip_dirs);
    let parts = crate::text::split_char_vec(v.as_slice(), ';');
    let ghost pieces = crate::text::split_char(skip_dirs@, ';');
    let mut out: Vec<String> = Vec::new();
    let mut i: usize = 0;
    assert(string_views(out@) =~= Seq::<Seq<char>>::empty());
    assert(pieces.take(0) =~= Seq::<Seq<char>>::empty());
    while i < parts.len()
        invariant
            i <= parts.len(),
            parts@.len() == pieces.len(),
            pieces == crate::text::split_char(skip_dirs@, ';'),
            forall|k: int| 0 <= k < parts@.len() ==> (#[trigger] parts@[k])@ == pieces[k],
            string_views(out@) == names_from(pieces.take(i as int)),
        decreases parts.len() - i,
    {
        let piece = crate::text::string_of(parts[i].as_slice());
        let p = crate::text::trim_string(piece.as_str());
        let ghost before = out@;
        assert(pieces.take(i + 1).drop_last() =~= pieces.take(i as int));
        assert(pieces.take(i + 1).last() == pieces[i as int]);
        if !p.as_str().is_empty() {
            out.push(p);
            assert(string_views(out@) =~= string_views(before).push(crate::text::trim(pieces[i as int])));
        }
        i = i + 1;
    }
    assert(pieces.take(pieces.len() as int) =~= pieces);
    out
}

/// Whether a file is searched: with a file-name filter, when one of its
/// regexes matches the name; else, when the language's extensions decide
/// (AST search without a filter), when the extension is one of them; else
/// always.
pub fn wants_file(file_name: &str, extension: Option<&str>, custom: &Option<Vec<CompiledRegex>>, use_lang_filter: bool, exts: &[&str])
    -> (b: bool)
    ensures
        custom matches Some(v) ==> (b <==> exists|i: int| 0 <= i < v@.len()
            && regex_find_spans((#[trigger] v@[i]).source_view(), v@[i].ci_view(), file_name@).len() > 0),
        custom is None && use_lang_filter ==> (b == match extension {
            Some(e) => exists|i: int| 0 <= i < exts@.len() && (#[trigger] exts@[i])@ == e@,
            None => false,
        }),
        custom is None && !use_lang_filter ==> b,
{
    match custom {
        Some(patterns) => {
            let mut i: usize = 0;
            while i < patterns.len()
                invariant
                    i <= patterns@.len(),
                    custom is Some,
                    custom->0 == *patterns,
                    forall|k: int| 0 <= k < i ==> regex_find_spans((#[trigger] patterns@[k]).source_view(), patterns@[k].ci_view(), file_name@).len() == 0,
                decreases patterns.len() - i,
            {
                if regex_is_match(&patterns[i], file_name) {
                    assert(regex_find_spans(patterns@[i as int].source_view(), patterns@[i as int].ci_view(), file_name@).len() > 0);
                    return true;
                }
                i = i + 1;
            }
            false
        },
        None => {
            if use_lang_filter {
                match extension {
                    Some(e) => {
                        let mut i: usize = 0;
                        while i < exts.len()
                            invariant
                                i <= exts@.len(),
                                custom is None,
                                use_lang_filter,
                                extension == Some(e),
                                forall|k: int| 0 <= k < i ==> (#[trigger] exts@[k])@ != e@,
                            decreases exts.len() - i,
                        {
                            let ev = crate::text::chars_of(exts[i]);
                            if crate::lang::str_eq(ev.as_slice(), e) {
                                assert((exts@[i as int])@ == e@);
                                return true;
                            }
                            i = i + 1;
                        }
                        false
                    },
                    None => false,
                }
            } else {
                true
            }
        },
    }
}

/// The language a file is searched in: the selected one, or for `Auto` the
/// one its extension names; `None` (skip the file) when `Auto` finds none in
/// an AST search, Rust otherwise.
pub fn file_language(selected: SupportedLanguage, from_extension: Option<SupportedLanguage>, mode: SearchMode) -> (r: Option<SupportedLanguage>)
    ensures
        selected != SupportedLanguage::Auto ==> r == Some(selected),
        selected == SupportedLanguage::Auto ==> r == match from_extension {
            Some(l) => Some(l),
            None => if mode == SearchMode::AstGrep { None } else { Some(SupportedLanguage::Rust) },
        },
{
    match selected {
        SupportedLanguage::Auto => match from_extension {
            Some(l) => Some(l),
            None => if mode.is_ast_mode() { None } else { Some(SupportedLanguage::Rust) },
        },
        _ => Some(selected),
    }
}

/// The hits still allowed under a cap (`0`: no cap) after `accepted` hits.
pub fn remaining_budget(max_hits: usize, accepted: usize) -> (r: Option<usize>)
    ensures
        max_hits == 0 ==> r is None,
        max_hits > 0 ==> r == Some(if accepted < max_hits { (max_hits - accepted) as usize } else { 0usize }),
{
    if max_hits == 0 {
        None
    } else if accepted < max_hits {
        Some(max_hits - accepted)
    } else {
        Some(0)
    }
}

/// Progress is reported every 50 scanned files.
pub fn should_report_progress(scanned: usize) -> (b: bool)
    ensures
        b == (scanned % 50 == 0),
{
    scanned % 50 == 0
}

} // verus!
