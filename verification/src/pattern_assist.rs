//! Pattern suggestions for a code snippet: each language has a list of probe
//! patterns, and those that match the snippet are offered.
use vstd::prelude::*;
use vstd::string::StringSliceAdditionalSpecFns;
use crate::ast_pattern::{ast_match_ranges, compile_strategies, match_ranges, strategy_keys, AstLang, PatternKey};
use crate::file_search::node_spans;
use crate::lang::cli_name_spec;
use crate::i18n::{pick, tr_pair, UiLanguage};
use crate::lang::SupportedLanguage;
use crate::text::{trim, trim_string};

verus! {

/// One suggested pattern.
#[derive(Debug, Clone)]
pub struct PatternSuggestion {
    /// The pattern text, as ast-grep takes it.
    pub pattern: String,
    /// What the pattern is for.
    pub description: String,
    /// How many matches it has in the snippet.
    pub match_count: usize,
    /// The byte ranges of those matches in the trimmed snippet.
    pub match_ranges: Vec<(usize, usize)>,
}

/// A suggestion as values: pattern, description, match ranges.
pub open spec fn suggestion_view(s: PatternSuggestion) -> (Seq<char>, Seq<char>, Seq<(usize, usize)>) {
    (s.pattern@, s.description@, s.match_ranges@)
}

pub open spec fn suggestions_view(v: Seq<PatternSuggestion>) -> Seq<(Seq<char>, Seq<char>, Seq<(usize, usize)>)> {
    v.map_values(|s: PatternSuggestion| suggestion_view(s))
}

/// A probe as written in the tables: pattern and its description in both languages.
#[derive(Clone, Copy)]
pub struct ProbeEntry {
    pub pattern: &'static str,
    pub ja: &'static str,
    pub en: &'static str,
}

pub open spec fn entries_match(t: Seq<ProbeEntry>, table: Seq<(Seq<char>, Seq<char>, Seq<char>)>) -> bool {
    &&& t.len() == table.len()
    &&& forall|i: int| 0 <= i < t.len() ==> ((#[trigger] t[i]).pattern@, t[i].ja@, t[i].en@) == table[i]
}

/// The (pattern, description) pairs of a table in the UI language.
pub open spec fn probe_pairs(ui: UiLanguage, table: Seq<(Seq<char>, Seq<char>, Seq<char>)>) -> Seq<(Seq<char>, Seq<char>)> {
    table.map_values(|e: (Seq<char>, Seq<char>, Seq<char>)| (e.0, pick(ui, e.1, e.2)))
}

pub open spec fn pairs_view(v: Seq<(String, String)>) -> Seq<(Seq<char>, Seq<char>)> {
    v.map_values(|p: (String, String)| (p.0@, p.1@))
}

/// The language's own probes (TypeScript adds to JavaScript's, C++ to C's).
pub open spec fn lang_probe_table(lang: SupportedLanguage) -> Seq<(Seq<char>, Seq<char>, Seq<char>)> {
    match lang {
        SupportedLanguage::Auto => generic_probe_table(),
        SupportedLanguage::Rust => rust_probe_table(),
        SupportedLanguage::Java => java_probe_table(),
        SupportedLanguage::Python => python_probe_table(),
        SupportedLanguage::JavaScript => js_probe_table(),
        SupportedLanguage::TypeScript => js_probe_table() + ts_probe_table(),
        SupportedLanguage::Go => go_probe_table(),
        SupportedLanguage::C => c_probe_table(),
        SupportedLanguage::Cpp => c_probe_table() + cpp_probe_table(),
        SupportedLanguage::CSharp => csharp_probe_table(),
        SupportedLanguage::Kotlin => kotlin_probe_table(),
        SupportedLanguage::Scala => scala_probe_table(),
    }
}

/// All probes for a snippet: the exact snippet first, then the language's
/// probes, then the generic ones.
pub open spec fn build_probes_spec(snippet: Seq<char>, lang: SupportedLanguage, ui: UiLanguage) -> Seq<(Seq<char>, Seq<char>)> {
    seq![(snippet, pick(ui, "完全一致"@, "Exact match"@))]
        + probe_pairs(ui, lang_probe_table(lang))
        + probe_pairs(ui, generic_probe_table())
}

/// Whether a pattern is already among the chosen suggestions.
pub open spec fn has_pattern(chosen: Seq<(Seq<char>, Seq<char>, Seq<(usize, usize)>)>, p: Seq<char>) -> bool {
    exists|i: int| 0 <= i < chosen.len() && (#[trigger] chosen[i]).0 == p
}

/// The suggestions from the first `n` probes, given for each probe the ranges
/// of its first strategy that matched (`None` when none did): probes that
/// matched, in order, the first of each pattern kept.
pub open spec fn select_spec(
    probes: Seq<(Seq<char>, Seq<char>)>,
    picks: Seq<Option<Seq<(usize, usize)>>>,
    n: nat,
) -> Seq<(Seq<char>, Seq<char>, Seq<(usize, usize)>)>
    decreases n,
{
    if n == 0 {
        seq![]
    } else {
        let prev = select_spec(probes, picks, (n - 1) as nat);
        let k = n - 1;
        match picks[k] {
            Some(rs) => if rs.len() > 0 && !has_pattern(prev, probes[k].0) {
                prev.push((probes[k].0, probes[k].1, rs))
            } else {
                prev
            },
            None => prev,
        }
    }
}

/// Each range is non-empty and within `len`.
pub open spec fn ranges_within(rs: Seq<(usize, usize)>, len: nat) -> bool {
    forall|i: int| 0 <= i < rs.len() ==> (#[trigger] rs[i]).0 < rs[i].1 && rs[i].1 <= len
}

/// The raw match ranges clipped to `len`, empty ones dropped.
pub open spec fn clip_ranges_spec(raw: Seq<(usize, usize)>, len: usize) -> Seq<(usize, usize)>
    decreases raw.len(),
{
    if raw.len() == 0 {
        seq![]
    } else {
        let prev = clip_ranges_spec(raw.drop_last(), len);
        let r = raw.last();
        let s = if r.0 < len { r.0 } else { len };
        let e = if r.1 < len { r.1 } else { len };
        if s < e { prev.push((s, e)) } else { prev }
    }
}

proof fn lemma_clip_within(raw: Seq<(usize, usize)>, len: usize)
    ensures
        ranges_within(clip_ranges_spec(raw, len), len as nat),
    decreases raw.len(),
{
    if raw.len() > 0 {
        lemma_clip_within(raw.drop_last(), len);
    }
}

/// The ranges of `raw` clipped to `len` (the snippet's length), empty ones dropped.
pub fn clip_ranges(raw: &Vec<(usize, usize)>, len: usize) -> (r: Vec<(usize, usize)>)
    ensures
        r@ == clip_ranges_spec(raw@, len),
        ranges_within(r@, len as nat),
{
    let mut out: Vec<(usize, usize)> = Vec::new();
    let mut i: usize = 0;
    while i < raw.len()
        invariant
            i <= raw.len(),
            out@ == clip_ranges_spec(raw@.take(i as int), len),
        decreases raw.len() - i,
    {
        let (s0, e0) = raw[i];
        let s = if s0 < len { s0 } else { len };
        let e = if e0 < len { e0 } else { len };
        assert(raw@.take(i + 1).drop_last() =~= raw@.take(i as int));
        if s < e {
            out.push((s, e));
        }
        i = i + 1;
    }
    assert(raw@.take(raw.len() as int) =~= raw@);
    proof {
        lemma_clip_within(raw@, len);
    }
    out
}

fn contains_pattern(chosen: &Vec<PatternSuggestion>, p: &str) -> (b: bool)
    ensures
        b == has_pattern(suggestions_view(chosen@), p@),
{
    let mut i: usize = 0;
    while i < chosen.len()
        invariant
            i <= chosen.len(),
            forall|j: int| 0 <= j < i ==> (#[trigger] chosen@[j]).pattern@ != p@,
        decreases chosen.len() - i,
    {
        let cv = crate::text::chars_of(chosen[i].pattern.as_str());
        if crate::lang::str_eq(cv.as_slice(), p) {
            assert(suggestions_view(chosen@)[i as int].0 == p@);
            return true;
        }
        i = i + 1;
    }
    assert forall|j: int| 0 <= j < chosen@.len() implies (#[trigger] suggestions_view(chosen@)[j]).0 != p@ by {
        assert(chosen@[j].pattern@ != p@);
    }
    false
}

/// The suggestions given each probe's pick (see `select_spec`).
pub fn select_suggestions(probes: Vec<(String, String)>, picks: Vec<Option<Vec<(usize, usize)>>>)
    -> (r: Vec<PatternSuggestion>)
    requires
        probes.len() == picks.len(),
    ensures
        suggestions_view(r@) == select_spec(pairs_view(probes@), picks_view(picks@), probes.len() as nat),
        forall|i: int| 0 <= i < r.len() ==> (#[trigger] r@[i]).match_count == r@[i].match_ranges.len(),
{
    let mut out: Vec<PatternSuggestion> = Vec::new();
    let mut k: usize = 0;
    while k < probes.len()
        invariant
            k <= probes.len(),
            probes.len() == picks.len(),
            suggestions_view(out@) == select_spec(pairs_view(probes@), picks_view(picks@), k as nat),
            forall|i: int| 0 <= i < out.len() ==> (#[trigger] out@[i]).match_count == out@[i].match_ranges.len(),
        decreases probes.len() - k,
    {
        let ghost prev = out@;
        let ghost pv = pairs_view(probes@);
        let ghost kv = picks_view(picks@);
        assert(pv[k as int] == (probes@[k as int].0@, probes@[k as int].1@));
        assert(select_spec(pv, kv, (k + 1) as nat) == {
            let k1 = k as int;
            match kv[k1] {
                Some(rs) => if rs.len() > 0 && !has_pattern(select_spec(pv, kv, k as nat), pv[k1].0) {
                    select_spec(pv, kv, k as nat).push((pv[k1].0, pv[k1].1, rs))
                } else {
                    select_spec(pv, kv, k as nat)
                },
                None => select_spec(pv, kv, k as nat),
            }
        });
        match &picks[k] {
            Some(rs) => {
                assert(kv[k as int] == Some(rs@));
                if rs.len() > 0 && !contains_pattern(&out, probes[k].0.as_str()) {
                    let mut ranges: Vec<(usize, usize)> = Vec::new();
                    let mut j: usize = 0;
                    while j < rs.len()
                        invariant
                            j <= rs.len(),
                            ranges@ == rs@.take(j as int),
                        decreases rs.len() - j,
                    {
                        ranges.push(rs[j]);
                        assert(ranges@ =~= rs@.take(j + 1));
                        j = j + 1;
                    }
                    assert(rs@.take(rs.len() as int) =~= rs@);
                    let s = PatternSuggestion {
                        pattern: probes[k].0.clone(),
                        description: probes[k].1.clone(),
                        match_count: rs.len(),
                        match_ranges: ranges,
                    };
                    out.push(s);
                    assert(suggestions_view(out@) =~= suggestions_view(prev).push(suggestion_view(s)));
                }
            },
            None => {
                assert(kv[k as int] is None);
            },
        }
        k = k + 1;
    }
    out
}

/// Every suggestion's match ranges lie within the snippet when every pick's do.
pub proof fn lemma_select_within(
    probes: Seq<(Seq<char>, Seq<char>)>,
    picks: Seq<Option<Seq<(usize, usize)>>>,
    n: nat,
    len: nat,
)
    requires
        n <= picks.len(),
        picks_within(picks, len),
    ensures
        forall|i: int| 0 <= i < select_spec(probes, picks, n).len() ==> ranges_within(#[trigger] select_spec(probes, picks, n)[i].2, len),
    decreases n,
{
    if n > 0 {
        let m = (n - 1) as nat;
        lemma_select_within(probes, picks, m, len);
        let prev = select_spec(probes, picks, m);
        let cur = select_spec(probes, picks, n);
        let k = m as int;
        match picks[k] {
            Some(rs) => {
                assert(ranges_within(rs, len));
                if rs.len() > 0 && !has_pattern(prev, probes[k].0) {
                    assert(cur == prev.push((probes[k].0, probes[k].1, rs)));
                    assert forall|i: int| 0 <= i < cur.len() implies ranges_within(#[trigger] cur[i].2, len) by {
                        if i < prev.len() {
                            assert(cur[i] == prev[i]);
                        }
                    }
                } else {
                    assert(cur == prev);
                }
            },
            None => {
                assert(cur == prev);
            },
        }
    }
}

/// The suggestions never offer a pattern twice; each is one of the probes,
/// with its description, and has at least one match range.
pub proof fn lemma_select_distinct(
    probes: Seq<(Seq<char>, Seq<char>)>,
    picks: Seq<Option<Seq<(usize, usize)>>>,
    n: nat,
)
    requires
        n <= probes.len(),
        n <= picks.len(),
    ensures
        forall|i: int, j: int|
            0 <= i < j < select_spec(probes, picks, n).len()
                ==> (#[trigger] select_spec(probes, picks, n)[i]).0 != (#[trigger] select_spec(probes, picks, n)[j]).0,
        forall|i: int| 0 <= i < select_spec(probes, picks, n).len() ==> {
            let s = #[trigger] select_spec(probes, picks, n)[i];
            &&& s.2.len() > 0
            &&& exists|k: int| 0 <= k < n && s.0 == probes[k].0 && s.1 == probes[k].1
        },
    decreases n,
{
    if n > 0 {
        let m = (n - 1) as nat;
        lemma_select_distinct(probes, picks, m);
        let prev = select_spec(probes, picks, m);
        let cur = select_spec(probes, picks, n);
        let k = m as int;
        match picks[k] {
            Some(rs) => {
                if rs.len() > 0 && !has_pattern(prev, probes[k].0) {
                    assert(cur == prev.push((probes[k].0, probes[k].1, rs)));
                    assert forall|i: int, j: int| 0 <= i < j < cur.len() implies (#[trigger] cur[i]).0 != (#[trigger] cur[j]).0 by {
                        if j == prev.len() {
                            assert(cur[i] == prev[i]);
                            if prev[i].0 == probes[k].0 {
                                assert(has_pattern(prev, probes[k].0));
                            }
                        } else {
                            assert(cur[i] == prev[i] && cur[j] == prev[j]);
                        }
                    }
                    assert forall|i: int| 0 <= i < cur.len() implies {
                        let s = #[trigger] cur[i];
                        &&& s.2.len() > 0
                        &&& exists|q: int| 0 <= q < n && s.0 == probes[q].0 && s.1 == probes[q].1
                    } by {
                        if i < prev.len() {
                            assert(cur[i] == prev[i]);
                            let s = prev[i];
                            let q = choose|q: int| 0 <= q < m && s.0 == probes[q].0 && s.1 == probes[q].1;
                            assert(0 <= q < n && s.0 == probes[q].0 && s.1 == probes[q].1);
                        } else {
                            assert(cur[i] == (probes[k].0, probes[k].1, rs));
                        }
                    }
                } else {
                    assert(cur == prev);
                    assert forall|i: int| 0 <= i < cur.len() implies {
                        let s = #[trigger] cur[i];
                        &&& s.2.len() > 0
                        &&& exists|q: int| 0 <= q < n && s.0 == probes[q].0 && s.1 == probes[q].1
                    } by {
                        let s = prev[i];
                        let q = choose|q: int| 0 <= q < m && s.0 == probes[q].0 && s.1 == probes[q].1;
                        assert(0 <= q < n && s.0 == probes[q].0 && s.1 == probes[q].1);
                    }
                }
            },
            None => {
                assert(cur == prev);
                assert forall|i: int| 0 <= i < cur.len() implies {
                    let s = #[trigger] cur[i];
                    &&& s.2.len() > 0
                    &&& exists|q: int| 0 <= q < n && s.0 == probes[q].0 && s.1 == probes[q].1
                } by {
                    let s = prev[i];
                    let q = choose|q: int| 0 <= q < m && s.0 == probes[q].0 && s.1 == probes[q].1;
                    assert(0 <= q < n && s.0 == probes[q].0 && s.1 == probes[q].1);
                }
            },
        }
    }
}

pub open spec fn picks_view(v: Seq<Option<Vec<(usize, usize)>>>) -> Seq<Option<Seq<(usize, usize)>>> {
    v.map_values(|o: Option<Vec<(usize, usize)>>| match o {
        Some(rs) => Some(rs@),
        None => None,
    })
}

/// Whether every pick's ranges are non-empty and within `len`.
pub open spec fn picks_within(picks: Seq<Option<Seq<(usize, usize)>>>, len: nat) -> bool {
    forall|k: int| 0 <= k < picks.len() ==> (#[trigger] picks[k] matches Some(rs) ==> ranges_within(rs, len))
}

fn probe_l(lang: UiLanguage, e: ProbeEntry) -> (r: (String, String))
    ensures
        r.0@ == e.pattern@,
        r.1@ == pick(lang, e.ja@, e.en@),
{
    (e.pattern.to_string(), tr_pair(lang, e.ja, e.en))
}

/// Appends a table's probes, with descriptions in `lang`.
fn push_probes(out: &mut Vec<(String, String)>, lang: UiLanguage, entries: &Vec<ProbeEntry>, Ghost(table): Ghost<Seq<(Seq<char>, Seq<char>, Seq<char>)>>)
    requires
        entries_match(entries@, table),
    ensures
        pairs_view(final(out)@) == pairs_view(old(out)@) + probe_pairs(lang, table),
{
    let ghost start = out@;
    let mut i: usize = 0;
    while i < entries.len()
        invariant
            i <= entries.len(),
            entries_match(entries@, table),
            pairs_view(out@) == pairs_view(start) + probe_pairs(lang, table.take(i as int)),
        decreases entries.len() - i,
    {
        let ghost before = out@;
        let p = probe_l(lang, entries[i]);
        out.push(p);
        assert(entries@[i as int].pattern@ == table[i as int].0);
        assert(probe_pairs(lang, table.take(i + 1)) =~= probe_pairs(lang, table.take(i as int)).push((table[i as int].0, pick(lang, table[i as int].1, table[i as int].2))));
        assert(pairs_view(out@) =~= pairs_view(before).push((p.0@, p.1@)));
        i = i + 1;
    }
    assert(table.take(entries.len() as int) =~= table);
}

proof fn lemma_probe_pairs_add(ui: UiLanguage, a: Seq<(Seq<char>, Seq<char>, Seq<char>)>, b: Seq<(Seq<char>, Seq<char>, Seq<char>)>)
    ensures
        probe_pairs(ui, a + b) == probe_pairs(ui, a) + probe_pairs(ui, b),
{
    assert(probe_pairs(ui, a + b) =~= probe_pairs(ui, a) + probe_pairs(ui, b));
}

fn probes_of(lang: UiLanguage, entries: &Vec<ProbeEntry>, Ghost(table): Ghost<Seq<(Seq<char>, Seq<char>, Seq<char>)>>) -> (r: Vec<(String, String)>)
    requires
        entries_match(entries@, table),
    ensures
        pairs_view(r@) == probe_pairs(lang, table),
{
    let mut v: Vec<(String, String)> = Vec::new();
    push_probes(&mut v, lang, entries, Ghost(table));
    assert(pairs_view(Seq::<(String, String)>::empty()) + probe_pairs(lang, table) =~= probe_pairs(lang, table));
    v
}

fn rust_probes(lang: UiLanguage) -> (r: Vec<(String, String)>)
    ensures
        pairs_view(r@) == probe_pairs(lang, rust_probe_table()),
{
    probes_of(lang, &rust_probe_entries(), Ghost(rust_probe_table()))
}

fn java_probes(lang: UiLanguage) -> (r: Vec<(String, String)>)
    ensures
        pairs_view(r@) == probe_pairs(lang, java_probe_table()),
{
    probes_of(lang, &java_probe_entries(), Ghost(java_probe_table()))
}

fn python_probes(lang: UiLanguage) -> (r: Vec<(String, String)>)
    ensures
        pairs_view(r@) == probe_pairs(lang, python_probe_table()),
{
    probes_of(lang, &python_probe_entries(), Ghost(python_probe_table()))
}

fn js_probes(lang: UiLanguage) -> (r: Vec<(String, String)>)
    ensures
        pairs_view(r@) == probe_pairs(lang, js_probe_table()),
{
    probes_of(lang, &js_probe_entries(), Ghost(js_probe_table()))
}

/// JavaScript's probes followed by TypeScript's own.
fn ts_probes(lang: UiLanguage) -> (r: Vec<(String, String)>)
    ensures
        pairs_view(r@) == probe_pairs(lang, js_probe_table() + ts_probe_table()),
{
    let mut probes = js_probes(lang);
    push_probes(&mut probes, lang, &ts_probe_entries(), Ghost(ts_probe_table()));
    proof {
        lemma_probe_pairs_add(lang, js_probe_table(), ts_probe_table());
    }
    probes
}

fn go_probes(lang: UiLanguage) -> (r: Vec<(String, String)>)
    ensures
        pairs_view(r@) == probe_pairs(lang, go_probe_table()),
{
    probes_of(lang, &go_probe_entries(), Ghost(go_probe_table()))
}

fn c_probes(lang: UiLanguage) -> (r: Vec<(String, String)>)
    ensures
        pairs_view(r@) == probe_pairs(lang, c_probe_table()),
{
    probes_of(lang, &c_probe_entries(), Ghost(c_probe_table()))
}

/// C's probes followed by those of C++ itself.
fn cpp_probes(lang: UiLanguage) -> (r: Vec<(String, String)>)
    ensures
        pairs_view(r@) == probe_pairs(lang, c_probe_table() + cpp_probe_table()),
{
    let mut probes = c_probes(lang);
    push_probes(&mut probes, lang, &cpp_probe_entries(), Ghost(cpp_probe_table()));
    proof {
        lemma_probe_pairs_add(lang, c_probe_table(), cpp_probe_table());
    }
    probes
}

fn csharp_probes(lang: UiLanguage) -> (r: Vec<(String, String)>)
    ensures
        pairs_view(r@) == probe_pairs(lang, csharp_probe_table()),
{
    probes_of(lang, &csharp_probe_entries(), Ghost(csharp_probe_table()))
}

fn kotlin_probes(lang: UiLanguage) -> (r: Vec<(String, String)>)
    ensures
        pairs_view(r@) == probe_pairs(lang, kotlin_probe_table()),
{
    probes_of(lang, &kotlin_probe_entries(), Ghost(kotlin_probe_table()))
}

fn scala_probes(lang: UiLanguage) -> (r: Vec<(String, String)>)
    ensures
        pairs_view(r@) == probe_pairs(lang, scala_probe_table()),
{
    probes_of(lang, &scala_probe_entries(), Ghost(scala_probe_table()))
}

fn generic_probes(lang: UiLanguage) -> (r: Vec<(String, String)>)
    ensures
        pairs_view(r@) == probe_pairs(lang, generic_probe_table()),
{
    probes_of(lang, &generic_probe_entries(), Ghost(generic_probe_table()))
}

fn append_pairs(out: &mut Vec<(String, String)>, more: Vec<(String, String)>)
    ensures
        pairs_view(final(out)@) == pairs_view(old(out)@) + pairs_view(more@),
{
    let ghost start = out@;
    let mut i: usize = 0;
    while i < more.len()
        invariant
            i <= more.len(),
            pairs_view(out@) == pairs_view(start) + pairs_view(more@.take(i as int)),
        decreases more.len() - i,
    {
        let ghost before = out@;
        let p = (more[i].0.clone(), more[i].1.clone());
        out.push(p);
        assert(pairs_view(more@.take(i + 1)) =~= pairs_view(more@.take(i as int)).push((more@[i as int].0@, more@[i as int].1@)));
        assert(pairs_view(out@) =~= pairs_view(before).push((p.0@, p.1@)));
        i = i + 1;
    }
    assert(more@.take(more.len() as int) =~= more@);
}

/// The probes for a snippet: the snippet itself (an exact match) first,
/// then the language's probes, then the generic ones.
pub fn build_probes(snippet: &str, lang: SupportedLanguage, ui_lang: UiLanguage) -> (r: Vec<(String, String)>)
    ensures
        pairs_view(r@) == build_probes_spec(snippet@, lang, ui_lang),
{
    let mut probes: Vec<(String, String)> = Vec::new();
    let first = (snippet.to_string(), tr_pair(ui_lang, "完全一致", "Exact match"));
    probes.push(first);
    assert(pairs_view(probes@) =~= seq![(snippet@, pick(ui_lang, "完全一致"@, "Exact match"@))]);
    let lang_probes = match lang {
        SupportedLanguage::Auto => generic_probes(ui_lang),
        SupportedLanguage::Rust => rust_probes(ui_lang),
        SupportedLanguage::Java => java_probes(ui_lang),
        SupportedLanguage::Python => python_probes(ui_lang),
        SupportedLanguage::JavaScript => js_probes(ui_lang),
        SupportedLanguage::TypeScript => ts_probes(ui_lang),
        SupportedLanguage::Go => go_probes(ui_lang),
        SupportedLanguage::C => c_probes(ui_lang),
        SupportedLanguage::Cpp => cpp_probes(ui_lang),
        SupportedLanguage::CSharp => csharp_probes(ui_lang),
        SupportedLanguage::Kotlin => kotlin_probes(ui_lang),
        SupportedLanguage::Scala => scala_probes(ui_lang),
    };
    append_pairs(&mut probes, lang_probes);
    append_pairs(&mut probes, generic_probes(ui_lang));
    probes
}

/// The first non-empty clipping, among the compiled patterns from index `i`
/// on, of the node ranges that `Node::find_all` gives in `snippet`.
pub open spec fn first_clip_keys(snippet: Seq<char>, keys: Seq<PatternKey>, len: usize, i: int) -> Option<Seq<(usize, usize)>>
    decreases keys.len() - i,
{
    if i < 0 || i >= keys.len() {
        None
    } else {
        let c = clip_ranges_spec(node_spans(ast_match_ranges(snippet, keys[i].lang, keys[i].context, keys[i].selector, keys[i].strict)), len);
        if c.len() > 0 { Some(c) } else { first_clip_keys(snippet, keys, len, i + 1) }
    }
}

/// What a probe pattern finds in a snippet: the clipped ranges of its first
/// compile strategy that finds any (`None` when none does).
pub open spec fn probe_pick(snippet: Seq<char>, pat: Seq<char>, lang: SupportedLanguage, name: Seq<char>) -> Option<Seq<(usize, usize)>> {
    first_clip_keys(snippet, strategy_keys(pat, lang, name), vstd::utf8::encode_utf8(snippet).len() as usize, 0)
}

/// The ranges of the first strategy of `pat` that has a non-empty clipped
/// match in `snippet` (`None` when no strategy does).
fn first_matching_ranges(snippet: &str, pat: &str, lang: SupportedLanguage, ast_lang: &AstLang)
    -> (r: Option<Vec<(usize, usize)>>)
    ensures
        r matches Some(rs) ==> rs@.len() > 0 && ranges_within(rs@, snippet.spec_bytes().len()),
        match r {
            Some(rs) => probe_pick(snippet@, pat@, lang, ast_lang.name_view()) == Some(rs@),
            None => probe_pick(snippet@, pat@, lang, ast_lang.name_view()) is None,
        },
{
    let ghost keys = strategy_keys(pat@, lang, ast_lang.name_view());
    let slen = snippet.as_bytes().len();
    let ghost len = slen;
    let compiled_patterns = compile_strategies(pat, lang, ast_lang);
    let mut i: usize = 0;
    while i < compiled_patterns.len()
        invariant
            i <= compiled_patterns.len(),
            crate::ast_pattern::keys_of(compiled_patterns@) == keys,
            len == snippet.spec_bytes().len() as usize,
            len == snippet.spec_bytes().len(),
            slen == len,
            first_clip_keys(snippet@, keys, len, i as int) == probe_pick(snippet@, pat@, lang, ast_lang.name_view()),
        decreases compiled_patterns.len() - i,
    {
        let found = match_ranges(snippet, &compiled_patterns[i]);
        let ghost k = keys[i as int];
        assert(compiled_patterns@[i as int].key() == k);
        let mut raw: Vec<(usize, usize)> = Vec::new();
        let mut j: usize = 0;
        while j < found.len()
            invariant
                j <= found.len(),
                raw@.len() == j,
                forall|q: int| 0 <= q < j ==> #[trigger] raw@[q] == (found@[q].0, found@[q].1),
            decreases found.len() - j,
        {
            raw.push((found[j].0, found[j].1));
            j = j + 1;
        }
        proof {
            let f = ast_match_ranges(snippet@, k.lang, k.context, k.selector, k.strict);
            assert(crate::ast_pattern::ranges_view(found@) == f);
            assert(raw@ =~= node_spans(f));
        }
        let ranges = clip_ranges(&raw, slen);
        if ranges.len() > 0 {
            return Some(ranges);
        }
        i = i + 1;
    }
    None
}

/// The language a snippet is parsed in: Rust for `Auto`.
pub open spec fn parse_lang(lang: SupportedLanguage) -> SupportedLanguage {
    if lang == SupportedLanguage::Auto { SupportedLanguage::Rust } else { lang }
}

/// What each probe finds in the trimmed snippet, parsed in `parse_lang`.
pub open spec fn picks_for(snippet: Seq<char>, lang: SupportedLanguage, ui_lang: UiLanguage) -> Seq<Option<Seq<(usize, usize)>>> {
    let t = trim(snippet);
    let probes = build_probes_spec(t, lang, ui_lang);
    let name = cli_name_spec(parse_lang(lang))->0;
    Seq::new(probes.len(), |k: int| probe_pick(t, probes[k].0, lang, name))
}

/// The probe patterns that match the snippet, each once, in probe order.
///
/// An `Auto` language parses the snippet as Rust and offers the generic probes.
pub fn generate_patterns(snippet: &str, lang: SupportedLanguage, ui_lang: UiLanguage) -> (r: Vec<PatternSuggestion>)
    ensures
        trim(snippet@).len() == 0 ==> r@.len() == 0,
        trim(snippet@).len() > 0 ==> suggestions_view(r@) == select_spec(
            build_probes_spec(trim(snippet@), lang, ui_lang),
            picks_for(snippet@, lang, ui_lang),
            build_probes_spec(trim(snippet@), lang, ui_lang).len(),
        ),
        forall|i: int| 0 <= i < r.len() ==> (#[trigger] r@[i]).match_count == r@[i].match_ranges.len(),
        forall|i: int| 0 <= i < r.len() ==> (#[trigger] r@[i]).match_count >= 1
            && ranges_within(r@[i].match_ranges@, vstd::utf8::encode_utf8(trim(snippet@)).len()),
        forall|i: int, j: int| 0 <= i < j < r.len() ==> (#[trigger] r@[i]).pattern@ != (#[trigger] r@[j]).pattern@,
{
    let trimmed = trim_string(snippet);
    if trimmed.as_str().is_empty() {
        return Vec::new();
    }
    let lang_for_parse = match lang {
        SupportedLanguage::Auto => SupportedLanguage::Rust,
        x => x,
    };
    let ast_lang = match lang_for_parse.ast_lang() {
        Some(l) => l,
        None => return Vec::new(),
    };
    let s = trimmed.as_str();
    let probes = build_probes(s, lang, ui_lang);
    let ghost len = s.spec_bytes().len();
    let ghost want = picks_for(snippet@, lang, ui_lang);
    assert(cli_name_spec(parse_lang(lang)) == Some(ast_lang.name_view()));
    let mut picks: Vec<Option<Vec<(usize, usize)>>> = Vec::new();
    let mut k: usize = 0;
    while k < probes.len()
        invariant
            k <= probes.len(),
            picks.len() == k,
            s.spec_bytes().len() == len,
            s@ == trim(snippet@),
            pairs_view(probes@) == build_probes_spec(s@, lang, ui_lang),
            cli_name_spec(parse_lang(lang)) == Some(ast_lang.name_view()),
            want == picks_for(snippet@, lang, ui_lang),
            want.len() == probes@.len(),
            picks_within(picks_view(picks@), len),
            forall|q: int| 0 <= q < k ==> #[trigger] picks_view(picks@)[q] == want[q],
        decreases probes.len() - k,
    {
        let ghost before = picks@;
        let p = first_matching_ranges(s, probes[k].0.as_str(), lang, &ast_lang);
        assert(pairs_view(probes@)[k as int].0 == probes@[k as int].0@);
        picks.push(p);
        assert(picks_view(picks@) =~= picks_view(before).push(match p { Some(rs) => Some(rs@), None => None }));
        k = k + 1;
    }
    proof {
        assert(pairs_view(probes@).len() == probes@.len());
        assert(picks_view(picks@) =~= want);
    }
    let ghost pv = pairs_view(probes@);
    let ghost kv = picks_view(picks@);
    let r = select_suggestions(probes, picks);
    proof {
        let n = pv.len();
        lemma_select_within(pv, kv, n, len);
        lemma_select_distinct(pv, kv, n);
        let sel = select_spec(pv, kv, n);
        assert forall|i: int| 0 <= i < r.len() implies (#[trigger] r@[i]).match_count >= 1
            && ranges_within(r@[i].match_ranges@, vstd::utf8::encode_utf8(trim(snippet@)).len()) by {
            assert(suggestions_view(r@)[i] == sel[i]);
        }
        assert forall|i: int, j: int| 0 <= i < j < r.len() implies (#[trigger] r@[i]).pattern@ != (#[trigger] r@[j]).pattern@ by {
            assert(suggestions_view(r@)[i] == sel[i]);
            assert(suggestions_view(r@)[j] == sel[j]);
        }
    }
    r
}

/// The rust probes of its own: pattern, Japanese and English description.
pub open spec fn rust_probe_table() -> Seq<(Seq<char>, Seq<char>, Seq<char>)> {
    seq![
        ("fn $NAME($$$ARGS)"@, "関数シグネチャ（名前と引数）"@, "Function signature (name and args)"@),
        ("fn $NAME($$$ARGS) { $$$BODY }"@, "関数定義（戻り値なし）"@, "Function (no return type)"@),
        ("fn $NAME($$$ARGS) -> $RET { $$$BODY }"@, "関数定義（戻り値あり）"@, "Function (with return type)"@),
        ("pub fn $NAME($$$ARGS)"@, "pub関数シグネチャ"@, "pub fn signature"@),
        ("pub fn $NAME($$$ARGS) { $$$BODY }"@, "pub関数定義"@, "pub fn definition"@),
        ("pub fn $NAME($$$ARGS) -> $RET { $$$BODY }"@, "pub関数定義（戻り値あり）"@, "pub fn with return"@),
        ("async fn $NAME($$$ARGS) { $$$BODY }"@, "async関数定義"@, "async fn"@),
        ("async fn $NAME($$$ARGS) -> $RET { $$$BODY }"@, "async関数定義（戻り値あり）"@, "async fn with return"@),
        ("impl $TYPE { $$$BODY }"@, "impl ブロック"@, "impl block"@),
        ("impl $TRAIT for $TYPE { $$$BODY }"@, "トレイト実装"@, "trait impl"@),
        ("trait $NAME { $$$BODY }"@, "trait定義"@, "trait definition"@),
        ("struct $NAME { $$$FIELDS }"@, "構造体定義"@, "struct definition"@),
        ("struct $NAME($$$FIELDS);"@, "タプル構造体定義"@, "tuple struct"@),
        ("enum $NAME { $$$VARIANTS }"@, "enum定義"@, "enum definition"@),
        ("type $NAME = $TYPE"@, "typeエイリアス"@, "type alias"@),
        ("$FUNC($$$ARGS)"@, "関数呼び出し"@, "function call"@),
        ("$RECV.$METHOD($$$ARGS)"@, "メソッド呼び出し"@, "method call"@),
        ("$MACRO!($$$ARGS)"@, "マクロ呼び出し"@, "macro invocation"@),
        ("let $VAR = $EXPR"@, "let バインディング"@, "let binding"@),
        ("let mut $VAR = $EXPR"@, "let mut バインディング"@, "let mut binding"@),
        ("let $VAR: $TYPE = $EXPR"@, "型アノテーション付き let"@, "let with type annotation"@),
        ("$VAR = $EXPR"@, "再代入"@, "assignment"@),
        ("$VAR += $EXPR"@, "複合代入（+=）"@, "compound assignment (+=)"@),
        ("$VAR -= $EXPR"@, "複合代入（-=）"@, "compound assignment (-=)"@),
        ("$VAR *= $EXPR"@, "複合代入（*=）"@, "compound assignment (*=)"@),
        ("$VAR /= $EXPR"@, "複合代入（/=）"@, "compound assignment (/=)"@),
        ("$VAR %= $EXPR"@, "複合代入（%=）"@, "compound assignment (%=)"@),
        ("$OBJ.$FIELD = $EXPR"@, "フィールド代入"@, "field assignment"@),
        ("self.$FIELD = $EXPR"@, "self フィールド代入"@, "self field assignment"@),
        ("if $COND { $$$BODY }"@, "if 式"@, "if expression"@),
        ("if $COND { $$$THEN } else { $$$ELSE }"@, "if-else 式"@, "if-else"@),
        ("match $EXPR { $$$ARMS }"@, "match 式"@, "match"@),
        ("for $PAT in $ITER { $$$BODY }"@, "for ループ"@, "for loop"@),
        ("while $COND { $$$BODY }"@, "while ループ"@, "while loop"@),
        ("loop { $$$BODY }"@, "loop"@, "loop"@),
        ("return $EXPR"@, "return文"@, "return"@),
        ("break"@, "break"@, "break"@),
        ("continue"@, "continue"@, "continue"@),
        ("$EXPR?"@, "? 演算子（エラー伝播）"@, "? operator"@),
        ("$VAR.unwrap()"@, "unwrap()"@, "unwrap()"@),
        ("$VAR.expect($MSG)"@, "expect()"@, "expect()"@),
        ("$VAR.clone()"@, "clone()"@, "clone()"@),
        ("$VAR.to_string()"@, "to_string()"@, "to_string()"@),
        ("$VAR.into()"@, "into()"@, "into()"@),
        ("$A == $B"@, "等値比較"@, "equality"@),
        ("$A != $B"@, "非等値比較"@, "inequality"@),
        ("$A && $B"@, "論理AND"@, "logical AND"@),
        ("$A || $B"@, "論理OR"@, "logical OR"@),
        ("|$$$ARGS| $BODY"@, "クロージャ"@, "closure"@),
        ("|$$$ARGS| { $$$BODY }"@, "クロージャ（ブロック）"@, "closure (block)"@),
        ("use $PATH"@, "use 宣言"@, "use declaration"@),
        ("$EXPR.await"@, ".await"@, ".await"@),
    ]
}

/// The java probes of its own: pattern, Japanese and English description.
pub open spec fn java_probe_table() -> Seq<(Seq<char>, Seq<char>, Seq<char>)> {
    seq![
        ("$RET $NAME($$$ARGS) { $$$BODY }"@, "メソッド定義"@, "method definition"@),
        ("public $RET $NAME($$$ARGS) { $$$BODY }"@, "public メソッド定義"@, "public method definition"@),
        ("class $NAME { $$$BODY }"@, "クラス定義"@, "class definition"@),
        ("class $NAME extends $PARENT { $$$BODY }"@, "継承クラス定義"@, "class extends"@),
        ("interface $NAME { $$$BODY }"@, "インターフェース定義"@, "interface"@),
        ("enum $NAME { $$$BODY }"@, "enum定義"@, "enum"@),
        ("@$ANNOTATION"@, "アノテーション"@, "annotation"@),
        ("$TYPE $VAR = $EXPR"@, "変数宣言"@, "variable declaration"@),
        ("$VAR = $EXPR;"@, "代入文"@, "assignment statement"@),
        ("$VAR += $EXPR;"@, "複合代入（+=）"@, "compound assignment (+=)"@),
        ("$TYPE $NAME($$$ARGS)"@, "メソッドシグネチャ"@, "method signature"@),
        ("$RECV.$METHOD($$$ARGS)"@, "メソッド呼び出し"@, "method call"@),
        ("new $TYPE($$$ARGS)"@, "コンストラクタ呼び出し"@, "constructor call"@),
        ("if ($COND) { $$$BODY }"@, "if 文"@, "if statement"@),
        ("if ($COND) { $$$THEN } else { $$$ELSE }"@, "if-else 文"@, "if-else"@),
        ("for ($INIT; $COND; $UPDATE) { $$$BODY }"@, "for ループ"@, "for loop"@),
        ("for ($VAR : $ITER) { $$$BODY }"@, "拡張 for ループ"@, "enhanced for"@),
        ("while ($COND) { $$$BODY }"@, "while ループ"@, "while loop"@),
        ("switch ($EXPR) { $$$BODY }"@, "switch 文"@, "switch"@),
        ("try { $$$BODY } catch ($EX) { $$$CATCH }"@, "try-catch"@, "try-catch"@),
        ("try { $$$BODY } finally { $$$FINALLY }"@, "try-finally"@, "try-finally"@),
        ("return $EXPR;"@, "return文"@, "return"@),
        ("throw new $TYPE($$$ARGS)"@, "例外スロー"@, "throw"@),
        ("$VAR == null"@, "null チェック"@, "null check"@),
        ("$VAR != null"@, "null 非チェック"@, "not-null check"@),
        ("System.out.println($$$ARGS)"@, "System.out.println"@, "System.out.println"@),
    ]
}

/// The python probes of its own: pattern, Japanese and English description.
pub open spec fn python_probe_table() -> Seq<(Seq<char>, Seq<char>, Seq<char>)> {
    seq![
        ("def $NAME($$$ARGS): ..."@, "関数定義"@, "function def"@),
        ("def $NAME($$$ARGS):\n    $$$BODY"@, "関数定義（本体あり）"@, "function with body"@),
        ("async def $NAME($$$ARGS): ..."@, "async 関数定義"@, "async def"@),
        ("class $NAME: ..."@, "クラス定義"@, "class"@),
        ("class $NAME($PARENT): ..."@, "継承クラス定義"@, "class inheritance"@),
        ("$FUNC($$$ARGS)"@, "関数呼び出し"@, "function call"@),
        ("$RECV.$METHOD($$$ARGS)"@, "メソッド呼び出し"@, "method call"@),
        ("if $COND: ..."@, "if 文"@, "if"@),
        ("if $COND:\n    $$$THEN\nelse:\n    $$$ELSE"@, "if-else 文"@, "if-else"@),
        ("for $VAR in $ITER: ..."@, "for ループ"@, "for loop"@),
        ("while $COND: ..."@, "while ループ"@, "while loop"@),
        ("with $EXPR as $VAR: ..."@, "with 文"@, "with statement"@),
        ("lambda $$$ARGS: $BODY"@, "lambda"@, "lambda"@),
        ("import $MODULE"@, "import 文"@, "import"@),
        ("from $MODULE import $NAME"@, "from import 文"@, "from import"@),
        ("print($$$ARGS)"@, "print 呼び出し"@, "print()"@),
        ("$VAR = $EXPR"@, "代入"@, "assignment"@),
        ("$VAR += $EXPR"@, "複合代入（+=）"@, "compound assignment (+=)"@),
        ("$VAR -= $EXPR"@, "複合代入（-=）"@, "compound assignment (-=)"@),
        ("$VAR *= $EXPR"@, "複合代入（*=）"@, "compound assignment (*=)"@),
        ("return $EXPR"@, "return文"@, "return"@),
        ("raise $EXPR"@, "例外送出"@, "raise"@),
        ("try: ...\nexcept $EX: ..."@, "try-except"@, "try-except"@),
        ("try: ...\nfinally: ..."@, "try-finally"@, "try-finally"@),
        ("$A == $B"@, "等値比較"@, "equality"@),
        ("$A != $B"@, "非等値比較"@, "inequality"@),
    ]
}

/// The js probes of its own: pattern, Japanese and English description.
pub open spec fn js_probe_table() -> Seq<(Seq<char>, Seq<char>, Seq<char>)> {
    seq![
        ("function $NAME($$$ARGS) { $$$BODY }"@, "function 宣言"@, "function declaration"@),
        ("const $NAME = function($$$ARGS) { $$$BODY }"@, "function 式"@, "function expression"@),
        ("const $NAME = ($$$ARGS) => $BODY"@, "アロー関数（式）"@, "arrow function (expr)"@),
        ("const $NAME = ($$$ARGS) => { $$$BODY }"@, "アロー関数（ブロック）"@, "arrow function (block)"@),
        ("async function $NAME($$$ARGS) { $$$BODY }"@, "async function 宣言"@, "async function"@),
        ("class $NAME { $$$BODY }"@, "class 宣言"@, "class"@),
        ("class $NAME extends $PARENT { $$$BODY }"@, "継承 class 宣言"@, "class extends"@),
        ("$FUNC($$$ARGS)"@, "関数呼び出し"@, "function call"@),
        ("$RECV.$METHOD($$$ARGS)"@, "メソッド呼び出し"@, "method call"@),
        ("await $EXPR"@, "await 式"@, "await"@),
        ("if ($COND) { $$$BODY }"@, "if 文"@, "if"@),
        ("if ($COND) { $$$THEN } else { $$$ELSE }"@, "if-else 文"@, "if-else"@),
        ("for (let $VAR = $INIT; $COND; $UPDATE) { $$$BODY }"@, "for ループ"@, "for loop"@),
        ("for (const $VAR of $ITER) { $$$BODY }"@, "for...of ループ"@, "for...of"@),
        ("for (const $KEY in $OBJ) { $$$BODY }"@, "for...in ループ"@, "for...in"@),
        ("while ($COND) { $$$BODY }"@, "while ループ"@, "while loop"@),
        ("try { $$$BODY } catch ($ERR) { $$$CATCH }"@, "try-catch"@, "try-catch"@),
        ("return $EXPR"@, "return文"@, "return"@),
        ("console.log($$$ARGS)"@, "console.log"@, "console.log"@),
        ("const $VAR = $EXPR"@, "const 宣言"@, "const"@),
        ("let $VAR = $EXPR"@, "let 宣言"@, "let"@),
        ("var $VAR = $EXPR"@, "var 宣言"@, "var"@),
        ("$VAR = $EXPR"@, "代入"@, "assignment"@),
        ("$VAR += $EXPR"@, "複合代入（+=）"@, "compound assignment (+=)"@),
        ("$EXPR ?? $DEFAULT"@, "Nullish Coalescing"@, "nullish coalescing"@),
        ("$OBJ?.$PROP"@, "Optional Chaining"@, "optional chaining"@),
        ("throw new $TYPE($$$ARGS)"@, "例外スロー"@, "throw"@),
        ("$PROMISE.then($$$ARGS)"@, ".then() チェーン"@, ".then()"@),
        ("import $NAME from $MODULE"@, "default import"@, "default import"@),
        ("import { $$$NAMES } from $MODULE"@, "named import"@, "named import"@),
        ("export default $EXPR"@, "default export"@, "default export"@),
    ]
}

/// The ts probes of its own: pattern, Japanese and English description.
pub open spec fn ts_probe_table() -> Seq<(Seq<char>, Seq<char>, Seq<char>)> {
    seq![
        ("interface $NAME { $$$BODY }"@, "interface 宣言"@, "interface"@),
        ("type $NAME = $TYPE"@, "type alias"@, "type alias"@),
        ("enum $NAME { $$$BODY }"@, "enum 宣言"@, "enum"@),
        ("function $NAME($$$ARGS): $RET { $$$BODY }"@, "戻り値型付き function"@, "function with return type"@),
        ("const $NAME = ($$$ARGS): $RET => $BODY"@, "型付きアロー関数"@, "typed arrow"@),
        ("const $VAR: $TYPE = $EXPR"@, "型注釈付き const"@, "const with type"@),
        ("let $VAR: $TYPE = $EXPR"@, "型注釈付き let"@, "let with type"@),
        ("$EXPR as $TYPE"@, "型アサーション"@, "type assertion"@),
    ]
}

/// The go probes of its own: pattern, Japanese and English description.
pub open spec fn go_probe_table() -> Seq<(Seq<char>, Seq<char>, Seq<char>)> {
    seq![
        ("func $NAME($$$ARGS) { $$$BODY }"@, "関数定義"@, "function"@),
        ("func $NAME($$$ARGS) $RET { $$$BODY }"@, "関数定義（戻り値あり）"@, "function with return"@),
        ("func ($RECV $TYPE) $NAME($$$ARGS) { $$$BODY }"@, "メソッド定義"@, "method"@),
        ("type $NAME struct { $$$FIELDS }"@, "構造体定義"@, "struct"@),
        ("type $NAME interface { $$$METHODS }"@, "インターフェース定義"@, "interface"@),
        ("$RECV.$METHOD($$$ARGS)"@, "メソッド呼び出し"@, "method call"@),
        ("$FUNC($$$ARGS)"@, "関数呼び出し"@, "function call"@),
        ("if $COND { $$$BODY }"@, "if 文"@, "if"@),
        ("if err != nil { $$$BODY }"@, "エラーチェック"@, "error check"@),
        ("if $EXPR; $COND { $$$BODY }"@, "初期化付き if"@, "if with init"@),
        ("for $COND { $$$BODY }"@, "for ループ"@, "for"@),
        ("for $KEY, $VAL := range $ITER { $$$BODY }"@, "range ループ"@, "range (key,val)"@),
        ("for $VAL := range $ITER { $$$BODY }"@, "range ループ（単値）"@, "range (val)"@),
        ("switch $EXPR { $$$BODY }"@, "switch 文"@, "switch"@),
        ("return $EXPR"@, "return文"@, "return"@),
        ("go $FUNC($$$ARGS)"@, "goroutine 起動"@, "go statement"@),
        ("$VAR, err := $EXPR"@, "エラー返却代入"@, "error return assign"@),
        ("$VAR := $EXPR"@, "短縮変数宣言"@, "short var decl"@),
        ("$VAR = $EXPR"@, "代入"@, "assignment"@),
        ("$VAR += $EXPR"@, "複合代入（+=）"@, "compound assignment (+=)"@),
        ("defer $FUNC($$$ARGS)"@, "defer"@, "defer"@),
    ]
}

/// The c probes of its own: pattern, Japanese and English description.
pub open spec fn c_probe_table() -> Seq<(Seq<char>, Seq<char>, Seq<char>)> {
    seq![
        ("$RET $NAME($$$ARGS) { $$$BODY }"@, "関数定義"@, "function"@),
        ("$TYPE $VAR = $EXPR;"@, "変数定義"@, "variable def"@),
        ("$VAR = $EXPR;"@, "代入"@, "assignment"@),
        ("$VAR += $EXPR;"@, "複合代入（+=）"@, "compound assignment (+=)"@),
        ("$FUNC($$$ARGS)"@, "関数呼び出し"@, "function call"@),
        ("if ($COND) { $$$BODY }"@, "if 文"@, "if"@),
        ("if ($COND) { $$$THEN } else { $$$ELSE }"@, "if-else 文"@, "if-else"@),
        ("for ($INIT; $COND; $UPDATE) { $$$BODY }"@, "for ループ"@, "for loop"@),
        ("while ($COND) { $$$BODY }"@, "while ループ"@, "while loop"@),
        ("switch ($EXPR) { $$$BODY }"@, "switch 文"@, "switch"@),
        ("return $EXPR;"@, "return文"@, "return"@),
        ("$PTR == NULL"@, "NULL チェック"@, "NULL check"@),
        ("$PTR != NULL"@, "NULL 非チェック"@, "not NULL check"@),
        ("#include $HEADER"@, "include"@, "#include"@),
        ("#ifdef $MACRO\n$$$THEN\n#else\n$$$ELSE\n#endif"@, "#ifdef … #else … #endif"@, "#ifdef … #else … #endif"@),
        ("#ifndef $MACRO\n$$$THEN\n#else\n$$$ELSE\n#endif"@, "#ifndef … #else … #endif"@, "#ifndef … #else … #endif"@),
        ("#ifdef $MACRO\n$$$BODY\n#endif"@, "#ifdef … #endif（分岐全体。真・偽の両方の行を $$$BODY がまとめてマッチ）"@, "#ifdef … #endif (whole block; both branches match as $$$BODY)"@),
        ("#ifndef $MACRO\n$$$BODY\n#endif"@, "#ifndef … #endif（分岐全体）"@, "#ifndef … #endif (whole block)"@),
        ("#if $COND\n$$$THEN\n#else\n$$$ELSE\n#endif"@, "#if … #else … #endif"@, "#if … #else … #endif"@),
        ("$TYPE *$VAR"@, "ポインタ宣言"@, "pointer decl"@),
        ("$TYPE $NAME[$SIZE]"@, "配列宣言"@, "array decl"@),
    ]
}

/// The cpp probes of its own: pattern, Japanese and English description.
pub open spec fn cpp_probe_table() -> Seq<(Seq<char>, Seq<char>, Seq<char>)> {
    seq![
        ("class $NAME { $$$BODY }"@, "class 定義"@, "class"@),
        ("struct $NAME { $$$BODY }"@, "struct 定義"@, "struct"@),
        ("namespace $NAME { $$$BODY }"@, "namespace"@, "namespace"@),
        ("template <$$$ARGS> $DECL"@, "template 宣言"@, "template"@),
        ("$RET $NAME($$$ARGS) const { $$$BODY }"@, "const メンバ関数"@, "const member fn"@),
        ("$CLASS::$METHOD($$$ARGS)"@, "スコープ解決付き呼び出し"@, "scope-qualified call"@),
        ("$CLASS::$METHOD()"@, "スコープ解決付き呼び出し（0引数）"@, "scope-qualified call (0 args)"@),
        ("$CLASS::$METHOD($ARG)"@, "スコープ解決付き呼び出し（1引数）"@, "scope-qualified call (1 arg)"@),
        ("$CLASS::$METHOD($ARG1, $ARG2)"@, "スコープ解決付き呼び出し（2引数）"@, "scope-qualified call (2 args)"@),
        ("$CLASS::$METHOD($ARG1, $ARG2, $ARG3)"@, "スコープ解決付き呼び出し（3引数）"@, "scope-qualified call (3 args)"@),
        ("for ($TYPE $VAR : $ITER) { $$$BODY }"@, "range-based for"@, "range-for"@),
        ("try { $$$BODY } catch ($EX) { $$$CATCH }"@, "try-catch"@, "try-catch"@),
        ("throw $EXPR;"@, "throw"@, "throw"@),
        ("std::cout << $EXPR"@, "std::cout"@, "std::cout"@),
        ("auto $VAR = $EXPR;"@, "auto 変数宣言"@, "auto"@),
        ("$VAR -= $EXPR;"@, "複合代入（-=）"@, "compound assignment (-=)"@),
        ("$VAR *= $EXPR;"@, "複合代入（*=）"@, "compound assignment (*=)"@),
        ("$VAR /= $EXPR;"@, "複合代入（/=）"@, "compound assignment (/=)"@),
        ("$VAR %= $EXPR;"@, "複合代入（%=）"@, "compound assignment (%=)"@),
        ("$OBJ.$FIELD = $EXPR;"@, "メンバ代入（`.`）"@, "member assignment (.)"@),
        ("$OBJ->$FIELD = $EXPR;"@, "ポインタメンバ代入（`->`）"@, "pointer member assignment (->)"@),
        ("this->$FIELD = $EXPR;"@, "this-> メンバ代入"@, "this-> member assignment"@),
        ("*$PTR = $EXPR;"@, "間接代入（`*ptr`）"@, "indirect assignment"@),
        ("$ARR[$I] = $EXPR;"@, "添字代入"@, "subscript assignment"@),
        ("$PTR == nullptr"@, "nullptr チェック"@, "nullptr check"@),
        ("$PTR != nullptr"@, "nullptr 非チェック"@, "not nullptr check"@),
        ("#include <$HEADER>"@, "include <...>"@, "#include <>"@),
        ("class $NAME : public $BASE { $$$BODY }"@, "クラス（public 継承）"@, "class (public inheritance)"@),
        ("struct $NAME : public $BASE { $$$BODY }"@, "struct（public 継承）"@, "struct (public inheritance)"@),
        ("class $NAME : private $BASE { $$$BODY }"@, "クラス（private 継承）"@, "class (private inheritance)"@),
        ("virtual $RET $NAME($$$ARGS) = 0;"@, "純粋仮想関数宣言"@, "pure virtual declaration"@),
        ("$RET $NAME($$$ARGS) override { $$$BODY }"@, "override メンバ関数"@, "override member function"@),
        ("$RET $NAME($$$ARGS) final { $$$BODY }"@, "final メンバ関数"@, "final member function"@),
        ("~$NAME() { $$$BODY }"@, "デストラクタ定義"@, "destructor definition"@),
        ("~$NAME() = default;"@, "デストラクタ（= default）"@, "destructor (= default)"@),
        ("explicit $NAME($$$ARGS) { $$$BODY }"@, "explicit コンストラクタ"@, "explicit constructor"@),
        ("enum class $NAME { $$$BODY }"@, "enum class 定義"@, "enum class"@),
        ("using $NAME = $TYPE;"@, "using 型エイリアス"@, "using type alias"@),
        ("typedef $TYPE $NAME;"@, "typedef"@, "typedef"@),
        ("static_cast<$TYPE>($EXPR)"@, "static_cast"@, "static_cast"@),
        ("dynamic_cast<$TYPE>($EXPR)"@, "dynamic_cast"@, "dynamic_cast"@),
        ("const_cast<$TYPE>($EXPR)"@, "const_cast"@, "const_cast"@),
        ("reinterpret_cast<$TYPE>($EXPR)"@, "reinterpret_cast"@, "reinterpret_cast"@),
        ("std::move($EXPR)"@, "std::move"@, "std::move"@),
        ("std::forward<$TYPE>($EXPR)"@, "std::forward"@, "std::forward"@),
        ("std::swap($A, $B)"@, "std::swap"@, "std::swap"@),
        ("std::max($A, $B)"@, "std::max"@, "std::max"@),
        ("std::min($A, $B)"@, "std::min"@, "std::min"@),
        ("std::make_unique<$TYPE>($$$ARGS)"@, "std::make_unique"@, "std::make_unique"@),
        ("std::make_shared<$TYPE>($$$ARGS)"@, "std::make_shared"@, "std::make_shared"@),
        ("std::unique_ptr<$TYPE> $VAR"@, "std::unique_ptr 変数"@, "std::unique_ptr var"@),
        ("std::shared_ptr<$TYPE> $VAR"@, "std::shared_ptr 変数"@, "std::shared_ptr var"@),
        ("std::optional<$TYPE> $VAR"@, "std::optional 変数"@, "std::optional var"@),
        ("std::vector<$TYPE> $VAR"@, "std::vector 変数"@, "std::vector var"@),
        ("std::string $VAR"@, "std::string 変数"@, "std::string var"@),
        ("std::cerr << $EXPR"@, "std::cerr"@, "std::cerr"@),
        ("std::cin >> $VAR"@, "std::cin >>"@, "std::cin >>"@),
        ("constexpr $VAR = $EXPR;"@, "constexpr 変数"@, "constexpr variable"@),
        ("constexpr $RET $NAME($$$ARGS) { $$$BODY }"@, "constexpr 関数"@, "constexpr function"@),
        ("noexcept"@, "noexcept 指定子"@, "noexcept specifier"@),
        ("noexcept($EXPR)"@, "noexcept(式)"@, "noexcept(expression)"@),
        ("static_assert($COND, $MSG);"@, "static_assert"@, "static_assert"@),
        ("friend class $NAME;"@, "friend class"@, "friend class"@),
        ("this->$FIELD"@, "this-> メンバ"@, "this-> member"@),
        ("delete $PTR;"@, "delete"@, "delete"@),
        ("delete[] $PTR;"@, "delete[]"@, "delete[]"@),
        ("new $TYPE($$$ARGS)"@, "new 式"@, "new expression"@),
        ("[]($$$ARGS) { $$$BODY }"@, "ラムダ（キャプチャなし）"@, "lambda (no capture)"@),
        ("[=]($$$ARGS) { $$$BODY }"@, "ラムダ（[=]）"@, "lambda ([=])"@),
        ("[&]($$$ARGS) { $$$BODY }"@, "ラムダ（[&]）"@, "lambda ([&])"@),
        ("std::lock_guard<$TYPE> $VAR($MUTEX);"@, "std::lock_guard"@, "std::lock_guard"@),
        ("std::unique_lock<$TYPE> $VAR($MUTEX);"@, "std::unique_lock"@, "std::unique_lock"@),
        ("std::mutex $VAR;"@, "std::mutex 変数"@, "std::mutex var"@),
        ("std::thread $VAR($$$ARGS);"@, "std::thread"@, "std::thread"@),
        ("std::async($$$ARGS)"@, "std::async"@, "std::async"@),
        ("co_await $EXPR"@, "co_await"@, "co_await"@),
        ("co_return $EXPR;"@, "co_return"@, "co_return"@),
        ("co_yield $EXPR;"@, "co_yield"@, "co_yield"@),
        ("concept $NAME = $EXPR;"@, "concept 定義"@, "concept"@),
        ("requires $EXPR { $$$BODY }"@, "requires 句（ブロック）"@, "requires clause (block)"@),
        ("if constexpr ($COND) { $$$BODY }"@, "if constexpr"@, "if constexpr"@),
        ("std::string_view $VAR"@, "std::string_view 変数"@, "std::string_view var"@),
        ("std::scoped_lock<$TYPE> $VAR($MUTEX);"@, "std::scoped_lock"@, "std::scoped_lock"@),
        ("$OBJ.push_back($EXPR);"@, "コンテナ push_back"@, "container push_back"@),
        ("$OBJ.emplace_back($$$ARGS);"@, "コンテナ emplace_back"@, "container emplace_back"@),
        ("std::unordered_map<$K, $V> $VAR"@, "std::unordered_map 変数"@, "std::unordered_map var"@),
        ("std::map<$K, $V> $VAR"@, "std::map 変数"@, "std::map var"@),
        ("std::lock($A, $B);"@, "std::lock（複数 mutex）"@, "std::lock (multiple mutexes)"@),
        ("std::function<$TYPE> $VAR"@, "std::function 変数"@, "std::function var"@),
        ("std::atomic<$TYPE> $VAR"@, "std::atomic 変数"@, "std::atomic var"@),
        ("namespace { $$$BODY }"@, "無名 namespace"@, "anonymous namespace"@),
        ("extern \"C\" { $$$BODY }"@, "extern \"C\" リンケージ"@, "extern \"C\" linkage"@),
        ("static_assert($COND);"@, "static_assert（メッセージ省略）"@, "static_assert (no message)"@),
        ("$RET operator()($$$ARGS) { $$$BODY }"@, "operator()（関数オブジェクト）"@, "operator() (call operator)"@),
        ("$NAME($$$ARGS) : $FIELD($EXPR) { $$$BODY }"@, "コンストラクタ（メンバ初期化子 1 件）"@, "constructor (single member initializer)"@),
        ("$NAME($$$ARGS) = default;"@, "特殊メンバ（= default 宣言）"@, "special member (= default decl)"@),
        ("$NAME($$$ARGS) = delete;"@, "特殊メンバ（= delete 宣言）"@, "special member (= delete decl)"@),
        ("auto $NAME($$$ARGS) -> $RET { $$$BODY }"@, "末尾戻り値型（trailing return）"@, "trailing return type"@),
        ("decltype($EXPR)"@, "decltype 式"@, "decltype expression"@),
        ("std::to_string($EXPR)"@, "std::to_string"@, "std::to_string"@),
        ("for (auto &$VAR : $ITER) { $$$BODY }"@, "range-based for（auto&）"@, "range-based for (auto&)"@),
        ("for (const auto &$VAR : $ITER) { $$$BODY }"@, "range-based for（const auto&）"@, "range-based for (const auto&)"@),
        ("friend $RET $NAME($$$ARGS);"@, "friend 関数宣言"@, "friend function declaration"@),
        ("std::variant<$TYPES> $VAR"@, "std::variant 変数"@, "std::variant var"@),
        ("std::visit($VISITOR, $VARIANT);"@, "std::visit"@, "std::visit"@),
        ("std::get<$N>($VARIANT);"@, "std::get（variant/tuple）"@, "std::get (variant/tuple)"@),
        ("std::pair<$A, $B> $VAR"@, "std::pair 変数"@, "std::pair var"@),
        ("std::tuple<$TYPES> $VAR"@, "std::tuple 変数"@, "std::tuple var"@),
        ("std::clamp($V, $LO, $HI)"@, "std::clamp"@, "std::clamp"@),
        ("std::exchange($OBJ, $NEW)"@, "std::exchange"@, "std::exchange"@),
        ("std::accumulate($$$ARGS)"@, "std::accumulate"@, "std::accumulate"@),
        ("std::find($$$ARGS)"@, "std::find"@, "std::find"@),
        ("std::sort($$$ARGS)"@, "std::sort"@, "std::sort"@),
        ("std::lower_bound($$$ARGS)"@, "std::lower_bound"@, "std::lower_bound"@),
        ("std::thread::hardware_concurrency()"@, "hardware_concurrency"@, "hardware_concurrency"@),
    ]
}

/// The csharp probes of its own: pattern, Japanese and English description.
pub open spec fn csharp_probe_table() -> Seq<(Seq<char>, Seq<char>, Seq<char>)> {
    seq![
        ("class $NAME { $$$BODY }"@, "class 定義"@, "class"@),
        ("interface $NAME { $$$BODY }"@, "interface 定義"@, "interface"@),
        ("enum $NAME { $$$BODY }"@, "enum 定義"@, "enum"@),
        ("namespace $NAME { $$$BODY }"@, "namespace"@, "namespace"@),
        ("public $RET $NAME($$$ARGS) { $$$BODY }"@, "public メソッド定義"@, "public method"@),
        ("$TYPE $VAR = $EXPR;"@, "変数宣言"@, "variable"@),
        ("var $VAR = $EXPR;"@, "var 宣言"@, "var"@),
        ("$VAR = $EXPR;"@, "代入"@, "assignment"@),
        ("$VAR += $EXPR;"@, "複合代入（+=）"@, "compound assignment (+=)"@),
        ("$FUNC($$$ARGS)"@, "関数呼び出し"@, "function call"@),
        ("$RECV.$METHOD($$$ARGS)"@, "メソッド呼び出し"@, "method call"@),
        ("if ($COND) { $$$BODY }"@, "if 文"@, "if"@),
        ("if ($COND) { $$$THEN } else { $$$ELSE }"@, "if-else 文"@, "if-else"@),
        ("foreach ($TYPE $VAR in $ITER) { $$$BODY }"@, "foreach"@, "foreach"@),
        ("for ($INIT; $COND; $UPDATE) { $$$BODY }"@, "for ループ"@, "for"@),
        ("while ($COND) { $$$BODY }"@, "while ループ"@, "while"@),
        ("using $NAME = $TYPE;"@, "using alias"@, "using alias"@),
        ("using ($EXPR) { $$$BODY }"@, "using 文"@, "using statement"@),
        ("return $EXPR;"@, "return文"@, "return"@),
        ("throw new $TYPE($$$ARGS);"@, "例外スロー"@, "throw"@),
        ("try { $$$BODY } catch ($EX) { $$$CATCH }"@, "try-catch"@, "try-catch"@),
        ("$VAR == null"@, "null チェック"@, "null check"@),
        ("$VAR != null"@, "null 非チェック"@, "not-null check"@),
        ("Console.WriteLine($$$ARGS)"@, "Console.WriteLine"@, "Console.WriteLine"@),
    ]
}

/// The kotlin probes of its own: pattern, Japanese and English description.
pub open spec fn kotlin_probe_table() -> Seq<(Seq<char>, Seq<char>, Seq<char>)> {
    seq![
        ("fun $NAME($$$ARGS) { $$$BODY }"@, "関数定義"@, "function"@),
        ("class $NAME { $$$BODY }"@, "クラス定義"@, "class"@),
        ("interface $NAME { $$$BODY }"@, "インターフェース定義"@, "interface"@),
        ("object $NAME { $$$BODY }"@, "object 宣言"@, "object"@),
        ("$FUNC($$$ARGS)"@, "関数呼び出し"@, "function call"@),
        ("$RECV.$METHOD($$$ARGS)"@, "メソッド呼び出し"@, "method call"@),
        ("val $VAR = $EXPR"@, "val 宣言"@, "val"@),
        ("var $VAR = $EXPR"@, "var 宣言"@, "var"@),
        ("$VAR = $EXPR"@, "代入"@, "assignment"@),
        ("if ($COND) { $$$BODY }"@, "if 式"@, "if"@),
        ("if ($COND) { $$$THEN } else { $$$ELSE }"@, "if-else"@, "if-else"@),
        ("when ($EXPR) { $$$BODY }"@, "when 式"@, "when"@),
        ("for ($VAR in $ITER) { $$$BODY }"@, "for ループ"@, "for-in"@),
        ("while ($COND) { $$$BODY }"@, "while ループ"@, "while"@),
        ("return $EXPR"@, "return"@, "return"@),
        ("println($$$ARGS)"@, "println"@, "println"@),
    ]
}

/// The scala probes of its own: pattern, Japanese and English description.
pub open spec fn scala_probe_table() -> Seq<(Seq<char>, Seq<char>, Seq<char>)> {
    seq![
        ("def $NAME($$$ARGS) = $EXPR"@, "def 定義"@, "def"@),
        ("class $NAME { $$$BODY }"@, "クラス定義"@, "class"@),
        ("object $NAME { $$$BODY }"@, "object 定義"@, "object"@),
        ("trait $NAME { $$$BODY }"@, "trait 定義"@, "trait"@),
        ("$FUNC($$$ARGS)"@, "関数呼び出し"@, "function call"@),
        ("$RECV.$METHOD($$$ARGS)"@, "メソッド呼び出し"@, "method call"@),
        ("val $VAR = $EXPR"@, "val 宣言"@, "val"@),
        ("var $VAR = $EXPR"@, "var 宣言"@, "var"@),
        ("$VAR = $EXPR"@, "代入"@, "assignment"@),
        ("if ($COND) { $$$BODY }"@, "if 式"@, "if"@),
        ("if ($COND) { $$$THEN } else { $$$ELSE }"@, "if-else"@, "if-else"@),
        ("for ($VAR <- $ITER) { $$$BODY }"@, "for 内包"@, "for comprehension"@),
        ("while ($COND) { $$$BODY }"@, "while ループ"@, "while"@),
        ("return $EXPR"@, "return"@, "return"@),
        ("println($$$ARGS)"@, "println"@, "println"@),
    ]
}

/// The generic probes of its own: pattern, Japanese and English description.
pub open spec fn generic_probe_table() -> Seq<(Seq<char>, Seq<char>, Seq<char>)> {
    seq![
        ("$VAR"@, "任意の単一ノード"@, "any single node"@),
        ("$FUNC($$$ARGS)"@, "関数/メソッド呼び出し（汎用）"@, "call (generic)"@),
        ("$RECV.$METHOD($$$ARGS)"@, "メソッド呼び出し（汎用）"@, "method call (generic)"@),
        ("$VAR = $EXPR"@, "代入（汎用）"@, "assignment (generic)"@),
        ("$VAR += $EXPR"@, "複合代入（+=）（汎用）"@, "compound += (generic)"@),
        ("return $EXPR"@, "return（汎用）"@, "return (generic)"@),
        ("$A == $B"@, "等値比較（汎用）"@, "equality (generic)"@),
        ("$A != $B"@, "非等値比較（汎用）"@, "inequality (generic)"@),
        ("$A && $B"@, "論理AND"@, "logical AND"@),
        ("$A || $B"@, "論理OR"@, "logical OR"@),
        ("if ($COND) { $$$BODY }"@, "if 文（汎用）"@, "if (generic)"@),
    ]
}

fn rust_probe_entries() -> (t: Vec<ProbeEntry>)
    ensures
        entries_match(t@, rust_probe_table()),
{
    let t = vec![
        ProbeEntry { pattern: "fn $NAME($$$ARGS)", ja: "関数シグネチャ（名前と引数）", en: "Function signature (name and args)" },
        ProbeEntry { pattern: "fn $NAME($$$ARGS) { $$$BODY }", ja: "関数定義（戻り値なし）", en: "Function (no return type)" },
        ProbeEntry { pattern: "fn $NAME($$$ARGS) -> $RET { $$$BODY }", ja: "関数定義（戻り値あり）", en: "Function (with return type)" },
        ProbeEntry { pattern: "pub fn $NAME($$$ARGS)", ja: "pub関数シグネチャ", en: "pub fn signature" },
        ProbeEntry { pattern: "pub fn $NAME($$$ARGS) { $$$BODY }", ja: "pub関数定義", en: "pub fn definition" },
        ProbeEntry { pattern: "pub fn $NAME($$$ARGS) -> $RET { $$$BODY }", ja: "pub関数定義（戻り値あり）", en: "pub fn with return" },
        ProbeEntry { pattern: "async fn $NAME($$$ARGS) { $$$BODY }", ja: "async関数定義", en: "async fn" },
        ProbeEntry { pattern: "async fn $NAME($$$ARGS) -> $RET { $$$BODY }", ja: "async関数定義（戻り値あり）", en: "async fn with return" },
        ProbeEntry { pattern: "impl $TYPE { $$$BODY }", ja: "impl ブロック", en: "impl block" },
        ProbeEntry { pattern: "impl $TRAIT for $TYPE { $$$BODY }", ja: "トレイト実装", en: "trait impl" },
        ProbeEntry { pattern: "trait $NAME { $$$BODY }", ja: "trait定義", en: "trait definition" },
        ProbeEntry { pattern: "struct $NAME { $$$FIELDS }", ja: "構造体定義", en: "struct definition" },
        ProbeEntry { pattern: "struct $NAME($$$FIELDS);", ja: "タプル構造体定義", en: "tuple struct" },
        ProbeEntry { pattern: "enum $NAME { $$$VARIANTS }", ja: "enum定義", en: "enum definition" },
        ProbeEntry { pattern: "type $NAME = $TYPE", ja: "typeエイリアス", en: "type alias" },
        ProbeEntry { pattern: "$FUNC($$$ARGS)", ja: "関数呼び出し", en: "function call" },
        ProbeEntry { pattern: "$RECV.$METHOD($$$ARGS)", ja: "メソッド呼び出し", en: "method call" },
        ProbeEntry { pattern: "$MACRO!($$$ARGS)", ja: "マクロ呼び出し", en: "macro invocation" },
        ProbeEntry { pattern: "let $VAR = $EXPR", ja: "let バインディング", en: "let binding" },
        ProbeEntry { pattern: "let mut $VAR = $EXPR", ja: "let mut バインディング", en: "let mut binding" },
        ProbeEntry { pattern: "let $VAR: $TYPE = $EXPR", ja: "型アノテーション付き let", en: "let with type annotation" },
        ProbeEntry { pattern: "$VAR = $EXPR", ja: "再代入", en: "assignment" },
        ProbeEntry { pattern: "$VAR += $EXPR", ja: "複合代入（+=）", en: "compound assignment (+=)" },
        ProbeEntry { pattern: "$VAR -= $EXPR", ja: "複合代入（-=）", en: "compound assignment (-=)" },
        ProbeEntry { pattern: "$VAR *= $EXPR", ja: "複合代入（*=）", en: "compound assignment (*=)" },
        ProbeEntry { pattern: "$VAR /= $EXPR", ja: "複合代入（/=）", en: "compound assignment (/=)" },
        ProbeEntry { pattern: "$VAR %= $EXPR", ja: "複合代入（%=）", en: "compound assignment (%=)" },
        ProbeEntry { pattern: "$OBJ.$FIELD = $EXPR", ja: "フィールド代入", en: "field assignment" },
        ProbeEntry { pattern: "self.$FIELD = $EXPR", ja: "self フィールド代入", en: "self field assignment" },
        ProbeEntry { pattern: "if $COND { $$$BODY }", ja: "if 式", en: "if expression" },
        ProbeEntry { pattern: "if $COND { $$$THEN } else { $$$ELSE }", ja: "if-else 式", en: "if-else" },
        ProbeEntry { pattern: "match $EXPR { $$$ARMS }", ja: "match 式", en: "match" },
        ProbeEntry { pattern: "for $PAT in $ITER { $$$BODY }", ja: "for ループ", en: "for loop" },
        ProbeEntry { pattern: "while $COND { $$$BODY }", ja: "while ループ", en: "while loop" },
        ProbeEntry { pattern: "loop { $$$BODY }", ja: "loop", en: "loop" },
        ProbeEntry { pattern: "return $EXPR", ja: "return文", en: "return" },
        ProbeEntry { pattern: "break", ja: "break", en: "break" },
        ProbeEntry { pattern: "continue", ja: "continue", en: "continue" },
        ProbeEntry { pattern: "$EXPR?", ja: "? 演算子（エラー伝播）", en: "? operator" },
        ProbeEntry { pattern: "$VAR.unwrap()", ja: "unwrap()", en: "unwrap()" },
        ProbeEntry { pattern: "$VAR.expect($MSG)", ja: "expect()", en: "expect()" },
        ProbeEntry { pattern: "$VAR.clone()", ja: "clone()", en: "clone()" },
        ProbeEntry { pattern: "$VAR.to_string()", ja: "to_string()", en: "to_string()" },
        ProbeEntry { pattern: "$VAR.into()", ja: "into()", en: "into()" },
        ProbeEntry { pattern: "$A == $B", ja: "等値比較", en: "equality" },
        ProbeEntry { pattern: "$A != $B", ja: "非等値比較", en: "inequality" },
        ProbeEntry { pattern: "$A && $B", ja: "論理AND", en: "logical AND" },
        ProbeEntry { pattern: "$A || $B", ja: "論理OR", en: "logical OR" },
        ProbeEntry { pattern: "|$$$ARGS| $BODY", ja: "クロージャ", en: "closure" },
        ProbeEntry { pattern: "|$$$ARGS| { $$$BODY }", ja: "クロージャ（ブロック）", en: "closure (block)" },
        ProbeEntry { pattern: "use $PATH", ja: "use 宣言", en: "use declaration" },
        ProbeEntry { pattern: "$EXPR.await", ja: ".await", en: ".await" },
    ];
    assert(entries_match(t@, rust_probe_table()));
    t
}

fn java_probe_entries() -> (t: Vec<ProbeEntry>)
    ensures
        entries_match(t@, java_probe_table()),
{
    let t = vec![
        ProbeEntry { pattern: "$RET $NAME($$$ARGS) { $$$BODY }", ja: "メソッド定義", en: "method definition" },
        ProbeEntry { pattern: "public $RET $NAME($$$ARGS) { $$$BODY }", ja: "public メソッド定義", en: "public method definition" },
        ProbeEntry { pattern: "class $NAME { $$$BODY }", ja: "クラス定義", en: "class definition" },
        ProbeEntry { pattern: "class $NAME extends $PARENT { $$$BODY }", ja: "継承クラス定義", en: "class extends" },
        ProbeEntry { pattern: "interface $NAME { $$$BODY }", ja: "インターフェース定義", en: "interface" },
        ProbeEntry { pattern: "enum $NAME { $$$BODY }", ja: "enum定義", en: "enum" },
        ProbeEntry { pattern: "@$ANNOTATION", ja: "アノテーション", en: "annotation" },
        ProbeEntry { pattern: "$TYPE $VAR = $EXPR", ja: "変数宣言", en: "variable declaration" },
        ProbeEntry { pattern: "$VAR = $EXPR;", ja: "代入文", en: "assignment statement" },
        ProbeEntry { pattern: "$VAR += $EXPR;", ja: "複合代入（+=）", en: "compound assignment (+=)" },
        ProbeEntry { pattern: "$TYPE $NAME($$$ARGS)", ja: "メソッドシグネチャ", en: "method signature" },
        ProbeEntry { pattern: "$RECV.$METHOD($$$ARGS)", ja: "メソッド呼び出し", en: "method call" },
        ProbeEntry { pattern: "new $TYPE($$$ARGS)", ja: "コンストラクタ呼び出し", en: "constructor call" },
        ProbeEntry { pattern: "if ($COND) { $$$BODY }", ja: "if 文", en: "if statement" },
        ProbeEntry { pattern: "if ($COND) { $$$THEN } else { $$$ELSE }", ja: "if-else 文", en: "if-else" },
        ProbeEntry { pattern: "for ($INIT; $COND; $UPDATE) { $$$BODY }", ja: "for ループ", en: "for loop" },
        ProbeEntry { pattern: "for ($VAR : $ITER) { $$$BODY }", ja: "拡張 for ループ", en: "enhanced for" },
        ProbeEntry { pattern: "while ($COND) { $$$BODY }", ja: "while ループ", en: "while loop" },
        ProbeEntry { pattern: "switch ($EXPR) { $$$BODY }", ja: "switch 文", en: "switch" },
        ProbeEntry { pattern: "try { $$$BODY } catch ($EX) { $$$CATCH }", ja: "try-catch", en: "try-catch" },
        ProbeEntry { pattern: "try { $$$BODY } finally { $$$FINALLY }", ja: "try-finally", en: "try-finally" },
        ProbeEntry { pattern: "return $EXPR;", ja: "return文", en: "return" },
        ProbeEntry { pattern: "throw new $TYPE($$$ARGS)", ja: "例外スロー", en: "throw" },
        ProbeEntry { pattern: "$VAR == null", ja: "null チェック", en: "null check" },
        ProbeEntry { pattern: "$VAR != null", ja: "null 非チェック", en: "not-null check" },
        ProbeEntry { pattern: "System.out.println($$$ARGS)", ja: "System.out.println", en: "System.out.println" },
    ];
    assert(entries_match(t@, java_probe_table()));
    t
}

fn python_probe_entries() -> (t: Vec<ProbeEntry>)
    ensures
        entries_match(t@, python_probe_table()),
{
    let t = vec![
        ProbeEntry { pattern: "def $NAME($$$ARGS): ...", ja: "関数定義", en: "function def" },
        ProbeEntry { pattern: "def $NAME($$$ARGS):\n    $$$BODY", ja: "関数定義（本体あり）", en: "function with body" },
        ProbeEntry { pattern: "async def $NAME($$$ARGS): ...", ja: "async 関数定義", en: "async def" },
        ProbeEntry { pattern: "class $NAME: ...", ja: "クラス定義", en: "class" },
        ProbeEntry { pattern: "class $NAME($PARENT): ...", ja: "継承クラス定義", en: "class inheritance" },
        ProbeEntry { pattern: "$FUNC($$$ARGS)", ja: "関数呼び出し", en: "function call" },
        ProbeEntry { pattern: "$RECV.$METHOD($$$ARGS)", ja: "メソッド呼び出し", en: "method call" },
        ProbeEntry { pattern: "if $COND: ...", ja: "if 文", en: "if" },
        ProbeEntry { pattern: "if $COND:\n    $$$THEN\nelse:\n    $$$ELSE", ja: "if-else 文", en: "if-else" },
        ProbeEntry { pattern: "for $VAR in $ITER: ...", ja: "for ループ", en: "for loop" },
        ProbeEntry { pattern: "while $COND: ...", ja: "while ループ", en: "while loop" },
        ProbeEntry { pattern: "with $EXPR as $VAR: ...", ja: "with 文", en: "with statement" },
        ProbeEntry { pattern: "lambda $$$ARGS: $BODY", ja: "lambda", en: "lambda" },
        ProbeEntry { pattern: "import $MODULE", ja: "import 文", en: "import" },
        ProbeEntry { pattern: "from $MODULE import $NAME", ja: "from import 文", en: "from import" },
        ProbeEntry { pattern: "print($$$ARGS)", ja: "print 呼び出し", en: "print()" },
        ProbeEntry { pattern: "$VAR = $EXPR", ja: "代入", en: "assignment" },
        ProbeEntry { pattern: "$VAR += $EXPR", ja: "複合代入（+=）", en: "compound assignment (+=)" },
        ProbeEntry { pattern: "$VAR -= $EXPR", ja: "複合代入（-=）", en: "compound assignment (-=)" },
        ProbeEntry { pattern: "$VAR *= $EXPR", ja: "複合代入（*=）", en: "compound assignment (*=)" },
        ProbeEntry { pattern: "return $EXPR", ja: "return文", en: "return" },
        ProbeEntry { pattern: "raise $EXPR", ja: "例外送出", en: "raise" },
        ProbeEntry { pattern: "try: ...\nexcept $EX: ...", ja: "try-except", en: "try-except" },
        ProbeEntry { pattern: "try: ...\nfinally: ...", ja: "try-finally", en: "try-finally" },
        ProbeEntry { pattern: "$A == $B", ja: "等値比較", en: "equality" },
        ProbeEntry { pattern: "$A != $B", ja: "非等値比較", en: "inequality" },
    ];
    assert(entries_match(t@, python_probe_table()));
    t
}

fn js_probe_entries() -> (t: Vec<ProbeEntry>)
    ensures
        entries_match(t@, js_probe_table()),
{
    let t = vec![
        ProbeEntry { pattern: "function $NAME($$$ARGS) { $$$BODY }", ja: "function 宣言", en: "function declaration" },
        ProbeEntry { pattern: "const $NAME = function($$$ARGS) { $$$BODY }", ja: "function 式", en: "function expression" },
        ProbeEntry { pattern: "const $NAME = ($$$ARGS) => $BODY", ja: "アロー関数（式）", en: "arrow function (expr)" },
        ProbeEntry { pattern: "const $NAME = ($$$ARGS) => { $$$BODY }", ja: "アロー関数（ブロック）", en: "arrow function (block)" },
        ProbeEntry { pattern: "async function $NAME($$$ARGS) { $$$BODY }", ja: "async function 宣言", en: "async function" },
        ProbeEntry { pattern: "class $NAME { $$$BODY }", ja: "class 宣言", en: "class" },
        ProbeEntry { pattern: "class $NAME extends $PARENT { $$$BODY }", ja: "継承 class 宣言", en: "class extends" },
        ProbeEntry { pattern: "$FUNC($$$ARGS)", ja: "関数呼び出し", en: "function call" },
        ProbeEntry { pattern: "$RECV.$METHOD($$$ARGS)", ja: "メソッド呼び出し", en: "method call" },
        ProbeEntry { pattern: "await $EXPR", ja: "await 式", en: "await" },
        ProbeEntry { pattern: "if ($COND) { $$$BODY }", ja: "if 文", en: "if" },
        ProbeEntry { pattern: "if ($COND) { $$$THEN } else { $$$ELSE }", ja: "if-else 文", en: "if-else" },
        ProbeEntry { pattern: "for (let $VAR = $INIT; $COND; $UPDATE) { $$$BODY }", ja: "for ループ", en: "for loop" },
        ProbeEntry { pattern: "for (const $VAR of $ITER) { $$$BODY }", ja: "for...of ループ", en: "for...of" },
        ProbeEntry { pattern: "for (const $KEY in $OBJ) { $$$BODY }", ja: "for...in ループ", en: "for...in" },
        ProbeEntry { pattern: "while ($COND) { $$$BODY }", ja: "while ループ", en: "while loop" },
        ProbeEntry { pattern: "try { $$$BODY } catch ($ERR) { $$$CATCH }", ja: "try-catch", en: "try-catch" },
        ProbeEntry { pattern: "return $EXPR", ja: "return文", en: "return" },
        ProbeEntry { pattern: "console.log($$$ARGS)", ja: "console.log", en: "console.log" },
        ProbeEntry { pattern: "const $VAR = $EXPR", ja: "const 宣言", en: "const" },
        ProbeEntry { pattern: "let $VAR = $EXPR", ja: "let 宣言", en: "let" },
        ProbeEntry { pattern: "var $VAR = $EXPR", ja: "var 宣言", en: "var" },
        ProbeEntry { pattern: "$VAR = $EXPR", ja: "代入", en: "assignment" },
        ProbeEntry { pattern: "$VAR += $EXPR", ja: "複合代入（+=）", en: "compound assignment (+=)" },
        ProbeEntry { pattern: "$EXPR ?? $DEFAULT", ja: "Nullish Coalescing", en: "nullish coalescing" },
        ProbeEntry { pattern: "$OBJ?.$PROP", ja: "Optional Chaining", en: "optional chaining" },
        ProbeEntry { pattern: "throw new $TYPE($$$ARGS)", ja: "例外スロー", en: "throw" },
        ProbeEntry { pattern: "$PROMISE.then($$$ARGS)", ja: ".then() チェーン", en: ".then()" },
        ProbeEntry { pattern: "import $NAME from $MODULE", ja: "default import", en: "default import" },
        ProbeEntry { pattern: "import { $$$NAMES } from $MODULE", ja: "named import", en: "named import" },
        ProbeEntry { pattern: "export default $EXPR", ja: "default export", en: "default export" },
    ];
    assert(entries_match(t@, js_probe_table()));
    t
}

fn ts_probe_entries() -> (t: Vec<ProbeEntry>)
    ensures
        entries_match(t@, ts_probe_table()),
{
    let t = vec![
        ProbeEntry { pattern: "interface $NAME { $$$BODY }", ja: "interface 宣言", en: "interface" },
        ProbeEntry { pattern: "type $NAME = $TYPE", ja: "type alias", en: "type alias" },
        ProbeEntry { pattern: "enum $NAME { $$$BODY }", ja: "enum 宣言", en: "enum" },
        ProbeEntry { pattern: "function $NAME($$$ARGS): $RET { $$$BODY }", ja: "戻り値型付き function", en: "function with return type" },
        ProbeEntry { pattern: "const $NAME = ($$$ARGS): $RET => $BODY", ja: "型付きアロー関数", en: "typed arrow" },
        ProbeEntry { pattern: "const $VAR: $TYPE = $EXPR", ja: "型注釈付き const", en: "const with type" },
        ProbeEntry { pattern: "let $VAR: $TYPE = $EXPR", ja: "型注釈付き let", en: "let with type" },
        ProbeEntry { pattern: "$EXPR as $TYPE", ja: "型アサーション", en: "type assertion" },
    ];
    assert(entries_match(t@, ts_probe_table()));
    t
}

fn go_probe_entries() -> (t: Vec<ProbeEntry>)
    ensures
        entries_match(t@, go_probe_table()),
{
    let t = vec![
        ProbeEntry { pattern: "func $NAME($$$ARGS) { $$$BODY }", ja: "関数定義", en: "function" },
        ProbeEntry { pattern: "func $NAME($$$ARGS) $RET { $$$BODY }", ja: "関数定義（戻り値あり）", en: "function with return" },
        ProbeEntry { pattern: "func ($RECV $TYPE) $NAME($$$ARGS) { $$$BODY }", ja: "メソッド定義", en: "method" },
        ProbeEntry { pattern: "type $NAME struct { $$$FIELDS }", ja: "構造体定義", en: "struct" },
        ProbeEntry { pattern: "type $NAME interface { $$$METHODS }", ja: "インターフェース定義", en: "interface" },
        ProbeEntry { pattern: "$RECV.$METHOD($$$ARGS)", ja: "メソッド呼び出し", en: "method call" },
        ProbeEntry { pattern: "$FUNC($$$ARGS)", ja: "関数呼び出し", en: "function call" },
        ProbeEntry { pattern: "if $COND { $$$BODY }", ja: "if 文", en: "if" },
        ProbeEntry { pattern: "if err != nil { $$$BODY }", ja: "エラーチェック", en: "error check" },
        ProbeEntry { pattern: "if $EXPR; $COND { $$$BODY }", ja: "初期化付き if", en: "if with init" },
        ProbeEntry { pattern: "for $COND { $$$BODY }", ja: "for ループ", en: "for" },
        ProbeEntry { pattern: "for $KEY, $VAL := range $ITER { $$$BODY }", ja: "range ループ", en: "range (key,val)" },
        ProbeEntry { pattern: "for $VAL := range $ITER { $$$BODY }", ja: "range ループ（単値）", en: "range (val)" },
        ProbeEntry { pattern: "switch $EXPR { $$$BODY }", ja: "switch 文", en: "switch" },
        ProbeEntry { pattern: "return $EXPR", ja: "return文", en: "return" },
        ProbeEntry { pattern: "go $FUNC($$$ARGS)", ja: "goroutine 起動", en: "go statement" },
        ProbeEntry { pattern: "$VAR, err := $EXPR", ja: "エラー返却代入", en: "error return assign" },
        ProbeEntry { pattern: "$VAR := $EXPR", ja: "短縮変数宣言", en: "short var decl" },
        ProbeEntry { pattern: "$VAR = $EXPR", ja: "代入", en: "assignment" },
        ProbeEntry { pattern: "$VAR += $EXPR", ja: "複合代入（+=）", en: "compound assignment (+=)" },
        ProbeEntry { pattern: "defer $FUNC($$$ARGS)", ja: "defer", en: "defer" },
    ];
    assert(entries_match(t@, go_probe_table()));
    t
}

fn c_probe_entries() -> (t: Vec<ProbeEntry>)
    ensures
        entries_match(t@, c_probe_table()),
{
    let t = vec![
        ProbeEntry { pattern: "$RET $NAME($$$ARGS) { $$$BODY }", ja: "関数定義", en: "function" },
        ProbeEntry { pattern: "$TYPE $VAR = $EXPR;", ja: "変数定義", en: "variable def" },
        ProbeEntry { pattern: "$VAR = $EXPR;", ja: "代入", en: "assignment" },
        ProbeEntry { pattern: "$VAR += $EXPR;", ja: "複合代入（+=）", en: "compound assignment (+=)" },
        ProbeEntry { pattern: "$FUNC($$$ARGS)", ja: "関数呼び出し", en: "function call" },
        ProbeEntry { pattern: "if ($COND) { $$$BODY }", ja: "if 文", en: "if" },
        ProbeEntry { pattern: "if ($COND) { $$$THEN } else { $$$ELSE }", ja: "if-else 文", en: "if-else" },
        ProbeEntry { pattern: "for ($INIT; $COND; $UPDATE) { $$$BODY }", ja: "for ループ", en: "for loop" },
        ProbeEntry { pattern: "while ($COND) { $$$BODY }", ja: "while ループ", en: "while loop" },
        ProbeEntry { pattern: "switch ($EXPR) { $$$BODY }", ja: "switch 文", en: "switch" },
        ProbeEntry { pattern: "return $EXPR;", ja: "return文", en: "return" },
        ProbeEntry { pattern: "$PTR == NULL", ja: "NULL チェック", en: "NULL check" },
        ProbeEntry { pattern: "$PTR != NULL", ja: "NULL 非チェック", en: "not NULL check" },
        ProbeEntry { pattern: "#include $HEADER", ja: "include", en: "#include" },
        ProbeEntry { pattern: "#ifdef $MACRO\n$$$THEN\n#else\n$$$ELSE\n#endif", ja: "#ifdef … #else … #endif", en: "#ifdef … #else … #endif" },
        ProbeEntry { pattern: "#ifndef $MACRO\n$$$THEN\n#else\n$$$ELSE\n#endif", ja: "#ifndef … #else … #endif", en: "#ifndef … #else … #endif" },
        ProbeEntry { pattern: "#ifdef $MACRO\n$$$BODY\n#endif", ja: "#ifdef … #endif（分岐全体。真・偽の両方の行を $$$BODY がまとめてマッチ）", en: "#ifdef … #endif (whole block; both branches match as $$$BODY)" },
        ProbeEntry { pattern: "#ifndef $MACRO\n$$$BODY\n#endif", ja: "#ifndef … #endif（分岐全体）", en: "#ifndef … #endif (whole block)" },
        ProbeEntry { pattern: "#if $COND\n$$$THEN\n#else\n$$$ELSE\n#endif", ja: "#if … #else … #endif", en: "#if … #else … #endif" },
        ProbeEntry { pattern: "$TYPE *$VAR", ja: "ポインタ宣言", en: "pointer decl" },
        ProbeEntry { pattern: "$TYPE $NAME[$SIZE]", ja: "配列宣言", en: "array decl" },
    ];
    assert(entries_match(t@, c_probe_table()));
    t
}

fn cpp_probe_entries() -> (t: Vec<ProbeEntry>)
    ensures
        entries_match(t@, cpp_probe_table()),
{
    let t = vec![
        ProbeEntry { pattern: "class $NAME { $$$BODY }", ja: "class 定義", en: "class" },
        ProbeEntry { pattern: "struct $NAME { $$$BODY }", ja: "struct 定義", en: "struct" },
        ProbeEntry { pattern: "namespace $NAME { $$$BODY }", ja: "namespace", en: "namespace" },
        ProbeEntry { pattern: "template <$$$ARGS> $DECL", ja: "template 宣言", en: "template" },
        ProbeEntry { pattern: "$RET $NAME($$$ARGS) const { $$$BODY }", ja: "const メンバ関数", en: "const member fn" },
        ProbeEntry { pattern: "$CLASS::$METHOD($$$ARGS)", ja: "スコープ解決付き呼び出し", en: "scope-qualified call" },
        ProbeEntry { pattern: "$CLASS::$METHOD()", ja: "スコープ解決付き呼び出し（0引数）", en: "scope-qualified call (0 args)" },
        ProbeEntry { pattern: "$CLASS::$METHOD($ARG)", ja: "スコープ解決付き呼び出し（1引数）", en: "scope-qualified call (1 arg)" },
        ProbeEntry { pattern: "$CLASS::$METHOD($ARG1, $ARG2)", ja: "スコープ解決付き呼び出し（2引数）", en: "scope-qualified call (2 args)" },
        ProbeEntry { pattern: "$CLASS::$METHOD($ARG1, $ARG2, $ARG3)", ja: "スコープ解決付き呼び出し（3引数）", en: "scope-qualified call (3 args)" },
        ProbeEntry { pattern: "for ($TYPE $VAR : $ITER) { $$$BODY }", ja: "range-based for", en: "range-for" },
        ProbeEntry { pattern: "try { $$$BODY } catch ($EX) { $$$CATCH }", ja: "try-catch", en: "try-catch" },
        ProbeEntry { pattern: "throw $EXPR;", ja: "throw", en: "throw" },
        ProbeEntry { pattern: "std::cout << $EXPR", ja: "std::cout", en: "std::cout" },
        ProbeEntry { pattern: "auto $VAR = $EXPR;", ja: "auto 変数宣言", en: "auto" },
        ProbeEntry { pattern: "$VAR -= $EXPR;", ja: "複合代入（-=）", en: "compound assignment (-=)" },
        ProbeEntry { pattern: "$VAR *= $EXPR;", ja: "複合代入（*=）", en: "compound assignment (*=)" },
        ProbeEntry { pattern: "$VAR /= $EXPR;", ja: "複合代入（/=）", en: "compound assignment (/=)" },
        ProbeEntry { pattern: "$VAR %= $EXPR;", ja: "複合代入（%=）", en: "compound assignment (%=)" },
        ProbeEntry { pattern: "$OBJ.$FIELD = $EXPR;", ja: "メンバ代入（`.`）", en: "member assignment (.)" },
        ProbeEntry { pattern: "$OBJ->$FIELD = $EXPR;", ja: "ポインタメンバ代入（`->`）", en: "pointer member assignment (->)" },
        ProbeEntry { pattern: "this->$FIELD = $EXPR;", ja: "this-> メンバ代入", en: "this-> member assignment" },
        ProbeEntry { pattern: "*$PTR = $EXPR;", ja: "間接代入（`*ptr`）", en: "indirect assignment" },
        ProbeEntry { pattern: "$ARR[$I] = $EXPR;", ja: "添字代入", en: "subscript assignment" },
        ProbeEntry { pattern: "$PTR == nullptr", ja: "nullptr チェック", en: "nullptr check" },
        ProbeEntry { pattern: "$PTR != nullptr", ja: "nullptr 非チェック", en: "not nullptr check" },
        ProbeEntry { pattern: "#include <$HEADER>", ja: "include <...>", en: "#include <>" },
        ProbeEntry { pattern: "class $NAME : public $BASE { $$$BODY }", ja: "クラス（public 継承）", en: "class (public inheritance)" },
        ProbeEntry { pattern: "struct $NAME : public $BASE { $$$BODY }", ja: "struct（public 継承）", en: "struct (public inheritance)" },
        ProbeEntry { pattern: "class $NAME : private $BASE { $$$BODY }", ja: "クラス（private 継承）", en: "class (private inheritance)" },
        ProbeEntry { pattern: "virtual $RET $NAME($$$ARGS) = 0;", ja: "純粋仮想関数宣言", en: "pure virtual declaration" },
        ProbeEntry { pattern: "$RET $NAME($$$ARGS) override { $$$BODY }", ja: "override メンバ関数", en: "override member function" },
        ProbeEntry { pattern: "$RET $NAME($$$ARGS) final { $$$BODY }", ja: "final メンバ関数", en: "final member function" },
        ProbeEntry { pattern: "~$NAME() { $$$BODY }", ja: "デストラクタ定義", en: "destructor definition" },
        ProbeEntry { pattern: "~$NAME() = default;", ja: "デストラクタ（= default）", en: "destructor (= default)" },
        ProbeEntry { pattern: "explicit $NAME($$$ARGS) { $$$BODY }", ja: "explicit コンストラクタ", en: "explicit constructor" },
        ProbeEntry { pattern: "enum class $NAME { $$$BODY }", ja: "enum class 定義", en: "enum class" },
        ProbeEntry { pattern: "using $NAME = $TYPE;", ja: "using 型エイリアス", en: "using type alias" },
        ProbeEntry { pattern: "typedef $TYPE $NAME;", ja: "typedef", en: "typedef" },
        ProbeEntry { pattern: "static_cast<$TYPE>($EXPR)", ja: "static_cast", en: "static_cast" },
        ProbeEntry { pattern: "dynamic_cast<$TYPE>($EXPR)", ja: "dynamic_cast", en: "dynamic_cast" },
        ProbeEntry { pattern: "const_cast<$TYPE>($EXPR)", ja: "const_cast", en: "const_cast" },
        ProbeEntry { pattern: "reinterpret_cast<$TYPE>($EXPR)", ja: "reinterpret_cast", en: "reinterpret_cast" },
        ProbeEntry { pattern: "std::move($EXPR)", ja: "std::move", en: "std::move" },
        ProbeEntry { pattern: "std::forward<$TYPE>($EXPR)", ja: "std::forward", en: "std::forward" },
        ProbeEntry { pattern: "std::swap($A, $B)", ja: "std::swap", en: "std::swap" },
        ProbeEntry { pattern: "std::max($A, $B)", ja: "std::max", en: "std::max" },
        ProbeEntry { pattern: "std::min($A, $B)", ja: "std::min", en: "std::min" },
        ProbeEntry { pattern: "std::make_unique<$TYPE>($$$ARGS)", ja: "std::make_unique", en: "std::make_unique" },
        ProbeEntry { pattern: "std::make_shared<$TYPE>($$$ARGS)", ja: "std::make_shared", en: "std::make_shared" },
        ProbeEntry { pattern: "std::unique_ptr<$TYPE> $VAR", ja: "std::unique_ptr 変数", en: "std::unique_ptr var" },
        ProbeEntry { pattern: "std::shared_ptr<$TYPE> $VAR", ja: "std::shared_ptr 変数", en: "std::shared_ptr var" },
        ProbeEntry { pattern: "std::optional<$TYPE> $VAR", ja: "std::optional 変数", en: "std::optional var" },
        ProbeEntry { pattern: "std::vector<$TYPE> $VAR", ja: "std::vector 変数", en: "std::vector var" },
        ProbeEntry { pattern: "std::string $VAR", ja: "std::string 変数", en: "std::string var" },
        ProbeEntry { pattern: "std::cerr << $EXPR", ja: "std::cerr", en: "std::cerr" },
        ProbeEntry { pattern: "std::cin >> $VAR", ja: "std::cin >>", en: "std::cin >>" },
        ProbeEntry { pattern: "constexpr $VAR = $EXPR;", ja: "constexpr 変数", en: "constexpr variable" },
        ProbeEntry { pattern: "constexpr $RET $NAME($$$ARGS) { $$$BODY }", ja: "constexpr 関数", en: "constexpr function" },
        ProbeEntry { pattern: "noexcept", ja: "noexcept 指定子", en: "noexcept specifier" },
        ProbeEntry { pattern: "noexcept($EXPR)", ja: "noexcept(式)", en: "noexcept(expression)" },
        ProbeEntry { pattern: "static_assert($COND, $MSG);", ja: "static_assert", en: "static_assert" },
        ProbeEntry { pattern: "friend class $NAME;", ja: "friend class", en: "friend class" },
        ProbeEntry { pattern: "this->$FIELD", ja: "this-> メンバ", en: "this-> member" },
        ProbeEntry { pattern: "delete $PTR;", ja: "delete", en: "delete" },
        ProbeEntry { pattern: "delete[] $PTR;", ja: "delete[]", en: "delete[]" },
        ProbeEntry { pattern: "new $TYPE($$$ARGS)", ja: "new 式", en: "new expression" },
        ProbeEntry { pattern: "[]($$$ARGS) { $$$BODY }", ja: "ラムダ（キャプチャなし）", en: "lambda (no capture)" },
        ProbeEntry { pattern: "[=]($$$ARGS) { $$$BODY }", ja: "ラムダ（[=]）", en: "lambda ([=])" },
        ProbeEntry { pattern: "[&]($$$ARGS) { $$$BODY }", ja: "ラムダ（[&]）", en: "lambda ([&])" },
        ProbeEntry { pattern: "std::lock_guard<$TYPE> $VAR($MUTEX);", ja: "std::lock_guard", en: "std::lock_guard" },
        ProbeEntry { pattern: "std::unique_lock<$TYPE> $VAR($MUTEX);", ja: "std::unique_lock", en: "std::unique_lock" },
        ProbeEntry { pattern: "std::mutex $VAR;", ja: "std::mutex 変数", en: "std::mutex var" },
        ProbeEntry { pattern: "std::thread $VAR($$$ARGS);", ja: "std::thread", en: "std::thread" },
        ProbeEntry { pattern: "std::async($$$ARGS)", ja: "std::async", en: "std::async" },
        ProbeEntry { pattern: "co_await $EXPR", ja: "co_await", en: "co_await" },
        ProbeEntry { pattern: "co_return $EXPR;", ja: "co_return", en: "co_return" },
        ProbeEntry { pattern: "co_yield $EXPR;", ja: "co_yield", en: "co_yield" },
        ProbeEntry { pattern: "concept $NAME = $EXPR;", ja: "concept 定義", en: "concept" },
        ProbeEntry { pattern: "requires $EXPR { $$$BODY }", ja: "requires 句（ブロック）", en: "requires clause (block)" },
        ProbeEntry { pattern: "if constexpr ($COND) { $$$BODY }", ja: "if constexpr", en: "if constexpr" },
        ProbeEntry { pattern: "std::string_view $VAR", ja: "std::string_view 変数", en: "std::string_view var" },
        ProbeEntry { pattern: "std::scoped_lock<$TYPE> $VAR($MUTEX);", ja: "std::scoped_lock", en: "std::scoped_lock" },
        ProbeEntry { pattern: "$OBJ.push_back($EXPR);", ja: "コンテナ push_back", en: "container push_back" },
        ProbeEntry { pattern: "$OBJ.emplace_back($$$ARGS);", ja: "コンテナ emplace_back", en: "container emplace_back" },
        ProbeEntry { pattern: "std::unordered_map<$K, $V> $VAR", ja: "std::unordered_map 変数", en: "std::unordered_map var" },
        ProbeEntry { pattern: "std::map<$K, $V> $VAR", ja: "std::map 変数", en: "std::map var" },
        ProbeEntry { pattern: "std::lock($A, $B);", ja: "std::lock（複数 mutex）", en: "std::lock (multiple mutexes)" },
        ProbeEntry { pattern: "std::function<$TYPE> $VAR", ja: "std::function 変数", en: "std::function var" },
        ProbeEntry { pattern: "std::atomic<$TYPE> $VAR", ja: "std::atomic 変数", en: "std::atomic var" },
        ProbeEntry { pattern: "namespace { $$$BODY }", ja: "無名 namespace", en: "anonymous namespace" },
        ProbeEntry { pattern: "extern \"C\" { $$$BODY }", ja: "extern \"C\" リンケージ", en: "extern \"C\" linkage" },
        ProbeEntry { pattern: "static_assert($COND);", ja: "static_assert（メッセージ省略）", en: "static_assert (no message)" },
        ProbeEntry { pattern: "$RET operator()($$$ARGS) { $$$BODY }", ja: "operator()（関数オブジェクト）", en: "operator() (call operator)" },
        ProbeEntry { pattern: "$NAME($$$ARGS) : $FIELD($EXPR) { $$$BODY }", ja: "コンストラクタ（メンバ初期化子 1 件）", en: "constructor (single member initializer)" },
        ProbeEntry { pattern: "$NAME($$$ARGS) = default;", ja: "特殊メンバ（= default 宣言）", en: "special member (= default decl)" },
        ProbeEntry { pattern: "$NAME($$$ARGS) = delete;", ja: "特殊メンバ（= delete 宣言）", en: "special member (= delete decl)" },
        ProbeEntry { pattern: "auto $NAME($$$ARGS) -> $RET { $$$BODY }", ja: "末尾戻り値型（trailing return）", en: "trailing return type" },
        ProbeEntry { pattern: "decltype($EXPR)", ja: "decltype 式", en: "decltype expression" },
        ProbeEntry { pattern: "std::to_string($EXPR)", ja: "std::to_string", en: "std::to_string" },
        ProbeEntry { pattern: "for (auto &$VAR : $ITER) { $$$BODY }", ja: "range-based for（auto&）", en: "range-based for (auto&)" },
        ProbeEntry { pattern: "for (const auto &$VAR : $ITER) { $$$BODY }", ja: "range-based for（const auto&）", en: "range-based for (const auto&)" },
        ProbeEntry { pattern: "friend $RET $NAME($$$ARGS);", ja: "friend 関数宣言", en: "friend function declaration" },
        ProbeEntry { pattern: "std::variant<$TYPES> $VAR", ja: "std::variant 変数", en: "std::variant var" },
        ProbeEntry { pattern: "std::visit($VISITOR, $VARIANT);", ja: "std::visit", en: "std::visit" },
        ProbeEntry { pattern: "std::get<$N>($VARIANT);", ja: "std::get（variant/tuple）", en: "std::get (variant/tuple)" },
        ProbeEntry { pattern: "std::pair<$A, $B> $VAR", ja: "std::pair 変数", en: "std::pair var" },
        ProbeEntry { pattern: "std::tuple<$TYPES> $VAR", ja: "std::tuple 変数", en: "std::tuple var" },
        ProbeEntry { pattern: "std::clamp($V, $LO, $HI)", ja: "std::clamp", en: "std::clamp" },
        ProbeEntry { pattern: "std::exchange($OBJ, $NEW)", ja: "std::exchange", en: "std::exchange" },
        ProbeEntry { pattern: "std::accumulate($$$ARGS)", ja: "std::accumulate", en: "std::accumulate" },
        ProbeEntry { pattern: "std::find($$$ARGS)", ja: "std::find", en: "std::find" },
        ProbeEntry { pattern: "std::sort($$$ARGS)", ja: "std::sort", en: "std::sort" },
        ProbeEntry { pattern: "std::lower_bound($$$ARGS)", ja: "std::lower_bound", en: "std::lower_bound" },
        ProbeEntry { pattern: "std::thread::hardware_concurrency()", ja: "hardware_concurrency", en: "hardware_concurrency" },
    ];
    assert(entries_match(t@, cpp_probe_table()));
    t
}

fn csharp_probe_entries() -> (t: Vec<ProbeEntry>)
    ensures
        entries_match(t@, csharp_probe_table()),
{
    let t = vec![
        ProbeEntry { pattern: "class $NAME { $$$BODY }", ja: "class 定義", en: "class" },
        ProbeEntry { pattern: "interface $NAME { $$$BODY }", ja: "interface 定義", en: "interface" },
        ProbeEntry { pattern: "enum $NAME { $$$BODY }", ja: "enum 定義", en: "enum" },
        ProbeEntry { pattern: "namespace $NAME { $$$BODY }", ja: "namespace", en: "namespace" },
        ProbeEntry { pattern: "public $RET $NAME($$$ARGS) { $$$BODY }", ja: "public メソッド定義", en: "public method" },
        ProbeEntry { pattern: "$TYPE $VAR = $EXPR;", ja: "変数宣言", en: "variable" },
        ProbeEntry { pattern: "var $VAR = $EXPR;", ja: "var 宣言", en: "var" },
        ProbeEntry { pattern: "$VAR = $EXPR;", ja: "代入", en: "assignment" },
        ProbeEntry { pattern: "$VAR += $EXPR;", ja: "複合代入（+=）", en: "compound assignment (+=)" },
        ProbeEntry { pattern: "$FUNC($$$ARGS)", ja: "関数呼び出し", en: "function call" },
        ProbeEntry { pattern: "$RECV.$METHOD($$$ARGS)", ja: "メソッド呼び出し", en: "method call" },
        ProbeEntry { pattern: "if ($COND) { $$$BODY }", ja: "if 文", en: "if" },
        ProbeEntry { pattern: "if ($COND) { $$$THEN } else { $$$ELSE }", ja: "if-else 文", en: "if-else" },
        ProbeEntry { pattern: "foreach ($TYPE $VAR in $ITER) { $$$BODY }", ja: "foreach", en: "foreach" },
        ProbeEntry { pattern: "for ($INIT; $COND; $UPDATE) { $$$BODY }", ja: "for ループ", en: "for" },
        ProbeEntry { pattern: "while ($COND) { $$$BODY }", ja: "while ループ", en: "while" },
        ProbeEntry { pattern: "using $NAME = $TYPE;", ja: "using alias", en: "using alias" },
        ProbeEntry { pattern: "using ($EXPR) { $$$BODY }", ja: "using 文", en: "using statement" },
        ProbeEntry { pattern: "return $EXPR;", ja: "return文", en: "return" },
        ProbeEntry { pattern: "throw new $TYPE($$$ARGS);", ja: "例外スロー", en: "throw" },
        ProbeEntry { pattern: "try { $$$BODY } catch ($EX) { $$$CATCH }", ja: "try-catch", en: "try-catch" },
        ProbeEntry { pattern: "$VAR == null", ja: "null チェック", en: "null check" },
        ProbeEntry { pattern: "$VAR != null", ja: "null 非チェック", en: "not-null check" },
        ProbeEntry { pattern: "Console.WriteLine($$$ARGS)", ja: "Console.WriteLine", en: "Console.WriteLine" },
    ];
    assert(entries_match(t@, csharp_probe_table()));
    t
}

fn kotlin_probe_entries() -> (t: Vec<ProbeEntry>)
    ensures
        entries_match(t@, kotlin_probe_table()),
{
    let t = vec![
        ProbeEntry { pattern: "fun $NAME($$$ARGS) { $$$BODY }", ja: "関数定義", en: "function" },
        ProbeEntry { pattern: "class $NAME { $$$BODY }", ja: "クラス定義", en: "class" },
        ProbeEntry { pattern: "interface $NAME { $$$BODY }", ja: "インターフェース定義", en: "interface" },
        ProbeEntry { pattern: "object $NAME { $$$BODY }", ja: "object 宣言", en: "object" },
        ProbeEntry { pattern: "$FUNC($$$ARGS)", ja: "関数呼び出し", en: "function call" },
        ProbeEntry { pattern: "$RECV.$METHOD($$$ARGS)", ja: "メソッド呼び出し", en: "method call" },
        ProbeEntry { pattern: "val $VAR = $EXPR", ja: "val 宣言", en: "val" },
        ProbeEntry { pattern: "var $VAR = $EXPR", ja: "var 宣言", en: "var" },
        ProbeEntry { pattern: "$VAR = $EXPR", ja: "代入", en: "assignment" },
        ProbeEntry { pattern: "if ($COND) { $$$BODY }", ja: "if 式", en: "if" },
        ProbeEntry { pattern: "if ($COND) { $$$THEN } else { $$$ELSE }", ja: "if-else", en: "if-else" },
        ProbeEntry { pattern: "when ($EXPR) { $$$BODY }", ja: "when 式", en: "when" },
        ProbeEntry { pattern: "for ($VAR in $ITER) { $$$BODY }", ja: "for ループ", en: "for-in" },
        ProbeEntry { pattern: "while ($COND) { $$$BODY }", ja: "while ループ", en: "while" },
        ProbeEntry { pattern: "return $EXPR", ja: "return", en: "return" },
        ProbeEntry { pattern: "println($$$ARGS)", ja: "println", en: "println" },
    ];
    assert(entries_match(t@, kotlin_probe_table()));
    t
}

fn scala_probe_entries() -> (t: Vec<ProbeEntry>)
    ensures
        entries_match(t@, scala_probe_table()),
{
    let t = vec![
        ProbeEntry { pattern: "def $NAME($$$ARGS) = $EXPR", ja: "def 定義", en: "def" },
        ProbeEntry { pattern: "class $NAME { $$$BODY }", ja: "クラス定義", en: "class" },
        ProbeEntry { pattern: "object $NAME { $$$BODY }", ja: "object 定義", en: "object" },
        ProbeEntry { pattern: "trait $NAME { $$$BODY }", ja: "trait 定義", en: "trait" },
        ProbeEntry { pattern: "$FUNC($$$ARGS)", ja: "関数呼び出し", en: "function call" },
        ProbeEntry { pattern: "$RECV.$METHOD($$$ARGS)", ja: "メソッド呼び出し", en: "method call" },
        ProbeEntry { pattern: "val $VAR = $EXPR", ja: "val 宣言", en: "val" },
        ProbeEntry { pattern: "var $VAR = $EXPR", ja: "var 宣言", en: "var" },
        ProbeEntry { pattern: "$VAR = $EXPR", ja: "代入", en: "assignment" },
        ProbeEntry { pattern: "if ($COND) { $$$BODY }", ja: "if 式", en: "if" },
        ProbeEntry { pattern: "if ($COND) { $$$THEN } else { $$$ELSE }", ja: "if-else", en: "if-else" },
        ProbeEntry { pattern: "for ($VAR <- $ITER) { $$$BODY }", ja: "for 内包", en: "for comprehension" },
        ProbeEntry { pattern: "while ($COND) { $$$BODY }", ja: "while ループ", en: "while" },
        ProbeEntry { pattern: "return $EXPR", ja: "return", en: "return" },
        ProbeEntry { pattern: "println($$$ARGS)", ja: "println", en: "println" },
    ];
    assert(entries_match(t@, scala_probe_table()));
    t
}

fn generic_probe_entries() -> (t: Vec<ProbeEntry>)
    ensures
        entries_match(t@, generic_probe_table()),
{
    let t = vec![
        ProbeEntry { pattern: "$VAR", ja: "任意の単一ノード", en: "any single node" },
        ProbeEntry { pattern: "$FUNC($$$ARGS)", ja: "関数/メソッド呼び出し（汎用）", en: "call (generic)" },
        ProbeEntry { pattern: "$RECV.$METHOD($$$ARGS)", ja: "メソッド呼び出し（汎用）", en: "method call (generic)" },
        ProbeEntry { pattern: "$VAR = $EXPR", ja: "代入（汎用）", en: "assignment (generic)" },
        ProbeEntry { pattern: "$VAR += $EXPR", ja: "複合代入（+=）（汎用）", en: "compound += (generic)" },
        ProbeEntry { pattern: "return $EXPR", ja: "return（汎用）", en: "return (generic)" },
        ProbeEntry { pattern: "$A == $B", ja: "等値比較（汎用）", en: "equality (generic)" },
        ProbeEntry { pattern: "$A != $B", ja: "非等値比較（汎用）", en: "inequality (generic)" },
        ProbeEntry { pattern: "$A && $B", ja: "論理AND", en: "logical AND" },
        ProbeEntry { pattern: "$A || $B", ja: "論理OR", en: "logical OR" },
        ProbeEntry { pattern: "if ($COND) { $$$BODY }", ja: "if 文（汎用）", en: "if (generic)" },
    ];
    assert(entries_match(t@, generic_probe_table()));
    t
}

} // verus!
