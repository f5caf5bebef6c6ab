//! Rewriting the matches of an AST pattern by a template (preview and apply).
use vstd::prelude::*;
use vstd::string::StringSliceAdditionalSpecFns;
use crate::ast_pattern::{
    ast_match_ranges, ast_replace_edits, compile_strategies, edits_view, has_any_match, replace_all_edits, strategy_keys,
    PatternKey, TextEdit,
};
use crate::lang::cli_name_spec;
use crate::file_encoding::FileEncoding;
use crate::lang::SupportedLanguage;
use crate::search::FileResult;
use crate::text::{decimal, push_str};

verus! {

/// The rewrite of one file.
#[derive(Debug, Clone)]
pub struct RewriteFilePreview {
    pub path: String,
    pub relative_path: String,
    pub source_before: String,
    pub source_after: String,
    pub text_encoding: FileEncoding,
    pub source_language: SupportedLanguage,
    /// How many replacements were applied in this file.
    pub replacement_count: usize,
}

/// The rewrite of all files.
#[derive(Debug, Clone)]
pub struct RewritePreview {
    pub files: Vec<RewriteFilePreview>,
    pub elapsed_ms: u64,
}

#[derive(Debug)]
pub enum RewriteMessage {
    Progress { done: usize, total: usize },
    Done(RewritePreview),
    Error(String),
}

/// Cap on the edits of one pass (a guard against runaway matching).
pub const MAX_REWRITE_EDITS_PER_PASS: usize = 500_000;

/// Cap on the passes (nested matches may need several).
pub const MAX_REWRITE_PASSES: usize = 10_000;

/// `b` with `e` applied: its deleted bytes replaced by its inserted text.
pub open spec fn splice(b: Seq<u8>, e: (usize, usize, Seq<u8>)) -> Seq<u8> {
    b.take(e.0 as int) + e.2 + b.skip(e.0 + e.1)
}

/// An edit inside the text changes its length by what it inserts less what
/// it deletes, and keeps the text before and after the edited range.
pub proof fn lemma_splice_shape(b: Seq<u8>, e: (usize, usize, Seq<u8>))
    requires
        e.0 + e.1 <= b.len(),
    ensures
        splice(b, e).len() == b.len() - e.1 + e.2.len(),
        splice(b, e).take(e.0 as int) == b.take(e.0 as int),
        splice(b, e).skip(e.0 + e.2.len()) == b.skip(e.0 + e.1),
{
    let s = splice(b, e);
    assert(s.take(e.0 as int) =~= b.take(e.0 as int));
    assert(s.skip(e.0 + e.2.len()) =~= b.skip(e.0 + e.1));
}

/// The edits applied from the last to the first (each within the text), or
/// `None` when one falls outside it.
pub open spec fn apply_edits_rev(b: Seq<u8>, edits: Seq<(usize, usize, Seq<u8>)>) -> Option<Seq<u8>>
    decreases edits.len(),
{
    if edits.len() == 0 {
        Some(b)
    } else {
        let e = edits.last();
        if e.0 + e.1 <= b.len() {
            apply_edits_rev(splice(b, e), edits.drop_last())
        } else {
            None
        }
    }
}

/// The text of a source after a pass's edits, as bytes.
pub fn apply_edits(source: &[u8], edits: &Vec<TextEdit>) -> (r: Option<Vec<u8>>)
    ensures
        match r {
            Some(b) => apply_edits_rev(source@, edits_view(edits@)) == Some(b@),
            None => apply_edits_rev(source@, edits_view(edits@)) is None,
        },
{
    let ghost ev = edits_view(edits@);
    let mut cur: Vec<u8> = Vec::new();
    let mut k: usize = 0;
    while k < source.len()
        invariant
            k <= source.len(),
            cur@ == source@.take(k as int),
        decreases source.len() - k,
    {
        cur.push(source[k]);
        assert(cur@ =~= source@.take(k + 1));
        k = k + 1;
    }
    assert(source@.take(source.len() as int) =~= source@);
    let mut i: usize = edits.len();
    assert(ev.take(i as int) =~= ev);
    while i > 0
        invariant
            i <= edits.len(),
            ev == edits_view(edits@),
            apply_edits_rev(source@, ev) == apply_edits_rev(cur@, ev.take(i as int)),
        decreases i,
    {
        let e = &edits[i - 1];
        assert(ev.take(i as int).last() == ev[i - 1]);
        assert(ev[i - 1] == (e.position, e.deleted_length, e.inserted_text@));
        assert(ev.take(i as int).drop_last() =~= ev.take(i - 1));
        if e.deleted_length > cur.len() || e.position > cur.len() - e.deleted_length {
            return None;
        }
        let end = e.position + e.deleted_length;
        let mut next: Vec<u8> = Vec::new();
        let mut j: usize = 0;
        while j < e.position
            invariant
                j <= e.position <= cur.len(),
                next@ == cur@.take(j as int),
            decreases e.position - j,
        {
            next.push(cur[j]);
            assert(next@ =~= cur@.take(j + 1));
            j = j + 1;
        }
        let mut t: usize = 0;
        while t < e.inserted_text.len()
            invariant
                t <= e.inserted_text.len(),
                next@ == cur@.take(e.position as int) + e.inserted_text@.take(t as int),
            decreases e.inserted_text.len() - t,
        {
            next.push(e.inserted_text[t]);
            assert(next@ =~= cur@.take(e.position as int) + e.inserted_text@.take(t + 1));
            t = t + 1;
        }
        assert(e.inserted_text@.take(e.inserted_text.len() as int) =~= e.inserted_text@);
        let mut q: usize = end;
        let ghost base = next@;
        while q < cur.len()
            invariant
                end <= q <= cur.len(),
                next@ == base + cur@.subrange(end as int, q as int),
            decreases cur.len() - q,
        {
            next.push(cur[q]);
            assert(next@ =~= base + cur@.subrange(end as int, q + 1));
            q = q + 1;
        }
        assert(next@ =~= splice(cur@, (e.position, e.deleted_length, e.inserted_text@)));
        cur = next;
        i = i - 1;
    }
    Some(cur)
}

pub open spec fn too_many_text(n: nat) -> Seq<char> {
    "replace_all: too many matches in one pass ("@ + decimal(n) + ")"@
}

pub open spec fn bad_edit_text() -> Seq<char> {
    "replace_all: edit outside the parsed text"@
}

/// What one rewrite pass does with the edits it got.
pub enum PassOutcome {
    /// No edits: nothing left to rewrite.
    NoEdits,
    /// More edits than one pass allows.
    TooMany(usize),
    /// An edit that cannot be applied to the text.
    Invalid,
    /// The edits left the text as it was.
    Unchanged,
    /// The new text and the number of edits applied.
    Changed(String, usize),
}

/// The outcome of a pass over `current` given its edits.
pub open spec fn pass_outcome_spec(current: Seq<u8>, edits: Seq<(usize, usize, Seq<u8>)>) -> (int, Option<Seq<u8>>) {
    if edits.len() == 0 {
        (0, None)
    } else if edits.len() > MAX_REWRITE_EDITS_PER_PASS {
        (1, None)
    } else {
        match apply_edits_rev(current, edits) {
            None => (2, None),
            Some(b) => if b == current {
                (3, None)
            } else if vstd::utf8::valid_utf8(b) {
                (4, Some(b))
            } else {
                (2, None)
            },
        }
    }
}

/// Decides a pass from the edits that ast-grep produced for `current`.
pub fn rewrite_pass(current: &str, edits: Vec<TextEdit>) -> (r: PassOutcome)
    ensures
        match r {
            PassOutcome::NoEdits => pass_outcome_spec(current.spec_bytes(), edits_view(edits@)).0 == 0,
            PassOutcome::TooMany(n) => pass_outcome_spec(current.spec_bytes(), edits_view(edits@)).0 == 1 && n == edits@.len(),
            PassOutcome::Invalid => pass_outcome_spec(current.spec_bytes(), edits_view(edits@)).0 == 2,
            PassOutcome::Unchanged => pass_outcome_spec(current.spec_bytes(), edits_view(edits@)).0 == 3,
            PassOutcome::Changed(s, n) => pass_outcome_spec(current.spec_bytes(), edits_view(edits@)).0 == 4
                && pass_outcome_spec(current.spec_bytes(), edits_view(edits@)).1 == Some(vstd::utf8::encode_utf8(s@))
                && n == edits@.len() && n > 0,
        },
{
    if edits.len() == 0 {
        return PassOutcome::NoEdits;
    }
    if edits.len() > MAX_REWRITE_EDITS_PER_PASS {
        return PassOutcome::TooMany(edits.len());
    }
    let bytes = current.as_bytes();
    match apply_edits(bytes, &edits) {
        None => PassOutcome::Invalid,
        Some(next) => {
            if bytes_equal(next.as_slice(), bytes) {
                PassOutcome::Unchanged
            } else {
                match crate::text::string_from_utf8(next) {
                    Some(s) => {
                        proof {
                            vstd::utf8::encode_utf8_valid_utf8(s@);
                        }
                        PassOutcome::Changed(s, edits.len())
                    },
                    None => PassOutcome::Invalid,
                }
            }
        },
    }
}

fn bytes_equal(a: &[u8], b: &[u8]) -> (r: bool)
    ensures
        r == (a@ == b@),
{
    if a.len() != b.len() {
        return false;
    }
    let mut i: usize = 0;
    while i < a.len()
        invariant
            i <= a.len(),
            a.len() == b.len(),
            forall|k: int| 0 <= k < i ==> a@[k] == b@[k],
        decreases a.len() - i,
    {
        if a[i] != b[i] {
            return false;
        }
        i = i + 1;
    }
    assert(a@ =~= b@);
    true
}

fn same_text(a: &str, b: &str) -> (r: bool)
    ensures
        r == (a@ == b@),
{
    let av = crate::text::chars_of(a);
    crate::lang::str_eq(av.as_slice(), b)
}

/// A count of replacements grown by `n`, held at `usize::MAX`.
pub open spec fn sat_add(a: nat, n: nat) -> nat {
    if a + n > usize::MAX { usize::MAX as nat } else { a + n }
}

/// The passes of one compiled pattern over `cur`, from pass `p` on, with
/// `total` replacements counted so far: each pass takes the edits that
/// `Node::replace_all` gives for the current text; the passes go on while a
/// pass changes the text, for at most `MAX_REWRITE_PASSES` passes. The final
/// text and count, or the error of a pass with too many edits or an edit
/// outside the text.
pub open spec fn rewrite_passes(cur: Seq<char>, k: PatternKey, template: Seq<char>, p: nat, total: nat)
    -> Result<(Seq<char>, nat), Seq<char>>
    decreases MAX_REWRITE_PASSES - p,
{
    if p >= MAX_REWRITE_PASSES {
        Ok((cur, total))
    } else {
        let e = ast_replace_edits(cur, k.lang, k.context, k.selector, k.strict, template);
        let o = pass_outcome_spec(vstd::utf8::encode_utf8(cur), e);
        if o.0 == 1 {
            Err(too_many_text(e.len()))
        } else if o.0 == 2 {
            Err(bad_edit_text())
        } else if o.0 == 4 && o.1 is Some {
            rewrite_passes(vstd::utf8::decode_utf8(o.1->0), k, template, p + 1, sat_add(total, e.len()))
        } else {
            Ok((cur, total))
        }
    }
}

/// The compiled patterns from index `i` on, in order: one with no match is
/// passed over; the first whose passes change the text gives the new text
/// and its count; an error of the passes is the result.
pub open spec fn rewrite_over(source: Seq<char>, keys: Seq<PatternKey>, template: Seq<char>, i: int)
    -> Result<Option<(Seq<char>, nat)>, Seq<char>>
    decreases keys.len() - i,
{
    if i < 0 || i >= keys.len() {
        Ok(None)
    } else {
        let k = keys[i];
        if ast_match_ranges(source, k.lang, k.context, k.selector, k.strict).len() == 0 {
            rewrite_over(source, keys, template, i + 1)
        } else {
            match rewrite_passes(source, k, template, 0, 0) {
                Err(e) => Err(e),
                Ok((t, n)) => if n == 0 || t == source {
                    rewrite_over(source, keys, template, i + 1)
                } else {
                    Ok(Some((t, n)))
                },
            }
        }
    }
}

/// The rewrite of `source`: over the compile strategies of the pattern in
/// the file's language; nothing for `Auto`.
pub open spec fn rewrite_spec(source: Seq<char>, pattern: Seq<char>, template: Seq<char>, lang: SupportedLanguage)
    -> Result<Option<(Seq<char>, nat)>, Seq<char>>
{
    match cli_name_spec(lang) {
        None => Ok(None),
        Some(name) => rewrite_over(source, strategy_keys(pattern, lang, name), template, 0),
    }
}

pub open spec fn rewrite_result_view(r: Result<Option<(String, usize)>, String>) -> Result<Option<(Seq<char>, nat)>, Seq<char>> {
    match r {
        Ok(Some((t, n))) => Ok(Some((t@, n as nat))),
        Ok(None) => Ok(None),
        Err(e) => Err(e@),
    }
}

/// Applies the rewrite to one source: `Some((new text, replacements))`,
/// `None` when nothing matched (or for `Auto`, which has no language).
///
/// Each strategy is tried in order; the first one that matches somewhere is
/// used, in passes of `Node::replace_all` until a pass changes nothing
/// (`rewrite_spec`).
#[verifier::rlimit(40)]
pub fn apply_rewrite_to_string(source: &str, pattern: &str, rewrite_template: &str, file_lang: SupportedLanguage)
    -> (r: Result<Option<(String, usize)>, String>)
    ensures
        rewrite_result_view(r) == rewrite_spec(source@, pattern@, rewrite_template@, file_lang),
        file_lang == SupportedLanguage::Auto ==> r == Ok::<Option<(String, usize)>, String>(None),
        pattern@.len() == 0 ==> r == Ok::<Option<(String, usize)>, String>(None),
        r matches Ok(Some((t, n))) ==> n > 0 && t@ != source@,
        r matches Err(e) ==> (exists|n: nat| e@ == too_many_text(n)) || e@ == bad_edit_text(),
{
    let ast_lang = match file_lang.ast_lang() {
        Some(l) => l,
        None => return Ok(None),
    };
    let ghost name = ast_lang.name_view();
    let ghost keys = strategy_keys(pattern@, file_lang, name);
    let ghost tpl = rewrite_template@;
    let compiled_patterns = compile_strategies(pattern, file_lang, &ast_lang);
    proof {
        if pattern@.len() == 0 {
            reveal(crate::ast_pattern::declarator_applies);
            reveal(crate::ast_pattern::call_applies);
            assert(!crate::ast_pattern::function_definition_spec(pattern@));
            assert(!crate::ast_pattern::qualified_call_spec(pattern@));
            assert(keys =~= Seq::<PatternKey>::empty());
        }
    }
    if compiled_patterns.len() == 0 {
        return Ok(None);
    }
    let mut s: usize = 0;
    while s < compiled_patterns.len()
        invariant
            s <= compiled_patterns.len(),
            file_lang != SupportedLanguage::Auto,
            crate::ast_pattern::keys_of(compiled_patterns@) == keys,
            cli_name_spec(file_lang) == Some(name),
            keys == strategy_keys(pattern@, file_lang, name),
            tpl == rewrite_template@,
            rewrite_over(source@, keys, tpl, s as int) == rewrite_spec(source@, pattern@, tpl, file_lang),
            pattern@.len() == 0 ==> keys.len() == 0,
        decreases compiled_patterns.len() - s,
    {
        let compiled_pat = &compiled_patterns[s];
        let ghost k = keys[s as int];
        assert(compiled_pat.key() == k);
        let ghost si = s as int;
        s = s + 1;
        if !has_any_match(source, compiled_pat) {
            continue;
        }
        let mut current = source.to_string();
        let mut total_edits: usize = 0;
        let mut pass: usize = 0;
        let mut stopped = false;
        while pass < MAX_REWRITE_PASSES && !stopped
            invariant
                pass <= MAX_REWRITE_PASSES,
                file_lang != SupportedLanguage::Auto,
                compiled_pat.key() == k,
                tpl == rewrite_template@,
                0 <= si < keys.len(),
                keys[si] == k,
                ast_match_ranges(source@, k.lang, k.context, k.selector, k.strict).len() > 0,
                rewrite_over(source@, keys, tpl, si) == rewrite_spec(source@, pattern@, tpl, file_lang),
                pattern@.len() == 0 ==> keys.len() == 0,
                !stopped ==> rewrite_passes(current@, k, tpl, pass as nat, total_edits as nat) == rewrite_passes(source@, k, tpl, 0, 0),
                stopped ==> rewrite_passes(source@, k, tpl, 0, 0) == Ok::<(Seq<char>, nat), Seq<char>>((current@, total_edits as nat)),
            decreases MAX_REWRITE_PASSES - pass, (if stopped { 0int } else { 1int }),
        {
            let edits = replace_all_edits(current.as_str(), compiled_pat, rewrite_template);
            let ghost e = edits_view(edits@);
            assert(e == ast_replace_edits(current@, k.lang, k.context, k.selector, k.strict, tpl));
            match rewrite_pass(current.as_str(), edits) {
                PassOutcome::NoEdits => {
                    stopped = true;
                },
                PassOutcome::TooMany(n) => {
                    let mut msg = "replace_all: too many matches in one pass (".to_string();
                    let d = crate::text::usize_string(n);
                    push_str(&mut msg, d.as_str());
                    push_str(&mut msg, ")");
                    assert(msg@ == too_many_text(n as nat));
                    assert(rewrite_over(source@, keys, tpl, si) == Err::<Option<(Seq<char>, nat)>, Seq<char>>(msg@));
                    return Err(msg);
                },
                PassOutcome::Invalid => {
                    let msg = "replace_all: edit outside the parsed text".to_string();
                    assert(rewrite_over(source@, keys, tpl, si) == Err::<Option<(Seq<char>, nat)>, Seq<char>>(msg@));
                    return Err(msg);
                },
                PassOutcome::Unchanged => {
                    stopped = true;
                },
                PassOutcome::Changed(next, n) => {
                    proof {
                        vstd::utf8::encode_utf8_decode_utf8(next@);
                    }
                    total_edits = total_edits.saturating_add(n);
                    current = next;
                    pass = pass + 1;
                },
            }
        }
        proof {
            vstd::utf8::encode_utf8_decode_utf8(current@);
            vstd::utf8::encode_utf8_decode_utf8(source@);
        }
        if total_edits == 0 || same_text(current.as_str(), source) {
            continue;
        }
        assert(rewrite_over(source@, keys, tpl, si) == Ok::<Option<(Seq<char>, nat)>, Seq<char>>(Some((current@, total_edits as nat))));
        return Ok(Some((current, total_edits)));
    }
    Ok(None)
}

/// The preview of one searched file, given its decoded text: `Ok(None)`
/// when the rewrite leaves it as it is, the error of the rewrite otherwise.
pub fn preview_for_file(fr: FileResult, source: String, pattern: &str, rewrite_template: &str)
    -> (r: Result<Option<RewriteFilePreview>, String>)
    ensures
        match rewrite_spec(source@, pattern@, rewrite_template@, fr.source_language) {
            Ok(None) => r matches Ok(None),
            Err(e) => r matches Err(x) && x@ == e,
            Ok(Some((t, n))) => r matches Ok(Some(p)) && p.source_after@ == t && p.replacement_count == n,
        },
        fr.source_language == SupportedLanguage::Auto ==> r matches Ok(None),
        r matches Ok(Some(p)) ==> {
            &&& p.path@ == fr.path@
            &&& p.relative_path@ == fr.relative_path@
            &&& p.source_before@ == source@
            &&& p.source_after@ != source@
            &&& p.replacement_count > 0
            &&& p.text_encoding@ == fr.text_encoding@
            &&& p.source_language == fr.source_language
        },
        r matches Err(e) ==> (exists|n: nat| e@ == too_many_text(n)) || e@ == bad_edit_text(),
{
    match apply_rewrite_to_string(source.as_str(), pattern, rewrite_template, fr.source_language) {
        Ok(Some((after, count))) => {
            if count > 0 && !same_text(after.as_str(), source.as_str()) {
                let text_encoding = fr.text_encoding.clone();
                Ok(Some(RewriteFilePreview {
                    path: fr.path,
                    relative_path: fr.relative_path,
                    source_before: source,
                    source_after: after,
                    text_encoding,
                    source_language: fr.source_language,
                    replacement_count: count,
                }))
            } else {
                Ok(None)
            }
        },
        Ok(None) => Ok(None),
        Err(e) => Err(e),
    }
}

} // verus!
