//! Compiling an ast-grep pattern with several strategies, and the calls into
//! ast-grep that search and rewrite with a compiled pattern.
use vstd::prelude::*;
use ast_grep_core::Pattern;
use ast_grep_language::{LanguageExt, SupportLang};
use crate::lang::{cli_name_spec, SupportedLanguage};
use crate::text::{
    chars_of, contains, contains_char, ends_with, find, push_str, starts_with, str_contains,
    str_contains_char, trim, trim_string,
};

verus! {

#[verifier::external_type_specification]
#[verifier::external_body]
pub struct ExPattern(Pattern);

#[verifier::external_type_specification]
#[verifier::external_body]
pub struct ExSupportLang(SupportLang);

// ───────────────────────── compiled values ─────────────────────────

/// An ast-grep language together with the name it was looked up by.
pub struct AstLang {
    lang: SupportLang,
    name: String,
}

impl AstLang {
    /// The name the language was looked up by.
    pub closed spec fn name_view(&self) -> Seq<char> {
        self.name@
    }

    /// The ast-grep language.
    pub fn support_lang(&self) -> SupportLang {
        self.lang
    }
}

/// What a compiled pattern was compiled from: the language name, the text
/// handed to ast-grep, the node kind taken from it when the text is a larger
/// context (`None` for a pattern compiled as it stands), and whether AST
/// strictness was set.
pub struct PatternKey {
    pub lang: Seq<char>,
    pub context: Seq<char>,
    pub selector: Option<Seq<char>>,
    pub strict: bool,
}

/// A compiled ast-grep pattern together with what it was compiled from.
pub struct AstPattern {
    pat: Pattern,
    lang: SupportLang,
    lang_name: String,
    context: String,
    selector: Option<String>,
    strict: bool,
}

impl AstPattern {
    /// What the pattern was compiled from.
    pub closed spec fn key(&self) -> PatternKey {
        PatternKey {
            lang: self.lang_name@,
            context: self.context@,
            selector: match self.selector {
                Some(s) => Some(s@),
                None => None,
            },
            strict: self.strict,
        }
    }

    /// The ast-grep pattern.
    pub fn pattern(&self) -> &Pattern {
        &self.pat
    }
}

pub open spec fn keys_of(v: Seq<AstPattern>) -> Seq<PatternKey> {
    Seq::new(v.len(), |i: int| v[i].key())
}

// ───────────────────────── calls into ast-grep ─────────────────────────

/// Calls `SupportLang::from_str` (ast-grep's language names, case-insensitive),
/// keeping the name with the language. Each CLI name of a fixed language is
/// one of its aliases, so it is accepted.
#[verifier::external_body]
fn support_lang_named(name: &str) -> (r: Option<AstLang>)
    ensures
        r matches Some(l) ==> l.name_view() == name@,
        (name@ == "rust"@ || name@ == "java"@ || name@ == "python"@ || name@ == "javascript"@
            || name@ == "typescript"@ || name@ == "go"@ || name@ == "c"@ || name@ == "cpp"@
            || name@ == "csharp"@ || name@ == "kotlin"@ || name@ == "scala"@) ==> r is Some,
{
    name.parse::<SupportLang>().ok().map(|lang| AstLang { lang, name: name.to_string() })
}

/// Names whether `Pattern::try_new` accepts a pattern text in the language
/// that `SupportLang::from_str` gives for a name: a function of the two texts.
pub uninterp spec fn pattern_accepted(lang: Seq<char>, src: Seq<char>) -> bool;

/// Calls `Pattern::try_new`: the pattern, or `None` when ast-grep refuses it.
/// An empty text parses to a root without children, which `try_new` refuses
/// (`PatternError::NoContent`).
#[verifier::external_body]
fn pattern_try_new(src: &str, lang: &AstLang) -> (r: Option<AstPattern>)
    ensures
        r is Some <==> pattern_accepted(lang.name_view(), src@),
        src@.len() == 0 ==> r is None,
        r matches Some(p) ==> p.key() == (PatternKey { lang: lang.name_view(), context: src@, selector: None, strict: false }),
{
    Pattern::try_new(src, lang.lang).ok().map(|pat| AstPattern {
        pat,
        lang: lang.lang,
        lang_name: lang.name.clone(),
        context: src.to_string(),
        selector: None,
        strict: false,
    })
}

/// Names whether `Pattern::contextual` accepts a context text and a selector
/// kind in a language: a function of the three texts.
pub uninterp spec fn contextual_accepted(lang: Seq<char>, context: Seq<char>, selector: Seq<char>) -> bool;

/// Calls `Pattern::contextual`: `context` parsed as code, the node of kind
/// `selector` taken as the pattern; `None` when ast-grep refuses it.
#[verifier::external_body]
fn pattern_contextual(context: &str, selector: &str, lang: &AstLang) -> (r: Option<AstPattern>)
    ensures
        r is Some <==> contextual_accepted(lang.name_view(), context@, selector@),
        r matches Some(p) ==> p.key() == (PatternKey { lang: lang.name_view(), context: context@, selector: Some(selector@), strict: false }),
{
    Pattern::contextual(context, selector, lang.lang).ok().map(|pat| AstPattern {
        pat,
        lang: lang.lang,
        lang_name: lang.name.clone(),
        context: context.to_string(),
        selector: Some(selector.to_string()),
        strict: false,
    })
}

/// Calls `Pattern::with_strictness` with `MatchStrictness::Ast`.
#[verifier::external_body]
fn with_ast_strictness(p: AstPattern) -> (r: AstPattern)
    ensures
        r.key() == (PatternKey { lang: p.key().lang, context: p.key().context, selector: p.key().selector, strict: true }),
{
    AstPattern { pat: p.pat.with_strictness(ast_grep_core::MatchStrictness::Ast), strict: true, ..p }
}

/// Names what `Node::find_all` on the root of `source` parsed in a language
/// yields for a compiled pattern: the byte range and the text of each matched
/// node, in order. A function of the source and of what the pattern was
/// compiled from.
pub uninterp spec fn ast_match_ranges(source: Seq<char>, lang: Seq<char>, context: Seq<char>, selector: Option<Seq<char>>, strict: bool)
    -> Seq<(usize, usize, Seq<char>)>;

/// Calls `LanguageExt::ast_grep` on `source` and `Node::find_all` with `pat`
/// on its root: whether there is a first match, so whether `find_all`
/// yields anything.
#[verifier::external_body]
pub(crate) fn has_any_match(source: &str, pat: &AstPattern) -> (b: bool)
    ensures
        b == (ast_match_ranges(source@, pat.key().lang, pat.key().context, pat.key().selector, pat.key().strict).len() > 0),
{
    pat.lang.ast_grep(source).root().find_all(&pat.pat).next().is_some()
}

/// One replacement of `Node::replace_all`: `deleted_length` bytes at byte
/// `position` of the parsed text are replaced by `inserted_text`.
pub struct TextEdit {
    pub position: usize,
    pub deleted_length: usize,
    pub inserted_text: Vec<u8>,
}

pub open spec fn edits_view(v: Seq<TextEdit>) -> Seq<(usize, usize, Seq<u8>)> {
    Seq::new(v.len(), |i: int| (v[i].position, v[i].deleted_length, v[i].inserted_text@))
}

/// Names what `Node::replace_all` on the root of `source` parsed in a
/// language returns for a compiled pattern and a template: each edit's
/// position, deleted length and inserted bytes, in order.
pub uninterp spec fn ast_replace_edits(source: Seq<char>, lang: Seq<char>, context: Seq<char>, selector: Option<Seq<char>>, strict: bool, template: Seq<char>)
    -> Seq<(usize, usize, Seq<u8>)>;

/// Calls `LanguageExt::ast_grep` on `source` and `Node::replace_all` with
/// `pat` and `template` on its root, keeping each edit's fields.
#[verifier::external_body]
pub(crate) fn replace_all_edits(source: &str, pat: &AstPattern, template: &str) -> (r: Vec<TextEdit>)
    ensures
        edits_view(r@) == ast_replace_edits(source@, pat.key().lang, pat.key().context, pat.key().selector, pat.key().strict, template@),
{
    pat.lang.ast_grep(source)
        .root()
        .replace_all(&pat.pat, template)
        .into_iter()
        .map(|e| TextEdit { position: e.position, deleted_length: e.deleted_length, inserted_text: e.inserted_text })
        .collect()
}

pub open spec fn ranges_view(v: Seq<(usize, usize, String)>) -> Seq<(usize, usize, Seq<char>)> {
    Seq::new(v.len(), |i: int| (v[i].0, v[i].1, v[i].2@))
}

/// Calls `LanguageExt::ast_grep` on `source` and `Node::find_all` with `pat`:
/// the byte range and the text of every matched node.
#[verifier::external_body]
pub(crate) fn match_ranges(source: &str, pat: &AstPattern) -> (r: Vec<(usize, usize, String)>)
    ensures
        ranges_view(r@) == ast_match_ranges(source@, pat.key().lang, pat.key().context, pat.key().selector, pat.key().strict),
{
    pat.lang.ast_grep(source)
        .root()
        .find_all(&pat.pat)
        .map(|m| {
            let r = m.get_node().range();
            (r.start, r.end, m.text().to_string())
        })
        .collect()
}

/// Names what `MetaVarEnv::get_match` gives for a metavariable in each match
/// that `Node::find_all` yields (in order): the byte range and kind of the
/// captured node, if any.
pub uninterp spec fn ast_captures(source: Seq<char>, lang: Seq<char>, context: Seq<char>, selector: Option<Seq<char>>, strict: bool, capture: Seq<char>)
    -> Seq<Option<(usize, usize, Seq<char>)>>;

pub open spec fn captures_view(v: Seq<(usize, usize, String, Option<(usize, usize, String)>)>) -> Seq<Option<(usize, usize, Seq<char>)>> {
    Seq::new(v.len(), |i: int| match v[i].3 {
        Some(c) => Some((c.0, c.1, c.2@)),
        None => None,
    })
}

pub open spec fn match_part_view(v: Seq<(usize, usize, String, Option<(usize, usize, String)>)>) -> Seq<(usize, usize, Seq<char>)> {
    Seq::new(v.len(), |i: int| (v[i].0, v[i].1, v[i].2@))
}

/// Calls `LanguageExt::ast_grep` on `source` and `Node::find_all` with `pat`:
/// the byte range and the text of every matched node, and the byte range and
/// kind of the node that `MetaVarEnv::get_match` gives for the metavariable
/// `capture`.
#[verifier::external_body]
pub(crate) fn match_captures(source: &str, pat: &AstPattern, capture: &str)
    -> (r: Vec<(usize, usize, String, Option<(usize, usize, String)>)>)
    ensures
        match_part_view(r@) == ast_match_ranges(source@, pat.key().lang, pat.key().context, pat.key().selector, pat.key().strict),
        captures_view(r@) == ast_captures(source@, pat.key().lang, pat.key().context, pat.key().selector, pat.key().strict, capture@),
{
    pat.lang.ast_grep(source)
        .root()
        .find_all(&pat.pat)
        .map(|m| {
            let r = m.get_node().range();
            let cap = m.get_env().get_match(capture).map(|c| (c.range().start, c.range().end, c.kind().to_string()));
            (r.start, r.end, m.text().to_string(), cap)
        })
        .collect()
}

impl SupportedLanguage {
    /// The ast-grep language of a fixed language, looked up by its CLI name
    /// (`None` for `Auto`).
    pub fn ast_lang(self) -> (r: Option<AstLang>)
        ensures
            (r is Some) <==> (self != SupportedLanguage::Auto),
            r matches Some(l) ==> cli_name_spec(self) == Some(l.name_view()),
    {
        match self.to_cli_lang_str() {
            Some(name) => support_lang_named(name),
            None => None,
        }
    }

    /// The ast-grep language of a fixed language (`None` for `Auto`).
    pub fn to_support_lang(self) -> (r: Option<SupportLang>)
        ensures
            (r is Some) <==> (self != SupportedLanguage::Auto),
    {
        match self.ast_lang() {
            Some(l) => Some(l.support_lang()),
            None => None,
        }
    }
}

// ───────────────────────── strategies ─────────────────────────

pub open spec fn starts_with_any(s: Seq<char>, ps: Seq<Seq<char>>) -> bool {
    exists|i: int| 0 <= i < ps.len() && starts_with(s, #[trigger] ps[i])
}

pub open spec fn control_prefixes() -> Seq<Seq<char>> {
    seq!["if "@, "if("@, "for "@, "for("@, "while "@, "while("@, "switch "@, "switch("@, "catch "@, "catch("@,
        "do "@, "do{"@, "else "@, "return "@, "throw "@]
}

pub open spec fn statement_prefixes() -> Seq<Seq<char>> {
    seq!["if "@, "for "@, "while "@, "switch "@, "return "@, "catch "@, "throw "@]
}

/// A C/C++ function or method definition `<signature>(<args>) … { <body> }`:
/// ends with `}`, is not a control statement, and its first `(` comes before
/// its first `{` with a `)` between them.
pub open spec fn function_definition_spec(pattern: Seq<char>) -> bool {
    let t = trim(pattern);
    &&& t.len() > 0
    &&& t.last() == '}'
    &&& !starts_with_any(t, control_prefixes())
    &&& match (find(t, "("@), find(t, "{"@)) {
        (Some(p), Some(b)) => p < b && contains_char(t.subrange(p, b), ')'),
        _ => false,
    }
}

/// A qualified call `A::f(…)`: has `::` and `(`, ends with `)`, has no `{`,
/// `=` or final `;`, and is not a statement.
pub open spec fn qualified_call_spec(pattern: Seq<char>) -> bool {
    let t = trim(pattern);
    &&& t.len() > 0
    &&& contains(t, "::"@)
    &&& contains_char(t, '(')
    &&& t.last() == ')'
    &&& !contains_char(t, '{')
    &&& !contains_char(t, '=')
    &&& !starts_with_any(t, statement_prefixes())
}

fn starts_with_any_exec(t: &str, ps: &[&str]) -> (b: bool)
    ensures
        b == starts_with_any(t@, crate::text::str_views(ps@)),
{
    let mut i: usize = 0;
    while i < ps.len()
        invariant
            i <= ps.len(),
            forall|k: int| 0 <= k < i ==> !starts_with(t@, #[trigger] crate::text::str_views(ps@)[k]),
        decreases ps.len() - i,
    {
        if crate::text::str_starts_with(t, ps[i]) {
            assert(starts_with(t@, crate::text::str_views(ps@)[i as int]));
            return true;
        }
        i = i + 1;
    }
    false
}

#[verifier::rlimit(100)]
pub fn looks_like_function_definition_pattern(pattern: &str) -> (b: bool)
    ensures
        b == function_definition_spec(pattern@),
{
    let t = trim_string(pattern);
    let v = chars_of(t.as_str());
    if v.len() == 0 || v[v.len() - 1] != '}' {
        return false;
    }
    let prefixes: &[&str] = &["if ", "if(", "for ", "for(", "while ", "while(", "switch ", "switch(", "catch ",
        "catch(", "do ", "do{", "else ", "return ", "throw "];
    assert(crate::text::str_views(prefixes@) =~= control_prefixes());
    if starts_with_any_exec(t.as_str(), prefixes) {
        return false;
    }
    let open_paren = match crate::text::find_str(v.as_slice(), "(") {
        Some(i) => i,
        None => return false,
    };
    let open_brace = match crate::text::find_str(v.as_slice(), "{") {
        Some(i) => i,
        None => return false,
    };
    if open_paren >= open_brace {
        return false;
    }
    proof { reveal_strlit("{"); }
    assert(open_brace < v.len());
    let seg = crate::text::sub_vec(v.as_slice(), open_paren, open_brace);
    crate::text::index_of_char(seg.as_slice(), ')').is_some()
}

pub fn looks_like_qualified_call_pattern(pattern: &str) -> (b: bool)
    ensures
        b == qualified_call_spec(pattern@),
{
    let t = trim_string(pattern);
    let v = chars_of(t.as_str());
    if v.len() == 0 || !str_contains(t.as_str(), "::") {
        return false;
    }
    if !str_contains_char(t.as_str(), '(') || v[v.len() - 1] != ')' {
        return false;
    }
    if str_contains_char(t.as_str(), '{') || str_contains_char(t.as_str(), '=') {
        return false;
    }
    let prefixes: &[&str] = &["if ", "for ", "while ", "switch ", "return ", "catch ", "throw "];
    assert(crate::text::str_views(prefixes@) =~= statement_prefixes());
    !starts_with_any_exec(t.as_str(), prefixes)
}

/// What the C/C++ rescue for function definitions hands to ast-grep: the
/// trimmed pattern, parsed as code, its `function_declarator` node taken,
/// matched by AST.
pub open spec fn declarator_key(lang: Seq<char>, pattern: Seq<char>) -> PatternKey {
    PatternKey { lang, context: trim(pattern), selector: Some("function_declarator"@), strict: true }
}

/// What the C/C++ rescue for qualified calls hands to ast-grep: `pattern;`,
/// its `call_expression` node taken, matched by AST.
pub open spec fn call_key(lang: Seq<char>, pattern: Seq<char>) -> PatternKey {
    PatternKey { lang, context: pattern + ";"@, selector: Some("call_expression"@), strict: true }
}

/// The standard compilation: the pattern as it stands.
pub open spec fn plain_key(lang: Seq<char>, pattern: Seq<char>) -> PatternKey {
    PatternKey { lang, context: pattern, selector: None, strict: false }
}

pub open spec fn is_c_family(lang: SupportedLanguage) -> bool {
    lang == SupportedLanguage::C || lang == SupportedLanguage::Cpp
}

/// Whether the function-definition rescue compiles the pattern.
#[verifier::opaque]
pub open spec fn declarator_applies(pattern: Seq<char>, lang: SupportedLanguage, name: Seq<char>) -> bool {
    is_c_family(lang) && function_definition_spec(pattern) && contextual_accepted(name, trim(pattern), "function_declarator"@)
}

/// Whether the qualified-call rescue compiles the pattern.
#[verifier::opaque]
pub open spec fn call_applies(pattern: Seq<char>, lang: SupportedLanguage, name: Seq<char>) -> bool {
    is_c_family(lang) && qualified_call_spec(pattern) && contextual_accepted(name, pattern + ";"@, "call_expression"@)
}

/// The C/C++ rescue for function definitions: the trimmed pattern compiled
/// in a `function_declarator` context, matched by AST.
pub fn compile_contextual_function_declarator(pattern: &str, lang: SupportedLanguage, ast_lang: &AstLang) -> (r: Option<AstPattern>)
    ensures
        r is Some <==> declarator_applies(pattern@, lang, ast_lang.name_view()),
        r matches Some(p) ==> p.key() == declarator_key(ast_lang.name_view(), pattern@),
{
    reveal(declarator_applies);
    if !(lang == SupportedLanguage::C || lang == SupportedLanguage::Cpp) {
        return None;
    }
    if !looks_like_function_definition_pattern(pattern) {
        return None;
    }
    let t = trim_string(pattern);
    match pattern_contextual(t.as_str(), "function_declarator", ast_lang) {
        Some(p) => Some(with_ast_strictness(p)),
        None => None,
    }
}

/// The C/C++ rescue for qualified calls: `pattern;` compiled in a
/// `call_expression` context, matched by AST.
fn compile_contextual_call(pattern: &str, lang: SupportedLanguage, ast_lang: &AstLang) -> (r: Option<AstPattern>)
    ensures
        r is Some <==> call_applies(pattern@, lang, ast_lang.name_view()),
        r matches Some(p) ==> p.key() == call_key(ast_lang.name_view(), pattern@),
{
    reveal(call_applies);
    if !(lang == SupportedLanguage::C || lang == SupportedLanguage::Cpp) {
        return None;
    }
    if !looks_like_qualified_call_pattern(pattern) {
        return None;
    }
    let mut ctx = pattern.to_string();
    push_str(&mut ctx, ";");
    match pattern_contextual(ctx.as_str(), "call_expression", ast_lang) {
        Some(p) => Some(with_ast_strictness(p)),
        None => None,
    }
}

/// How many compile strategies can apply to a pattern: the standard one, and
/// for C/C++ the function-definition and qualified-call rescues.
pub open spec fn max_strategies(pattern: Seq<char>, lang: SupportedLanguage) -> nat {
    let c = lang == SupportedLanguage::C || lang == SupportedLanguage::Cpp;
    1 + (if c && function_definition_spec(pattern) { 1nat } else { 0 })
        + (if c && qualified_call_spec(pattern) { 1nat } else { 0 })
}

/// What the compile strategies that accept a pattern hand to ast-grep, in
/// order: the standard compilation, then (C/C++) the function-definition
/// rescue, then (C/C++) the qualified-call rescue.
pub open spec fn strategy_keys(pattern: Seq<char>, lang: SupportedLanguage, name: Seq<char>) -> Seq<PatternKey> {
    let k0 = plain_key(name, pattern);
    let k1 = declarator_key(name, pattern);
    let k2 = call_key(name, pattern);
    (if pattern_accepted(name, pattern) { seq![k0] } else { Seq::empty() })
        + (if declarator_applies(pattern, lang, name) { seq![k1] } else { Seq::empty() })
        + (if call_applies(pattern, lang, name) { seq![k2] } else { Seq::empty() })
}

/// The pattern compiled by every strategy that accepts it, in order: the
/// standard compilation, then (C/C++) the function-definition rescue, then
/// (C/C++) the qualified-call rescue.
pub fn compile_strategies(pattern: &str, lang: SupportedLanguage, ast_lang: &AstLang) -> (r: Vec<AstPattern>)
    ensures
        keys_of(r@) == strategy_keys(pattern@, lang, ast_lang.name_view()),
        r@.len() <= max_strategies(pattern@, lang),
        pattern@.len() == 0 ==> !pattern_accepted(ast_lang.name_view(), pattern@),
{
    let ghost name = ast_lang.name_view();
    let mut compiled: Vec<AstPattern> = Vec::new();
    let ghost s0: Seq<PatternKey> = if pattern_accepted(name, pattern@) { seq![plain_key(name, pattern@)] } else { Seq::empty() };
    match pattern_try_new(pattern, ast_lang) {
        Some(p) => compiled.push(p),
        None => {},
    }
    assert(keys_of(compiled@) =~= s0);
    let ghost s1: Seq<PatternKey> = s0 + (if declarator_applies(pattern@, lang, name) { seq![declarator_key(name, pattern@)] } else { Seq::empty() });
    match compile_contextual_function_declarator(pattern, lang, ast_lang) {
        Some(p) => compiled.push(p),
        None => {},
    }
    assert(keys_of(compiled@) =~= s1);
    match compile_contextual_call(pattern, lang, ast_lang) {
        Some(p) => compiled.push(p),
        None => {},
    }
    assert(keys_of(compiled@) =~= strategy_keys(pattern@, lang, name));
    proof {
        reveal(declarator_applies);
        reveal(call_applies);
    }
    compiled
}

} // verus!
