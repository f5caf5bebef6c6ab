//! Text-level helpers of the metavariable type hints: node-kind labels,
//! snippets, C/C++ type-name normalisation, `#define` and `#include` scanning.
use vstd::prelude::*;
use crate::text::{
    occurs_at, alphabetic, alphanumeric, chars_of, contains_char, ends_with, find, find_str, is_alphabetic_char,
    is_alphanumeric_char, is_white_space, is_white_space_char, join, join_strings, lines, lines_vec,
    push_char, push_str, rfind, rfind_chars, split_char, split_char_vec, starts_with, string_of,
    string_of_range, string_views, strip_prefix_vec, strip_suffix_vec, sub_vec, to_uppercase_char,
    trim, trim_start, trim_start_vec, trim_vec, uppercase_char, words, words_vec,
};

verus! {

// ───────────────────────── node kinds and snippets ─────────────────────────

/// A node kind word with its first character upper-cased.
pub open spec fn capitalized(w: Seq<char>) -> Seq<char> {
    if w.len() == 0 { Seq::empty() } else { uppercase_char(w[0]) + w.drop_first() }
}

pub open spec fn capitalized_concat(ws: Seq<Seq<char>>) -> Seq<char>
    decreases ws.len(),
{
    if ws.len() == 0 { Seq::empty() } else { capitalized_concat(ws.drop_last()) + capitalized(ws.last()) }
}

/// `string_literal` → `StringLiteral`: each `_`-separated word capitalised, joined.
pub open spec fn humanize_kind_spec(kind: Seq<char>) -> Seq<char> {
    capitalized_concat(split_char(kind, '_'))
}

pub fn humanize_tree_sitter_kind(kind: &str) -> (r: String)
    ensures
        r@ == humanize_kind_spec(kind@),
{
    let v = chars_of(kind);
    let parts = split_char_vec(v.as_slice(), '_');
    let ghost ps = split_char(kind@, '_');
    let mut out = String::new();
    let mut i: usize = 0;
    proof { reveal_strlit(""); }
    assert(ps.take(0) =~= Seq::<Seq<char>>::empty());
    while i < parts.len()
        invariant
            i <= parts.len(),
            parts@.len() == ps.len(),
            forall|k: int| 0 <= k < parts@.len() ==> (#[trigger] parts@[k])@ == ps[k],
            out@ == capitalized_concat(ps.take(i as int)),
        decreases parts.len() - i,
    {
        let w = &parts[i];
        let ghost before = out@;
        if w.len() > 0 {
            let up = to_uppercase_char(w[0]);
            push_str(&mut out, up.as_str());
            let rest = string_of_range(w.as_slice(), 1, w.len());
            push_str(&mut out, rest.as_str());
            assert(w@.subrange(1, w@.len() as int) =~= w@.drop_first());
        }
        assert(ps.take(i + 1).drop_last() =~= ps.take(i as int));
        assert(out@ =~= before + capitalized(ps[i as int]));
        i = i + 1;
    }
    assert(ps.take(ps.len() as int) =~= ps);
    out
}

/// Node kinds that denote literals (their label replaces a type).
pub open spec fn is_literal_kind(k: Seq<char>) -> bool {
    k == "string_literal"@ || k == "char_literal"@ || k == "raw_string_literal"@ || k == "integer_literal"@
        || k == "floating_point_literal"@ || k == "number_literal"@ || k == "decimal_literal"@
        || k == "hexadecimal_literal"@ || k == "binary_literal"@ || k == "octal_literal"@ || k == "true"@
        || k == "false"@ || k == "null"@ || k == "nullptr"@ || k == "interpreted_string_literal"@
        || k == "rune_literal"@
}

fn same(v: &Vec<char>, lit: &str) -> (b: bool)
    ensures
        b == (v@ == lit@),
{
    crate::lang::str_eq(v.as_slice(), lit)
}

/// Whether a tree-sitter node kind is one of the literal kinds.
pub fn is_literal_kind_name(kind: &str) -> (b: bool)
    ensures
        b == is_literal_kind(kind@),
{
    let v = chars_of(kind);
    same(&v, "string_literal") || same(&v, "char_literal") || same(&v, "raw_string_literal")
        || same(&v, "integer_literal") || same(&v, "floating_point_literal") || same(&v, "number_literal")
        || same(&v, "decimal_literal") || same(&v, "hexadecimal_literal") || same(&v, "binary_literal")
        || same(&v, "octal_literal") || same(&v, "true") || same(&v, "false") || same(&v, "null")
        || same(&v, "nullptr") || same(&v, "interpreted_string_literal") || same(&v, "rune_literal")
}

/// Maximal length, in characters, of a stored source snippet.
pub const HINT_SNIPPET_MAX_CHARS: usize = 120;

/// `s` without unit-separator and carriage-return characters.
pub open spec fn without_separators(s: Seq<char>) -> Seq<char>
    decreases s.len(),
{
    if s.len() == 0 {
        Seq::empty()
    } else {
        let r = without_separators(s.drop_last());
        if s.last() == '\u{1f}' || s.last() == '\r' { r } else { r.push(s.last()) }
    }
}

/// A snippet for display: separators removed, whitespace runs collapsed to one
/// blank, at most 120 characters (119 and `…` when longer).
pub open spec fn snippet_spec(s: Seq<char>) -> Seq<char> {
    let collapsed = join(words(without_separators(s)), " "@);
    if collapsed.len() <= 120 { collapsed } else { collapsed.take(119) + "…"@ }
}

pub fn truncate_hint_snippet(s: &str) -> (r: String)
    ensures
        r@ == snippet_spec(s@),
{
    let v = chars_of(s);
    let mut cleaned: Vec<char> = Vec::new();
    let mut i: usize = 0;
    assert(v@.take(0) =~= Seq::<char>::empty());
    while i < v.len()
        invariant
            i <= v.len(),
            cleaned@ == without_separators(v@.take(i as int)),
        decreases v.len() - i,
    {
        assert(v@.take(i + 1).drop_last() =~= v@.take(i as int));
        let c = v[i];
        if !(c == '\u{1f}' || c == '\r') {
            cleaned.push(c);
        }
        i = i + 1;
    }
    assert(v@.take(v.len() as int) =~= v@);
    let ws = words_vec(cleaned.as_slice());
    let collapsed = join_strings(ws.as_slice(), " ");
    let cv = chars_of(collapsed.as_str());
    if cv.len() <= HINT_SNIPPET_MAX_CHARS {
        collapsed
    } else {
        let mut out = string_of_range(cv.as_slice(), 0, HINT_SNIPPET_MAX_CHARS - 1);
        push_str(&mut out, "…");
        assert(cv@.subrange(0, 119) =~= cv@.take(119));
        out
    }
}

// ───────────────────────── C / C++ type names ─────────────────────────

pub open spec fn is_ptr_ref(c: char) -> bool {
    c == '*' || c == '&'
}

/// `s` without trailing `*` and `&`.
pub open spec fn trim_end_ptr_ref(s: Seq<char>) -> Seq<char>
    decreases s.len(),
{
    if s.len() > 0 && is_ptr_ref(s.last()) { trim_end_ptr_ref(s.drop_last()) } else { s }
}

/// Repeatedly drops trailing `*`/`&` and trims, while the text ends in one.
pub open spec fn strip_ptr_refs(s: Seq<char>) -> Seq<char>
    decreases s.len(),
{
    if s.len() > 0 && is_ptr_ref(s.last()) {
        let t = trim(trim_end_ptr_ref(s));
        if t.len() < s.len() { strip_ptr_refs(t) } else { t }
    } else {
        s
    }
}

/// `s` trimmed after removing `p` from its front, when it starts with `p`.
pub open spec fn strip_word_prefix(s: Seq<char>, p: Seq<char>) -> Seq<char> {
    if starts_with(s, p) { trim(s.skip(p.len() as int)) } else { s }
}

/// The last `::`-separated segment, trimmed (the whole text when there is none).
pub open spec fn after_last_scope(s: Seq<char>) -> Seq<char> {
    match rfind(s, "::"@) {
        Some(i) => trim(s.skip(i + 2)),
        None => s,
    }
}

/// The text before the first `c`, trimmed.
pub open spec fn before_char_trimmed(s: Seq<char>, c: char) -> Seq<char> {
    trim(split_char(s, c)[0])
}

/// The last whitespace-separated word (the text itself when it has none).
pub open spec fn last_word(s: Seq<char>) -> Seq<char> {
    let w = words(s);
    if w.len() == 0 { s } else { w.last() }
}

/// A C++ type name reduced to its bare class name: pointer/reference marks,
/// leading `const`/`volatile`, namespaces and template arguments removed.
pub open spec fn cpp_simplify_spec(ty: Seq<char>) -> Seq<char> {
    last_word(before_char_trimmed(after_last_scope(strip_qualifiers_spec(ty)), '<'))
}

proof fn lemma_trim_len(s: Seq<char>)
    ensures
        trim(s).len() <= s.len(),
{
    lemma_trim_start_len(s);
    lemma_trim_end_len(trim_start(s));
}

proof fn lemma_trim_start_len(s: Seq<char>)
    ensures
        trim_start(s).len() <= s.len(),
    decreases s.len(),
{
    if s.len() > 0 && is_white_space(s[0]) {
        lemma_trim_start_len(s.drop_first());
    }
}

proof fn lemma_trim_end_len(s: Seq<char>)
    ensures
        crate::text::trim_end(s).len() <= s.len(),
    decreases s.len(),
{
    if s.len() > 0 && is_white_space(s.last()) {
        lemma_trim_end_len(s.drop_last());
    }
}

fn trim_end_ptr_ref_vec(v: &[char]) -> (r: Vec<char>)
    ensures
        r@ == trim_end_ptr_ref(v@),
{
    let mut n = v.len();
    assert(v@.take(n as int) =~= v@);
    while n > 0 && (v[n - 1] == '*' || v[n - 1] == '&')
        invariant
            n <= v.len(),
            trim_end_ptr_ref(v@.take(n as int)) == trim_end_ptr_ref(v@),
        decreases n,
    {
        assert(v@.take(n as int).drop_last() =~= v@.take(n - 1));
        n = n - 1;
    }
    let r = sub_vec(v, 0, n);
    assert(r@ =~= v@.take(n as int));
    r
}

fn strip_word_prefix_vec(v: Vec<char>, p: &str) -> (r: Vec<char>)
    ensures
        r@ == strip_word_prefix(v@, p@),
{
    match strip_prefix_vec(v.as_slice(), p) {
        Some(rest) => trim_vec(rest.as_slice()),
        None => v,
    }
}

fn strip_ptr_refs_vec(v: Vec<char>) -> (r: Vec<char>)
    ensures
        r@ == strip_ptr_refs(v@),
{
    let mut s = v;
    let ghost s_start = s@;
    while s.len() > 0 && (s[s.len() - 1] == '*' || s[s.len() - 1] == '&')
        invariant
            strip_ptr_refs(s@) == strip_ptr_refs(s_start),
        decreases s.len(),
    {
        let e = trim_end_ptr_ref_vec(s.as_slice());
        let t = trim_vec(e.as_slice());
        proof {
            assert(trim_end_ptr_ref(s@) == trim_end_ptr_ref(s@.drop_last()));
            lemma_trim_end_ptr_ref_len(s@.drop_last());
            lemma_trim_len(e@);
        }
        s = t;
    }
    s
}

/// Pointer marks, then leading `const` / `volatile` words removed.
pub open spec fn strip_qualifiers_spec(ty: Seq<char>) -> Seq<char> {
    let s0 = strip_ptr_refs(trim(ty));
    let s1 = strip_word_prefix(s0, "const "@);
    let s2 = strip_word_prefix(s1, "volatile "@);
    let s3 = strip_word_prefix(s2, "const volatile "@);
    strip_word_prefix(s3, "volatile const "@)
}

fn strip_qualifiers(ty: &str) -> (r: Vec<char>)
    ensures
        r@ == strip_qualifiers_spec(ty@),
{
    let tv = chars_of(ty);
    let s0 = trim_vec(tv.as_slice());
    let s = strip_ptr_refs_vec(s0);
    let s1 = strip_word_prefix_vec(s, "const ");
    let s2 = strip_word_prefix_vec(s1, "volatile ");
    let s3 = strip_word_prefix_vec(s2, "const volatile ");
    strip_word_prefix_vec(s3, "volatile const ")
}

#[verifier::rlimit(100)]
fn scope_tail(s4: Vec<char>) -> (r: Vec<char>)
    ensures
        r@ == after_last_scope(s4@),
{
    let found = rfind_chars(s4.as_slice(), "::");
    proof { reveal_strlit("::"); }
    if found.is_none() {
        return s4;
    }
    let i = found.unwrap();
    assert(occurs_at(s4@, "::"@, i as int));
    assert(i + 2 <= s4.len());
    let tail = sub_vec(s4.as_slice(), i + 2, s4.len());
    assert(tail@ =~= s4@.skip(i + 2));
    trim_vec(tail.as_slice())
}

pub fn cpp_simplify_type_name(ty: &str) -> (r: String)
    ensures
        r@ == cpp_simplify_spec(ty@),
{
    let s4 = strip_qualifiers(ty);
    let s5 = scope_tail(s4);
    let pieces = split_char_vec(s5.as_slice(), '<');
    proof { crate::text::lemma_split_char_len(s5@, '<'); }
    let s6 = trim_vec(pieces[0].as_slice());
    let ws = words_vec(s6.as_slice());
    if ws.len() == 0 {
        string_of(s6.as_slice())
    } else {
        ws[ws.len() - 1].clone()
    }
}

proof fn lemma_trim_end_ptr_ref_len(s: Seq<char>)
    ensures
        trim_end_ptr_ref(s).len() <= s.len(),
    decreases s.len(),
{
    if s.len() > 0 && is_ptr_ref(s.last()) {
        lemma_trim_end_ptr_ref_len(s.drop_last());
    }
}

/// A return type from its specifier and the declarator's pointer/reference
/// marks: `CWinApp` and `*` give `CWinApp *`.
pub open spec fn combine_type_spec(spec: Seq<char>, ops: Seq<char>) -> Seq<char> {
    if trim(ops).len() == 0 { trim(spec) } else { trim(spec) + " "@ + trim(ops) }
}

pub fn cpp_combine_type(spec: &str, ops: &str) -> (r: String)
    ensures
        r@ == combine_type_spec(spec@, ops@),
{
    let s = crate::text::trim_string(spec);
    let o = crate::text::trim_string(ops);
    if o.as_str().is_empty() {
        s
    } else {
        let mut out = s;
        push_str(&mut out, " ");
        push_str(&mut out, o.as_str());
        out
    }
}

/// Storage-class words dropped from a declaration's type.
pub open spec fn is_storage_word(w: Seq<char>) -> bool {
    w == "extern"@ || w == "static"@ || w == "register"@ || w == "thread_local"@ || w == "mutable"@
        || w == "inline"@ || w == "constexpr"@ || w == "consteval"@
}

pub open spec fn non_storage(ws: Seq<Seq<char>>) -> Seq<Seq<char>>
    decreases ws.len(),
{
    if ws.len() == 0 {
        Seq::empty()
    } else {
        let r = non_storage(ws.drop_last());
        if is_storage_word(ws.last()) { r } else { r.push(ws.last()) }
    }
}

/// The words of `spec` without storage-class specifiers (`const`/`volatile`
/// stay), joined by one blank.
pub open spec fn strip_storage_spec(spec: Seq<char>) -> Seq<char> {
    join(non_storage(words(spec)), " "@)
}

pub fn cpp_strip_storage_class_specifiers(spec: &str) -> (r: String)
    ensures
        r@ == strip_storage_spec(spec@),
{
    let v = chars_of(spec);
    let ws = words_vec(v.as_slice());
    let ghost wv = string_views(ws@);
    let mut kept: Vec<String> = Vec::new();
    let mut i: usize = 0;
    assert(wv.take(0) =~= Seq::<Seq<char>>::empty());
    assert(string_views(kept@) =~= Seq::<Seq<char>>::empty());
    while i < ws.len()
        invariant
            i <= ws.len(),
            wv == string_views(ws@),
            string_views(kept@) == non_storage(wv.take(i as int)),
        decreases ws.len() - i,
    {
        let w = chars_of(ws[i].as_str());
        assert(wv.take(i + 1).drop_last() =~= wv.take(i as int));
        assert(wv.take(i + 1).last() == w@);
        let storage = same(&w, "extern") || same(&w, "static") || same(&w, "register") || same(&w, "thread_local")
            || same(&w, "mutable") || same(&w, "inline") || same(&w, "constexpr") || same(&w, "consteval");
        if !storage {
            let ghost before = kept@;
            kept.push(ws[i].clone());
            assert(string_views(kept@) =~= string_views(before).push(w@));
        }
        i = i + 1;
    }
    assert(wv.take(ws.len() as int) =~= wv);
    join_strings(kept.as_slice(), " ")
}

/// Index of the first `*` or `&` (the length when there is none).
pub open spec fn first_ptr_ref(s: Seq<char>) -> int
    decreases s.len(),
{
    if s.len() == 0 {
        0
    } else if is_ptr_ref(s[0]) {
        0
    } else {
        first_ptr_ref(s.drop_first()) + 1
    }
}

/// `CWinApp*` → `CWinApp *`: the name part and the pointer/reference part,
/// each trimmed, separated by one blank.
pub open spec fn normalize_type_spec(s: Seq<char>) -> Seq<char> {
    let t = trim(s);
    let i = first_ptr_ref(t);
    combine_type_spec(t.take(i), t.skip(i))
}

proof fn lemma_first_ptr_ref(s: Seq<char>, k: int)
    requires
        0 <= k <= s.len(),
        forall|j: int| 0 <= j < k ==> !is_ptr_ref(#[trigger] s[j]),
        k == s.len() || is_ptr_ref(s[k]),
    ensures
        first_ptr_ref(s) == k,
    decreases s.len(),
{
    if s.len() > 0 && k > 0 {
        assert(!is_ptr_ref(s[0]));
        assert forall|j: int| 0 <= j < k - 1 implies !is_ptr_ref(#[trigger] s.drop_first()[j]) by {
            assert(s.drop_first()[j] == s[j + 1]);
        }
        lemma_first_ptr_ref(s.drop_first(), k - 1);
    }
}

pub fn cpp_normalize_type_string(s: &str) -> (r: String)
    ensures
        r@ == normalize_type_spec(s@),
{
    let v = chars_of(s);
    let t = trim_vec(v.as_slice());
    let mut i: usize = 0;
    while i < t.len() && t[i] != '*' && t[i] != '&'
        invariant
            i <= t.len(),
            forall|j: int| 0 <= j < i ==> !is_ptr_ref(#[trigger] t@[j]),
        decreases t.len() - i,
    {
        i = i + 1;
    }
    proof { lemma_first_ptr_ref(t@, i as int); }
    let spec = string_of_range(t.as_slice(), 0, i);
    let ops = string_of_range(t.as_slice(), i, t.len());
    assert(t@.subrange(0, i as int) =~= t@.take(i as int));
    assert(t@.subrange(i as int, t@.len() as int) =~= t@.skip(i as int));
    cpp_combine_type(spec.as_str(), ops.as_str())
}

/// One pointer level removed: `CWinApp *` → `CWinApp`; `None` when not a pointer.
pub open spec fn strip_one_pointer_spec(ty: Seq<char>) -> Option<Seq<char>> {
    let s = trim(ty);
    if s.len() > 0 && s.last() == '*' { Some(trim(s.drop_last())) } else { None }
}

pub fn cpp_strip_one_pointer(ty: &str) -> (r: Option<String>)
    ensures
        match r {
            Some(x) => strip_one_pointer_spec(ty@) == Some(x@),
            None => strip_one_pointer_spec(ty@) is None,
        },
{
    let v = chars_of(ty);
    let s = trim_vec(v.as_slice());
    if s.len() > 0 && s[s.len() - 1] == '*' {
        let rest = sub_vec(s.as_slice(), 0, s.len() - 1);
        assert(rest@ =~= s@.drop_last());
        let t = trim_vec(rest.as_slice());
        Some(string_of(t.as_slice()))
    } else {
        None
    }
}

pub open spec fn ident_start(c: char) -> bool {
    alphabetic(c) || c == '_'
}

pub open spec fn ident_char(c: char) -> bool {
    alphanumeric(c) || c == '_'
}

/// A C/C++ identifier (after trimming): a letter or `_`, then letters, digits or `_`.
pub open spec fn is_identifier_spec(s: Seq<char>) -> bool {
    let t = trim(s);
    t.len() > 0 && ident_start(t[0]) && forall|i: int| 1 <= i < t.len() ==> ident_char(#[trigger] t[i])
}

pub fn is_cpp_identifier(s: &str) -> (b: bool)
    ensures
        b == is_identifier_spec(s@),
{
    let v = chars_of(s);
    let t = trim_vec(v.as_slice());
    if t.len() == 0 {
        return false;
    }
    if !(is_alphabetic_char(t[0]) || t[0] == '_') {
        return false;
    }
    let mut i: usize = 1;
    while i < t.len()
        invariant
            1 <= i <= t.len(),
            t@ == trim(s@),
            forall|j: int| 1 <= j < i ==> ident_char(#[trigger] t@[j]),
        decreases t.len() - i,
    {
        if !(is_alphanumeric_char(t[i]) || t[i] == '_') {
            assert(!ident_char(t@[i as int]));
            return false;
        }
        i = i + 1;
    }
    assert(forall|j: int| 1 <= j < t@.len() ==> ident_char(#[trigger] t@[j]));
    true
}

// ───────────────────────── macros ─────────────────────────

/// The three macro shapes whose result type is worked out automatically.
#[derive(Debug)]
pub enum CppMacroDef {
    /// `#define M(x) ((TYPE)(x))`: a call `M(…)` has type `TYPE`.
    CastReturn(String),
    /// `#define theApp (*AfxGetApp())`: the function's return type, one pointer less.
    DerefFreeFnCall(String),
    /// `#define A B`: the type of `B`.
    IdentAlias(String),
}

pub enum MacroDefView {
    CastReturn(Seq<char>),
    DerefFreeFnCall(Seq<char>),
    IdentAlias(Seq<char>),
}

impl View for CppMacroDef {
    type V = MacroDefView;

    open spec fn view(&self) -> MacroDefView {
        match self {
            CppMacroDef::CastReturn(s) => MacroDefView::CastReturn(s@),
            CppMacroDef::DerefFreeFnCall(s) => MacroDefView::DerefFreeFnCall(s@),
            CppMacroDef::IdentAlias(s) => MacroDefView::IdentAlias(s@),
        }
    }
}

/// The cast shape `((T)(…))` of a function-like macro body: its type `T`.
pub open spec fn classify_fn_spec(b: Seq<char>) -> Option<MacroDefView> {
    if starts_with(b, "(("@) && b.len() >= 4 && ends_with(b.skip(2), "))"@) {
        let inner = b.subrange(2, b.len() - 2);
        match find(inner, ")("@) {
            Some(sep) => {
                let ty = trim(inner.take(sep));
                if ty.len() > 0 && ident_start(ty[0]) {
                    Some(MacroDefView::CastReturn(normalize_type_spec(ty)))
                } else {
                    None
                }
            },
            None => None,
        }
    } else {
        None
    }
}

/// The shapes `(*f())` and a lone identifier of an object-like macro body.
pub open spec fn classify_obj_spec(b: Seq<char>) -> Option<MacroDefView> {
    if starts_with(b, "(*"@) && b.len() >= 3 && b.last() == ')' {
        let rest = b.subrange(2, b.len() - 1);
        if ends_with(rest, "()"@) {
            let name = trim(rest.take(rest.len() - 2));
            if is_identifier_spec(name) { Some(MacroDefView::DerefFreeFnCall(name)) } else { None }
        } else {
            None
        }
    } else if is_identifier_spec(b) {
        Some(MacroDefView::IdentAlias(b))
    } else {
        None
    }
}

/// The shape of a macro body (trimmed): a cast `((T)(…))` for a function-like
/// macro; `(*f())` or a lone identifier for an object-like one; `None` otherwise.
pub open spec fn classify_macro_spec(body: Seq<char>, function_like: bool) -> Option<MacroDefView> {
    if function_like { classify_fn_spec(trim(body)) } else { classify_obj_spec(trim(body)) }
}

/// The inside of `((…))`, when `b` has that form.
fn cast_inner(b: &Vec<char>) -> (r: Option<Vec<char>>)
    ensures
        match r {
            Some(inner) => starts_with(b@, "(("@) && b@.len() >= 4 && ends_with(b@.skip(2), "))"@)
                && inner@ == b@.subrange(2, b@.len() - 2),
            None => !(starts_with(b@, "(("@) && b@.len() >= 4 && ends_with(b@.skip(2), "))"@)),
        },
{
    proof { reveal_strlit("(("); reveal_strlit("))"); }
    let after = match strip_prefix_vec(b.as_slice(), "((") {
        Some(x) => x,
        None => return None,
    };
    assert(b@.skip(2) == after@);
    match strip_suffix_vec(after.as_slice(), "))") {
        Some(inner) => {
            assert(inner@ =~= b@.subrange(2, b@.len() - 2));
            Some(inner)
        },
        None => None,
    }
}

#[verifier::rlimit(100)]
fn classify_function_like(b: &Vec<char>) -> (r: Option<CppMacroDef>)
    ensures
        match r {
            Some(d) => classify_fn_spec(b@) == Some(d@),
            None => classify_fn_spec(b@) is None,
        },
{
    let inner = match cast_inner(b) {
        Some(x) => x,
        None => return None,
    };
    let sep = match find_str(inner.as_slice(), ")(") {
        Some(i) => i,
        None => return None,
    };
    let head = sub_vec(inner.as_slice(), 0, sep);
    assert(head@ =~= inner@.take(sep as int));
    let ty = trim_vec(head.as_slice());
    if ty.len() == 0 || !(is_alphabetic_char(ty[0]) || ty[0] == '_') {
        return None;
    }
    let tys = string_of(ty.as_slice());
    Some(CppMacroDef::CastReturn(cpp_normalize_type_string(tys.as_str())))
}

fn classify_object_like(b: &Vec<char>) -> (r: Option<CppMacroDef>)
    ensures
        match r {
            Some(d) => classify_obj_spec(b@) == Some(d@),
            None => classify_obj_spec(b@) is None,
        },
{
    proof { reveal_strlit("(*"); reveal_strlit("()"); }
    match strip_prefix_vec(b.as_slice(), "(*") {
        Some(r1) => {
            if r1.len() > 0 && r1[r1.len() - 1] == ')' {
                let rest = sub_vec(r1.as_slice(), 0, r1.len() - 1);
                assert(rest@ =~= b@.subrange(2, b@.len() - 1));
                match strip_suffix_vec(rest.as_slice(), "()") {
                    Some(f) => {
                        let name = trim_vec(f.as_slice());
                        let ns = string_of(name.as_slice());
                        if is_cpp_identifier(ns.as_str()) {
                            return Some(CppMacroDef::DerefFreeFnCall(ns));
                        }
                        return None;
                    },
                    None => {
                        return None;
                    },
                }
            }
        },
        None => {},
    }
    let bs = string_of(b.as_slice());
    if is_cpp_identifier(bs.as_str()) {
        return Some(CppMacroDef::IdentAlias(bs));
    }
    None
}

pub fn cpp_classify_macro_body(body: &str, is_function_like: bool) -> (r: Option<CppMacroDef>)
    ensures
        match r {
            Some(d) => classify_macro_spec(body@, is_function_like) == Some(d@),
            None => classify_macro_spec(body@, is_function_like) is None,
        },
{
    let v = chars_of(body);
    let b = trim_vec(v.as_slice());
    if is_function_like {
        classify_function_like(&b)
    } else {
        classify_object_like(&b)
    }
}

/// `#define` lines joined across trailing backslashes.
pub open spec fn logical_lines_acc(ls: Seq<Seq<char>>, cur: Seq<char>, acc: Seq<Seq<char>>) -> Seq<Seq<char>>
    decreases ls.len(),
{
    if ls.len() == 0 {
        if cur.len() > 0 { acc.push(cur) } else { acc }
    } else {
        let l = ls[0];
        if l.len() > 0 && l.last() == '\\' {
            logical_lines_acc(ls.drop_first(), cur + l.drop_last() + " "@, acc)
        } else {
            logical_lines_acc(ls.drop_first(), Seq::empty(), acc.push(cur + l))
        }
    }
}

/// The source's lines, a line ending in `\` joined (with a blank) to the next.
pub open spec fn logical_lines(source: Seq<char>) -> Seq<Seq<char>> {
    logical_lines_acc(lines(source), Seq::empty(), Seq::empty())
}

/// The text after a leading `#` and blanks (and a BOM) of a trimmed-left line.
pub open spec fn after_hash(line: Seq<char>) -> Option<Seq<char>> {
    let t0 = trim_start(line);
    let t = if t0.len() > 0 && t0[0] == '\u{feff}' { trim_start(t0.drop_first()) } else { t0 };
    if t.len() > 0 && t[0] == '#' { Some(trim_start(t.drop_first())) } else { None }
}

/// Index of the first character that cannot continue an identifier.
pub open spec fn name_end(s: Seq<char>) -> int
    decreases s.len(),
{
    if s.len() == 0 { 0 } else if !ident_char(s[0]) { 0 } else { name_end(s.drop_first()) + 1 }
}

/// The macro a logical line defines: its name and its classified body.
pub open spec fn define_of_line(line: Seq<char>) -> Option<(Seq<char>, MacroDefView)> {
    match after_hash(line) {
        None => None,
        Some(ah) => {
            if !starts_with(ah, "define"@) {
                None
            } else {
                let r0 = ah.skip(6);
                if !(r0.len() > 0 && is_white_space(r0[0])) {
                    None
                } else {
                    let rest = trim_start(r0.drop_first());
                    let ne = name_end(rest);
                    if ne == 0 {
                        None
                    } else {
                        let name = rest.take(ne);
                        let after_name = rest.skip(ne);
                        let body_fn: Option<(Seq<char>, bool)> = if after_name.len() > 0 && after_name[0] == '(' {
                            let ap = after_name.drop_first();
                            match find(ap, ")"@) {
                                Some(close) => Some((trim(ap.skip(close + 1)), true)),
                                None => None,
                            }
                        } else {
                            Some((trim(after_name), false))
                        };
                        match body_fn {
                            None => None,
                            Some((body, fl)) => {
                                if body.len() == 0 {
                                    None
                                } else {
                                    match classify_macro_spec(body, fl) {
                                        Some(d) => Some((name, d)),
                                        None => None,
                                    }
                                }
                            },
                        }
                    }
                }
            }
        },
    }
}

/// The macros of a list of logical lines; a later definition replaces an earlier one.
pub open spec fn defines_of(lls: Seq<Seq<char>>) -> Map<Seq<char>, MacroDefView>
    decreases lls.len(),
{
    if lls.len() == 0 {
        Map::empty()
    } else {
        let m = defines_of(lls.drop_last());
        match define_of_line(lls.last()) {
            Some((name, d)) => m.insert(name, d),
            None => m,
        }
    }
}

/// The recognised `#define`s of a source text, by name.
pub struct CppDefines {
    pub entries: Vec<(String, CppMacroDef)>,
}

pub open spec fn entries_map(e: Seq<(String, CppMacroDef)>) -> Map<Seq<char>, MacroDefView>
    decreases e.len(),
{
    if e.len() == 0 { Map::empty() } else { entries_map(e.drop_last()).insert(e.last().0@, e.last().1@) }
}

pub open spec fn unique_names(e: Seq<(String, CppMacroDef)>) -> bool {
    forall|i: int, j: int| 0 <= i < j < e.len() ==> e[i].0@ != e[j].0@
}

impl View for CppDefines {
    type V = Map<Seq<char>, MacroDefView>;

    open spec fn view(&self) -> Map<Seq<char>, MacroDefView> {
        entries_map(self.entries@)
    }
}

proof fn lemma_entries_map_at(e: Seq<(String, CppMacroDef)>, i: int)
    requires
        unique_names(e),
        0 <= i < e.len(),
    ensures
        entries_map(e).contains_key(e[i].0@),
        entries_map(e)[e[i].0@] == e[i].1@,
    decreases e.len(),
{
    if i < e.len() - 1 {
        lemma_entries_map_at(e.drop_last(), i);
    }
}

proof fn lemma_entries_map_absent(e: Seq<(String, CppMacroDef)>, k: Seq<char>)
    requires
        forall|i: int| 0 <= i < e.len() ==> (#[trigger] e[i]).0@ != k,
    ensures
        !entries_map(e).contains_key(k),
    decreases e.len(),
{
    if e.len() > 0 {
        lemma_entries_map_absent(e.drop_last(), k);
    }
}

impl CppDefines {
    /// The definition of macro `name`, if recognised.
    pub fn get(&self, name: &str) -> (r: Option<&CppMacroDef>)
        requires
            unique_names(self.entries@),
        ensures
            match r {
                Some(d) => self@.contains_key(name@) && self@[name@] == d@,
                None => !self@.contains_key(name@),
            },
    {
        let mut i: usize = 0;
        while i < self.entries.len()
            invariant
                i <= self.entries.len(),
                unique_names(self.entries@),
                forall|k: int| 0 <= k < i ==> (#[trigger] self.entries@[k]).0@ != name@,
            decreases self.entries.len() - i,
        {
            let n = chars_of(self.entries[i].0.as_str());
            if crate::lang::str_eq(n.as_slice(), name) {
                proof { lemma_entries_map_at(self.entries@, i as int); }
                return Some(&self.entries[i].1);
            }
            i = i + 1;
        }
        proof { lemma_entries_map_absent(self.entries@, name@); }
        None
    }

    pub fn contains_key(&self, name: &str) -> (b: bool)
        requires
            unique_names(self.entries@),
        ensures
            b == self@.contains_key(name@),
    {
        self.get(name).is_some()
    }

    /// Adds or replaces the definition of `name`.
    fn insert(&mut self, name: String, def: CppMacroDef)
        requires
            unique_names(old(self).entries@),
        ensures
            unique_names(final(self).entries@),
            final(self)@ == old(self)@.insert(name@, def@),
    {
        let ghost before = self.entries@;
        let mut i: usize = 0;
        while i < self.entries.len()
            invariant
                i <= self.entries.len(),
                self.entries@ == before,
                before == old(self).entries@,
                unique_names(before),
                forall|k: int| 0 <= k < i ==> (#[trigger] self.entries@[k]).0@ != name@,
            decreases self.entries.len() - i,
        {
            let n = chars_of(self.entries[i].0.as_str());
            if crate::lang::str_eq(n.as_slice(), name.as_str()) {
                let ghost entry = (name, def);
                self.entries.set(i, (name, def));
                proof {
                    lemma_entries_map_update(before, i as int, entry);
                    assert forall|a: int, b: int| 0 <= a < b < self.entries@.len() implies self.entries@[a].0@ != self.entries@[b].0@ by {
                        assert(before[a].0@ != before[b].0@);
                    }
                }
                return;
            }
            i = i + 1;
        }
        let ghost nv = name@;
        self.entries.push((name, def));
        proof {
            assert(self.entries@.drop_last() =~= before);
            assert forall|a: int, b: int| 0 <= a < b < self.entries@.len() implies self.entries@[a].0@ != self.entries@[b].0@ by {
                if b < self.entries@.len() - 1 {
                    assert(before[a].0@ != before[b].0@);
                } else {
                    assert(self.entries@[a] == before[a]);
                }
            }
        }
    }
}

proof fn lemma_entries_map_update(e: Seq<(String, CppMacroDef)>, i: int, x: (String, CppMacroDef))
    requires
        unique_names(e),
        0 <= i < e.len(),
        x.0@ == e[i].0@,
    ensures
        entries_map(e.update(i, x)) == entries_map(e).insert(x.0@, x.1@),
    decreases e.len(),
{
    let u = e.update(i, x);
    if i == e.len() - 1 {
        assert(u.drop_last() =~= e.drop_last());
        assert(entries_map(u) =~= entries_map(e).insert(x.0@, x.1@));
    } else {
        assert(u.drop_last() =~= e.drop_last().update(i, x));
        lemma_entries_map_update(e.drop_last(), i, x);
        assert(e.last().0@ != x.0@) by {
            assert(e[i].0@ != e[e.len() - 1].0@);
        }
        assert(entries_map(u) =~= entries_map(e).insert(x.0@, x.1@));
    }
}


proof fn lemma_name_end(s: Seq<char>, k: int)
    requires
        0 <= k <= s.len(),
        forall|j: int| 0 <= j < k ==> ident_char(#[trigger] s[j]),
        k == s.len() || !ident_char(s[k]),
    ensures
        name_end(s) == k,
    decreases s.len(),
{
    if s.len() > 0 && k > 0 {
        assert(ident_char(s[0]));
        assert forall|j: int| 0 <= j < k - 1 implies ident_char(#[trigger] s.drop_first()[j]) by {
            assert(s.drop_first()[j] == s[j + 1]);
        }
        lemma_name_end(s.drop_first(), k - 1);
    }
}

fn drop_first_vec(v: &Vec<char>) -> (r: Vec<char>)
    requires
        v.len() > 0,
    ensures
        r@ == v@.drop_first(),
{
    let r = sub_vec(v.as_slice(), 1, v.len());
    assert(r@ =~= v@.drop_first());
    r
}

/// The text after `#` (and blanks) of a line, as [`after_hash`] states.
fn after_hash_exec(line: &str) -> (r: Option<Vec<char>>)
    ensures
        match r {
            Some(x) => after_hash(line@) == Some(x@),
            None => after_hash(line@) is None,
        },
{
    let v = chars_of(line);
    let t0 = trim_start_vec(v.as_slice());
    let t = if t0.len() > 0 && t0[0] == '\u{feff}' {
        let d = drop_first_vec(&t0);
        trim_start_vec(d.as_slice())
    } else {
        t0
    };
    if t.len() > 0 && t[0] == '#' {
        let d = drop_first_vec(&t);
        Some(trim_start_vec(d.as_slice()))
    } else {
        None
    }
}

/// The body of a macro after its name, and whether the macro takes arguments.
pub open spec fn body_after_name(after_name: Seq<char>) -> Option<(Seq<char>, bool)> {
    if after_name.len() > 0 && after_name[0] == '(' {
        let ap = after_name.drop_first();
        match find(ap, ")"@) {
            Some(close) => Some((trim(ap.skip(close + 1)), true)),
            None => None,
        }
    } else {
        Some((trim(after_name), false))
    }
}

fn body_after_name_exec(after_name: &Vec<char>) -> (r: Option<(Vec<char>, bool)>)
    ensures
        match r {
            Some((b, fl)) => body_after_name(after_name@) == Some((b@, fl)),
            None => body_after_name(after_name@) is None,
        },
{
    if after_name.len() > 0 && after_name[0] == '(' {
        let ap = drop_first_vec(after_name);
        match find_str(ap.as_slice(), ")") {
            Some(close) => {
                proof { reveal_strlit(")"); }
                assert(close + 1 <= ap.len());
                let tail = sub_vec(ap.as_slice(), close + 1, ap.len());
                assert(tail@ =~= ap@.skip(close + 1));
                Some((trim_vec(tail.as_slice()), true))
            },
            None => None,
        }
    } else {
        Some((trim_vec(after_name.as_slice()), false))
    }
}

/// The macro that one logical line defines, if any.
pub fn define_of_line_exec(line: &str) -> (r: Option<(String, CppMacroDef)>)
    ensures
        match r {
            Some((n, d)) => define_of_line(line@) == Some((n@, d@)),
            None => define_of_line(line@) is None,
        },
{
    let ah = match after_hash_exec(line) {
        Some(x) => x,
        None => return None,
    };
    let r0 = match strip_prefix_vec(ah.as_slice(), "define") {
        Some(x) => x,
        None => return None,
    };
    proof { reveal_strlit("define"); }
    if !(r0.len() > 0 && is_white_space_char(r0[0])) {
        return None;
    }
    let d = drop_first_vec(&r0);
    let rest = trim_start_vec(d.as_slice());
    let mut ne: usize = 0;
    while ne < rest.len() && (is_alphanumeric_char(rest[ne]) || rest[ne] == '_')
        invariant
            ne <= rest.len(),
            forall|j: int| 0 <= j < ne ==> ident_char(#[trigger] rest@[j]),
        decreases rest.len() - ne,
    {
        ne = ne + 1;
    }
    proof { lemma_name_end(rest@, ne as int); }
    if ne == 0 {
        return None;
    }
    let name = sub_vec(rest.as_slice(), 0, ne);
    let after_name = sub_vec(rest.as_slice(), ne, rest.len());
    assert(name@ =~= rest@.take(ne as int));
    assert(after_name@ =~= rest@.skip(ne as int));
    let (body, fl) = match body_after_name_exec(&after_name) {
        Some(x) => x,
        None => return None,
    };
    if body.len() == 0 {
        return None;
    }
    let bs = string_of(body.as_slice());
    match cpp_classify_macro_body(bs.as_str(), fl) {
        Some(def) => Some((string_of(name.as_slice()), def)),
        None => None,
    }
}

/// Joins lines ending in `\` with the next one (the backslash becomes a blank).
pub fn logical_lines_exec(source: &str) -> (r: Vec<String>)
    ensures
        string_views(r@) == logical_lines(source@),
{
    let ls = lines_vec(source);
    let ghost lv = string_views(ls@);
    let mut acc: Vec<String> = Vec::new();
    let mut cur = String::new();
    let mut i: usize = 0;
    proof {
        reveal_strlit("");
        assert(lv.skip(0) =~= lv);
        assert(string_views(acc@) =~= Seq::<Seq<char>>::empty());
    }
    while i < ls.len()
        invariant
            i <= ls.len(),
            lv == string_views(ls@),
            logical_lines(source@) == logical_lines_acc(lv.skip(i as int), cur@, string_views(acc@)),
        decreases ls.len() - i,
    {
        let l = chars_of(ls[i].as_str());
        assert(lv.skip(i as int)[0] == l@);
        assert(lv.skip(i as int).drop_first() =~= lv.skip(i + 1));
        if l.len() > 0 && l[l.len() - 1] == '\\' {
            let head = string_of_range(l.as_slice(), 0, l.len() - 1);
            assert(l@.subrange(0, l@.len() - 1) =~= l@.drop_last());
            push_str(&mut cur, head.as_str());
            push_str(&mut cur, " ");
        } else {
            push_str(&mut cur, ls[i].as_str());
            let ghost before = string_views(acc@);
            acc.push(cur);
            cur = String::new();
            assert(string_views(acc@) =~= before.push(acc@.last()@));
        }
        i = i + 1;
    }
    assert(lv.skip(i as int).len() == 0);
    if !cur.as_str().is_empty() {
        let ghost before = string_views(acc@);
        let ghost cv = cur@;
        acc.push(cur);
        assert(string_views(acc@) =~= before.push(cv));
    }
    acc
}

/// The recognised macros of a source text: the last definition of each name
/// among the `#define` lines (continued lines joined).
pub fn cpp_scan_defines(source: &str) -> (r: CppDefines)
    ensures
        unique_names(r.entries@),
        r@ == defines_of(logical_lines(source@)),
{
    let lls = logical_lines_exec(source);
    let ghost lv = string_views(lls@);
    let mut out = CppDefines { entries: Vec::new() };
    let mut i: usize = 0;
    assert(lv.take(0) =~= Seq::<Seq<char>>::empty());
    while i < lls.len()
        invariant
            i <= lls.len(),
            lv == string_views(lls@),
            lv == logical_lines(source@),
            unique_names(out.entries@),
            out@ == defines_of(lv.take(i as int)),
        decreases lls.len() - i,
    {
        assert(lv.take(i + 1).drop_last() =~= lv.take(i as int));
        assert(lv.take(i + 1).last() == lls@[i as int]@);
        match define_of_line_exec(lls[i].as_str()) {
            Some((name, def)) => {
                out.insert(name, def);
            },
            None => {},
        }
        i = i + 1;
    }
    assert(lv.take(lls.len() as int) =~= lv);
    out
}

// ───────────────────────── #include ─────────────────────────

/// The path of an `#include "x"` / `#include <x>` line.
pub open spec fn include_of_line(line: Seq<char>) -> Option<Seq<char>> {
    let t0 = trim(line);
    let t = if t0.len() > 0 && t0[0] == '\u{feff}' { trim(t0.drop_first()) } else { t0 };
    if !(t.len() > 0 && t[0] == '#') {
        None
    } else {
        let ah = trim_start(t.drop_first());
        if !starts_with(ah, "include"@) {
            None
        } else {
            let rest = trim_start(ah.skip(7));
            if rest.len() > 0 && rest[0] == '"' {
                match find(rest.drop_first(), "\""@) {
                    Some(end) => Some(rest.drop_first().take(end)),
                    None => None,
                }
            } else if rest.len() > 0 && rest[0] == '<' {
                match find(rest.drop_first(), ">"@) {
                    Some(end) => Some(rest.drop_first().take(end)),
                    None => None,
                }
            } else {
                None
            }
        }
    }
}

pub open spec fn includes_of(ls: Seq<Seq<char>>) -> Seq<Seq<char>>
    decreases ls.len(),
{
    if ls.len() == 0 {
        Seq::empty()
    } else {
        let r = includes_of(ls.drop_last());
        match include_of_line(ls.last()) {
            Some(p) => r.push(p),
            None => r,
        }
    }
}

fn include_of_line_exec(line: &str) -> (r: Option<String>)
    ensures
        match r {
            Some(p) => include_of_line(line@) == Some(p@),
            None => include_of_line(line@) is None,
        },
{
    let v = chars_of(line);
    let t0 = trim_vec(v.as_slice());
    let t = if t0.len() > 0 && t0[0] == '\u{feff}' {
        let d = drop_first_vec(&t0);
        trim_vec(d.as_slice())
    } else {
        t0
    };
    if !(t.len() > 0 && t[0] == '#') {
        return None;
    }
    let d = drop_first_vec(&t);
    let ah = trim_start_vec(d.as_slice());
    let r0 = match strip_prefix_vec(ah.as_slice(), "include") {
        Some(x) => x,
        None => return None,
    };
    proof { reveal_strlit("include"); reveal_strlit("\""); reveal_strlit(">"); }
    let rest = trim_start_vec(r0.as_slice());
    if rest.len() > 0 && (rest[0] == '"' || rest[0] == '<') {
        let close = if rest[0] == '"' { "\"" } else { ">" };
        let inner = drop_first_vec(&rest);
        match find_str(inner.as_slice(), close) {
            Some(end) => {
                let p = sub_vec(inner.as_slice(), 0, end);
                assert(p@ =~= inner@.take(end as int));
                Some(string_of(p.as_slice()))
            },
            None => None,
        }
    } else {
        None
    }
}

/// The paths of the `#include` lines of a source, in order (blanks after `#`
/// and a leading byte-order mark allowed).
pub fn cpp_scan_include_directives(source: &str) -> (r: Vec<String>)
    ensures
        string_views(r@) == includes_of(lines(source@)),
{
    cpp_include_paths_from_source(source)
}

fn cpp_include_paths_from_source(source: &str) -> (r: Vec<String>)
    ensures
        string_views(r@) == includes_of(lines(source@)),
{
    let ls = lines_vec(source);
    let ghost lv = string_views(ls@);
    let mut out: Vec<String> = Vec::new();
    let mut i: usize = 0;
    assert(lv.take(0) =~= Seq::<Seq<char>>::empty());
    assert(string_views(out@) =~= Seq::<Seq<char>>::empty());
    while i < ls.len()
        invariant
            i <= ls.len(),
            lv == string_views(ls@),
            lv == lines(source@),
            string_views(out@) == includes_of(lv.take(i as int)),
        decreases ls.len() - i,
    {
        assert(lv.take(i + 1).drop_last() =~= lv.take(i as int));
        assert(lv.take(i + 1).last() == ls@[i as int]@);
        match include_of_line_exec(ls[i].as_str()) {
            Some(p) => {
                let ghost before = string_views(out@);
                let ghost pv = p@;
                out.push(p);
                assert(string_views(out@) =~= before.push(pv));
            },
            None => {},
        }
        i = i + 1;
    }
    assert(lv.take(ls.len() as int) =~= lv);
    out
}


// ───────────────────────── other languages ─────────────────────────

/// A Java / TypeScript type reduced to its simple name: template arguments and
/// the package or namespace path removed.
pub open spec fn dotted_simplify_spec(ty: Seq<char>) -> Seq<char> {
    let s = trim(split_char(trim(ty), '<')[0]);
    match rfind(s, "."@) {
        Some(i) => trim(s.skip(i + 1)),
        None => s,
    }
}

#[verifier::rlimit(100)]
fn dotted_simplify(ty: &str) -> (r: String)
    ensures
        r@ == dotted_simplify_spec(ty@),
{
    let v = chars_of(ty);
    let t = trim_vec(v.as_slice());
    let pieces = split_char_vec(t.as_slice(), '<');
    proof { crate::text::lemma_split_char_len(t@, '<'); }
    let s = trim_vec(pieces[0].as_slice());
    let found = rfind_chars(s.as_slice(), ".");
    proof { reveal_strlit("."); }
    match found {
        Some(i) => {
            assert(i + 1 <= s.len());
            let tail = sub_vec(s.as_slice(), i + 1, s.len());
            assert(tail@ =~= s@.skip(i + 1));
            let tt = trim_vec(tail.as_slice());
            string_of(tt.as_slice())
        },
        None => string_of(s.as_slice()),
    }
}

pub fn java_simplify_type_name(ty: &str) -> (r: String)
    ensures
        r@ == dotted_simplify_spec(ty@),
{
    dotted_simplify(ty)
}

pub fn ts_simplify_type_name(ty: &str) -> (r: String)
    ensures
        r@ == dotted_simplify_spec(ty@),
{
    dotted_simplify(ty)
}

/// A Rust type text cut at `{` and at ` where `, trimmed.
pub open spec fn type_tail_spec(s: Seq<char>) -> Seq<char> {
    let a = split_char(s, '{')[0];
    let b = match find(a, " where "@) {
        Some(i) => a.take(i),
        None => a,
    };
    trim(b)
}

#[verifier::rlimit(100)]
pub fn trim_type_tail(s: &str) -> (r: String)
    ensures
        r@ == type_tail_spec(s@),
{
    let v = chars_of(s);
    let pieces = split_char_vec(v.as_slice(), '{');
    proof { crate::text::lemma_split_char_len(s@, '{'); }
    let a = &pieces[0];
    let b = match find_str(a.as_slice(), " where ") {
        Some(i) => {
            let t = sub_vec(a.as_slice(), 0, i);
            assert(t@ =~= a@.take(i as int));
            t
        },
        None => sub_vec(a.as_slice(), 0, a.len()),
    };
    assert(a@.subrange(0, a@.len() as int) =~= a@);
    let t = trim_vec(b.as_slice());
    string_of(t.as_slice())
}

// ───────────────────────── C++ binary expressions ─────────────────────────

/// Integer literal kinds of every radix read as `IntegerLiteral`.
pub open spec fn operand_label_spec(ty: Seq<char>) -> Seq<char> {
    if ty == "NumberLiteral"@ || ty == "DecimalLiteral"@ || ty == "HexadecimalLiteral"@ || ty == "BinaryLiteral"@
        || ty == "OctalLiteral"@ {
        "IntegerLiteral"@
    } else {
        ty
    }
}

pub fn cpp_normalize_binary_operand_label(ty: &str) -> (r: String)
    ensures
        r@ == operand_label_spec(ty@),
{
    let v = chars_of(ty);
    if same(&v, "NumberLiteral") || same(&v, "DecimalLiteral") || same(&v, "HexadecimalLiteral")
        || same(&v, "BinaryLiteral") || same(&v, "OctalLiteral") {
        "IntegerLiteral".to_string()
    } else {
        ty.to_string()
    }
}

pub open spec fn numeric_label(s: Seq<char>) -> bool {
    s == "IntegerLiteral"@ || s == "NumberLiteral"@ || s == "FloatingPointLiteral"@ || s == "int"@ || s == "long"@
        || s == "short"@ || s == "double"@ || s == "float"@ || s == "size_t"@ || s == "UINT"@ || s == "DWORD"@
        || s == "bool"@
}

pub open spec fn floating_label(s: Seq<char>) -> bool {
    s == "FloatingPointLiteral"@ || s == "double"@ || s == "float"@
}

pub open spec fn integral_type(s: Seq<char>) -> bool {
    !(s == "?"@ || s == "StringLiteral"@ || s == "void*"@ || s == "bool"@) && !ends_with(s, "*"@)
        && s != "FloatingPointLiteral"@
}

pub fn cpp_is_numeric_label(s: &str) -> (b: bool)
    ensures
        b == numeric_label(s@),
{
    let v = chars_of(s);
    same(&v, "IntegerLiteral") || same(&v, "NumberLiteral") || same(&v, "FloatingPointLiteral") || same(&v, "int")
        || same(&v, "long") || same(&v, "short") || same(&v, "double") || same(&v, "float") || same(&v, "size_t")
        || same(&v, "UINT") || same(&v, "DWORD") || same(&v, "bool")
}

pub fn cpp_is_floating_label(s: &str) -> (b: bool)
    ensures
        b == floating_label(s@),
{
    let v = chars_of(s);
    same(&v, "FloatingPointLiteral") || same(&v, "double") || same(&v, "float")
}

pub fn cpp_looks_integral_type(s: &str) -> (b: bool)
    ensures
        b == integral_type(s@),
{
    let v = chars_of(s);
    let star = chars_of("*");
    !(same(&v, "?") || same(&v, "StringLiteral") || same(&v, "void*") || same(&v, "bool"))
        && !crate::text::ends_with_chars(v.as_slice(), star.as_slice()) && !same(&v, "FloatingPointLiteral")
}

pub open spec fn comparison_op(op: Seq<char>) -> bool {
    op == "=="@ || op == "!="@ || op == "<"@ || op == ">"@ || op == "<="@ || op == ">="@ || op == "&&"@ || op == "||"@
}

pub open spec fn arithmetic_op(op: Seq<char>) -> bool {
    op == "+"@ || op == "-"@ || op == "*"@ || op == "/"@ || op == "%"@
}

/// The type of `lhs op rhs` without configured rules: `bool` for comparisons
/// and logic, `double` when a floating operand meets arithmetic, `int` for
/// arithmetic on numeric labels, the integral operand's type when the other
/// is numeric; otherwise unknown.
pub open spec fn default_binary_spec(lhs: Seq<char>, rhs: Seq<char>, op: Seq<char>) -> Option<Seq<char>> {
    if comparison_op(op) {
        Some("bool"@)
    } else if (floating_label(lhs) || floating_label(rhs)) && arithmetic_op(op) {
        Some("double"@)
    } else if numeric_label(lhs) && numeric_label(rhs) && arithmetic_op(op) {
        Some("int"@)
    } else if arithmetic_op(op) && numeric_label(lhs) && integral_type(rhs) {
        Some(rhs)
    } else if arithmetic_op(op) && numeric_label(rhs) && integral_type(lhs) {
        Some(lhs)
    } else {
        None
    }
}

pub fn cpp_default_binary_type(lhs: &str, rhs: &str, op: &str) -> (r: Option<String>)
    ensures
        match r {
            Some(t) => default_binary_spec(lhs@, rhs@, op@) == Some(t@),
            None => default_binary_spec(lhs@, rhs@, op@) is None,
        },
{
    let o = chars_of(op);
    let cmp_op = same(&o, "==") || same(&o, "!=") || same(&o, "<") || same(&o, ">") || same(&o, "<=")
        || same(&o, ">=") || same(&o, "&&") || same(&o, "||");
    if cmp_op {
        return Some("bool".to_string());
    }
    let arith = same(&o, "+") || same(&o, "-") || same(&o, "*") || same(&o, "/") || same(&o, "%");
    if (cpp_is_floating_label(lhs) || cpp_is_floating_label(rhs)) && arith {
        return Some("double".to_string());
    }
    if cpp_is_numeric_label(lhs) && cpp_is_numeric_label(rhs) && arith {
        return Some("int".to_string());
    }
    if arith {
        if cpp_is_numeric_label(lhs) && cpp_looks_integral_type(rhs) {
            return Some(rhs.to_string());
        }
        if cpp_is_numeric_label(rhs) && cpp_looks_integral_type(lhs) {
            return Some(lhs.to_string());
        }
    }
    None
}

/// Counters of a search job's type-hint work (totals in microseconds).
#[derive(Debug, Clone, Copy, PartialEq, Eq, Structural)]
pub struct TypeHintProfileSnapshot {
    pub infer_calls: u64,
    pub infer_total_us: u64,
    pub header_reads: u64,
    pub header_read_total_us: u64,
    pub header_cache_hits: u64,
    pub ast_parses: u64,
    pub ast_parse_total_us: u64,
    pub lookup_cache_hits: u64,
}

impl Default for TypeHintProfileSnapshot {
    fn default() -> (r: Self)
        ensures
            r.infer_calls == 0 && r.infer_total_us == 0 && r.header_reads == 0 && r.header_read_total_us == 0
                && r.header_cache_hits == 0 && r.ast_parses == 0 && r.ast_parse_total_us == 0
                && r.lookup_cache_hits == 0,
    {
        TypeHintProfileSnapshot {
            infer_calls: 0,
            infer_total_us: 0,
            header_reads: 0,
            header_read_total_us: 0,
            header_cache_hits: 0,
            ast_parses: 0,
            ast_parse_total_us: 0,
            lookup_cache_hits: 0,
        }
    }
}

/// A snapshot from raw counters (nanosecond totals shown in microseconds).
pub fn profile_snapshot(
    infer_calls: u64,
    infer_nanos: u64,
    header_reads: u64,
    header_read_nanos: u64,
    header_cache_hits: u64,
    ast_parses: u64,
    ast_parse_nanos: u64,
    lookup_cache_hits: u64,
) -> (r: TypeHintProfileSnapshot)
    ensures
        r == (TypeHintProfileSnapshot {
            infer_calls,
            infer_total_us: infer_nanos / 1000,
            header_reads,
            header_read_total_us: header_read_nanos / 1000,
            header_cache_hits,
            ast_parses,
            ast_parse_total_us: ast_parse_nanos / 1000,
            lookup_cache_hits,
        }),
{
    TypeHintProfileSnapshot {
        infer_calls,
        infer_total_us: infer_nanos / 1000,
        header_reads,
        header_read_total_us: header_read_nanos / 1000,
        header_cache_hits,
        ast_parses,
        ast_parse_total_us: ast_parse_nanos / 1000,
        lookup_cache_hits,
    }
}

/// Running counters of a search job's type-hint work (times in nanoseconds);
/// the counters wrap around, as atomic additions do.
#[derive(Debug, Clone, Copy, PartialEq, Eq, Structural)]
pub struct TypeHintProfile {
    pub infer_calls: u64,
    pub infer_nanos: u64,
    pub header_reads: u64,
    pub header_read_nanos: u64,
    pub header_cache_hits: u64,
    pub ast_parses: u64,
    pub ast_parse_nanos: u64,
    pub lookup_cache_hits: u64,
}

impl Default for TypeHintProfile {
    fn default() -> (r: Self)
        ensures
            r == (TypeHintProfile {
                infer_calls: 0,
                infer_nanos: 0,
                header_reads: 0,
                header_read_nanos: 0,
                header_cache_hits: 0,
                ast_parses: 0,
                ast_parse_nanos: 0,
                lookup_cache_hits: 0,
            }),
    {
        TypeHintProfile {
            infer_calls: 0,
            infer_nanos: 0,
            header_reads: 0,
            header_read_nanos: 0,
            header_cache_hits: 0,
            ast_parses: 0,
            ast_parse_nanos: 0,
            lookup_cache_hits: 0,
        }
    }
}

impl TypeHintProfile {
    /// Counts one inference that took `elapsed_nanos`.
    pub fn record_infer(&mut self, elapsed_nanos: u64)
        ensures
            *final(self) == (TypeHintProfile {
                infer_calls: old(self).infer_calls.wrapping_add(1),
                infer_nanos: old(self).infer_nanos.wrapping_add(elapsed_nanos),
                ..*old(self)
            }),
    {
        self.infer_calls = self.infer_calls.wrapping_add(1);
        self.infer_nanos = self.infer_nanos.wrapping_add(elapsed_nanos);
    }

    /// The counters with the times in whole microseconds.
    pub fn snapshot(&self) -> (r: TypeHintProfileSnapshot)
        ensures
            r == (TypeHintProfileSnapshot {
                infer_calls: self.infer_calls,
                infer_total_us: self.infer_nanos / 1000,
                header_reads: self.header_reads,
                header_read_total_us: self.header_read_nanos / 1000,
                header_cache_hits: self.header_cache_hits,
                ast_parses: self.ast_parses,
                ast_parse_total_us: self.ast_parse_nanos / 1000,
                lookup_cache_hits: self.lookup_cache_hits,
            }),
    {
        profile_snapshot(
            self.infer_calls,
            self.infer_nanos,
            self.header_reads,
            self.header_read_nanos,
            self.header_cache_hits,
            self.ast_parses,
            self.ast_parse_nanos,
            self.lookup_cache_hits,
        )
    }
}

} // verus!
