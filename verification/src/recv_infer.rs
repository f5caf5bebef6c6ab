//! The type hint of a metavariable's node, read off the syntax tree of the
//! file it was found in: the declaration of the receiver in an enclosing
//! block, parameter list or class, per language, or the kind of a literal.
use vstd::prelude::*;
use crate::lang::SupportedLanguage;
use crate::receiver_hint::{
    humanize_kind_spec, humanize_tree_sitter_kind, is_literal_kind, is_literal_kind_name, snippet_spec,
    truncate_hint_snippet,
};
use crate::syntax_tree::{one_of, strs_eq, SyntaxTree};
use crate::text::{
    chars_of, ends_with, push_str, starts_with, string_of, strip_prefix_vec, strip_suffix_vec, trim, trim_vec,
    words, words_vec,
};

verus! {

/// The characters of an optional string.
pub open spec fn opt_view(o: Option<String>) -> Option<Seq<char>> {
    match o {
        Some(s) => Some(s@),
        None => None,
    }
}

/// The trimmed text of an optional node.
pub open spec fn trimmed_of(t: &SyntaxTree, o: Option<usize>) -> Option<Seq<char>> {
    match o {
        Some(x) => Some(t.trimmed(x as int)),
        None => None,
    }
}

pub(crate) fn trimmed_opt(t: &SyntaxTree, o: Option<usize>) -> (r: Option<String>)
    requires
        t.wf(),
        o matches Some(x) ==> x < t.size(),
    ensures
        opt_view(r) == trimmed_of(t, o),
{
    match o {
        Some(x) => Some(t.trimmed_text(x)),
        None => None,
    }
}

/// The trimmed text of the `name` field of an optional node.
pub open spec fn name_of(t: &SyntaxTree, o: Option<usize>) -> Option<Seq<char>> {
    match o {
        Some(n) => trimmed_of(t, t.field(n as int, "name"@)),
        None => None,
    }
}

fn name_opt(t: &SyntaxTree, o: Option<usize>) -> (r: Option<String>)
    requires
        t.wf(),
        o matches Some(x) ==> x < t.size(),
    ensures
        opt_view(r) == name_of(t, o),
{
    match o {
        Some(n) => {
            let f = t.field_child(n, "name");
            trimmed_opt(t, f)
        },
        None => None,
    }
}

// ───────────────────────── literals and fallback labels ─────────────────────────

/// The label of a literal node: its kind, humanised; an `argument` or a
/// parenthesised expression takes the label of its first child that has one.
pub open spec fn literal_hint(t: &SyntaxTree, i: int) -> Option<Seq<char>>
    decreases t.size() - i, 0int,
{
    if i < 0 || i >= t.size() {
        None
    } else if is_literal_kind(t.kind(i)) {
        Some(humanize_kind_spec(t.kind(i)))
    } else if t.kind(i) == "argument"@ || t.kind(i) == "parenthesized_expression"@ {
        match t.first_child@[i] {
            Some(c) => if i < c < t.size() { literal_hint_from(t, c as int) } else { None },
            None => None,
        }
    } else {
        None
    }
}

/// The first label of a literal among the siblings from `c` on.
pub open spec fn literal_hint_from(t: &SyntaxTree, c: int) -> Option<Seq<char>>
    decreases t.size() - c, 1int,
{
    if c < 0 || c >= t.size() {
        None
    } else {
        match literal_hint(t, c) {
            Some(h) => Some(h),
            None => match t.next_of(c as usize) {
                Some(s) => if c < s < t.size() { literal_hint_from(t, s as int) } else { None },
                None => None,
            },
        }
    }
}

pub fn syntax_kind_literal_hint(t: &SyntaxTree, i: usize) -> (r: Option<String>)
    requires
        t.wf(),
        i < t.size(),
    ensures
        opt_view(r) == literal_hint(t, i as int),
    decreases t.size() - i,
{
    if is_literal_kind_name(t.kinds[i].as_str()) {
        return Some(humanize_tree_sitter_kind(t.kinds[i].as_str()));
    }
    if !(t.kind_is(i, "argument") || t.kind_is(i, "parenthesized_expression")) {
        return None;
    }
    let mut c = t.first(i);
    while c.is_some()
        invariant
            t.wf(),
            i < t.size(),
            c matches Some(x) ==> i < x < t.size(),
            (match c {
                Some(x) => literal_hint_from(t, x as int),
                None => None,
            }) == literal_hint(t, i as int),
        decreases t.rest(c),
    {
        let x = c.unwrap();
        match syntax_kind_literal_hint(t, x) {
            Some(h) => return Some(h),
            None => {},
        }
        c = t.next(x);
    }
    None
}

/// The label of a node whose type is unknown: its literal label, or its kind
/// humanised.
pub open spec fn fallback_label(t: &SyntaxTree, i: int) -> Seq<char> {
    match literal_hint(t, i) {
        Some(h) => h,
        None => humanize_kind_spec(t.kind(i)),
    }
}

pub fn hint_fallback_label(t: &SyntaxTree, i: usize) -> (r: String)
    requires
        t.wf(),
        i < t.size(),
    ensures
        r@ == fallback_label(t, i as int),
{
    match syntax_kind_literal_hint(t, i) {
        Some(h) => h,
        None => humanize_tree_sitter_kind(t.kinds[i].as_str()),
    }
}

/// What is stored for a node whose type is unknown: its label, then a unit
/// separator and its snippet when the snippet is not empty.
pub open spec fn stored_unknown_hint(t: &SyntaxTree, i: int) -> Seq<char> {
    let snippet = snippet_spec(t.text(i));
    if snippet.len() == 0 {
        fallback_label(t, i)
    } else {
        fallback_label(t, i) + "\u{1f}"@ + snippet
    }
}

pub fn format_stored_unknown_hint(t: &SyntaxTree, i: usize) -> (r: String)
    requires
        t.wf(),
        i < t.size(),
    ensures
        r@ == stored_unknown_hint(t, i as int),
{
    let mut kind = hint_fallback_label(t, i);
    let snippet = truncate_hint_snippet(t.texts[i].as_str());
    if chars_of(snippet.as_str()).len() == 0 {
        kind
    } else {
        push_str(&mut kind, "\u{1f}");
        push_str(&mut kind, snippet.as_str());
        kind
    }
}

// ───────────────────────── Kotlin, Scala, Python, Go ─────────────────────────

pub open spec fn kotlin_hint_spec(t: &SyntaxTree, recv: int) -> Option<Seq<char>> {
    let txt = t.trimmed(recv);
    if txt == "this"@ || txt == "super"@ {
        match t.ancestor_in(recv, seq!["class_declaration"@, "object_declaration"@]) {
            Some(n) => trimmed_of(t, t.child_of_kind(n as int, seq!["type_identifier"@])),
            None => None,
        }
    } else {
        None
    }
}

/// Kotlin: `this` and `super` name the enclosing class or object.
pub fn kotlin_hint(t: &SyntaxTree, recv: usize) -> (r: Option<String>)
    requires
        t.wf(),
        recv < t.size(),
    ensures
        opt_view(r) == kotlin_hint_spec(t, recv as int),
{
    if !(t.trimmed_is(recv, "this") || t.trimmed_is(recv, "super")) {
        return None;
    }
    let ks: &[&str] = &["class_declaration", "object_declaration"];
    assert(crate::text::str_views(ks@) =~= seq!["class_declaration"@, "object_declaration"@]);
    match t.ancestor_of_kind(recv, ks) {
        Some(n) => {
            let ids: &[&str] = &["type_identifier"];
            assert(crate::text::str_views(ids@) =~= seq!["type_identifier"@]);
            let c = t.first_child_of_kind(n, ids);
            trimmed_opt(t, c)
        },
        None => None,
    }
}

/// Scala: the first `identifier` among the children of `c` and its siblings,
/// a child's own children searched before the next child.
pub open spec fn scala_name_from(t: &SyntaxTree, c: Option<usize>) -> Option<Seq<char>>
    decreases t.rest(c),
{
    match c {
        None => None,
        Some(x) => if x >= t.size() {
            None
        } else if t.kind(x as int) == "identifier"@ {
            Some(t.trimmed(x as int))
        } else {
            match t.child_of_kind(x as int, seq!["identifier"@]) {
                Some(cc) => Some(t.trimmed(cc as int)),
                None => scala_name_from(t, t.next_of(x)),
            }
        },
    }
}

pub open spec fn scala_hint_spec(t: &SyntaxTree, recv: int) -> Option<Seq<char>> {
    let txt = t.trimmed(recv);
    if txt == "this"@ || txt == "super"@ {
        match t.ancestor_in(recv, seq!["class_definition"@, "object_definition"@, "trait_definition"@]) {
            Some(n) => scala_name_from(t, t.first_child@[n as int]),
            None => None,
        }
    } else {
        None
    }
}

/// Scala: `this` and `super` name the enclosing class, object or trait.
pub fn scala_hint(t: &SyntaxTree, recv: usize) -> (r: Option<String>)
    requires
        t.wf(),
        recv < t.size(),
    ensures
        opt_view(r) == scala_hint_spec(t, recv as int),
{
    if !(t.trimmed_is(recv, "this") || t.trimmed_is(recv, "super")) {
        return None;
    }
    let ks: &[&str] = &["class_definition", "object_definition", "trait_definition"];
    assert(crate::text::str_views(ks@) =~= seq!["class_definition"@, "object_definition"@, "trait_definition"@]);
    let n = match t.ancestor_of_kind(recv, ks) {
        Some(n) => n,
        None => return None,
    };
    let ids: &[&str] = &["identifier"];
    assert(crate::text::str_views(ids@) =~= seq!["identifier"@]);
    let mut c = t.first(n);
    while c.is_some()
        invariant
            t.wf(),
            c matches Some(x) ==> x < t.size(),
            crate::text::str_views(ids@) == seq!["identifier"@],
            scala_name_from(t, c) == scala_hint_spec(t, recv as int),
        decreases t.rest(c),
    {
        let x = c.unwrap();
        if t.kind_is(x, "identifier") {
            return Some(t.trimmed_text(x));
        }
        match t.first_child_of_kind(x, ids) {
            Some(cc) => return Some(t.trimmed_text(cc)),
            None => {},
        }
        c = t.next(x);
    }
    None
}

/// Python: the type annotation of a class variable `name: T` in the body of
/// the enclosing class, scanning its statements; a statement that has no
/// first child or an annotation without a left side ends the scan with nothing.
pub open spec fn py_scan(t: &SyntaxTree, c: Option<usize>, name: Seq<char>) -> Option<Seq<char>>
    decreases t.rest(c),
{
    match c {
        None => None,
        Some(x) => if x >= t.size() {
            None
        } else if t.kind(x as int) != "expression_statement"@ {
            py_scan(t, t.next_of(x), name)
        } else {
            match t.first_child@[x as int] {
                None => None,
                Some(inner) => if inner >= t.size() {
                    None
                } else if t.kind(inner as int) != "annotated_assignment"@ {
                    py_scan(t, t.next_of(x), name)
                } else {
                    match t.field(inner as int, "left"@) {
                        None => None,
                        Some(left) => if t.trimmed(left as int) != name {
                            py_scan(t, t.next_of(x), name)
                        } else {
                            trimmed_of(t, t.field(inner as int, "type"@))
                        },
                    }
                },
            }
        },
    }
}

pub open spec fn python_field_spec(t: &SyntaxTree, recv: int, name: Seq<char>) -> Option<Seq<char>> {
    match t.ancestor_in(recv, seq!["class_definition"@]) {
        None => None,
        Some(cd) => match t.field(cd as int, "body"@) {
            None => None,
            Some(body) => py_scan(t, t.first_child@[body as int], name),
        },
    }
}

fn python_field_in_class(t: &SyntaxTree, recv: usize, name: &str) -> (r: Option<String>)
    requires
        t.wf(),
        recv < t.size(),
    ensures
        opt_view(r) == python_field_spec(t, recv as int, name@),
{
    let ks: &[&str] = &["class_definition"];
    assert(crate::text::str_views(ks@) =~= seq!["class_definition"@]);
    let cd = match t.ancestor_of_kind(recv, ks) {
        Some(x) => x,
        None => return None,
    };
    let body = match t.field_child(cd, "body") {
        Some(b) => b,
        None => return None,
    };
    let mut c = t.first(body);
    while c.is_some()
        invariant
            t.wf(),
            c matches Some(x) ==> x < t.size(),
            py_scan(t, c, name@) == python_field_spec(t, recv as int, name@),
        decreases t.rest(c),
    {
        let x = c.unwrap();
        if t.kind_is(x, "expression_statement") {
            let inner = match t.first(x) {
                Some(v) => v,
                None => return None,
            };
            if t.kind_is(inner, "annotated_assignment") {
                let left = match t.field_child(inner, "left") {
                    Some(l) => l,
                    None => return None,
                };
                if t.trimmed_is(left, name) {
                    let ty = t.field_child(inner, "type");
                    return trimmed_opt(t, ty);
                }
            }
        }
        c = t.next(x);
    }
    None
}

pub open spec fn python_hint_spec(t: &SyntaxTree, recv: int) -> Option<Seq<char>> {
    let txt = t.trimmed(recv);
    if txt == "self"@ {
        name_of(t, t.ancestor_in(recv, seq!["class_definition"@]))
    } else {
        python_field_spec(t, recv, txt)
    }
}

/// Python: `self` names the enclosing class; another name takes the type of
/// the class variable it names.
pub fn python_hint(t: &SyntaxTree, recv: usize) -> (r: Option<String>)
    requires
        t.wf(),
        recv < t.size(),
    ensures
        opt_view(r) == python_hint_spec(t, recv as int),
{
    let txt = t.trimmed_text(recv);
    if strs_eq(txt.as_str(), "self") {
        let ks: &[&str] = &["class_definition"];
        assert(crate::text::str_views(ks@) =~= seq!["class_definition"@]);
        let cd = t.ancestor_of_kind(recv, ks);
        return name_opt(t, cd);
    }
    python_field_in_class(t, recv, txt.as_str())
}

/// Go: the receiver `(name Type)` of the enclosing method: the last word
/// between the parentheses, when there are at least two.
pub open spec fn go_receiver_type(text: Seq<char>) -> Option<Seq<char>> {
    let s = trim(text);
    if starts_with(s, "("@) && ends_with(s.skip(1), ")"@) {
        let inner = trim(s.skip(1).take(s.len() - 2));
        let parts = words(inner);
        if parts.len() >= 2 { Some(trim(parts.last())) } else { None }
    } else {
        None
    }
}

pub open spec fn go_hint_spec(t: &SyntaxTree, recv: int) -> Option<Seq<char>> {
    match t.ancestor_in(recv, seq!["method_declaration"@]) {
        None => None,
        Some(m) => match t.field(m as int, "receiver"@) {
            None => None,
            Some(rc) => go_receiver_type(t.text(rc as int)),
        },
    }
}

/// Go: the receiver type of the enclosing method.
pub fn go_hint(t: &SyntaxTree, recv: usize) -> (r: Option<String>)
    requires
        t.wf(),
        recv < t.size(),
    ensures
        opt_view(r) == go_hint_spec(t, recv as int),
{
    let ks: &[&str] = &["method_declaration"];
    assert(crate::text::str_views(ks@) =~= seq!["method_declaration"@]);
    let m = match t.ancestor_of_kind(recv, ks) {
        Some(x) => x,
        None => return None,
    };
    let rc = match t.field_child(m, "receiver") {
        Some(x) => x,
        None => return None,
    };
    let v = chars_of(t.texts[rc].as_str());
    let s = trim_vec(v.as_slice());
    let a = match strip_prefix_vec(s.as_slice(), "(") {
        Some(a) => a,
        None => return None,
    };
    proof { reveal_strlit("("); reveal_strlit(")"); }
    let b = match strip_suffix_vec(a.as_slice(), ")") {
        Some(b) => b,
        None => return None,
    };
    assert(b@ =~= trim(t.text(rc as int)).skip(1).take(trim(t.text(rc as int)).len() - 2));
    let inner = trim_vec(b.as_slice());
    let parts = words_vec(inner.as_slice());
    if parts.len() >= 2 {
        let last = chars_of(parts[parts.len() - 1].as_str());
        let tl = trim_vec(last.as_slice());
        Some(string_of(tl.as_slice()))
    } else {
        None
    }
}

// ───────────────────────── Rust ─────────────────────────

/// `s` with every leading copy of `p` removed (`str::trim_start_matches`).
pub open spec fn strip_all(s: Seq<char>, p: Seq<char>) -> Seq<char>
    decreases s.len(),
{
    if p.len() > 0 && starts_with(s, p) { strip_all(s.skip(p.len() as int), p) } else { s }
}

/// One round of peeling a receiver: leading `mut ` words, then leading `&`,
/// then surrounding white space.
pub open spec fn rust_peel(s: Seq<char>) -> Seq<char> {
    trim(strip_all(strip_all(s, "mut "@), "&"@))
}

/// Peeling repeated until nothing changes.
pub open spec fn rust_peel_all(s: Seq<char>) -> Seq<char>
    decreases s.len(),
{
    let n = rust_peel(s);
    if n == s || n.len() >= s.len() { s } else { rust_peel_all(n) }
}

/// The variable a Rust receiver names: its text, trimmed, with `&` and `mut `
/// peeled off.
pub open spec fn rust_receiver_name(text: Seq<char>) -> Seq<char> {
    rust_peel_all(trim(text))
}

proof fn lemma_strip_all_suffix(s: Seq<char>, p: Seq<char>)
    ensures
        strip_all(s, p).len() <= s.len(),
        strip_all(s, p) == s.skip(s.len() - strip_all(s, p).len()),
    decreases s.len(),
{
    if p.len() > 0 && starts_with(s, p) {
        lemma_strip_all_suffix(s.skip(p.len() as int), p);
        let r = strip_all(s.skip(p.len() as int), p);
        assert(s.skip(p.len() as int).skip(s.skip(p.len() as int).len() - r.len()) =~= s.skip(s.len() - r.len()));
    } else {
        assert(s.skip(0) =~= s);
    }
}

proof fn lemma_trim_start_suffix(s: Seq<char>)
    ensures
        crate::text::trim_start(s).len() <= s.len(),
        crate::text::trim_start(s) == s.skip(s.len() - crate::text::trim_start(s).len()),
    decreases s.len(),
{
    if s.len() > 0 && crate::text::is_white_space(s[0]) {
        lemma_trim_start_suffix(s.drop_first());
        let r = crate::text::trim_start(s.drop_first());
        assert(s.drop_first().skip(s.drop_first().len() - r.len()) =~= s.skip(s.len() - r.len()));
    } else {
        assert(s.skip(0) =~= s);
    }
}

/// A peel that keeps the length keeps the text.
proof fn lemma_peel_shrinks(s: Seq<char>)
    ensures
        rust_peel(s).len() <= s.len(),
        rust_peel(s).len() == s.len() ==> rust_peel(s) == s,
{
    let a = strip_all(s, "mut "@);
    let b = strip_all(a, "&"@);
    lemma_strip_all_suffix(s, "mut "@);
    lemma_strip_all_suffix(a, "&"@);
    let c = crate::text::trim_start(b);
    lemma_trim_start_suffix(b);
    crate::text::lemma_trim_end_prefix(c);
    if rust_peel(s).len() == s.len() {
        assert(b =~= s);
        assert(c =~= s);
        assert(rust_peel(s) =~= s);
    }
}

fn chars_eq(a: &[char], b: &[char]) -> (r: bool)
    ensures
        r == (a@ == b@),
{
    if a.len() != b.len() {
        return false;
    }
    let mut i: usize = 0;
    while i < a.len()
        invariant
            i <= a.len(),
            a.len() == b.len(),
            forall|j: int| 0 <= j < i ==> a@[j] == b@[j],
        decreases a.len() - i,
    {
        if a[i] != b[i] {
            return false;
        }
        i = i + 1;
    }
    assert(a@ =~= b@);
    true
}

fn strip_all_vec(v: Vec<char>, p: &str) -> (r: Vec<char>)
    ensures
        r@ == strip_all(v@, p@),
{
    let pv = chars_of(p);
    let mut cur = v;
    while pv.len() > 0 && crate::text::starts_with_chars(cur.as_slice(), pv.as_slice())
        invariant
            pv@ == p@,
            strip_all(cur@, p@) == strip_all(v@, p@),
        decreases cur.len(),
    {
        let next = crate::text::sub_vec(cur.as_slice(), pv.len(), cur.len());
        assert(next@ =~= cur@.skip(p@.len() as int));
        cur = next;
    }
    cur
}

/// The variable a Rust receiver names.
pub fn rust_strip_receiver_text(s: &str) -> (r: Vec<char>)
    ensures
        r@ == rust_receiver_name(s@),
{
    let v = chars_of(s);
    let mut cur = trim_vec(v.as_slice());
    loop
        invariant
            rust_peel_all(cur@) == rust_receiver_name(s@),
        decreases cur.len(),
    {
        let a = strip_all_vec(cur.clone(), "mut ");
        let b = strip_all_vec(a, "&");
        let n = trim_vec(b.as_slice());
        proof { lemma_peel_shrinks(cur@); }
        if chars_eq(n.as_slice(), cur.as_slice()) {
            return cur;
        }
        cur = n;
    }
}

/// Whether a `let` pattern binds `name`: its text is `name`, or `mut ` and `name`.
pub open spec fn rust_pattern_binds(pt: Seq<char>, name: Seq<char>) -> bool {
    pt == name || (starts_with(pt, "mut "@) && trim(pt.skip(4)) == name)
}

/// The text before the first occurrence of `p` (all of `s` when there is none).
pub open spec fn before_str(s: Seq<char>, p: Seq<char>) -> Seq<char> {
    match crate::text::find(s, p) {
        Some(k) => s.take(k),
        None => s,
    }
}

/// The type an `impl` block is for, read off its first line: the type after
/// ` for `, or else the text before `{` and ` where `.
pub open spec fn rust_impl_type(text: Seq<char>) -> Option<Seq<char>> {
    let ls = crate::text::lines(text);
    if ls.len() == 0 {
        None
    } else {
        let first = trim(ls[0]);
        if !starts_with(first, "impl"@) {
            None
        } else {
            let rest = crate::text::trim_start(first.skip(4));
            match crate::text::find(rest, " for "@) {
                Some(idx) => Some(crate::receiver_hint::type_tail_spec(crate::text::trim_start(rest.skip(idx + 5)))),
                None => {
                    let before_brace = trim(crate::text::split_char(rest, '{')[0]);
                    Some(crate::receiver_hint::type_tail_spec(trim(before_str(before_brace, " where "@))))
                },
            }
        }
    }
}

fn before_str_vec(v: &[char], p: &str) -> (r: Vec<char>)
    ensures
        r@ == before_str(v@, p@),
{
    match crate::text::find_str(v, p) {
        Some(k) => {
            let t = crate::text::sub_vec(v, 0, k);
            assert(t@ =~= v@.take(k as int));
            t
        },
        None => {
            let t = crate::text::sub_vec(v, 0, v.len());
            assert(t@ =~= v@);
            t
        },
    }
}

fn rust_impl_type_from_impl(text: &str) -> (r: Option<String>)
    ensures
        opt_view(r) == rust_impl_type(text@),
{
    let ls = crate::text::lines_vec(text);
    if ls.len() == 0 {
        return None;
    }
    proof { assert(crate::text::string_views(ls@)[0] == ls@[0]@); }
    let fv = chars_of(ls[0].as_str());
    let first = trim_vec(fv.as_slice());
    let after_impl = match strip_prefix_vec(first.as_slice(), "impl") {
        Some(a) => a,
        None => return None,
    };
    proof { reveal_strlit("impl"); }
    let rest = crate::text::trim_start_vec(after_impl.as_slice());
    match crate::text::find_str(rest.as_slice(), " for ") {
        Some(idx) => {
            proof { reveal_strlit(" for "); }
            assert(idx + 5 <= rest.len()) by {
                assert(crate::text::occurs_at(rest@, " for "@, idx as int));
            }
            let tail = crate::text::sub_vec(rest.as_slice(), idx + 5, rest.len());
            assert(tail@ =~= rest@.skip(idx + 5));
            let after = crate::text::trim_start_vec(tail.as_slice());
            let s = string_of(after.as_slice());
            Some(crate::receiver_hint::trim_type_tail(s.as_str()))
        },
        None => {
            let pieces = crate::text::split_char_vec(rest.as_slice(), '{');
            proof { crate::text::lemma_split_char_len(rest@, '{'); }
            let before_brace = trim_vec(pieces[0].as_slice());
            let bw = before_str_vec(before_brace.as_slice(), " where ");
            let before_where = trim_vec(bw.as_slice());
            let s = string_of(before_where.as_slice());
            Some(crate::receiver_hint::trim_type_tail(s.as_str()))
        },
    }
}

/// The `let` declarations of a block that end before the receiver starts: the
/// annotated type of the last one binding `name`; a `let` with no pattern ends
/// the scan with nothing.
pub open spec fn rust_let_scan(t: &SyntaxTree, c: Option<usize>, name: Seq<char>, start: usize, last: Option<Seq<char>>) -> Option<Seq<char>>
    decreases t.rest(c),
{
    match c {
        None => last,
        Some(x) => if x >= t.size() {
            last
        } else if t.kind(x as int) != "let_declaration"@ || t.ends@[x as int] >= start {
            rust_let_scan(t, t.next_of(x), name, start, last)
        } else {
            match t.field(x as int, "pattern"@) {
                None => None,
                Some(pat) => if !rust_pattern_binds(t.trimmed(pat as int), name) {
                    rust_let_scan(t, t.next_of(x), name, start, last)
                } else {
                    let nl = match t.field(x as int, "type"@) {
                        Some(ty) => Some(t.trimmed(ty as int)),
                        None => last,
                    };
                    rust_let_scan(t, t.next_of(x), name, start, nl)
                },
            }
        },
    }
}

fn rust_let_type_in_block(t: &SyntaxTree, block: usize, name: &str, start: usize) -> (r: Option<String>)
    requires
        t.wf(),
        block < t.size(),
    ensures
        opt_view(r) == rust_let_scan(t, t.first_child@[block as int], name@, start, None),
{
    let mut last: Option<String> = None;
    let mut c = t.first(block);
    while c.is_some()
        invariant
            t.wf(),
            c matches Some(x) ==> x < t.size(),
            rust_let_scan(t, c, name@, start, opt_view(last)) == rust_let_scan(t, t.first_child@[block as int], name@, start, None),
        decreases t.rest(c),
    {
        let x = c.unwrap();
        if t.kind_is(x, "let_declaration") && t.ends[x] < start {
            let pat = match t.field_child(x, "pattern") {
                Some(p) => p,
                None => return None,
            };
            let pt = t.trimmed_text(pat);
            let pv = chars_of(pt.as_str());
            let binds = if strs_eq(pt.as_str(), name) {
                true
            } else {
                match strip_prefix_vec(pv.as_slice(), "mut ") {
                    Some(rest) => {
                        proof { reveal_strlit("mut "); }
                        let tr = trim_vec(rest.as_slice());
                        crate::lang::str_eq(tr.as_slice(), name)
                    },
                    None => false,
                }
            };
            if binds {
                match t.field_child(x, "type") {
                    Some(ty) => { last = Some(t.trimmed_text(ty)); },
                    None => {},
                }
            }
        }
        c = t.next(x);
    }
    last
}

pub open spec fn rust_hint_spec(t: &SyntaxTree, recv: int) -> Option<Seq<char>> {
    let name = rust_receiver_name(t.text(recv));
    if name == "self"@ || name == "Self"@ {
        match t.ancestor_in(recv, seq!["impl_item"@]) {
            Some(n) => rust_impl_type(t.text(n as int)),
            None => None,
        }
    } else {
        match t.ancestor_in(recv, seq!["block"@]) {
            None => None,
            Some(b) => rust_let_scan(t, t.first_child@[b as int], name, t.starts@[recv], None),
        }
    }
}

/// Rust: `self` and `Self` name the type of the enclosing `impl`; another
/// name takes the annotated type of its `let` in the enclosing block.
pub fn rust_hint(t: &SyntaxTree, recv: usize) -> (r: Option<String>)
    requires
        t.wf(),
        recv < t.size(),
    ensures
        opt_view(r) == rust_hint_spec(t, recv as int),
{
    let nv = rust_strip_receiver_text(t.texts[recv].as_str());
    if crate::lang::str_eq(nv.as_slice(), "self") || crate::lang::str_eq(nv.as_slice(), "Self") {
        let ks: &[&str] = &["impl_item"];
        assert(crate::text::str_views(ks@) =~= seq!["impl_item"@]);
        return match t.ancestor_of_kind(recv, ks) {
            Some(n) => rust_impl_type_from_impl(t.texts[n].as_str()),
            None => None,
        };
    }
    let ks: &[&str] = &["block"];
    assert(crate::text::str_views(ks@) =~= seq!["block"@]);
    match t.ancestor_of_kind(recv, ks) {
        Some(b) => {
            let name = string_of(nv.as_slice());
            rust_let_type_in_block(t, b, name.as_str(), t.starts[recv])
        },
        None => None,
    }
}

// ───────────────────────── C# ─────────────────────────

/// A declared type, or for `var` / `val` the keyword with the initialiser in
/// brackets: `var:(new Foo())`.
pub open spec fn var_or_rhs(t: &SyntaxTree, ty: int, declarator: int) -> Seq<char> {
    let s = t.trimmed(ty);
    if s == "var"@ || s == "val"@ {
        match t.field(declarator, "value"@) {
            Some(v) => s + ":("@ + t.trimmed(v as int) + ")"@,
            None => s,
        }
    } else {
        s
    }
}

fn keyword_with_value(s: &str, t: &SyntaxTree, v: usize) -> (r: String)
    requires
        t.wf(),
        v < t.size(),
    ensures
        r@ == s@ + ":("@ + t.trimmed(v as int) + ")"@,
{
    let mut out = String::new();
    push_str(&mut out, s);
    push_str(&mut out, ":(");
    let vt = t.trimmed_text(v);
    push_str(&mut out, vt.as_str());
    push_str(&mut out, ")");
    proof { reveal_strlit(":("); reveal_strlit(")"); }
    out
}

fn hint_var_type_or_rhs(t: &SyntaxTree, ty: usize, declarator: usize) -> (r: String)
    requires
        t.wf(),
        ty < t.size(),
        declarator < t.size(),
    ensures
        r@ == var_or_rhs(t, ty as int, declarator as int),
{
    let s = t.trimmed_text(ty);
    if strs_eq(s.as_str(), "var") || strs_eq(s.as_str(), "val") {
        match t.field_child(declarator, "value") {
            Some(v) => keyword_with_value(s.as_str(), t, v),
            None => s,
        }
    } else {
        s
    }
}

/// The declarators among the siblings from `c` on named `name`: the type (or
/// keyword and initialiser) of the last one.
pub open spec fn named_declarator_scan(t: &SyntaxTree, c: Option<usize>, ty: int, name: Seq<char>, last: Option<Seq<char>>) -> Option<Seq<char>>
    decreases t.rest(c),
{
    match c {
        None => last,
        Some(x) => if x >= t.size() {
            last
        } else {
            let nl = if t.kind(x as int) == "variable_declarator"@ {
                match t.field(x as int, "name"@) {
                    Some(id) => if t.trimmed(id as int) == name { Some(var_or_rhs(t, ty, x as int)) } else { last },
                    None => last,
                }
            } else {
                last
            };
            named_declarator_scan(t, t.next_of(x), ty, name, nl)
        },
    }
}

fn named_declarator_last(t: &SyntaxTree, first: Option<usize>, ty: usize, name: &str, last: Option<String>) -> (r: Option<String>)
    requires
        t.wf(),
        ty < t.size(),
        first matches Some(x) ==> x < t.size(),
    ensures
        opt_view(r) == named_declarator_scan(t, first, ty as int, name@, opt_view(last)),
{
    let mut last = last;
    let ghost want = named_declarator_scan(t, first, ty as int, name@, opt_view(last));
    let mut c = first;
    while c.is_some()
        invariant
            t.wf(),
            ty < t.size(),
            c matches Some(x) ==> x < t.size(),
            named_declarator_scan(t, c, ty as int, name@, opt_view(last)) == want,
        decreases t.rest(c),
    {
        let x = c.unwrap();
        if t.kind_is(x, "variable_declarator") {
            match t.field_child(x, "name") {
                Some(id) => {
                    if t.trimmed_is(id, name) {
                        last = Some(hint_var_type_or_rhs(t, ty, x));
                    }
                },
                None => {},
            }
        }
        c = t.next(x);
    }
    last
}

/// The declarations of a block of kind `decl_kind` that end before `start`:
/// the type of the last declarator named `name`; such a declaration without a
/// type ends the scan with nothing.
pub open spec fn local_decl_scan(t: &SyntaxTree, c: Option<usize>, decl_kind: Seq<char>, name: Seq<char>, start: usize, last: Option<Seq<char>>) -> Option<Seq<char>>
    decreases t.rest(c),
{
    match c {
        None => last,
        Some(x) => if x >= t.size() {
            last
        } else if t.kind(x as int) != decl_kind || t.ends@[x as int] >= start {
            local_decl_scan(t, t.next_of(x), decl_kind, name, start, last)
        } else {
            match t.field(x as int, "type"@) {
                None => None,
                Some(ty) => {
                    let nl = named_declarator_scan(t, t.first_child@[x as int], ty as int, name, last);
                    local_decl_scan(t, t.next_of(x), decl_kind, name, start, nl)
                },
            }
        },
    }
}

fn local_in_block(t: &SyntaxTree, block: usize, decl_kind: &str, name: &str, start: usize) -> (r: Option<String>)
    requires
        t.wf(),
        block < t.size(),
    ensures
        opt_view(r) == local_decl_scan(t, t.first_child@[block as int], decl_kind@, name@, start, None),
{
    let mut last: Option<String> = None;
    let mut c = t.first(block);
    while c.is_some()
        invariant
            t.wf(),
            c matches Some(x) ==> x < t.size(),
            local_decl_scan(t, c, decl_kind@, name@, start, opt_view(last))
                == local_decl_scan(t, t.first_child@[block as int], decl_kind@, name@, start, None),
        decreases t.rest(c),
    {
        let x = c.unwrap();
        if t.kind_is(x, decl_kind) && t.ends[x] < start {
            let ty = match t.field_child(x, "type") {
                Some(ty) => ty,
                None => return None,
            };
            let fc = t.first(x);
            last = named_declarator_last(t, fc, ty, name, last);
        }
        c = t.next(x);
    }
    last
}

/// Whether a `variable_declarator` named `name` is among the siblings from `c` on.
pub open spec fn has_named_declarator(t: &SyntaxTree, c: Option<usize>, name: Seq<char>) -> bool
    decreases t.rest(c),
{
    match c {
        None => false,
        Some(x) => if x >= t.size() {
            false
        } else if t.kind(x as int) == "variable_declarator"@ && (match t.field(x as int, "name"@) {
            Some(id) => t.trimmed(id as int) == name,
            None => false,
        }) {
            true
        } else {
            has_named_declarator(t, t.next_of(x), name)
        },
    }
}

fn any_named_declarator(t: &SyntaxTree, first: Option<usize>, name: &str) -> (r: bool)
    requires
        t.wf(),
        first matches Some(x) ==> x < t.size(),
    ensures
        r == has_named_declarator(t, first, name@),
{
    let mut c = first;
    while c.is_some()
        invariant
            t.wf(),
            c matches Some(x) ==> x < t.size(),
            has_named_declarator(t, c, name@) == has_named_declarator(t, first, name@),
        decreases t.rest(c),
    {
        let x = c.unwrap();
        if t.kind_is(x, "variable_declarator") {
            match t.field_child(x, "name") {
                Some(id) => {
                    if t.trimmed_is(id, name) {
                        return true;
                    }
                },
                None => {},
            }
        }
        c = t.next(x);
    }
    false
}

/// Whether a `variable_declaration` among the siblings from `c` on declares `name`.
pub open spec fn has_declaration_of(t: &SyntaxTree, c: Option<usize>, name: Seq<char>) -> bool
    decreases t.rest(c),
{
    match c {
        None => false,
        Some(x) => if x >= t.size() {
            false
        } else if t.kind(x as int) == "variable_declaration"@ && has_named_declarator(t, t.first_child@[x as int], name) {
            true
        } else {
            has_declaration_of(t, t.next_of(x), name)
        },
    }
}

fn any_declaration_of(t: &SyntaxTree, first: Option<usize>, name: &str) -> (r: bool)
    requires
        t.wf(),
        first matches Some(x) ==> x < t.size(),
    ensures
        r == has_declaration_of(t, first, name@),
{
    let mut c = first;
    while c.is_some()
        invariant
            t.wf(),
            c matches Some(x) ==> x < t.size(),
            has_declaration_of(t, c, name@) == has_declaration_of(t, first, name@),
        decreases t.rest(c),
    {
        let x = c.unwrap();
        if t.kind_is(x, "variable_declaration") {
            let fc = t.first(x);
            if any_named_declarator(t, fc, name) {
                return true;
            }
        }
        c = t.next(x);
    }
    false
}

/// C# class members: the type of the first field or event field declaring
/// `name`; a field declaration without a type ends the scan with nothing.
pub open spec fn cs_field_scan(t: &SyntaxTree, c: Option<usize>, name: Seq<char>) -> Option<Seq<char>>
    decreases t.rest(c),
{
    match c {
        None => None,
        Some(x) => if x >= t.size() {
            None
        } else if t.kind(x as int) != "field_declaration"@ && t.kind(x as int) != "event_field_declaration"@ {
            cs_field_scan(t, t.next_of(x), name)
        } else {
            match t.field(x as int, "type"@) {
                None => None,
                Some(ty) => if has_declaration_of(t, t.first_child@[x as int], name) {
                    Some(t.trimmed(ty as int))
                } else {
                    cs_field_scan(t, t.next_of(x), name)
                },
            }
        },
    }
}

pub open spec fn csharp_field_spec(t: &SyntaxTree, recv: int, name: Seq<char>) -> Option<Seq<char>> {
    match t.ancestor_in(recv, seq!["class_declaration"@, "struct_declaration"@, "record_declaration"@]) {
        None => None,
        Some(cl) => match t.field(cl as int, "body"@) {
            None => None,
            Some(body) => cs_field_scan(t, t.first_child@[body as int], name),
        },
    }
}

fn csharp_field_in_class(t: &SyntaxTree, recv: usize, name: &str) -> (r: Option<String>)
    requires
        t.wf(),
        recv < t.size(),
    ensures
        opt_view(r) == csharp_field_spec(t, recv as int, name@),
{
    let ks: &[&str] = &["class_declaration", "struct_declaration", "record_declaration"];
    assert(crate::text::str_views(ks@) =~= seq!["class_declaration"@, "struct_declaration"@, "record_declaration"@]);
    let cl = match t.ancestor_of_kind(recv, ks) {
        Some(x) => x,
        None => return None,
    };
    let body = match t.field_child(cl, "body") {
        Some(b) => b,
        None => return None,
    };
    let mut c = t.first(body);
    while c.is_some()
        invariant
            t.wf(),
            c matches Some(x) ==> x < t.size(),
            cs_field_scan(t, c, name@) == csharp_field_spec(t, recv as int, name@),
        decreases t.rest(c),
    {
        let x = c.unwrap();
        if t.kind_is(x, "field_declaration") || t.kind_is(x, "event_field_declaration") {
            let ty = match t.field_child(x, "type") {
                Some(ty) => ty,
                None => return None,
            };
            let fc = t.first(x);
            if any_declaration_of(t, fc, name) {
                return Some(t.trimmed_text(ty));
            }
        }
        c = t.next(x);
    }
    None
}

pub open spec fn csharp_hint_spec(t: &SyntaxTree, recv: int) -> Option<Seq<char>> {
    let txt = t.trimmed(recv);
    if txt == "this"@ || txt == "base"@ {
        name_of(t, t.ancestor_in(recv, seq!["class_declaration"@]))
    } else {
        let local = match t.ancestor_in(recv, seq!["block"@]) {
            Some(b) => local_decl_scan(t, t.first_child@[b as int], "local_declaration_statement"@, txt, t.starts@[recv], None),
            None => None,
        };
        match local {
            Some(ty) => Some(ty),
            None => csharp_field_spec(t, recv, txt),
        }
    }
}

/// C#: `this` and `base` name the enclosing class; another name takes the
/// type of its local declaration before it in the enclosing block, or of the
/// class field it names.
pub fn csharp_hint(t: &SyntaxTree, recv: usize) -> (r: Option<String>)
    requires
        t.wf(),
        recv < t.size(),
    ensures
        opt_view(r) == csharp_hint_spec(t, recv as int),
{
    let txt = t.trimmed_text(recv);
    if strs_eq(txt.as_str(), "this") || strs_eq(txt.as_str(), "base") {
        let ks: &[&str] = &["class_declaration"];
        assert(crate::text::str_views(ks@) =~= seq!["class_declaration"@]);
        let cl = t.ancestor_of_kind(recv, ks);
        return name_opt(t, cl);
    }
    let ks: &[&str] = &["block"];
    assert(crate::text::str_views(ks@) =~= seq!["block"@]);
    match t.ancestor_of_kind(recv, ks) {
        Some(b) => {
            match local_in_block(t, b, "local_declaration_statement", txt.as_str(), t.starts[recv]) {
                Some(ty) => return Some(ty),
                None => {},
            }
        },
        None => {},
    }
    csharp_field_in_class(t, recv, txt.as_str())
}

// ───────────────────────── TypeScript / JavaScript ─────────────────────────

/// What a TypeScript declarator named by the receiver contributes: its type
/// annotation (for `var` / `val`, the keyword with the initialiser), or in a
/// `var` declaration without annotation `var:(initialiser)`, or nothing.
pub open spec fn ts_declarator_type(t: &SyntaxTree, c: int, is_var: bool, last: Option<Seq<char>>) -> Option<Seq<char>> {
    match t.field(c, "type"@) {
        Some(ty) => Some(var_or_rhs(t, ty as int, c)),
        None => if is_var {
            match t.field(c, "value"@) {
                Some(v) => Some("var"@ + ":("@ + t.trimmed(v as int) + ")"@),
                None => None,
            }
        } else {
            last
        },
    }
}

pub open spec fn ts_declarator_scan(t: &SyntaxTree, c: Option<usize>, is_var: bool, name: Seq<char>, last: Option<Seq<char>>) -> Option<Seq<char>>
    decreases t.rest(c),
{
    match c {
        None => last,
        Some(x) => if x >= t.size() {
            last
        } else {
            let nl = if t.kind(x as int) == "variable_declarator"@ {
                match t.field(x as int, "name"@) {
                    Some(id) => if t.trimmed(id as int) == name { ts_declarator_type(t, x as int, is_var, last) } else { last },
                    None => last,
                }
            } else {
                last
            };
            ts_declarator_scan(t, t.next_of(x), is_var, name, nl)
        },
    }
}

pub open spec fn ts_lexical_scan(t: &SyntaxTree, c: Option<usize>, name: Seq<char>, start: usize, last: Option<Seq<char>>) -> Option<Seq<char>>
    decreases t.rest(c),
{
    match c {
        None => last,
        Some(x) => if x >= t.size() {
            last
        } else if (t.kind(x as int) != "lexical_declaration"@ && t.kind(x as int) != "variable_declaration"@)
            || t.ends@[x as int] >= start {
            ts_lexical_scan(t, t.next_of(x), name, start, last)
        } else {
            let is_var = t.kind(x as int) == "variable_declaration"@;
            let nl = ts_declarator_scan(t, t.first_child@[x as int], is_var, name, last);
            ts_lexical_scan(t, t.next_of(x), name, start, nl)
        },
    }
}

fn ts_declarator_last(t: &SyntaxTree, first: Option<usize>, is_var: bool, name: &str, last: Option<String>) -> (r: Option<String>)
    requires
        t.wf(),
        first matches Some(x) ==> x < t.size(),
    ensures
        opt_view(r) == ts_declarator_scan(t, first, is_var, name@, opt_view(last)),
{
    let mut last = last;
    let ghost want = ts_declarator_scan(t, first, is_var, name@, opt_view(last));
    let mut c = first;
    while c.is_some()
        invariant
            t.wf(),
            c matches Some(x) ==> x < t.size(),
            ts_declarator_scan(t, c, is_var, name@, opt_view(last)) == want,
        decreases t.rest(c),
    {
        let x = c.unwrap();
        if t.kind_is(x, "variable_declarator") {
            match t.field_child(x, "name") {
                Some(id) => {
                    if t.trimmed_is(id, name) {
                        match t.field_child(x, "type") {
                            Some(ty) => { last = Some(hint_var_type_or_rhs(t, ty, x)); },
                            None => {
                                if is_var {
                                    last = match t.field_child(x, "value") {
                                        Some(v) => Some(keyword_with_value("var", t, v)),
                                        None => None,
                                    };
                                }
                            },
                        }
                    }
                },
                None => {},
            }
        }
        c = t.next(x);
    }
    last
}

fn ts_lexical_in_block(t: &SyntaxTree, block: usize, name: &str, start: usize) -> (r: Option<String>)
    requires
        t.wf(),
        block < t.size(),
    ensures
        opt_view(r) == ts_lexical_scan(t, t.first_child@[block as int], name@, start, None),
{
    let mut last: Option<String> = None;
    let mut c = t.first(block);
    while c.is_some()
        invariant
            t.wf(),
            c matches Some(x) ==> x < t.size(),
            ts_lexical_scan(t, c, name@, start, opt_view(last)) == ts_lexical_scan(t, t.first_child@[block as int], name@, start, None),
        decreases t.rest(c),
    {
        let x = c.unwrap();
        let is_lex = t.kind_is(x, "lexical_declaration");
        let is_var = t.kind_is(x, "variable_declaration");
        if (is_lex || is_var) && t.ends[x] < start {
            let fc = t.first(x);
            last = ts_declarator_last(t, fc, is_var, name, last);
        }
        c = t.next(x);
    }
    last
}

pub open spec fn is_ts_field_kind(k: Seq<char>) -> bool {
    k == "public_field_definition"@ || k == "private_field_definition"@ || k == "protected_field_definition"@
        || k == "field_definition"@
}

/// A type annotation's text without its leading `:`.
pub open spec fn annotation_type(s: Seq<char>) -> Seq<char> {
    if starts_with(s, ":"@) { trim(s.skip(1)) } else { trim(s) }
}

fn annotation_type_of(t: &SyntaxTree, a: usize) -> (r: String)
    requires
        t.wf(),
        a < t.size(),
    ensures
        r@ == annotation_type(t.trimmed(a as int)),
{
    let s = t.trimmed_text(a);
    let v = chars_of(s.as_str());
    let w = match strip_prefix_vec(v.as_slice(), ":") {
        Some(rest) => {
            proof { reveal_strlit(":"); }
            rest
        },
        None => v,
    };
    let tr = trim_vec(w.as_slice());
    string_of(tr.as_slice())
}

/// TypeScript class members: the annotated type of the first field definition
/// or property signature named `name`; one without a name ends the scan with
/// nothing.
pub open spec fn ts_field_scan(t: &SyntaxTree, c: Option<usize>, name: Seq<char>) -> Option<Seq<char>>
    decreases t.rest(c),
{
    match c {
        None => None,
        Some(x) => if x >= t.size() {
            None
        } else {
            let k = t.kind(x as int);
            if k == "method_definition"@ {
                ts_field_scan(t, t.next_of(x), name)
            } else if is_ts_field_kind(k) {
                match t.field(x as int, "name"@) {
                    None => None,
                    Some(nn) => if t.trimmed(nn as int) != name {
                        ts_field_scan(t, t.next_of(x), name)
                    } else {
                        match t.field(x as int, "type"@) {
                            Some(a) => Some(annotation_type(t.trimmed(a as int))),
                            None => ts_field_scan(t, t.next_of(x), name),
                        }
                    },
                }
            } else if k == "property_signature"@ {
                match t.field(x as int, "name"@) {
                    None => None,
                    Some(nn) => if t.trimmed(nn as int) != name {
                        ts_field_scan(t, t.next_of(x), name)
                    } else {
                        match t.field(x as int, "type"@) {
                            Some(a) => Some(t.trimmed(a as int)),
                            None => ts_field_scan(t, t.next_of(x), name),
                        }
                    },
                }
            } else {
                ts_field_scan(t, t.next_of(x), name)
            }
        },
    }
}

pub open spec fn ts_field_spec(t: &SyntaxTree, recv: int, name: Seq<char>) -> Option<Seq<char>> {
    match t.ancestor_in(recv, seq!["class_declaration"@]) {
        None => None,
        Some(cl) => match t.field(cl as int, "body"@) {
            None => None,
            Some(body) => ts_field_scan(t, t.first_child@[body as int], name),
        },
    }
}

fn ts_field_in_class(t: &SyntaxTree, recv: usize, name: &str) -> (r: Option<String>)
    requires
        t.wf(),
        recv < t.size(),
    ensures
        opt_view(r) == ts_field_spec(t, recv as int, name@),
{
    let ks: &[&str] = &["class_declaration"];
    assert(crate::text::str_views(ks@) =~= seq!["class_declaration"@]);
    let cl = match t.ancestor_of_kind(recv, ks) {
        Some(x) => x,
        None => return None,
    };
    let body = match t.field_child(cl, "body") {
        Some(b) => b,
        None => return None,
    };
    let mut c = t.first(body);
    while c.is_some()
        invariant
            t.wf(),
            c matches Some(x) ==> x < t.size(),
            ts_field_scan(t, c, name@) == ts_field_spec(t, recv as int, name@),
        decreases t.rest(c),
    {
        let x = c.unwrap();
        let fk = t.kind_is(x, "public_field_definition") || t.kind_is(x, "private_field_definition")
            || t.kind_is(x, "protected_field_definition") || t.kind_is(x, "field_definition");
        let ps = t.kind_is(x, "property_signature");
        if !t.kind_is(x, "method_definition") && (fk || ps) {
            let nn = match t.field_child(x, "name") {
                Some(nn) => nn,
                None => return None,
            };
            if t.trimmed_is(nn, name) {
                match t.field_child(x, "type") {
                    Some(a) => {
                        if fk {
                            return Some(annotation_type_of(t, a));
                        } else {
                            return Some(t.trimmed_text(a));
                        }
                    },
                    None => {},
                }
            }
        }
        c = t.next(x);
    }
    None
}

pub open spec fn ts_hint_spec(t: &SyntaxTree, recv: int) -> Option<Seq<char>> {
    let txt = t.trimmed(recv);
    if txt == "this"@ {
        name_of(t, t.ancestor_in(recv, seq!["class_declaration"@]))
    } else {
        let local = match t.ancestor_in(recv, seq!["statement_block"@, "block"@]) {
            Some(b) => ts_lexical_scan(t, t.first_child@[b as int], txt, t.starts@[recv], None),
            None => None,
        };
        match local {
            Some(ty) => Some(ty),
            None => match ts_field_spec(t, recv, txt) {
                Some(ty) => Some(ty),
                None => match t.parents@[recv] {
                    Some(p) => if p < t.size() && t.kind(p as int) == "as_expression"@ {
                        trimmed_of(t, t.field(p as int, "type"@))
                    } else {
                        None
                    },
                    None => None,
                },
            },
        }
    }
}

/// TypeScript and JavaScript: `this` names the enclosing class; another name
/// takes the type of its declaration before it in the enclosing block, of the
/// class field it names, or of the `as` expression around it.
pub fn ts_hint(t: &SyntaxTree, recv: usize) -> (r: Option<String>)
    requires
        t.wf(),
        recv < t.size(),
    ensures
        opt_view(r) == ts_hint_spec(t, recv as int),
{
    let txt = t.trimmed_text(recv);
    if strs_eq(txt.as_str(), "this") {
        let ks: &[&str] = &["class_declaration"];
        assert(crate::text::str_views(ks@) =~= seq!["class_declaration"@]);
        let cl = t.ancestor_of_kind(recv, ks);
        return name_opt(t, cl);
    }
    let ks: &[&str] = &["statement_block", "block"];
    assert(crate::text::str_views(ks@) =~= seq!["statement_block"@, "block"@]);
    match t.ancestor_of_kind(recv, ks) {
        Some(b) => {
            match ts_lexical_in_block(t, b, txt.as_str(), t.starts[recv]) {
                Some(ty) => return Some(ty),
                None => {},
            }
        },
        None => {},
    }
    match ts_field_in_class(t, recv, txt.as_str()) {
        Some(ty) => return Some(ty),
        None => {},
    }
    match t.parent(recv) {
        Some(p) => {
            if t.kind_is(p, "as_expression") {
                let ty = t.field_child(p, "type");
                trimmed_opt(t, ty)
            } else {
                None
            }
        },
        None => None,
    }
}

/// A class body's member named `member`: the annotated type of a field
/// definition, or the return type of a method; a field or method without a
/// name ends the scan with nothing.
pub open spec fn ts_member_scan(t: &SyntaxTree, c: Option<usize>, member: Seq<char>) -> Option<Seq<char>>
    decreases t.rest(c),
{
    match c {
        None => None,
        Some(x) => if x >= t.size() {
            None
        } else {
            let k = t.kind(x as int);
            if is_ts_field_kind(k) {
                match t.field(x as int, "name"@) {
                    None => None,
                    Some(nn) => if t.trimmed(nn as int) != member {
                        ts_member_scan(t, t.next_of(x), member)
                    } else {
                        match t.field(x as int, "type"@) {
                            Some(a) => Some(annotation_type(t.trimmed(a as int))),
                            None => ts_member_scan(t, t.next_of(x), member),
                        }
                    },
                }
            } else if k == "method_definition"@ {
                match t.field(x as int, "name"@) {
                    None => None,
                    Some(nn) => if t.trimmed(nn as int) != member {
                        ts_member_scan(t, t.next_of(x), member)
                    } else {
                        let rt = match t.field(x as int, "return_type"@) {
                            Some(a) => Some(a),
                            None => t.field(x as int, "type"@),
                        };
                        match rt {
                            Some(a) => Some(t.trimmed(a as int)),
                            None => ts_member_scan(t, t.next_of(x), member),
                        }
                    },
                }
            } else {
                ts_member_scan(t, t.next_of(x), member)
            }
        },
    }
}

fn ts_member_type_in_class_body(t: &SyntaxTree, body: usize, member: &str) -> (r: Option<String>)
    requires
        t.wf(),
        body < t.size(),
    ensures
        opt_view(r) == ts_member_scan(t, t.first_child@[body as int], member@),
{
    let mut c = t.first(body);
    while c.is_some()
        invariant
            t.wf(),
            c matches Some(x) ==> x < t.size(),
            ts_member_scan(t, c, member@) == ts_member_scan(t, t.first_child@[body as int], member@),
        decreases t.rest(c),
    {
        let x = c.unwrap();
        let fk = t.kind_is(x, "public_field_definition") || t.kind_is(x, "private_field_definition")
            || t.kind_is(x, "protected_field_definition") || t.kind_is(x, "field_definition");
        if fk {
            let nn = match t.field_child(x, "name") {
                Some(nn) => nn,
                None => return None,
            };
            if t.trimmed_is(nn, member) {
                match t.field_child(x, "type") {
                    Some(a) => return Some(annotation_type_of(t, a)),
                    None => {},
                }
            }
        } else if t.kind_is(x, "method_definition") {
            let nn = match t.field_child(x, "name") {
                Some(nn) => nn,
                None => return None,
            };
            if t.trimmed_is(nn, member) {
                let rt = match t.field_child(x, "return_type") {
                    Some(a) => Some(a),
                    None => t.field_child(x, "type"),
                };
                match rt {
                    Some(a) => return Some(t.trimmed_text(a)),
                    None => {},
                }
            }
        }
        c = t.next(x);
    }
    None
}

/// Searching the tree below `i`, depth first, for the class `class` and in
/// its body for `member`: a class declaration without a name ends the search
/// of its subtree with nothing; the class found answers, even with nothing.
pub open spec fn ts_find(t: &SyntaxTree, i: int, class: Seq<char>, member: Seq<char>) -> Option<Seq<char>>
    decreases t.size() - i, 0int,
{
    if i < 0 || i >= t.size() {
        None
    } else if t.kind(i) == "class_declaration"@ {
        match t.field(i, "name"@) {
            None => None,
            Some(n) => if t.trimmed(n as int) == class && t.field(i, "body"@) is Some {
                ts_member_scan(t, t.first_child@[t.field(i, "body"@)->0 as int], member)
            } else {
                ts_find_from(t, t.first_of(i), class, member)
            },
        }
    } else {
        ts_find_from(t, t.first_of(i), class, member)
    }
}

pub open spec fn ts_find_from(t: &SyntaxTree, c: Option<usize>, class: Seq<char>, member: Seq<char>) -> Option<Seq<char>>
    decreases t.rest(c), 1int,
{
    match c {
        None => None,
        Some(x) => if x >= t.size() {
            None
        } else {
            match ts_find(t, x as int, class, member) {
                Some(r) => Some(r),
                None => ts_find_from(t, t.next_of(x), class, member),
            }
        },
    }
}

fn ts_find_member_type_in_tree(t: &SyntaxTree, i: usize, class: &str, member: &str) -> (r: Option<String>)
    requires
        t.wf(),
        i < t.size(),
    ensures
        opt_view(r) == ts_find(t, i as int, class@, member@),
    decreases t.size() - i,
{
    if t.kind_is(i, "class_declaration") {
        let n = match t.field_child(i, "name") {
            Some(n) => n,
            None => return None,
        };
        if t.trimmed_is(n, class) {
            match t.field_child(i, "body") {
                Some(b) => return ts_member_type_in_class_body(t, b, member),
                None => {},
            }
        }
    }
    let mut c = t.first(i);
    while c.is_some()
        invariant
            t.wf(),
            i < t.size(),
            c matches Some(x) ==> i < x < t.size(),
            ts_find_from(t, c, class@, member@) == ts_find(t, i as int, class@, member@),
        decreases t.rest(c),
    {
        let x = c.unwrap();
        match ts_find_member_type_in_tree(t, x, class, member) {
            Some(r) => return Some(r),
            None => {},
        }
        c = t.next(x);
    }
    None
}

/// The object and property of a member expression.
pub open spec fn member_parts(t: &SyntaxTree, m: int, obj_field: Seq<char>, prop_field: Seq<char>) -> Option<(usize, usize)> {
    match t.field(m, obj_field) {
        None => None,
        Some(o) => match t.field(m, prop_field) {
            None => None,
            Some(p) => Some((o, p)),
        },
    }
}

pub open spec fn ts_member_of(t: &SyntaxTree, node: int, m: int) -> Option<Seq<char>> {
    match member_parts(t, m, "object"@, "property"@) {
        None => None,
        Some((o, p)) => match ts_hint_spec(t, o as int) {
            None => None,
            Some(ot) => ts_find(t, t.root_of(node), crate::receiver_hint::dotted_simplify_spec(ot), t.trimmed(p as int)),
        },
    }
}

/// The type a TypeScript chain link yields: for `obj.prop` and `obj.m(…)` the
/// type of the member in the class named by the type of `obj`.
pub open spec fn ts_chain_spec(t: &SyntaxTree, i: int) -> Option<Seq<char>> {
    if t.kind(i) == "member_expression"@ {
        ts_member_of(t, i, i)
    } else if t.kind(i) == "call_expression"@ {
        match t.field(i, "function"@) {
            Some(f) => if t.kind(f as int) == "member_expression"@ { ts_member_of(t, i, f as int) } else { None },
            None => None,
        }
    } else {
        None
    }
}

fn ts_member_of_exec(t: &SyntaxTree, node: usize, m: usize) -> (r: Option<String>)
    requires
        t.wf(),
        node < t.size(),
        m < t.size(),
    ensures
        opt_view(r) == ts_member_of(t, node as int, m as int),
{
    let o = match t.field_child(m, "object") {
        Some(o) => o,
        None => return None,
    };
    let p = match t.field_child(m, "property") {
        Some(p) => p,
        None => return None,
    };
    let ot = match ts_hint(t, o) {
        Some(ot) => ot,
        None => return None,
    };
    let cn = crate::receiver_hint::ts_simplify_type_name(ot.as_str());
    let name = t.trimmed_text(p);
    let root = t.root_above(node);
    ts_find_member_type_in_tree(t, root, cn.as_str(), name.as_str())
}

fn ts_chain_result_type(t: &SyntaxTree, i: usize) -> (r: Option<String>)
    requires
        t.wf(),
        i < t.size(),
    ensures
        opt_view(r) == ts_chain_spec(t, i as int),
{
    if t.kind_is(i, "member_expression") {
        return ts_member_of_exec(t, i, i);
    }
    if t.kind_is(i, "call_expression") {
        match t.field_child(i, "function") {
            Some(f) => {
                if t.kind_is(f, "member_expression") {
                    return ts_member_of_exec(t, i, f);
                }
                return None;
            },
            None => return None,
        }
    }
    None
}

// ───────────────────────── Java ─────────────────────────

/// The identifier of a Java declarator: its `name` field, else its first
/// `identifier` child.
pub open spec fn java_id(t: &SyntaxTree, x: int) -> Option<usize> {
    match t.field(x, "name"@) {
        Some(i) => Some(i),
        None => t.child_of_kind(x, seq!["identifier"@]),
    }
}

fn java_id_exec(t: &SyntaxTree, x: usize) -> (r: Option<usize>)
    requires
        t.wf(),
        x < t.size(),
    ensures
        r == java_id(t, x as int),
        r matches Some(i) ==> i < t.size(),
{
    match t.field_child(x, "name") {
        Some(i) => Some(i),
        None => {
            let ks: &[&str] = &["identifier"];
            assert(crate::text::str_views(ks@) =~= seq!["identifier"@]);
            t.first_child_of_kind(x, ks)
        },
    }
}

/// The declarators among the siblings from `c` on: `None` when one has no
/// identifier, else the type (or keyword and initialiser) of the last one
/// named `name`, or `last`.
pub open spec fn java_decl_scan(t: &SyntaxTree, c: Option<usize>, ty: int, name: Seq<char>, last: Option<Seq<char>>) -> Option<Option<Seq<char>>>
    decreases t.rest(c),
{
    match c {
        None => Some(last),
        Some(x) => if x >= t.size() {
            Some(last)
        } else if t.kind(x as int) == "variable_declarator"@ {
            match java_id(t, x as int) {
                None => None,
                Some(id) => {
                    let nl = if t.trimmed(id as int) == name { Some(var_or_rhs(t, ty, x as int)) } else { last };
                    java_decl_scan(t, t.next_of(x), ty, name, nl)
                },
            }
        } else {
            java_decl_scan(t, t.next_of(x), ty, name, last)
        },
    }
}

pub open spec fn opt_opt_view(o: Option<Option<String>>) -> Option<Option<Seq<char>>> {
    match o {
        Some(x) => Some(opt_view(x)),
        None => None,
    }
}

fn java_decl_last(t: &SyntaxTree, first: Option<usize>, ty: usize, name: &str, last0: Option<String>) -> (r: Option<Option<String>>)
    requires
        t.wf(),
        ty < t.size(),
        first matches Some(x) ==> x < t.size(),
    ensures
        opt_opt_view(r) == java_decl_scan(t, first, ty as int, name@, opt_view(last0)),
{
    let mut last = last0;
    let ghost want = java_decl_scan(t, first, ty as int, name@, opt_view(last));
    let mut c = first;
    while c.is_some()
        invariant
            t.wf(),
            ty < t.size(),
            c matches Some(x) ==> x < t.size(),
            java_decl_scan(t, c, ty as int, name@, opt_view(last)) == want,
            want == java_decl_scan(t, first, ty as int, name@, opt_view(last0)),
        decreases t.rest(c),
    {
        let x = c.unwrap();
        if t.kind_is(x, "variable_declarator") {
            let id = match java_id_exec(t, x) {
                Some(id) => id,
                None => return None,
            };
            if t.trimmed_is(id, name) {
                last = Some(hint_var_type_or_rhs(t, ty, x));
            }
        }
        c = t.next(x);
    }
    Some(last)
}

/// The local variable declarations of a block that end before `start`: the
/// type of the last declarator named `name`; a declaration without a type or
/// with a declarator without identifier ends the scan with nothing.
pub open spec fn java_local_scan(t: &SyntaxTree, c: Option<usize>, name: Seq<char>, start: usize, last: Option<Seq<char>>) -> Option<Seq<char>>
    decreases t.rest(c),
{
    match c {
        None => last,
        Some(x) => if x >= t.size() {
            last
        } else if t.kind(x as int) != "local_variable_declaration"@ || t.ends@[x as int] >= start {
            java_local_scan(t, t.next_of(x), name, start, last)
        } else {
            match t.field(x as int, "type"@) {
                None => None,
                Some(ty) => match java_decl_scan(t, t.first_child@[x as int], ty as int, name, last) {
                    None => None,
                    Some(nl) => java_local_scan(t, t.next_of(x), name, start, nl),
                },
            }
        },
    }
}

fn java_local_in_block(t: &SyntaxTree, block: usize, name: &str, start: usize) -> (r: Option<String>)
    requires
        t.wf(),
        block < t.size(),
    ensures
        opt_view(r) == java_local_scan(t, t.first_child@[block as int], name@, start, None),
{
    let mut last: Option<String> = None;
    let mut c = t.first(block);
    while c.is_some()
        invariant
            t.wf(),
            c matches Some(x) ==> x < t.size(),
            java_local_scan(t, c, name@, start, opt_view(last)) == java_local_scan(t, t.first_child@[block as int], name@, start, None),
        decreases t.rest(c),
    {
        let x = c.unwrap();
        if t.kind_is(x, "local_variable_declaration") && t.ends[x] < start {
            let ty = match t.field_child(x, "type") {
                Some(ty) => ty,
                None => return None,
            };
            let fc = t.first(x);
            match java_decl_last(t, fc, ty, name, last) {
                Some(nl) => { last = nl; },
                None => return None,
            }
        }
        c = t.next(x);
    }
    last
}

/// The enclosing blocks of `j`, innermost first: the first that declares
/// `name` before `start`.
pub open spec fn java_local_enclosing(t: &SyntaxTree, j: int, name: Seq<char>, start: usize) -> Option<Seq<char>>
    decreases j,
{
    match t.ancestor_in(j, seq!["block"@]) {
        None => None,
        Some(b) => if b >= j || b >= t.size() {
            None
        } else {
            match java_local_scan(t, t.first_child@[b as int], name, start, None) {
                Some(ty) => Some(ty),
                None => java_local_enclosing(t, b as int, name, start),
            }
        },
    }
}

fn java_local_in_enclosing_blocks(t: &SyntaxTree, recv: usize, name: &str) -> (r: Option<String>)
    requires
        t.wf(),
        recv < t.size(),
    ensures
        opt_view(r) == java_local_enclosing(t, recv as int, name@, t.starts@[recv as int]),
{
    let start = t.starts[recv];
    let ks: &[&str] = &["block"];
    assert(crate::text::str_views(ks@) =~= seq!["block"@]);
    let mut j = recv;
    loop
        invariant
            t.wf(),
            j < t.size(),
            crate::text::str_views(ks@) == seq!["block"@],
            start == t.starts@[recv as int],
            java_local_enclosing(t, j as int, name@, start) == java_local_enclosing(t, recv as int, name@, start),
        decreases j,
    {
        match t.ancestor_of_kind(j, ks) {
            None => return None,
            Some(b) => {
                match java_local_in_block(t, b, name, start) {
                    Some(ty) => return Some(ty),
                    None => {},
                }
                j = b;
            },
        }
    }
}

/// Whether one of the children of `x` of the given kinds has trimmed text `name`.
pub open spec fn has_named_child_from(t: &SyntaxTree, c: Option<usize>, ks: Seq<Seq<char>>, name: Seq<char>) -> bool
    decreases t.rest(c),
{
    match c {
        None => false,
        Some(x) => if x >= t.size() {
            false
        } else if one_of(t.kind(x as int), ks) && t.trimmed(x as int) == name {
            true
        } else {
            has_named_child_from(t, t.next_of(x), ks, name)
        },
    }
}

fn any_named_child(t: &SyntaxTree, x: usize, ks: &[&str], name: &str) -> (r: bool)
    requires
        t.wf(),
        x < t.size(),
    ensures
        r == has_named_child_from(t, t.first_child@[x as int], crate::text::str_views(ks@), name@),
{
    let mut c = t.first(x);
    while c.is_some()
        invariant
            t.wf(),
            c matches Some(y) ==> y < t.size(),
            has_named_child_from(t, c, crate::text::str_views(ks@), name@)
                == has_named_child_from(t, t.first_child@[x as int], crate::text::str_views(ks@), name@),
        decreases t.rest(c),
    {
        let y = c.unwrap();
        if t.kind_in(y, ks) && t.trimmed_is(y, name) {
            return true;
        }
        c = t.next(y);
    }
    false
}

/// Whether a `_variable_declarator_id` binds `name`.
pub open spec fn java_decl_id_matches(t: &SyntaxTree, d: int, name: Seq<char>) -> bool {
    t.kind(d) == "_variable_declarator_id"@ && (
        (match t.field(d, "name"@) {
            Some(id) => t.trimmed(id as int) == name,
            None => false,
        }) || has_named_child_from(t, t.first_child@[d], seq!["identifier"@, "_reserved_identifier"@, "underscore_pattern"@], name)
    )
}

fn java_declarator_id_matches(t: &SyntaxTree, d: usize, name: &str) -> (r: bool)
    requires
        t.wf(),
        d < t.size(),
    ensures
        r == java_decl_id_matches(t, d as int, name@),
{
    if !t.kind_is(d, "_variable_declarator_id") {
        return false;
    }
    match t.field_child(d, "name") {
        Some(id) => {
            if t.trimmed_is(id, name) {
                return true;
            }
        },
        None => {},
    }
    let ks: &[&str] = &["identifier", "_reserved_identifier", "underscore_pattern"];
    assert(crate::text::str_views(ks@) =~= seq!["identifier"@, "_reserved_identifier"@, "underscore_pattern"@]);
    any_named_child(t, d, ks, name)
}

/// Whether one of the siblings from `c` on is a `_variable_declarator_id`
/// binding `name`.
pub open spec fn has_decl_id_from(t: &SyntaxTree, c: Option<usize>, name: Seq<char>) -> bool
    decreases t.rest(c),
{
    match c {
        None => false,
        Some(x) => if x >= t.size() {
            false
        } else if java_decl_id_matches(t, x as int, name) {
            true
        } else {
            has_decl_id_from(t, t.next_of(x), name)
        },
    }
}

fn any_decl_id(t: &SyntaxTree, first: Option<usize>, name: &str) -> (r: bool)
    requires
        t.wf(),
        first matches Some(x) ==> x < t.size(),
    ensures
        r == has_decl_id_from(t, first, name@),
{
    let mut c = first;
    while c.is_some()
        invariant
            t.wf(),
            c matches Some(y) ==> y < t.size(),
            has_decl_id_from(t, c, name@) == has_decl_id_from(t, first, name@),
        decreases t.rest(c),
    {
        let y = c.unwrap();
        if java_declarator_id_matches(t, y, name) {
            return true;
        }
        c = t.next(y);
    }
    false
}

/// Whether one of the siblings from `c` on is a `variable_declarator` with a
/// `_variable_declarator_id` child binding `name`.
pub open spec fn has_spread_declarator_from(t: &SyntaxTree, c: Option<usize>, name: Seq<char>) -> bool
    decreases t.rest(c),
{
    match c {
        None => false,
        Some(x) => if x >= t.size() {
            false
        } else if t.kind(x as int) == "variable_declarator"@ && has_decl_id_from(t, t.first_child@[x as int], name) {
            true
        } else {
            has_spread_declarator_from(t, t.next_of(x), name)
        },
    }
}

fn any_spread_declarator(t: &SyntaxTree, first: Option<usize>, name: &str) -> (r: bool)
    requires
        t.wf(),
        first matches Some(x) ==> x < t.size(),
    ensures
        r == has_spread_declarator_from(t, first, name@),
{
    let mut c = first;
    while c.is_some()
        invariant
            t.wf(),
            c matches Some(y) ==> y < t.size(),
            has_spread_declarator_from(t, c, name@) == has_spread_declarator_from(t, first, name@),
        decreases t.rest(c),
    {
        let y = c.unwrap();
        if t.kind_is(y, "variable_declarator") {
            let fc = t.first(y);
            if any_decl_id(t, fc, name) {
                return true;
            }
        }
        c = t.next(y);
    }
    false
}

/// The type a single node declares for `name` as a formal or spread parameter.
pub open spec fn java_param_here(t: &SyntaxTree, i: int, name: Seq<char>) -> Option<Seq<char>> {
    if t.kind(i) == "formal_parameter"@ {
        match t.field(i, "type"@) {
            None => None,
            Some(ty) => {
                let ok = match t.field(i, "name"@) {
                    Some(n) => t.trimmed(n as int) == name,
                    None => has_decl_id_from(t, t.first_child@[i], name),
                };
                if ok { Some(t.trimmed(ty as int)) } else { None }
            },
        }
    } else if t.kind(i) == "spread_parameter"@ {
        match t.field(i, "type"@) {
            None => None,
            Some(ty) => if has_spread_declarator_from(t, t.first_child@[i], name) { Some(t.trimmed(ty as int)) } else { None },
        }
    } else {
        None
    }
}

fn java_param_here_exec(t: &SyntaxTree, i: usize, name: &str) -> (r: Option<String>)
    requires
        t.wf(),
        i < t.size(),
    ensures
        opt_view(r) == java_param_here(t, i as int, name@),
{
    if t.kind_is(i, "formal_parameter") {
        let ty = match t.field_child(i, "type") {
            Some(ty) => ty,
            None => return None,
        };
        let ok = match t.field_child(i, "name") {
            Some(n) => t.trimmed_is(n, name),
            None => {
                let fc = t.first(i);
                any_decl_id(t, fc, name)
            },
        };
        if ok { Some(t.trimmed_text(ty)) } else { None }
    } else if t.kind_is(i, "spread_parameter") {
        let ty = match t.field_child(i, "type") {
            Some(ty) => ty,
            None => return None,
        };
        let fc = t.first(i);
        if any_spread_declarator(t, fc, name) { Some(t.trimmed_text(ty)) } else { None }
    } else {
        None
    }
}

/// The first parameter, depth first from `i`, that declares `name`.
pub open spec fn java_params_walk(t: &SyntaxTree, i: int, name: Seq<char>) -> Option<Seq<char>>
    decreases t.size() - i, 0int,
{
    if i < 0 || i >= t.size() {
        None
    } else {
        match java_param_here(t, i, name) {
            Some(ty) => Some(ty),
            None => java_params_walk_from(t, t.first_of(i), name),
        }
    }
}

pub open spec fn java_params_walk_from(t: &SyntaxTree, c: Option<usize>, name: Seq<char>) -> Option<Seq<char>>
    decreases t.rest(c), 1int,
{
    match c {
        None => None,
        Some(x) => if x >= t.size() {
            None
        } else {
            match java_params_walk(t, x as int, name) {
                Some(ty) => Some(ty),
                None => java_params_walk_from(t, t.next_of(x), name),
            }
        },
    }
}

fn java_walk_formal_parameters(t: &SyntaxTree, i: usize, name: &str) -> (r: Option<String>)
    requires
        t.wf(),
        i < t.size(),
    ensures
        opt_view(r) == java_params_walk(t, i as int, name@),
    decreases t.size() - i,
{
    match java_param_here_exec(t, i, name) {
        Some(ty) => return Some(ty),
        None => {},
    }
    let mut c = t.first(i);
    while c.is_some()
        invariant
            t.wf(),
            i < t.size(),
            c matches Some(x) ==> i < x < t.size(),
            java_params_walk_from(t, c, name@) == java_params_walk(t, i as int, name@),
        decreases t.rest(c),
    {
        let x = c.unwrap();
        match java_walk_formal_parameters(t, x, name) {
            Some(ty) => return Some(ty),
            None => {},
        }
        c = t.next(x);
    }
    None
}

/// The parameters of an executable (or a lambda's parameter list): its
/// `parameters` field searched first, then the node itself.
pub open spec fn java_params_of(t: &SyntaxTree, e: int, name: Seq<char>) -> Option<Seq<char>> {
    let first = match t.field(e, "parameters"@) {
        Some(p) => java_params_walk(t, p as int, name),
        None => None,
    };
    match first {
        Some(ty) => Some(ty),
        None => java_params_walk(t, e, name),
    }
}

fn java_parameters_from_formals_root(t: &SyntaxTree, e: usize, name: &str) -> (r: Option<String>)
    requires
        t.wf(),
        e < t.size(),
    ensures
        opt_view(r) == java_params_of(t, e as int, name@),
{
    match t.field_child(e, "parameters") {
        Some(p) => {
            match java_walk_formal_parameters(t, p, name) {
                Some(ty) => return Some(ty),
                None => {},
            }
        },
        None => {},
    }
    java_walk_formal_parameters(t, e, name)
}

/// Whether an inferred-parameter lambda between `j` and the enclosing method
/// binds `name`.
pub open spec fn java_lambda_shadows(t: &SyntaxTree, j: int, name: Seq<char>) -> bool
    decreases j,
{
    if j < 0 || j >= t.size() {
        false
    } else {
        match t.parents@[j] {
            None => false,
            Some(a) => if a >= j {
                false
            } else if t.kind(a as int) == "lambda_expression"@ {
                match t.field(a as int, "parameters"@) {
                    Some(p) => if t.kind(p as int) == "inferred_parameters"@
                        && has_named_child_from(t, t.first_child@[p as int], seq!["identifier"@], name) {
                        true
                    } else {
                        java_lambda_shadows(t, a as int, name)
                    },
                    None => java_lambda_shadows(t, a as int, name),
                }
            } else if t.kind(a as int) == "method_declaration"@ || t.kind(a as int) == "constructor_declaration"@ {
                false
            } else {
                java_lambda_shadows(t, a as int, name)
            },
        }
    }
}

fn java_lambda_inferred_shadows_name(t: &SyntaxTree, recv: usize, name: &str) -> (r: bool)
    requires
        t.wf(),
        recv < t.size(),
    ensures
        r == java_lambda_shadows(t, recv as int, name@),
{
    let ids: &[&str] = &["identifier"];
    assert(crate::text::str_views(ids@) =~= seq!["identifier"@]);
    let mut j = recv;
    loop
        invariant
            t.wf(),
            j < t.size(),
            crate::text::str_views(ids@) == seq!["identifier"@],
            java_lambda_shadows(t, j as int, name@) == java_lambda_shadows(t, recv as int, name@),
        decreases j,
    {
        let a = match t.parent(j) {
            Some(a) => a,
            None => return false,
        };
        if t.kind_is(a, "lambda_expression") {
            match t.field_child(a, "parameters") {
                Some(p) => {
                    if t.kind_is(p, "inferred_parameters") && any_named_child(t, p, ids, name) {
                        return true;
                    }
                },
                None => {},
            }
        } else if t.kind_is(a, "method_declaration") || t.kind_is(a, "constructor_declaration") {
            return false;
        }
        j = a;
    }
}

/// Parameters in scope, innermost first: a lambda's formal parameters, an
/// inferred-parameter lambda binding `name` (which answers nothing), or the
/// enclosing method or constructor's parameters.
pub open spec fn java_param_scope(t: &SyntaxTree, j: int, name: Seq<char>) -> Option<Seq<char>>
    decreases j,
{
    if j < 0 || j >= t.size() {
        None
    } else {
        match t.parents@[j] {
            None => None,
            Some(a) => if a >= j {
                None
            } else if t.kind(a as int) == "lambda_expression"@ {
                match t.field(a as int, "parameters"@) {
                    None => java_param_scope(t, a as int, name),
                    Some(p) => if t.kind(p as int) == "inferred_parameters"@ {
                        if has_named_child_from(t, t.first_child@[p as int], seq!["identifier"@], name) {
                            None
                        } else {
                            java_param_scope(t, a as int, name)
                        }
                    } else if t.kind(p as int) == "formal_parameters"@ {
                        match java_params_of(t, p as int, name) {
                            Some(ty) => Some(ty),
                            None => java_param_scope(t, a as int, name),
                        }
                    } else {
                        java_param_scope(t, a as int, name)
                    },
                }
            } else if t.kind(a as int) == "method_declaration"@ || t.kind(a as int) == "constructor_declaration"@ {
                java_params_of(t, a as int, name)
            } else {
                java_param_scope(t, a as int, name)
            },
        }
    }
}

fn java_parameter_type_for_scope(t: &SyntaxTree, recv: usize, name: &str) -> (r: Option<String>)
    requires
        t.wf(),
        recv < t.size(),
    ensures
        opt_view(r) == java_param_scope(t, recv as int, name@),
{
    let ids: &[&str] = &["identifier"];
    assert(crate::text::str_views(ids@) =~= seq!["identifier"@]);
    let mut j = recv;
    loop
        invariant
            t.wf(),
            j < t.size(),
            crate::text::str_views(ids@) == seq!["identifier"@],
            java_param_scope(t, j as int, name@) == java_param_scope(t, recv as int, name@),
        decreases j,
    {
        let a = match t.parent(j) {
            Some(a) => a,
            None => return None,
        };
        if t.kind_is(a, "lambda_expression") {
            match t.field_child(a, "parameters") {
                Some(p) => {
                    if t.kind_is(p, "inferred_parameters") {
                        if any_named_child(t, p, ids, name) {
                            return None;
                        }
                    } else if t.kind_is(p, "formal_parameters") {
                        match java_parameters_from_formals_root(t, p, name) {
                            Some(ty) => return Some(ty),
                            None => {},
                        }
                    }
                },
                None => {},
            }
        } else if t.kind_is(a, "method_declaration") || t.kind_is(a, "constructor_declaration") {
            return java_parameters_from_formals_root(t, a, name);
        }
        j = a;
    }
}

/// Enhanced `for` loops whose body holds the receiver, innermost first, up to
/// the enclosing method: the declared type of the loop variable `name`.
pub open spec fn java_for_scope(t: &SyntaxTree, j: int, start: usize, name: Seq<char>) -> Option<Seq<char>>
    decreases j,
{
    if j < 0 || j >= t.size() {
        None
    } else {
        match t.parents@[j] {
            None => None,
            Some(a) => if a >= j {
                None
            } else if t.kind(a as int) == "enhanced_for_statement"@ {
                let here = match t.field(a as int, "body"@) {
                    None => None,
                    Some(body) => if start < t.starts@[body as int] {
                        None
                    } else {
                        match t.field(a as int, "type"@) {
                            None => None,
                            Some(ty) => if (match t.field(a as int, "name"@) {
                                Some(n) => t.trimmed(n as int) == name,
                                None => false,
                            }) {
                                Some(t.trimmed(ty as int))
                            } else {
                                None
                            },
                        }
                    },
                };
                match here {
                    Some(ty) => Some(ty),
                    None => java_for_scope(t, a as int, start, name),
                }
            } else if t.kind(a as int) == "method_declaration"@ || t.kind(a as int) == "constructor_declaration"@ {
                None
            } else {
                java_for_scope(t, a as int, start, name)
            },
        }
    }
}

fn java_enhanced_for_type_for_scope(t: &SyntaxTree, recv: usize, name: &str) -> (r: Option<String>)
    requires
        t.wf(),
        recv < t.size(),
    ensures
        opt_view(r) == java_for_scope(t, recv as int, t.starts@[recv as int], name@),
{
    let start = t.starts[recv];
    let mut j = recv;
    loop
        invariant
            t.wf(),
            j < t.size(),
            start == t.starts@[recv as int],
            java_for_scope(t, j as int, start, name@) == java_for_scope(t, recv as int, start, name@),
        decreases j,
    {
        let a = match t.parent(j) {
            Some(a) => a,
            None => return None,
        };
        if t.kind_is(a, "enhanced_for_statement") {
            match t.field_child(a, "body") {
                Some(body) => {
                    if start >= t.starts[body] {
                        match t.field_child(a, "type") {
                            Some(ty) => {
                                let ok = match t.field_child(a, "name") {
                                    Some(n) => t.trimmed_is(n, name),
                                    None => false,
                                };
                                if ok {
                                    return Some(t.trimmed_text(ty));
                                }
                            },
                            None => {},
                        }
                    }
                },
                None => {},
            }
        } else if t.kind_is(a, "method_declaration") || t.kind_is(a, "constructor_declaration") {
            return None;
        }
        j = a;
    }
}

/// The declarators among the siblings from `c` on: `Stop` at the first
/// without identifier, `Hit` at the first named `name`, else `Miss`.
pub enum Probe {
    Hit,
    Stop,
    Miss,
}

pub open spec fn java_vd_probe(t: &SyntaxTree, c: Option<usize>, name: Seq<char>) -> Probe
    decreases t.rest(c),
{
    match c {
        None => Probe::Miss,
        Some(x) => if x >= t.size() {
            Probe::Miss
        } else if t.kind(x as int) == "variable_declarator"@ {
            match java_id(t, x as int) {
                None => Probe::Stop,
                Some(id) => if t.trimmed(id as int) == name { Probe::Hit } else { java_vd_probe(t, t.next_of(x), name) },
            }
        } else {
            java_vd_probe(t, t.next_of(x), name)
        },
    }
}

fn java_vd_probe_exec(t: &SyntaxTree, first: Option<usize>, name: &str) -> (r: Probe)
    requires
        t.wf(),
        first matches Some(x) ==> x < t.size(),
    ensures
        r == java_vd_probe(t, first, name@),
{
    let mut c = first;
    while c.is_some()
        invariant
            t.wf(),
            c matches Some(y) ==> y < t.size(),
            java_vd_probe(t, c, name@) == java_vd_probe(t, first, name@),
        decreases t.rest(c),
    {
        let x = c.unwrap();
        if t.kind_is(x, "variable_declarator") {
            match java_id_exec(t, x) {
                None => return Probe::Stop,
                Some(id) => {
                    if t.trimmed_is(id, name) {
                        return Probe::Hit;
                    }
                },
            }
        }
        c = t.next(x);
    }
    Probe::Miss
}

/// Java class members: the type of the first field declaring `name`; a field
/// without a type or a declarator without identifier ends the scan with nothing.
pub open spec fn java_field_scan(t: &SyntaxTree, c: Option<usize>, name: Seq<char>) -> Option<Seq<char>>
    decreases t.rest(c),
{
    match c {
        None => None,
        Some(x) => if x >= t.size() {
            None
        } else if t.kind(x as int) != "field_declaration"@ {
            java_field_scan(t, t.next_of(x), name)
        } else {
            match t.field(x as int, "type"@) {
                None => None,
                Some(ty) => match java_vd_probe(t, t.first_child@[x as int], name) {
                    Probe::Hit => Some(t.trimmed(ty as int)),
                    Probe::Stop => None,
                    Probe::Miss => java_field_scan(t, t.next_of(x), name),
                },
            }
        },
    }
}

pub open spec fn java_field_spec(t: &SyntaxTree, recv: int, name: Seq<char>) -> Option<Seq<char>> {
    match t.ancestor_in(recv, seq!["class_declaration"@, "interface_declaration"@, "record_declaration"@]) {
        None => None,
        Some(cl) => match t.field(cl as int, "body"@) {
            None => None,
            Some(body) => java_field_scan(t, t.first_child@[body as int], name),
        },
    }
}

fn java_field_in_class(t: &SyntaxTree, recv: usize, name: &str) -> (r: Option<String>)
    requires
        t.wf(),
        recv < t.size(),
    ensures
        opt_view(r) == java_field_spec(t, recv as int, name@),
{
    let ks: &[&str] = &["class_declaration", "interface_declaration", "record_declaration"];
    assert(crate::text::str_views(ks@) =~= seq!["class_declaration"@, "interface_declaration"@, "record_declaration"@]);
    let cl = match t.ancestor_of_kind(recv, ks) {
        Some(x) => x,
        None => return None,
    };
    let body = match t.field_child(cl, "body") {
        Some(b) => b,
        None => return None,
    };
    let mut c = t.first(body);
    while c.is_some()
        invariant
            t.wf(),
            c matches Some(x) ==> x < t.size(),
            java_field_scan(t, c, name@) == java_field_spec(t, recv as int, name@),
        decreases t.rest(c),
    {
        let x = c.unwrap();
        if t.kind_is(x, "field_declaration") {
            let ty = match t.field_child(x, "type") {
                Some(ty) => ty,
                None => return None,
            };
            let fc = t.first(x);
            match java_vd_probe_exec(t, fc, name) {
                Probe::Hit => return Some(t.trimmed_text(ty)),
                Probe::Stop => return None,
                Probe::Miss => {},
            }
        }
        c = t.next(x);
    }
    None
}

pub open spec fn java_hint_spec(t: &SyntaxTree, recv: int) -> Option<Seq<char>> {
    let txt = t.trimmed(recv);
    if txt == "this"@ || txt == "super"@ {
        name_of(t, t.ancestor_in(recv, seq!["class_declaration"@, "interface_declaration"@]))
    } else {
        match java_local_enclosing(t, recv, txt, t.starts@[recv]) {
            Some(ty) => Some(ty),
            None => match java_param_scope(t, recv, txt) {
                Some(ty) => Some(ty),
                None => match java_for_scope(t, recv, t.starts@[recv], txt) {
                    Some(ty) => Some(ty),
                    None => if java_lambda_shadows(t, recv, txt) { None } else { java_field_spec(t, recv, txt) },
                },
            },
        }
    }
}

/// Java: `this` and `super` name the enclosing class or interface; another
/// name takes the type of its local declaration in an enclosing block, of a
/// parameter in scope, of an enhanced `for` variable, or of a class field
/// (unless an inferred lambda parameter shadows it).
pub fn java_hint(t: &SyntaxTree, recv: usize) -> (r: Option<String>)
    requires
        t.wf(),
        recv < t.size(),
    ensures
        opt_view(r) == java_hint_spec(t, recv as int),
{
    let txt = t.trimmed_text(recv);
    if strs_eq(txt.as_str(), "this") || strs_eq(txt.as_str(), "super") {
        let ks: &[&str] = &["class_declaration", "interface_declaration"];
        assert(crate::text::str_views(ks@) =~= seq!["class_declaration"@, "interface_declaration"@]);
        let cl = t.ancestor_of_kind(recv, ks);
        return name_opt(t, cl);
    }
    match java_local_in_enclosing_blocks(t, recv, txt.as_str()) {
        Some(ty) => return Some(ty),
        None => {},
    }
    match java_parameter_type_for_scope(t, recv, txt.as_str()) {
        Some(ty) => return Some(ty),
        None => {},
    }
    match java_enhanced_for_type_for_scope(t, recv, txt.as_str()) {
        Some(ty) => return Some(ty),
        None => {},
    }
    if java_lambda_inferred_shadows_name(t, recv, txt.as_str()) {
        return None;
    }
    java_field_in_class(t, recv, txt.as_str())
}

/// A Java class body's member named `member`: the type of a field, or the
/// return type of a method (a method found answers, even with nothing); a
/// field without a type, a declarator without identifier or a method without
/// a name ends the scan with nothing.
pub open spec fn java_member_scan(t: &SyntaxTree, c: Option<usize>, member: Seq<char>) -> Option<Seq<char>>
    decreases t.rest(c),
{
    match c {
        None => None,
        Some(x) => if x >= t.size() {
            None
        } else if t.kind(x as int) == "field_declaration"@ {
            match t.field(x as int, "type"@) {
                None => None,
                Some(ty) => match java_vd_probe(t, t.first_child@[x as int], member) {
                    Probe::Hit => Some(t.trimmed(ty as int)),
                    Probe::Stop => None,
                    Probe::Miss => java_member_scan(t, t.next_of(x), member),
                },
            }
        } else if t.kind(x as int) == "method_declaration"@ {
            match t.field(x as int, "name"@) {
                None => None,
                Some(n) => if t.trimmed(n as int) != member {
                    java_member_scan(t, t.next_of(x), member)
                } else {
                    trimmed_of(t, t.field(x as int, "type"@))
                },
            }
        } else {
            java_member_scan(t, t.next_of(x), member)
        },
    }
}

fn java_member_type_in_class_body(t: &SyntaxTree, body: usize, member: &str) -> (r: Option<String>)
    requires
        t.wf(),
        body < t.size(),
    ensures
        opt_view(r) == java_member_scan(t, t.first_child@[body as int], member@),
{
    let mut c = t.first(body);
    while c.is_some()
        invariant
            t.wf(),
            c matches Some(x) ==> x < t.size(),
            java_member_scan(t, c, member@) == java_member_scan(t, t.first_child@[body as int], member@),
        decreases t.rest(c),
    {
        let x = c.unwrap();
        if t.kind_is(x, "field_declaration") {
            let ty = match t.field_child(x, "type") {
                Some(ty) => ty,
                None => return None,
            };
            let fc = t.first(x);
            match java_vd_probe_exec(t, fc, member) {
                Probe::Hit => return Some(t.trimmed_text(ty)),
                Probe::Stop => return None,
                Probe::Miss => {},
            }
        } else if t.kind_is(x, "method_declaration") {
            let n = match t.field_child(x, "name") {
                Some(n) => n,
                None => return None,
            };
            if t.trimmed_is(n, member) {
                let ty = t.field_child(x, "type");
                return trimmed_opt(t, ty);
            }
        }
        c = t.next(x);
    }
    None
}

pub open spec fn is_java_type_decl(k: Seq<char>) -> bool {
    k == "class_declaration"@ || k == "interface_declaration"@ || k == "record_declaration"@
}

/// Searching the tree below `i`, depth first, for the type `class` and in its
/// body for `member`.
pub open spec fn java_find(t: &SyntaxTree, i: int, class: Seq<char>, member: Seq<char>) -> Option<Seq<char>>
    decreases t.size() - i, 0int,
{
    if i < 0 || i >= t.size() {
        None
    } else if is_java_type_decl(t.kind(i)) {
        match t.field(i, "name"@) {
            None => None,
            Some(n) => if t.trimmed(n as int) == class && t.field(i, "body"@) is Some {
                java_member_scan(t, t.first_child@[t.field(i, "body"@)->0 as int], member)
            } else {
                java_find_from(t, t.first_of(i), class, member)
            },
        }
    } else {
        java_find_from(t, t.first_of(i), class, member)
    }
}

pub open spec fn java_find_from(t: &SyntaxTree, c: Option<usize>, class: Seq<char>, member: Seq<char>) -> Option<Seq<char>>
    decreases t.rest(c), 1int,
{
    match c {
        None => None,
        Some(x) => if x >= t.size() {
            None
        } else {
            match java_find(t, x as int, class, member) {
                Some(r) => Some(r),
                None => java_find_from(t, t.next_of(x), class, member),
            }
        },
    }
}

fn java_find_member_type_in_tree(t: &SyntaxTree, i: usize, class: &str, member: &str) -> (r: Option<String>)
    requires
        t.wf(),
        i < t.size(),
    ensures
        opt_view(r) == java_find(t, i as int, class@, member@),
    decreases t.size() - i,
{
    if t.kind_is(i, "class_declaration") || t.kind_is(i, "interface_declaration") || t.kind_is(i, "record_declaration") {
        let n = match t.field_child(i, "name") {
            Some(n) => n,
            None => return None,
        };
        if t.trimmed_is(n, class) {
            match t.field_child(i, "body") {
                Some(b) => return java_member_type_in_class_body(t, b, member),
                None => {},
            }
        }
    }
    let mut c = t.first(i);
    while c.is_some()
        invariant
            t.wf(),
            i < t.size(),
            c matches Some(x) ==> i < x < t.size(),
            java_find_from(t, c, class@, member@) == java_find(t, i as int, class@, member@),
        decreases t.rest(c),
    {
        let x = c.unwrap();
        match java_find_member_type_in_tree(t, x, class, member) {
            Some(r) => return Some(r),
            None => {},
        }
        c = t.next(x);
    }
    None
}

pub open spec fn java_member_of(t: &SyntaxTree, i: int, member_field: Seq<char>) -> Option<Seq<char>> {
    match member_parts(t, i, "object"@, member_field) {
        None => None,
        Some((o, m)) => match java_hint_spec(t, o as int) {
            None => None,
            Some(ot) => java_find(t, t.root_of(i), crate::receiver_hint::dotted_simplify_spec(ot), t.trimmed(m as int)),
        },
    }
}

/// The type a Java chain link yields: for `obj.field` and `obj.m(…)` the type
/// of the member in the type named by the type of `obj`.
pub open spec fn java_chain_spec(t: &SyntaxTree, i: int) -> Option<Seq<char>> {
    if t.kind(i) == "field_access"@ {
        java_member_of(t, i, "field"@)
    } else if t.kind(i) == "method_invocation"@ {
        java_member_of(t, i, "name"@)
    } else {
        None
    }
}

fn java_member_of_exec(t: &SyntaxTree, i: usize, member_field: &str) -> (r: Option<String>)
    requires
        t.wf(),
        i < t.size(),
    ensures
        opt_view(r) == java_member_of(t, i as int, member_field@),
{
    let o = match t.field_child(i, "object") {
        Some(o) => o,
        None => return None,
    };
    let m = match t.field_child(i, member_field) {
        Some(m) => m,
        None => return None,
    };
    let ot = match java_hint(t, o) {
        Some(ot) => ot,
        None => return None,
    };
    let cn = crate::receiver_hint::java_simplify_type_name(ot.as_str());
    let name = t.trimmed_text(m);
    let root = t.root_above(i);
    java_find_member_type_in_tree(t, root, cn.as_str(), name.as_str())
}

fn java_chain_result_type(t: &SyntaxTree, i: usize) -> (r: Option<String>)
    requires
        t.wf(),
        i < t.size(),
    ensures
        opt_view(r) == java_chain_spec(t, i as int),
{
    if t.kind_is(i, "field_access") {
        java_member_of_exec(t, i, "field")
    } else if t.kind_is(i, "method_invocation") {
        java_member_of_exec(t, i, "name")
    } else {
        None
    }
}

// ───────────────────────── C / C++ ─────────────────────────

/// The variable at the left end of a receiver expression: through calls to
/// their function, member accesses and subscripts to their argument.
pub open spec fn cpp_base_name(t: &SyntaxTree, i: int) -> Seq<char>
    decreases t.size() - i,
{
    if i < 0 || i >= t.size() {
        Seq::empty()
    } else {
        let k = t.kind(i);
        let next = if k == "call_expression"@ {
            t.field(i, "function"@)
        } else if k == "field_expression"@ || k == "subscript_expression"@ {
            t.field(i, "argument"@)
        } else {
            None
        };
        match next {
            Some(c) => if i < c < t.size() { cpp_base_name(t, c as int) } else { t.trimmed(i) },
            None => t.trimmed(i),
        }
    }
}

pub fn cpp_recv_base_name(t: &SyntaxTree, i: usize) -> (r: String)
    requires
        t.wf(),
        i < t.size(),
    ensures
        r@ == cpp_base_name(t, i as int),
    decreases t.size() - i,
{
    let next = if t.kind_is(i, "call_expression") {
        t.field_child(i, "function")
    } else if t.kind_is(i, "field_expression") || t.kind_is(i, "subscript_expression") {
        t.field_child(i, "argument")
    } else {
        None
    };
    match next {
        Some(c) => {
            if i < c {
                cpp_recv_base_name(t, c)
            } else {
                t.trimmed_text(i)
            }
        },
        None => t.trimmed_text(i),
    }
}

/// Whether a declarator names `name`: an identifier or field identifier with
/// that text, or any child declarator that does.
pub open spec fn cpp_decl_names(t: &SyntaxTree, d: int, name: Seq<char>) -> bool
    decreases t.size() - d, 0int,
{
    if d < 0 || d >= t.size() {
        false
    } else if t.kind(d) == "identifier"@ || t.kind(d) == "field_identifier"@ {
        t.trimmed(d) == name
    } else {
        cpp_decl_names_from(t, t.first_of(d), name)
    }
}

pub open spec fn cpp_decl_names_from(t: &SyntaxTree, c: Option<usize>, name: Seq<char>) -> bool
    decreases t.rest(c), 1int,
{
    match c {
        None => false,
        Some(x) => if x >= t.size() {
            false
        } else {
            cpp_decl_names(t, x as int, name) || cpp_decl_names_from(t, t.next_of(x), name)
        },
    }
}

pub(crate) fn cpp_declarator_matches_name(t: &SyntaxTree, d: usize, name: &str) -> (r: bool)
    requires
        t.wf(),
        d < t.size(),
    ensures
        r == cpp_decl_names(t, d as int, name@),
    decreases t.size() - d,
{
    if t.kind_is(d, "identifier") || t.kind_is(d, "field_identifier") {
        return t.trimmed_is(d, name);
    }
    let mut c = t.first(d);
    while c.is_some()
        invariant
            t.wf(),
            d < t.size(),
            c matches Some(x) ==> d < x < t.size(),
            cpp_decl_names_from(t, c, name@) == cpp_decl_names(t, d as int, name@),
        decreases t.rest(c),
    {
        let x = c.unwrap();
        if cpp_declarator_matches_name(t, x, name) {
            return true;
        }
        c = t.next(x);
    }
    false
}

/// The walk of a declaration for the name it declares: at an
/// `init_declarator`, its `declarator` field (the initialiser is not looked
/// at); elsewhere, any child.
pub open spec fn cpp_init_walk(t: &SyntaxTree, n: int, name: Seq<char>) -> bool
    decreases t.size() - n, 0int,
{
    if n < 0 || n >= t.size() {
        false
    } else if t.kind(n) == "init_declarator"@ {
        match t.field(n, "declarator"@) {
            Some(d) => cpp_decl_names(t, d as int, name),
            None => false,
        }
    } else {
        cpp_init_walk_from(t, t.first_of(n), name)
    }
}

pub open spec fn cpp_init_walk_from(t: &SyntaxTree, c: Option<usize>, name: Seq<char>) -> bool
    decreases t.rest(c), 1int,
{
    match c {
        None => false,
        Some(x) => if x >= t.size() {
            false
        } else {
            cpp_init_walk(t, x as int, name) || cpp_init_walk_from(t, t.next_of(x), name)
        },
    }
}

fn cpp_init_walk_exec(t: &SyntaxTree, n: usize, name: &str) -> (r: bool)
    requires
        t.wf(),
        n < t.size(),
    ensures
        r == cpp_init_walk(t, n as int, name@),
    decreases t.size() - n,
{
    if t.kind_is(n, "init_declarator") {
        return match t.field_child(n, "declarator") {
            Some(d) => cpp_declarator_matches_name(t, d, name),
            None => false,
        };
    }
    let mut c = t.first(n);
    while c.is_some()
        invariant
            t.wf(),
            n < t.size(),
            c matches Some(x) ==> n < x < t.size(),
            cpp_init_walk_from(t, c, name@) == cpp_init_walk(t, n as int, name@),
        decreases t.rest(c),
    {
        let x = c.unwrap();
        if cpp_init_walk_exec(t, x, name) {
            return true;
        }
        c = t.next(x);
    }
    false
}

/// Whether one of the children from `c` on filling the field `declarator`
/// names `name` (through an `init_declarator`'s own `declarator`).
pub open spec fn cpp_field_declarators_name(t: &SyntaxTree, c: Option<usize>, name: Seq<char>) -> bool
    decreases t.rest(c),
{
    match c {
        None => false,
        Some(x) => if x >= t.size() {
            false
        } else if t.fills(x as int, "declarator"@) && (if t.kind(x as int) == "init_declarator"@ {
            match t.field(x as int, "declarator"@) {
                Some(inner) => cpp_decl_names(t, inner as int, name),
                None => false,
            }
        } else {
            cpp_decl_names(t, x as int, name)
        }) {
            true
        } else {
            cpp_field_declarators_name(t, t.next_of(x), name)
        },
    }
}

pub(crate) fn fills_exec(t: &SyntaxTree, x: usize, name: &str) -> (r: bool)
    requires
        t.wf(),
        x < t.size(),
    ensures
        r == t.fills(x as int, name@),
{
    match &t.fields[x] {
        Some(f) => strs_eq(f.as_str(), name),
        None => false,
    }
}

/// Whether a declaration declares `name`.
pub open spec fn cpp_declares(t: &SyntaxTree, decl: int, name: Seq<char>) -> bool {
    cpp_init_walk(t, decl, name) || cpp_field_declarators_name(t, t.first_child@[decl], name)
}

pub(crate) fn cpp_declaration_declares_name(t: &SyntaxTree, decl: usize, name: &str) -> (r: bool)
    requires
        t.wf(),
        decl < t.size(),
    ensures
        r == cpp_declares(t, decl as int, name@),
{
    if cpp_init_walk_exec(t, decl, name) {
        return true;
    }
    let mut c = t.first(decl);
    while c.is_some()
        invariant
            t.wf(),
            decl < t.size(),
            c matches Some(x) ==> x < t.size(),
            cpp_field_declarators_name(t, c, name@) == cpp_field_declarators_name(t, t.first_child@[decl as int], name@),
        decreases t.rest(c),
    {
        let x = c.unwrap();
        if fills_exec(t, x, "declarator") {
            let ok = if t.kind_is(x, "init_declarator") {
                match t.field_child(x, "declarator") {
                    Some(inner) => cpp_declarator_matches_name(t, inner, name),
                    None => false,
                }
            } else {
                cpp_declarator_matches_name(t, x, name)
            };
            if ok {
                return true;
            }
        }
        c = t.next(x);
    }
    false
}

/// `buf`, then a blank when `buf` is not empty, then `piece`.
pub open spec fn join_piece(buf: Seq<char>, piece: Seq<char>) -> Seq<char> {
    if buf.len() > 0 { buf + " "@ + piece } else { buf + piece }
}

/// A non-empty trimmed text.
pub open spec fn nonblank(s: Seq<char>) -> Option<Seq<char>> {
    if trim(s).len() == 0 { None } else { Some(trim(s)) }
}

pub open spec fn is_cpp_decl_stop(k: Seq<char>) -> bool {
    k == "init_declarator"@ || k == "_declarator"@ || k == "pointer_declarator"@ || k == "reference_declarator"@
        || k == "function_declarator"@ || k == "array_declarator"@ || k == "identifier"@ || k == "field_identifier"@
        || k == ";"@
}

/// The specifiers at the head of a declaration: the children before its first
/// declarator, joined by blanks (an `_declaration_specifiers` child stands for
/// all of them).
pub open spec fn cpp_spec_scan(t: &SyntaxTree, c: Option<usize>, buf: Seq<char>) -> Option<Seq<char>>
    decreases t.rest(c),
{
    match c {
        None => nonblank(buf),
        Some(x) => if x >= t.size() || is_cpp_decl_stop(t.kind(x as int)) {
            nonblank(buf)
        } else if t.kind(x as int) == "_declaration_specifiers"@ {
            Some(t.trimmed(x as int))
        } else {
            cpp_spec_scan(t, t.next_of(x), join_piece(buf, t.trimmed(x as int)))
        },
    }
}

fn push_piece(buf: &mut String, piece: &str)
    ensures
        final(buf)@ == join_piece(old(buf)@, piece@),
{
    if chars_of(buf.as_str()).len() > 0 {
        push_str(buf, " ");
    }
    push_str(buf, piece);
}

fn nonblank_exec(buf: &str) -> (r: Option<String>)
    ensures
        opt_view(r) == nonblank(buf@),
{
    let s = crate::text::trim_string(buf);
    if chars_of(s.as_str()).len() == 0 { None } else { Some(s) }
}

pub(crate) fn cpp_declaration_specifiers_text(t: &SyntaxTree, decl: usize) -> (r: Option<String>)
    requires
        t.wf(),
        decl < t.size(),
    ensures
        opt_view(r) == cpp_spec_scan(t, t.first_child@[decl as int], Seq::empty()),
{
    let mut buf = String::new();
    let mut c = t.first(decl);
    while c.is_some()
        invariant
            t.wf(),
            c matches Some(x) ==> x < t.size(),
            cpp_spec_scan(t, c, buf@) == cpp_spec_scan(t, t.first_child@[decl as int], Seq::empty()),
        decreases t.rest(c),
    {
        let x = c.unwrap();
        if t.kind_is(x, "init_declarator") || t.kind_is(x, "_declarator") || t.kind_is(x, "pointer_declarator")
            || t.kind_is(x, "reference_declarator") || t.kind_is(x, "function_declarator")
            || t.kind_is(x, "array_declarator") || t.kind_is(x, "identifier") || t.kind_is(x, "field_identifier")
            || t.kind_is(x, ";") {
            return nonblank_exec(buf.as_str());
        }
        if t.kind_is(x, "_declaration_specifiers") {
            return Some(t.trimmed_text(x));
        }
        let piece = t.trimmed_text(x);
        push_piece(&mut buf, piece.as_str());
        c = t.next(x);
    }
    nonblank_exec(buf.as_str())
}

/// The type a declaration gives `name`, when it declares it.
pub open spec fn cpp_decl_type(t: &SyntaxTree, decl: int, name: Seq<char>) -> Option<Seq<char>> {
    if cpp_declares(t, decl, name) { cpp_spec_scan(t, t.first_child@[decl], Seq::empty()) } else { None }
}

fn cpp_declaration_type_if_name(t: &SyntaxTree, decl: usize, name: &str) -> (r: Option<String>)
    requires
        t.wf(),
        decl < t.size(),
    ensures
        opt_view(r) == cpp_decl_type(t, decl as int, name@),
{
    if !cpp_declaration_declares_name(t, decl, name) {
        return None;
    }
    cpp_declaration_specifiers_text(t, decl)
}

/// The declarations among the siblings from `c` on that end before `start`:
/// the type of the last that declares `name`.
pub open spec fn cpp_inner_decl_scan(t: &SyntaxTree, c: Option<usize>, start: usize, name: Seq<char>, last: Option<Seq<char>>) -> Option<Seq<char>>
    decreases t.rest(c),
{
    match c {
        None => last,
        Some(x) => if x >= t.size() {
            last
        } else if t.kind(x as int) != "declaration"@ || t.ends@[x as int] >= start {
            cpp_inner_decl_scan(t, t.next_of(x), start, name, last)
        } else {
            let nl = match cpp_decl_type(t, x as int, name) {
                Some(ty) => Some(ty),
                None => last,
            };
            cpp_inner_decl_scan(t, t.next_of(x), start, name, nl)
        },
    }
}

/// One item of a block: a declaration ending before `start`, or the
/// declarations directly inside it, updating the last type found for `name`.
pub open spec fn cpp_block_item(t: &SyntaxTree, item: int, start: usize, name: Seq<char>, last: Option<Seq<char>>) -> Option<Seq<char>> {
    if t.kind(item) == "declaration"@ {
        if t.ends@[item] < start {
            match cpp_decl_type(t, item, name) {
                Some(ty) => Some(ty),
                None => last,
            }
        } else {
            last
        }
    } else {
        cpp_inner_decl_scan(t, t.first_child@[item], start, name, last)
    }
}

pub open spec fn cpp_block_scan(t: &SyntaxTree, c: Option<usize>, start: usize, name: Seq<char>, last: Option<Seq<char>>) -> Option<Seq<char>>
    decreases t.rest(c),
{
    match c {
        None => last,
        Some(x) => if x >= t.size() {
            last
        } else {
            cpp_block_scan(t, t.next_of(x), start, name, cpp_block_item(t, x as int, start, name, last))
        },
    }
}

fn cpp_try_declarations_from_block_item(t: &SyntaxTree, item: usize, start: usize, name: &str, last: Option<String>) -> (r: Option<String>)
    requires
        t.wf(),
        item < t.size(),
    ensures
        opt_view(r) == cpp_block_item(t, item as int, start, name@, opt_view(last)),
{
    if t.kind_is(item, "declaration") {
        if t.ends[item] < start {
            return match cpp_declaration_type_if_name(t, item, name) {
                Some(ty) => Some(ty),
                None => last,
            };
        }
        return last;
    }
    let mut last = last;
    let ghost l0 = opt_view(last);
    let mut c = t.first(item);
    while c.is_some()
        invariant
            t.wf(),
            item < t.size(),
            c matches Some(x) ==> x < t.size(),
            cpp_inner_decl_scan(t, c, start, name@, opt_view(last)) == cpp_inner_decl_scan(t, t.first_child@[item as int], start, name@, l0),
        decreases t.rest(c),
    {
        let x = c.unwrap();
        if t.kind_is(x, "declaration") && t.ends[x] < start {
            match cpp_declaration_type_if_name(t, x, name) {
                Some(ty) => { last = Some(ty); },
                None => {},
            }
        }
        c = t.next(x);
    }
    last
}

/// The enclosing compound statements of `j`, innermost first: the first whose
/// items declare `name` before `start`.
pub open spec fn cpp_local_enclosing(t: &SyntaxTree, j: int, name: Seq<char>, start: usize) -> Option<Seq<char>>
    decreases j,
{
    match t.ancestor_in(j, seq!["compound_statement"@]) {
        None => None,
        Some(b) => if b >= j || b >= t.size() {
            None
        } else {
            match cpp_block_scan(t, t.first_child@[b as int], start, name, None) {
                Some(ty) => Some(ty),
                None => cpp_local_enclosing(t, b as int, name, start),
            }
        },
    }
}

fn cpp_local_in_enclosing_blocks(t: &SyntaxTree, recv: usize, name: &str) -> (r: Option<String>)
    requires
        t.wf(),
        recv < t.size(),
    ensures
        opt_view(r) == cpp_local_enclosing(t, recv as int, name@, t.starts@[recv as int]),
{
    let start = t.starts[recv];
    let ks: &[&str] = &["compound_statement"];
    assert(crate::text::str_views(ks@) =~= seq!["compound_statement"@]);
    let mut j = recv;
    loop
        invariant
            t.wf(),
            j < t.size(),
            crate::text::str_views(ks@) == seq!["compound_statement"@],
            start == t.starts@[recv as int],
            cpp_local_enclosing(t, j as int, name@, start) == cpp_local_enclosing(t, recv as int, name@, start),
        decreases j,
    {
        let b = match t.ancestor_of_kind(j, ks) {
            Some(b) => b,
            None => return None,
        };
        let mut last: Option<String> = None;
        let mut c = t.first(b);
        while c.is_some()
            invariant
                t.wf(),
                b < t.size(),
                c matches Some(x) ==> x < t.size(),
                cpp_block_scan(t, c, start, name@, opt_view(last)) == cpp_block_scan(t, t.first_child@[b as int], start, name@, None),
            decreases t.rest(c),
        {
            let x = c.unwrap();
            last = cpp_try_declarations_from_block_item(t, x, start, name, last);
            c = t.next(x);
        }
        if last.is_some() {
            return last;
        }
        j = b;
    }
}

pub open spec fn is_cpp_punct(k: Seq<char>) -> bool {
    k == "*"@ || k == "&"@ || k == "&&"@ || k == "["@ || k == "]"@ || k == "("@ || k == ")"@ || k == ","@ || k == ";"@
}

/// The last sibling from `c` on that is not punctuation.
pub open spec fn last_non_punct(t: &SyntaxTree, c: Option<usize>, found: Option<usize>) -> Option<usize>
    decreases t.rest(c),
{
    match c {
        None => found,
        Some(x) => if x >= t.size() {
            found
        } else {
            let nf = if is_cpp_punct(t.kind(x as int)) { found } else { Some(x) };
            last_non_punct(t, t.next_of(x), nf)
        },
    }
}

/// The declarator inside a declarator: its `declarator` field, else its last
/// child that is not punctuation.
pub open spec fn cpp_inner(t: &SyntaxTree, d: int) -> Option<usize> {
    match t.field(d, "declarator"@) {
        Some(x) => Some(x),
        None => last_non_punct(t, t.first_child@[d], None),
    }
}

pub(crate) fn cpp_inner_declarator(t: &SyntaxTree, d: usize) -> (r: Option<usize>)
    requires
        t.wf(),
        d < t.size(),
    ensures
        r == cpp_inner(t, d as int),
        r matches Some(x) ==> x < t.size(),
{
    match t.field_child(d, "declarator") {
        Some(x) => return Some(x),
        None => {},
    }
    let mut found: Option<usize> = None;
    let mut c = t.first(d);
    while c.is_some()
        invariant
            t.wf(),
            c matches Some(x) ==> x < t.size(),
            found matches Some(x) ==> x < t.size(),
            last_non_punct(t, c, found) == last_non_punct(t, t.first_child@[d as int], None),
        decreases t.rest(c),
    {
        let x = c.unwrap();
        let k = t.kinds[x].as_str();
        let punct = strs_eq(k, "*") || strs_eq(k, "&") || strs_eq(k, "&&") || strs_eq(k, "[") || strs_eq(k, "]")
            || strs_eq(k, "(") || strs_eq(k, ")") || strs_eq(k, ",") || strs_eq(k, ";");
        if !punct {
            found = Some(x);
        }
        c = t.next(x);
    }
    found
}

proof fn lemma_last_non_punct_after(t: &SyntaxTree, c: Option<usize>, found: Option<usize>, d: int)
    requires
        t.wf(),
        c matches Some(x) ==> d < x,
        found matches Some(x) ==> d < x,
    ensures
        last_non_punct(t, c, found) matches Some(x) ==> d < x,
    decreases t.rest(c),
{
    if let Some(x) = c {
        if x < t.size() {
            assert(t.links_ok(x as int));
            let nf = if is_cpp_punct(t.kind(x as int)) { found } else { Some(x) };
            lemma_last_non_punct_after(t, t.next_of(x), nf, d);
        }
    }
}

proof fn lemma_field_from_after(t: &SyntaxTree, c: Option<usize>, name: Seq<char>, d: int)
    requires
        t.wf(),
        c matches Some(x) ==> d < x,
    ensures
        t.field_from(c, name) matches Some(x) ==> d < x,
    decreases t.rest(c),
{
    if let Some(x) = c {
        if x < t.size() && !t.fills(x as int, name) {
            assert(t.links_ok(x as int));
            lemma_field_from_after(t, t.next_of(x), name, d);
        }
    }
}

/// The declarator inside `d` comes after it.
proof fn lemma_inner_after(t: &SyntaxTree, d: int)
    requires
        t.wf(),
        0 <= d < t.size(),
    ensures
        cpp_inner(t, d) matches Some(x) ==> d < x,
{
    assert(t.links_ok(d));
    lemma_field_from_after(t, t.first_child@[d], "declarator"@, d);
    lemma_last_non_punct_after(t, t.first_child@[d], None, d);
}

/// The marks a pointer or reference declarator `d` writes before its inner
/// declarator `inner`: its text before the last occurrence of the inner text,
/// trimmed.
pub open spec fn cpp_marks_here(t: &SyntaxTree, d: int, inner: int) -> Seq<char> {
    if t.kind(d) == "pointer_declarator"@ || t.kind(d) == "reference_declarator"@ {
        match crate::text::rfind(t.text(d), t.text(inner)) {
            Some(pos) => trim(t.text(d).take(pos)),
            None => Seq::empty(),
        }
    } else {
        Seq::empty()
    }
}

/// The pointer and reference marks a declarator adds to a type: its own
/// marks, then those of its inner declarator.
pub open spec fn cpp_type_ops(t: &SyntaxTree, d: int) -> Seq<char>
    decreases t.size() - d,
{
    if d < 0 || d >= t.size() {
        Seq::empty()
    } else {
        match cpp_inner(t, d) {
            None => Seq::empty(),
            Some(inner) => if inner <= d || inner >= t.size() {
                Seq::empty()
            } else {
                cpp_marks_here(t, d, inner as int) + cpp_type_ops(t, inner as int)
            },
        }
    }
}

fn cpp_marks_here_exec(t: &SyntaxTree, d: usize, inner: usize) -> (r: String)
    requires
        t.wf(),
        d < t.size(),
        inner < t.size(),
    ensures
        r@ == cpp_marks_here(t, d as int, inner as int),
{
    if !(t.kind_is(d, "pointer_declarator") || t.kind_is(d, "reference_declarator")) {
        return String::new();
    }
    let dv = chars_of(t.texts[d].as_str());
    match crate::text::rfind_chars(dv.as_slice(), t.texts[inner].as_str()) {
        Some(pos) => {
            assert(pos <= dv.len()) by {
                assert(crate::text::occurs_at(dv@, t.text(inner as int), pos as int));
            }
            let head = crate::text::sub_vec(dv.as_slice(), 0, pos);
            assert(head@ =~= t.text(d as int).take(pos as int));
            let tr = trim_vec(head.as_slice());
            string_of(tr.as_slice())
        },
        None => String::new(),
    }
}

pub(crate) fn cpp_declarator_type_ops(t: &SyntaxTree, d: usize) -> (r: String)
    requires
        t.wf(),
        d < t.size(),
    ensures
        r@ == cpp_type_ops(t, d as int),
    decreases t.size() - d,
{
    let inner = match cpp_inner_declarator(t, d) {
        Some(x) => x,
        None => return String::new(),
    };
    proof { lemma_inner_after(t, d as int); }
    let mut out = cpp_marks_here_exec(t, d, inner);
    let rest = cpp_declarator_type_ops(t, inner);
    push_str(&mut out, rest.as_str());
    out
}

/// The specifiers of a parameter: its children before its declarator starts,
/// joined by blanks (an `_declaration_specifiers` child stands for all).
pub open spec fn cpp_param_spec_scan(t: &SyntaxTree, c: Option<usize>, ds: Option<usize>, buf: Seq<char>) -> Option<Seq<char>>
    decreases t.rest(c),
{
    match c {
        None => nonblank(buf),
        Some(x) => if x >= t.size() || (ds matches Some(s) && t.starts@[x as int] >= s) {
            nonblank(buf)
        } else if t.kind(x as int) == "_declaration_specifiers"@ {
            Some(t.trimmed(x as int))
        } else {
            cpp_param_spec_scan(t, t.next_of(x), ds, join_piece(buf, t.trimmed(x as int)))
        },
    }
}

pub open spec fn cpp_param_specs(t: &SyntaxTree, param: int) -> Option<Seq<char>> {
    let ds = match t.field(param, "declarator"@) {
        Some(d) => Some(t.starts@[d as int]),
        None => None,
    };
    cpp_param_spec_scan(t, t.first_child@[param], ds, Seq::empty())
}

fn cpp_parameter_specifiers_text(t: &SyntaxTree, param: usize) -> (r: Option<String>)
    requires
        t.wf(),
        param < t.size(),
    ensures
        opt_view(r) == cpp_param_specs(t, param as int),
{
    let ds = match t.field_child(param, "declarator") {
        Some(d) => Some(t.starts[d]),
        None => None,
    };
    let mut buf = String::new();
    let mut c = t.first(param);
    while c.is_some()
        invariant
            t.wf(),
            c matches Some(x) ==> x < t.size(),
            cpp_param_spec_scan(t, c, ds, buf@) == cpp_param_specs(t, param as int),
        decreases t.rest(c),
    {
        let x = c.unwrap();
        match ds {
            Some(s) => {
                if t.starts[x] >= s {
                    return nonblank_exec(buf.as_str());
                }
            },
            None => {},
        }
        if t.kind_is(x, "_declaration_specifiers") {
            return Some(t.trimmed_text(x));
        }
        let piece = t.trimmed_text(x);
        push_piece(&mut buf, piece.as_str());
        c = t.next(x);
    }
    nonblank_exec(buf.as_str())
}

/// The type a parameter declaration gives `name`: its specifiers, then a
/// blank and its pointer and reference marks when it has some.
pub open spec fn cpp_param_type(t: &SyntaxTree, param: int, name: Seq<char>) -> Option<Seq<char>> {
    if t.kind(param) != "parameter_declaration"@ {
        None
    } else {
        match t.field(param, "declarator"@) {
            None => None,
            Some(d) => if !cpp_decl_names(t, d as int, name) {
                None
            } else {
                match cpp_param_specs(t, param) {
                    None => None,
                    Some(ty) => {
                        let ops = cpp_type_ops(t, d as int);
                        if ops.len() > 0 { Some(ty + " "@ + ops) } else { Some(ty) }
                    },
                }
            },
        }
    }
}

fn cpp_parameter_type_if_name(t: &SyntaxTree, param: usize, name: &str) -> (r: Option<String>)
    requires
        t.wf(),
        param < t.size(),
    ensures
        opt_view(r) == cpp_param_type(t, param as int, name@),
{
    if !t.kind_is(param, "parameter_declaration") {
        return None;
    }
    let d = match t.field_child(param, "declarator") {
        Some(d) => d,
        None => return None,
    };
    if !cpp_declarator_matches_name(t, d, name) {
        return None;
    }
    let mut ty = match cpp_parameter_specifiers_text(t, param) {
        Some(ty) => ty,
        None => return None,
    };
    let ops = cpp_declarator_type_ops(t, d);
    if chars_of(ops.as_str()).len() > 0 {
        push_str(&mut ty, " ");
        push_str(&mut ty, ops.as_str());
    }
    Some(ty)
}

/// The first parameter declaration, depth first from `i`, that declares `name`.
pub open spec fn cpp_params_walk(t: &SyntaxTree, i: int, name: Seq<char>) -> Option<Seq<char>>
    decreases t.size() - i, 0int,
{
    if i < 0 || i >= t.size() {
        None
    } else {
        match cpp_param_type(t, i, name) {
            Some(ty) => Some(ty),
            None => cpp_params_walk_from(t, t.first_of(i), name),
        }
    }
}

pub open spec fn cpp_params_walk_from(t: &SyntaxTree, c: Option<usize>, name: Seq<char>) -> Option<Seq<char>>
    decreases t.rest(c), 1int,
{
    match c {
        None => None,
        Some(x) => if x >= t.size() {
            None
        } else {
            match cpp_params_walk(t, x as int, name) {
                Some(ty) => Some(ty),
                None => cpp_params_walk_from(t, t.next_of(x), name),
            }
        },
    }
}

fn cpp_walk_parameter_declarations(t: &SyntaxTree, i: usize, name: &str) -> (r: Option<String>)
    requires
        t.wf(),
        i < t.size(),
    ensures
        opt_view(r) == cpp_params_walk(t, i as int, name@),
    decreases t.size() - i,
{
    match cpp_parameter_type_if_name(t, i, name) {
        Some(ty) => return Some(ty),
        None => {},
    }
    let mut c = t.first(i);
    while c.is_some()
        invariant
            t.wf(),
            i < t.size(),
            c matches Some(x) ==> i < x < t.size(),
            cpp_params_walk_from(t, c, name@) == cpp_params_walk(t, i as int, name@),
        decreases t.rest(c),
    {
        let x = c.unwrap();
        match cpp_walk_parameter_declarations(t, x, name) {
            Some(ty) => return Some(ty),
            None => {},
        }
        c = t.next(x);
    }
    None
}

/// The parameters of the enclosing function definition.
pub open spec fn cpp_param_scope(t: &SyntaxTree, recv: int, name: Seq<char>) -> Option<Seq<char>> {
    match t.ancestor_in(recv, seq!["function_definition"@]) {
        None => None,
        Some(a) => match t.field(a as int, "declarator"@) {
            None => None,
            Some(d) => cpp_params_walk(t, d as int, name),
        },
    }
}

fn cpp_parameter_type_for_scope(t: &SyntaxTree, recv: usize, name: &str) -> (r: Option<String>)
    requires
        t.wf(),
        recv < t.size(),
    ensures
        opt_view(r) == cpp_param_scope(t, recv as int, name@),
{
    let ks: &[&str] = &["function_definition"];
    assert(crate::text::str_views(ks@) =~= seq!["function_definition"@]);
    let a = match t.ancestor_of_kind(recv, ks) {
        Some(a) => a,
        None => return None,
    };
    match t.field_child(a, "declarator") {
        Some(d) => cpp_walk_parameter_declarations(t, d, name),
        None => None,
    }
}

/// Whether `i` or a node below it is a field identifier with text `name`.
pub open spec fn has_field_ident(t: &SyntaxTree, i: int, name: Seq<char>) -> bool
    decreases t.size() - i, 0int,
{
    if i < 0 || i >= t.size() {
        false
    } else {
        (t.kind(i) == "field_identifier"@ && t.trimmed(i) == name) || has_field_ident_from(t, t.first_of(i), name)
    }
}

pub open spec fn has_field_ident_from(t: &SyntaxTree, c: Option<usize>, name: Seq<char>) -> bool
    decreases t.rest(c), 1int,
{
    match c {
        None => false,
        Some(x) => if x >= t.size() {
            false
        } else {
            has_field_ident(t, x as int, name) || has_field_ident_from(t, t.next_of(x), name)
        },
    }
}

fn has_field_ident_exec(t: &SyntaxTree, i: usize, name: &str) -> (r: bool)
    requires
        t.wf(),
        i < t.size(),
    ensures
        r == has_field_ident(t, i as int, name@),
    decreases t.size() - i,
{
    if t.kind_is(i, "field_identifier") && t.trimmed_is(i, name) {
        return true;
    }
    let mut c = t.first(i);
    while c.is_some()
        invariant
            t.wf(),
            i < t.size(),
            c matches Some(x) ==> i < x < t.size(),
            has_field_ident_from(t, c, name@) == (has_field_ident(t, i as int, name@)),
        decreases t.rest(c),
    {
        let x = c.unwrap();
        if has_field_ident_exec(t, x, name) {
            return true;
        }
        c = t.next(x);
    }
    false
}

/// The first field declaration, depth first from `i`, with a type and a field
/// identifier `name` in it: that type.
pub open spec fn cpp_fields_walk(t: &SyntaxTree, i: int, name: Seq<char>) -> Option<Seq<char>>
    decreases t.size() - i, 0int,
{
    if i < 0 || i >= t.size() {
        None
    } else {
        let here = if t.kind(i) == "field_declaration"@ {
            match t.field(i, "type"@) {
                Some(ty) => if has_field_ident(t, i, name) { Some(t.trimmed(ty as int)) } else { None },
                None => None,
            }
        } else {
            None
        };
        match here {
            Some(ty) => Some(ty),
            None => cpp_fields_walk_from(t, t.first_of(i), name),
        }
    }
}

pub open spec fn cpp_fields_walk_from(t: &SyntaxTree, c: Option<usize>, name: Seq<char>) -> Option<Seq<char>>
    decreases t.rest(c), 1int,
{
    match c {
        None => None,
        Some(x) => if x >= t.size() {
            None
        } else {
            match cpp_fields_walk(t, x as int, name) {
                Some(ty) => Some(ty),
                None => cpp_fields_walk_from(t, t.next_of(x), name),
            }
        },
    }
}

pub(crate) fn cpp_walk_field_declarations(t: &SyntaxTree, i: usize, name: &str) -> (r: Option<String>)
    requires
        t.wf(),
        i < t.size(),
    ensures
        opt_view(r) == cpp_fields_walk(t, i as int, name@),
    decreases t.size() - i,
{
    if t.kind_is(i, "field_declaration") {
        match t.field_child(i, "type") {
            Some(ty) => {
                if has_field_ident_exec(t, i, name) {
                    return Some(t.trimmed_text(ty));
                }
            },
            None => {},
        }
    }
    let mut c = t.first(i);
    while c.is_some()
        invariant
            t.wf(),
            i < t.size(),
            c matches Some(x) ==> i < x < t.size(),
            cpp_fields_walk_from(t, c, name@) == cpp_fields_walk(t, i as int, name@),
        decreases t.rest(c),
    {
        let x = c.unwrap();
        match cpp_walk_field_declarations(t, x, name) {
            Some(ty) => return Some(ty),
            None => {},
        }
        c = t.next(x);
    }
    None
}

pub open spec fn cpp_field_spec(t: &SyntaxTree, recv: int, name: Seq<char>) -> Option<Seq<char>> {
    match t.ancestor_in(recv, seq!["class_specifier"@, "struct_specifier"@, "union_specifier"@]) {
        None => None,
        Some(sp) => match t.field(sp as int, "body"@) {
            None => None,
            Some(body) => cpp_fields_walk(t, body as int, name),
        },
    }
}

fn cpp_field_in_class(t: &SyntaxTree, recv: usize, name: &str) -> (r: Option<String>)
    requires
        t.wf(),
        recv < t.size(),
    ensures
        opt_view(r) == cpp_field_spec(t, recv as int, name@),
{
    let ks: &[&str] = &["class_specifier", "struct_specifier", "union_specifier"];
    assert(crate::text::str_views(ks@) =~= seq!["class_specifier"@, "struct_specifier"@, "union_specifier"@]);
    let sp = match t.ancestor_of_kind(recv, ks) {
        Some(x) => x,
        None => return None,
    };
    match t.field_child(sp, "body") {
        Some(body) => cpp_walk_field_declarations(t, body, name),
        None => None,
    }
}

pub open spec fn cpp_hint_spec(t: &SyntaxTree, recv: int) -> Option<Seq<char>> {
    if t.kind(recv) == "field_expression"@ {
        None
    } else {
        let name = cpp_base_name(t, recv);
        if name == "this"@ {
            name_of(t, t.ancestor_in(recv, seq!["class_specifier"@, "struct_specifier"@]))
        } else {
            match cpp_local_enclosing(t, recv, name, t.starts@[recv]) {
                Some(ty) => Some(ty),
                None => match cpp_param_scope(t, recv, name) {
                    Some(ty) => Some(ty),
                    None => cpp_field_spec(t, recv, name),
                },
            }
        }
    }
}

/// C and C++: `this` names the enclosing class or struct; another receiver
/// takes the type of the variable at its left end: a local declaration before
/// it in an enclosing block, a parameter of the enclosing function, or a
/// field of the enclosing class. A member access gets no hint here.
pub fn cpp_hint(t: &SyntaxTree, recv: usize) -> (r: Option<String>)
    requires
        t.wf(),
        recv < t.size(),
    ensures
        opt_view(r) == cpp_hint_spec(t, recv as int),
{
    if t.kind_is(recv, "field_expression") {
        return None;
    }
    let name = cpp_recv_base_name(t, recv);
    if strs_eq(name.as_str(), "this") {
        let ks: &[&str] = &["class_specifier", "struct_specifier"];
        assert(crate::text::str_views(ks@) =~= seq!["class_specifier"@, "struct_specifier"@]);
        let cl = t.ancestor_of_kind(recv, ks);
        return name_opt(t, cl);
    }
    match cpp_local_in_enclosing_blocks(t, recv, name.as_str()) {
        Some(ty) => return Some(ty),
        None => {},
    }
    match cpp_parameter_type_for_scope(t, recv, name.as_str()) {
        Some(ty) => return Some(ty),
        None => {},
    }
    cpp_field_in_class(t, recv, name.as_str())
}

/// The type of the receiver expression a call or member access applies to,
/// followed leftwards through calls of members and member accesses.
pub open spec fn cpp_direct_type(t: &SyntaxTree, i: int) -> Option<Seq<char>>
    decreases t.size() - i,
{
    if i < 0 || i >= t.size() {
        None
    } else {
        let k = t.kind(i);
        if k == "call_expression"@ {
            match t.field(i, "function"@) {
                None => None,
                Some(f) => if t.kind(f as int) != "field_expression"@ {
                    cpp_hint_spec(t, i)
                } else {
                    match t.field(f as int, "argument"@) {
                        None => None,
                        Some(a) => if i < a < t.size() { cpp_direct_type(t, a as int) } else { None },
                    }
                },
            }
        } else if k == "field_expression"@ {
            match t.field(i, "argument"@) {
                None => None,
                Some(a) => if i < a < t.size() { cpp_direct_type(t, a as int) } else { None },
            }
        } else {
            cpp_hint_spec(t, i)
        }
    }
}

fn cpp_type_of_direct_receiver_expr(t: &SyntaxTree, i: usize) -> (r: Option<String>)
    requires
        t.wf(),
        i < t.size(),
    ensures
        opt_view(r) == cpp_direct_type(t, i as int),
    decreases t.size() - i,
{
    if t.kind_is(i, "call_expression") {
        let f = match t.field_child(i, "function") {
            Some(f) => f,
            None => return None,
        };
        if !t.kind_is(f, "field_expression") {
            return cpp_hint(t, i);
        }
        let a = match t.field_child(f, "argument") {
            Some(a) => a,
            None => return None,
        };
        if i < a { cpp_type_of_direct_receiver_expr(t, a) } else { None }
    } else if t.kind_is(i, "field_expression") {
        let a = match t.field_child(i, "argument") {
            Some(a) => a,
            None => return None,
        };
        if i < a { cpp_type_of_direct_receiver_expr(t, a) } else { None }
    } else {
        cpp_hint(t, i)
    }
}

/// For a member call `recv.method(…)`: the receiver's class, simplified, a dot
/// and the method name (`CTime.Format`).
pub open spec fn cpp_method_label(t: &SyntaxTree, i: int) -> Option<Seq<char>> {
    if t.kind(i) != "call_expression"@ {
        None
    } else {
        match t.field(i, "function"@) {
            None => None,
            Some(f) => if t.kind(f as int) != "field_expression"@ {
                None
            } else {
                match member_parts(t, f as int, "argument"@, "field"@) {
                    None => None,
                    Some((a, fld)) => match cpp_direct_type(t, a as int) {
                        None => None,
                        Some(ct) => Some(crate::receiver_hint::cpp_simplify_spec(ct) + "."@ + t.trimmed(fld as int)),
                    },
                }
            },
        }
    }
}

fn cpp_recv_receiver_method_label(t: &SyntaxTree, i: usize) -> (r: Option<String>)
    requires
        t.wf(),
        i < t.size(),
    ensures
        opt_view(r) == cpp_method_label(t, i as int),
{
    if !t.kind_is(i, "call_expression") {
        return None;
    }
    let f = match t.field_child(i, "function") {
        Some(f) => f,
        None => return None,
    };
    if !t.kind_is(f, "field_expression") {
        return None;
    }
    let a = match t.field_child(f, "argument") {
        Some(a) => a,
        None => return None,
    };
    let fld = match t.field_child(f, "field") {
        Some(x) => x,
        None => return None,
    };
    let ct = match cpp_type_of_direct_receiver_expr(t, a) {
        Some(ct) => ct,
        None => return None,
    };
    let mut out = crate::receiver_hint::cpp_simplify_type_name(ct.as_str());
    push_str(&mut out, ".");
    let m = t.trimmed_text(fld);
    push_str(&mut out, m.as_str());
    Some(out)
}

// ───────────────────────── dispatch ─────────────────────────

/// The first named sibling from `c` on.
pub open spec fn named_from(t: &SyntaxTree, c: Option<usize>) -> Option<usize>
    decreases t.rest(c),
{
    match c {
        None => None,
        Some(x) => if x >= t.size() {
            None
        } else if t.named@[x as int] {
            Some(x)
        } else {
            named_from(t, t.next_of(x))
        },
    }
}

fn first_named_child(t: &SyntaxTree, i: usize) -> (r: Option<usize>)
    requires
        t.wf(),
        i < t.size(),
    ensures
        r == named_from(t, t.first_of(i as int)),
        r matches Some(x) ==> i < x < t.size(),
{
    let mut c = t.first(i);
    while c.is_some()
        invariant
            t.wf(),
            i < t.size(),
            c matches Some(x) ==> i < x < t.size(),
            named_from(t, c) == named_from(t, t.first_of(i as int)),
        decreases t.rest(c),
    {
        let x = c.unwrap();
        if t.named[x] {
            return Some(x);
        }
        c = t.next(x);
    }
    None
}

pub open spec fn or_else(a: Option<Seq<char>>, b: Option<Seq<char>>) -> Option<Seq<char>> {
    match a {
        Some(x) => Some(x),
        None => b,
    }
}

/// The hint of each language for a node, before the literal fallback.
pub open spec fn language_hint(t: &SyntaxTree, lang: SupportedLanguage, i: int) -> Option<Seq<char>> {
    match lang {
        SupportedLanguage::Auto => None,
        SupportedLanguage::Rust => rust_hint_spec(t, i),
        SupportedLanguage::Go => go_hint_spec(t, i),
        SupportedLanguage::Java => or_else(java_chain_spec(t, i), java_hint_spec(t, i)),
        SupportedLanguage::CSharp => csharp_hint_spec(t, i),
        SupportedLanguage::TypeScript | SupportedLanguage::JavaScript => or_else(ts_chain_spec(t, i), ts_hint_spec(t, i)),
        SupportedLanguage::Cpp | SupportedLanguage::C => or_else(cpp_method_label(t, i), cpp_hint_spec(t, i)),
        SupportedLanguage::Python => python_hint_spec(t, i),
        SupportedLanguage::Kotlin => kotlin_hint_spec(t, i),
        SupportedLanguage::Scala => scala_hint_spec(t, i),
    }
}

/// The type hint of the node a metavariable captured: none for `Auto`; in
/// C and C++ a parenthesised expression stands for its first named child;
/// otherwise the language's hint, else the node's literal label.
pub open spec fn capture_hint(t: &SyntaxTree, lang: SupportedLanguage, i: int) -> Option<Seq<char>>
    decreases t.size() - i,
{
    if lang == SupportedLanguage::Auto || i < 0 || i >= t.size() {
        None
    } else {
        let inner = if (lang == SupportedLanguage::Cpp || lang == SupportedLanguage::C)
            && t.kind(i) == "parenthesized_expression"@ {
            named_from(t, t.first_of(i))
        } else {
            None
        };
        match inner {
            Some(x) => if i < x < t.size() { capture_hint(t, lang, x as int) } else { None },
            None => or_else(language_hint(t, lang, i), literal_hint(t, i)),
        }
    }
}

/// The type hint of the node `node` that the metavariable `capture_name`
/// captured, read off the syntax tree of its file (no include files, no
/// configured rules).
pub fn infer_capture_type(t: &SyntaxTree, lang: SupportedLanguage, capture_name: &str, node: usize) -> (r: Option<String>)
    requires
        t.wf(),
        node < t.size(),
    ensures
        opt_view(r) == capture_hint(t, lang, node as int),
    decreases t.size() - node,
{
    if lang == SupportedLanguage::Auto {
        return None;
    }
    let c_like = lang == SupportedLanguage::Cpp || lang == SupportedLanguage::C;
    if c_like && t.kind_is(node, "parenthesized_expression") {
        match first_named_child(t, node) {
            Some(inner) => return infer_capture_type(t, lang, capture_name, inner),
            None => {},
        }
    }
    let out = match lang {
        SupportedLanguage::Auto => None,
        SupportedLanguage::Rust => rust_hint(t, node),
        SupportedLanguage::Go => go_hint(t, node),
        SupportedLanguage::Java => match java_chain_result_type(t, node) {
            Some(ty) => Some(ty),
            None => java_hint(t, node),
        },
        SupportedLanguage::CSharp => csharp_hint(t, node),
        SupportedLanguage::TypeScript | SupportedLanguage::JavaScript => match ts_chain_result_type(t, node) {
            Some(ty) => Some(ty),
            None => ts_hint(t, node),
        },
        SupportedLanguage::Cpp | SupportedLanguage::C => match cpp_recv_receiver_method_label(t, node) {
            Some(l) => Some(l),
            None => cpp_hint(t, node),
        },
        SupportedLanguage::Python => python_hint(t, node),
        SupportedLanguage::Kotlin => kotlin_hint(t, node),
        SupportedLanguage::Scala => scala_hint(t, node),
    };
    match out {
        Some(ty) => Some(ty),
        None => syntax_kind_literal_hint(t, node),
    }
}

/// The type hint of the node `recv` that `$RECV` captured.
pub fn infer_recv_type(t: &SyntaxTree, lang: SupportedLanguage, recv: usize) -> (r: Option<String>)
    requires
        t.wf(),
        recv < t.size(),
    ensures
        opt_view(r) == capture_hint(t, lang, recv as int),
{
    infer_capture_type(t, lang, "RECV", recv)
}

/// The hint for a capture located by its byte range and kind in the tree of
/// its file: the first node with that range and kind, if there is one.
pub open spec fn located_hint(t: &SyntaxTree, lang: SupportedLanguage, start: usize, end: usize, kind: Seq<char>) -> Option<Seq<char>> {
    match t.node_at_from(start, end, kind, 0) {
        Some(i) => capture_hint(t, lang, i as int),
        None => None,
    }
}

pub fn hint_for_capture(t: &SyntaxTree, lang: SupportedLanguage, start: usize, end: usize, kind: &str) -> (r: Option<String>)
    requires
        t.wf(),
    ensures
        opt_view(r) == located_hint(t, lang, start, end, kind@),
{
    match t.node_at(start, end, kind) {
        Some(i) => infer_recv_type(t, lang, i),
        None => None,
    }
}

} // verus!
