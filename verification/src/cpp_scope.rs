//! C and C++ declarations at file scope, read off a syntax tree: the return
//! type of a free function, the type of a global variable, and the target of
//! a `typedef` or `using` alias. The search looks at the top level, inside
//! `extern "C"` blocks and declaration lists, and one namespace deep; it does
//! not enter function bodies or classes.
use vstd::prelude::*;
use crate::receiver_hint::{combine_type_spec, cpp_combine_type, cpp_strip_storage_class_specifiers, strip_storage_spec};
use crate::recv_infer::{
    cpp_decl_names, cpp_declaration_declares_name, cpp_declaration_specifiers_text, cpp_declarator_matches_name,
    cpp_declarator_type_ops, cpp_declares, cpp_spec_scan, cpp_type_ops, fills_exec, opt_view, trimmed_of,
    trimmed_opt,
};
use crate::syntax_tree::SyntaxTree;
use crate::text::{chars_of, push_char, trim};

verus! {

/// Whether `d` or a node below it is a function declarator.
pub open spec fn contains_fn_decl(t: &SyntaxTree, d: int) -> bool
    decreases t.size() - d, 0int,
{
    if d < 0 || d >= t.size() {
        false
    } else {
        t.kind(d) == "function_declarator"@ || contains_fn_decl_from(t, t.first_of(d))
    }
}

pub open spec fn contains_fn_decl_from(t: &SyntaxTree, c: Option<usize>) -> bool
    decreases t.rest(c), 1int,
{
    match c {
        None => false,
        Some(x) => if x >= t.size() {
            false
        } else {
            contains_fn_decl(t, x as int) || contains_fn_decl_from(t, t.next_of(x))
        },
    }
}

pub(crate) fn contains_fn_decl_exec(t: &SyntaxTree, d: usize) -> (r: bool)
    requires
        t.wf(),
        d < t.size(),
    ensures
        r == contains_fn_decl(t, d as int),
    decreases t.size() - d,
{
    if t.kind_is(d, "function_declarator") {
        return true;
    }
    let mut c = t.first(d);
    while c.is_some()
        invariant
            t.wf(),
            d < t.size(),
            c matches Some(x) ==> d < x < t.size(),
            contains_fn_decl_from(t, c) == contains_fn_decl(t, d as int),
        decreases t.rest(c),
    {
        let x = c.unwrap();
        if contains_fn_decl_exec(t, x) {
            return true;
        }
        c = t.next(x);
    }
    false
}

/// Whether a declarator declares a function named `name`.
pub open spec fn fn_named(t: &SyntaxTree, d: int, name: Seq<char>) -> bool {
    contains_fn_decl(t, d) && cpp_decl_names(t, d, name)
}

pub(crate) fn fn_named_exec(t: &SyntaxTree, d: usize, name: &str) -> (r: bool)
    requires
        t.wf(),
        d < t.size(),
    ensures
        r == fn_named(t, d as int, name@),
{
    contains_fn_decl_exec(t, d) && cpp_declarator_matches_name(t, d, name)
}

/// The declarator a `declarator` child stands for: an `init_declarator`'s own
/// `declarator` field, or the child itself.
pub open spec fn decl_target(t: &SyntaxTree, d: int) -> Option<usize> {
    if t.kind(d) == "init_declarator"@ { t.field(d, "declarator"@) } else { Some(d as usize) }
}

pub(crate) fn decl_target_exec(t: &SyntaxTree, d: usize) -> (r: Option<usize>)
    requires
        t.wf(),
        d < t.size(),
    ensures
        r == decl_target(t, d as int),
        r matches Some(x) ==> x < t.size(),
{
    if t.kind_is(d, "init_declarator") { t.field_child(d, "declarator") } else { Some(d) }
}

/// The return type of a function definition named `name`: its `type` (else
/// its leading specifiers) with the pointer marks of its declarator.
pub open spec fn fn_def_return(t: &SyntaxTree, fd: int, name: Seq<char>) -> Option<Seq<char>> {
    match t.field(fd, "declarator"@) {
        None => None,
        Some(decl) => if !fn_named(t, decl as int, name) {
            None
        } else {
            let spec = match t.field(fd, "type"@) {
                Some(ty) => Some(t.trimmed(ty as int)),
                None => cpp_spec_scan(t, t.first_child@[fd], Seq::empty()),
            };
            match spec {
                None => None,
                Some(s) => Some(combine_type_spec(s, cpp_type_ops(t, decl as int))),
            }
        },
    }
}

pub(crate) fn cpp_function_definition_return(t: &SyntaxTree, fd: usize, name: &str) -> (r: Option<String>)
    requires
        t.wf(),
        fd < t.size(),
    ensures
        opt_view(r) == fn_def_return(t, fd as int, name@),
{
    let decl = match t.field_child(fd, "declarator") {
        Some(d) => d,
        None => return None,
    };
    if !fn_named_exec(t, decl, name) {
        return None;
    }
    let spec = match t.field_child(fd, "type") {
        Some(ty) => t.trimmed_text(ty),
        None => match cpp_declaration_specifiers_text(t, fd) {
            Some(s) => s,
            None => return None,
        },
    };
    let ops = cpp_declarator_type_ops(t, decl);
    Some(cpp_combine_type(spec.as_str(), ops.as_str()))
}

/// The `declarator` children from `c` on: the first that declares a function
/// named `name`, combined with the declaration's specifiers.
pub open spec fn fn_decl_scan(t: &SyntaxTree, c: Option<usize>, spec: Seq<char>, name: Seq<char>) -> Option<Seq<char>>
    decreases t.rest(c),
{
    match c {
        None => None,
        Some(x) => if x >= t.size() {
            None
        } else if t.fills(x as int, "declarator"@) && (match decl_target(t, x as int) {
            Some(tt) => fn_named(t, tt as int, name),
            None => false,
        }) {
            Some(combine_type_spec(spec, cpp_type_ops(t, decl_target(t, x as int)->0 as int)))
        } else {
            fn_decl_scan(t, t.next_of(x), spec, name)
        },
    }
}

/// The return type of a function prototype named `name` in a declaration.
pub open spec fn fn_decl_return(t: &SyntaxTree, decl: int, name: Seq<char>) -> Option<Seq<char>> {
    match cpp_spec_scan(t, t.first_child@[decl], Seq::empty()) {
        None => None,
        Some(spec) => fn_decl_scan(t, t.first_child@[decl], spec, name),
    }
}

pub(crate) fn cpp_function_declaration_return(t: &SyntaxTree, decl: usize, name: &str) -> (r: Option<String>)
    requires
        t.wf(),
        decl < t.size(),
    ensures
        opt_view(r) == fn_decl_return(t, decl as int, name@),
{
    let spec = match cpp_declaration_specifiers_text(t, decl) {
        Some(s) => s,
        None => return None,
    };
    let mut c = t.first(decl);
    while c.is_some()
        invariant
            t.wf(),
            decl < t.size(),
            c matches Some(x) ==> x < t.size(),
            fn_decl_scan(t, c, spec@, name@) == fn_decl_return(t, decl as int, name@),
        decreases t.rest(c),
    {
        let x = c.unwrap();
        if fills_exec(t, x, "declarator") {
            match decl_target_exec(t, x) {
                Some(tt) => {
                    if fn_named_exec(t, tt, name) {
                        let ops = cpp_declarator_type_ops(t, tt);
                        return Some(cpp_combine_type(spec.as_str(), ops.as_str()));
                    }
                },
                None => {},
            }
        }
        c = t.next(x);
    }
    None
}

/// The type a declaration gives the global variable `name`: its specifiers
/// without storage classes, with the pointer marks of the first declarator
/// that names it; none for a function prototype or empty specifiers.
pub open spec fn global_ops_scan(t: &SyntaxTree, c: Option<usize>, name: Seq<char>) -> Seq<char>
    decreases t.rest(c),
{
    match c {
        None => Seq::empty(),
        Some(x) => if x >= t.size() {
            Seq::empty()
        } else if t.fills(x as int, "declarator"@) && (match decl_target(t, x as int) {
            Some(tt) => cpp_decl_names(t, tt as int, name),
            None => false,
        }) {
            cpp_type_ops(t, decl_target(t, x as int)->0 as int)
        } else {
            global_ops_scan(t, t.next_of(x), name)
        },
    }
}

pub open spec fn global_from_decl(t: &SyntaxTree, decl: int, name: Seq<char>) -> Option<Seq<char>> {
    if t.kind(decl) != "declaration"@ || !cpp_declares(t, decl, name) || contains_fn_decl(t, decl) {
        None
    } else {
        match cpp_spec_scan(t, t.first_child@[decl], Seq::empty()) {
            None => None,
            Some(spec) => {
                let s = strip_storage_spec(spec);
                if s.len() == 0 {
                    None
                } else {
                    Some(combine_type_spec(s, global_ops_scan(t, t.first_child@[decl], name)))
                }
            },
        }
    }
}

fn global_ops(t: &SyntaxTree, decl: usize, name: &str) -> (r: String)
    requires
        t.wf(),
        decl < t.size(),
    ensures
        r@ == global_ops_scan(t, t.first_child@[decl as int], name@),
{
    let mut c = t.first(decl);
    while c.is_some()
        invariant
            t.wf(),
            decl < t.size(),
            c matches Some(x) ==> x < t.size(),
            global_ops_scan(t, c, name@) == global_ops_scan(t, t.first_child@[decl as int], name@),
        decreases t.rest(c),
    {
        let x = c.unwrap();
        if fills_exec(t, x, "declarator") {
            match decl_target_exec(t, x) {
                Some(tt) => {
                    if cpp_declarator_matches_name(t, tt, name) {
                        return cpp_declarator_type_ops(t, tt);
                    }
                },
                None => {},
            }
        }
        c = t.next(x);
    }
    String::new()
}

fn cpp_global_var_type_from_decl(t: &SyntaxTree, decl: usize, name: &str) -> (r: Option<String>)
    requires
        t.wf(),
        decl < t.size(),
    ensures
        opt_view(r) == global_from_decl(t, decl as int, name@),
{
    if !t.kind_is(decl, "declaration") || !cpp_declaration_declares_name(t, decl, name) || contains_fn_decl_exec(t, decl) {
        return None;
    }
    let spec = match cpp_declaration_specifiers_text(t, decl) {
        Some(s) => s,
        None => return None,
    };
    let s = cpp_strip_storage_class_specifiers(spec.as_str());
    if chars_of(s.as_str()).len() == 0 {
        return None;
    }
    let ops = global_ops(t, decl, name);
    Some(cpp_combine_type(s.as_str(), ops.as_str()))
}

/// The `*` marks of a typedef declarator that names `alias` (through pointer
/// declarators only); none for any other declarator.
pub open spec fn ptr_count(t: &SyntaxTree, d: int, alias: Seq<char>) -> Option<nat>
    decreases t.size() - d,
{
    if d < 0 || d >= t.size() {
        None
    } else {
        let k = t.kind(d);
        if k == "type_identifier"@ || k == "identifier"@ || k == "field_identifier"@ {
            if t.trimmed(d) == alias { Some(0) } else { None }
        } else if k == "pointer_type_declarator"@ || k == "pointer_declarator"@ {
            match t.field(d, "declarator"@) {
                None => None,
                Some(inner) => if d < inner < t.size() {
                    match ptr_count(t, inner as int, alias) {
                        Some(n) => Some(n + 1),
                        None => None,
                    }
                } else {
                    None
                },
            }
        } else {
            None
        }
    }
}

pub(crate) fn ptr_count_exec(t: &SyntaxTree, d: usize, alias: &str) -> (r: Option<usize>)
    requires
        t.wf(),
        d < t.size(),
    ensures
        match r {
            Some(n) => ptr_count(t, d as int, alias@) == Some(n as nat),
            None => ptr_count(t, d as int, alias@) is None,
        },
        r matches Some(n) ==> n < t.size() - d,
    decreases t.size() - d,
{
    if t.kind_is(d, "type_identifier") || t.kind_is(d, "identifier") || t.kind_is(d, "field_identifier") {
        return if t.trimmed_is(d, alias) { Some(0) } else { None };
    }
    if t.kind_is(d, "pointer_type_declarator") || t.kind_is(d, "pointer_declarator") {
        let inner = match t.field_child(d, "declarator") {
            Some(i) => i,
            None => return None,
        };
        if d < inner {
            let len = t.kinds.len();
            assert(len as int == t.size());
            return match ptr_count_exec(t, inner, alias) {
                Some(n) => Some(n + 1),
                None => None,
            };
        }
        return None;
    }
    None
}

/// `n` stars.
pub open spec fn stars(n: nat) -> Seq<char> {
    Seq::new(n, |i: int| '*')
}

fn stars_exec(n: usize) -> (r: String)
    ensures
        r@ == stars(n as nat),
{
    let mut s = String::new();
    let mut i: usize = 0;
    while i < n
        invariant
            i <= n,
            s@ == stars(i as nat),
        decreases n - i,
    {
        push_char(&mut s, '*');
        assert(s@ =~= stars((i + 1) as nat));
        i = i + 1;
    }
    s
}

/// The type an alias names: a struct, union, enum or class specifier by its
/// tag (none without one), another type by its text (none when blank).
pub open spec fn alias_target_text(t: &SyntaxTree, tg: int) -> Option<Seq<char>> {
    let k = t.kind(tg);
    if k == "struct_specifier"@ || k == "union_specifier"@ || k == "enum_specifier"@ || k == "class_specifier"@ {
        trimmed_of(t, t.field(tg, "name"@))
    } else if t.trimmed(tg).len() == 0 {
        None
    } else {
        Some(t.trimmed(tg))
    }
}

fn alias_target_text_exec(t: &SyntaxTree, tg: usize) -> (r: Option<String>)
    requires
        t.wf(),
        tg < t.size(),
    ensures
        opt_view(r) == alias_target_text(t, tg as int),
{
    if t.kind_is(tg, "struct_specifier") || t.kind_is(tg, "union_specifier") || t.kind_is(tg, "enum_specifier")
        || t.kind_is(tg, "class_specifier") {
        let n = t.field_child(tg, "name");
        return trimmed_opt(t, n);
    }
    let s = t.trimmed_text(tg);
    if chars_of(s.as_str()).len() == 0 { None } else { Some(s) }
}

/// The `declarator` children of a typedef from `c` on: the first that names
/// `alias` gives the target with its stars.
pub open spec fn alias_decl_scan(t: &SyntaxTree, c: Option<usize>, target: Seq<char>, alias: Seq<char>) -> Option<Seq<char>>
    decreases t.rest(c),
{
    match c {
        None => None,
        Some(x) => if x >= t.size() {
            None
        } else if t.fills(x as int, "declarator"@) && ptr_count(t, x as int, alias) is Some {
            let n = ptr_count(t, x as int, alias)->0;
            if n == 0 { Some(target) } else { Some(combine_type_spec(target, stars(n))) }
        } else {
            alias_decl_scan(t, t.next_of(x), target, alias)
        },
    }
}

/// The target of a `using alias = T;` or `typedef T … alias;` node.
pub open spec fn alias_from_node(t: &SyntaxTree, node: int, alias: Seq<char>) -> Option<Seq<char>> {
    let k = t.kind(node);
    if k == "alias_declaration"@ {
        match t.field(node, "name"@) {
            None => None,
            Some(n) => if t.trimmed(n as int) != alias {
                None
            } else {
                match t.field(node, "type"@) {
                    None => None,
                    Some(tg) => alias_target_text(t, tg as int),
                }
            },
        }
    } else if k == "type_definition"@ {
        match t.field(node, "type"@) {
            None => None,
            Some(tg) => match alias_target_text(t, tg as int) {
                None => None,
                Some(target) => alias_decl_scan(t, t.first_child@[node], target, alias),
            },
        }
    } else {
        None
    }
}

fn cpp_type_alias_target_from_node(t: &SyntaxTree, node: usize, alias: &str) -> (r: Option<String>)
    requires
        t.wf(),
        node < t.size(),
    ensures
        opt_view(r) == alias_from_node(t, node as int, alias@),
{
    if t.kind_is(node, "alias_declaration") {
        let n = match t.field_child(node, "name") {
            Some(n) => n,
            None => return None,
        };
        if !t.trimmed_is(n, alias) {
            return None;
        }
        return match t.field_child(node, "type") {
            Some(tg) => alias_target_text_exec(t, tg),
            None => None,
        };
    }
    if !t.kind_is(node, "type_definition") {
        return None;
    }
    let tg = match t.field_child(node, "type") {
        Some(tg) => tg,
        None => return None,
    };
    let target = match alias_target_text_exec(t, tg) {
        Some(s) => s,
        None => return None,
    };
    let mut c = t.first(node);
    while c.is_some()
        invariant
            t.wf(),
            node < t.size(),
            c matches Some(x) ==> x < t.size(),
            alias_decl_scan(t, c, target@, alias@) == alias_from_node(t, node as int, alias@),
        decreases t.rest(c),
    {
        let x = c.unwrap();
        if fills_exec(t, x, "declarator") {
            match ptr_count_exec(t, x, alias) {
                Some(n) => {
                    if n == 0 {
                        return Some(target);
                    }
                    let st = stars_exec(n);
                    return Some(cpp_combine_type(target.as_str(), st.as_str()));
                },
                None => {},
            }
        }
        c = t.next(x);
    }
    None
}

/// The qualified identifier a declarator names, following `declarator`
/// fields down.
pub open spec fn find_qid(t: &SyntaxTree, d: int) -> Option<usize>
    decreases t.size() - d,
{
    if d < 0 || d >= t.size() {
        None
    } else if t.kind(d) == "qualified_identifier"@ {
        Some(d as usize)
    } else {
        match t.field(d, "declarator"@) {
            Some(inner) => if d < inner < t.size() { find_qid(t, inner as int) } else { None },
            None => None,
        }
    }
}

fn find_qid_exec(t: &SyntaxTree, d: usize) -> (r: Option<usize>)
    requires
        t.wf(),
        d < t.size(),
    ensures
        r == find_qid(t, d as int),
        r matches Some(x) ==> x < t.size(),
    decreases t.size() - d,
{
    if t.kind_is(d, "qualified_identifier") {
        return Some(d);
    }
    match t.field_child(d, "declarator") {
        Some(inner) => if d < inner { find_qid_exec(t, inner) } else { None },
        None => None,
    }
}

/// `s` without leading and trailing `*`, then trimmed.
pub open spec fn strip_stars(s: Seq<char>) -> Seq<char> {
    trim(crate::svn_remote::trim_end_char(crate::svn_remote::trim_start_char(s, '*'), '*'))
}

/// The text before and after the last `::`, if there is one.
pub open spec fn split_last_sep(s: Seq<char>) -> Option<(Seq<char>, Seq<char>)> {
    match crate::text::rfind(s, "::"@) {
        None => None,
        Some(pos) => Some((s.take(pos), s.skip(pos + 2))),
    }
}

fn split_last_sep_exec(v: &[char]) -> (r: Option<(Vec<char>, Vec<char>)>)
    ensures
        match r {
            Some((a, b)) => split_last_sep(v@) == Some((a@, b@)),
            None => split_last_sep(v@) is None,
        },
{
    let pos = match crate::text::rfind_chars(v, "::") {
        Some(p) => p,
        None => return None,
    };
    proof { reveal_strlit("::"); }
    assert(pos + 2 <= v.len()) by {
        assert(crate::text::occurs_at(v@, "::"@, pos as int));
    }
    let a = crate::text::sub_vec(v, 0, pos);
    let b = crate::text::sub_vec(v, pos + 2, v.len());
    assert(a@ =~= v@.take(pos as int));
    assert(b@ =~= v@.skip(pos + 2));
    Some((a, b))
}

/// The last `::` segment of `s` (all of it without `::`).
pub open spec fn last_segment(s: Seq<char>) -> Seq<char> {
    match split_last_sep(s) {
        Some((_, b)) => b,
        None => s,
    }
}

/// Whether a qualified name `A::B::method` names `method` of the class `B`
/// (the last `::` segment of what comes before the method, stars stripped).
pub open spec fn qualified_names_method(text: Seq<char>, class: Seq<char>, method: Seq<char>) -> bool {
    match split_last_sep(text) {
        None => false,
        Some((before, after)) => trim(after) == method && strip_stars(last_segment(trim(before))) == class,
    }
}

fn qualified_names_method_exec(text: &[char], class: &str, method: &str) -> (r: bool)
    ensures
        r == qualified_names_method(text@, class@, method@),
{
    let (before, after) = match split_last_sep_exec(text) {
        Some(p) => p,
        None => return false,
    };
    let suffix = crate::text::trim_vec(after.as_slice());
    if !crate::lang::str_eq(suffix.as_slice(), method) {
        return false;
    }
    let prefix = crate::text::trim_vec(before.as_slice());
    let seg = match split_last_sep_exec(prefix.as_slice()) {
        Some((_, b)) => b,
        None => prefix,
    };
    let a = crate::svn_remote::trim_start_char_pub(seg.as_slice(), '*');
    let b = crate::svn_remote::trim_end_char_pub(a.as_slice(), '*');
    let c = crate::text::trim_vec(b.as_slice());
    crate::lang::str_eq(c.as_slice(), class)
}

/// Whether a declarator names `method` of `class` outside the class body.
pub open spec fn is_out_of_line(t: &SyntaxTree, d: int, class: Seq<char>, method: Seq<char>) -> bool {
    match find_qid(t, d) {
        None => false,
        Some(q) => qualified_names_method(t.trimmed(q as int), class, method),
    }
}

fn is_out_of_line_exec(t: &SyntaxTree, d: usize, class: &str, method: &str) -> (r: bool)
    requires
        t.wf(),
        d < t.size(),
    ensures
        r == is_out_of_line(t, d as int, class@, method@),
{
    match find_qid_exec(t, d) {
        None => false,
        Some(q) => {
            let txt = t.trimmed_text(q);
            let v = chars_of(txt.as_str());
            qualified_names_method_exec(v.as_slice(), class, method)
        },
    }
}

/// The `declarator` children from `c` on: the first that names `method` of
/// `class` out of line, combined with the declaration's specifiers.
pub open spec fn ool_decl_scan(t: &SyntaxTree, c: Option<usize>, spec: Seq<char>, class: Seq<char>, method: Seq<char>) -> Option<Seq<char>>
    decreases t.rest(c),
{
    match c {
        None => None,
        Some(x) => if x >= t.size() {
            None
        } else if t.fills(x as int, "declarator"@) && (match decl_target(t, x as int) {
            Some(tt) => is_out_of_line(t, tt as int, class, method),
            None => false,
        }) {
            Some(combine_type_spec(spec, cpp_type_ops(t, decl_target(t, x as int)->0 as int)))
        } else {
            ool_decl_scan(t, t.next_of(x), spec, class, method)
        },
    }
}

/// The return type of `class::method` defined or declared at this node
/// outside the class.
pub open spec fn out_of_line_from_decl(t: &SyntaxTree, node: int, class: Seq<char>, method: Seq<char>) -> Option<Seq<char>> {
    if t.kind(node) == "function_definition"@ {
        match t.field(node, "declarator"@) {
            None => None,
            Some(decl) => if !is_out_of_line(t, decl as int, class, method) {
                None
            } else {
                let spec = match t.field(node, "type"@) {
                    Some(ty) => Some(t.trimmed(ty as int)),
                    None => cpp_spec_scan(t, t.first_child@[node], Seq::empty()),
                };
                match spec {
                    None => None,
                    Some(s) => Some(combine_type_spec(s, cpp_type_ops(t, decl as int))),
                }
            },
        }
    } else if t.kind(node) == "declaration"@ {
        match cpp_spec_scan(t, t.first_child@[node], Seq::empty()) {
            None => None,
            Some(spec) => ool_decl_scan(t, t.first_child@[node], spec, class, method),
        }
    } else {
        None
    }
}

fn cpp_out_of_line_method_return_from_decl(t: &SyntaxTree, node: usize, class: &str, method: &str) -> (r: Option<String>)
    requires
        t.wf(),
        node < t.size(),
    ensures
        opt_view(r) == out_of_line_from_decl(t, node as int, class@, method@),
{
    if t.kind_is(node, "function_definition") {
        let decl = match t.field_child(node, "declarator") {
            Some(d) => d,
            None => return None,
        };
        if !is_out_of_line_exec(t, decl, class, method) {
            return None;
        }
        let spec = match t.field_child(node, "type") {
            Some(ty) => t.trimmed_text(ty),
            None => match cpp_declaration_specifiers_text(t, node) {
                Some(s) => s,
                None => return None,
            },
        };
        let ops = cpp_declarator_type_ops(t, decl);
        return Some(cpp_combine_type(spec.as_str(), ops.as_str()));
    }
    if !t.kind_is(node, "declaration") {
        return None;
    }
    let spec = match cpp_declaration_specifiers_text(t, node) {
        Some(s) => s,
        None => return None,
    };
    let mut c = t.first(node);
    while c.is_some()
        invariant
            t.wf(),
            node < t.size(),
            c matches Some(x) ==> x < t.size(),
            ool_decl_scan(t, c, spec@, class@, method@) == out_of_line_from_decl(t, node as int, class@, method@),
        decreases t.rest(c),
    {
        let x = c.unwrap();
        if fills_exec(t, x, "declarator") {
            match decl_target_exec(t, x) {
                Some(tt) => {
                    if is_out_of_line_exec(t, tt, class, method) {
                        let ops = cpp_declarator_type_ops(t, tt);
                        return Some(cpp_combine_type(spec.as_str(), ops.as_str()));
                    }
                },
                None => {},
            }
        }
        c = t.next(x);
    }
    None
}

/// What a file-scope search looks for.
#[derive(PartialEq, Eq, Structural)]
pub enum ScopeQuery {
    FreeFunction,
    GlobalVar,
    TypeAlias,
    /// A method of the class given beside the query, defined or declared
    /// outside the class (`CWnd* CMyApp::GetMainWnd() { … }`).
    OutOfLineMethod,
}

/// The answer a single top-level node gives to the query.
pub open spec fn scope_hit(t: &SyntaxTree, c: int, q: ScopeQuery, class: Seq<char>, name: Seq<char>) -> Option<Seq<char>> {
    match q {
        ScopeQuery::FreeFunction => if t.kind(c) == "function_definition"@ {
            fn_def_return(t, c, name)
        } else if t.kind(c) == "declaration"@ {
            fn_decl_return(t, c, name)
        } else {
            None
        },
        ScopeQuery::GlobalVar => global_from_decl(t, c, name),
        ScopeQuery::TypeAlias => alias_from_node(t, c, name),
        ScopeQuery::OutOfLineMethod => out_of_line_from_decl(t, c, class, name),
    }
}

fn scope_hit_exec(t: &SyntaxTree, c: usize, q: &ScopeQuery, class: &str, name: &str) -> (r: Option<String>)
    requires
        t.wf(),
        c < t.size(),
    ensures
        opt_view(r) == scope_hit(t, c as int, *q, class@, name@),
{
    match q {
        ScopeQuery::FreeFunction => {
            if t.kind_is(c, "function_definition") {
                cpp_function_definition_return(t, c, name)
            } else if t.kind_is(c, "declaration") {
                cpp_function_declaration_return(t, c, name)
            } else {
                None
            }
        },
        ScopeQuery::GlobalVar => cpp_global_var_type_from_decl(t, c, name),
        ScopeQuery::TypeAlias => cpp_type_alias_target_from_node(t, c, name),
        ScopeQuery::OutOfLineMethod => cpp_out_of_line_method_return_from_decl(t, c, class, name),
    }
}

/// The children of `node`, in order: the first answer, searching inside
/// `extern "C"` blocks and declaration lists, and inside a namespace when
/// `depth` is 0 (one namespace level).
pub open spec fn scope_find(t: &SyntaxTree, node: int, q: ScopeQuery, class: Seq<char>, name: Seq<char>, depth: nat) -> Option<Seq<char>>
    decreases t.size() - node, 0int,
{
    if node < 0 || node >= t.size() {
        None
    } else {
        scope_from(t, t.first_of(node), q, class, name, depth)
    }
}

pub open spec fn scope_from(t: &SyntaxTree, c: Option<usize>, q: ScopeQuery, class: Seq<char>, name: Seq<char>, depth: nat) -> Option<Seq<char>>
    decreases t.rest(c), 1int,
{
    match c {
        None => None,
        Some(x) => if x >= t.size() {
            None
        } else {
            match scope_hit(t, x as int, q, class, name) {
                Some(ty) => Some(ty),
                None => {
                    let k = t.kind(x as int);
                    let inner = if k == "linkage_specification"@ || k == "declaration_list"@ {
                        scope_find(t, x as int, q, class, name, depth)
                    } else if k == "namespace_definition"@ && depth < 1 {
                        scope_find(t, x as int, q, class, name, depth + 1)
                    } else {
                        None
                    };
                    match inner {
                        Some(ty) => Some(ty),
                        None => scope_from(t, t.next_of(x), q, class, name, depth),
                    }
                },
            }
        },
    }
}

fn scope_find_exec(t: &SyntaxTree, node: usize, q: &ScopeQuery, class: &str, name: &str, depth: usize) -> (r: Option<String>)
    requires
        t.wf(),
        node < t.size(),
        depth <= 1,
    ensures
        opt_view(r) == scope_find(t, node as int, *q, class@, name@, depth as nat),
    decreases t.size() - node,
{
    let mut c = t.first(node);
    while c.is_some()
        invariant
            t.wf(),
            node < t.size(),
            depth <= 1,
            c matches Some(x) ==> node < x < t.size(),
            scope_from(t, c, *q, class@, name@, depth as nat) == scope_find(t, node as int, *q, class@, name@, depth as nat),
        decreases t.rest(c),
    {
        let x = c.unwrap();
        match scope_hit_exec(t, x, q, class, name) {
            Some(ty) => return Some(ty),
            None => {},
        }
        let inner = if t.kind_is(x, "linkage_specification") || t.kind_is(x, "declaration_list") {
            scope_find_exec(t, x, q, class, name, depth)
        } else if t.kind_is(x, "namespace_definition") && depth < 1 {
            scope_find_exec(t, x, q, class, name, depth + 1)
        } else {
            None
        };
        match inner {
            Some(ty) => return Some(ty),
            None => {},
        }
        c = t.next(x);
    }
    None
}

/// The file-scope answer to `q` for `name`: searched below the tree's root.
pub open spec fn tu_lookup(t: &SyntaxTree, q: ScopeQuery, class: Seq<char>, name: Seq<char>) -> Option<Seq<char>> {
    if t.size() == 0 { None } else { scope_find(t, 0, q, class, name, 0) }
}

pub(crate) fn tu_lookup_exec(t: &SyntaxTree, q: ScopeQuery, class: &str, name: &str) -> (r: Option<String>)
    requires
        t.wf(),
    ensures
        opt_view(r) == tu_lookup(t, q, class@, name@),
{
    if t.kinds.len() == 0 {
        return None;
    }
    scope_find_exec(t, 0, &q, class, name, 0)
}

/// The return type of the free function `name` declared or defined at file
/// scope (`CWinApp* AfxGetApp();` gives `CWinApp *`).
pub fn cpp_free_function_return_in_translation_unit(t: &SyntaxTree, name: &str) -> (r: Option<String>)
    requires
        t.wf(),
    ensures
        opt_view(r) == tu_lookup(t, ScopeQuery::FreeFunction, ""@, name@),
{
    tu_lookup_exec(t, ScopeQuery::FreeFunction, "", name)
}

/// The type of the global variable `name` declared at file scope, without
/// storage classes (`extern CWinApp theApp;` gives `CWinApp`).
pub fn cpp_global_var_type_in_translation_unit(t: &SyntaxTree, name: &str) -> (r: Option<String>)
    requires
        t.wf(),
    ensures
        opt_view(r) == tu_lookup(t, ScopeQuery::GlobalVar, ""@, name@),
{
    tu_lookup_exec(t, ScopeQuery::GlobalVar, "", name)
}

/// The type the alias `alias` names, one level deep (`typedef CWinApp* P;`
/// gives `CWinApp *`).
pub fn cpp_type_alias_target_in_translation_unit(t: &SyntaxTree, alias: &str) -> (r: Option<String>)
    requires
        t.wf(),
    ensures
        opt_view(r) == tu_lookup(t, ScopeQuery::TypeAlias, ""@, alias@),
{
    tu_lookup_exec(t, ScopeQuery::TypeAlias, "", alias)
}

} // verus!
