//! Members of a named C or C++ class in a syntax tree: the type of a field,
//! the return type of a method (in the class body, or defined outside it),
//! and the base classes.
use vstd::prelude::*;
use crate::cpp_scope::{
    cpp_function_declaration_return, cpp_function_definition_return, fn_decl_return, fn_def_return, ptr_count,
    ptr_count_exec, tu_lookup, tu_lookup_exec, ScopeQuery,
};
use crate::receiver_hint::{cpp_simplify_spec, cpp_simplify_type_name};
use crate::recv_infer::{cpp_fields_walk, cpp_walk_field_declarations, fills_exec, opt_view};
use crate::syntax_tree::SyntaxTree;
use crate::text::{chars_of, string_views};

verus! {

/// The body of a class, struct or union (of the given kinds) named `class`.
pub open spec fn named_body(t: &SyntaxTree, i: int, class: Seq<char>, with_union: bool) -> Option<usize> {
    let k = t.kind(i);
    if k == "class_specifier"@ || k == "struct_specifier"@ || (with_union && k == "union_specifier"@) {
        match t.field(i, "name"@) {
            Some(n) => if t.trimmed(n as int) == class { t.field(i, "body"@) } else { None },
            None => None,
        }
    } else {
        None
    }
}

fn named_body_exec(t: &SyntaxTree, i: usize, class: &str, with_union: bool) -> (r: Option<usize>)
    requires
        t.wf(),
        i < t.size(),
    ensures
        r == named_body(t, i as int, class@, with_union),
        r matches Some(b) ==> b < t.size(),
{
    if t.kind_is(i, "class_specifier") || t.kind_is(i, "struct_specifier") || (with_union && t.kind_is(i, "union_specifier")) {
        match t.field_child(i, "name") {
            Some(n) => if t.trimmed_is(n, class) { t.field_child(i, "body") } else { None },
            None => None,
        }
    } else {
        None
    }
}

/// Whether a `declarator` child from `c` on names `class` (through pointers).
pub open spec fn declarators_name(t: &SyntaxTree, c: Option<usize>, class: Seq<char>) -> bool
    decreases t.rest(c),
{
    match c {
        None => false,
        Some(x) => if x >= t.size() {
            false
        } else if t.fills(x as int, "declarator"@) && ptr_count(t, x as int, class) is Some {
            true
        } else {
            declarators_name(t, t.next_of(x), class)
        },
    }
}

fn declarators_name_exec(t: &SyntaxTree, first: Option<usize>, class: &str) -> (r: bool)
    requires
        t.wf(),
        first matches Some(x) ==> x < t.size(),
    ensures
        r == declarators_name(t, first, class@),
{
    let mut c = first;
    while c.is_some()
        invariant
            t.wf(),
            c matches Some(x) ==> x < t.size(),
            declarators_name(t, c, class@) == declarators_name(t, first, class@),
        decreases t.rest(c),
    {
        let x = c.unwrap();
        if fills_exec(t, x, "declarator") && ptr_count_exec(t, x, class).is_some() {
            return true;
        }
        c = t.next(x);
    }
    false
}

/// The body of an anonymous struct or union that a typedef names `class`
/// (`typedef struct { … } POINT;`, also through pointers).
pub open spec fn anon_typedef_body(t: &SyntaxTree, i: int, class: Seq<char>) -> Option<usize> {
    if t.kind(i) != "type_definition"@ {
        None
    } else {
        match t.field(i, "type"@) {
            None => None,
            Some(tg) => if (t.kind(tg as int) == "struct_specifier"@ || t.kind(tg as int) == "union_specifier"@)
                && t.field(tg as int, "name"@) is None && declarators_name(t, t.first_child@[i], class) {
                t.field(tg as int, "body"@)
            } else {
                None
            },
        }
    }
}

fn anon_typedef_body_exec(t: &SyntaxTree, i: usize, class: &str) -> (r: Option<usize>)
    requires
        t.wf(),
        i < t.size(),
    ensures
        r == anon_typedef_body(t, i as int, class@),
        r matches Some(b) ==> b < t.size(),
{
    if !t.kind_is(i, "type_definition") {
        return None;
    }
    let tg = match t.field_child(i, "type") {
        Some(tg) => tg,
        None => return None,
    };
    if (t.kind_is(tg, "struct_specifier") || t.kind_is(tg, "union_specifier")) && t.field_child(tg, "name").is_none() {
        let fc = t.first(i);
        if declarators_name_exec(t, fc, class) {
            return t.field_child(tg, "body");
        }
    }
    None
}

/// A class body's method `method`: the return type of its first inline
/// definition or prototype.
pub open spec fn method_scan(t: &SyntaxTree, c: Option<usize>, method: Seq<char>) -> Option<Seq<char>>
    decreases t.rest(c),
{
    match c {
        None => None,
        Some(x) => if x >= t.size() {
            None
        } else {
            let ty = if t.kind(x as int) == "function_definition"@ {
                fn_def_return(t, x as int, method)
            } else if t.kind(x as int) == "field_declaration"@ {
                fn_decl_return(t, x as int, method)
            } else {
                None
            };
            match ty {
                Some(r) => Some(r),
                None => method_scan(t, t.next_of(x), method),
            }
        },
    }
}

fn cpp_method_return_in_class_body(t: &SyntaxTree, body: usize, method: &str) -> (r: Option<String>)
    requires
        t.wf(),
        body < t.size(),
    ensures
        opt_view(r) == method_scan(t, t.first_child@[body as int], method@),
{
    let mut c = t.first(body);
    while c.is_some()
        invariant
            t.wf(),
            c matches Some(x) ==> x < t.size(),
            method_scan(t, c, method@) == method_scan(t, t.first_child@[body as int], method@),
        decreases t.rest(c),
    {
        let x = c.unwrap();
        let ty = if t.kind_is(x, "function_definition") {
            cpp_function_definition_return(t, x, method)
        } else if t.kind_is(x, "field_declaration") {
            cpp_function_declaration_return(t, x, method)
        } else {
            None
        };
        match ty {
            Some(r) => return Some(r),
            None => {},
        }
        c = t.next(x);
    }
    None
}

pub open spec fn body_methods(t: &SyntaxTree, b: Option<usize>, method: Seq<char>) -> Option<Seq<char>> {
    match b {
        Some(x) => method_scan(t, t.first_child@[x as int], method),
        None => None,
    }
}

/// The method `method` of the class `class`, depth first from `i`: in the
/// body of a class, struct or union so named, or of an anonymous struct a
/// typedef so names.
pub open spec fn method_find(t: &SyntaxTree, i: int, class: Seq<char>, method: Seq<char>) -> Option<Seq<char>>
    decreases t.size() - i, 0int,
{
    if i < 0 || i >= t.size() {
        None
    } else {
        match body_methods(t, named_body(t, i, class, true), method) {
            Some(r) => Some(r),
            None => match body_methods(t, anon_typedef_body(t, i, class), method) {
                Some(r) => Some(r),
                None => method_find_from(t, t.first_of(i), class, method),
            },
        }
    }
}

pub open spec fn method_find_from(t: &SyntaxTree, c: Option<usize>, class: Seq<char>, method: Seq<char>) -> Option<Seq<char>>
    decreases t.rest(c), 1int,
{
    match c {
        None => None,
        Some(x) => if x >= t.size() {
            None
        } else {
            match method_find(t, x as int, class, method) {
                Some(r) => Some(r),
                None => method_find_from(t, t.next_of(x), class, method),
            }
        },
    }
}

fn body_methods_exec(t: &SyntaxTree, b: Option<usize>, method: &str) -> (r: Option<String>)
    requires
        t.wf(),
        b matches Some(x) ==> x < t.size(),
    ensures
        opt_view(r) == body_methods(t, b, method@),
{
    match b {
        Some(x) => cpp_method_return_in_class_body(t, x, method),
        None => None,
    }
}

fn cpp_find_method_return_in_named_class(t: &SyntaxTree, i: usize, class: &str, method: &str) -> (r: Option<String>)
    requires
        t.wf(),
        i < t.size(),
    ensures
        opt_view(r) == method_find(t, i as int, class@, method@),
    decreases t.size() - i,
{
    let nb = named_body_exec(t, i, class, true);
    match body_methods_exec(t, nb, method) {
        Some(r) => return Some(r),
        None => {},
    }
    let ab = anon_typedef_body_exec(t, i, class);
    match body_methods_exec(t, ab, method) {
        Some(r) => return Some(r),
        None => {},
    }
    let mut c = t.first(i);
    while c.is_some()
        invariant
            t.wf(),
            i < t.size(),
            c matches Some(x) ==> i < x < t.size(),
            method_find_from(t, c, class@, method@) == method_find(t, i as int, class@, method@),
        decreases t.rest(c),
    {
        let x = c.unwrap();
        match cpp_find_method_return_in_named_class(t, x, class, method) {
            Some(r) => return Some(r),
            None => {},
        }
        c = t.next(x);
    }
    None
}

pub open spec fn body_fields(t: &SyntaxTree, b: Option<usize>, field: Seq<char>) -> Option<Seq<char>> {
    match b {
        Some(x) => cpp_fields_walk(t, x as int, field),
        None => None,
    }
}

/// The field `field` of the class `class`, depth first from `i`.
pub open spec fn field_find(t: &SyntaxTree, i: int, class: Seq<char>, field: Seq<char>) -> Option<Seq<char>>
    decreases t.size() - i, 0int,
{
    if i < 0 || i >= t.size() {
        None
    } else {
        match body_fields(t, named_body(t, i, class, true), field) {
            Some(r) => Some(r),
            None => match body_fields(t, anon_typedef_body(t, i, class), field) {
                Some(r) => Some(r),
                None => field_find_from(t, t.first_of(i), class, field),
            },
        }
    }
}

pub open spec fn field_find_from(t: &SyntaxTree, c: Option<usize>, class: Seq<char>, field: Seq<char>) -> Option<Seq<char>>
    decreases t.rest(c), 1int,
{
    match c {
        None => None,
        Some(x) => if x >= t.size() {
            None
        } else {
            match field_find(t, x as int, class, field) {
                Some(r) => Some(r),
                None => field_find_from(t, t.next_of(x), class, field),
            }
        },
    }
}

fn body_fields_exec(t: &SyntaxTree, b: Option<usize>, field: &str) -> (r: Option<String>)
    requires
        t.wf(),
        b matches Some(x) ==> x < t.size(),
    ensures
        opt_view(r) == body_fields(t, b, field@),
{
    match b {
        Some(x) => cpp_walk_field_declarations(t, x, field),
        None => None,
    }
}

fn cpp_find_field_in_named_class(t: &SyntaxTree, i: usize, class: &str, field: &str) -> (r: Option<String>)
    requires
        t.wf(),
        i < t.size(),
    ensures
        opt_view(r) == field_find(t, i as int, class@, field@),
    decreases t.size() - i,
{
    let nb = named_body_exec(t, i, class, true);
    match body_fields_exec(t, nb, field) {
        Some(r) => return Some(r),
        None => {},
    }
    let ab = anon_typedef_body_exec(t, i, class);
    match body_fields_exec(t, ab, field) {
        Some(r) => return Some(r),
        None => {},
    }
    let mut c = t.first(i);
    while c.is_some()
        invariant
            t.wf(),
            i < t.size(),
            c matches Some(x) ==> i < x < t.size(),
            field_find_from(t, c, class@, field@) == field_find(t, i as int, class@, field@),
        decreases t.rest(c),
    {
        let x = c.unwrap();
        match cpp_find_field_in_named_class(t, x, class, field) {
            Some(r) => return Some(r),
            None => {},
        }
        c = t.next(x);
    }
    None
}

/// The names a base class clause lists, from `c` on: type identifiers as
/// written, qualified names simplified, templates by their name; empty ones
/// left out.
pub open spec fn clause_bases(t: &SyntaxTree, c: Option<usize>, acc: Seq<Seq<char>>) -> Seq<Seq<char>>
    decreases t.rest(c),
{
    match c {
        None => acc,
        Some(x) => if x >= t.size() {
            acc
        } else {
            let k = t.kind(x as int);
            let name = if k == "type_identifier"@ {
                Some(t.trimmed(x as int))
            } else if k == "qualified_identifier"@ {
                Some(cpp_simplify_spec(t.trimmed(x as int)))
            } else if k == "template_type"@ {
                match t.field(x as int, "name"@) {
                    Some(n) => Some(t.trimmed(n as int)),
                    None => None,
                }
            } else {
                None
            };
            let nacc = match name {
                Some(nm) => if nm.len() > 0 { acc.push(nm) } else { acc },
                None => acc,
            };
            clause_bases(t, t.next_of(x), nacc)
        },
    }
}

/// The base classes of a class specifier, from all its base class clauses.
pub open spec fn spec_bases(t: &SyntaxTree, c: Option<usize>, acc: Seq<Seq<char>>) -> Seq<Seq<char>>
    decreases t.rest(c),
{
    match c {
        None => acc,
        Some(x) => if x >= t.size() {
            acc
        } else if t.kind(x as int) == "base_class_clause"@ {
            spec_bases(t, t.next_of(x), clause_bases(t, t.first_child@[x as int], acc))
        } else {
            spec_bases(t, t.next_of(x), acc)
        },
    }
}

fn clause_bases_exec(t: &SyntaxTree, first: Option<usize>, acc: Vec<String>) -> (r: Vec<String>)
    requires
        t.wf(),
        first matches Some(x) ==> x < t.size(),
    ensures
        string_views(r@) == clause_bases(t, first, string_views(acc@)),
{
    let mut acc = acc;
    let ghost want = clause_bases(t, first, string_views(acc@));
    let mut c = first;
    while c.is_some()
        invariant
            t.wf(),
            c matches Some(x) ==> x < t.size(),
            clause_bases(t, c, string_views(acc@)) == want,
        decreases t.rest(c),
    {
        let x = c.unwrap();
        let name = if t.kind_is(x, "type_identifier") {
            Some(t.trimmed_text(x))
        } else if t.kind_is(x, "qualified_identifier") {
            let tx = t.trimmed_text(x);
            Some(cpp_simplify_type_name(tx.as_str()))
        } else if t.kind_is(x, "template_type") {
            match t.field_child(x, "name") {
                Some(n) => Some(t.trimmed_text(n)),
                None => None,
            }
        } else {
            None
        };
        match name {
            Some(nm) => {
                if chars_of(nm.as_str()).len() > 0 {
                    let ghost before = acc@;
                    acc.push(nm);
                    assert(string_views(acc@) =~= string_views(before).push(acc@.last()@));
                }
            },
            None => {},
        }
        c = t.next(x);
    }
    acc
}

fn cpp_class_bases_from_specifier(t: &SyntaxTree, i: usize) -> (r: Vec<String>)
    requires
        t.wf(),
        i < t.size(),
    ensures
        string_views(r@) == spec_bases(t, t.first_child@[i as int], Seq::empty()),
{
    let mut acc: Vec<String> = Vec::new();
    assert(string_views(acc@) =~= Seq::<Seq<char>>::empty());
    let mut c = t.first(i);
    while c.is_some()
        invariant
            t.wf(),
            c matches Some(x) ==> x < t.size(),
            spec_bases(t, c, string_views(acc@)) == spec_bases(t, t.first_child@[i as int], Seq::empty()),
        decreases t.rest(c),
    {
        let x = c.unwrap();
        if t.kind_is(x, "base_class_clause") {
            let fc = t.first(x);
            acc = clause_bases_exec(t, fc, acc);
        }
        c = t.next(x);
    }
    acc
}

/// The base classes of the class or struct named `class`, depth first from
/// `i` (the first so named answers, even with none).
pub open spec fn bases_find(t: &SyntaxTree, i: int, class: Seq<char>) -> Option<Seq<Seq<char>>>
    decreases t.size() - i, 0int,
{
    if i < 0 || i >= t.size() {
        None
    } else if (t.kind(i) == "class_specifier"@ || t.kind(i) == "struct_specifier"@) && (match t.field(i, "name"@) {
        Some(n) => t.trimmed(n as int) == class,
        None => false,
    }) {
        Some(spec_bases(t, t.first_child@[i], Seq::empty()))
    } else {
        bases_find_from(t, t.first_of(i), class)
    }
}

pub open spec fn bases_find_from(t: &SyntaxTree, c: Option<usize>, class: Seq<char>) -> Option<Seq<Seq<char>>>
    decreases t.rest(c), 1int,
{
    match c {
        None => None,
        Some(x) => if x >= t.size() {
            None
        } else {
            match bases_find(t, x as int, class) {
                Some(r) => Some(r),
                None => bases_find_from(t, t.next_of(x), class),
            }
        },
    }
}

pub open spec fn opt_views(o: Option<Vec<String>>) -> Option<Seq<Seq<char>>> {
    match o {
        Some(v) => Some(string_views(v@)),
        None => None,
    }
}

fn cpp_find_class_bases_recursive(t: &SyntaxTree, i: usize, class: &str) -> (r: Option<Vec<String>>)
    requires
        t.wf(),
        i < t.size(),
    ensures
        opt_views(r) == bases_find(t, i as int, class@),
    decreases t.size() - i,
{
    if t.kind_is(i, "class_specifier") || t.kind_is(i, "struct_specifier") {
        let named = match t.field_child(i, "name") {
            Some(n) => t.trimmed_is(n, class),
            None => false,
        };
        if named {
            return Some(cpp_class_bases_from_specifier(t, i));
        }
    }
    let mut c = t.first(i);
    while c.is_some()
        invariant
            t.wf(),
            i < t.size(),
            c matches Some(x) ==> i < x < t.size(),
            bases_find_from(t, c, class@) == bases_find(t, i as int, class@),
        decreases t.rest(c),
    {
        let x = c.unwrap();
        match cpp_find_class_bases_recursive(t, x, class) {
            Some(r) => return Some(r),
            None => {},
        }
        c = t.next(x);
    }
    None
}

/// What a member lookup in one file asks for.
#[derive(PartialEq, Eq, Structural)]
pub enum CppLookupKind {
    Field,
    Method,
    FreeFunction,
    GlobalVar,
    TypeAlias,
    MacroCall,
    MacroValue,
    BaseClasses,
}

/// The answer of one file: for a method, the class body first and then a
/// definition outside the class; the base classes joined by `;`; macros are
/// not answered from the tree.
pub open spec fn tu_member(t: &SyntaxTree, kind: CppLookupKind, class: Seq<char>, member: Seq<char>) -> Option<Seq<char>> {
    if t.size() == 0 {
        None
    } else {
        match kind {
            CppLookupKind::Field => field_find(t, 0, class, member),
            CppLookupKind::Method => match method_find(t, 0, class, member) {
                Some(r) => Some(r),
                None => tu_lookup(t, ScopeQuery::OutOfLineMethod, class, member),
            },
            CppLookupKind::FreeFunction => tu_lookup(t, ScopeQuery::FreeFunction, ""@, member),
            CppLookupKind::GlobalVar => tu_lookup(t, ScopeQuery::GlobalVar, ""@, member),
            CppLookupKind::TypeAlias => tu_lookup(t, ScopeQuery::TypeAlias, ""@, member),
            CppLookupKind::MacroCall | CppLookupKind::MacroValue => None,
            CppLookupKind::BaseClasses => match bases_find(t, 0, class) {
                Some(bs) => Some(crate::text::join(bs, ";"@)),
                None => None,
            },
        }
    }
}

pub fn cpp_lookup_in_translation_unit(t: &SyntaxTree, kind: &CppLookupKind, class: &str, member: &str) -> (r: Option<String>)
    requires
        t.wf(),
    ensures
        opt_view(r) == tu_member(t, *kind, class@, member@),
{
    if t.kinds.len() == 0 {
        return None;
    }
    match kind {
        CppLookupKind::Field => cpp_find_field_in_named_class(t, 0, class, member),
        CppLookupKind::Method => match cpp_find_method_return_in_named_class(t, 0, class, member) {
            Some(r) => Some(r),
            None => tu_lookup_exec(t, ScopeQuery::OutOfLineMethod, class, member),
        },
        CppLookupKind::FreeFunction => tu_lookup_exec(t, ScopeQuery::FreeFunction, "", member),
        CppLookupKind::GlobalVar => tu_lookup_exec(t, ScopeQuery::GlobalVar, "", member),
        CppLookupKind::TypeAlias => tu_lookup_exec(t, ScopeQuery::TypeAlias, "", member),
        CppLookupKind::MacroCall | CppLookupKind::MacroValue => None,
        CppLookupKind::BaseClasses => match cpp_find_class_bases_recursive(t, 0, class) {
            Some(bs) => Some(crate::text::join_strings(bs.as_slice(), ";")),
            None => None,
        },
    }
}

} // verus!
