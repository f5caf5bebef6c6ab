//! C and C++ lookups across a file and the files it includes: members with
//! a one-level alias retry and up to eight levels of base classes, free
//! functions, globals, and the three recognised macro shapes.
use vstd::prelude::*;
use crate::cpp_members::{cpp_lookup_in_translation_unit, tu_member, CppLookupKind};
use crate::receiver_hint::{
    cpp_simplify_spec, cpp_simplify_type_name, cpp_strip_one_pointer, strip_one_pointer_spec, unique_names, CppDefines,
    CppMacroDef, MacroDefView,
};
use crate::recv_infer::opt_view;
use crate::syntax_tree::SyntaxTree;
use crate::text::{chars_of, split_char, string_views};

verus! {

/// A file and the files it includes: the file first, then each include file
/// in the order a depth-first walk of the `#include`s first reaches it, with
/// the recognised `#define`s of each.
pub struct CppSources {
    pub trees: Vec<SyntaxTree>,
    pub defines: Vec<CppDefines>,
}

impl CppSources {
    pub open spec fn wf(&self) -> bool {
        &&& self.trees@.len() == self.defines@.len()
        &&& forall|i: int| 0 <= i < self.trees@.len() ==> (#[trigger] self.trees@[i]).wf()
        &&& forall|i: int| 0 <= i < self.defines@.len() ==> unique_names((#[trigger] self.defines@[i]).entries@)
    }
}

/// The first file, from index `i` on, that answers the lookup.
pub open spec fn direct_from(s: &CppSources, kind: CppLookupKind, class: Seq<char>, member: Seq<char>, i: int) -> Option<Seq<char>>
    decreases s.trees@.len() - i,
{
    if i < 0 || i >= s.trees@.len() {
        None
    } else {
        match tu_member(&s.trees@[i], kind, class, member) {
            Some(r) => Some(r),
            None => direct_from(s, kind, class, member, i + 1),
        }
    }
}

pub open spec fn direct(s: &CppSources, kind: CppLookupKind, class: Seq<char>, member: Seq<char>) -> Option<Seq<char>> {
    direct_from(s, kind, class, member, 0)
}

fn cpp_lookup_member_direct(s: &CppSources, kind: &CppLookupKind, class: &str, member: &str) -> (r: Option<String>)
    requires
        s.wf(),
    ensures
        opt_view(r) == direct(s, *kind, class@, member@),
{
    let mut i: usize = 0;
    while i < s.trees.len()
        invariant
            s.wf(),
            i <= s.trees@.len(),
            direct_from(s, *kind, class@, member@, i as int) == direct(s, *kind, class@, member@),
        decreases s.trees@.len() - i,
    {
        match cpp_lookup_in_translation_unit(&s.trees[i], kind, class, member) {
            Some(r) => return Some(r),
            None => {},
        }
        i = i + 1;
    }
    None
}

pub open spec fn is_member_kind(kind: CppLookupKind) -> bool {
    kind == CppLookupKind::Field || kind == CppLookupKind::Method
}

/// The names a `;`-joined list holds (empty pieces left out).
pub open spec fn nonempty_pieces(parts: Seq<Seq<char>>) -> Seq<Seq<char>>
    decreases parts.len(),
{
    if parts.len() == 0 {
        Seq::empty()
    } else {
        let rest = nonempty_pieces(parts.drop_last());
        if parts.last().len() > 0 { rest.push(parts.last()) } else { rest }
    }
}

/// The base classes of `class` in the sources.
pub open spec fn bases_in_sources(s: &CppSources, class: Seq<char>) -> Seq<Seq<char>> {
    match direct(s, CppLookupKind::BaseClasses, class, ""@) {
        Some(joined) => nonempty_pieces(split_char(joined, ';')),
        None => Seq::empty(),
    }
}

/// A member lookup failed on the class itself: the class name expanded
/// through one alias, tried once more.
pub open spec fn alias_retry(s: &CppSources, kind: CppLookupKind, class: Seq<char>, member: Seq<char>) -> Option<Seq<char>> {
    match direct(s, CppLookupKind::TypeAlias, ""@, class) {
        Some(target) => {
            let rc = cpp_simplify_spec(target);
            if rc.len() > 0 && rc != class { direct(s, kind, rc, member) } else { None }
        },
        None => None,
    }
}

/// The lookup with its fallbacks: the class itself, its alias, then its base
/// classes in order (each class visited once along the way, at most eight
/// levels up); with the classes visited after it.
pub open spec fn with_bases(s: &CppSources, kind: CppLookupKind, class: Seq<char>, member: Seq<char>, visited: Seq<Seq<char>>, depth: nat)
    -> (Option<Seq<char>>, Seq<Seq<char>>)
    decreases 9 - depth, 0int, 0int,
{
    if depth > 8 {
        (None, visited)
    } else {
        let r0 = direct(s, kind, class, member);
        let r1 = if r0 is None && is_member_kind(kind) && class.len() > 0 { alias_retry(s, kind, class, member) } else { r0 };
        if r1 is None && is_member_kind(kind) && class.len() > 0 {
            let simplified = cpp_simplify_spec(class);
            if simplified.len() > 0 && !visited.contains(simplified) {
                bases_loop(s, kind, member, bases_in_sources(s, class), 0, visited.push(simplified), depth + 1)
            } else {
                (None, visited)
            }
        } else {
            (r1, visited)
        }
    }
}

pub open spec fn bases_loop(s: &CppSources, kind: CppLookupKind, member: Seq<char>, bases: Seq<Seq<char>>, j: int, visited: Seq<Seq<char>>, depth: nat)
    -> (Option<Seq<char>>, Seq<Seq<char>>)
    decreases 9 - depth, 1int, bases.len() - j,
{
    if j < 0 || j >= bases.len() || depth > 9 {
        (None, visited)
    } else {
        let (r, v2) = with_bases(s, kind, bases[j], member, visited, depth);
        match r {
            Some(x) => (Some(x), v2),
            None => bases_loop(s, kind, member, bases, j + 1, v2, depth),
        }
    }
}

fn nonempty_pieces_exec(parts: Vec<Vec<char>>) -> (r: Vec<String>)
    ensures
        string_views(r@) == nonempty_pieces(parts@.map_values(|p: Vec<char>| p@)),
{
    let ghost ps = parts@.map_values(|p: Vec<char>| p@);
    let mut out: Vec<String> = Vec::new();
    let mut i: usize = 0;
    assert(ps.take(0) =~= Seq::<Seq<char>>::empty());
    assert(string_views(out@) =~= Seq::<Seq<char>>::empty());
    while i < parts.len()
        invariant
            i <= parts@.len(),
            ps == parts@.map_values(|p: Vec<char>| p@),
            string_views(out@) == nonempty_pieces(ps.take(i as int)),
        decreases parts@.len() - i,
    {
        assert(ps.take(i + 1).drop_last() =~= ps.take(i as int));
        assert(ps.take(i + 1).last() == parts@[i as int]@);
        if parts[i].len() > 0 {
            let ghost before = out@;
            out.push(crate::text::string_of(parts[i].as_slice()));
            assert(string_views(out@) =~= string_views(before).push(parts@[i as int]@));
        }
        i = i + 1;
    }
    assert(ps.take(parts@.len() as int) =~= ps);
    out
}

/// The base classes of `class` in the sources.
pub fn cpp_class_bases_for_sources(s: &CppSources, class: &str) -> (r: Vec<String>)
    requires
        s.wf(),
    ensures
        string_views(r@) == bases_in_sources(s, class@),
{
    match cpp_lookup_member_direct(s, &CppLookupKind::BaseClasses, class, "") {
        Some(joined) => {
            let v = chars_of(joined.as_str());
            let parts = crate::text::split_char_vec(v.as_slice(), ';');
            assert(parts@.map_values(|p: Vec<char>| p@) =~= split_char(joined@, ';'));
            nonempty_pieces_exec(parts)
        },
        None => Vec::new(),
    }
}

fn alias_retry_exec(s: &CppSources, kind: &CppLookupKind, class: &str, member: &str) -> (r: Option<String>)
    requires
        s.wf(),
    ensures
        opt_view(r) == alias_retry(s, *kind, class@, member@),
{
    match cpp_lookup_member_direct(s, &CppLookupKind::TypeAlias, "", class) {
        Some(target) => {
            let rc = cpp_simplify_type_name(target.as_str());
            if chars_of(rc.as_str()).len() > 0 && !crate::syntax_tree::strs_eq(rc.as_str(), class) {
                cpp_lookup_member_direct(s, kind, rc.as_str(), member)
            } else {
                None
            }
        },
        None => None,
    }
}

fn visited_contains(v: &Vec<String>, name: &str) -> (b: bool)
    ensures
        b == string_views(v@).contains(name@),
{
    let mut i: usize = 0;
    while i < v.len()
        invariant
            i <= v.len(),
            forall|k: int| 0 <= k < i ==> string_views(v@)[k] != name@,
        decreases v.len() - i,
    {
        if crate::syntax_tree::strs_eq(v[i].as_str(), name) {
            assert(string_views(v@)[i as int] == name@);
            return true;
        }
        i = i + 1;
    }
    false
}

fn cpp_lookup_member_with_bases(s: &CppSources, kind: &CppLookupKind, class: &str, member: &str, visited: &mut Vec<String>, depth: usize)
    -> (r: Option<String>)
    requires
        s.wf(),
        depth <= 9,
    ensures
        (opt_view(r), string_views(final(visited)@)) == with_bases(s, *kind, class@, member@, string_views(old(visited)@), depth as nat),
    decreases 9 - depth,
{
    if depth > 8 {
        return None;
    }
    let r0 = cpp_lookup_member_direct(s, kind, class, member);
    let member_kind = *kind == CppLookupKind::Field || *kind == CppLookupKind::Method;
    let class_nonempty = chars_of(class).len() > 0;
    let r1 = if r0.is_none() && member_kind && class_nonempty { alias_retry_exec(s, kind, class, member) } else { r0 };
    if !(r1.is_none() && member_kind && class_nonempty) {
        return r1;
    }
    let simplified = cpp_simplify_type_name(class);
    if !(chars_of(simplified.as_str()).len() > 0) || visited_contains(visited, simplified.as_str()) {
        return None;
    }
    let ghost v0 = string_views(visited@);
    visited.push(simplified);
    assert(string_views(visited@) =~= v0.push(simplified@));
    let bases = cpp_class_bases_for_sources(s, class);
    let ghost want = bases_loop(s, *kind, member@, string_views(bases@), 0, string_views(visited@), (depth + 1) as nat);
    assert(want == with_bases(s, *kind, class@, member@, string_views(old(visited)@), depth as nat));
    let mut j: usize = 0;
    while j < bases.len()
        invariant
            s.wf(),
            depth <= 8,
            j <= bases@.len(),
            bases_loop(s, *kind, member@, string_views(bases@), j as int, string_views(visited@), (depth + 1) as nat) == want,
            want == with_bases(s, *kind, class@, member@, string_views(old(visited)@), depth as nat),
        decreases bases@.len() - j,
    {
        assert(string_views(bases@)[j as int] == bases@[j as int]@);
        let r = cpp_lookup_member_with_bases(s, kind, bases[j].as_str(), member, visited, depth + 1);
        if r.is_some() {
            return r;
        }
        j = j + 1;
    }
    None
}

/// The lookup of `member` of `class` (or of a free name when `class` is
/// empty) in the sources, with its fallbacks.
pub open spec fn in_sources(s: &CppSources, kind: CppLookupKind, class: Seq<char>, member: Seq<char>) -> Option<Seq<char>> {
    with_bases(s, kind, class, member, Seq::empty(), 0).0
}

pub fn cpp_lookup_member_in_sources(s: &CppSources, kind: &CppLookupKind, class: &str, member: &str) -> (r: Option<String>)
    requires
        s.wf(),
    ensures
        opt_view(r) == in_sources(s, *kind, class@, member@),
{
    let mut visited: Vec<String> = Vec::new();
    assert(string_views(visited@) =~= Seq::<Seq<char>>::empty());
    cpp_lookup_member_with_bases(s, kind, class, member, &mut visited, 0)
}

/// A member the class declares itself is the answer, whatever its base
/// classes declare under the same name.
pub proof fn own_member_wins(s: &CppSources, kind: CppLookupKind, class: Seq<char>, member: Seq<char>)
    requires
        direct(s, kind, class, member) is Some,
    ensures
        in_sources(s, kind, class, member) == direct(s, kind, class, member),
{
}

/// With no file declaring the member under the class, its alias or any
/// class, a lookup gives nothing.
pub proof fn nothing_declared_nothing_found(s: &CppSources, kind: CppLookupKind, class: Seq<char>, member: Seq<char>)
    requires
        forall|c: Seq<char>| #[trigger] direct(s, kind, c, member) is None,
    ensures
        in_sources(s, kind, class, member) is None,
{
    with_bases_none(s, kind, class, member, Seq::empty(), 0);
}

proof fn with_bases_none(s: &CppSources, kind: CppLookupKind, class: Seq<char>, member: Seq<char>, visited: Seq<Seq<char>>, depth: nat)
    requires
        forall|c: Seq<char>| #[trigger] direct(s, kind, c, member) is None,
    ensures
        with_bases(s, kind, class, member, visited, depth).0 is None,
    decreases 9 - depth, 0int, 0int,
{
    if depth <= 8 {
        let r0 = direct(s, kind, class, member);
        assert(r0 is None);
        if is_member_kind(kind) && class.len() > 0 {
            match direct(s, CppLookupKind::TypeAlias, ""@, class) {
                Some(target) => {
                    assert(direct(s, kind, cpp_simplify_spec(target), member) is None);
                },
                None => {},
            }
            let simplified = cpp_simplify_spec(class);
            if simplified.len() > 0 && !visited.contains(simplified) {
                bases_loop_none(s, kind, member, bases_in_sources(s, class), 0, visited.push(simplified), depth + 1);
            }
        }
    }
}

proof fn bases_loop_none(s: &CppSources, kind: CppLookupKind, member: Seq<char>, bases: Seq<Seq<char>>, j: int, visited: Seq<Seq<char>>, depth: nat)
    requires
        forall|c: Seq<char>| #[trigger] direct(s, kind, c, member) is None,
    ensures
        bases_loop(s, kind, member, bases, j, visited, depth).0 is None,
    decreases 9 - depth, 1int, bases.len() - j,
{
    if !(j < 0 || j >= bases.len() || depth > 9) {
        with_bases_none(s, kind, bases[j], member, visited, depth);
        let (r, v2) = with_bases(s, kind, bases[j], member, visited, depth);
        bases_loop_none(s, kind, member, bases, j + 1, v2, depth);
    }
}

/// The type of the field `field` of `class` in the sources.
pub fn cpp_field_type_for_class_in_sources(s: &CppSources, class: &str, field: &str) -> (r: Option<String>)
    requires
        s.wf(),
    ensures
        opt_view(r) == in_sources(s, CppLookupKind::Field, class@, field@),
{
    cpp_lookup_member_in_sources(s, &CppLookupKind::Field, class, field)
}

/// The return type of the method `method` of `class` in the sources.
pub fn cpp_method_return_for_class_in_sources(s: &CppSources, class: &str, method: &str) -> (r: Option<String>)
    requires
        s.wf(),
    ensures
        opt_view(r) == in_sources(s, CppLookupKind::Method, class@, method@),
{
    cpp_lookup_member_in_sources(s, &CppLookupKind::Method, class, method)
}

/// The return type of the free function `name` in the sources.
pub fn cpp_free_function_return_for_sources(s: &CppSources, name: &str) -> (r: Option<String>)
    requires
        s.wf(),
    ensures
        opt_view(r) == in_sources(s, CppLookupKind::FreeFunction, ""@, name@),
{
    cpp_lookup_member_in_sources(s, &CppLookupKind::FreeFunction, "", name)
}

/// The type of the global variable `name` in the sources.
pub fn cpp_global_var_type_for_sources(s: &CppSources, name: &str) -> (r: Option<String>)
    requires
        s.wf(),
    ensures
        opt_view(r) == in_sources(s, CppLookupKind::GlobalVar, ""@, name@),
{
    cpp_lookup_member_in_sources(s, &CppLookupKind::GlobalVar, "", name)
}

/// The type a recognised macro stands for: a cast macro called gives its
/// type; `(*f())` used as a value gives `f`'s return type one pointer less;
/// an alias `A B` gives `B`'s return type when called, its global type as a
/// value.
pub open spec fn macro_type(s: &CppSources, def: MacroDefView, is_call: bool) -> Option<Seq<char>> {
    match def {
        MacroDefView::CastReturn(ty) => if is_call { Some(ty) } else { None },
        MacroDefView::DerefFreeFnCall(f) => if is_call {
            None
        } else {
            match in_sources(s, CppLookupKind::FreeFunction, ""@, f) {
                Some(ret) => strip_one_pointer_spec(ret),
                None => None,
            }
        },
        MacroDefView::IdentAlias(target) => if is_call {
            in_sources(s, CppLookupKind::FreeFunction, ""@, target)
        } else {
            in_sources(s, CppLookupKind::GlobalVar, ""@, target)
        },
    }
}

pub fn cpp_resolve_macro_def(s: &CppSources, def: &CppMacroDef, is_call: bool) -> (r: Option<String>)
    requires
        s.wf(),
    ensures
        opt_view(r) == macro_type(s, def@, is_call),
{
    match def {
        CppMacroDef::CastReturn(ty) => if is_call { Some(ty.clone()) } else { None },
        CppMacroDef::DerefFreeFnCall(f) => {
            if is_call {
                return None;
            }
            match cpp_free_function_return_for_sources(s, f.as_str()) {
                Some(ret) => cpp_strip_one_pointer(ret.as_str()),
                None => None,
            }
        },
        CppMacroDef::IdentAlias(target) => if is_call {
            cpp_free_function_return_for_sources(s, target.as_str())
        } else {
            cpp_global_var_type_for_sources(s, target.as_str())
        },
    }
}

/// The files from index `i` on: the first whose definition of `name` gives a type.
pub open spec fn macro_from(s: &CppSources, name: Seq<char>, is_call: bool, i: int) -> Option<Seq<char>>
    decreases s.defines@.len() - i,
{
    if i < 0 || i >= s.defines@.len() {
        None
    } else {
        let here = if s.defines@[i]@.contains_key(name) { macro_type(s, s.defines@[i]@[name], is_call) } else { None };
        match here {
            Some(ty) => Some(ty),
            None => macro_from(s, name, is_call, i + 1),
        }
    }
}

/// The type the macro `name` stands for (called when `is_call`), from the
/// first file whose definition gives one.
pub fn cpp_macro_return_for_sources(s: &CppSources, name: &str, is_call: bool) -> (r: Option<String>)
    requires
        s.wf(),
    ensures
        opt_view(r) == macro_from(s, name@, is_call, 0),
{
    let mut i: usize = 0;
    while i < s.defines.len()
        invariant
            s.wf(),
            i <= s.defines@.len(),
            macro_from(s, name@, is_call, i as int) == macro_from(s, name@, is_call, 0),
        decreases s.defines@.len() - i,
    {
        assert(unique_names(s.defines@[i as int].entries@));
        match s.defines[i].get(name) {
            Some(def) => {
                match cpp_resolve_macro_def(s, def, is_call) {
                    Some(ty) => return Some(ty),
                    None => {},
                }
            },
            None => {},
        }
        i = i + 1;
    }
    None
}

} // verus!
