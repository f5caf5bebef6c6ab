//! A parsed source as plain values: the nodes of its syntax tree in
//! depth-first order, each with its kind, text, byte range, parent, the field
//! it fills in its parent, and links to its first child and next sibling.
use vstd::prelude::*;
use ast_grep_language::LanguageExt;
use crate::ast_pattern::AstLang;
use crate::lang::cli_name_spec;
use crate::lang::SupportedLanguage;
use crate::text::{chars_of, trim, trim_string};

verus! {

/// One node as the parser reports it, in depth-first order: its kind, text,
/// byte range, whether it is named, and the field name of each of its
/// children (`None` for a child that fills no field).
pub struct RawSyntaxNode {
    pub kind: String,
    pub text: String,
    pub start: usize,
    pub end: usize,
    pub named: bool,
    pub child_fields: Vec<Option<String>>,
}

pub open spec fn raw_node_view(n: RawSyntaxNode) -> (Seq<char>, Seq<char>, usize, usize, bool, Seq<Option<Seq<char>>>) {
    (n.kind@, n.text@, n.start, n.end, n.named, Seq::new(n.child_fields@.len(), |j: int| match n.child_fields@[j] {
        Some(f) => Some(f@),
        None => None,
    }))
}

pub open spec fn raw_nodes_view(v: Seq<RawSyntaxNode>) -> Seq<(Seq<char>, Seq<char>, usize, usize, bool, Seq<Option<Seq<char>>>)> {
    Seq::new(v.len(), |i: int| raw_node_view(v[i]))
}

/// Names the depth-first node list that tree-sitter (through ast-grep)
/// gives for `source` in the language of a name: each node's kind, text,
/// byte range, whether it is named, and the field name of each child. A
/// function of the two texts.
pub uninterp spec fn syntax_nodes(source: Seq<char>, lang: Seq<char>)
    -> Seq<(Seq<char>, Seq<char>, usize, usize, bool, Seq<Option<Seq<char>>>)>;

/// Calls `LanguageExt::ast_grep` on `source` and walks its root with
/// `Node::dfs`, keeping of each node `kind`, `text`, `range` and `is_named`,
/// and for each of its children the name that tree-sitter's
/// `Node::field_name_for_child` gives.
#[verifier::external_body]
fn parse_syntax_nodes(source: &str, lang: &AstLang) -> (r: Vec<RawSyntaxNode>)
    ensures
        raw_nodes_view(r@) == syntax_nodes(source@, lang.name_view()),
{
    let doc = lang.support_lang().ast_grep(source);
    let root = doc.root();
    root.dfs().map(|n| {
        let inner = n.get_inner_node();
        RawSyntaxNode {
            kind: n.kind().to_string(),
            text: n.text().to_string(),
            start: n.range().start,
            end: n.range().end,
            named: n.is_named(),
            child_fields: (0..inner.child_count()).map(|i| inner.field_name_for_child(i).map(|f| f.to_string())).collect(),
        }
    }).collect()
}

/// The nodes of a syntax tree, index `i` for the `i`-th node of a depth-first
/// walk, held column by column.
pub struct SyntaxTree {
    pub kinds: Vec<String>,
    pub texts: Vec<String>,
    pub starts: Vec<usize>,
    pub ends: Vec<usize>,
    pub named: Vec<bool>,
    pub parents: Vec<Option<usize>>,
    pub fields: Vec<Option<String>>,
    pub first_child: Vec<Option<usize>>,
    pub next_sibling: Vec<Option<usize>>,
}

/// Whether two strings hold the same characters.
pub fn strs_eq(a: &str, b: &str) -> (r: bool)
    ensures
        r == (a@ == b@),
{
    let v = chars_of(a);
    crate::lang::str_eq(v.as_slice(), b)
}

/// Whether `k` is one of `ks`.
pub open spec fn one_of(k: Seq<char>, ks: Seq<Seq<char>>) -> bool {
    exists|j: int| 0 <= j < ks.len() && ks[j] == k
}

/// Whether `a` is one of `ks`.
pub fn str_one_of(a: &str, ks: &[&str]) -> (r: bool)
    ensures
        r == one_of(a@, crate::text::str_views(ks@)),
{
    let mut j: usize = 0;
    while j < ks.len()
        invariant
            j <= ks.len(),
            forall|m: int| 0 <= m < j ==> crate::text::str_views(ks@)[m] != a@,
        decreases ks.len() - j,
    {
        if strs_eq(a, ks[j]) {
            assert(crate::text::str_views(ks@)[j as int] == a@);
            return true;
        }
        j = j + 1;
    }
    false
}

impl SyntaxTree {
    /// Number of nodes.
    pub open spec fn size(&self) -> int {
        self.kinds@.len() as int
    }

    /// The links of node `i` point inside the tree: its parent before it, its
    /// first child and next sibling after it.
    pub open spec fn links_ok(&self, i: int) -> bool {
        &&& (self.parents@[i] matches Some(p) ==> p < i)
        &&& (self.first_child@[i] matches Some(c) ==> i < c < self.size())
        &&& (self.next_sibling@[i] matches Some(s) ==> i < s < self.size())
    }

    /// All columns have one entry per node and every node's links are in order.
    pub open spec fn wf(&self) -> bool {
        let n = self.size();
        &&& self.texts@.len() == n
        &&& self.starts@.len() == n
        &&& self.ends@.len() == n
        &&& self.named@.len() == n
        &&& self.parents@.len() == n
        &&& self.fields@.len() == n
        &&& self.first_child@.len() == n
        &&& self.next_sibling@.len() == n
        &&& forall|i: int| 0 <= i < n ==> #[trigger] self.links_ok(i)
    }

    pub open spec fn kind(&self, i: int) -> Seq<char> {
        self.kinds@[i]@
    }

    pub open spec fn text(&self, i: int) -> Seq<char> {
        self.texts@[i]@
    }

    /// The node's text without surrounding white space.
    pub open spec fn trimmed(&self, i: int) -> Seq<char> {
        trim(self.text(i))
    }

    /// Whether node `i` fills the field `name` of its parent.
    pub open spec fn fills(&self, i: int, name: Seq<char>) -> bool {
        self.fields@[i] matches Some(f) && f@ == name
    }

    /// The sibling after `c` (`None` at the end of the list or on a link that
    /// does not point forward).
    pub open spec fn next_of(&self, c: usize) -> Option<usize> {
        match self.next_sibling@[c as int] {
            Some(s) => if c < s < self.size() { Some(s) } else { None },
            None => None,
        }
    }

    /// The first child of `i` (`None` on a link that does not point forward).
    pub open spec fn first_of(&self, i: int) -> Option<usize> {
        match self.first_child@[i] {
            Some(c) => if i < c < self.size() { Some(c) } else { None },
            None => None,
        }
    }

    /// Distance of a position in a sibling list to the end of the tree.
    pub open spec fn rest(&self, c: Option<usize>) -> int {
        match c {
            Some(x) => if x < self.size() { self.size() - x } else { 0 },
            None => 0,
        }
    }

    /// The first sibling from `c` on that fills the field `name`.
    pub open spec fn field_from(&self, c: Option<usize>, name: Seq<char>) -> Option<usize>
        decreases self.rest(c),
    {
        match c {
            None => None,
            Some(x) => if x >= self.size() {
                None
            } else if self.fills(x as int, name) {
                Some(x)
            } else {
                self.field_from(self.next_of(x), name)
            },
        }
    }

    /// The first child of `i` that fills the field `name` (tree-sitter's
    /// `child_by_field_name`).
    pub open spec fn field(&self, i: int, name: Seq<char>) -> Option<usize> {
        self.field_from(self.first_child@[i], name)
    }

    /// The nearest proper ancestor of `i` whose kind is one of `ks`.
    pub open spec fn ancestor_in(&self, i: int, ks: Seq<Seq<char>>) -> Option<usize>
        decreases i,
    {
        if i < 0 || i >= self.size() {
            None
        } else {
            match self.parents@[i] {
                None => None,
                Some(p) => if p >= i {
                    None
                } else if one_of(self.kind(p as int), ks) {
                    Some(p)
                } else {
                    self.ancestor_in(p as int, ks)
                },
            }
        }
    }

    /// The root above `i`: the first ancestor with no parent (`i` itself when it
    /// has none).
    pub open spec fn root_of(&self, i: int) -> int
        decreases i,
    {
        if i < 0 || i >= self.size() {
            i
        } else {
            match self.parents@[i] {
                None => i,
                Some(p) => if p >= i { i } else { self.root_of(p as int) },
            }
        }
    }

    pub proof fn lemma_ancestor_below(&self, i: int, ks: Seq<Seq<char>>)
        ensures
            self.ancestor_in(i, ks) matches Some(a) ==> a < i,
        decreases i,
    {
        if 0 <= i < self.size() {
            if let Some(p) = self.parents@[i] {
                if p < i {
                    self.lemma_ancestor_below(p as int, ks);
                }
            }
        }
    }

    pub fn kind_is(&self, i: usize, k: &str) -> (r: bool)
        requires
            self.wf(),
            i < self.size(),
        ensures
            r == (self.kind(i as int) == k@),
    {
        strs_eq(self.kinds[i].as_str(), k)
    }

    pub fn kind_in(&self, i: usize, ks: &[&str]) -> (r: bool)
        requires
            self.wf(),
            i < self.size(),
        ensures
            r == one_of(self.kind(i as int), crate::text::str_views(ks@)),
    {
        str_one_of(self.kinds[i].as_str(), ks)
    }

    /// The node's text, trimmed.
    pub fn trimmed_text(&self, i: usize) -> (r: String)
        requires
            self.wf(),
            i < self.size(),
        ensures
            r@ == self.trimmed(i as int),
    {
        trim_string(self.texts[i].as_str())
    }

    /// Whether the node's trimmed text is `s`.
    pub fn trimmed_is(&self, i: usize, s: &str) -> (r: bool)
        requires
            self.wf(),
            i < self.size(),
        ensures
            r == (self.trimmed(i as int) == s@),
    {
        let t = self.trimmed_text(i);
        strs_eq(t.as_str(), s)
    }

    pub fn next(&self, c: usize) -> (r: Option<usize>)
        requires
            self.wf(),
            c < self.size(),
        ensures
            r == self.next_of(c),
            r matches Some(s) ==> c < s < self.size(),
    {
        proof { assert(self.links_ok(c as int)); }
        self.next_sibling[c]
    }

    pub fn first(&self, i: usize) -> (r: Option<usize>)
        requires
            self.wf(),
            i < self.size(),
        ensures
            r == self.first_child@[i as int],
            r == self.first_of(i as int),
            r matches Some(c) ==> i < c < self.size(),
    {
        proof { assert(self.links_ok(i as int)); }
        self.first_child[i]
    }

    pub fn parent(&self, i: usize) -> (r: Option<usize>)
        requires
            self.wf(),
            i < self.size(),
        ensures
            r == self.parents@[i as int],
            r matches Some(p) ==> p < i,
    {
        proof { assert(self.links_ok(i as int)); }
        self.parents[i]
    }

    /// tree-sitter's `child_by_field_name`: the first child filling `name`.
    pub fn field_child(&self, i: usize, name: &str) -> (r: Option<usize>)
        requires
            self.wf(),
            i < self.size(),
        ensures
            r == self.field(i as int, name@),
            r matches Some(c) ==> c < self.size(),
    {
        let mut c = self.first(i);
        while c.is_some()
            invariant
                self.wf(),
                i < self.size(),
                c matches Some(x) ==> x < self.size(),
                self.field_from(c, name@) == self.field(i as int, name@),
            decreases self.rest(c),
        {
            let x = c.unwrap();
            let is_field = match &self.fields[x] {
                Some(f) => strs_eq(f.as_str(), name),
                None => false,
            };
            if is_field {
                return Some(x);
            }
            c = self.next(x);
        }
        None
    }

    /// The nearest proper ancestor whose kind is one of `ks`.
    pub fn ancestor_of_kind(&self, i: usize, ks: &[&str]) -> (r: Option<usize>)
        requires
            self.wf(),
            i < self.size(),
        ensures
            r == self.ancestor_in(i as int, crate::text::str_views(ks@)),
            r matches Some(a) ==> a < i,
    {
        let ghost want = self.ancestor_in(i as int, crate::text::str_views(ks@));
        proof { self.lemma_ancestor_below(i as int, crate::text::str_views(ks@)); }
        let mut j = i;
        loop
            invariant
                self.wf(),
                j <= i < self.size(),
                self.ancestor_in(j as int, crate::text::str_views(ks@)) == want,
                want == self.ancestor_in(i as int, crate::text::str_views(ks@)),
                want matches Some(a) ==> a < j,
            decreases j,
        {
            let pj = self.parent(j);
            assert(self.ancestor_in(j as int, crate::text::str_views(ks@)) == match pj {
                None => None,
                Some(p) => if p >= j { None } else if one_of(self.kind(p as int), crate::text::str_views(ks@)) {
                    Some(p)
                } else {
                    self.ancestor_in(p as int, crate::text::str_views(ks@))
                },
            });
            match pj {
                None => return None,
                Some(p) => {
                    if self.kind_in(p, ks) {
                        return Some(p);
                    }
                    proof { self.lemma_ancestor_below(p as int, crate::text::str_views(ks@)); }
                    j = p;
                },
            }
        }
    }

    /// The root above `i`.
    pub fn root_above(&self, i: usize) -> (r: usize)
        requires
            self.wf(),
            i < self.size(),
        ensures
            r as int == self.root_of(i as int),
            r <= i,
    {
        let mut j = i;
        loop
            invariant
                self.wf(),
                j <= i < self.size(),
                self.root_of(j as int) == self.root_of(i as int),
            decreases j,
        {
            match self.parent(j) {
                None => return j,
                Some(p) => { j = p; },
            }
        }
    }
}

/// The frames of the open nodes while a depth-first list is read back into a
/// tree: each open node, the number of its children still to come, and its
/// last child read so far.
pub open spec fn frames_ok(t: &SyntaxTree, raw: Seq<RawSyntaxNode>, stack: Seq<(usize, usize, Option<usize>)>) -> bool {
    &&& forall|k: int| 0 <= k < stack.len() ==> #[trigger] frame_ok(t, raw, stack[k])
    &&& forall|k: int, m: int| 0 <= k < m < stack.len() ==> (#[trigger] stack[k]).0 < (#[trigger] stack[m]).0
}

pub open spec fn frame_ok(t: &SyntaxTree, raw: Seq<RawSyntaxNode>, f: (usize, usize, Option<usize>)) -> bool {
    let (p, rem, last) = f;
    &&& p < t.size()
    &&& p < raw.len()
    &&& rem <= raw[p as int].child_fields@.len()
    &&& match last {
        None => t.first_child@[p as int] is None,
        Some(l) => p < l < t.size() && t.parents@[l as int] == Some(p) && t.next_sibling@[l as int] is None,
    }
}

/// The open frames with no child slot left taken off the top.
pub open spec fn pop_done(st: Seq<(usize, usize, Option<usize>)>) -> Seq<(usize, usize, Option<usize>)>
    decreases st.len(),
{
    if st.len() > 0 && st.last().1 == 0 { pop_done(st.drop_last()) } else { st }
}

/// The open frames (node, child slots left, last child read) before node `i`
/// of a depth-first list is read: each node fills the next slot of the
/// nearest open node that still has one, and opens a frame with a slot for
/// each of its children.
pub open spec fn raw_stack(raw: Seq<(Seq<char>, Seq<char>, usize, usize, bool, Seq<Option<Seq<char>>>)>, i: nat) -> Seq<(usize, usize, Option<usize>)>
    decreases i,
{
    if i == 0 {
        Seq::empty()
    } else {
        let k = (i - 1) as nat;
        let s = pop_done(raw_stack(raw, k));
        let s2 = if s.len() > 0 {
            s.drop_last().push((s.last().0, (s.last().1 - 1) as usize, Some(k as usize)))
        } else {
            s
        };
        s2.push((k as usize, raw[k as int].5.len() as usize, None))
    }
}

/// The parent of node `i` of a depth-first list: the nearest open node that
/// still has a child slot.
pub open spec fn raw_parent(raw: Seq<(Seq<char>, Seq<char>, usize, usize, bool, Seq<Option<Seq<char>>>)>, i: nat) -> Option<usize> {
    let s = pop_done(raw_stack(raw, i));
    if s.len() > 0 { Some(s.last().0) } else { None }
}

/// The field that node `i` of a depth-first list fills in its parent: the
/// name of the parent's child slot it takes.
pub open spec fn raw_field(raw: Seq<(Seq<char>, Seq<char>, usize, usize, bool, Seq<Option<Seq<char>>>)>, i: nat) -> Option<Seq<char>> {
    let s = pop_done(raw_stack(raw, i));
    if s.len() > 0 {
        let p = s.last().0;
        raw[p as int].5[raw[p as int].5.len() - s.last().1]
    } else {
        None
    }
}

pub open spec fn field_view(f: Option<String>) -> Option<Seq<char>> {
    match f {
        Some(x) => Some(x@),
        None => None,
    }
}

/// Parent and child links agree: a first child and a next sibling have the
/// parent that the link implies.
pub open spec fn links_agree(t: &SyntaxTree) -> bool {
    forall|i: int| 0 <= i < t.size() ==> {
        &&& (#[trigger] t.first_child@[i] matches Some(c) ==> t.parents@[c as int] == Some(i as usize))
        &&& (t.next_sibling@[i] matches Some(s) ==> t.parents@[s as int] == t.parents@[i])
    }
}

impl SyntaxTree {
    /// Reads a depth-first list of nodes back into a tree: each node becomes the
    /// next child of the nearest open node that still expects children, and
    /// takes the field name of that child slot.
    #[verifier::rlimit(100)]
    #[verifier::spinoff_prover]
    pub fn from_raw(raw: &Vec<RawSyntaxNode>) -> (t: SyntaxTree)
        ensures
            t.wf(),
            links_agree(&t),
            t.size() == raw@.len(),
            forall|i: int| 0 <= i < raw@.len() ==> {
                &&& #[trigger] t.kind(i) == raw@[i].kind@
                &&& t.text(i) == raw@[i].text@
                &&& t.starts@[i] == raw@[i].start
                &&& t.ends@[i] == raw@[i].end
                &&& t.named@[i] == raw@[i].named
            },
            forall|i: int| 0 <= i < raw@.len() ==> {
                &&& #[trigger] t.parents@[i] == raw_parent(raw_nodes_view(raw@), i as nat)
                &&& field_view(t.fields@[i]) == raw_field(raw_nodes_view(raw@), i as nat)
            },
    {
        let mut t = SyntaxTree {
            kinds: Vec::new(),
            texts: Vec::new(),
            starts: Vec::new(),
            ends: Vec::new(),
            named: Vec::new(),
            parents: Vec::new(),
            fields: Vec::new(),
            first_child: Vec::new(),
            next_sibling: Vec::new(),
        };
        let mut stack: Vec<(usize, usize, Option<usize>)> = Vec::new();
        let mut i: usize = 0;
        while i < raw.len()
            invariant
                i <= raw@.len(),
                t.wf(),
                links_agree(&t),
                t.size() == i,
                frames_ok(&t, raw@, stack@),
                forall|k: int| 0 <= k < stack@.len() ==> (#[trigger] stack@[k]).0 < i,
                forall|j: int| 0 <= j < i ==> {
                    &&& #[trigger] t.kind(j) == raw@[j].kind@
                    &&& t.text(j) == raw@[j].text@
                    &&& t.starts@[j] == raw@[j].start
                    &&& t.ends@[j] == raw@[j].end
                    &&& t.named@[j] == raw@[j].named
                },
                stack@ == raw_stack(raw_nodes_view(raw@), i as nat),
                forall|j: int| 0 <= j < i ==> {
                    &&& #[trigger] t.parents@[j] == raw_parent(raw_nodes_view(raw@), j as nat)
                    &&& field_view(t.fields@[j]) == raw_field(raw_nodes_view(raw@), j as nat)
                },
            decreases raw@.len() - i,
        {
            let ghost st_full = stack@;
            while stack.len() > 0 && stack[stack.len() - 1].1 == 0
                invariant
                    frames_ok(&t, raw@, stack@),
                    forall|k: int| 0 <= k < stack@.len() ==> (#[trigger] stack@[k]).0 < i,
                    pop_done(stack@) == pop_done(st_full),
                decreases stack.len(),
            {
                let ghost st0 = stack@;
                let _ = stack.pop();
                proof {
                    assert forall|k: int| 0 <= k < stack@.len() implies #[trigger] frame_ok(&t, raw@, stack@[k]) by {
                        assert(stack@[k] == st0[k]);
                    }
                }
            }
            assert(pop_done(stack@) == stack@);
            let ghost t0 = t;
            let ghost st_in = stack@;
            let r = &raw[i];
            let mut parent: Option<usize> = None;
            let mut field: Option<String> = None;
            let mut attach: Option<(usize, Option<usize>)> = None;
            let ghost mut below: Seq<(usize, usize, Option<usize>)> = Seq::empty();
            let ghost mut slot_g: int = 0;
            if stack.len() > 0 {
                let top = stack.pop().unwrap();
                proof { below = stack@; }
                let (p, rem, last) = top;
                proof {
                    assert(top == st_in[st_in.len() - 1]);
                    assert(frame_ok(&t, raw@, st_in[st_in.len() - 1]));
                }
                let slot = raw[p].child_fields.len() - rem;
                proof { slot_g = slot as int; }
                field = match &raw[p].child_fields[slot] {
                    Some(f) => Some(f.clone()),
                    None => None,
                };
                parent = Some(p);
                attach = Some((p, last));
                stack.push((p, rem - 1, Some(i)));
            }
            t.kinds.push(r.kind.clone());
            t.texts.push(r.text.clone());
            t.starts.push(r.start);
            t.ends.push(r.end);
            t.named.push(r.named);
            t.parents.push(parent);
            t.fields.push(field);
            t.first_child.push(None);
            t.next_sibling.push(None);
            let ghost t1 = t;
            match attach {
                Some((p, Some(l))) => { t.next_sibling.set(l, Some(i)); },
                Some((p, None)) => { t.first_child.set(p, Some(i)); },
                None => {},
            }
            let ghost st_mid = stack@;
            stack.push((i, r.child_fields.len(), None));
            proof {
                assert forall|j: int| 0 <= j < t.size() implies #[trigger] t.links_ok(j) by {
                    if j < i {
                        assert(t0.links_ok(j));
                    }
                }
                assert forall|j: int| 0 <= j < i + 1 implies {
                    &&& #[trigger] t.kind(j) == raw@[j].kind@
                    &&& t.text(j) == raw@[j].text@
                    &&& t.starts@[j] == raw@[j].start
                    &&& t.ends@[j] == raw@[j].end
                    &&& t.named@[j] == raw@[j].named
                } by {
                    if j < i {
                        assert(t.kinds@[j] == t0.kinds@[j]);
                        assert(t0.kind(j) == raw@[j].kind@);
                    } else {
                        assert(t.kinds@[j] == r.kind);
                        assert(t.texts@[j] == r.text);
                    }
                }
                assert forall|j: int| 0 <= j < i implies t.parents@[j] == t0.parents@[j] by {}
                match attach {
                    None => {
                        assert(st_in.len() == 0);
                        assert(stack@ =~= seq![(i, r.child_fields@.len() as usize, None::<usize>)]);
                        assert forall|j: int| 0 <= j < t.size() implies {
                            &&& (#[trigger] t.first_child@[j] matches Some(c) ==> t.parents@[c as int] == Some(j as usize))
                            &&& (t.next_sibling@[j] matches Some(s) ==> t.parents@[s as int] == t.parents@[j])
                        } by {
                            if j < i {
                                assert(t.first_child@[j] == t0.first_child@[j]);
                                assert(t.next_sibling@[j] == t0.next_sibling@[j]);
                                assert(t0.links_ok(j));
                            }
                        }
                        assert(frame_ok(&t, raw@, stack@[0]));
                    },
                    Some((p, last)) => {
                        let top = st_in[st_in.len() - 1];
                        assert(below =~= st_in.drop_last());
                        assert(st_mid =~= below.push((p, (top.1 - 1) as usize, Some(i))));
                        assert(stack@ =~= st_mid.push((i, r.child_fields@.len() as usize, None::<usize>)));
                        assert forall|k: int| 0 <= k < below.len() implies (#[trigger] below[k]).0 < p by {
                            assert(st_in[k] == below[k]);
                        }
                        assert forall|j: int| 0 <= j < t.size() implies {
                            &&& (#[trigger] t.first_child@[j] matches Some(c) ==> t.parents@[c as int] == Some(j as usize))
                            &&& (t.next_sibling@[j] matches Some(s) ==> t.parents@[s as int] == t.parents@[j])
                        } by {
                            if j < i {
                                assert(t0.links_ok(j));
                            }
                        }
                        assert forall|k: int| 0 <= k < stack@.len() implies #[trigger] frame_ok(&t, raw@, stack@[k]) by {
                            if k < below.len() {
                                assert(below[k] == st_in[k]);
                                assert(frame_ok(&t0, raw@, st_in[k]));
                                let (q, rq, lq) = below[k];
                                assert(q < p);
                                if let Some(lx) = lq {
                                    assert(t0.parents@[lx as int] == Some(q));
                                    if let Some(l) = last {
                                        assert(t0.parents@[l as int] == Some(p));
                                        assert(lx != l);
                                    }
                                }
                            }
                        }
                        assert forall|k: int, m: int| 0 <= k < m < stack@.len() implies
                            (#[trigger] stack@[k]).0 < (#[trigger] stack@[m]).0 by {
                            if m < below.len() {
                                assert(stack@[k] == st_in[k] && stack@[m] == st_in[m]);
                            }
                        }
                    },
                }
            }
            proof {
                let next = raw_stack(raw_nodes_view(raw@), (i + 1) as nat);
                assert(pop_done(raw_stack(raw_nodes_view(raw@), i as nat)) == st_in);
                assert forall|j: int| 0 <= j < i implies t.fields@[j] == t0.fields@[j] by {}
                match attach {
                    None => {
                        assert(stack@ =~= next);
                    },
                    Some((p, last)) => {
                        assert(stack@ =~= next);
                        let top = st_in[st_in.len() - 1];
                        assert(raw_parent(raw_nodes_view(raw@), i as nat) == Some(p));
                        assert(raw_node_view(raw@[p as int]).5.len() - top.1 == slot_g);
                        assert(raw_nodes_view(raw@)[p as int] == raw_node_view(raw@[p as int]));
                        assert(raw_nodes_view(raw@)[i as int] == raw_node_view(raw@[i as int]));
                    },
                }
            }
            i = i + 1;
        }
        t
    }

    /// The syntax tree of `source` in `lang` (`None` for `Auto`, which names no
    /// parser): the nodes tree-sitter gives, read back by `from_raw`.
    pub fn parse(source: &str, lang: SupportedLanguage) -> (r: Option<SyntaxTree>)
        ensures
            (r is Some) <==> (lang != SupportedLanguage::Auto),
            r matches Some(t) ==> t.wf() && links_agree(&t),
            r matches Some(t) ==> {
                let nodes = syntax_nodes(source@, cli_name_spec(lang)->0);
                &&& t.size() == nodes.len()
                &&& forall|i: int| 0 <= i < nodes.len() ==> {
                    &&& #[trigger] t.kind(i) == nodes[i].0
                    &&& t.text(i) == nodes[i].1
                    &&& t.starts@[i] == nodes[i].2
                    &&& t.ends@[i] == nodes[i].3
                    &&& t.named@[i] == nodes[i].4
                    &&& t.parents@[i] == raw_parent(nodes, i as nat)
                    &&& field_view(t.fields@[i]) == raw_field(nodes, i as nat)
                }
            },
    {
        match lang.ast_lang() {
            Some(l) => {
                let raw = parse_syntax_nodes(source, &l);
                let t = SyntaxTree::from_raw(&raw);
                proof {
                    let nodes = syntax_nodes(source@, cli_name_spec(lang)->0);
                    assert forall|i: int| 0 <= i < nodes.len() implies nodes[i] == raw_node_view(raw@[i]) by {
                        assert(raw_nodes_view(raw@)[i] == raw_node_view(raw@[i]));
                    }
                }
                Some(t)
            },
            None => None,
        }
    }
}

impl SyntaxTree {
    /// The first sibling from `c` on whose kind is one of `ks`.
    pub open spec fn kind_from(&self, c: Option<usize>, ks: Seq<Seq<char>>) -> Option<usize>
        decreases self.rest(c),
    {
        match c {
            None => None,
            Some(x) => if x >= self.size() {
                None
            } else if one_of(self.kind(x as int), ks) {
                Some(x)
            } else {
                self.kind_from(self.next_of(x), ks)
            },
        }
    }

    /// The first child of `i` whose kind is one of `ks`.
    pub open spec fn child_of_kind(&self, i: int, ks: Seq<Seq<char>>) -> Option<usize> {
        self.kind_from(self.first_child@[i], ks)
    }

    /// The first sibling from `c` on whose kind is one of `ks`.
    pub fn sibling_of_kind(&self, c: Option<usize>, ks: &[&str]) -> (r: Option<usize>)
        requires
            self.wf(),
            c matches Some(x) ==> x < self.size(),
        ensures
            r == self.kind_from(c, crate::text::str_views(ks@)),
            r matches Some(x) ==> x < self.size(),
    {
        let mut cur = c;
        while cur.is_some()
            invariant
                self.wf(),
                cur matches Some(x) ==> x < self.size(),
                self.kind_from(cur, crate::text::str_views(ks@)) == self.kind_from(c, crate::text::str_views(ks@)),
            decreases self.rest(cur),
        {
            let x = cur.unwrap();
            if self.kind_in(x, ks) {
                return Some(x);
            }
            cur = self.next(x);
        }
        None
    }

    /// The first child of `i` whose kind is one of `ks`.
    pub fn first_child_of_kind(&self, i: usize, ks: &[&str]) -> (r: Option<usize>)
        requires
            self.wf(),
            i < self.size(),
        ensures
            r == self.child_of_kind(i as int, crate::text::str_views(ks@)),
            r matches Some(x) ==> x < self.size(),
    {
        let c = self.first(i);
        self.sibling_of_kind(c, ks)
    }

    /// The first node, in depth-first order, with this byte range and kind.
    pub open spec fn node_at_from(&self, start: usize, end: usize, kind: Seq<char>, j: int) -> Option<usize>
        decreases self.size() - j,
    {
        if j < 0 || j >= self.size() {
            None
        } else if self.starts@[j] == start && self.ends@[j] == end && self.kind(j) == kind {
            Some(j as usize)
        } else {
            self.node_at_from(start, end, kind, j + 1)
        }
    }

    /// The first node, in depth-first order, with this byte range and kind.
    pub fn node_at(&self, start: usize, end: usize, kind: &str) -> (r: Option<usize>)
        requires
            self.wf(),
        ensures
            r == self.node_at_from(start, end, kind@, 0),
            r matches Some(x) ==> x < self.size(),
    {
        let mut j: usize = 0;
        while j < self.kinds.len()
            invariant
                self.wf(),
                j <= self.size(),
                self.node_at_from(start, end, kind@, j as int) == self.node_at_from(start, end, kind@, 0),
            decreases self.size() - j,
        {
            if self.starts[j] == start && self.ends[j] == end && self.kind_is(j, kind) {
                return Some(j);
            }
            j = j + 1;
        }
        None
    }
}

} // verus!
