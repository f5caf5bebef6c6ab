//! Breakdown of a regular expression into explained tokens and a railroad-style tree.
use vstd::prelude::*;
use crate::i18n::{pick, tr_pair, UiLanguage};
use crate::text::{chars_of, is_ascii_digit, string_of_range};

verus! {

#[derive(Debug, Clone, Copy, PartialEq, Eq, Structural)]
pub enum RegexVisualKind {
    Anchor,
    Group,
    GroupEnd,
    Alternation,
    Quantifier,
    CharClass,
    Escape,
    Wildcard,
    Literal,
    Error,
}

/// One explained token of the pattern.
#[derive(Debug)]
pub struct RegexVisualLine {
    pub depth: usize,
    pub kind: RegexVisualKind,
    pub token: String,
    pub label: String,
    pub note: String,
}

#[derive(Debug, Clone, Copy)]
pub struct RegexVisualStats {
    pub groups: usize,
    pub alternations: usize,
    pub char_classes: usize,
    pub quantifiers: usize,
}

#[derive(Debug)]
pub struct RegexVisualization {
    pub is_valid: bool,
    pub error_message: Option<String>,
    pub stats: RegexVisualStats,
    pub lines: Vec<RegexVisualLine>,
    pub diagram: RegexDiagram,
}

#[derive(Debug)]
pub struct RegexDiagram {
    pub root: RegexDiagramNode,
    pub note: String,
}

/// Title and hover text of a group frame (in the UI language).
#[derive(Debug)]
pub struct RegexGroupMeta {
    pub title: String,
    pub tooltip: String,
}

#[derive(Debug)]
pub enum RegexDiagramNode {
    Empty,
    Token {
        label: String,
        kind: RegexVisualKind,
    },
    Sequence(Vec<RegexDiagramNode>),
    Alternation(Vec<RegexDiagramNode>),
    Repeat {
        child: Box<RegexDiagramNode>,
        quantifier: String,
    },
    Group {
        child: Box<RegexDiagramNode>,
        meta: RegexGroupMeta,
    },
}

// ───────────────────────── views ─────────────────────────

pub struct LineView {
    pub depth: nat,
    pub kind: RegexVisualKind,
    pub token: Seq<char>,
    pub label: Seq<char>,
    pub note: Seq<char>,
}

impl View for RegexVisualLine {
    type V = LineView;

    open spec fn view(&self) -> LineView {
        LineView { depth: self.depth as nat, kind: self.kind, token: self.token@, label: self.label@, note: self.note@ }
    }
}

pub enum NodeView {
    Empty,
    Token { label: Seq<char>, kind: RegexVisualKind },
    Sequence(Seq<NodeView>),
    Alternation(Seq<NodeView>),
    Repeat { child: Box<NodeView>, quantifier: Seq<char> },
    Group { child: Box<NodeView>, title: Seq<char>, tooltip: Seq<char> },
}

pub open spec fn node_view(n: RegexDiagramNode) -> NodeView
    decreases n,
{
    match n {
        RegexDiagramNode::Empty => NodeView::Empty,
        RegexDiagramNode::Token { label, kind } => NodeView::Token { label: label@, kind },
        RegexDiagramNode::Sequence(v) => NodeView::Sequence(
            Seq::new(v@.len(), |k: int| if 0 <= k < v@.len() { node_view(v@[k]) } else { NodeView::Empty }),
        ),
        RegexDiagramNode::Alternation(v) => NodeView::Alternation(
            Seq::new(v@.len(), |k: int| if 0 <= k < v@.len() { node_view(v@[k]) } else { NodeView::Empty }),
        ),
        RegexDiagramNode::Repeat { child, quantifier } => NodeView::Repeat {
            child: Box::new(node_view(*child)),
            quantifier: quantifier@,
        },
        RegexDiagramNode::Group { child, meta } => NodeView::Group {
            child: Box::new(node_view(*child)),
            title: meta.title@,
            tooltip: meta.tooltip@,
        },
    }
}

pub open spec fn nodes_view(v: Seq<RegexDiagramNode>) -> Seq<NodeView> {
    Seq::new(v.len(), |k: int| node_view(v[k]))
}

pub struct VisualizationView {
    pub is_valid: bool,
    pub error_message: Option<Seq<char>>,
    pub groups: nat,
    pub alternations: nat,
    pub char_classes: nat,
    pub quantifiers: nat,
    pub lines: Seq<LineView>,
    pub root: NodeView,
    pub note: Seq<char>,
}

pub open spec fn lines_view(v: Seq<RegexVisualLine>) -> Seq<LineView> {
    Seq::new(v.len(), |k: int| v[k]@)
}

impl View for RegexVisualization {
    type V = VisualizationView;

    open spec fn view(&self) -> VisualizationView {
        VisualizationView {
            is_valid: self.is_valid,
            error_message: match self.error_message { Some(e) => Some(e@), None => None },
            groups: self.stats.groups as nat,
            alternations: self.stats.alternations as nat,
            char_classes: self.stats.char_classes as nat,
            quantifiers: self.stats.quantifiers as nat,
            lines: lines_view(self.lines@),
            root: node_view(self.diagram.root),
            note: self.diagram.note@,
        }
    }
}

// ───────────────────────── shared scanning ─────────────────────────

/// `p` occurs in `c` at index `i`.
pub open spec fn at(c: Seq<char>, i: int, p: Seq<char>) -> bool {
    0 <= i && i + p.len() <= c.len() && c.subrange(i, i + p.len()) == p
}

/// End of a character class whose body starts at `i`: just past the first
/// unescaped `]`, or the end of the text; and whether a `]` closed it.
pub open spec fn class_end(c: Seq<char>, i: int, escaped: bool) -> (int, bool)
    decreases c.len() - i,
{
    if i >= c.len() || i < 0 {
        (i, false)
    } else if escaped {
        class_end(c, i + 1, false)
    } else if c[i] == '\\' {
        class_end(c, i + 1, true)
    } else if c[i] == ']' {
        (i + 1, true)
    } else {
        class_end(c, i + 1, false)
    }
}

/// End of a `{m,n}` quantifier whose body starts at `i` (just past the `}`):
/// digits and commas, at least one digit, closed by `}`.
pub open spec fn braced_end(c: Seq<char>, i: int, saw_digit: bool) -> Option<int>
    decreases c.len() - i,
{
    if i >= c.len() || i < 0 {
        None
    } else if is_ascii_digit(c[i]) {
        braced_end(c, i + 1, true)
    } else if c[i] == ',' {
        braced_end(c, i + 1, saw_digit)
    } else if c[i] == '}' {
        if saw_digit { Some(i + 1) } else { None }
    } else {
        None
    }
}

proof fn lemma_class_end(c: Seq<char>, i: int, escaped: bool)
    requires
        0 <= i <= c.len(),
    ensures
        i <= class_end(c, i, escaped).0 <= c.len(),
    decreases c.len() - i,
{
    if i < c.len() {
        if escaped {
            lemma_class_end(c, i + 1, false);
        } else if c[i] == '\\' {
            lemma_class_end(c, i + 1, true);
        } else if c[i] != ']' {
            lemma_class_end(c, i + 1, false);
        }
    }
}

proof fn lemma_braced_end(c: Seq<char>, i: int, saw: bool)
    requires
        0 <= i <= c.len(),
    ensures
        braced_end(c, i, saw) matches Some(e) ==> i < e <= c.len(),
    decreases c.len() - i,
{
    if i < c.len() {
        if is_ascii_digit(c[i]) {
            lemma_braced_end(c, i + 1, true);
        } else if c[i] == ',' {
            lemma_braced_end(c, i + 1, saw);
        }
    }
}

fn scan_class_end(c: &Vec<char>, i: usize) -> (r: (usize, bool))
    requires
        i <= c.len(),
    ensures
        (r.0 as int, r.1) == class_end(c@, i as int, false),
        i <= r.0 <= c.len(),
{
    let mut j = i;
    let mut escaped = false;
    proof { lemma_class_end(c@, i as int, false); }
    while j < c.len()
        invariant
            i <= j <= c.len(),
            class_end(c@, j as int, escaped) == class_end(c@, i as int, false),
        decreases c.len() - j,
    {
        let ch = c[j];
        j = j + 1;
        if escaped {
            escaped = false;
        } else if ch == '\\' {
            escaped = true;
        } else if ch == ']' {
            return (j, true);
        }
    }
    (j, false)
}

fn scan_braced_end(c: &Vec<char>, i: usize) -> (r: Option<usize>)
    requires
        i <= c.len(),
    ensures
        match r {
            Some(e) => braced_end(c@, i as int, false) == Some(e as int) && i < e <= c.len(),
            None => braced_end(c@, i as int, false) is None,
        },
{
    let mut j = i;
    let mut saw = false;
    proof { lemma_braced_end(c@, i as int, false); }
    while j < c.len()
        invariant
            i <= j <= c.len(),
            braced_end(c@, j as int, saw) == braced_end(c@, i as int, false),
        decreases c.len() - j,
    {
        let ch = c[j];
        if ch >= '0' && ch <= '9' {
            saw = true;
            j = j + 1;
        } else if ch == ',' {
            j = j + 1;
        } else if ch == '}' {
            if saw {
                return Some(j + 1);
            }
            return None;
        } else {
            return None;
        }
    }
    None
}

fn at_exec(c: &Vec<char>, i: usize, p: &str) -> (b: bool)
    requires
        i <= c.len(),
    ensures
        b == at(c@, i as int, p@),
{
    let pv = chars_of(p);
    if pv.len() > c.len() - i {
        return false;
    }
    let mut k: usize = 0;
    while k < pv.len()
        invariant
            k <= pv.len(),
            i + pv.len() <= c.len(),
            pv@ == p@,
            forall|m: int| 0 <= m < k ==> c@[i + m] == pv@[m],
        decreases pv.len() - k,
    {
        if c[i + k] != pv[k] {
            assert(c@.subrange(i as int, i + pv.len())[k as int] != p@[k as int]);
            return false;
        }
        k = k + 1;
    }
    assert(c@.subrange(i as int, i + pv.len()) =~= p@);
    true
}

// ───────────────────────── token lines ─────────────────────────

/// Characters that end a literal run in the token list.
pub open spec fn is_meta(ch: char) -> bool {
    ch == '\\' || ch == '[' || ch == ']' || ch == '(' || ch == ')' || ch == '|' || ch == '^'
        || ch == '$' || ch == '.' || ch == '*' || ch == '+' || ch == '?' || ch == '{'
}

/// First index from `i` on that holds a character of `stop`, or the end of the text.
pub open spec fn run_end(c: Seq<char>, i: int, meta_list: bool) -> int
    decreases c.len() - i,
{
    if i >= c.len() || i < 0 {
        i
    } else if (meta_list && is_meta(c[i])) || (!meta_list && is_diagram_stop(c[i])) {
        i
    } else {
        run_end(c, i + 1, meta_list)
    }
}

/// End of the literal token starting at `i`: the run up to the next stop
/// character, or that one character when it is a stop character itself.
pub open spec fn literal_end(c: Seq<char>, i: int, meta_list: bool) -> int {
    let e = run_end(c, i, meta_list);
    if e == i { i + 1 } else { e }
}

proof fn lemma_run_end(c: Seq<char>, i: int, meta_list: bool)
    requires
        0 <= i <= c.len(),
    ensures
        i <= run_end(c, i, meta_list) <= c.len(),
    decreases c.len() - i,
{
    if i < c.len() && !((meta_list && is_meta(c[i])) || (!meta_list && is_diagram_stop(c[i]))) {
        lemma_run_end(c, i + 1, meta_list);
    }
}

fn is_meta_char(ch: char) -> (b: bool)
    ensures
        b == is_meta(ch),
{
    ch == '\\' || ch == '[' || ch == ']' || ch == '(' || ch == ')' || ch == '|' || ch == '^'
        || ch == '$' || ch == '.' || ch == '*' || ch == '+' || ch == '?' || ch == '{'
}

fn is_diagram_stop_char(ch: char) -> (b: bool)
    ensures
        b == is_diagram_stop(ch),
{
    ch == '(' || ch == ')' || ch == '[' || ch == ']' || ch == '\\' || ch == '|' || ch == '*'
        || ch == '+' || ch == '?' || ch == '{' || ch == '}' || ch == '.' || ch == '^' || ch == '$'
}

fn scan_literal_end(c: &Vec<char>, i: usize, meta_list: bool) -> (e: usize)
    requires
        i < c.len(),
    ensures
        e as int == literal_end(c@, i as int, meta_list),
        i < e <= c.len(),
{
    let mut j = i;
    proof { lemma_run_end(c@, i as int, meta_list); }
    while j < c.len()
        invariant
            i <= j <= c.len(),
            run_end(c@, j as int, meta_list) == run_end(c@, i as int, meta_list),
        ensures
            i <= j <= c.len(),
            run_end(c@, j as int, meta_list) == run_end(c@, i as int, meta_list),
            run_end(c@, j as int, meta_list) == j,
        decreases c.len() - j,
    {
        let stop = if meta_list { is_meta_char(c[j]) } else { is_diagram_stop_char(c[j]) };
        if stop {
            break;
        }
        j = j + 1;
    }
    if j == i { i + 1 } else { j }
}

/// Where the token scan stands.
pub struct ScanState {
    pub index: int,
    pub depth: nat,
    pub groups: nat,
    pub alternations: nat,
    pub char_classes: nat,
    pub quantifiers: nat,
}

pub open spec fn mk_line(depth: nat, kind: RegexVisualKind, token: Seq<char>, label: Seq<char>, note: Seq<char>) -> LineView {
    LineView { depth, kind, token, label, note }
}

pub open spec fn escape_note_spec(lang: UiLanguage, ch: char) -> Seq<char> {
    if ch == 'd' {
        pick(lang, "数字 1 文字"@, "A single digit"@)
    } else if ch == 'D' {
        pick(lang, "数字以外 1 文字"@, "A single non-digit"@)
    } else if ch == 'w' {
        pick(lang, "単語文字 1 文字"@, "A single word character"@)
    } else if ch == 'W' {
        pick(lang, "単語文字以外 1 文字"@, "A single non-word character"@)
    } else if ch == 's' {
        pick(lang, "空白文字 1 文字"@, "A single whitespace character"@)
    } else if ch == 'S' {
        pick(lang, "空白以外 1 文字"@, "A single non-whitespace character"@)
    } else if ch == 'b' {
        pick(lang, "単語境界"@, "Word boundary"@)
    } else if ch == 'B' {
        pick(lang, "単語境界ではない位置"@, "Not a word boundary"@)
    } else if ch == 'n' {
        pick(lang, "改行"@, "Newline"@)
    } else if ch == 'r' {
        pick(lang, "復帰"@, "Carriage return"@)
    } else if ch == 't' {
        pick(lang, "タブ"@, "Tab"@)
    } else {
        pick(lang, "次の文字を特別扱いせずそのまま解釈します"@, "Treats the next character literally or as a regex escape"@)
    }
}

/// The prefix of a group opened at `i`, its length, and its note.
pub open spec fn group_open_spec(c: Seq<char>, i: int, lang: UiLanguage) -> (Seq<char>, Seq<char>) {
    if at(c, i, "(?:"@) {
        ("(?:"@, pick(lang, "非キャプチャグループ。まとまりとして扱いますが、キャプチャはしません"@, "Non-capturing group. Groups terms together without capturing"@))
    } else if at(c, i, "(?="@) {
        ("(?="@, pick(lang, "先読み。Rust の regex では未対応です"@, "Lookahead. Not supported by Rust regex"@))
    } else if at(c, i, "(?!"@) {
        ("(?!"@, pick(lang, "否定先読み。Rust の regex では未対応です"@, "Negative lookahead. Not supported by Rust regex"@))
    } else if at(c, i, "(?<="@) {
        ("(?<="@, pick(lang, "後読み。Rust の regex では未対応です"@, "Lookbehind. Not supported by Rust regex"@))
    } else if at(c, i, "(?<!"@) {
        ("(?<!"@, pick(lang, "否定後読み。Rust の regex では未対応です"@, "Negative lookbehind. Not supported by Rust regex"@))
    } else {
        ("("@, pick(lang, "キャプチャグループ。後でまとまりを参照しやすくします"@, "Capturing group. Wraps a sub-pattern as a single unit"@))
    }
}

pub open spec fn quantifier_note_spec(lang: UiLanguage, ch: char) -> Seq<char> {
    if ch == '*' {
        pick(lang, "直前要素の 0 回以上"@, "Zero or more of the previous item"@)
    } else if ch == '+' {
        pick(lang, "直前要素の 1 回以上"@, "One or more of the previous item"@)
    } else {
        pick(lang, "直前要素の 0 回または 1 回"@, "Zero or one of the previous item"@)
    }
}

pub open spec fn literal_line(c: Seq<char>, st: ScanState, lang: UiLanguage) -> (LineView, ScanState) {
    let e = literal_end(c, st.index, true);
    (
        mk_line(st.depth, RegexVisualKind::Literal, c.subrange(st.index, e), pick(lang, "文字列"@, "Literal"@),
            pick(lang, "この文字列そのものにマッチします"@, "Matches this text literally"@)),
        ScanState { index: e, ..st },
    )
}

/// One token of the list: the line that explains it and the state after it.
pub open spec fn scan_step(c: Seq<char>, st: ScanState, lang: UiLanguage) -> (LineView, ScanState) {
    let i = st.index;
    let ch = c[i];
    if ch == '\\' {
        if i + 1 >= c.len() {
            (mk_line(st.depth, RegexVisualKind::Error, "\\"@, pick(lang, "不正なエスケープ"@, "Invalid escape"@),
                pick(lang, "末尾の `\\` は解釈できません"@, "A trailing `\\` cannot be parsed"@)),
             ScanState { index: i + 1, ..st })
        } else {
            (mk_line(st.depth, RegexVisualKind::Escape, c.subrange(i, i + 2), pick(lang, "エスケープ"@, "Escape"@),
                escape_note_spec(lang, c[i + 1])),
             ScanState { index: i + 2, ..st })
        }
    } else if ch == '[' {
        let (e, closed) = class_end(c, i + 1, false);
        (mk_line(st.depth, if closed { RegexVisualKind::CharClass } else { RegexVisualKind::Error },
            c.subrange(i, e), pick(lang, "文字クラス"@, "Character class"@),
            if closed {
                pick(lang, "この中のいずれか 1 文字にマッチします"@, "Matches one character from this character class"@)
            } else {
                pick(lang, "文字クラスが `]` で閉じられていません"@, "The character class is missing a closing `]`"@)
            }),
         ScanState { index: e, char_classes: st.char_classes + 1, ..st })
    } else if ch == '(' {
        let (tok, note) = group_open_spec(c, i, lang);
        (mk_line(st.depth, RegexVisualKind::Group, tok, pick(lang, "グループ開始"@, "Group start"@), note),
         ScanState { index: i + tok.len(), depth: st.depth + 1, groups: st.groups + 1, ..st })
    } else if ch == ')' {
        let d: nat = if st.depth > 0 { (st.depth - 1) as nat } else { 0 };
        (mk_line(d, RegexVisualKind::GroupEnd, ")"@, pick(lang, "グループ終了"@, "Group end"@),
            pick(lang, "ここでグループのまとまりが閉じます"@, "Closes the current group"@)),
         ScanState { index: i + 1, depth: d, ..st })
    } else if ch == '|' {
        (mk_line(st.depth, RegexVisualKind::Alternation, "|"@, pick(lang, "分岐"@, "Alternation"@),
            pick(lang, "左右どちらかにマッチします"@, "Matches either the left or right branch"@)),
         ScanState { index: i + 1, alternations: st.alternations + 1, ..st })
    } else if ch == '^' || ch == '$' {
        (mk_line(st.depth, RegexVisualKind::Anchor, seq![ch], pick(lang, "アンカー"@, "Anchor"@),
            if ch == '^' {
                pick(lang, "行頭または文字列先頭"@, "Start of line or text"@)
            } else {
                pick(lang, "行末または文字列末尾"@, "End of line or text"@)
            }),
         ScanState { index: i + 1, ..st })
    } else if ch == '.' {
        (mk_line(st.depth, RegexVisualKind::Wildcard, "."@, pick(lang, "任意 1 文字"@, "Any character"@),
            pick(lang, "改行以外の任意の 1 文字にマッチします"@, "Matches any single character except newline"@)),
         ScanState { index: i + 1, ..st })
    } else if ch == '*' || ch == '+' || ch == '?' {
        (mk_line(st.depth, RegexVisualKind::Quantifier, seq![ch], pick(lang, "量指定"@, "Quantifier"@),
            quantifier_note_spec(lang, ch)),
         ScanState { index: i + 1, quantifiers: st.quantifiers + 1, ..st })
    } else if ch == '{' {
        match braced_end(c, i + 1, false) {
            Some(e) => (mk_line(st.depth, RegexVisualKind::Quantifier, c.subrange(i, e), pick(lang, "量指定"@, "Quantifier"@),
                    pick(lang, "直前要素の回数範囲を指定します"@, "Sets an explicit repetition range for the previous item"@)),
                 ScanState { index: e, quantifiers: st.quantifiers + 1, ..st }),
            None => literal_line(c, st, lang),
        }
    } else {
        literal_line(c, st, lang)
    }
}

/// The lines of the token list from state `st` on, and the final state.
pub open spec fn scan_from(c: Seq<char>, st: ScanState, lang: UiLanguage) -> (Seq<LineView>, ScanState)
    decreases c.len() - st.index,
{
    if st.index >= c.len() || st.index < 0 {
        (Seq::empty(), st)
    } else {
        let (line, next) = scan_step(c, st, lang);
        if next.index <= st.index || next.index > c.len() {
            (seq![line], next)
        } else {
            let (rest, fin) = scan_from(c, next, lang);
            (seq![line] + rest, fin)
        }
    }
}

pub open spec fn initial_scan() -> ScanState {
    ScanState { index: 0, depth: 0, groups: 0, alternations: 0, char_classes: 0, quantifiers: 0 }
}

/// The explained token list of `c`, with a warning line when a group is left open.
pub open spec fn token_lines(c: Seq<char>, lang: UiLanguage) -> Seq<LineView> {
    let (lines, fin) = scan_from(c, initial_scan(), lang);
    if fin.depth > 0 {
        lines.push(mk_line((fin.depth - 1) as nat, RegexVisualKind::Error, pick(lang, "(未閉じグループ)"@, "(unclosed group)"@),
            pick(lang, "注意"@, "Warning"@), pick(lang, "閉じていない `)` があるようです"@, "A closing `)` appears to be missing"@)))
    } else {
        lines
    }
}

pub open spec fn token_stats(c: Seq<char>, lang: UiLanguage) -> ScanState {
    scan_from(c, initial_scan(), lang).1
}

/// The tokens of lines, one after another.
pub open spec fn tokens_text(lines: Seq<LineView>) -> Seq<char>
    decreases lines.len(),
{
    if lines.len() == 0 {
        Seq::empty()
    } else {
        lines[0].token + tokens_text(lines.skip(1))
    }
}

proof fn lemma_scan_step(c: Seq<char>, st: ScanState, lang: UiLanguage)
    requires
        0 <= st.index < c.len(),
    ensures
        st.index < scan_step(c, st, lang).1.index <= c.len(),
        scan_step(c, st, lang).0.token == c.subrange(st.index, scan_step(c, st, lang).1.index),
{
    let i = st.index;
    let ch = c[i];
    reveal_strlit("\\");
    reveal_strlit("(?:");
    reveal_strlit("(?=");
    reveal_strlit("(?!");
    reveal_strlit("(?<=");
    reveal_strlit("(?<!");
    reveal_strlit("(");
    reveal_strlit(")");
    reveal_strlit("|");
    reveal_strlit(".");
    if ch == '\\' {
        if i + 1 >= c.len() {
            assert(c.subrange(i, i + 1) =~= "\\"@);
        }
    } else if ch == '[' {
        lemma_class_end(c, i + 1, false);
    } else if ch == '(' {
        if !(at(c, i, "(?:"@) || at(c, i, "(?="@) || at(c, i, "(?!"@) || at(c, i, "(?<="@) || at(c, i, "(?<!"@)) {
            assert(c.subrange(i, i + 1) =~= "("@);
        }
    } else if ch == ')' {
        assert(c.subrange(i, i + 1) =~= ")"@);
    } else if ch == '|' {
        assert(c.subrange(i, i + 1) =~= "|"@);
    } else if ch == '^' || ch == '$' {
        assert(c.subrange(i, i + 1) =~= seq![ch]);
    } else if ch == '.' {
        assert(c.subrange(i, i + 1) =~= "."@);
    } else if ch == '*' || ch == '+' || ch == '?' {
        assert(c.subrange(i, i + 1) =~= seq![ch]);
    } else if ch == '{' {
        lemma_braced_end(c, i + 1, false);
        lemma_run_end(c, i, true);
    } else {
        lemma_run_end(c, i, true);
    }
}

proof fn lemma_scan_tokens(c: Seq<char>, st: ScanState, lang: UiLanguage)
    requires
        0 <= st.index <= c.len(),
    ensures
        tokens_text(scan_from(c, st, lang).0) == c.subrange(st.index, c.len() as int),
    decreases c.len() - st.index,
{
    if st.index < c.len() {
        lemma_scan_step(c, st, lang);
        let (line, next) = scan_step(c, st, lang);
        lemma_scan_tokens(c, next, lang);
        let rest = scan_from(c, next, lang).0;
        let lines = seq![line] + rest;
        assert(lines.skip(1) =~= rest);
        assert(c.subrange(st.index, next.index) + c.subrange(next.index, c.len() as int) =~= c.subrange(st.index, c.len() as int));
    } else {
        assert(c.subrange(st.index, c.len() as int) =~= Seq::<char>::empty());
    }
}

/// The tokens of the explained token list, one after another, spell the
/// pattern; the warning for an open group is the one line added after them.
pub proof fn lemma_tokens_spell_pattern(c: Seq<char>, lang: UiLanguage)
    ensures
        tokens_text(scan_from(c, initial_scan(), lang).0) == c,
        token_lines(c, lang) == (if token_stats(c, lang).depth > 0 {
            scan_from(c, initial_scan(), lang).0.push(token_lines(c, lang).last())
        } else {
            scan_from(c, initial_scan(), lang).0
        }),
{
    lemma_scan_tokens(c, initial_scan(), lang);
    assert(c.subrange(0, c.len() as int) =~= c);
}

/// How many lines are of kind `k`.
pub open spec fn count_kind(lines: Seq<LineView>, k: RegexVisualKind) -> nat
    decreases lines.len(),
{
    if lines.len() == 0 {
        0
    } else {
        (if lines[0].kind == k { 1nat } else { 0nat }) + count_kind(lines.skip(1), k)
    }
}

/// Whether a line's token opens a character class.
pub open spec fn is_class_token(l: LineView) -> bool {
    l.token.len() > 0 && l.token[0] == '['
}

/// How many lines hold a character class token.
pub open spec fn count_class_tokens(lines: Seq<LineView>) -> nat
    decreases lines.len(),
{
    if lines.len() == 0 {
        0
    } else {
        (if is_class_token(lines[0]) { 1nat } else { 0nat }) + count_class_tokens(lines.skip(1))
    }
}

proof fn lemma_counts_push(lines: Seq<LineView>, x: LineView)
    ensures
        count_kind(lines.push(x), RegexVisualKind::Group) == count_kind(lines, RegexVisualKind::Group) + (if x.kind == RegexVisualKind::Group { 1nat } else { 0nat }),
        count_kind(lines.push(x), RegexVisualKind::Alternation) == count_kind(lines, RegexVisualKind::Alternation) + (if x.kind == RegexVisualKind::Alternation { 1nat } else { 0nat }),
        count_kind(lines.push(x), RegexVisualKind::Quantifier) == count_kind(lines, RegexVisualKind::Quantifier) + (if x.kind == RegexVisualKind::Quantifier { 1nat } else { 0nat }),
        count_class_tokens(lines.push(x)) == count_class_tokens(lines) + (if is_class_token(x) { 1nat } else { 0nat }),
    decreases lines.len(),
{
    if lines.len() > 0 {
        assert(lines.push(x).skip(1) =~= lines.skip(1).push(x));
        assert(lines.push(x)[0] == lines[0]);
        lemma_counts_push(lines.skip(1), x);
    } else {
        assert(lines.push(x).skip(1) =~= Seq::<LineView>::empty());
        assert(lines.push(x)[0] == x);
        assert(count_kind(Seq::<LineView>::empty(), RegexVisualKind::Group) == 0);
        assert(count_kind(Seq::<LineView>::empty(), RegexVisualKind::Alternation) == 0);
        assert(count_kind(Seq::<LineView>::empty(), RegexVisualKind::Quantifier) == 0);
        assert(count_class_tokens(Seq::<LineView>::empty()) == 0);
    }
}

proof fn lemma_step_counts(c: Seq<char>, st: ScanState, lang: UiLanguage)
    requires
        0 <= st.index < c.len(),
    ensures
        ({
            let (line, next) = scan_step(c, st, lang);
            &&& next.groups == st.groups + (if line.kind == RegexVisualKind::Group { 1nat } else { 0nat })
            &&& next.alternations == st.alternations + (if line.kind == RegexVisualKind::Alternation { 1nat } else { 0nat })
            &&& next.quantifiers == st.quantifiers + (if line.kind == RegexVisualKind::Quantifier { 1nat } else { 0nat })
            &&& next.char_classes == st.char_classes + (if is_class_token(line) { 1nat } else { 0nat })
        }),
{
    let i = st.index;
    let ch = c[i];
    lemma_scan_step(c, st, lang);
    let (line, next) = scan_step(c, st, lang);
    assert(line.token.len() > 0);
    assert(line.token[0] == c[i]) by {
        assert(line.token == c.subrange(i, next.index));
    }
}

proof fn lemma_scan_counts(c: Seq<char>, st: ScanState, lang: UiLanguage)
    requires
        0 <= st.index <= c.len(),
    ensures
        ({
            let (lines, fin) = scan_from(c, st, lang);
            &&& fin.groups == st.groups + count_kind(lines, RegexVisualKind::Group)
            &&& fin.alternations == st.alternations + count_kind(lines, RegexVisualKind::Alternation)
            &&& fin.quantifiers == st.quantifiers + count_kind(lines, RegexVisualKind::Quantifier)
            &&& fin.char_classes == st.char_classes + count_class_tokens(lines)
        }),
    decreases c.len() - st.index,
{
    if st.index < c.len() {
        lemma_scan_step(c, st, lang);
        lemma_step_counts(c, st, lang);
        let (line, next) = scan_step(c, st, lang);
        lemma_scan_counts(c, next, lang);
        let rest = scan_from(c, next, lang).0;
        assert((seq![line] + rest).skip(1) =~= rest);
        assert((seq![line] + rest)[0] == line);
    }
}

/// The counts of the breakdown are counts of its lines: groups, alternations
/// and quantifiers are the lines of those kinds, character classes the lines
/// whose token starts with `[`.
pub proof fn lemma_stats_count_lines(c: Seq<char>, lang: UiLanguage)
    ensures
        token_stats(c, lang).groups == count_kind(token_lines(c, lang), RegexVisualKind::Group),
        token_stats(c, lang).alternations == count_kind(token_lines(c, lang), RegexVisualKind::Alternation),
        token_stats(c, lang).quantifiers == count_kind(token_lines(c, lang), RegexVisualKind::Quantifier),
        token_stats(c, lang).char_classes == count_class_tokens(token_lines(c, lang)),
{
    lemma_scan_counts(c, initial_scan(), lang);
    let (lines, fin) = scan_from(c, initial_scan(), lang);
    if fin.depth > 0 {
        let w = mk_line((fin.depth - 1) as nat, RegexVisualKind::Error, pick(lang, "(未閉じグループ)"@, "(unclosed group)"@),
            pick(lang, "注意"@, "Warning"@), pick(lang, "閉じていない `)` があるようです"@, "A closing `)` appears to be missing"@));
        lemma_counts_push(lines, w);
        reveal_strlit("(未閉じグループ)");
        reveal_strlit("(unclosed group)");
        assert(!is_class_token(w));
    }
}

fn mk_line_exec(depth: usize, kind: RegexVisualKind, token: String, label: String, note: String) -> (r: RegexVisualLine)
    ensures
        r@ == mk_line(depth as nat, kind, token@, label@, note@),
{
    RegexVisualLine { depth, kind, token, label, note }
}

fn char_string(ch: char) -> (r: String)
    ensures
        r@ == seq![ch],
{
    let mut s = String::new();
    crate::text::push_char(&mut s, ch);
    proof { reveal_strlit(""); }
    assert(s@ =~= seq![ch]);
    s
}

fn escape_note(lang: UiLanguage, ch: char) -> (r: String)
    ensures
        r@ == escape_note_spec(lang, ch),
{
    if ch == 'd' {
        tr_pair(lang, "数字 1 文字", "A single digit")
    } else if ch == 'D' {
        tr_pair(lang, "数字以外 1 文字", "A single non-digit")
    } else if ch == 'w' {
        tr_pair(lang, "単語文字 1 文字", "A single word character")
    } else if ch == 'W' {
        tr_pair(lang, "単語文字以外 1 文字", "A single non-word character")
    } else if ch == 's' {
        tr_pair(lang, "空白文字 1 文字", "A single whitespace character")
    } else if ch == 'S' {
        tr_pair(lang, "空白以外 1 文字", "A single non-whitespace character")
    } else if ch == 'b' {
        tr_pair(lang, "単語境界", "Word boundary")
    } else if ch == 'B' {
        tr_pair(lang, "単語境界ではない位置", "Not a word boundary")
    } else if ch == 'n' {
        tr_pair(lang, "改行", "Newline")
    } else if ch == 'r' {
        tr_pair(lang, "復帰", "Carriage return")
    } else if ch == 't' {
        tr_pair(lang, "タブ", "Tab")
    } else {
        tr_pair(lang, "次の文字を特別扱いせずそのまま解釈します", "Treats the next character literally or as a regex escape")
    }
}

fn group_open(c: &Vec<char>, i: usize, lang: UiLanguage) -> (r: (String, String))
    requires
        i <= c.len(),
    ensures
        (r.0@, r.1@) == group_open_spec(c@, i as int, lang),
{
    if at_exec(c, i, "(?:") {
        ("(?:".to_string(), tr_pair(lang, "非キャプチャグループ。まとまりとして扱いますが、キャプチャはしません", "Non-capturing group. Groups terms together without capturing"))
    } else if at_exec(c, i, "(?=") {
        ("(?=".to_string(), tr_pair(lang, "先読み。Rust の regex では未対応です", "Lookahead. Not supported by Rust regex"))
    } else if at_exec(c, i, "(?!") {
        ("(?!".to_string(), tr_pair(lang, "否定先読み。Rust の regex では未対応です", "Negative lookahead. Not supported by Rust regex"))
    } else if at_exec(c, i, "(?<=") {
        ("(?<=".to_string(), tr_pair(lang, "後読み。Rust の regex では未対応です", "Lookbehind. Not supported by Rust regex"))
    } else if at_exec(c, i, "(?<!") {
        ("(?<!".to_string(), tr_pair(lang, "否定後読み。Rust の regex では未対応です", "Negative lookbehind. Not supported by Rust regex"))
    } else {
        ("(".to_string(), tr_pair(lang, "キャプチャグループ。後でまとまりを参照しやすくします", "Capturing group. Wraps a sub-pattern as a single unit"))
    }
}

fn literal_line_exec(c: &Vec<char>, i: usize, depth: usize, lang: UiLanguage) -> (r: (RegexVisualLine, usize))
    requires
        i < c.len(),
    ensures
        i < r.1 <= c.len(),
        r.0@ == literal_line(c@, ScanState { index: i as int, depth: depth as nat, groups: 0, alternations: 0, char_classes: 0, quantifiers: 0 }, lang).0,
        r.1 as int == literal_end(c@, i as int, true),
{
    let e = scan_literal_end(c, i, true);
    let line = mk_line_exec(depth, RegexVisualKind::Literal, string_of_range(c.as_slice(), i, e),
        tr_pair(lang, "文字列", "Literal"), tr_pair(lang, "この文字列そのものにマッチします", "Matches this text literally"));
    (line, e)
}

/// The explained token list of `c` and its counts.
fn scan_tokens(c: &Vec<char>, lang: UiLanguage) -> (r: (Vec<RegexVisualLine>, RegexVisualStats))
    ensures
        lines_view(r.0@) == token_lines(c@, lang),
        r.1.groups as nat == token_stats(c@, lang).groups,
        r.1.alternations as nat == token_stats(c@, lang).alternations,
        r.1.char_classes as nat == token_stats(c@, lang).char_classes,
        r.1.quantifiers as nat == token_stats(c@, lang).quantifiers,
{
    let mut lines: Vec<RegexVisualLine> = Vec::new();
    let mut stats = RegexVisualStats { groups: 0, alternations: 0, char_classes: 0, quantifiers: 0 };
    let mut i: usize = 0;
    let mut depth: usize = 0;
    let ghost total = scan_from(c@, initial_scan(), lang);
    proof {
        assert(lines_view(lines@) =~= Seq::<LineView>::empty());
    }
    while i < c.len()
        invariant
            i <= c.len(),
            depth <= stats.groups,
            stats.groups + stats.alternations + stats.char_classes + stats.quantifiers <= i,
            total == scan_from(c@, initial_scan(), lang),
            ({
                let st = ScanState { index: i as int, depth: depth as nat, groups: stats.groups as nat,
                    alternations: stats.alternations as nat, char_classes: stats.char_classes as nat,
                    quantifiers: stats.quantifiers as nat };
                &&& total.0 == lines_view(lines@) + scan_from(c@, st, lang).0
                &&& total.1 == scan_from(c@, st, lang).1
            }),
        decreases c.len() - i,
    {
        let ghost st = ScanState { index: i as int, depth: depth as nat, groups: stats.groups as nat,
            alternations: stats.alternations as nat, char_classes: stats.char_classes as nat,
            quantifiers: stats.quantifiers as nat };
        let ghost step = scan_step(c@, st, lang);
        let ch = c[i];
        let line: RegexVisualLine;
        if ch == '\\' {
            if i + 1 >= c.len() {
                line = mk_line_exec(depth, RegexVisualKind::Error, "\\".to_string(), tr_pair(lang, "不正なエスケープ", "Invalid escape"),
                    tr_pair(lang, "末尾の `\\` は解釈できません", "A trailing `\\` cannot be parsed"));
                i = i + 1;
            } else {
                line = mk_line_exec(depth, RegexVisualKind::Escape, string_of_range(c.as_slice(), i, i + 2),
                    tr_pair(lang, "エスケープ", "Escape"), escape_note(lang, c[i + 1]));
                i = i + 2;
            }
        } else if ch == '[' {
            let (e, closed) = scan_class_end(c, i + 1);
            let kind = if closed { RegexVisualKind::CharClass } else { RegexVisualKind::Error };
            let note = if closed {
                tr_pair(lang, "この中のいずれか 1 文字にマッチします", "Matches one character from this character class")
            } else {
                tr_pair(lang, "文字クラスが `]` で閉じられていません", "The character class is missing a closing `]`")
            };
            line = mk_line_exec(depth, kind, string_of_range(c.as_slice(), i, e), tr_pair(lang, "文字クラス", "Character class"), note);
            stats.char_classes = stats.char_classes + 1;
            i = e;
        } else if ch == '(' {
            let (tok, note) = group_open(c, i, lang);
            let n = chars_of(tok.as_str()).len();
            assert(n == tok@.len());
            proof {
                reveal_strlit("(?:");
                reveal_strlit("(?=");
                reveal_strlit("(?!");
                reveal_strlit("(?<=");
                reveal_strlit("(?<!");
                reveal_strlit("(");
            }
            assert(i + n <= c.len()) by {
                if n > 1 {
                    assert(at(c@, i as int, tok@));
                }
            }
            line = mk_line_exec(depth, RegexVisualKind::Group, tok, tr_pair(lang, "グループ開始", "Group start"), note);
            depth = depth + 1;
            stats.groups = stats.groups + 1;
            i = i + n;
        } else if ch == ')' {
            depth = if depth > 0 { depth - 1 } else { 0 };
            line = mk_line_exec(depth, RegexVisualKind::GroupEnd, ")".to_string(), tr_pair(lang, "グループ終了", "Group end"),
                tr_pair(lang, "ここでグループのまとまりが閉じます", "Closes the current group"));
            i = i + 1;
        } else if ch == '|' {
            line = mk_line_exec(depth, RegexVisualKind::Alternation, "|".to_string(), tr_pair(lang, "分岐", "Alternation"),
                tr_pair(lang, "左右どちらかにマッチします", "Matches either the left or right branch"));
            stats.alternations = stats.alternations + 1;
            i = i + 1;
        } else if ch == '^' || ch == '$' {
            let note = if ch == '^' {
                tr_pair(lang, "行頭または文字列先頭", "Start of line or text")
            } else {
                tr_pair(lang, "行末または文字列末尾", "End of line or text")
            };
            line = mk_line_exec(depth, RegexVisualKind::Anchor, char_string(ch), tr_pair(lang, "アンカー", "Anchor"), note);
            i = i + 1;
        } else if ch == '.' {
            line = mk_line_exec(depth, RegexVisualKind::Wildcard, ".".to_string(), tr_pair(lang, "任意 1 文字", "Any character"),
                tr_pair(lang, "改行以外の任意の 1 文字にマッチします", "Matches any single character except newline"));
            i = i + 1;
        } else if ch == '*' || ch == '+' || ch == '?' {
            let note = if ch == '*' {
                tr_pair(lang, "直前要素の 0 回以上", "Zero or more of the previous item")
            } else if ch == '+' {
                tr_pair(lang, "直前要素の 1 回以上", "One or more of the previous item")
            } else {
                tr_pair(lang, "直前要素の 0 回または 1 回", "Zero or one of the previous item")
            };
            line = mk_line_exec(depth, RegexVisualKind::Quantifier, char_string(ch), tr_pair(lang, "量指定", "Quantifier"), note);
            stats.quantifiers = stats.quantifiers + 1;
            i = i + 1;
        } else if ch == '{' {
            match scan_braced_end(c, i + 1) {
                Some(e) => {
                    line = mk_line_exec(depth, RegexVisualKind::Quantifier, string_of_range(c.as_slice(), i, e),
                        tr_pair(lang, "量指定", "Quantifier"),
                        tr_pair(lang, "直前要素の回数範囲を指定します", "Sets an explicit repetition range for the previous item"));
                    stats.quantifiers = stats.quantifiers + 1;
                    i = e;
                },
                None => {
                    let (l, e) = literal_line_exec(c, i, depth, lang);
                    line = l;
                    i = e;
                },
            }
        } else {
            let (l, e) = literal_line_exec(c, i, depth, lang);
            line = l;
            i = e;
        }
        let ghost st2 = ScanState { index: i as int, depth: depth as nat, groups: stats.groups as nat,
            alternations: stats.alternations as nat, char_classes: stats.char_classes as nat,
            quantifiers: stats.quantifiers as nat };
        assert(step.0 == line@ && step.1 == st2);
        let ghost before = lines@;
        lines.push(line);
        proof {
            assert(lines_view(lines@) =~= lines_view(before).push(line@));
            assert(scan_from(c@, st, lang).0 == seq![line@] + scan_from(c@, st2, lang).0);
            assert(lines_view(before) + scan_from(c@, st, lang).0 =~= lines_view(lines@) + scan_from(c@, st2, lang).0);
        }
    }
    let ghost st = ScanState { index: i as int, depth: depth as nat, groups: stats.groups as nat,
        alternations: stats.alternations as nat, char_classes: stats.char_classes as nat,
        quantifiers: stats.quantifiers as nat };
    assert(scan_from(c@, st, lang).0 =~= Seq::<LineView>::empty());
    assert(total.0 =~= lines_view(lines@));
    if depth > 0 {
        let line = mk_line_exec(depth - 1, RegexVisualKind::Error, tr_pair(lang, "(未閉じグループ)", "(unclosed group)"),
            tr_pair(lang, "注意", "Warning"), tr_pair(lang, "閉じていない `)` があるようです", "A closing `)` appears to be missing"));
        let ghost before = lines@;
        lines.push(line);
        assert(lines_view(lines@) =~= lines_view(before).push(line@));
    }
    (lines, stats)
}

// ───────────────────────── diagram ─────────────────────────

/// Characters that end a literal run in the diagram.
pub open spec fn is_diagram_stop(ch: char) -> bool {
    ch == '(' || ch == ')' || ch == '[' || ch == ']' || ch == '\\' || ch == '|' || ch == '*'
        || ch == '+' || ch == '?' || ch == '{' || ch == '}' || ch == '.' || ch == '^' || ch == '$'
}

/// Index of the first `>` from `j` on, or the end of the text.
pub open spec fn gt_index(c: Seq<char>, j: int) -> int
    decreases c.len() - j,
{
    if j >= c.len() || j < 0 || c[j] == '>' { j } else { gt_index(c, j + 1) }
}

/// Just past the `>` that ends a group name starting at `j` (or the end of the text).
pub open spec fn name_end(c: Seq<char>, j: int) -> int {
    let e = gt_index(c, j);
    if 0 <= e < c.len() { e + 1 } else { e }
}

proof fn lemma_gt_index(c: Seq<char>, j: int)
    requires
        0 <= j <= c.len(),
    ensures
        j <= gt_index(c, j) <= c.len(),
        gt_index(c, j) < c.len() ==> c[gt_index(c, j)] == '>',
    decreases c.len() - j,
{
    if j < c.len() && c[j] != '>' {
        lemma_gt_index(c, j + 1);
    }
}

/// The frame texts of a group whose `(` was at `p - 1`, and where its body starts.
pub open spec fn group_meta_spec(c: Seq<char>, p: int, lang: UiLanguage) -> (Seq<char>, Seq<char>, int) {
    if at(c, p, "?:"@) {
        (pick(lang, "非キャプチャ"@, "Non-capturing"@),
         pick(lang, "(?: … ) はマッチのまとまりですが番号付きキャプチャにはしません。"@, "(?: … ) groups the pattern without creating a numbered capture."@), p + 2)
    } else if at(c, p, "?="@) {
        (pick(lang, "先読み"@, "Lookahead"@),
         pick(lang, "(?= … ) は先読み（このアプリの検索は Rust regex で、先読みは未対応です）。"@, "(?= … ) is lookahead. Rust `regex` does not support lookaround assertions."@), p + 2)
    } else if at(c, p, "?!"@) {
        (pick(lang, "否定先読み"@, "Neg. lookahead"@),
         pick(lang, "(?! … ) は否定先読み（Rust regex では未対応）。"@, "(?! … ) is negative lookahead. Not supported by Rust `regex`."@), p + 2)
    } else if at(c, p, "?<="@) {
        (pick(lang, "後読み"@, "Lookbehind"@),
         pick(lang, "(?<= … ) は後読み（Rust regex では未対応）。"@, "(?<= … ) is lookbehind. Not supported by Rust `regex`."@), p + 3)
    } else if at(c, p, "?<!"@) {
        (pick(lang, "否定後読み"@, "Neg. lookbehind"@),
         pick(lang, "(?<! … ) は否定後読み（Rust regex では未対応）。"@, "(?<! … ) is negative lookbehind. Not supported by Rust `regex`."@), p + 3)
    } else if at(c, p, "?P<"@) {
        (pick(lang, "名前付きキャプチャ"@, "Named capture"@),
         pick(lang, "(?P<name> … ) は名前付きグループ。後方参照や置換で名前で参照できます。"@, "(?P<name> … ) is a named capture group for backreferences and replacements."@), name_end(c, p + 3))
    } else if at(c, p, "?<"@) {
        (pick(lang, "名前付きキャプチャ"@, "Named capture"@),
         pick(lang, "(?<name> … ) は名前付きグループ（Rust regex で利用可能）。"@, "(?<name> … ) is a named capture group (supported by Rust `regex`)."@), name_end(c, p + 2))
    } else {
        (pick(lang, "キャプチャ"@, "Capturing"@),
         pick(lang, "( … ) は番号付きキャプチャグループ。同じパターン内で \\1 などで参照できます。"@, "( … ) is a numbered capture group; refer with \\1, \\2, … in the same pattern."@), p)
    }
}

/// `a | b | …` from `i` on: the tree and the index after it.
pub open spec fn d_expr(c: Seq<char>, i: int, lang: UiLanguage) -> (NodeView, int)
    decreases c.len() - i, 6int,
{
    let (first, j) = d_seq(c, i, lang);
    if j < i || j > c.len() {
        (first, j)
    } else {
        let (branches, k) = d_alt(c, j, seq![first], lang);
        (if branches.len() == 1 { branches[0] } else { NodeView::Alternation(branches) }, k)
    }
}

/// Further `| branch` parts from `j` on, appended to `branches`.
pub open spec fn d_alt(c: Seq<char>, j: int, branches: Seq<NodeView>, lang: UiLanguage) -> (Seq<NodeView>, int)
    decreases c.len() - j, 5int,
{
    if 0 <= j < c.len() && c[j] == '|' {
        let (b, k) = d_seq(c, j + 1, lang);
        if k < j + 1 || k > c.len() {
            (branches.push(b), k)
        } else {
            d_alt(c, k, branches.push(b), lang)
        }
    } else {
        (branches, j)
    }
}

/// One branch: the items up to `)`, `|` or the end.
pub open spec fn d_seq(c: Seq<char>, i: int, lang: UiLanguage) -> (NodeView, int)
    decreases c.len() - i, 4int,
{
    let (items, j) = d_items(c, i, Seq::empty(), lang);
    (if items.len() == 0 {
        NodeView::Empty
    } else if items.len() == 1 {
        items[0]
    } else {
        NodeView::Sequence(items)
    }, j)
}

pub open spec fn d_items(c: Seq<char>, i: int, items: Seq<NodeView>, lang: UiLanguage) -> (Seq<NodeView>, int)
    decreases c.len() - i, 3int,
{
    if 0 <= i < c.len() && c[i] != ')' && c[i] != '|' {
        let (n, j) = d_postfix(c, i, lang);
        if j <= i || j > c.len() {
            (items.push(n), j)
        } else {
            d_items(c, j, items.push(n), lang)
        }
    } else {
        (items, i)
    }
}

/// An atom with an optional quantifier after it.
pub open spec fn d_postfix(c: Seq<char>, i: int, lang: UiLanguage) -> (NodeView, int)
    decreases c.len() - i, 2int,
{
    let (atom, j) = d_atom(c, i, lang);
    if j < 0 || j >= c.len() {
        (atom, j)
    } else if c[j] == '*' || c[j] == '+' || c[j] == '?' {
        (NodeView::Repeat { child: Box::new(atom), quantifier: seq![c[j]] }, j + 1)
    } else if c[j] == '{' {
        match braced_end(c, j + 1, false) {
            Some(e) => (NodeView::Repeat { child: Box::new(atom), quantifier: c.subrange(j, e) }, e),
            None => (atom, j),
        }
    } else {
        (atom, j)
    }
}

pub open spec fn d_atom(c: Seq<char>, i: int, lang: UiLanguage) -> (NodeView, int)
    decreases c.len() - i, 1int,
{
    if i < 0 || i >= c.len() {
        (NodeView::Empty, i)
    } else {
        let ch = c[i];
        if ch == '(' {
            d_group(c, i, lang)
        } else if ch == '[' {
            let e = class_end(c, i + 1, false).0;
            (NodeView::Token { label: c.subrange(i, e), kind: RegexVisualKind::CharClass }, e)
        } else if ch == '\\' {
            let e = if i + 1 < c.len() { i + 2 } else { i + 1 };
            (NodeView::Token { label: c.subrange(i, e), kind: RegexVisualKind::Escape }, e)
        } else if ch == '.' {
            (NodeView::Token { label: "."@, kind: RegexVisualKind::Wildcard }, i + 1)
        } else if ch == '^' || ch == '$' {
            (NodeView::Token { label: seq![ch], kind: RegexVisualKind::Anchor }, i + 1)
        } else {
            let e = literal_end(c, i, false);
            (NodeView::Token { label: c.subrange(i, e), kind: RegexVisualKind::Literal }, e)
        }
    }
}

/// A group opened at `i`: its frame, its body, and its `)` when present.
pub open spec fn d_group(c: Seq<char>, i: int, lang: UiLanguage) -> (NodeView, int)
    decreases c.len() - i, 0int,
{
    let (title, tooltip, k) = group_meta_spec(c, i + 1, lang);
    if k <= i || k > c.len() {
        (NodeView::Group { child: Box::new(NodeView::Empty), title, tooltip }, k)
    } else {
        let (inner, m) = d_expr(c, k, lang);
        let e = if 0 <= m < c.len() && c[m] == ')' { m + 1 } else { m };
        (NodeView::Group { child: Box::new(inner), title, tooltip }, e)
    }
}

pub open spec fn diagram_note_spec(lang: UiLanguage) -> Seq<char> {
    pick(lang,
        "Regulex 風に、`|` の分岐を上下レーンに分けて表示します。`* + ?` や `{m,n}` は迂回線やループ線で表します。グループは枠で囲み、ホバーで説明を表示します。"@,
        "A Regulex-like view that splits `|` into separate lanes. `* + ?` and `{m,n}` use bypass and loop paths. Groups are framed; hover for details."@)
}

fn group_meta(c: &Vec<char>, p: usize, lang: UiLanguage) -> (r: (RegexGroupMeta, usize))
    requires
        1 <= p <= c.len(),
    ensures
        (r.0.title@, r.0.tooltip@, r.1 as int) == group_meta_spec(c@, p as int, lang),
        p <= r.1 <= c.len(),
{
    proof {
        reveal_strlit("?:");
        reveal_strlit("?=");
        reveal_strlit("?!");
        reveal_strlit("?<=");
        reveal_strlit("?<!");
        reveal_strlit("?P<");
        reveal_strlit("?<");
    }
    if at_exec(c, p, "?:") {
        (RegexGroupMeta { title: tr_pair(lang, "非キャプチャ", "Non-capturing"),
            tooltip: tr_pair(lang, "(?: … ) はマッチのまとまりですが番号付きキャプチャにはしません。", "(?: … ) groups the pattern without creating a numbered capture.") }, p + 2)
    } else if at_exec(c, p, "?=") {
        (RegexGroupMeta { title: tr_pair(lang, "先読み", "Lookahead"),
            tooltip: tr_pair(lang, "(?= … ) は先読み（このアプリの検索は Rust regex で、先読みは未対応です）。", "(?= … ) is lookahead. Rust `regex` does not support lookaround assertions.") }, p + 2)
    } else if at_exec(c, p, "?!") {
        (RegexGroupMeta { title: tr_pair(lang, "否定先読み", "Neg. lookahead"),
            tooltip: tr_pair(lang, "(?! … ) は否定先読み（Rust regex では未対応）。", "(?! … ) is negative lookahead. Not supported by Rust `regex`.") }, p + 2)
    } else if at_exec(c, p, "?<=") {
        (RegexGroupMeta { title: tr_pair(lang, "後読み", "Lookbehind"),
            tooltip: tr_pair(lang, "(?<= … ) は後読み（Rust regex では未対応）。", "(?<= … ) is lookbehind. Not supported by Rust `regex`.") }, p + 3)
    } else if at_exec(c, p, "?<!") {
        (RegexGroupMeta { title: tr_pair(lang, "否定後読み", "Neg. lookbehind"),
            tooltip: tr_pair(lang, "(?<! … ) は否定後読み（Rust regex では未対応）。", "(?<! … ) is negative lookbehind. Not supported by Rust `regex`.") }, p + 3)
    } else if at_exec(c, p, "?P<") {
        let e = skip_name(c, p + 3);
        (RegexGroupMeta { title: tr_pair(lang, "名前付きキャプチャ", "Named capture"),
            tooltip: tr_pair(lang, "(?P<name> … ) は名前付きグループ。後方参照や置換で名前で参照できます。", "(?P<name> … ) is a named capture group for backreferences and replacements.") }, e)
    } else if at_exec(c, p, "?<") {
        let e = skip_name(c, p + 2);
        (RegexGroupMeta { title: tr_pair(lang, "名前付きキャプチャ", "Named capture"),
            tooltip: tr_pair(lang, "(?<name> … ) は名前付きグループ（Rust regex で利用可能）。", "(?<name> … ) is a named capture group (supported by Rust `regex`).") }, e)
    } else {
        (RegexGroupMeta { title: tr_pair(lang, "キャプチャ", "Capturing"),
            tooltip: tr_pair(lang, "( … ) は番号付きキャプチャグループ。同じパターン内で \\1 などで参照できます。", "( … ) is a numbered capture group; refer with \\1, \\2, … in the same pattern.") }, p)
    }
}

fn skip_name(c: &Vec<char>, j: usize) -> (e: usize)
    requires
        j <= c.len(),
    ensures
        e as int == name_end(c@, j as int),
        j <= e <= c.len(),
{
    let mut k = j;
    proof { lemma_gt_index(c@, j as int); }
    while k < c.len() && c[k] != '>'
        invariant
            j <= k <= c.len(),
            gt_index(c@, k as int) == gt_index(c@, j as int),
        decreases c.len() - k,
    {
        k = k + 1;
    }
    if k < c.len() { k + 1 } else { k }
}

fn d_expr_exec(c: &Vec<char>, i: usize, lang: UiLanguage) -> (r: (RegexDiagramNode, usize))
    requires
        i <= c.len(),
    ensures
        (node_view(r.0), r.1 as int) == d_expr(c@, i as int, lang),
        i <= r.1 <= c.len(),
    decreases c.len() - i, 6int,
{
    let (first, j) = d_seq_exec(c, i, lang);
    let mut branches: Vec<RegexDiagramNode> = Vec::new();
    let ghost fv = node_view(first);
    branches.push(first);
    assert(nodes_view(branches@) =~= seq![fv]);
    let (mut branches, k) = d_alt_exec(c, j, branches, lang);
    if branches.len() == 1 {
        let only = branches.pop().unwrap();
        (only, k)
    } else {
        let ghost bv = branches@;
        let r = RegexDiagramNode::Alternation(branches);
        proof {
            let s = match node_view(r) { NodeView::Alternation(s) => s, _ => Seq::empty() };
            assert(s =~= nodes_view(bv));
        }
        (r, k)
    }
}

fn d_alt_exec(c: &Vec<char>, j: usize, branches: Vec<RegexDiagramNode>, lang: UiLanguage) -> (r: (Vec<RegexDiagramNode>, usize))
    requires
        j <= c.len(),
    ensures
        (nodes_view(r.0@), r.1 as int) == d_alt(c@, j as int, nodes_view(branches@), lang),
        j <= r.1 <= c.len(),
        r.0@.len() >= branches@.len(),
    decreases c.len() - j, 5int,
{
    if j < c.len() && c[j] == '|' {
        let (b, k) = d_seq_exec(c, j + 1, lang);
        let mut branches = branches;
        let ghost before = branches@;
        let ghost bv = node_view(b);
        branches.push(b);
        assert(nodes_view(branches@) =~= nodes_view(before).push(bv));
        d_alt_exec(c, k, branches, lang)
    } else {
        (branches, j)
    }
}

fn d_seq_exec(c: &Vec<char>, i: usize, lang: UiLanguage) -> (r: (RegexDiagramNode, usize))
    requires
        i <= c.len(),
    ensures
        (node_view(r.0), r.1 as int) == d_seq(c@, i as int, lang),
        i <= r.1 <= c.len(),
    decreases c.len() - i, 4int,
{
    let items: Vec<RegexDiagramNode> = Vec::new();
    assert(nodes_view(items@) =~= Seq::<NodeView>::empty());
    let (mut items, j) = d_items_exec(c, i, items, lang);
    if items.len() == 0 {
        (RegexDiagramNode::Empty, j)
    } else if items.len() == 1 {
        let only = items.pop().unwrap();
        (only, j)
    } else {
        let ghost iv = items@;
        let r = RegexDiagramNode::Sequence(items);
        proof {
            let s = match node_view(r) { NodeView::Sequence(s) => s, _ => Seq::empty() };
            assert(s =~= nodes_view(iv));
        }
        (r, j)
    }
}

fn d_items_exec(c: &Vec<char>, i: usize, items: Vec<RegexDiagramNode>, lang: UiLanguage) -> (r: (Vec<RegexDiagramNode>, usize))
    requires
        i <= c.len(),
    ensures
        (nodes_view(r.0@), r.1 as int) == d_items(c@, i as int, nodes_view(items@), lang),
        i <= r.1 <= c.len(),
    decreases c.len() - i, 3int,
{
    if i < c.len() && c[i] != ')' && c[i] != '|' {
        let (n, j) = d_postfix_exec(c, i, lang);
        let mut items = items;
        let ghost before = items@;
        let ghost nv = node_view(n);
        items.push(n);
        assert(nodes_view(items@) =~= nodes_view(before).push(nv));
        d_items_exec(c, j, items, lang)
    } else {
        (items, i)
    }
}

fn d_postfix_exec(c: &Vec<char>, i: usize, lang: UiLanguage) -> (r: (RegexDiagramNode, usize))
    requires
        i < c.len(),
    ensures
        (node_view(r.0), r.1 as int) == d_postfix(c@, i as int, lang),
        i < r.1 <= c.len(),
    decreases c.len() - i, 2int,
{
    let (atom, j) = d_atom_exec(c, i, lang);
    if j >= c.len() {
        return (atom, j);
    }
    let ch = c[j];
    if ch == '*' || ch == '+' || ch == '?' {
        (RegexDiagramNode::Repeat { child: Box::new(atom), quantifier: char_string(ch) }, j + 1)
    } else if ch == '{' {
        match scan_braced_end(c, j + 1) {
            Some(e) => (RegexDiagramNode::Repeat { child: Box::new(atom), quantifier: string_of_range(c.as_slice(), j, e) }, e),
            None => (atom, j),
        }
    } else {
        (atom, j)
    }
}

fn d_atom_exec(c: &Vec<char>, i: usize, lang: UiLanguage) -> (r: (RegexDiagramNode, usize))
    requires
        i < c.len(),
    ensures
        (node_view(r.0), r.1 as int) == d_atom(c@, i as int, lang),
        i < r.1 <= c.len(),
    decreases c.len() - i, 1int,
{
    let ch = c[i];
    if ch == '(' {
        d_group_exec(c, i, lang)
    } else if ch == '[' {
        let (e, _closed) = scan_class_end(c, i + 1);
        (RegexDiagramNode::Token { label: string_of_range(c.as_slice(), i, e), kind: RegexVisualKind::CharClass }, e)
    } else if ch == '\\' {
        let e = if i + 1 < c.len() { i + 2 } else { i + 1 };
        (RegexDiagramNode::Token { label: string_of_range(c.as_slice(), i, e), kind: RegexVisualKind::Escape }, e)
    } else if ch == '.' {
        (RegexDiagramNode::Token { label: ".".to_string(), kind: RegexVisualKind::Wildcard }, i + 1)
    } else if ch == '^' || ch == '$' {
        (RegexDiagramNode::Token { label: char_string(ch), kind: RegexVisualKind::Anchor }, i + 1)
    } else {
        let e = scan_literal_end(c, i, false);
        (RegexDiagramNode::Token { label: string_of_range(c.as_slice(), i, e), kind: RegexVisualKind::Literal }, e)
    }
}

fn d_group_exec(c: &Vec<char>, i: usize, lang: UiLanguage) -> (r: (RegexDiagramNode, usize))
    requires
        i < c.len(),
    ensures
        (node_view(r.0), r.1 as int) == d_group(c@, i as int, lang),
        i < r.1 <= c.len(),
    decreases c.len() - i, 0int,
{
    let (meta, k) = group_meta(c, i + 1, lang);
    let (inner, m) = d_expr_exec(c, k, lang);
    let e = if m < c.len() && c[m] == ')' { m + 1 } else { m };
    (RegexDiagramNode::Group { child: Box::new(inner), meta }, e)
}

/// The railroad tree of `pattern` and its explanatory note.
fn build_diagram(pattern: &str, lang: UiLanguage) -> (r: RegexDiagram)
    ensures
        node_view(r.root) == d_expr(pattern@, 0, lang).0,
        r.note@ == diagram_note_spec(lang),
{
    let c = chars_of(pattern);
    let (root, _end) = d_expr_exec(&c, 0, lang);
    RegexDiagram {
        root,
        note: tr_pair(lang,
            "Regulex 風に、`|` の分岐を上下レーンに分けて表示します。`* + ?` や `{m,n}` は迂回線やループ線で表します。グループは枠で囲み、ホバーで説明を表示します。",
            "A Regulex-like view that splits `|` into separate lanes. `* + ?` and `{m,n}` use bypass and loop paths. Groups are framed; hover for details."),
    }
}

// ───────────────────────── the whole breakdown ─────────────────────────

/// The breakdown of `pattern`, given what compiling it reported (`None` when it compiled).
pub open spec fn visualization_spec(pattern: Seq<char>, lang: UiLanguage, error_message: Option<Seq<char>>) -> VisualizationView {
    let st = token_stats(pattern, lang);
    VisualizationView {
        is_valid: error_message is None,
        error_message,
        groups: st.groups,
        alternations: st.alternations,
        char_classes: st.char_classes,
        quantifiers: st.quantifiers,
        lines: token_lines(pattern, lang),
        root: d_expr(pattern, 0, lang).0,
        note: diagram_note_spec(lang),
    }
}

/// The breakdown of `pattern`, given what compiling it reported.
pub fn visualization_with(pattern: &str, lang: UiLanguage, error_message: Option<String>) -> (r: RegexVisualization)
    ensures
        r@ == visualization_spec(pattern@, lang, match error_message { Some(e) => Some(e@), None => None }),
{
    let c = chars_of(pattern);
    let (lines, stats) = scan_tokens(&c, lang);
    let diagram = build_diagram(pattern, lang);
    let is_valid = error_message.is_none();
    RegexVisualization { is_valid, error_message, stats, lines, diagram }
}

/// Compiles `pattern` with the `regex` crate and breaks it down into
/// explained tokens and a railroad tree.
pub fn visualize_regex(pattern: &str, lang: UiLanguage) -> (r: RegexVisualization)
    ensures
        r@ == visualization_spec(pattern@, lang, crate::file_search::regex_error_text(pattern@)),
{
    let err = match crate::file_search::regex_compile(pattern) {
        Ok(_) => None,
        Err(e) => Some(e),
    };
    visualization_with(pattern, lang, err)
}

} // verus!
