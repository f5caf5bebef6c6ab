//! The decisions of fetching a remote tree: which client an SVN URL needs,
//! which revision is asked for, what a WebDAV listing says, and which URL
//! and local name each listed entry gets; and the checks before a Git clone.
use vstd::prelude::*;
use crate::text::{
    chars_of, find, find_str, index_of_char, lowercase, push_str, split_char, starts_with, string_of,
    strip_prefix_vec, sub_vec, to_lowercase, trim, trim_vec,
};

verus! {

// ───────────────────────── numbers ─────────────────────────

/// What `s.parse::<u64>()` accepts: an optional `+`, then one or more ASCII
/// digits whose value fits in `u64`.
pub open spec fn parse_u64_spec(s: Seq<char>) -> Option<nat> {
    let d = crate::text::unsigned_digits(s);
    if d.len() > 0 && crate::text::all_digits(d) && crate::text::digits_value(d) <= u64::MAX {
        Some(crate::text::digits_value(d))
    } else {
        None
    }
}

proof fn lemma_digits_prefix(d: Seq<char>, j: int)
    requires
        0 <= j <= d.len(),
        crate::text::all_digits(d),
    ensures
        crate::text::digits_value(d.take(j)) <= crate::text::digits_value(d),
    decreases d.len(),
{
    if j < d.len() {
        assert(crate::text::all_digits(d.drop_last()));
        lemma_digits_prefix(d.drop_last(), j);
        assert(d.drop_last().take(j) == d.take(j));
    } else {
        assert(d.take(j) == d);
    }
}

/// `s.parse::<u64>()`, with `None` for every input that it rejects.
pub fn parse_u64(s: &str) -> (r: Option<u64>)
    ensures
        match r {
            Some(n) => parse_u64_spec(s@) == Some(n as nat),
            None => parse_u64_spec(s@) is None,
        },
{
    let v = chars_of(s);
    let start: usize = if v.len() > 0 && v[0] == '+' { 1 } else { 0 };
    let ghost d = crate::text::unsigned_digits(s@);
    assert(d == v@.skip(start as int));
    if start == v.len() {
        return None;
    }
    let mut acc: u64 = 0;
    let mut i: usize = start;
    assert(d.take(0) == Seq::<char>::empty());
    while i < v.len()
        invariant
            start <= i <= v.len(),
            v@ == s@,
            d == v@.skip(start as int),
            d == crate::text::unsigned_digits(s@),
            forall|k: int| 0 <= k < i - start ==> crate::text::is_ascii_digit(#[trigger] d[k]),
            acc as nat == crate::text::digits_value(d.take(i - start)),
        decreases v.len() - i,
    {
        let c = v[i];
        assert(d[i - start] == c);
        if !(c >= '0' && c <= '9') {
            assert(!crate::text::all_digits(d));
            return None;
        }
        let dv = (c as u32 - 48) as u64;
        assert(d.take(i + 1 - start).drop_last() == d.take(i - start));
        assert(d.take(i + 1 - start).last() == c);
        assert(dv as nat == crate::text::digit_value(c));
        match acc.checked_mul(10) {
            None => {
                proof {
                    if crate::text::all_digits(d) {
                        lemma_digits_prefix(d, i + 1 - start);
                    }
                }
                return None;
            },
            Some(m) => match m.checked_add(dv) {
                None => {
                    proof {
                        if crate::text::all_digits(d) {
                            lemma_digits_prefix(d, i + 1 - start);
                        }
                    }
                    return None;
                },
                Some(n) => {
                    acc = n;
                },
            },
        }
        i = i + 1;
    }
    assert(d.take(v.len() - start) == d);
    Some(acc)
}

/// The code of a character with ASCII letters folded to lower case.
pub open spec fn ascii_fold(c: char) -> u32 {
    if 65 <= (c as u32) <= 90 { ((c as u32) + 32) as u32 } else { c as u32 }
}

/// `str::eq_ignore_ascii_case`.
pub open spec fn eq_ignore_ascii_case(a: Seq<char>, b: Seq<char>) -> bool {
    a.len() == b.len() && forall|i: int| 0 <= i < a.len() ==> ascii_fold(#[trigger] a[i]) == ascii_fold(b[i])
}

fn fold_char(c: char) -> (r: u32)
    ensures
        r == ascii_fold(c),
{
    let n = c as u32;
    if n >= 65 && n <= 90 { n + 32 } else { n }
}

pub fn chars_eq_ignore_ascii_case(a: &[char], b: &str) -> (r: bool)
    ensures
        r == eq_ignore_ascii_case(a@, b@),
{
    let w = chars_of(b);
    if a.len() != w.len() {
        return false;
    }
    let mut i: usize = 0;
    while i < a.len()
        invariant
            i <= a.len(),
            a.len() == w.len(),
            w@ == b@,
            forall|j: int| 0 <= j < i ==> ascii_fold(#[trigger] a@[j]) == ascii_fold(w@[j]),
        decreases a.len() - i,
    {
        if fold_char(a[i]) != fold_char(w[i]) {
            return false;
        }
        i = i + 1;
    }
    true
}

/// The revision asked for: none (HEAD) for a blank text or `head` in any
/// case, else the number written, if it is one.
pub open spec fn revision_spec(revision: Seq<char>) -> Option<nat> {
    let t = trim(revision);
    if t.len() == 0 || eq_ignore_ascii_case(t, "head"@) { None } else { parse_u64_spec(t) }
}

pub fn parse_revision(revision: &str) -> (r: Option<u64>)
    ensures
        match r {
            Some(n) => revision_spec(revision@) == Some(n as nat),
            None => revision_spec(revision@) is None,
        },
{
    let v = chars_of(revision);
    let t = trim_vec(v.as_slice());
    if t.len() == 0 || chars_eq_ignore_ascii_case(t.as_slice(), "head") {
        return None;
    }
    let s = string_of(t.as_slice());
    parse_u64(s.as_str())
}

// ───────────────────────── WebDAV ─────────────────────────

pub open spec fn propfind_body_spec() -> Seq<char> {
    "<?xml version=\"1.0\" encoding=\"utf-8\"?>\n<D:propfind xmlns:D=\"DAV:\" xmlns:S=\"svn:\">\n  <D:prop>\n    <D:resourcetype/>\n    <D:getcontentlength/>\n    <S:version-name/>\n  </D:prop>\n</D:propfind>"@
}

/// The body of the PROPFIND request that lists a directory: resource type,
/// content length and version name of each entry.
pub fn propfind_body() -> (r: &'static str)
    ensures
        r@ == propfind_body_spec(),
{
    "<?xml version=\"1.0\" encoding=\"utf-8\"?>\n<D:propfind xmlns:D=\"DAV:\" xmlns:S=\"svn:\">\n  <D:prop>\n    <D:resourcetype/>\n    <D:getcontentlength/>\n    <S:version-name/>\n  </D:prop>\n</D:propfind>"
}

/// The number after the first occurrence of `needle` and before the next
/// `<`, trimmed, if there is one.
pub open spec fn version_after(xml: Seq<char>, needle: Seq<char>) -> Option<nat> {
    match find(xml, needle) {
        None => None,
        Some(pos) => number_before_lt(xml.skip(pos + needle.len())),
    }
}

/// The number before the first `<`, trimmed, if there is one.
pub open spec fn number_before_lt(rest: Seq<char>) -> Option<nat> {
    match find(rest, "<"@) {
        None => None,
        Some(end) => parse_u64_spec(trim(rest.take(end))),
    }
}

fn number_before_lt_exec(rest: &[char]) -> (r: Option<u64>)
    ensures
        match r {
            Some(n) => number_before_lt(rest@) == Some(n as nat),
            None => number_before_lt(rest@) is None,
        },
{
    let end = match find_str(rest, "<") {
        Some(e) => e,
        None => return None,
    };
    assert(end <= rest.len()) by {
        assert(crate::text::occurs_at(rest@, "<"@, end as int));
    }
    let head = sub_vec(rest, 0, end);
    assert(head@ =~= rest@.take(end as int));
    let t = trim_vec(head.as_slice());
    let s = string_of(t.as_slice());
    parse_u64(s.as_str())
}

/// The version name in a PROPFIND answer: after `version-name>`, else after
/// `S:version-name>`.
pub open spec fn propfind_version_spec(xml: Seq<char>) -> Option<nat> {
    match version_after(xml, "version-name>"@) {
        Some(n) => Some(n),
        None => version_after(xml, "S:version-name>"@),
    }
}

fn version_after_exec(v: &[char], needle: &str) -> (r: Option<u64>)
    ensures
        match r {
            Some(n) => version_after(v@, needle@) == Some(n as nat),
            None => version_after(v@, needle@) is None,
        },
{
    let pos = match find_str(v, needle) {
        Some(p) => p,
        None => return None,
    };
    let nv = chars_of(needle);
    let nl = nv.len();
    assert(nl == needle@.len());
    assert(pos + nl <= v.len());
    let rest = sub_vec(v, pos + nl, v.len());
    assert(rest@ =~= v@.skip(pos + needle@.len()));
    assert(version_after(v@, needle@) == number_before_lt(rest@));
    number_before_lt_exec(rest.as_slice())
}

pub fn parse_version_from_propfind(xml: &str) -> (r: Option<u64>)
    ensures
        match r {
            Some(n) => propfind_version_spec(xml@) == Some(n as nat),
            None => propfind_version_spec(xml@) is None,
        },
{
    let v = chars_of(xml);
    match version_after_exec(v.as_slice(), "version-name>") {
        Some(n) => Some(n),
        None => version_after_exec(v.as_slice(), "S:version-name>"),
    }
}

/// `s` without trailing `c`.
pub open spec fn trim_end_char(s: Seq<char>, c: char) -> Seq<char>
    decreases s.len(),
{
    if s.len() > 0 && s.last() == c { trim_end_char(s.drop_last(), c) } else { s }
}

/// `s` without leading `c`.
pub open spec fn trim_start_char(s: Seq<char>, c: char) -> Seq<char>
    decreases s.len(),
{
    if s.len() > 0 && s[0] == c { trim_start_char(s.drop_first(), c) } else { s }
}

fn trim_end_char_vec(v: &[char], c: char) -> (r: Vec<char>)
    ensures
        r@ == trim_end_char(v@, c),
{
    let mut b = v.len();
    assert(v@.take(b as int) =~= v@);
    while b > 0 && v[b - 1] == c
        invariant
            b <= v.len(),
            trim_end_char(v@.take(b as int), c) == trim_end_char(v@, c),
        decreases b,
    {
        assert(v@.take(b as int).drop_last() =~= v@.take(b - 1));
        b = b - 1;
    }
    let r = sub_vec(v, 0, b);
    assert(r@ =~= v@.take(b as int));
    r
}

fn trim_start_char_vec(v: &[char], c: char) -> (r: Vec<char>)
    ensures
        r@ == trim_start_char(v@, c),
{
    let mut a: usize = 0;
    assert(v@.skip(0) =~= v@);
    while a < v.len() && v[a] == c
        invariant
            a <= v.len(),
            trim_start_char(v@.skip(a as int), c) == trim_start_char(v@, c),
        decreases v.len() - a,
    {
        assert(v@.skip(a as int).drop_first() =~= v@.skip(a + 1));
        a = a + 1;
    }
    let r = sub_vec(v, a, v.len());
    assert(r@ =~= v@.skip(a as int));
    r
}

pub fn trim_end_char_pub(v: &[char], c: char) -> (r: Vec<char>)
    ensures
        r@ == trim_end_char(v@, c),
{
    trim_end_char_vec(v, c)
}

pub fn trim_start_char_pub(v: &[char], c: char) -> (r: Vec<char>)
    ensures
        r@ == trim_start_char(v@, c),
{
    trim_start_char_vec(v, c)
}

/// The last `/`-separated piece of `s`.
pub open spec fn last_piece(s: Seq<char>) -> Seq<char> {
    split_char(s, '/').last()
}

fn last_piece_vec(v: &[char]) -> (r: String)
    ensures
        r@ == last_piece(v@),
{
    let parts = crate::text::split_char_vec(v, '/');
    proof { crate::text::lemma_split_char_len(v@, '/'); }
    string_of(parts[parts.len() - 1].as_slice())
}

/// The name of a listed entry: its href without trailing `/`, the base path
/// and leading `/` taken off when it starts with the base path, then its
/// last `/`-separated piece.
pub open spec fn href_name_spec(href: Seq<char>, base_path: Seq<char>) -> Seq<char> {
    let p = trim_end_char(href, '/');
    if starts_with(p, base_path) {
        last_piece(trim_start_char(p.skip(base_path.len() as int), '/'))
    } else {
        last_piece(p)
    }
}

pub fn href_to_name(href: &str, base_path: &str) -> (r: String)
    ensures
        r@ == href_name_spec(href@, base_path@),
{
    let hv = chars_of(href);
    let p = trim_end_char_vec(hv.as_slice(), '/');
    match strip_prefix_vec(p.as_slice(), base_path) {
        Some(rest) => {
            let t = trim_start_char_vec(rest.as_slice(), '/');
            last_piece_vec(t.as_slice())
        },
        None => last_piece_vec(p.as_slice()),
    }
}

/// One entry of a WebDAV listing.
pub struct DavEntry {
    pub name: String,
    pub is_dir: bool,
    pub is_file: bool,
}

/// What is done with a listed entry.
pub enum DavAction {
    /// Export the subdirectory `sub` (relative to the base URL) into the local
    /// directory `local_name`.
    Descend { sub: String, local_name: String },
    /// Download `url` into the local file `local_name`.
    Download { url: String, local_name: String },
    Skip,
}

/// The URL of the directory `subpath` below `base`.
pub open spec fn dav_dir_url_spec(base: Seq<char>, subpath: Seq<char>) -> Seq<char> {
    if subpath.len() == 0 { base } else { trim_end_char(base, '/') + "/"@ + trim_start_char(subpath, '/') }
}

pub fn dav_dir_url(base: &str, subpath: &str) -> (r: String)
    ensures
        r@ == dav_dir_url_spec(base@, subpath@),
{
    if chars_of(subpath).len() == 0 {
        return base.to_string();
    }
    let b = trim_end_char_vec(chars_of(base).as_slice(), '/');
    let s = trim_start_char_vec(chars_of(subpath).as_slice(), '/');
    let mut out = string_of(b.as_slice());
    push_str(&mut out, "/");
    let ss = string_of(s.as_slice());
    push_str(&mut out, ss.as_str());
    out
}

/// What a listed entry becomes while exporting `subpath` of `base` at
/// revision `rev`: a directory (named without trailing `/`, not empty or `.`)
/// is descended into; a file with a name is downloaded from its URL with
/// `?p=rev`; anything else is skipped.
pub open spec fn dav_action_spec(name: Seq<char>, is_dir: bool, is_file: bool, base: Seq<char>, subpath: Seq<char>, rev: Seq<char>)
    -> (Option<(Seq<char>, Seq<char>)>, Option<(Seq<char>, Seq<char>)>)
{
    if is_dir {
        let n = trim_end_char(name, '/');
        if n.len() == 0 || n == "."@ {
            (None, None)
        } else {
            let sub = if subpath.len() == 0 { n } else { trim_end_char(subpath, '/') + "/"@ + n };
            (Some((sub, n)), None)
        }
    } else if is_file {
        if name.len() == 0 {
            (None, None)
        } else {
            let url = if subpath.len() == 0 {
                trim_end_char(base, '/') + "/"@ + name + "?p="@ + rev
            } else {
                trim_end_char(base, '/') + "/"@ + trim_start_char(subpath, '/') + "/"@ + name + "?p="@ + rev
            };
            (None, Some((url, name)))
        }
    } else {
        (None, None)
    }
}

pub open spec fn dav_action_view(a: DavAction) -> (Option<(Seq<char>, Seq<char>)>, Option<(Seq<char>, Seq<char>)>) {
    match a {
        DavAction::Descend { sub, local_name } => (Some((sub@, local_name@)), None),
        DavAction::Download { url, local_name } => (None, Some((url@, local_name@))),
        DavAction::Skip => (None, None),
    }
}

pub fn dav_entry_action(entry: &DavEntry, base: &str, subpath: &str, rev: u64) -> (r: DavAction)
    ensures
        dav_action_view(r) == dav_action_spec(entry.name@, entry.is_dir, entry.is_file, base@, subpath@,
            crate::text::decimal(rev as nat)),
{
    let rev_text = crate::text::decimal_string(rev);
    let sub_empty = chars_of(subpath).len() == 0;
    if entry.is_dir {
        let n = trim_end_char_vec(chars_of(entry.name.as_str()).as_slice(), '/');
        if n.len() == 0 || crate::lang::str_eq(n.as_slice(), ".") {
            return DavAction::Skip;
        }
        let ns = string_of(n.as_slice());
        let sub = if sub_empty {
            ns.clone()
        } else {
            let sp = trim_end_char_vec(chars_of(subpath).as_slice(), '/');
            let mut s = string_of(sp.as_slice());
            push_str(&mut s, "/");
            push_str(&mut s, ns.as_str());
            s
        };
        DavAction::Descend { sub, local_name: ns }
    } else if entry.is_file {
        if chars_of(entry.name.as_str()).len() == 0 {
            return DavAction::Skip;
        }
        let b = trim_end_char_vec(chars_of(base).as_slice(), '/');
        let mut url = string_of(b.as_slice());
        push_str(&mut url, "/");
        if !sub_empty {
            let sp = trim_start_char_vec(chars_of(subpath).as_slice(), '/');
            let sps = string_of(sp.as_slice());
            push_str(&mut url, sps.as_str());
            push_str(&mut url, "/");
        }
        push_str(&mut url, entry.name.as_str());
        push_str(&mut url, "?p=");
        push_str(&mut url, rev_text.as_str());
        DavAction::Download { url, local_name: entry.name.clone() }
    } else {
        DavAction::Skip
    }
}

// ───────────────────────── clients ─────────────────────────

/// How an SVN tree is exported.
#[derive(PartialEq, Eq, Structural)]
pub enum SvnClientKind {
    /// WebDAV over HTTP(S).
    Http,
    /// The `svn://` protocol (also tunnelled: `svn+ssh://` and other `svn+`).
    RaSvn,
}

pub open spec fn svn_empty_url_text() -> Seq<char> {
    "SVN URL is empty"@
}

/// The client an SVN URL needs, by its trimmed text's lower-case scheme; an
/// error for a blank URL or another scheme.
pub open spec fn svn_client_spec(url: Seq<char>) -> Result<SvnClientKind, Seq<char>> {
    let u = trim(url);
    let lower = lowercase(u);
    if u.len() == 0 {
        Err(svn_empty_url_text())
    } else if starts_with(lower, "http://"@) || starts_with(lower, "https://"@) {
        Ok(SvnClientKind::Http)
    } else if starts_with(lower, "svn://"@) || starts_with(lower, "svn+ssh://"@) || starts_with(lower, "svn+"@) {
        Ok(SvnClientKind::RaSvn)
    } else {
        Err("unsupported SVN URL scheme: "@ + u)
    }
}

pub fn svn_client_for_url(url: &str) -> (r: Result<SvnClientKind, String>)
    ensures
        match r {
            Ok(k) => svn_client_spec(url@) == Ok::<SvnClientKind, Seq<char>>(k),
            Err(e) => svn_client_spec(url@) == Err::<SvnClientKind, Seq<char>>(e@),
        },
{
    let t = crate::text::trim_string(url);
    if chars_of(t.as_str()).len() == 0 {
        return Err("SVN URL is empty".to_string());
    }
    let lower = to_lowercase(t.as_str());
    let l = lower.as_str();
    if crate::text::str_starts_with(l, "http://") || crate::text::str_starts_with(l, "https://") {
        Ok(SvnClientKind::Http)
    } else if crate::text::str_starts_with(l, "svn://") || crate::text::str_starts_with(l, "svn+ssh://")
        || crate::text::str_starts_with(l, "svn+") {
        Ok(SvnClientKind::RaSvn)
    } else {
        let mut msg = "unsupported SVN URL scheme: ".to_string();
        push_str(&mut msg, t.as_str());
        proof { reveal_strlit("unsupported SVN URL scheme: "); }
        Err(msg)
    }
}

pub open spec fn git_empty_url_text() -> Seq<char> {
    "Git URL is empty"@
}

/// The checks before a Git clone: the trimmed URL (an error when blank), and
/// the trimmed ref to check out (none when blank).
pub open spec fn git_clone_spec(url: Seq<char>, git_ref: Seq<char>) -> Result<(Seq<char>, Option<Seq<char>>), Seq<char>> {
    if trim(url).len() == 0 {
        Err(git_empty_url_text())
    } else {
        Ok((trim(url), if trim(git_ref).len() == 0 { None } else { Some(trim(git_ref)) }))
    }
}

pub fn git_clone_plan(url: &str, git_ref: &str) -> (r: Result<(String, Option<String>), String>)
    ensures
        match r {
            Ok((u, g)) => git_clone_spec(url@, git_ref@) == Ok::<(Seq<char>, Option<Seq<char>>), Seq<char>>((u@, match g {
                Some(x) => Some(x@),
                None => None,
            })),
            Err(e) => git_clone_spec(url@, git_ref@) == Err::<(Seq<char>, Option<Seq<char>>), Seq<char>>(e@),
        },
{
    let u = crate::text::trim_string(url);
    if chars_of(u.as_str()).len() == 0 {
        return Err("Git URL is empty".to_string());
    }
    let g = crate::text::trim_string(git_ref);
    if chars_of(g.as_str()).len() == 0 {
        Ok((u, None))
    } else {
        Ok((u, Some(g)))
    }
}

} // verus!
