//! Character-level string primitives shared by the whole library.
//!
//! Every operation works on the `Seq<char>` view of `str`/`String` and is
//! specified by a spec function over that view.
use vstd::prelude::*;

verus! {

// ───────────────────────── specification ─────────────────────────

/// Unicode `White_Space` (what `char::is_whitespace` tests).
pub open spec fn is_white_space(c: char) -> bool {
    ||| ('\u{9}' <= c && c <= '\u{d}')
    ||| c == ' '
    ||| c == '\u{85}'
    ||| c == '\u{a0}'
    ||| c == '\u{1680}'
    ||| ('\u{2000}' <= c && c <= '\u{200a}')
    ||| c == '\u{2028}'
    ||| c == '\u{2029}'
    ||| c == '\u{202f}'
    ||| c == '\u{205f}'
    ||| c == '\u{3000}'
}

/// Unicode general category `Cc` (what `char::is_control` tests).
pub open spec fn is_control(c: char) -> bool {
    c <= '\u{1f}' || ('\u{7f}' <= c && c <= '\u{9f}')
}

pub open spec fn is_ascii_digit(c: char) -> bool {
    '0' <= c && c <= '9'
}

pub open spec fn trim_start(s: Seq<char>) -> Seq<char>
    decreases s.len(),
{
    if s.len() > 0 && is_white_space(s[0]) {
        trim_start(s.drop_first())
    } else {
        s
    }
}

pub open spec fn trim_end(s: Seq<char>) -> Seq<char>
    decreases s.len(),
{
    if s.len() > 0 && is_white_space(s.last()) {
        trim_end(s.drop_last())
    } else {
        s
    }
}

/// `str::trim`.
pub open spec fn trim(s: Seq<char>) -> Seq<char> {
    trim_end(trim_start(s))
}

pub open spec fn starts_with(s: Seq<char>, p: Seq<char>) -> bool {
    p.len() <= s.len() && s.take(p.len() as int) == p
}

pub open spec fn ends_with(s: Seq<char>, p: Seq<char>) -> bool {
    p.len() <= s.len() && s.skip(s.len() - p.len()) == p
}

/// `p` occurs in `s` at character position `i`.
pub open spec fn occurs_at(s: Seq<char>, p: Seq<char>, i: int) -> bool {
    0 <= i && i + p.len() <= s.len() && s.subrange(i, i + p.len()) == p
}

pub open spec fn contains(s: Seq<char>, p: Seq<char>) -> bool {
    exists|i: int| occurs_at(s, p, i)
}

/// First character position at which `p` occurs in `s` (`str::find`, counted in chars).
pub open spec fn find(s: Seq<char>, p: Seq<char>) -> Option<int> {
    if contains(s, p) {
        Some(choose|i: int| occurs_at(s, p, i) && forall|j: int| 0 <= j < i ==> !occurs_at(s, p, j))
    } else {
        None
    }
}

pub open spec fn contains_char(s: Seq<char>, c: char) -> bool {
    exists|i: int| 0 <= i < s.len() && s[i] == c
}

/// Position of the first `c` in `s`.
pub open spec fn index_of(s: Seq<char>, c: char) -> Option<int>
    decreases s.len(),
{
    if s.len() == 0 {
        None
    } else if s[0] == c {
        Some(0)
    } else {
        match index_of(s.drop_first(), c) {
            Some(i) => Some(i + 1),
            None => None,
        }
    }
}

/// Decimal digits of `n` (what `{}` prints for an unsigned integer).
pub open spec fn decimal(n: nat) -> Seq<char>
    decreases n,
{
    if n < 10 {
        seq![digit_char(n)]
    } else {
        decimal(n / 10).push(digit_char(n % 10))
    }
}

pub open spec fn digit_char(d: nat) -> char {
    if d == 0 { '0' }
    else if d == 1 { '1' }
    else if d == 2 { '2' }
    else if d == 3 { '3' }
    else if d == 4 { '4' }
    else if d == 5 { '5' }
    else if d == 6 { '6' }
    else if d == 7 { '7' }
    else if d == 8 { '8' }
    else { '9' }
}

/// What `{}` prints for a `bool`.
pub open spec fn bool_text(b: bool) -> Seq<char> {
    if b { "true"@ } else { "false"@ }
}

/// Pieces of `s` between occurrences of `c` (`str::split(c)`): always at least one piece.
pub open spec fn split_char(s: Seq<char>, c: char) -> Seq<Seq<char>>
    decreases s.len(),
{
    if s.len() == 0 {
        seq![Seq::<char>::empty()]
    } else {
        let rest = split_char(s.drop_last(), c);
        if s.last() == c {
            rest.push(Seq::<char>::empty())
        } else {
            rest.update(rest.len() - 1, rest.last().push(s.last()))
        }
    }
}

/// Concatenation of `parts` with `sep` between neighbours (`[T]::join`).
pub open spec fn join(parts: Seq<Seq<char>>, sep: Seq<char>) -> Seq<char>
    decreases parts.len(),
{
    if parts.len() == 0 {
        Seq::empty()
    } else if parts.len() == 1 {
        parts[0]
    } else {
        join(parts.drop_last(), sep) + sep + parts.last()
    }
}

/// `s` with every `c` replaced by `r` (`str::replace` with a one-char pattern).
pub open spec fn replace_char(s: Seq<char>, c: char, r: Seq<char>) -> Seq<char>
    decreases s.len(),
{
    if s.len() == 0 {
        s
    } else {
        replace_char(s.drop_last(), c, r) + (if s.last() == c { r } else { seq![s.last()] })
    }
}

/// Replacing characters by a text without `d` adds no `d`.
pub proof fn lemma_replace_char_keeps_free(s: Seq<char>, c: char, r: Seq<char>, d: char)
    requires
        !s.contains(d),
        !r.contains(d),
    ensures
        !replace_char(s, c, r).contains(d),
    decreases s.len(),
{
    if s.len() > 0 {
        assert(!s.drop_last().contains(d)) by {
            assert forall|k: int| 0 <= k < s.drop_last().len() implies s.drop_last()[k] != d by {
                assert(s.drop_last()[k] == s[k]);
            }
        }
        lemma_replace_char_keeps_free(s.drop_last(), c, r, d);
        let b: Seq<char> = if s.last() == c { r } else { seq![s.last()] };
        assert(s.last() == s[s.len() - 1]);
        assert(!b.contains(d)) by {
            if s.last() != c {
                assert forall|k: int| 0 <= k < b.len() implies b[k] != d by {}
            }
        }
        lemma_concat_free(replace_char(s.drop_last(), c, r), b, d);
    }
}

/// Two texts without `c` joined hold no `c`.
pub proof fn lemma_concat_free(a: Seq<char>, b: Seq<char>, c: char)
    requires
        !a.contains(c),
        !b.contains(c),
    ensures
        !(a + b).contains(c),
{
    assert forall|k: int| 0 <= k < (a + b).len() implies (a + b)[k] != c by {
        if k < a.len() {
            assert((a + b)[k] == a[k]);
        } else {
            assert((a + b)[k] == b[k - a.len()]);
        }
    }
}

/// A number written in decimal holds no line break.
pub proof fn lemma_decimal_one_line(n: nat)
    ensures
        !decimal(n).contains('\n'),
    decreases n,
{
    if n >= 10 {
        lemma_decimal_one_line(n / 10);
        let d = decimal(n / 10);
        let e = d.push(digit_char(n % 10));
        assert forall|k: int| 0 <= k < e.len() implies #[trigger] e[k] != '\n' by {
            if k < d.len() {
                assert(e[k] == d[k]);
            }
        }
    } else {
        assert(decimal(n)[0] == digit_char(n));
    }
}

/// Replacing every `c` by a text without `c` leaves no `c`.
pub proof fn lemma_replace_char_removes(s: Seq<char>, c: char, r: Seq<char>)
    requires
        !r.contains(c),
    ensures
        !replace_char(s, c, r).contains(c),
    decreases s.len(),
{
    if s.len() > 0 {
        lemma_replace_char_removes(s.drop_last(), c, r);
        let a = replace_char(s.drop_last(), c, r);
        let b: Seq<char> = if s.last() == c { r } else { seq![s.last()] };
        assert forall|k: int| 0 <= k < (a + b).len() implies (a + b)[k] != c by {
            if k < a.len() {
                assert((a + b)[k] == a[k]);
            } else {
                assert((a + b)[k] == b[k - a.len()]);
            }
        }
    }
}

/// The character views of a sequence of string slices.
pub open spec fn str_views<'a>(v: Seq<&'a str>) -> Seq<Seq<char>> {
    Seq::new(v.len(), |i: int| v[i]@)
}

/// The character views of a sequence of strings.
pub open spec fn string_views(v: Seq<String>) -> Seq<Seq<char>> {
    Seq::new(v.len(), |i: int| v[i]@)
}

/// Drops one trailing `'\r'`.
pub open spec fn strip_cr(s: Seq<char>) -> Seq<char> {
    if s.len() > 0 && s.last() == '\r' { s.drop_last() } else { s }
}

/// `str::lines`: split at `\n`, drop the `\r` of a `\r\n`, no empty piece after a final newline.
pub open spec fn lines(s: Seq<char>) -> Seq<Seq<char>> {
    let pieces = split_char(s, '\n');
    let k = pieces.len() - 1;
    let head = Seq::new(k as nat, |i: int| strip_cr(pieces[i]));
    if pieces.last().len() == 0 {
        head
    } else {
        head.push(pieces.last())
    }
}

// ───────────────────────── std calls ─────────────────────────

/// Names what `str::to_lowercase` returns (the Unicode lowercase mapping).
pub uninterp spec fn unicode_lowercase(s: Seq<char>) -> Seq<char>;

/// ASCII text without capital letters, which lower-casing leaves as it is.
pub open spec fn plain_lower_ascii(s: Seq<char>) -> bool {
    forall|i: int| 0 <= i < s.len() ==> (#[trigger] s[i]) < '\u{80}' && !('A' <= s[i] && s[i] <= 'Z')
}

/// ASCII text.
pub open spec fn ascii_text(s: Seq<char>) -> bool {
    forall|i: int| 0 <= i < s.len() ==> (#[trigger] s[i]) < '\u{80}'
}

/// The ASCII lowercase of one character: `A`..`Z` to `a`..`z`, others kept.
pub open spec fn ascii_lower_char(c: char) -> char {
    if 'A' <= c && c <= 'Z' { ((c as u32) + 32) as char } else { c }
}

/// The lowercase mapping: on ASCII text, `A`..`Z` to `a`..`z` and every
/// other character kept (the identity where there is no capital).
pub open spec fn lowercase(s: Seq<char>) -> Seq<char> {
    if plain_lower_ascii(s) {
        s
    } else if ascii_text(s) {
        s.map_values(|c: char| ascii_lower_char(c))
    } else {
        unicode_lowercase(s)
    }
}

/// Calls `str::to_lowercase`; the result is the Unicode lowercase mapping of
/// `s`, which on ASCII characters is the ASCII one (`A`..`Z` to `a`..`z`,
/// every other ASCII character kept).
#[verifier::external_body]
pub(crate) fn to_lowercase(s: &str) -> (r: String)
    ensures
        r@ == (if plain_lower_ascii(s@) {
            s@
        } else if ascii_text(s@) {
            s@.map_values(|c: char| ascii_lower_char(c))
        } else {
            unicode_lowercase(s@)
        }),
{
    s.to_lowercase()
}

/// Calls `String::push`: appends one character.
#[verifier::external_body]
pub fn push_char(s: &mut String, c: char)
    ensures
        final(s)@ == old(s)@.push(c),
{
    s.push(c);
}

/// Calls `String::push_str`: appends a string slice.
#[verifier::external_body]
pub fn push_str(s: &mut String, t: &str)
    ensures
        final(s)@ == old(s)@ + t@,
{
    s.push_str(t);
}

// ───────────────────────── exec ─────────────────────────

pub fn chars_of(s: &str) -> (v: Vec<char>)
    ensures
        v@ == s@,
{
    let mut v: Vec<char> = Vec::new();
    for c in it: s.chars()
        invariant
            v@ == it.seq().take(it.index() as int),
            it.seq() == s@,
    {
        v.push(c);
    }
    v
}

pub fn string_of(v: &[char]) -> (s: String)
    ensures
        s@ == v@,
{
    let mut s = String::new();
    let mut i: usize = 0;
    while i < v.len()
        invariant
            i <= v.len(),
            s@ == v@.take(i as int),
        decreases v.len() - i,
    {
        push_char(&mut s, v[i]);
        i = i + 1;
        assert(s@ == v@.take(i as int));
    }
    assert(v@.take(v.len() as int) == v@);
    s
}

pub fn is_white_space_char(c: char) -> (b: bool)
    ensures
        b == is_white_space(c),
{
    ('\u{9}' <= c && c <= '\u{d}') || c == ' ' || c == '\u{85}' || c == '\u{a0}' || c
        == '\u{1680}' || ('\u{2000}' <= c && c <= '\u{200a}') || c == '\u{2028}' || c
        == '\u{2029}' || c == '\u{202f}' || c == '\u{205f}' || c == '\u{3000}'
}

pub fn is_control_char(c: char) -> (b: bool)
    ensures
        b == is_control(c),
{
    c <= '\u{1f}' || ('\u{7f}' <= c && c <= '\u{9f}')
}

proof fn lemma_trim_start_skip(s: Seq<char>, i: int)
    requires
        0 <= i <= s.len(),
        forall|j: int| 0 <= j < i ==> is_white_space(#[trigger] s[j]),
    ensures
        trim_start(s) == trim_start(s.skip(i)),
    decreases i,
{
    if i > 0 {
        assert(s.skip(1) == s.drop_first());
        lemma_trim_start_skip(s.drop_first(), i - 1);
        assert(s.drop_first().skip(i - 1) == s.skip(i));
    } else {
        assert(s.skip(0) == s);
    }
}

proof fn lemma_trim_end_take(s: Seq<char>, i: int)
    requires
        0 <= i <= s.len(),
        forall|j: int| i <= j < s.len() ==> is_white_space(#[trigger] s[j]),
    ensures
        trim_end(s) == trim_end(s.take(i)),
    decreases s.len() - i,
{
    if i < s.len() {
        assert(s.take(s.len() - 1) == s.drop_last());
        lemma_trim_end_take(s.drop_last(), i);
        assert(s.drop_last().take(i) == s.take(i));
    } else {
        assert(s.take(i) == s);
    }
}

/// Bounds `(a, b)` such that `v[a..b]` is `v` trimmed.
pub fn trim_bounds(v: &[char]) -> (r: (usize, usize))
    ensures
        r.0 <= r.1 <= v.len(),
        v@.subrange(r.0 as int, r.1 as int) == trim(v@),
{
    let mut a: usize = 0;
    while a < v.len() && is_white_space_char(v[a])
        invariant
            a <= v.len(),
            forall|j: int| 0 <= j < a ==> is_white_space(#[trigger] v@[j]),
        decreases v.len() - a,
    {
        a = a + 1;
    }
    proof {
        lemma_trim_start_skip(v@, a as int);
        if a < v.len() {
            assert(!is_white_space(v@.skip(a as int)[0]));
        }
    }
    let ghost rest = v@.skip(a as int);
    assert(trim_start(v@) == rest);
    let mut b: usize = v.len();
    while b > a && is_white_space_char(v[b - 1])
        invariant
            a <= b <= v.len(),
            forall|j: int| b <= j < v.len() ==> is_white_space(#[trigger] v@[j]),
        decreases b,
    {
        b = b - 1;
    }
    proof {
        let t = b - a;
        assert forall|j: int| t <= j < rest.len() implies is_white_space(#[trigger] rest[j]) by {
            assert(rest[j] == v@[j + a]);
        }
        lemma_trim_end_take(rest, t as int);
        let r2 = rest.take(t as int);
        if t > 0 {
            assert(r2.last() == v@[b - 1]);
        }
        assert(r2 == v@.subrange(a as int, b as int));
    }
    (a, b)
}

/// `v[a..b]` as an owned string.
pub fn string_of_range(v: &[char], a: usize, b: usize) -> (out: String)
    requires
        a <= b <= v.len(),
    ensures
        out@ == v@.subrange(a as int, b as int),
{
    let mut out = String::new();
    let mut i: usize = a;
    while i < b
        invariant
            a <= i <= b <= v.len(),
            out@ == v@.subrange(a as int, i as int),
        decreases b - i,
    {
        push_char(&mut out, v[i]);
        i = i + 1;
        assert(out@ == v@.subrange(a as int, i as int));
    }
    out
}

/// `str::trim`, as an owned string.
pub fn trim_string(s: &str) -> (r: String)
    ensures
        r@ == trim(s@),
{
    let v = chars_of(s);
    let (a, b) = trim_bounds(&v);
    string_of_range(&v, a, b)
}

/// Whether `s` is empty after trimming (`s.trim().is_empty()`).
pub fn is_blank(s: &str) -> (b: bool)
    ensures
        b == (trim(s@).len() == 0),
{
    let v = chars_of(s);
    let (a, b) = trim_bounds(&v);
    a == b
}

pub fn starts_with_at(v: &[char], i: usize, p: &[char]) -> (b: bool)
    requires
        i <= v.len(),
    ensures
        b == starts_with(v@.skip(i as int), p@),
{
    if p.len() > v.len() - i {
        return false;
    }
    let mut k: usize = 0;
    while k < p.len()
        invariant
            k <= p.len(),
            p.len() <= v.len() - i,
            forall|j: int| 0 <= j < k ==> v@[i + j] == p@[j],
        decreases p.len() - k,
    {
        if v[i + k] != p[k] {
            assert(v@.skip(i as int).take(p.len() as int)[k as int] != p@[k as int]);
            return false;
        }
        k = k + 1;
    }
    assert(v@.skip(i as int).take(p.len() as int) =~= p@);
    true
}

pub fn starts_with_chars(v: &[char], p: &[char]) -> (b: bool)
    ensures
        b == starts_with(v@, p@),
{
    let b = starts_with_at(v, 0, p);
    assert(v@.skip(0) == v@);
    b
}

pub fn ends_with_chars(v: &[char], p: &[char]) -> (b: bool)
    ensures
        b == ends_with(v@, p@),
{
    if p.len() > v.len() {
        return false;
    }
    let b = starts_with_at(v, v.len() - p.len(), p);
    assert(v@.skip(v.len() - p.len()).take(p.len() as int) == v@.skip(v.len() - p.len()));
    b
}

pub fn str_starts_with(s: &str, p: &str) -> (b: bool)
    ensures
        b == starts_with(s@, p@),
{
    let v = chars_of(s);
    let w = chars_of(p);
    starts_with_chars(&v, &w)
}

pub fn str_ends_with(s: &str, p: &str) -> (b: bool)
    ensures
        b == ends_with(s@, p@),
{
    let v = chars_of(s);
    let w = chars_of(p);
    ends_with_chars(&v, &w)
}

proof fn lemma_occurs_at_start(s: Seq<char>, p: Seq<char>, i: int)
    requires
        0 <= i <= s.len(),
    ensures
        occurs_at(s, p, i) == starts_with(s.skip(i), p),
{
    if i + p.len() <= s.len() {
        assert(s.skip(i).take(p.len() as int) == s.subrange(i, i + p.len()));
    }
}

/// First character position of `p` in `v` (`str::find`, in chars).
pub fn find_chars(v: &[char], p: &[char]) -> (r: Option<usize>)
    ensures
        r == (match find(v@, p@) {
            Some(i) => Some(i as usize),
            None => None::<usize>,
        }),
        r matches Some(i) ==> occurs_at(v@, p@, i as int),
        r matches Some(i) ==> find(v@, p@) == Some(i as int),
{
    let mut i: usize = 0;
    loop
        invariant
            i <= v.len(),
            forall|j: int| 0 <= j < i ==> !occurs_at(v@, p@, j),
        ensures
            forall|j: int| 0 <= j <= v.len() ==> !occurs_at(v@, p@, j),
        decreases v.len() - i,
    {
        proof {
            lemma_occurs_at_start(v@, p@, i as int);
        }
        if starts_with_at(v, i, p) {
            assert(occurs_at(v@, p@, i as int));
            assert(contains(v@, p@));
            let ghost k = choose|k: int| occurs_at(v@, p@, k) && forall|j: int| 0 <= j < k ==> !occurs_at(v@, p@, j);
            assert(k == i as int) by {
                if k < i as int {
                    assert(!occurs_at(v@, p@, k));
                } else if k > i as int {
                    assert(!occurs_at(v@, p@, i as int));
                }
            }
            return Some(i);
        }
        if i == v.len() {
            break;
        }
        i = i + 1;
    }
    assert(!contains(v@, p@)) by {
        if contains(v@, p@) {
            let k = choose|k: int| occurs_at(v@, p@, k);
            assert(k <= v.len());
            assert(!occurs_at(v@, p@, k));
        }
    }
    None
}

pub fn contains_chars(v: &[char], p: &[char]) -> (b: bool)
    ensures
        b == contains(v@, p@),
{
    let r = find_chars(v, p);
    match r {
        Some(_) => true,
        None => false,
    }
}

pub fn str_contains(s: &str, p: &str) -> (b: bool)
    ensures
        b == contains(s@, p@),
{
    let v = chars_of(s);
    let w = chars_of(p);
    contains_chars(&v, &w)
}

pub fn str_contains_char(s: &str, c: char) -> (b: bool)
    ensures
        b == contains_char(s@, c),
{
    let v = chars_of(s);
    let mut i: usize = 0;
    while i < v.len()
        invariant
            i <= v.len(),
            v@ == s@,
            forall|j: int| 0 <= j < i ==> v@[j] != c,
        decreases v.len() - i,
    {
        if v[i] == c {
            return true;
        }
        i = i + 1;
    }
    false
}

pub fn index_of_char(v: &[char], c: char) -> (r: Option<usize>)
    ensures
        r == (match index_of(v@, c) {
            Some(i) => Some(i as usize),
            None => None::<usize>,
        }),
        r matches Some(i) ==> i < v.len() && v@[i as int] == c,
        r is None ==> !contains_char(v@, c),
{
    let mut i: usize = 0;
    assert(v@.skip(0) == v@);
    while i < v.len()
        invariant
            i <= v.len(),
            forall|j: int| 0 <= j < i ==> v@[j] != c,
            index_of(v@, c) == (match index_of(v@.skip(i as int), c) {
                Some(k) => Some(k + i),
                None => None,
            }),
        decreases v.len() - i,
    {
        assert(v@.skip(i as int).drop_first() == v@.skip(i + 1));
        if v[i] == c {
            return Some(i);
        }
        i = i + 1;
    }
    None
}

/// Decimal text of `n`, appended to `s`.
pub fn push_decimal(s: &mut String, n: u64)
    ensures
        final(s)@ == old(s)@ + decimal(n as nat),
    decreases n,
{
    if n >= 10 {
        push_decimal(s, n / 10);
    }
    let d = n % 10;
    let c = if d == 0 { '0' }
    else if d == 1 { '1' }
    else if d == 2 { '2' }
    else if d == 3 { '3' }
    else if d == 4 { '4' }
    else if d == 5 { '5' }
    else if d == 6 { '6' }
    else if d == 7 { '7' }
    else if d == 8 { '8' }
    else { '9' };
    push_char(s, c);
}

/// `n.to_string()` for an unsigned integer.
pub fn decimal_string(n: u64) -> (r: String)
    ensures
        r@ == decimal(n as nat),
{
    let mut s = String::new();
    push_decimal(&mut s, n);
    s
}

/// `usize::to_string`.
pub fn usize_string(n: usize) -> (r: String)
    ensures
        r@ == decimal(n as nat),
{
    decimal_string(n as u64)
}

pub fn push_bool(s: &mut String, b: bool)
    ensures
        final(s)@ == old(s)@ + bool_text(b),
{
    if b {
        push_str(s, "true");
    } else {
        push_str(s, "false");
    }
}

/// `s.replace(c, r)` for a one-char pattern.
pub fn replace_char_string(s: &str, c: char, r: &str) -> (out: String)
    ensures
        out@ == replace_char(s@, c, r@),
{
    let v = chars_of(s);
    let mut out = String::new();
    let mut i: usize = 0;
    while i < v.len()
        invariant
            i <= v.len(),
            v@ == s@,
            out@ == replace_char(v@.take(i as int), c, r@),
        decreases v.len() - i,
    {
        assert(v@.take(i + 1).drop_last() == v@.take(i as int));
        if v[i] == c {
            push_str(&mut out, r);
        } else {
            push_char(&mut out, v[i]);
        }
        i = i + 1;
    }
    assert(v@.take(v.len() as int) == v@);
    out
}

/// Splits `v` at every `c` (`str::split(c)`), as character vectors.
pub fn split_char_vec(v: &[char], c: char) -> (r: Vec<Vec<char>>)
    ensures
        r@.len() == split_char(v@, c).len(),
        forall|i: int| 0 <= i < r@.len() ==> (#[trigger] r@[i])@ == split_char(v@, c)[i],
{
    let mut r: Vec<Vec<char>> = Vec::new();
    r.push(Vec::new());
    let mut i: usize = 0;
    assert(v@.take(0) == Seq::<char>::empty());
    while i < v.len()
        invariant
            i <= v.len(),
            r@.len() == split_char(v@.take(i as int), c).len(),
            r@.len() >= 1,
            forall|k: int| 0 <= k < r@.len() ==> (#[trigger] r@[k])@ == split_char(v@.take(i as int), c)[k],
        decreases v.len() - i,
    {
        let ghost old_r = r@;
        assert(v@.take(i + 1).drop_last() == v@.take(i as int));
        assert(v@.take(i + 1).last() == v@[i as int]);
        if v[i] == c {
            r.push(Vec::new());
        } else {
            let last = r.len() - 1;
            let mut piece = r.pop().unwrap();
            piece.push(v[i]);
            r.push(piece);
            assert forall|k: int| 0 <= k < r@.len() implies (#[trigger] r@[k])@ == split_char(v@.take(i + 1), c)[k] by {
                if k < last {
                    assert(r@[k] == old_r[k]);
                }
            }
        }
        i = i + 1;
    }
    assert(v@.take(v.len() as int) == v@);
    r
}


// ───────────────────────── unsigned integer parsing ─────────────────────────

pub open spec fn digit_value(c: char) -> nat {
    (c as int - '0' as int) as nat
}

pub open spec fn all_digits(d: Seq<char>) -> bool {
    forall|i: int| 0 <= i < d.len() ==> is_ascii_digit(#[trigger] d[i])
}

/// The number written by the decimal digits `d`.
pub open spec fn digits_value(d: Seq<char>) -> nat
    decreases d.len(),
{
    if d.len() == 0 {
        0
    } else {
        digits_value(d.drop_last()) * 10 + digit_value(d.last())
    }
}

/// The digits of an unsigned integer literal: an optional leading `+` is dropped.
pub open spec fn unsigned_digits(s: Seq<char>) -> Seq<char> {
    if s.len() > 0 && s[0] == '+' { s.drop_first() } else { s }
}

/// What `s.parse::<usize>()` accepts: an optional `+`, then one or more ASCII
/// digits whose value fits in `usize`.
pub open spec fn parse_usize_spec(s: Seq<char>) -> Option<nat> {
    let d = unsigned_digits(s);
    if d.len() > 0 && all_digits(d) && digits_value(d) <= usize::MAX {
        Some(digits_value(d))
    } else {
        None
    }
}

proof fn lemma_digits_value_prefix(d: Seq<char>, j: int)
    requires
        0 <= j <= d.len(),
        all_digits(d),
    ensures
        digits_value(d.take(j)) <= digits_value(d),
    decreases d.len(),
{
    if j < d.len() {
        assert(all_digits(d.drop_last()));
        lemma_digits_value_prefix(d.drop_last(), j);
        assert(d.drop_last().take(j) == d.take(j));
    } else {
        assert(d.take(j) == d);
    }
}

/// `s.parse::<usize>()`, with `None` for every input that it rejects.
pub fn parse_usize(s: &str) -> (r: Option<usize>)
    ensures
        match r {
            Some(n) => parse_usize_spec(s@) == Some(n as nat),
            None => parse_usize_spec(s@) is None,
        },
{
    let v = chars_of(s);
    let start: usize = if v.len() > 0 && v[0] == '+' { 1 } else { 0 };
    let ghost d = unsigned_digits(s@);
    assert(d == v@.skip(start as int));
    if start == v.len() {
        return None;
    }
    let mut acc: usize = 0;
    let mut i: usize = start;
    assert(d.take(0) == Seq::<char>::empty());
    while i < v.len()
        invariant
            start <= i <= v.len(),
            v@ == s@,
            d == v@.skip(start as int),
            d == unsigned_digits(s@),
            forall|k: int| 0 <= k < i - start ==> is_ascii_digit(#[trigger] d[k]),
            acc as nat == digits_value(d.take(i - start)),
        decreases v.len() - i,
    {
        let c = v[i];
        assert(d[i - start] == c);
        if !(c >= '0' && c <= '9') {
            assert(!all_digits(d));
            return None;
        }
        let dv = (c as u32 - 48) as usize;
        assert(d.take(i + 1 - start).drop_last() == d.take(i - start));
        assert(d.take(i + 1 - start).last() == c);
        assert(dv as nat == digit_value(c));
        let step = acc.checked_mul(10);
        match step {
            None => {
                proof {
                    if all_digits(d) {
                        lemma_digits_value_prefix(d, i + 1 - start);
                    }
                }
                return None;
            },
            Some(m) => {
                match m.checked_add(dv) {
                    None => {
                        proof {
                            if all_digits(d) {
                                lemma_digits_value_prefix(d, i + 1 - start);
                            }
                        }
                        return None;
                    },
                    Some(n) => {
                        acc = n;
                    },
                }
            },
        }
        i = i + 1;
    }
    assert(d.take(v.len() - start) == d);
    Some(acc)
}


// ───────────────────────── joining ─────────────────────────

/// `parts.join(sep)` for string slices.
pub fn join_strs(parts: &[&str], sep: &str) -> (r: String)
    ensures
        r@ == join(str_views(parts@), sep@),
{
    let mut out = String::new();
    let mut i: usize = 0;
    proof { reveal_strlit(""); }
    while i < parts.len()
        invariant
            i <= parts.len(),
            out@ == join(str_views(parts@.take(i as int)), sep@),
        decreases parts.len() - i,
    {
        let ghost before = out@;
        if i > 0 {
            push_str(&mut out, sep);
        }
        push_str(&mut out, parts[i]);
        proof {
            let a = str_views(parts@.take(i + 1));
            assert(a.drop_last() =~= str_views(parts@.take(i as int)));
            assert(a.last() == parts@[i as int]@);
            if i == 0 {
                assert(a.len() == 1);
                assert(before =~= Seq::<char>::empty());
                assert(out@ =~= a[0]);
            }
        }
        i = i + 1;
    }
    assert(parts@.take(parts.len() as int) =~= parts@);
    out
}

/// `parts.join(sep)` for owned strings.
pub fn join_strings(parts: &[String], sep: &str) -> (r: String)
    ensures
        r@ == join(string_views(parts@), sep@),
{
    let mut out = String::new();
    let mut i: usize = 0;
    proof { reveal_strlit(""); }
    while i < parts.len()
        invariant
            i <= parts.len(),
            out@ == join(string_views(parts@.take(i as int)), sep@),
        decreases parts.len() - i,
    {
        let ghost before = out@;
        if i > 0 {
            push_str(&mut out, sep);
        }
        push_str(&mut out, parts[i].as_str());
        proof {
            let a = string_views(parts@.take(i + 1));
            assert(a.drop_last() =~= string_views(parts@.take(i as int)));
            assert(a.last() == parts@[i as int]@);
            if i == 0 {
                assert(a.len() == 1);
                assert(before =~= Seq::<char>::empty());
                assert(out@ =~= a[0]);
            }
        }
        i = i + 1;
    }
    assert(parts@.take(parts.len() as int) =~= parts@);
    out
}


pub proof fn lemma_split_char_len(s: Seq<char>, c: char)
    ensures
        split_char(s, c).len() >= 1,
    decreases s.len(),
{
    if s.len() > 0 {
        lemma_split_char_len(s.drop_last(), c);
    }
}

/// `s.lines()`, owned.
pub fn lines_vec(s: &str) -> (r: Vec<String>)
    ensures
        string_views(r@) == lines(s@),
{
    let v = chars_of(s);
    let pieces = split_char_vec(v.as_slice(), '\n');
    let ghost sp = split_char(s@, '\n');
    proof { lemma_split_char_len(s@, '\n'); }
    let k = pieces.len() - 1;
    let mut out: Vec<String> = Vec::new();
    let mut i: usize = 0;
    while i < k
        invariant
            i <= k,
            k + 1 == pieces@.len(),
            pieces@.len() == sp.len(),
            forall|q: int| 0 <= q < pieces@.len() ==> (#[trigger] pieces@[q])@ == sp[q],
            string_views(out@) == Seq::new(i as nat, |q: int| strip_cr(sp[q])),
        decreases k - i,
    {
        let p = &pieces[i];
        let n = p.len();
        let line = if n > 0 && p[n - 1] == '\r' {
            string_of_range(p.as_slice(), 0, n - 1)
        } else {
            string_of(p.as_slice())
        };
        proof {
            if n > 0 && p@[n - 1] == '\r' {
                assert(p@.subrange(0, n - 1) =~= p@.drop_last());
            }
        }
        assert(line@ == strip_cr(sp[i as int]));
        let ghost before = out@;
        out.push(line);
        assert(string_views(out@) =~= string_views(before).push(strip_cr(sp[i as int])));
        assert(string_views(out@) =~= Seq::new((i + 1) as nat, |q: int| strip_cr(sp[q])));
        i = i + 1;
    }
    let last = &pieces[k];
    assert(last@ == sp.last());
    if last.len() > 0 {
        let ghost before = out@;
        out.push(string_of(last.as_slice()));
        assert(string_views(out@) =~= string_views(before).push(sp.last()));
        assert(string_views(out@) =~= Seq::new(k as nat, |q: int| strip_cr(sp[q])).push(sp.last()));
    }
    out
}


// ───────────────────────── character vectors ─────────────────────────

/// `v[a..b]`, owned.
pub fn sub_vec(v: &[char], a: usize, b: usize) -> (r: Vec<char>)
    requires
        a <= b <= v.len(),
    ensures
        r@ == v@.subrange(a as int, b as int),
{
    let mut r: Vec<char> = Vec::new();
    let mut i = a;
    while i < b
        invariant
            a <= i <= b <= v.len(),
            r@ == v@.subrange(a as int, i as int),
        decreases b - i,
    {
        r.push(v[i]);
        assert(r@ =~= v@.subrange(a as int, i + 1));
        i = i + 1;
    }
    r
}

/// `v` trimmed, owned.
pub fn trim_vec(v: &[char]) -> (r: Vec<char>)
    ensures
        r@ == trim(v@),
{
    let (a, b) = trim_bounds(v);
    sub_vec(v, a, b)
}

/// `v` without leading whitespace, owned.
pub fn trim_start_vec(v: &[char]) -> (r: Vec<char>)
    ensures
        r@ == trim_start(v@),
{
    let mut a: usize = 0;
    while a < v.len() && is_white_space_char(v[a])
        invariant
            a <= v.len(),
            forall|j: int| 0 <= j < a ==> is_white_space(#[trigger] v@[j]),
        decreases v.len() - a,
    {
        a = a + 1;
    }
    proof {
        lemma_trim_start_skip(v@, a as int);
        if a < v.len() {
            assert(!is_white_space(v@.skip(a as int)[0]));
        }
        assert(v@.skip(a as int) =~= v@.subrange(a as int, v.len() as int));
    }
    sub_vec(v, a, v.len())
}

/// `v` without `p` at its start, if it starts with `p`.
pub fn strip_prefix_vec(v: &[char], p: &str) -> (r: Option<Vec<char>>)
    ensures
        match r {
            Some(x) => starts_with(v@, p@) && x@ == v@.skip(p@.len() as int),
            None => !starts_with(v@, p@),
        },
{
    let pv = chars_of(p);
    if starts_with_chars(v, pv.as_slice()) {
        let r = sub_vec(v, pv.len(), v.len());
        assert(r@ =~= v@.skip(p@.len() as int));
        Some(r)
    } else {
        None
    }
}

/// `v` without `p` at its end, if it ends with `p`.
pub fn strip_suffix_vec(v: &[char], p: &str) -> (r: Option<Vec<char>>)
    ensures
        match r {
            Some(x) => ends_with(v@, p@) && x@ == v@.take(v@.len() - p@.len()),
            None => !ends_with(v@, p@),
        },
{
    let pv = chars_of(p);
    if ends_with_chars(v, pv.as_slice()) {
        let r = sub_vec(v, 0, v.len() - pv.len());
        assert(r@ =~= v@.take(v@.len() - p@.len()));
        Some(r)
    } else {
        None
    }
}

/// Last character position at which `p` occurs in `s` (`str::rfind`, counted in chars).
pub open spec fn rfind(s: Seq<char>, p: Seq<char>) -> Option<int> {
    if contains(s, p) {
        Some(choose|i: int| occurs_at(s, p, i) && forall|j: int| i < j <= s.len() ==> !occurs_at(s, p, j))
    } else {
        None
    }
}

pub fn rfind_chars(v: &[char], p: &str) -> (r: Option<usize>)
    ensures
        match r {
            Some(i) => rfind(v@, p@) == Some(i as int) && occurs_at(v@, p@, i as int),
            None => rfind(v@, p@) is None,
        },
{
    let pv = chars_of(p);
    let mut i: usize = v.len();
    loop
        invariant
            i <= v.len(),
            pv@ == p@,
            forall|j: int| i < j <= v.len() ==> !occurs_at(v@, p@, j),
        ensures
            forall|j: int| 0 <= j <= v.len() ==> !occurs_at(v@, p@, j),
        decreases i,
    {
        proof {
            lemma_occurs_at_start(v@, p@, i as int);
        }
        if starts_with_at(v, i, pv.as_slice()) {
            assert(occurs_at(v@, p@, i as int));
            assert(contains(v@, p@));
            let ghost k = choose|k: int| occurs_at(v@, p@, k) && forall|j: int| k < j <= v@.len() ==> !occurs_at(v@, p@, j);
            assert(k == i as int) by {
                if k > i as int {
                    assert(!occurs_at(v@, p@, k));
                } else if k < i as int {
                    assert(!occurs_at(v@, p@, i as int));
                }
            }
            return Some(i);
        }
        if i == 0 {
            break;
        }
        i = i - 1;
    }
    assert(!contains(v@, p@)) by {
        if contains(v@, p@) {
            let k = choose|k: int| occurs_at(v@, p@, k);
            assert(!occurs_at(v@, p@, k));
        }
    }
    None
}

/// First position of a character satisfying `is_stop` among `c`'s characters.
pub fn find_str(v: &[char], p: &str) -> (r: Option<usize>)
    ensures
        match r {
            Some(i) => find(v@, p@) == Some(i as int) && occurs_at(v@, p@, i as int),
            None => find(v@, p@) is None,
        },
{
    let pv = chars_of(p);
    find_chars(v, pv.as_slice())
}

// ───────────────────────── words ─────────────────────────

/// The pieces of `s` between whitespace characters (empty pieces included).
pub open spec fn ws_pieces(s: Seq<char>) -> Seq<Seq<char>>
    decreases s.len(),
{
    if s.len() == 0 {
        seq![Seq::<char>::empty()]
    } else {
        let rest = ws_pieces(s.drop_last());
        if is_white_space(s.last()) {
            rest.push(Seq::<char>::empty())
        } else {
            rest.update(rest.len() - 1, rest.last().push(s.last()))
        }
    }
}

/// The non-empty elements of `v`, in order.
pub open spec fn nonempty(v: Seq<Seq<char>>) -> Seq<Seq<char>>
    decreases v.len(),
{
    if v.len() == 0 {
        Seq::empty()
    } else {
        let r = nonempty(v.drop_last());
        if v.last().len() > 0 { r.push(v.last()) } else { r }
    }
}

/// `str::split_whitespace`.
pub open spec fn words(s: Seq<char>) -> Seq<Seq<char>> {
    nonempty(ws_pieces(s))
}

proof fn lemma_ws_pieces_len(s: Seq<char>)
    ensures
        ws_pieces(s).len() >= 1,
    decreases s.len(),
{
    if s.len() > 0 {
        lemma_ws_pieces_len(s.drop_last());
    }
}

/// `s.split_whitespace()`, owned.
pub fn words_vec(s: &[char]) -> (r: Vec<String>)
    ensures
        string_views(r@) == words(s@),
{
    let mut out: Vec<String> = Vec::new();
    let mut cur: Vec<char> = Vec::new();
    let mut i: usize = 0;
    proof {
        assert(s@.take(0) =~= Seq::<char>::empty());
        assert(ws_pieces(Seq::<char>::empty()).drop_last() =~= Seq::<Seq<char>>::empty());
        assert(string_views(out@) =~= Seq::<Seq<char>>::empty());
    }
    while i < s.len()
        invariant
            i <= s.len(),
            ws_pieces(s@.take(i as int)).len() >= 1,
            string_views(out@) == nonempty(ws_pieces(s@.take(i as int)).drop_last()),
            cur@ == ws_pieces(s@.take(i as int)).last(),
        decreases s.len() - i,
    {
        let c = s[i];
        let ghost p = s@.take(i as int);
        let ghost wp = ws_pieces(p);
        assert(s@.take(i + 1).drop_last() =~= p);
        assert(s@.take(i + 1).last() == c);
        if is_white_space_char(c) {
            let ghost before = out@;
            if cur.len() > 0 {
                out.push(string_of(cur.as_slice()));
            }
            cur = Vec::new();
            proof {
                let np = ws_pieces(s@.take(i + 1));
                assert(np == wp.push(Seq::<char>::empty()));
                assert(np.drop_last() =~= wp);
                assert(wp.drop_last() =~= wp.take(wp.len() - 1));
                if wp.last().len() > 0 {
                    assert(string_views(out@) =~= string_views(before).push(wp.last()));
                }
                assert(nonempty(wp) == (if wp.last().len() > 0 { nonempty(wp.drop_last()).push(wp.last()) } else { nonempty(wp.drop_last()) }));
                assert(cur@ =~= Seq::<char>::empty());
            }
        } else {
            cur.push(c);
            proof {
                let np = ws_pieces(s@.take(i + 1));
                assert(np == wp.update(wp.len() - 1, wp.last().push(c)));
                assert(np.drop_last() =~= wp.drop_last());
            }
        }
        i = i + 1;
    }
    assert(s@.take(s.len() as int) =~= s@);
    let ghost wp = ws_pieces(s@);
    let ghost before = out@;
    if cur.len() > 0 {
        out.push(string_of(cur.as_slice()));
        assert(string_views(out@) =~= string_views(before).push(wp.last()));
    }
    out
}

// ───────────────────────── Unicode classes ─────────────────────────

/// Names what `char::is_alphabetic` returns (the Unicode `Alphabetic` property).
pub uninterp spec fn alphabetic(c: char) -> bool;

/// Names what `char::is_alphanumeric` returns (`Alphabetic` or `Numeric`).
pub uninterp spec fn alphanumeric(c: char) -> bool;

/// Names what `char::to_uppercase` yields, collected (the Unicode uppercase mapping).
pub uninterp spec fn uppercase_char(c: char) -> Seq<char>;

/// Calls `char::is_alphabetic`; for ASCII it holds exactly of the letters.
#[verifier::external_body]
pub fn is_alphabetic_char(c: char) -> (b: bool)
    ensures
        b == alphabetic(c),
        c <= '\u{7f}' ==> (b <==> (('a' <= c && c <= 'z') || ('A' <= c && c <= 'Z'))),
{
    c.is_alphabetic()
}

/// Calls `char::is_alphanumeric`; for ASCII it holds exactly of letters and digits.
#[verifier::external_body]
pub fn is_alphanumeric_char(c: char) -> (b: bool)
    ensures
        b == alphanumeric(c),
        c <= '\u{7f}' ==> (b <==> (('a' <= c && c <= 'z') || ('A' <= c && c <= 'Z') || ('0' <= c && c <= '9'))),
{
    c.is_alphanumeric()
}

/// Calls `char::to_uppercase` and collects it; an ASCII lower-case letter maps
/// to its upper-case letter, any other ASCII character to itself.
#[verifier::external_body]
pub fn to_uppercase_char(c: char) -> (r: String)
    ensures
        r@ == uppercase_char(c),
        'a' <= c && c <= 'z' ==> r@ == seq![((c as u32) - 32) as char],
{
    c.to_uppercase().collect::<String>()
}

/// Calls `String::from_utf8`: the text when the bytes are valid UTF-8.
#[verifier::external_body]
pub(crate) fn string_from_utf8(bytes: Vec<u8>) -> (r: Option<String>)
    ensures
        match r {
            Some(s) => vstd::utf8::encode_utf8(s@) == bytes@,
            None => !vstd::utf8::valid_utf8(bytes@),
        },
{
    String::from_utf8(bytes).ok()
}

/// Splitting at `c` after `c` and a piece without `c` were appended adds that piece.
pub proof fn lemma_split_char_append(x: Seq<char>, c: char, p: Seq<char>)
    requires
        !contains_char(p, c),
    ensures
        split_char(x + seq![c] + p, c) == split_char(x, c).push(p),
    decreases p.len(),
{
    let s = x + seq![c] + p;
    if p.len() == 0 {
        assert(s.drop_last() =~= x);
        assert(s.last() == c);
        assert(p =~= Seq::<char>::empty());
    } else {
        let q = p.drop_last();
        assert(!contains_char(q, c)) by {
            if contains_char(q, c) {
                let i = choose|i: int| 0 <= i < q.len() && q[i] == c;
                assert(p[i] == c);
            }
        }
        lemma_split_char_append(x, c, q);
        assert((x + seq![c] + p).drop_last() =~= x + seq![c] + q);
        assert(p.last() != c) by {
            assert(p[p.len() - 1] == p.last());
        }
        assert(q.push(p.last()) =~= p);
        assert(s.last() == p.last());
        assert(s.drop_last() =~= x + seq![c] + q);
        let rest = split_char(x, c).push(q);
        assert(split_char(s, c) == rest.update(rest.len() - 1, rest.last().push(p.last())));
        assert(rest.update(rest.len() - 1, rest.last().push(p.last())) =~= split_char(x, c).push(p));
    }
}

/// A text without `c` splits into itself alone.
pub proof fn lemma_split_char_none(p: Seq<char>, c: char)
    requires
        !contains_char(p, c),
    ensures
        split_char(p, c) == seq![p],
    decreases p.len(),
{
    if p.len() > 0 {
        let q = p.drop_last();
        assert(!contains_char(q, c)) by {
            if contains_char(q, c) {
                let i = choose|i: int| 0 <= i < q.len() && q[i] == c;
                assert(p[i] == c);
            }
        }
        lemma_split_char_none(q, c);
        assert(p.last() != c) by {
            assert(p[p.len() - 1] == p.last());
        }
        assert(q.push(p.last()) =~= p);
        assert(split_char(p, c) == seq![q].update(0, q.push(p.last())));
        assert(seq![q].update(0, q.push(p.last())) =~= seq![p]);
    } else {
        assert(p =~= Seq::<char>::empty());
    }
}

/// Splitting what `join` made with a one-character separator that no part
/// holds gives the parts back.
pub proof fn lemma_split_join(parts: Seq<Seq<char>>, c: char)
    requires
        parts.len() > 0,
        forall|i: int| 0 <= i < parts.len() ==> !contains_char(#[trigger] parts[i], c),
    ensures
        split_char(join(parts, seq![c]), c) == parts,
    decreases parts.len(),
{
    if parts.len() == 1 {
        lemma_split_char_none(parts[0], c);
        assert(seq![parts[0]] =~= parts);
    } else {
        let init = parts.drop_last();
        assert forall|i: int| 0 <= i < init.len() implies !contains_char(#[trigger] init[i], c) by {
            assert(init[i] == parts[i]);
        }
        lemma_split_join(init, c);
        assert(!contains_char(parts.last(), c)) by {
            assert(parts[parts.len() - 1] == parts.last());
        }
        lemma_split_char_append(join(init, seq![c]), c, parts.last());
        assert(init.push(parts.last()) =~= parts);
    }
}

/// What `trim` leaves neither starts nor ends with white space.
pub proof fn lemma_trim_edges(s: Seq<char>)
    ensures
        trim(s).len() > 0 ==> !is_white_space(trim(s)[0]) && !is_white_space(trim(s).last()),
{
    lemma_trim_start_first(s);
    lemma_trim_end_prefix(trim_start(s));
}

proof fn lemma_trim_start_first(s: Seq<char>)
    ensures
        trim_start(s).len() > 0 ==> !is_white_space(trim_start(s)[0]),
    decreases s.len(),
{
    if s.len() > 0 && is_white_space(s[0]) {
        lemma_trim_start_first(s.drop_first());
    }
}

pub proof fn lemma_trim_end_prefix(t: Seq<char>)
    ensures
        trim_end(t) == t.take(trim_end(t).len() as int),
        trim_end(t).len() <= t.len(),
        trim_end(t).len() > 0 ==> !is_white_space(trim_end(t).last()),
    decreases t.len(),
{
    if t.len() > 0 && is_white_space(t.last()) {
        lemma_trim_end_prefix(t.drop_last());
        let r = trim_end(t.drop_last());
        assert(t.drop_last().take(r.len() as int) =~= t.take(r.len() as int));
    } else {
        assert(t.take(t.len() as int) =~= t);
    }
}

/// The pieces of a split are no longer than the text, and there is at most
/// one more piece than characters.
pub proof fn lemma_split_char_bounds(s: Seq<char>, c: char)
    ensures
        split_char(s, c).len() <= s.len() + 1,
        forall|i: int| 0 <= i < split_char(s, c).len() ==> (#[trigger] split_char(s, c)[i]).len() <= s.len(),
    decreases s.len(),
{
    if s.len() > 0 {
        lemma_split_char_bounds(s.drop_last(), c);
        lemma_split_char_len(s.drop_last(), c);
        let rest = split_char(s.drop_last(), c);
        let cur = split_char(s, c);
        assert forall|i: int| 0 <= i < cur.len() implies (#[trigger] cur[i]).len() <= s.len() by {
            if s.last() == c {
                if i < rest.len() {
                    assert(cur[i] == rest[i]);
                }
            } else {
                if i < rest.len() - 1 {
                    assert(cur[i] == rest[i]);
                } else {
                    assert(cur[i] == rest.last().push(s.last()));
                    assert(rest.last() == rest[rest.len() - 1]);
                }
            }
        }
    }
}

/// The lines of a text are no longer than the text, and there are at most
/// one more lines than characters.
pub proof fn lemma_lines_bounds(s: Seq<char>)
    ensures
        lines(s).len() <= s.len() + 1,
        forall|i: int| 0 <= i < lines(s).len() ==> (#[trigger] lines(s)[i]).len() <= s.len(),
{
    lemma_split_char_bounds(s, '\n');
    lemma_split_char_len(s, '\n');
    let pieces = split_char(s, '\n');
    let ls = lines(s);
    assert forall|i: int| 0 <= i < ls.len() implies (#[trigger] ls[i]).len() <= s.len() by {
        if i < pieces.len() - 1 {
            assert(ls[i] == strip_cr(pieces[i]));
        } else {
            assert(ls[i] == pieces.last());
            assert(pieces.last() == pieces[pieces.len() - 1]);
        }
    }
}

/// UTF-8 takes at least one byte per character.
pub proof fn lemma_encode_len(s: Seq<char>)
    ensures
        vstd::utf8::encode_utf8(s).len() >= s.len(),
    decreases s.len(),
{
    if s.len() > 0 {
        lemma_encode_len(s.drop_first());
        assert(vstd::utf8::encode_scalar(s[0] as u32).len() >= 1);
    }
}

} // verus!
