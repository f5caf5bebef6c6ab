//! Parsing of `sg run` command lines typed into the pattern box.
use vstd::prelude::*;
use crate::lang::{lang_for_cli_name, SupportedLanguage};
use crate::text::{
    chars_of, lowercase, parse_usize, parse_usize_spec, push_char, push_str, starts_with,
    str_starts_with, string_views, trim, trim_string,
};

verus! {

/// The result of parsing an `sg run` command.
#[derive(Debug)]
pub struct SgRunArgs {
    pub pattern: String,
    pub lang: SupportedLanguage,
    pub context_before: usize,
    pub context_after: usize,
    /// Empty when not given (the caller then uses the working directory).
    pub search_dir: String,
}

/// The mathematical value of a parsed command.
pub struct SgRunView {
    pub pattern: Seq<char>,
    pub lang: SupportedLanguage,
    pub context_before: usize,
    pub context_after: usize,
    pub search_dir: Seq<char>,
}

impl View for SgRunArgs {
    type V = SgRunView;

    open spec fn view(&self) -> SgRunView {
        SgRunView {
            pattern: self.pattern@,
            lang: self.lang,
            context_before: self.context_before,
            context_after: self.context_after,
            search_dir: self.search_dir@,
        }
    }
}

// ───────────────────────── tokenizer ─────────────────────────

/// Where the tokenizer stands: outside quotes, inside `"…"` (just after a
/// backslash there), or inside `'…'`.
#[derive(Clone, Copy, PartialEq, Eq)]
pub enum LexMode {
    Plain,
    Double,
    DoubleEscape,
    Single,
}

/// Why a command line could not be split into words.
#[derive(Clone, Copy, PartialEq, Eq)]
pub enum TokenizeError {
    UnclosedDouble,
    UnclosedSingle,
}

/// Splits `s` into words: blanks and tabs separate words outside quotes;
/// `"…"` keeps its contents, with `\x` standing for `x`; `'…'` keeps its
/// contents literally. Quotes join with the surrounding characters into one
/// word; a word that stays empty is dropped.
pub open spec fn lex(s: Seq<char>, mode: LexMode, cur: Seq<char>, toks: Seq<Seq<char>>) -> Result<Seq<Seq<char>>, TokenizeError>
    decreases s.len(),
{
    if s.len() == 0 {
        match mode {
            LexMode::Plain => Ok(if cur.len() > 0 { toks.push(cur) } else { toks }),
            LexMode::Single => Err(TokenizeError::UnclosedSingle),
            _ => Err(TokenizeError::UnclosedDouble),
        }
    } else {
        let c = s[0];
        let rest = s.drop_first();
        match mode {
            LexMode::Plain => {
                if c == ' ' || c == '\t' {
                    if cur.len() > 0 {
                        lex(rest, LexMode::Plain, Seq::empty(), toks.push(cur))
                    } else {
                        lex(rest, LexMode::Plain, cur, toks)
                    }
                } else if c == '"' {
                    lex(rest, LexMode::Double, cur, toks)
                } else if c == '\'' {
                    lex(rest, LexMode::Single, cur, toks)
                } else {
                    lex(rest, LexMode::Plain, cur.push(c), toks)
                }
            },
            LexMode::Double => {
                if c == '"' {
                    lex(rest, LexMode::Plain, cur, toks)
                } else if c == '\\' {
                    lex(rest, LexMode::DoubleEscape, cur, toks)
                } else {
                    lex(rest, LexMode::Double, cur.push(c), toks)
                }
            },
            LexMode::DoubleEscape => lex(rest, LexMode::Double, cur.push(c), toks),
            LexMode::Single => {
                if c == '\'' {
                    lex(rest, LexMode::Plain, cur, toks)
                } else {
                    lex(rest, LexMode::Single, cur.push(c), toks)
                }
            },
        }
    }
}

/// The words of a command line.
pub open spec fn tokenize_spec(s: Seq<char>) -> Result<Seq<Seq<char>>, TokenizeError> {
    lex(s, LexMode::Plain, Seq::empty(), Seq::empty())
}

pub open spec fn tokenize_error_text(e: TokenizeError) -> Seq<char> {
    match e {
        TokenizeError::UnclosedDouble => "クォートが閉じられていません"@,
        TokenizeError::UnclosedSingle => "シングルクォートが閉じられていません"@,
    }
}

fn tokenize_error_message(e: TokenizeError) -> (r: String)
    ensures
        r@ == tokenize_error_text(e),
{
    match e {
        TokenizeError::UnclosedDouble => "クォートが閉じられていません".to_string(),
        TokenizeError::UnclosedSingle => "シングルクォートが閉じられていません".to_string(),
    }
}

/// Splits a command line into words, honouring quotes.
pub fn tokenize(s: &str) -> (r: Result<Vec<String>, TokenizeError>)
    ensures
        match r {
            Ok(v) => tokenize_spec(s@) == Ok::<Seq<Seq<char>>, TokenizeError>(string_views(v@)),
            Err(e) => tokenize_spec(s@) == Err::<Seq<Seq<char>>, TokenizeError>(e),
        },
{
    let v = chars_of(s);
    let mut tokens: Vec<String> = Vec::new();
    let mut current = String::new();
    let mut mode = LexMode::Plain;
    let mut i: usize = 0;
    proof {
        assert(v@.skip(0) == v@);
        assert(string_views(tokens@) =~= Seq::<Seq<char>>::empty());
        reveal_strlit("");
    }
    while i < v.len()
        invariant
            i <= v.len(),
            v@ == s@,
            tokenize_spec(s@) == lex(v@.skip(i as int), mode, current@, string_views(tokens@)),
        decreases v.len() - i,
    {
        let c = v[i];
        let ghost rest = v@.skip(i as int);
        assert(rest[0] == c);
        assert(rest.drop_first() == v@.skip(i + 1));
        match mode {
            LexMode::Plain => {
                if c == ' ' || c == '\t' {
                    if !current.as_str().is_empty() {
                        let ghost old_tokens = string_views(tokens@);
                        let ghost cur = current@;
                        tokens.push(current);
                        current = String::new();
                        proof {
                            assert(string_views(tokens@) =~= old_tokens.push(cur));
                            assert(current@ =~= Seq::<char>::empty());
                        }
                    }
                } else if c == '"' {
                    mode = LexMode::Double;
                } else if c == '\'' {
                    mode = LexMode::Single;
                } else {
                    push_char(&mut current, c);
                }
            },
            LexMode::Double => {
                if c == '"' {
                    mode = LexMode::Plain;
                } else if c == '\\' {
                    mode = LexMode::DoubleEscape;
                } else {
                    push_char(&mut current, c);
                }
            },
            LexMode::DoubleEscape => {
                push_char(&mut current, c);
                mode = LexMode::Double;
            },
            LexMode::Single => {
                if c == '\'' {
                    mode = LexMode::Plain;
                } else {
                    push_char(&mut current, c);
                }
            },
        }
        i = i + 1;
    }
    assert(v@.skip(i as int).len() == 0);
    match mode {
        LexMode::Plain => {
            if !current.as_str().is_empty() {
                let ghost old_tokens = string_views(tokens@);
                let ghost cur = current@;
                tokens.push(current);
                assert(string_views(tokens@) =~= old_tokens.push(cur));
            }
            Ok(tokens)
        },
        LexMode::Single => Err(TokenizeError::UnclosedSingle),
        _ => Err(TokenizeError::UnclosedDouble),
    }
}

// ───────────────────────── options ─────────────────────────

pub open spec fn is_opt(tok: Seq<char>, short: Seq<char>, long: Seq<char>) -> bool {
    tok == short || tok == long
}

/// Reads the options of `t` from index `idx` on, given what the earlier ones set.
/// `-p/--pattern`, `-l/--lang`, `-C/--context`, `-A/--after` and `-B/--before`
/// take the next word as their value (the last occurrence wins); any other
/// word not starting with `-` is the search directory; anything else is an
/// unknown option.
pub open spec fn parse_opts(
    t: Seq<Seq<char>>,
    idx: int,
    pattern: Option<Seq<char>>,
    lang: SupportedLanguage,
    before: usize,
    after: usize,
    dir: Seq<char>,
) -> Result<SgRunView, Seq<char>>
    decreases t.len() - idx,
{
    if idx >= t.len() || idx < 0 {
        match pattern {
            Some(p) => Ok(SgRunView { pattern: p, lang, context_before: before, context_after: after, search_dir: dir }),
            None => Err("-p / --pattern が指定されていません"@),
        }
    } else {
        let tok = t[idx];
        let has_value = idx + 1 < t.len();
        let value = t[idx + 1];
        if is_opt(tok, "-p"@, "--pattern"@) {
            if has_value {
                parse_opts(t, idx + 2, Some(value), lang, before, after, dir)
            } else {
                Err("-p の後にパターンが必要です"@)
            }
        } else if is_opt(tok, "-l"@, "--lang"@) {
            if has_value {
                match lang_for_cli_name(lowercase(value)) {
                    Some(l) => parse_opts(t, idx + 2, pattern, l, before, after, dir),
                    None => Err("不明な言語: "@ + value),
                }
            } else {
                Err("-l の後に言語名が必要です"@)
            }
        } else if is_opt(tok, "-C"@, "--context"@) {
            if has_value {
                match parse_usize_spec(value) {
                    Some(n) => parse_opts(t, idx + 2, pattern, lang, n as usize, n as usize, dir),
                    None => Err("-C の値が数値ではありません"@),
                }
            } else {
                Err("-C の後に数値が必要です"@)
            }
        } else if is_opt(tok, "-A"@, "--after"@) {
            if has_value {
                match parse_usize_spec(value) {
                    Some(n) => parse_opts(t, idx + 2, pattern, lang, before, n as usize, dir),
                    None => Err("-A の値が数値ではありません"@),
                }
            } else {
                Err("-A の後に数値が必要です"@)
            }
        } else if is_opt(tok, "-B"@, "--before"@) {
            if has_value {
                match parse_usize_spec(value) {
                    Some(n) => parse_opts(t, idx + 2, pattern, lang, n as usize, after, dir),
                    None => Err("-B の値が数値ではありません"@),
                }
            } else {
                Err("-B の後に数値が必要です"@)
            }
        } else if !starts_with(tok, "-"@) {
            parse_opts(t, idx + 1, pattern, lang, before, after, tok)
        } else {
            Err("不明なオプション: "@ + tok)
        }
    }
}

/// The words that set a context count: `-A`/`--after`, `-B`/`--before`,
/// `-C`/`--context`.
pub open spec fn is_context_word(w: Seq<char>) -> bool {
    w == "-A"@ || w == "--after"@ || w == "-B"@ || w == "--before"@ || w == "-C"@ || w == "--context"@
}

/// `-A N` (or `--after N`) sets the lines after a match to `N` and leaves
/// everything else, the lines before included, to the words that follow.
pub proof fn lemma_after_option(
    t: Seq<Seq<char>>, idx: int, pattern: Option<Seq<char>>, lang: SupportedLanguage, before: usize, after: usize, dir: Seq<char>, n: nat,
)
    requires
        0 <= idx,
        idx + 1 < t.len(),
        t[idx] == "-A"@ || t[idx] == "--after"@,
        parse_usize_spec(t[idx + 1]) == Some(n),
    ensures
        parse_opts(t, idx, pattern, lang, before, after, dir) == parse_opts(t, idx + 2, pattern, lang, before, n as usize, dir),
{
    reveal_strlit("-p");
    reveal_strlit("--pattern");
    reveal_strlit("-l");
    reveal_strlit("--lang");
    reveal_strlit("-C");
    reveal_strlit("--context");
    reveal_strlit("-A");
    reveal_strlit("--after");
    reveal_strlit("-B");
    reveal_strlit("--before");
    reveal_strlit("-");
    assert("-A"@[1] != "-p"@[1] && "-A"@[1] != "-l"@[1] && "-A"@[1] != "-C"@[1]);
    assert("-A"@.len() != "--pattern"@.len() && "-A"@.len() != "--lang"@.len() && "-A"@.len() != "--context"@.len());
    assert("--after"@.len() != "-p"@.len() && "--after"@.len() != "-l"@.len() && "--after"@.len() != "-C"@.len());
    assert("--after"@[2] != "--pattern"@[2] && "--after"@.len() != "--lang"@.len() && "--after"@[2] != "--context"@[2]);
}

/// `-B N` (or `--before N`) sets the lines before a match to `N` and leaves
/// everything else, the lines after included, to the words that follow.
pub proof fn lemma_before_option(
    t: Seq<Seq<char>>, idx: int, pattern: Option<Seq<char>>, lang: SupportedLanguage, before: usize, after: usize, dir: Seq<char>, n: nat,
)
    requires
        0 <= idx,
        idx + 1 < t.len(),
        t[idx] == "-B"@ || t[idx] == "--before"@,
        parse_usize_spec(t[idx + 1]) == Some(n),
    ensures
        parse_opts(t, idx, pattern, lang, before, after, dir) == parse_opts(t, idx + 2, pattern, lang, n as usize, after, dir),
{
    reveal_strlit("-p");
    reveal_strlit("--pattern");
    reveal_strlit("-l");
    reveal_strlit("--lang");
    reveal_strlit("-C");
    reveal_strlit("--context");
    reveal_strlit("-A");
    reveal_strlit("--after");
    reveal_strlit("-B");
    reveal_strlit("--before");
    reveal_strlit("-");
    assert("-B"@[1] != "-p"@[1] && "-B"@[1] != "-l"@[1] && "-B"@[1] != "-C"@[1] && "-B"@[1] != "-A"@[1]);
    assert("-B"@.len() != "--pattern"@.len() && "-B"@.len() != "--lang"@.len() && "-B"@.len() != "--context"@.len() && "-B"@.len() != "--after"@.len());
    assert("--before"@.len() != "-p"@.len() && "--before"@.len() != "-l"@.len() && "--before"@.len() != "-C"@.len() && "--before"@.len() != "-A"@.len());
    assert("--before"@[2] != "--pattern"@[2] && "--before"@.len() != "--lang"@.len() && "--before"@[2] != "--context"@[2] && "--before"@[2] != "--after"@[2]);
}

/// Without a context word among the remaining words, a parse that succeeds
/// keeps the context counts it was given.
pub proof fn lemma_context_counts_kept(
    t: Seq<Seq<char>>, idx: int, pattern: Option<Seq<char>>, lang: SupportedLanguage, before: usize, after: usize, dir: Seq<char>,
)
    requires
        0 <= idx,
        forall|k: int| idx <= k < t.len() ==> !is_context_word(#[trigger] t[k]),
    ensures
        parse_opts(t, idx, pattern, lang, before, after, dir) matches Ok(r) ==> r.context_before == before && r.context_after == after,
    decreases t.len() - idx,
{
    if idx < t.len() {
        let tok = t[idx];
        assert(!is_context_word(tok));
        if idx + 2 <= t.len() {
            let value = t[idx + 1];
            match lang_for_cli_name(lowercase(value)) {
                Some(l) => lemma_context_counts_kept(t, idx + 2, pattern, l, before, after, dir),
                None => {},
            }
            lemma_context_counts_kept(t, idx + 2, Some(value), lang, before, after, dir);
        }
        lemma_context_counts_kept(t, idx + 1, pattern, lang, before, after, tok);
    }
}

/// Index of the first option word: a leading `sg`, then a leading `run`, are skipped.
pub open spec fn first_option_index(t: Seq<Seq<char>>) -> int {
    let a: int = if t.len() > 0 && t[0] == "sg"@ { 1 } else { 0 };
    if a < t.len() && t[a] == "run"@ { a + 1 } else { a }
}

/// What parsing the command line `s` gives: its words, read as `sg run` options.
pub open spec fn parse_sg_run_spec(s: Seq<char>) -> Result<SgRunView, Seq<char>> {
    match tokenize_spec(s) {
        Err(e) => Err(tokenize_error_text(e)),
        Ok(t) => parse_opts(t, first_option_index(t), None, SupportedLanguage::Auto, 0, 0, Seq::empty()),
    }
}

fn word_is(w: &Vec<char>, lit: &str) -> (b: bool)
    ensures
        b == (w@ == lit@),
{
    let l = chars_of(lit);
    if w.len() != l.len() {
        return false;
    }
    let mut i: usize = 0;
    while i < w.len()
        invariant
            i <= w.len(),
            w.len() == l.len(),
            l@ == lit@,
            forall|k: int| 0 <= k < i ==> w@[k] == l@[k],
        decreases w.len() - i,
    {
        if w[i] != l[i] {
            return false;
        }
        i = i + 1;
    }
    assert(w@ =~= l@);
    true
}

fn message_with(prefix: &str, tail: &str) -> (r: String)
    ensures
        r@ == prefix@ + tail@,
{
    let mut s = prefix.to_string();
    push_str(&mut s, tail);
    s
}

/// Parses `sg run -p PAT [-l LANG] [-C N] [-A N] [-B N] [DIR]`; the forms
/// `sg -p PAT …` and `-p PAT …` are accepted too.
pub fn parse_sg_run(input: &str) -> (r: Result<SgRunArgs, String>)
    ensures
        match r {
            Ok(a) => parse_sg_run_spec(input@) == Ok::<SgRunView, Seq<char>>(a@),
            Err(e) => parse_sg_run_spec(input@) == Err::<SgRunView, Seq<char>>(e@),
        },
{
    let tokens = match tokenize(input) {
        Ok(t) => t,
        Err(e) => {
            return Err(tokenize_error_message(e));
        },
    };
    let ghost t = string_views(tokens@);
    let mut words: Vec<Vec<char>> = Vec::new();
    let mut k: usize = 0;
    while k < tokens.len()
        invariant
            k <= tokens.len(),
            t == string_views(tokens@),
            words@.len() == k,
            forall|j: int| 0 <= j < k ==> (#[trigger] words@[j])@ == t[j],
        decreases tokens.len() - k,
    {
        words.push(chars_of(tokens[k].as_str()));
        k = k + 1;
    }
    let mut idx: usize = 0;
    if idx < words.len() && word_is(&words[idx], "sg") {
        idx = idx + 1;
    }
    if idx < words.len() && word_is(&words[idx], "run") {
        idx = idx + 1;
    }
    assert(idx == first_option_index(t));
    let mut pattern: Option<String> = None;
    let mut lang = SupportedLanguage::Auto;
    let mut context_before: usize = 0;
    let mut context_after: usize = 0;
    let mut search_dir = String::new();
    proof {
        reveal_strlit("");
    }
    while idx < tokens.len()
        invariant
            idx <= tokens.len(),
            t == string_views(tokens@),
            words@.len() == tokens@.len(),
            forall|j: int| 0 <= j < tokens@.len() ==> (#[trigger] words@[j])@ == t[j],
            parse_sg_run_spec(input@) == parse_opts(
                t,
                idx as int,
                match pattern { Some(p) => Some(p@), None => None },
                lang,
                context_before,
                context_after,
                search_dir@,
            ),
        decreases tokens.len() - idx,
    {
        let w = &words[idx];
        let tok = tokens[idx].as_str();
        assert(w@ == t[idx as int]);
        let has_value = idx + 1 < tokens.len();
        if word_is(w, "-p") || word_is(w, "--pattern") {
            if !has_value {
                return Err("-p の後にパターンが必要です".to_string());
            }
            assert(t[idx + 1] == tokens@[idx + 1]@);
            pattern = Some(tokens[idx + 1].clone());
            idx = idx + 2;
        } else if word_is(w, "-l") || word_is(w, "--lang") {
            if !has_value {
                return Err("-l の後に言語名が必要です".to_string());
            }
            let value = tokens[idx + 1].as_str();
            assert(t[idx + 1] == value@);
            match SupportedLanguage::from_cli_str(value) {
                Some(l) => {
                    lang = l;
                },
                None => {
                    return Err(message_with("不明な言語: ", value));
                },
            }
            idx = idx + 2;
        } else if word_is(w, "-C") || word_is(w, "--context") {
            if !has_value {
                return Err("-C の後に数値が必要です".to_string());
            }
            let value = tokens[idx + 1].as_str();
            assert(t[idx + 1] == value@);
            match parse_usize(value) {
                Some(n) => {
                    context_before = n;
                    context_after = n;
                },
                None => {
                    return Err("-C の値が数値ではありません".to_string());
                },
            }
            idx = idx + 2;
        } else if word_is(w, "-A") || word_is(w, "--after") {
            if !has_value {
                return Err("-A の後に数値が必要です".to_string());
            }
            let value = tokens[idx + 1].as_str();
            assert(t[idx + 1] == value@);
            match parse_usize(value) {
                Some(n) => {
                    context_after = n;
                },
                None => {
                    return Err("-A の値が数値ではありません".to_string());
                },
            }
            idx = idx + 2;
        } else if word_is(w, "-B") || word_is(w, "--before") {
            if !has_value {
                return Err("-B の後に数値が必要です".to_string());
            }
            let value = tokens[idx + 1].as_str();
            assert(t[idx + 1] == value@);
            match parse_usize(value) {
                Some(n) => {
                    context_before = n;
                },
                None => {
                    return Err("-B の値が数値ではありません".to_string());
                },
            }
            idx = idx + 2;
        } else if !str_starts_with(tok, "-") {
            search_dir = tok.to_string();
            idx = idx + 1;
        } else {
            return Err(message_with("不明なオプション: ", tok));
        }
    }
    match pattern {
        Some(p) => Ok(SgRunArgs { pattern: p, lang, context_before, context_after, search_dir }),
        None => Err("-p / --pattern が指定されていません".to_string()),
    }
}

/// `input` (trimmed) is an `sg` command: `sg` alone, or starting with `sg `,
/// `-p ` or `--pattern `.
pub open spec fn is_sg_command_spec(input: Seq<char>) -> bool {
    let s = trim(input);
    starts_with(s, "sg "@) || s == "sg"@ || starts_with(s, "-p "@) || starts_with(s, "--pattern "@)
}

/// Whether the text typed into the pattern box is an `sg` / `sg run` command.
pub fn is_sg_command(input: &str) -> (b: bool)
    ensures
        b == is_sg_command_spec(input@),
{
    let s = trim_string(input);
    let st = s.as_str();
    let w = chars_of(st);
    str_starts_with(st, "sg ") || word_is(&w, "sg") || str_starts_with(st, "-p ") || str_starts_with(st, "--pattern ")
}

} // verus!
