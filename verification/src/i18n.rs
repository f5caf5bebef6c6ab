//! UI display language (Japanese / English), independent of the searched language.
use vstd::prelude::*;

use crate::text::{bool_text, decimal, push_bool, push_decimal, push_str, starts_with, str_starts_with};

verus! {

/// The language actually used for the UI.
#[derive(Debug, Clone, Copy, PartialEq, Eq, Structural)]
pub enum UiLanguage {
    Japanese,
    English,
}

/// The persisted UI language setting (follow the OS, or fixed).
#[derive(Debug, Clone, Copy, PartialEq, Eq, Structural)]
pub enum UiLanguagePreference {
    /// Guessed from the OS locale.
    Auto,
    Japanese,
    English,
}

impl Default for UiLanguagePreference {
    fn default() -> (r: Self)
        ensures
            r == UiLanguagePreference::Auto,
    {
        UiLanguagePreference::Auto
    }
}

/// The Japanese text when the language is Japanese, the English one otherwise.
pub open spec fn pick(lang: UiLanguage, ja: Seq<char>, en: Seq<char>) -> Seq<char> {
    match lang {
        UiLanguage::Japanese => ja,
        UiLanguage::English => en,
    }
}

/// The UI language that a locale name (as the OS reports it) selects.
pub open spec fn ui_language_for_locale(locale: Option<Seq<char>>) -> UiLanguage {
    match locale {
        Some(l) => if starts_with(crate::text::lowercase(l), "ja"@) {
            UiLanguage::Japanese
        } else {
            UiLanguage::English
        },
        None => UiLanguage::English,
    }
}

impl UiLanguagePreference {
    /// The language this preference selects, given the locale the OS reports.
    pub fn effective_for_locale(self, locale: Option<&str>) -> (r: UiLanguage)
        ensures
            r == (match self {
                UiLanguagePreference::Auto => ui_language_for_locale(
                    match locale {
                        Some(l) => Some(l@),
                        None => None,
                    },
                ),
                UiLanguagePreference::Japanese => UiLanguage::Japanese,
                UiLanguagePreference::English => UiLanguage::English,
            }),
    {
        match self {
            UiLanguagePreference::Auto => ui_language_from_locale(locale),
            UiLanguagePreference::Japanese => UiLanguage::Japanese,
            UiLanguagePreference::English => UiLanguage::English,
        }
    }

    /// The language this preference selects on this machine.
    pub fn effective(self) -> (r: UiLanguage)
        ensures
            self == UiLanguagePreference::Japanese ==> r == UiLanguage::Japanese,
            self == UiLanguagePreference::English ==> r == UiLanguage::English,
    {
        match self {
            UiLanguagePreference::Auto => detect_os_ui_language(),
            UiLanguagePreference::Japanese => UiLanguage::Japanese,
            UiLanguagePreference::English => UiLanguage::English,
        }
    }

    pub fn display_label(self, lang: UiLanguage) -> (r: &'static str)
        ensures
            r@ == (match self {
                UiLanguagePreference::Auto => pick(lang, "自動 (OS)"@, "Auto (OS)"@),
                UiLanguagePreference::Japanese => pick(lang, "日本語"@, "Japanese"@),
                UiLanguagePreference::English => "English"@,
            }),
    {
        match (self, lang) {
            (UiLanguagePreference::Auto, UiLanguage::Japanese) => "自動 (OS)",
            (UiLanguagePreference::Auto, UiLanguage::English) => "Auto (OS)",
            (UiLanguagePreference::Japanese, UiLanguage::Japanese) => "日本語",
            (UiLanguagePreference::Japanese, UiLanguage::English) => "Japanese",
            (UiLanguagePreference::English, _) => "English",
        }
    }
}

/// Calls `sys_locale::get_locale`: the locale the OS reports, if any.
/// Nothing is stated of the result: it depends on the machine.
#[verifier::external_body]
fn os_locale() -> (r: Option<String>) {
    sys_locale::get_locale()
}

/// Japanese for a Japanese locale (`ja…`, case-insensitive), English otherwise.
pub fn ui_language_from_locale(locale: Option<&str>) -> (r: UiLanguage)
    ensures
        r == ui_language_for_locale(
            match locale {
                Some(l) => Some(l@),
                None => None,
            },
        ),
{
    match locale {
        Some(l) => {
            let lower = crate::text::to_lowercase(l);
            if str_starts_with(lower.as_str(), "ja") {
                UiLanguage::Japanese
            } else {
                UiLanguage::English
            }
        },
        None => UiLanguage::English,
    }
}

/// Guesses the UI language from the OS locale (Japanese locales give Japanese, anything else English).
pub fn detect_os_ui_language() -> (r: UiLanguage) {
    let locale = os_locale();
    match &locale {
        Some(l) => ui_language_from_locale(Some(l.as_str())),
        None => ui_language_from_locale(None),
    }
}

/// The text of a `(ja, en)` pair in the given language.
pub fn tr_pair(lang: UiLanguage, ja: &'static str, en: &'static str) -> (r: String)
    ensures
        r@ == pick(lang, ja@, en@),
{
    match lang {
        UiLanguage::Japanese => ja.to_string(),
        UiLanguage::English => en.to_string(),
    }
}

/// Accessor for the translated UI texts.
#[derive(Clone, Copy)]
pub struct Tr(pub UiLanguage);

/// Suffix that marks a result cut off at the hit limit.
pub open spec fn hit_limit_suffix_text(lang: UiLanguage, hit_limit_reached: bool) -> Seq<char> {
    if !hit_limit_reached {
        Seq::empty()
    } else {
        pick(lang, "（ヒット上限により打ち切り）"@, " (truncated at hit limit)"@)
    }
}

/// `$name` for each metavariable name, joined by `sep`.
pub open spec fn dollar_join(names: Seq<Seq<char>>, sep: Seq<char>) -> Seq<char>
    decreases names.len(),
{
    if names.len() == 0 {
        Seq::empty()
    } else if names.len() == 1 {
        "$"@ + names[0]
    } else {
        dollar_join(names.drop_last(), sep) + sep + "$"@ + names.last()
    }
}

/// One ` $name |` cell per metavariable.
pub open spec fn metavar_cells(names: Seq<Seq<char>>) -> Seq<char>
    decreases names.len(),
{
    if names.len() == 0 {
        Seq::empty()
    } else {
        metavar_cells(names.drop_last()) + " $"@ + names.last() + " |"@
    }
}

pub open spec fn views_of(v: Seq<String>) -> Seq<Seq<char>> {
    Seq::new(v.len(), |i: int| v[i]@)
}

/// The explanation of the summary keys (see `Tr::summary_keys_explanation`).
pub open spec fn summary_keys_text(
    lang: UiLanguage,
    recv: Seq<char>,
    method: Option<Seq<char>>,
    args_multi: Option<Seq<char>>,
    singles: Seq<Seq<char>>,
) -> Seq<char> {
    match args_multi {
        Some(multi) => match (lang, method) {
            (UiLanguage::Japanese, None) => "単一メタ $"@ + recv + "（受信側）と $$$ "@ + multi
                + " の #arity / #i（各引数の型）を集計しています。"@,
            (UiLanguage::English, None) => "Single $"@ + recv + " is the receiver; $$$ "@ + multi
                + " uses #arity / #i for each argument type."@,
            (UiLanguage::Japanese, Some(m)) => "単一メタ $"@ + recv + " / $"@ + m + " を受信・メソッド、$$$"@
                + multi + " の #arity / #i を引数として集計しています。"@,
            (UiLanguage::English, Some(m)) => "Singles $"@ + recv + " / $"@ + m
                + " are receiver and method; $$$ "@ + multi + " uses #arity / #i for arguments."@,
        },
        None => match lang {
            UiLanguage::Japanese => if singles.len() == 0 {
                "単一メタ $"@ + recv + "（受信側）のみ。引数メタはありません。"@
            } else if method is None && singles.len() == 1 {
                "単一メタ $"@ + recv + "（受信）と $"@ + singles[0] + "（1引数）の型を集計しています。"@
            } else if method is None {
                "単一メタ $"@ + recv + "（受信）と "@ + dollar_join(singles, "、"@) + " の型を集計しています。"@
            } else {
                "単一メタ $"@ + recv + " / $"@ + method->0 + " を受信・メソッド、"@ + dollar_join(singles, "、"@)
                    + " の型を集計しています。"@
            },
            UiLanguage::English => if singles.len() == 0 {
                "Only single metavar $"@ + recv + " (receiver); no argument metavariables."@
            } else if method is None && singles.len() == 1 {
                "Single metavars $"@ + recv + " (receiver) and $"@ + singles[0] + " (one argument)."@
            } else if method is None {
                "Single metavar $"@ + recv + " (receiver); argument types: "@ + dollar_join(singles, ", "@)
                    + "."@
            } else {
                "Singles $"@ + recv + " / $"@ + method->0 + " (receiver / method), argument types: "@
                    + dollar_join(singles, ", "@) + "."@
            },
        },
    }
}

fn push_dollar_join(out: &mut String, names: &[String], sep: &str)
    ensures
        final(out)@ == old(out)@ + dollar_join(views_of(names@), sep@),
{
    let ghost start = out@;
    let mut i: usize = 0;
    while i < names.len()
        invariant
            i <= names.len(),
            out@ == start + dollar_join(views_of(names@.take(i as int)), sep@),
        decreases names.len() - i,
    {
        let ghost before = out@;
        proof {
            let a = views_of(names@.take(i + 1));
            let b = views_of(names@.take(i as int));
            assert(a.drop_last() =~= b);
        }
        if i > 0 {
            push_str(out, sep);
        }
        push_str(out, "$");
        push_str(out, names[i].as_str());
        i = i + 1;
    }
    assert(names@.take(names.len() as int) == names@);
}

impl Tr {
    pub fn file_list_empty(self) -> (r: &'static str)
        ensures
            r@ == crate::ui_text_specs::table_empty(self.0),
    {
        self.table_empty()
    }

    pub fn export_html_h1(self) -> (r: &'static str)
        ensures
            r@ == crate::ui_text_specs::export_html_title(self.0),
    {
        self.export_html_title()
    }

    /// Suffix appended when the hit limit cut the results.
    pub fn hit_limit_suffix(self, hit_limit_reached: bool) -> (r: &'static str)
        ensures
            r@ == hit_limit_suffix_text(self.0, hit_limit_reached),
    {
        if !hit_limit_reached {
            proof {
                reveal_strlit("");
            }
            return "";
        }
        match self.0 {
            UiLanguage::Japanese => "（ヒット上限により打ち切り）",
            UiLanguage::English => " (truncated at hit limit)",
        }
    }

    pub fn regex_visualizer_summary(
        self,
        groups: usize,
        alternations: usize,
        char_classes: usize,
        quantifiers: usize,
    ) -> (r: String)
        ensures
            r@ == pick(
                self.0,
                "グループ: "@ + decimal(groups as nat) + " / 分岐: "@ + decimal(alternations as nat)
                    + " / 文字クラス: "@ + decimal(char_classes as nat) + " / 量指定: "@ + decimal(
                    quantifiers as nat,
                ),
                "Groups: "@ + decimal(groups as nat) + " / Alternations: "@ + decimal(
                    alternations as nat,
                ) + " / Character classes: "@ + decimal(char_classes as nat) + " / Quantifiers: "@
                    + decimal(quantifiers as nat),
            ),
    {
        let mut s = String::new();
        match self.0 {
            UiLanguage::Japanese => {
                push_str(&mut s, "グループ: ");
                push_decimal(&mut s, groups as u64);
                push_str(&mut s, " / 分岐: ");
                push_decimal(&mut s, alternations as u64);
                push_str(&mut s, " / 文字クラス: ");
                push_decimal(&mut s, char_classes as u64);
                push_str(&mut s, " / 量指定: ");
                push_decimal(&mut s, quantifiers as u64);
            },
            UiLanguage::English => {
                push_str(&mut s, "Groups: ");
                push_decimal(&mut s, groups as u64);
                push_str(&mut s, " / Alternations: ");
                push_decimal(&mut s, alternations as u64);
                push_str(&mut s, " / Character classes: ");
                push_decimal(&mut s, char_classes as u64);
                push_str(&mut s, " / Quantifiers: ");
                push_decimal(&mut s, quantifiers as u64);
            },
        }
        s
    }

    pub fn regex_visualizer_test_count(self, n: usize) -> (r: String)
        ensures
            r@ == pick(self.0, "ヒット: "@ + decimal(n as nat) + " 件"@, "Hits: "@ + decimal(n as nat)),
    {
        let mut s = String::new();
        match self.0 {
            UiLanguage::Japanese => {
                push_str(&mut s, "ヒット: ");
                push_decimal(&mut s, n as u64);
                push_str(&mut s, " 件");
            },
            UiLanguage::English => {
                push_str(&mut s, "Hits: ");
                push_decimal(&mut s, n as u64);
            },
        }
        s
    }

    pub fn summary_keys_explanation(
        self,
        recv: &str,
        method: Option<&str>,
        args_multi: Option<&str>,
        arg_singles: &[String],
    ) -> (r: String)
        ensures
            r@ == summary_keys_text(
                self.0,
                recv@,
                match method {
                    Some(m) => Some(m@),
                    None => None,
                },
                match args_multi {
                    Some(m) => Some(m@),
                    None => None,
                },
                views_of(arg_singles@),
            ),
    {
        let mut s = String::new();
        if let Some(multi) = args_multi {
            match (self.0, method) {
                (UiLanguage::Japanese, None) => {
                    push_str(&mut s, "単一メタ $");
                    push_str(&mut s, recv);
                    push_str(&mut s, "（受信側）と $$$ ");
                    push_str(&mut s, multi);
                    push_str(&mut s, " の #arity / #i（各引数の型）を集計しています。");
                },
                (UiLanguage::English, None) => {
                    push_str(&mut s, "Single $");
                    push_str(&mut s, recv);
                    push_str(&mut s, " is the receiver; $$$ ");
                    push_str(&mut s, multi);
                    push_str(&mut s, " uses #arity / #i for each argument type.");
                },
                (UiLanguage::Japanese, Some(m)) => {
                    push_str(&mut s, "単一メタ $");
                    push_str(&mut s, recv);
                    push_str(&mut s, " / $");
                    push_str(&mut s, m);
                    push_str(&mut s, " を受信・メソッド、$$$");
                    push_str(&mut s, multi);
                    push_str(&mut s, " の #arity / #i を引数として集計しています。");
                },
                (UiLanguage::English, Some(m)) => {
                    push_str(&mut s, "Singles $");
                    push_str(&mut s, recv);
                    push_str(&mut s, " / $");
                    push_str(&mut s, m);
                    push_str(&mut s, " are receiver and method; $$$ ");
                    push_str(&mut s, multi);
                    push_str(&mut s, " uses #arity / #i for arguments.");
                },
            }
            return s;
        }
        let ghost singles = views_of(arg_singles@);
        match self.0 {
            UiLanguage::Japanese => {
                if arg_singles.len() == 0 {
                    push_str(&mut s, "単一メタ $");
                    push_str(&mut s, recv);
                    push_str(&mut s, "（受信側）のみ。引数メタはありません。");
                } else if method.is_none() && arg_singles.len() == 1 {
                    push_str(&mut s, "単一メタ $");
                    push_str(&mut s, recv);
                    push_str(&mut s, "（受信）と $");
                    push_str(&mut s, arg_singles[0].as_str());
                    push_str(&mut s, "（1引数）の型を集計しています。");
                } else if method.is_none() {
                    push_str(&mut s, "単一メタ $");
                    push_str(&mut s, recv);
                    push_str(&mut s, "（受信）と ");
                    push_dollar_join(&mut s, arg_singles, "、");
                    push_str(&mut s, " の型を集計しています。");
                } else {
                    let met = method.unwrap();
                    push_str(&mut s, "単一メタ $");
                    push_str(&mut s, recv);
                    push_str(&mut s, " / $");
                    push_str(&mut s, met);
                    push_str(&mut s, " を受信・メソッド、");
                    push_dollar_join(&mut s, arg_singles, "、");
                    push_str(&mut s, " の型を集計しています。");
                }
            },
            UiLanguage::English => {
                if arg_singles.len() == 0 {
                    push_str(&mut s, "Only single metavar $");
                    push_str(&mut s, recv);
                    push_str(&mut s, " (receiver); no argument metavariables.");
                } else if method.is_none() && arg_singles.len() == 1 {
                    push_str(&mut s, "Single metavars $");
                    push_str(&mut s, recv);
                    push_str(&mut s, " (receiver) and $");
                    push_str(&mut s, arg_singles[0].as_str());
                    push_str(&mut s, " (one argument).");
                } else if method.is_none() {
                    push_str(&mut s, "Single metavar $");
                    push_str(&mut s, recv);
                    push_str(&mut s, " (receiver); argument types: ");
                    push_dollar_join(&mut s, arg_singles, ", ");
                    push_str(&mut s, ".");
                } else {
                    let met = method.unwrap();
                    push_str(&mut s, "Singles $");
                    push_str(&mut s, recv);
                    push_str(&mut s, " / $");
                    push_str(&mut s, met);
                    push_str(&mut s, " (receiver / method), argument types: ");
                    push_dollar_join(&mut s, arg_singles, ", ");
                    push_str(&mut s, ".");
                }
            },
        }
        s
    }

    pub fn summary_col_arg(self, index: usize) -> (r: String)
        ensures
            r@ == pick(self.0, "引数"@ + decimal(index as nat), "Arg "@ + decimal(index as nat)),
    {
        let mut s = String::new();
        match self.0 {
            UiLanguage::Japanese => push_str(&mut s, "引数"),
            UiLanguage::English => push_str(&mut s, "Arg "),
        }
        push_decimal(&mut s, index as u64);
        s
    }

    pub fn batch_report_summary(
        self,
        total_ms: u64,
        total_matches: usize,
        total_files: usize,
        job_count: usize,
        failed: usize,
    ) -> (r: String)
        ensures
            r@ == pick(
                self.0,
                "合計時間: "@ + decimal(total_ms as nat) + " ms ／ 合計マッチ: "@ + decimal(
                    total_matches as nat,
                ) + " ／ 合計ファイル: "@ + decimal(total_files as nat) + " ／ ジョブ数: "@ + decimal(
                    job_count as nat,
                ) + " ／ 失敗: "@ + decimal(failed as nat),
                "Total time: "@ + decimal(total_ms as nat) + " ms / Matches: "@ + decimal(
                    total_matches as nat,
                ) + " / Files: "@ + decimal(total_files as nat) + " / Jobs: "@ + decimal(
                    job_count as nat,
                ) + " / Failed: "@ + decimal(failed as nat),
            ),
    {
        let mut s = String::new();
        match self.0 {
            UiLanguage::Japanese => {
                push_str(&mut s, "合計時間: ");
                push_decimal(&mut s, total_ms);
                push_str(&mut s, " ms ／ 合計マッチ: ");
                push_decimal(&mut s, total_matches as u64);
                push_str(&mut s, " ／ 合計ファイル: ");
                push_decimal(&mut s, total_files as u64);
                push_str(&mut s, " ／ ジョブ数: ");
                push_decimal(&mut s, job_count as u64);
                push_str(&mut s, " ／ 失敗: ");
                push_decimal(&mut s, failed as u64);
            },
            UiLanguage::English => {
                push_str(&mut s, "Total time: ");
                push_decimal(&mut s, total_ms);
                push_str(&mut s, " ms / Matches: ");
                push_decimal(&mut s, total_matches as u64);
                push_str(&mut s, " / Files: ");
                push_decimal(&mut s, total_files as u64);
                push_str(&mut s, " / Jobs: ");
                push_decimal(&mut s, job_count as u64);
                push_str(&mut s, " / Failed: ");
                push_decimal(&mut s, failed as u64);
            },
        }
        s
    }

    pub fn batch_report_job_stats(
        self,
        matches: usize,
        files: usize,
        elapsed_ms: u64,
        hit_limit: bool,
    ) -> (r: String)
        ensures
            r@ == pick(
                self.0,
                "マッチ: "@ + decimal(matches as nat) + " ／ ファイル: "@ + decimal(files as nat)
                    + " ／ 時間: "@ + decimal(elapsed_ms as nat) + " ms ／ 上限打切: "@ + bool_text(
                    hit_limit,
                ),
                "Matches: "@ + decimal(matches as nat) + " / Files: "@ + decimal(files as nat)
                    + " / Time: "@ + decimal(elapsed_ms as nat) + " ms / Hit cap: "@ + bool_text(
                    hit_limit,
                ),
            ),
    {
        let mut s = String::new();
        match self.0 {
            UiLanguage::Japanese => {
                push_str(&mut s, "マッチ: ");
                push_decimal(&mut s, matches as u64);
                push_str(&mut s, " ／ ファイル: ");
                push_decimal(&mut s, files as u64);
                push_str(&mut s, " ／ 時間: ");
                push_decimal(&mut s, elapsed_ms);
                push_str(&mut s, " ms ／ 上限打切: ");
                push_bool(&mut s, hit_limit);
            },
            UiLanguage::English => {
                push_str(&mut s, "Matches: ");
                push_decimal(&mut s, matches as u64);
                push_str(&mut s, " / Files: ");
                push_decimal(&mut s, files as u64);
                push_str(&mut s, " / Time: ");
                push_decimal(&mut s, elapsed_ms);
                push_str(&mut s, " ms / Hit cap: ");
                push_bool(&mut s, hit_limit);
            },
        }
        s
    }

    pub fn status_batch_running(self, cur: usize, total: usize, scanned: usize) -> (r: String)
        ensures
            r@ == pick(
                self.0,
                "バッチ "@ + decimal(cur as nat) + "/"@ + decimal(total as nat) + " ・ 走査 "@
                    + decimal(scanned as nat) + " ファイル"@,
                "Batch "@ + decimal(cur as nat) + "/"@ + decimal(total as nat) + " · scanned "@
                    + decimal(scanned as nat) + " files"@,
            ),
    {
        let mut s = String::new();
        match self.0 {
            UiLanguage::Japanese => push_str(&mut s, "バッチ "),
            UiLanguage::English => push_str(&mut s, "Batch "),
        }
        push_decimal(&mut s, cur as u64);
        push_str(&mut s, "/");
        push_decimal(&mut s, total as u64);
        match self.0 {
            UiLanguage::Japanese => push_str(&mut s, " ・ 走査 "),
            UiLanguage::English => push_str(&mut s, " · scanned "),
        }
        push_decimal(&mut s, scanned as u64);
        match self.0 {
            UiLanguage::Japanese => push_str(&mut s, " ファイル"),
            UiLanguage::English => push_str(&mut s, " files"),
        }
        s
    }

    pub fn status_searching(self, scanned: usize) -> (r: String)
        ensures
            r@ == pick(
                self.0,
                "検索中... "@ + decimal(scanned as nat) + " ファイルスキャン済み"@,
                "Searching... "@ + decimal(scanned as nat) + " files scanned"@,
            ),
    {
        let mut s = String::new();
        match self.0 {
            UiLanguage::Japanese => push_str(&mut s, "検索中... "),
            UiLanguage::English => push_str(&mut s, "Searching... "),
        }
        push_decimal(&mut s, scanned as u64);
        match self.0 {
            UiLanguage::Japanese => push_str(&mut s, " ファイルスキャン済み"),
            UiLanguage::English => push_str(&mut s, " files scanned"),
        }
        s
    }

    pub fn status_done(self, matches: usize, files: usize, ms: u64, hit_limit_reached: bool) -> (r: String)
        ensures
            r@ == ({
                let base = pick(
                    self.0,
                    decimal(matches as nat) + "件 / "@ + decimal(files as nat) + "ファイル / "@
                        + decimal(ms as nat) + "ms"@,
                    decimal(matches as nat) + " matches / "@ + decimal(files as nat) + " files / "@
                        + decimal(ms as nat) + "ms"@,
                );
                if hit_limit_reached {
                    base + pick(self.0, "（ヒット上限）"@, " (hit limit)"@)
                } else {
                    base
                }
            }),
    {
        let mut s = String::new();
        push_decimal(&mut s, matches as u64);
        match self.0 {
            UiLanguage::Japanese => push_str(&mut s, "件 / "),
            UiLanguage::English => push_str(&mut s, " matches / "),
        }
        push_decimal(&mut s, files as u64);
        match self.0 {
            UiLanguage::Japanese => push_str(&mut s, "ファイル / "),
            UiLanguage::English => push_str(&mut s, " files / "),
        }
        push_decimal(&mut s, ms);
        push_str(&mut s, "ms");
        if hit_limit_reached {
            match self.0 {
                UiLanguage::Japanese => push_str(&mut s, "（ヒット上限）"),
                UiLanguage::English => push_str(&mut s, " (hit limit)"),
            }
        }
        s
    }
}


/// `prefix` + text + `suffix` in the chosen language, for one-argument texts.
pub open spec fn framed(lang: UiLanguage, ja_pre: Seq<char>, ja_post: Seq<char>, en_pre: Seq<char>, en_post: Seq<char>, arg: Seq<char>) -> Seq<char> {
    pick(lang, ja_pre + arg + ja_post, en_pre + arg + en_post)
}

fn framed_string(lang: UiLanguage, ja_pre: &str, ja_post: &str, en_pre: &str, en_post: &str, arg: &str) -> (r: String)
    ensures
        r@ == framed(lang, ja_pre@, ja_post@, en_pre@, en_post@, arg@),
{
    let mut s = String::new();
    match lang {
        UiLanguage::Japanese => {
            push_str(&mut s, ja_pre);
            push_str(&mut s, arg);
            push_str(&mut s, ja_post);
        },
        UiLanguage::English => {
            push_str(&mut s, en_pre);
            push_str(&mut s, arg);
            push_str(&mut s, en_post);
        },
    }
    s
}

fn framed_number(lang: UiLanguage, ja_pre: &str, ja_post: &str, en_pre: &str, en_post: &str, n: u64) -> (r: String)
    ensures
        r@ == framed(lang, ja_pre@, ja_post@, en_pre@, en_post@, decimal(n as nat)),
{
    let mut s = String::new();
    match lang {
        UiLanguage::Japanese => {
            push_str(&mut s, ja_pre);
            push_decimal(&mut s, n);
            push_str(&mut s, ja_post);
        },
        UiLanguage::English => {
            push_str(&mut s, en_pre);
            push_decimal(&mut s, n);
            push_str(&mut s, en_post);
        },
    }
    s
}

/// The totals line shared by the text, Markdown and HTML exports.
pub open spec fn totals_text(
    lang: UiLanguage,
    ja: (Seq<char>, Seq<char>, Seq<char>, Seq<char>),
    en: (Seq<char>, Seq<char>, Seq<char>, Seq<char>),
    tail: Seq<char>,
    m: nat,
    f: nat,
    ms: nat,
    hit: bool,
) -> Seq<char> {
    let p = match lang {
        UiLanguage::Japanese => ja,
        UiLanguage::English => en,
    };
    p.0 + decimal(m) + p.1 + decimal(f) + p.2 + decimal(ms) + p.3 + hit_limit_suffix_text(lang, hit) + tail
}

impl Tr {
    fn totals_string(
        self,
        ja: (&str, &str, &str, &str),
        en: (&str, &str, &str, &str),
        tail: &str,
        m: usize,
        f: usize,
        ms: u64,
        hit: bool,
    ) -> (r: String)
        ensures
            r@ == totals_text(
                self.0,
                (ja.0@, ja.1@, ja.2@, ja.3@),
                (en.0@, en.1@, en.2@, en.3@),
                tail@,
                m as nat,
                f as nat,
                ms as nat,
                hit,
            ),
    {
        let p = match self.0 {
            UiLanguage::Japanese => ja,
            UiLanguage::English => en,
        };
        let mut s = String::new();
        push_str(&mut s, p.0);
        push_decimal(&mut s, m as u64);
        push_str(&mut s, p.1);
        push_decimal(&mut s, f as u64);
        push_str(&mut s, p.2);
        push_decimal(&mut s, ms);
        push_str(&mut s, p.3);
        push_str(&mut s, self.hit_limit_suffix(hit));
        push_str(&mut s, tail);
        s
    }

    pub fn status_error(self, msg: &str) -> (r: String)
        ensures
            r@ == pick(self.0, "エラー: "@ + msg@, "Error: "@ + msg@),
    {
        proof {
            reveal_strlit("");
        }
        framed_string(self.0, "エラー: ", "", "Error: ", "", msg)
    }

    pub fn rewrite_preview_summary(self, files: usize, elapsed_ms: u64) -> (r: String)
        ensures
            r@ == pick(
                self.0,
                "変更のあるファイル: "@ + decimal(files as nat) + " / 所要時間: "@ + decimal(elapsed_ms as nat) + " ms"@,
                "Files with changes: "@ + decimal(files as nat) + " / Time: "@ + decimal(elapsed_ms as nat) + " ms"@,
            ),
    {
        let mut s = String::new();
        match self.0 {
            UiLanguage::Japanese => push_str(&mut s, "変更のあるファイル: "),
            UiLanguage::English => push_str(&mut s, "Files with changes: "),
        }
        push_decimal(&mut s, files as u64);
        match self.0 {
            UiLanguage::Japanese => push_str(&mut s, " / 所要時間: "),
            UiLanguage::English => push_str(&mut s, " / Time: "),
        }
        push_decimal(&mut s, elapsed_ms);
        push_str(&mut s, " ms");
        s
    }

    pub fn rewrite_replacements_in_file(self, count: usize) -> (r: String)
        ensures
            r@ == pick(self.0, "このファイルでの置換回数: "@ + decimal(count as nat), "Replacements in this file: "@ + decimal(count as nat)),
    {
        proof {
            reveal_strlit("");
        }
        framed_number(self.0, "このファイルでの置換回数: ", "", "Replacements in this file: ", "", count as u64)
    }

    pub fn rewrite_status_previewing(self, done: usize, total: usize) -> (r: String)
        ensures
            r@ == pick(
                self.0,
                "置換プレビュー生成中… "@ + decimal(done as nat) + "/"@ + decimal(total as nat),
                "Building rewrite preview… "@ + decimal(done as nat) + "/"@ + decimal(total as nat),
            ),
    {
        let mut s = String::new();
        match self.0 {
            UiLanguage::Japanese => push_str(&mut s, "置換プレビュー生成中… "),
            UiLanguage::English => push_str(&mut s, "Building rewrite preview… "),
        }
        push_decimal(&mut s, done as u64);
        push_str(&mut s, "/");
        push_decimal(&mut s, total as u64);
        s
    }

    pub fn rewrite_applied_ok(self, n: usize) -> (r: String)
        ensures
            r@ == pick(
                self.0,
                decimal(n as nat) + " 件のファイルを書き換えました。検索を更新しました。"@,
                "Updated "@ + decimal(n as nat) + " file(s). Search refreshed."@,
            ),
    {
        proof {
            reveal_strlit("");
        }
        framed_number(self.0, "", " 件のファイルを書き換えました。検索を更新しました。", "Updated ", " file(s). Search refreshed.", n as u64)
    }

    pub fn pa_lang_line(self, lang_name: &str) -> (r: String)
        ensures
            r@ == pick(self.0, "言語: "@ + lang_name@, "Language: "@ + lang_name@),
    {
        proof {
            reveal_strlit("");
        }
        framed_string(self.0, "言語: ", "", "Language: ", "", lang_name)
    }

    pub fn pa_candidates_count(self, n: usize) -> (r: String)
        ensures
            r@ == pick(
                self.0,
                decimal(n as nat) + "件のパターン候補（スニペットで実際にマッチすることを確認済み）"@,
                decimal(n as nat) + " pattern candidate(s) (verified on snippet)"@,
            ),
    {
        proof {
            reveal_strlit("");
        }
        framed_number(self.0, "", "件のパターン候補（スニペットで実際にマッチすることを確認済み）", "", " pattern candidate(s) (verified on snippet)", n as u64)
    }

    /// The message of a failed file read; `e` is the error's text.
    pub fn code_read_error_fmt(self, e: &str) -> (r: String)
        ensures
            r@ == pick(self.0, "ファイル読み込みエラー: "@ + e@, "Failed to read file: "@ + e@),
    {
        proof {
            reveal_strlit("");
        }
        framed_string(self.0, "ファイル読み込みエラー: ", "", "Failed to read file: ", "", e)
    }

    pub fn code_match_count(self, n: usize) -> (r: String)
        ensures
            r@ == pick(self.0, decimal(n as nat) + " マッチ"@, decimal(n as nat) + " match(es)"@),
    {
        proof {
            reveal_strlit("");
        }
        framed_number(self.0, "", " マッチ", "", " match(es)", n as u64)
    }

    pub fn code_match_list_header(self, n: usize) -> (r: String)
        ensures
            r@ == pick(self.0, "マッチ一覧 ("@ + decimal(n as nat) + " 件)"@, "Matches ("@ + decimal(n as nat) + ")"@),
    {
        proof {
            reveal_strlit("");
        }
        framed_number(self.0, "マッチ一覧 (", " 件)", "Matches (", ")", n as u64)
    }

    pub fn table_type_hint_column_empty_tooltip(self, metavar: &str) -> (r: String)
        ensures
            r@ == pick(self.0, "`$"@ + metavar@ + "` の型を推定できませんでした"@, "Could not infer type for `$"@ + metavar@ + "`"@),
    {
        proof {
            reveal_strlit("");
        }
        framed_string(self.0, "`$", "` の型を推定できませんでした", "Could not infer type for `$", "`", metavar)
    }

    pub fn table_type_hint_no_slot_tooltip(self, column_key: &str) -> (r: String)
        ensures
            r@ == pick(
                self.0,
                "このマッチでは列 `"@ + column_key@ + "` に相当するキャプチャがありません（列幅は他の検索結果の最大に合わせています）"@,
                "This match has no capture for `"@ + column_key@ + "` (the column exists to align with wider matches elsewhere)"@,
            ),
    {
        framed_string(
            self.0,
            "このマッチでは列 `",
            "` に相当するキャプチャがありません（列幅は他の検索結果の最大に合わせています）",
            "This match has no capture for `",
            "` (the column exists to align with wider matches elsewhere)",
            column_key,
        )
    }

    pub fn table_preview_subtitle(self, path: &str, line: usize, col: usize) -> (r: String)
        ensures
            r@ == pick(
                self.0,
                path@ + "  · 行"@ + decimal(line as nat) + " / 列"@ + decimal(col as nat),
                path@ + "  · line "@ + decimal(line as nat) + ", col "@ + decimal(col as nat),
            ),
    {
        let mut s = String::new();
        push_str(&mut s, path);
        match self.0 {
            UiLanguage::Japanese => push_str(&mut s, "  · 行"),
            UiLanguage::English => push_str(&mut s, "  · line "),
        }
        push_decimal(&mut s, line as u64);
        match self.0 {
            UiLanguage::Japanese => push_str(&mut s, " / 列"),
            UiLanguage::English => push_str(&mut s, ", col "),
        }
        push_decimal(&mut s, col as u64);
        s
    }

    /// The message of a regex that failed to compile; `e` is the compiler's message.
    pub fn err_regex_compile(self, e: &str) -> (r: String)
        ensures
            r@ == pick(self.0, "正規表現エラー: "@ + e@, "Regex error: "@ + e@),
    {
        proof {
            reveal_strlit("");
        }
        framed_string(self.0, "正規表現エラー: ", "", "Regex error: ", "", e)
    }

    pub fn export_text_total(self, m: usize, f: usize, ms: u64, hit_limit_reached: bool) -> (r: String)
        ensures
            r@ == totals_text(
                self.0,
                ("合計: "@, "件 / "@, "ファイル / "@, "ms"@),
                ("Total: "@, " matches / "@, " files / "@, "ms"@),
                "\n\n"@,
                m as nat,
                f as nat,
                ms as nat,
                hit_limit_reached,
            ),
    {
        self.totals_string(("合計: ", "件 / ", "ファイル / ", "ms"), ("Total: ", " matches / ", " files / ", "ms"), "\n\n", m, f, ms, hit_limit_reached)
    }

    pub fn export_line_match_header(self, line: usize, col: usize) -> (r: String)
        ensures
            r@ == pick(
                self.0,
                "  行 "@ + decimal(line as nat) + ":"@ + decimal(col as nat) + " \n"@,
                "  line "@ + decimal(line as nat) + ":"@ + decimal(col as nat) + " \n"@,
            ),
    {
        let mut s = String::new();
        match self.0 {
            UiLanguage::Japanese => push_str(&mut s, "  行 "),
            UiLanguage::English => push_str(&mut s, "  line "),
        }
        push_decimal(&mut s, line as u64);
        push_str(&mut s, ":");
        push_decimal(&mut s, col as u64);
        push_str(&mut s, " \n");
        s
    }

    pub fn export_md_stats(self, m: usize, f: usize, ms: u64, hit_limit_reached: bool) -> (r: String)
        ensures
            r@ == totals_text(
                self.0,
                ("\n\n合計: **"@, "件** / **"@, "ファイル** / "@, "ms"@),
                ("\n\nTotal: **"@, "** matches / **"@, "** files / "@, "ms"@),
                "\n\n"@,
                m as nat,
                f as nat,
                ms as nat,
                hit_limit_reached,
            ),
    {
        self.totals_string(
            ("\n\n合計: **", "件** / **", "ファイル** / ", "ms"),
            ("\n\nTotal: **", "** matches / **", "** files / ", "ms"),
            "\n\n",
            m,
            f,
            ms,
            hit_limit_reached,
        )
    }

    pub fn export_html_stats(self, m: usize, f: usize, ms: u64, hit_limit_reached: bool) -> (r: String)
        ensures
            r@ == totals_text(
                self.0,
                ("<p class=\"stats\">合計: <b>"@, "件</b> / <b>"@, "ファイル</b> / "@, "ms"@),
                ("<p class=\"stats\">Total: <b>"@, "</b> matches / <b>"@, "</b> files / "@, "ms"@),
                "</p>\n"@,
                m as nat,
                f as nat,
                ms as nat,
                hit_limit_reached,
            ),
    {
        self.totals_string(
            ("<p class=\"stats\">合計: <b>", "件</b> / <b>", "ファイル</b> / ", "ms"),
            ("<p class=\"stats\">Total: <b>", "</b> matches / <b>", "</b> files / ", "ms"),
            "</p>\n",
            m,
            f,
            ms,
            hit_limit_reached,
        )
    }

    pub fn export_md_table_header_with_metavars(self, metavars: &[String]) -> (r: String)
        ensures
            r@ == pick(
                self.0,
                "| ファイル | 行 | 列 | マッチテキスト | 元コード（前後） |"@,
                "| File | Line | Col | Matched text | Source (context) |"@,
            ) + metavar_cells(views_of(metavars@)) + "\n"@,
    {
        let mut line = String::new();
        match self.0 {
            UiLanguage::Japanese => push_str(&mut line, "| ファイル | 行 | 列 | マッチテキスト | 元コード（前後） |"),
            UiLanguage::English => push_str(&mut line, "| File | Line | Col | Matched text | Source (context) |"),
        }
        let ghost start = line@;
        let mut i: usize = 0;
        while i < metavars.len()
            invariant
                i <= metavars.len(),
                line@ == start + metavar_cells(views_of(metavars@.take(i as int))),
            decreases metavars.len() - i,
        {
            proof {
                assert(views_of(metavars@.take(i + 1)).drop_last() =~= views_of(metavars@.take(i as int)));
            }
            push_str(&mut line, " $");
            push_str(&mut line, metavars[i].as_str());
            push_str(&mut line, " |");
            i = i + 1;
        }
        assert(metavars@.take(metavars.len() as int) == metavars@);
        push_str(&mut line, "\n");
        line
    }
}

} // verus!
