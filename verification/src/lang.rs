//! The programming languages a search can target.
use vstd::prelude::*;

use crate::i18n::{pick, Tr, UiLanguage};
use crate::text::{chars_of, contains_char, ends_with, lowercase, str_views, string_of_range, to_lowercase};
use crate::ui_text_specs as ts;

verus! {

/// A language selectable in the GUI (the searched programming language).
#[derive(Debug, Clone, Copy, PartialEq, Eq, Hash, Structural)]
pub enum SupportedLanguage {
    /// Guess the language from each file's extension (mixed-language projects).
    Auto,
    Rust,
    Java,
    Python,
    JavaScript,
    TypeScript,
    Go,
    Cpp,
    C,
    CSharp,
    Kotlin,
    Scala,
}

/// The fixed languages, in the order the language menu lists them.
pub open spec fn fixed_languages() -> Seq<SupportedLanguage> {
    seq![
        SupportedLanguage::Rust,
        SupportedLanguage::Java,
        SupportedLanguage::Python,
        SupportedLanguage::JavaScript,
        SupportedLanguage::TypeScript,
        SupportedLanguage::Go,
        SupportedLanguage::Cpp,
        SupportedLanguage::C,
        SupportedLanguage::CSharp,
        SupportedLanguage::Kotlin,
        SupportedLanguage::Scala,
    ]
}

pub open spec fn display_name_spec(lang: SupportedLanguage) -> Seq<char> {
    match lang {
        SupportedLanguage::Auto => "Auto"@,
        SupportedLanguage::Rust => "Rust"@,
        SupportedLanguage::Java => "Java"@,
        SupportedLanguage::Python => "Python"@,
        SupportedLanguage::JavaScript => "JavaScript"@,
        SupportedLanguage::TypeScript => "TypeScript"@,
        SupportedLanguage::Go => "Go"@,
        SupportedLanguage::C => "C"@,
        SupportedLanguage::Cpp => "C++"@,
        SupportedLanguage::CSharp => "C#"@,
        SupportedLanguage::Kotlin => "Kotlin"@,
        SupportedLanguage::Scala => "Scala"@,
    }
}

pub open spec fn extensions_spec(lang: SupportedLanguage) -> Seq<Seq<char>> {
    match lang {
        SupportedLanguage::Auto => seq![],
        SupportedLanguage::Rust => seq!["rs"@],
        SupportedLanguage::Java => seq!["java"@],
        SupportedLanguage::Python => seq!["py"@, "pyi"@],
        SupportedLanguage::JavaScript => seq!["js"@, "jsx"@, "mjs"@, "cjs"@],
        SupportedLanguage::TypeScript => seq!["ts"@, "tsx"@, "mts"@, "cts"@],
        SupportedLanguage::Go => seq!["go"@],
        SupportedLanguage::C => seq!["c"@, "h"@],
        SupportedLanguage::Cpp => seq!["cpp"@, "cc"@, "cxx"@, "h"@, "hpp"@, "hh"@, "hxx"@],
        SupportedLanguage::CSharp => seq!["cs"@],
        SupportedLanguage::Kotlin => seq!["kt"@, "kts"@, "ktm"@],
        SupportedLanguage::Scala => seq!["scala"@, "sc"@, "sbt"@],
    }
}

pub open spec fn cli_name_spec(lang: SupportedLanguage) -> Option<Seq<char>> {
    match lang {
        SupportedLanguage::Auto => None,
        SupportedLanguage::Rust => Some("rust"@),
        SupportedLanguage::Java => Some("java"@),
        SupportedLanguage::Python => Some("python"@),
        SupportedLanguage::JavaScript => Some("javascript"@),
        SupportedLanguage::TypeScript => Some("typescript"@),
        SupportedLanguage::Go => Some("go"@),
        SupportedLanguage::C => Some("c"@),
        SupportedLanguage::Cpp => Some("cpp"@),
        SupportedLanguage::CSharp => Some("csharp"@),
        SupportedLanguage::Kotlin => Some("kotlin"@),
        SupportedLanguage::Scala => Some("scala"@),
    }
}

/// The language a lower-cased CLI name denotes.
pub open spec fn lang_for_cli_name(s: Seq<char>) -> Option<SupportedLanguage> {
    if s == "rust"@ || s == "rs"@ {
        Some(SupportedLanguage::Rust)
    } else if s == "java"@ {
        Some(SupportedLanguage::Java)
    } else if s == "python"@ || s == "py"@ {
        Some(SupportedLanguage::Python)
    } else if s == "javascript"@ || s == "js"@ {
        Some(SupportedLanguage::JavaScript)
    } else if s == "typescript"@ || s == "ts"@ {
        Some(SupportedLanguage::TypeScript)
    } else if s == "go"@ {
        Some(SupportedLanguage::Go)
    } else if s == "c"@ {
        Some(SupportedLanguage::C)
    } else if s == "cpp"@ || s == "c++"@ || s == "cc"@ || s == "cxx"@ {
        Some(SupportedLanguage::Cpp)
    } else if s == "csharp"@ || s == "cs"@ || s == "c#"@ {
        Some(SupportedLanguage::CSharp)
    } else if s == "kotlin"@ || s == "kt"@ || s == "kts"@ || s == "ktm"@ {
        Some(SupportedLanguage::Kotlin)
    } else if s == "scala"@ || s == "sc"@ || s == "sbt"@ {
        Some(SupportedLanguage::Scala)
    } else {
        None
    }
}

/// The first fixed language (in `fixed_languages` order) whose extensions contain `ext`.
pub open spec fn first_lang_with_ext(langs: Seq<SupportedLanguage>, ext: Seq<char>) -> Option<SupportedLanguage>
    decreases langs.len(),
{
    if langs.len() == 0 {
        None
    } else if extensions_spec(langs[0]).contains(ext) {
        Some(langs[0])
    } else {
        first_lang_with_ext(langs.drop_first(), ext)
    }
}

/// `s` without its leading `'.'` characters.
pub open spec fn trim_leading_dots(s: Seq<char>) -> Seq<char>
    decreases s.len(),
{
    if s.len() > 0 && s[0] == '.' {
        trim_leading_dots(s.drop_first())
    } else {
        s
    }
}

pub open spec fn lang_for_extension(ext: Seq<char>) -> Option<SupportedLanguage> {
    first_lang_with_ext(fixed_languages(), lowercase(trim_leading_dots(ext)))
}

pub open spec fn syntect_name_spec(lang: SupportedLanguage) -> Seq<char> {
    match lang {
        SupportedLanguage::Auto => "Plain Text"@,
        SupportedLanguage::Rust => "Rust"@,
        SupportedLanguage::Java => "Java"@,
        SupportedLanguage::Python => "Python"@,
        SupportedLanguage::JavaScript => "JavaScript (Babel)"@,
        SupportedLanguage::TypeScript => "TypeScript"@,
        SupportedLanguage::Go => "Go"@,
        SupportedLanguage::C => "C"@,
        SupportedLanguage::Cpp => "C++"@,
        SupportedLanguage::CSharp => "C#"@,
        SupportedLanguage::Kotlin => "Kotlin"@,
        SupportedLanguage::Scala => "Scala"@,
    }
}

pub open spec fn combo_label_spec(lang: SupportedLanguage, ui: UiLanguage) -> Seq<char> {
    match lang {
        SupportedLanguage::Auto => pick(ui, "自動（拡張子）"@, "Auto (extension)"@),
        _ => display_name_spec(lang),
    }
}

pub(crate) fn str_eq(a: &[char], b: &str) -> (r: bool)
    ensures
        r == (a@ == b@),
{
    let w = chars_of(b);
    if a.len() != w.len() {
        return false;
    }
    let mut i: usize = 0;
    while i < a.len()
        invariant
            i <= a.len(),
            a.len() == w.len(),
            w@ == b@,
            forall|j: int| 0 <= j < i ==> a@[j] == w@[j],
        decreases a.len() - i,
    {
        if a[i] != w[i] {
            return false;
        }
        i = i + 1;
    }
    assert(a@ =~= w@);
    true
}

impl SupportedLanguage {
    /// The fixed languages (for pattern checks and extension maps).
    pub fn all() -> (r: &'static [SupportedLanguage])
        ensures
            r@ == fixed_languages(),
    {
        &[
            SupportedLanguage::Rust,
            SupportedLanguage::Java,
            SupportedLanguage::Python,
            SupportedLanguage::JavaScript,
            SupportedLanguage::TypeScript,
            SupportedLanguage::Go,
            SupportedLanguage::Cpp,
            SupportedLanguage::C,
            SupportedLanguage::CSharp,
            SupportedLanguage::Kotlin,
            SupportedLanguage::Scala,
        ]
    }

    /// For the toolbar: `Auto` first, then the fixed languages.
    pub fn all_with_auto() -> (r: &'static [SupportedLanguage])
        ensures
            r@ == seq![SupportedLanguage::Auto] + fixed_languages(),
    {
        let r: &'static [SupportedLanguage] = &[
            SupportedLanguage::Auto,
            SupportedLanguage::Rust,
            SupportedLanguage::Java,
            SupportedLanguage::Python,
            SupportedLanguage::JavaScript,
            SupportedLanguage::TypeScript,
            SupportedLanguage::Go,
            SupportedLanguage::Cpp,
            SupportedLanguage::C,
            SupportedLanguage::CSharp,
            SupportedLanguage::Kotlin,
            SupportedLanguage::Scala,
        ];
        assert(r@ =~= seq![SupportedLanguage::Auto] + fixed_languages());
        r
    }

    /// The label in the toolbar combo box (the UI-language "auto" wording for `Auto`).
    pub fn combo_label(self, ui: UiLanguage) -> (r: String)
        ensures
            r@ == combo_label_spec(self, ui),
    {
        match (self, ui) {
            (SupportedLanguage::Auto, UiLanguage::Japanese) => "自動（拡張子）".to_string(),
            (SupportedLanguage::Auto, UiLanguage::English) => "Auto (extension)".to_string(),
            _ => self.display_name().to_string(),
        }
    }

    pub fn display_name(&self) -> (r: &'static str)
        ensures
            r@ == display_name_spec(*self),
    {
        match self {
            SupportedLanguage::Auto => "Auto",
            SupportedLanguage::Rust => "Rust",
            SupportedLanguage::Java => "Java",
            SupportedLanguage::Python => "Python",
            SupportedLanguage::JavaScript => "JavaScript",
            SupportedLanguage::TypeScript => "TypeScript",
            SupportedLanguage::Go => "Go",
            SupportedLanguage::C => "C",
            SupportedLanguage::Cpp => "C++",
            SupportedLanguage::CSharp => "C#",
            SupportedLanguage::Kotlin => "Kotlin",
            SupportedLanguage::Scala => "Scala",
        }
    }

    pub fn extensions(&self) -> (r: &'static [&'static str])
        ensures
            r@.len() == extensions_spec(*self).len(),
            forall|i: int| 0 <= i < r@.len() ==> (#[trigger] r@[i])@ == extensions_spec(*self)[i],
    {
        match self {
            SupportedLanguage::Auto => &[],
            SupportedLanguage::Rust => &["rs"],
            SupportedLanguage::Java => &["java"],
            SupportedLanguage::Python => &["py", "pyi"],
            SupportedLanguage::JavaScript => &["js", "jsx", "mjs", "cjs"],
            SupportedLanguage::TypeScript => &["ts", "tsx", "mts", "cts"],
            SupportedLanguage::Go => &["go"],
            SupportedLanguage::C => &["c", "h"],
            SupportedLanguage::Cpp => &["cpp", "cc", "cxx", "h", "hpp", "hh", "hxx"],
            SupportedLanguage::CSharp => &["cs"],
            SupportedLanguage::Kotlin => &["kt", "kts", "ktm"],
            SupportedLanguage::Scala => &["scala", "sc", "sbt"],
        }
    }

    /// The `--lang` value of the sg CLI (`None` for `Auto`).
    pub fn to_cli_lang_str(self) -> (r: Option<&'static str>)
        ensures
            match r {
                Some(s) => cli_name_spec(self) == Some(s@),
                None => cli_name_spec(self) is None,
            },
    {
        match self {
            SupportedLanguage::Auto => None,
            SupportedLanguage::Rust => Some("rust"),
            SupportedLanguage::Java => Some("java"),
            SupportedLanguage::Python => Some("python"),
            SupportedLanguage::JavaScript => Some("javascript"),
            SupportedLanguage::TypeScript => Some("typescript"),
            SupportedLanguage::Go => Some("go"),
            SupportedLanguage::C => Some("c"),
            SupportedLanguage::Cpp => Some("cpp"),
            SupportedLanguage::CSharp => Some("csharp"),
            SupportedLanguage::Kotlin => Some("kotlin"),
            SupportedLanguage::Scala => Some("scala"),
        }
    }

    /// The language a CLI language name denotes (case-insensitive).
    pub fn from_cli_str(s: &str) -> (r: Option<SupportedLanguage>)
        ensures
            r == lang_for_cli_name(lowercase(s@)),
    {
        let lower = to_lowercase(s);
        let v = chars_of(lower.as_str());
        Self::from_lower_name(&v)
    }

    fn from_lower_name(v: &[char]) -> (r: Option<SupportedLanguage>)
        ensures
            r == lang_for_cli_name(v@),
    {
        if str_eq(v, "rust") || str_eq(v, "rs") {
            Some(SupportedLanguage::Rust)
        } else if str_eq(v, "java") {
            Some(SupportedLanguage::Java)
        } else if str_eq(v, "python") || str_eq(v, "py") {
            Some(SupportedLanguage::Python)
        } else if str_eq(v, "javascript") || str_eq(v, "js") {
            Some(SupportedLanguage::JavaScript)
        } else if str_eq(v, "typescript") || str_eq(v, "ts") {
            Some(SupportedLanguage::TypeScript)
        } else if str_eq(v, "go") {
            Some(SupportedLanguage::Go)
        } else if str_eq(v, "c") {
            Some(SupportedLanguage::C)
        } else if str_eq(v, "cpp") || str_eq(v, "c++") || str_eq(v, "cc") || str_eq(v, "cxx") {
            Some(SupportedLanguage::Cpp)
        } else if str_eq(v, "csharp") || str_eq(v, "cs") || str_eq(v, "c#") {
            Some(SupportedLanguage::CSharp)
        } else if str_eq(v, "kotlin") || str_eq(v, "kt") || str_eq(v, "kts") || str_eq(v, "ktm") {
            Some(SupportedLanguage::Kotlin)
        } else if str_eq(v, "scala") || str_eq(v, "sc") || str_eq(v, "sbt") {
            Some(SupportedLanguage::Scala)
        } else {
            None
        }
    }

    /// The name of the syntax used for highlighting.
    pub fn syntect_name(&self) -> (r: &'static str)
        ensures
            r@ == syntect_name_spec(*self),
    {
        match self {
            SupportedLanguage::Auto => "Plain Text",
            SupportedLanguage::Rust => "Rust",
            SupportedLanguage::Java => "Java",
            SupportedLanguage::Python => "Python",
            SupportedLanguage::JavaScript => "JavaScript (Babel)",
            SupportedLanguage::TypeScript => "TypeScript",
            SupportedLanguage::Go => "Go",
            SupportedLanguage::C => "C",
            SupportedLanguage::Cpp => "C++",
            SupportedLanguage::CSharp => "C#",
            SupportedLanguage::Kotlin => "Kotlin",
            SupportedLanguage::Scala => "Scala",
        }
    }

    fn has_extension(self, ext: &[char]) -> (r: bool)
        ensures
            r == extensions_spec(self).contains(ext@),
    {
        let exts = self.extensions();
        let mut i: usize = 0;
        while i < exts.len()
            invariant
                i <= exts.len(),
                exts@.len() == extensions_spec(self).len(),
                forall|k: int| 0 <= k < exts@.len() ==> (#[trigger] exts@[k])@ == extensions_spec(self)[k],
                forall|k: int| 0 <= k < i ==> extensions_spec(self)[k] != ext@,
            decreases exts.len() - i,
        {
            if str_eq(ext, exts[i]) {
                assert(extensions_spec(self)[i as int] == ext@);
                return true;
            }
            i = i + 1;
        }
        false
    }

    /// The language of a path's extension (`None` without one).
    pub fn from_path(path: &str) -> (r: Option<SupportedLanguage>)
        ensures
            ends_in_file_name(path@) && r is Some ==> exists|e: Seq<char>|
                ends_with(path@, seq!['.'] + e) && !contains_char(e, '.') && lang_for_extension(e) == r,
            portable_path(path@) ==> r == match extension_spec(path@) {
                Some(e) => lang_for_extension(e),
                None => None,
            },
    {
        match path_extension(path) {
            Some(e) => Self::from_extension(e.as_str()),
            None => None,
        }
    }

    /// The language of an extension (without dot; leading dots and case ignored).
    pub fn from_extension(ext: &str) -> (r: Option<SupportedLanguage>)
        ensures
            r == lang_for_extension(ext@),
    {
        let v = chars_of(ext);
        let mut a: usize = 0;
        assert(v@.skip(0) == v@);
        while a < v.len() && v[a] == '.'
            invariant
                a <= v.len(),
                v@ == ext@,
                trim_leading_dots(v@) == trim_leading_dots(v@.skip(a as int)),
            decreases v.len() - a,
        {
            assert(v@.skip(a as int).drop_first() == v@.skip(a + 1));
            a = a + 1;
        }
        proof {
            if a < v.len() {
                assert(v@.skip(a as int)[0] != '.');
            }
            assert(trim_leading_dots(v@.skip(a as int)) == v@.skip(a as int));
        }
        let rest = string_of_range(&v, a, v.len());
        assert(rest@ == v@.skip(a as int));
        let lower = to_lowercase(rest.as_str());
        let e = chars_of(lower.as_str());
        let all = Self::all();
        let mut i: usize = 0;
        assert(fixed_languages().skip(0) == fixed_languages());
        while i < all.len()
            invariant
                i <= all.len(),
                all@ == fixed_languages(),
                e@ == lowercase(trim_leading_dots(ext@)),
                first_lang_with_ext(fixed_languages(), e@) == first_lang_with_ext(fixed_languages().skip(i as int), e@),
            decreases all.len() - i,
        {
            assert(fixed_languages().skip(i as int).drop_first() == fixed_languages().skip(i + 1));
            if all[i].has_extension(&e) {
                assert(fixed_languages().skip(i as int)[0] == all@[i as int]);
                return Some(all[i]);
            }
            i = i + 1;
        }
        None
    }
}


/// A preset pattern (per language).
pub struct Preset {
    pub label: String,
    pub pattern: &'static str,
    pub description: String,
}

/// The preset patterns of a language: `(label, pattern, description)`.
pub open spec fn presets_spec(lang: SupportedLanguage, ui: UiLanguage) -> Seq<(Seq<char>, Seq<char>, Seq<char>)> {
    match lang {
        SupportedLanguage::Auto => seq![(ts::preset_generic_any(ui), "$EXPR"@, ts::preset_generic_any_desc(ui))],
        SupportedLanguage::Rust => seq![(ts::preset_rust_fn(ui), "fn $NAME($$$ARGS)"@, ts::preset_rust_fn_desc(ui)), (ts::preset_rust_trait_impl(ui), "impl $TRAIT for $TYPE"@, ts::preset_rust_trait_impl_desc(ui)), (ts::preset_rust_unwrap(ui), "$VAR.unwrap()"@, ts::preset_rust_unwrap_desc(ui)), (ts::preset_rust_clone(ui), "$VAR.clone()"@, ts::preset_rust_clone_desc(ui)), (ts::preset_rust_panic(ui), "panic!($$$ARGS)"@, ts::preset_rust_panic_desc(ui))],
        SupportedLanguage::Java => seq![(ts::preset_java_null(ui), "$VAR == null"@, ts::preset_java_null_desc(ui)), (ts::preset_java_println(ui), "System.out.println($$$ARGS)"@, ts::preset_java_println_desc(ui))],
        SupportedLanguage::Python => seq![(ts::preset_py_print(ui), "print($$$ARGS)"@, ts::preset_py_print_desc(ui)), (ts::preset_py_import(ui), "import $MODULE"@, ts::preset_py_import_desc(ui))],
        SupportedLanguage::JavaScript | SupportedLanguage::TypeScript => seq![(ts::preset_js_console(ui), "console.log($$$ARGS)"@, ts::preset_js_console_desc(ui))],
        SupportedLanguage::Go => seq![(ts::preset_go_err(ui), "if err != nil { $$$BODY }"@, ts::preset_go_err_desc(ui))],
        SupportedLanguage::Kotlin => seq![(ts::preset_kotlin_println(ui), "println($$$ARGS)"@, ts::preset_kotlin_println_desc(ui)), (ts::preset_kotlin_fun(ui), "fun $NAME($$$ARGS) { $$$BODY }"@, ts::preset_kotlin_fun_desc(ui))],
        SupportedLanguage::Scala => seq![(ts::preset_scala_println(ui), "println($$$ARGS)"@, ts::preset_scala_println_desc(ui)), (ts::preset_scala_def(ui), "def $NAME($$$ARGS) = $EXPR"@, ts::preset_scala_def_desc(ui))],
        _ => seq![(ts::preset_generic_any(ui), "$EXPR"@, ts::preset_generic_any_desc(ui))],
    }
}

/// The preset patterns offered for a language, with texts in the UI language.
pub fn presets_for(lang: SupportedLanguage, ui: UiLanguage) -> (r: Vec<Preset>)
    ensures
        r@.len() == presets_spec(lang, ui).len(),
        forall|i: int|
            0 <= i < r@.len() ==> ((#[trigger] r@[i]).label@, r@[i].pattern@, r@[i].description@)
                == presets_spec(lang, ui)[i],
{
    let t = Tr(ui);
    let r = match lang {
            SupportedLanguage::Auto => vec![
                Preset { label: t.preset_generic_any().to_string(), pattern: "$EXPR", description: t.preset_generic_any_desc().to_string() },
            ],
            SupportedLanguage::Rust => vec![
                Preset { label: t.preset_rust_fn().to_string(), pattern: "fn $NAME($$$ARGS)", description: t.preset_rust_fn_desc().to_string() },
                Preset { label: t.preset_rust_trait_impl().to_string(), pattern: "impl $TRAIT for $TYPE", description: t.preset_rust_trait_impl_desc().to_string() },
                Preset { label: t.preset_rust_unwrap().to_string(), pattern: "$VAR.unwrap()", description: t.preset_rust_unwrap_desc().to_string() },
                Preset { label: t.preset_rust_clone().to_string(), pattern: "$VAR.clone()", description: t.preset_rust_clone_desc().to_string() },
                Preset { label: t.preset_rust_panic().to_string(), pattern: "panic!($$$ARGS)", description: t.preset_rust_panic_desc().to_string() },
            ],
            SupportedLanguage::Java => vec![
                Preset { label: t.preset_java_null().to_string(), pattern: "$VAR == null", description: t.preset_java_null_desc().to_string() },
                Preset { label: t.preset_java_println().to_string(), pattern: "System.out.println($$$ARGS)", description: t.preset_java_println_desc().to_string() },
            ],
            SupportedLanguage::Python => vec![
                Preset { label: t.preset_py_print().to_string(), pattern: "print($$$ARGS)", description: t.preset_py_print_desc().to_string() },
                Preset { label: t.preset_py_import().to_string(), pattern: "import $MODULE", description: t.preset_py_import_desc().to_string() },
            ],
            SupportedLanguage::JavaScript | SupportedLanguage::TypeScript => vec![
                Preset { label: t.preset_js_console().to_string(), pattern: "console.log($$$ARGS)", description: t.preset_js_console_desc().to_string() },
            ],
            SupportedLanguage::Go => vec![
                Preset { label: t.preset_go_err().to_string(), pattern: "if err != nil { $$$BODY }", description: t.preset_go_err_desc().to_string() },
            ],
            SupportedLanguage::Kotlin => vec![
                Preset { label: t.preset_kotlin_println().to_string(), pattern: "println($$$ARGS)", description: t.preset_kotlin_println_desc().to_string() },
                Preset { label: t.preset_kotlin_fun().to_string(), pattern: "fun $NAME($$$ARGS) { $$$BODY }", description: t.preset_kotlin_fun_desc().to_string() },
            ],
            SupportedLanguage::Scala => vec![
                Preset { label: t.preset_scala_println().to_string(), pattern: "println($$$ARGS)", description: t.preset_scala_println_desc().to_string() },
                Preset { label: t.preset_scala_def().to_string(), pattern: "def $NAME($$$ARGS) = $EXPR", description: t.preset_scala_def_desc().to_string() },
            ],
            _ => vec![
                Preset { label: t.preset_generic_any().to_string(), pattern: "$EXPR", description: t.preset_generic_any_desc().to_string() },
            ],
        };
    proof {
        reveal_strlit("$EXPR");
    }
    r
}

/// Lexicographic order on character sequences (the order of `String` comparison,
/// since UTF-8 preserves code point order).
pub open spec fn lex_lt(a: Seq<char>, b: Seq<char>) -> bool
    decreases a.len(),
{
    if a.len() == 0 {
        b.len() > 0
    } else if b.len() == 0 {
        false
    } else if a[0] < b[0] {
        true
    } else if a[0] == b[0] {
        lex_lt(a.drop_first(), b.drop_first())
    } else {
        false
    }
}

proof fn lemma_first_lang_found(langs: Seq<SupportedLanguage>, e: Seq<char>, j: int)
    requires
        0 <= j < langs.len(),
        extensions_spec(langs[j]).contains(e),
    ensures
        first_lang_with_ext(langs, e) is Some,
    decreases j,
{
    if j > 0 && !extensions_spec(langs[0]).contains(e) {
        assert(langs.drop_first()[j - 1] == langs[j]);
        lemma_first_lang_found(langs.drop_first(), e, j - 1);
    }
}

/// Every extension of a fixed language resolves to a language.
pub proof fn lemma_fixed_extensions_resolve(l: SupportedLanguage, k: int)
    requires
        l != SupportedLanguage::Auto,
        0 <= k < extensions_spec(l).len(),
    ensures
        lang_for_extension(extensions_spec(l)[k]) is Some,
{
    reveal_strlit("rs");
    reveal_strlit("java");
    reveal_strlit("py");
    reveal_strlit("pyi");
    reveal_strlit("js");
    reveal_strlit("jsx");
    reveal_strlit("mjs");
    reveal_strlit("cjs");
    reveal_strlit("ts");
    reveal_strlit("tsx");
    reveal_strlit("mts");
    reveal_strlit("cts");
    reveal_strlit("go");
    reveal_strlit("c");
    reveal_strlit("h");
    reveal_strlit("cpp");
    reveal_strlit("cc");
    reveal_strlit("cxx");
    reveal_strlit("hpp");
    reveal_strlit("hh");
    reveal_strlit("hxx");
    reveal_strlit("cs");
    reveal_strlit("kt");
    reveal_strlit("kts");
    reveal_strlit("ktm");
    reveal_strlit("scala");
    reveal_strlit("sc");
    reveal_strlit("sbt");
    let e = extensions_spec(l)[k];
    assert(e.len() > 0 && e[0] != '.');
    assert(trim_leading_dots(e) == e);
    assert(crate::text::plain_lower_ascii(e));
    let j: int = match l {
        SupportedLanguage::Rust => 0,
        SupportedLanguage::Java => 1,
        SupportedLanguage::Python => 2,
        SupportedLanguage::JavaScript => 3,
        SupportedLanguage::TypeScript => 4,
        SupportedLanguage::Go => 5,
        SupportedLanguage::Cpp => 6,
        SupportedLanguage::C => 7,
        SupportedLanguage::CSharp => 8,
        SupportedLanguage::Kotlin => 9,
        SupportedLanguage::Scala => 10,
        SupportedLanguage::Auto => 0,
    };
    assert(fixed_languages()[j] == l);
    assert(extensions_spec(l).contains(e));
    lemma_first_lang_found(fixed_languages(), e, j);
}

proof fn lemma_first_lang_at(langs: Seq<SupportedLanguage>, e: Seq<char>, j: int)
    requires
        0 <= j < langs.len(),
        extensions_spec(langs[j]).contains(e),
        forall|i: int| 0 <= i < j ==> !extensions_spec(#[trigger] langs[i]).contains(e),
    ensures
        first_lang_with_ext(langs, e) == Some(langs[j]),
    decreases j,
{
    if j > 0 {
        assert(!extensions_spec(langs[0]).contains(e));
        assert forall|i: int| 0 <= i < j - 1 implies !extensions_spec(#[trigger] langs.drop_first()[i]).contains(e) by {
            assert(langs.drop_first()[i] == langs[i + 1]);
        }
        assert(langs.drop_first()[j - 1] == langs[j]);
        lemma_first_lang_at(langs.drop_first(), e, j - 1);
    }
}

/// The extension table: an extension (leading dots and case ignored) names
/// the language that the file-type menu lists it under, the first one where
/// two share it (`h` is C++).
pub proof fn lemma_extension_table(ext: Seq<char>)
    ensures
        ({
            let x = lowercase(trim_leading_dots(ext));
            &&& (x == "rs"@) ==> lang_for_extension(ext) == Some(SupportedLanguage::Rust)
            &&& (x == "java"@) ==> lang_for_extension(ext) == Some(SupportedLanguage::Java)
            &&& (x == "py"@ || x == "pyi"@) ==> lang_for_extension(ext) == Some(SupportedLanguage::Python)
            &&& (x == "js"@ || x == "jsx"@ || x == "mjs"@ || x == "cjs"@) ==> lang_for_extension(ext) == Some(SupportedLanguage::JavaScript)
            &&& (x == "ts"@ || x == "tsx"@ || x == "mts"@ || x == "cts"@) ==> lang_for_extension(ext) == Some(SupportedLanguage::TypeScript)
            &&& (x == "go"@) ==> lang_for_extension(ext) == Some(SupportedLanguage::Go)
            &&& (x == "cpp"@ || x == "cc"@ || x == "cxx"@ || x == "h"@ || x == "hpp"@ || x == "hh"@ || x == "hxx"@) ==> lang_for_extension(ext) == Some(SupportedLanguage::Cpp)
            &&& (x == "c"@) ==> lang_for_extension(ext) == Some(SupportedLanguage::C)
            &&& (x == "cs"@) ==> lang_for_extension(ext) == Some(SupportedLanguage::CSharp)
            &&& (x == "kt"@ || x == "kts"@ || x == "ktm"@) ==> lang_for_extension(ext) == Some(SupportedLanguage::Kotlin)
            &&& (x == "scala"@ || x == "sc"@ || x == "sbt"@) ==> lang_for_extension(ext) == Some(SupportedLanguage::Scala)
        }),
{
    let x = lowercase(trim_leading_dots(ext));
    reveal_strlit("c");
    reveal_strlit("cc");
    reveal_strlit("cjs");
    reveal_strlit("cpp");
    reveal_strlit("cs");
    reveal_strlit("cts");
    reveal_strlit("cxx");
    reveal_strlit("go");
    reveal_strlit("h");
    reveal_strlit("hh");
    reveal_strlit("hpp");
    reveal_strlit("hxx");
    reveal_strlit("java");
    reveal_strlit("js");
    reveal_strlit("jsx");
    reveal_strlit("kt");
    reveal_strlit("ktm");
    reveal_strlit("kts");
    reveal_strlit("mjs");
    reveal_strlit("mts");
    reveal_strlit("py");
    reveal_strlit("pyi");
    reveal_strlit("rs");
    reveal_strlit("sbt");
    reveal_strlit("sc");
    reveal_strlit("scala");
    reveal_strlit("ts");
    reveal_strlit("tsx");
    if x == "rs"@ {

        assert forall|i: int| 0 <= i < 0 implies !extensions_spec(#[trigger] fixed_languages()[i]).contains(x) by {

        }
        assert(fixed_languages()[0] == SupportedLanguage::Rust);
        assert(extensions_spec(SupportedLanguage::Rust)[0] == x);
        lemma_first_lang_at(fixed_languages(), x, 0);
    }
    if x == "java"@ {
            assert(!extensions_spec(SupportedLanguage::Rust).contains("java"@)) by {
                assert forall|k: int| 0 <= k < extensions_spec(SupportedLanguage::Rust).len() implies extensions_spec(SupportedLanguage::Rust)[k] != "java"@ by {
                    if k == 0 { assert("rs"@.len() != "java"@.len()); }
                }
            }
        assert forall|i: int| 0 <= i < 1 implies !extensions_spec(#[trigger] fixed_languages()[i]).contains(x) by {
                if i == 0 { assert(fixed_languages()[i] == SupportedLanguage::Rust); }
        }
        assert(fixed_languages()[1] == SupportedLanguage::Java);
        assert(extensions_spec(SupportedLanguage::Java)[0] == x);
        lemma_first_lang_at(fixed_languages(), x, 1);
    }
    if x == "py"@ {
            assert(!extensions_spec(SupportedLanguage::Rust).contains("py"@)) by {
                assert forall|k: int| 0 <= k < extensions_spec(SupportedLanguage::Rust).len() implies extensions_spec(SupportedLanguage::Rust)[k] != "py"@ by {
                    if k == 0 { assert("rs"@[0] != "py"@[0]); }
                }
            }
            assert(!extensions_spec(SupportedLanguage::Java).contains("py"@)) by {
                assert forall|k: int| 0 <= k < extensions_spec(SupportedLanguage::Java).len() implies extensions_spec(SupportedLanguage::Java)[k] != "py"@ by {
                    if k == 0 { assert("java"@.len() != "py"@.len()); }
                }
            }
        assert forall|i: int| 0 <= i < 2 implies !extensions_spec(#[trigger] fixed_languages()[i]).contains(x) by {
                if i == 0 { assert(fixed_languages()[i] == SupportedLanguage::Rust); }
                if i == 1 { assert(fixed_languages()[i] == SupportedLanguage::Java); }
        }
        assert(fixed_languages()[2] == SupportedLanguage::Python);
        assert(extensions_spec(SupportedLanguage::Python)[0] == x);
        lemma_first_lang_at(fixed_languages(), x, 2);
    }
    if x == "pyi"@ {
            assert(!extensions_spec(SupportedLanguage::Rust).contains("pyi"@)) by {
                assert forall|k: int| 0 <= k < extensions_spec(SupportedLanguage::Rust).len() implies extensions_spec(SupportedLanguage::Rust)[k] != "pyi"@ by {
                    if k == 0 { assert("rs"@.len() != "pyi"@.len()); }
                }
            }
            assert(!extensions_spec(SupportedLanguage::Java).contains("pyi"@)) by {
                assert forall|k: int| 0 <= k < extensions_spec(SupportedLanguage::Java).len() implies extensions_spec(SupportedLanguage::Java)[k] != "pyi"@ by {
                    if k == 0 { assert("java"@.len() != "pyi"@.len()); }
                }
            }
        assert forall|i: int| 0 <= i < 2 implies !extensions_spec(#[trigger] fixed_languages()[i]).contains(x) by {
                if i == 0 { assert(fixed_languages()[i] == SupportedLanguage::Rust); }
                if i == 1 { assert(fixed_languages()[i] == SupportedLanguage::Java); }
        }
        assert(fixed_languages()[2] == SupportedLanguage::Python);
        assert(extensions_spec(SupportedLanguage::Python)[1] == x);
        lemma_first_lang_at(fixed_languages(), x, 2);
    }
    if x == "js"@ {
            assert(!extensions_spec(SupportedLanguage::Rust).contains("js"@)) by {
                assert forall|k: int| 0 <= k < extensions_spec(SupportedLanguage::Rust).len() implies extensions_spec(SupportedLanguage::Rust)[k] != "js"@ by {
                    if k == 0 { assert("rs"@[0] != "js"@[0]); }
                }
            }
            assert(!extensions_spec(SupportedLanguage::Java).contains("js"@)) by {
                assert forall|k: int| 0 <= k < extensions_spec(SupportedLanguage::Java).len() implies extensions_spec(SupportedLanguage::Java)[k] != "js"@ by {
                    if k == 0 { assert("java"@.len() != "js"@.len()); }
                }
            }
            assert(!extensions_spec(SupportedLanguage::Python).contains("js"@)) by {
                assert forall|k: int| 0 <= k < extensions_spec(SupportedLanguage::Python).len() implies extensions_spec(SupportedLanguage::Python)[k] != "js"@ by {
                    if k == 0 { assert("py"@[0] != "js"@[0]); }
                    if k == 1 { assert("pyi"@.len() != "js"@.len()); }
                }
            }
        assert forall|i: int| 0 <= i < 3 implies !extensions_spec(#[trigger] fixed_languages()[i]).contains(x) by {
                if i == 0 { assert(fixed_languages()[i] == SupportedLanguage::Rust); }
                if i == 1 { assert(fixed_languages()[i] == SupportedLanguage::Java); }
                if i == 2 { assert(fixed_languages()[i] == SupportedLanguage::Python); }
        }
        assert(fixed_languages()[3] == SupportedLanguage::JavaScript);
        assert(extensions_spec(SupportedLanguage::JavaScript)[0] == x);
        lemma_first_lang_at(fixed_languages(), x, 3);
    }
    if x == "jsx"@ {
            assert(!extensions_spec(SupportedLanguage::Rust).contains("jsx"@)) by {
                assert forall|k: int| 0 <= k < extensions_spec(SupportedLanguage::Rust).len() implies extensions_spec(SupportedLanguage::Rust)[k] != "jsx"@ by {
                    if k == 0 { assert("rs"@.len() != "jsx"@.len()); }
                }
            }
            assert(!extensions_spec(SupportedLanguage::Java).contains("jsx"@)) by {
                assert forall|k: int| 0 <= k < extensions_spec(SupportedLanguage::Java).len() implies extensions_spec(SupportedLanguage::Java)[k] != "jsx"@ by {
                    if k == 0 { assert("java"@.len() != "jsx"@.len()); }
                }
            }
            assert(!extensions_spec(SupportedLanguage::Python).contains("jsx"@)) by {
                assert forall|k: int| 0 <= k < extensions_spec(SupportedLanguage::Python).len() implies extensions_spec(SupportedLanguage::Python)[k] != "jsx"@ by {
                    if k == 0 { assert("py"@.len() != "jsx"@.len()); }
                    if k == 1 { assert("pyi"@[0] != "jsx"@[0]); }
                }
            }
        assert forall|i: int| 0 <= i < 3 implies !extensions_spec(#[trigger] fixed_languages()[i]).contains(x) by {
                if i == 0 { assert(fixed_languages()[i] == SupportedLanguage::Rust); }
                if i == 1 { assert(fixed_languages()[i] == SupportedLanguage::Java); }
                if i == 2 { assert(fixed_languages()[i] == SupportedLanguage::Python); }
        }
        assert(fixed_languages()[3] == SupportedLanguage::JavaScript);
        assert(extensions_spec(SupportedLanguage::JavaScript)[1] == x);
        lemma_first_lang_at(fixed_languages(), x, 3);
    }
    if x == "mjs"@ {
            assert(!extensions_spec(SupportedLanguage::Rust).contains("mjs"@)) by {
                assert forall|k: int| 0 <= k < extensions_spec(SupportedLanguage::Rust).len() implies extensions_spec(SupportedLanguage::Rust)[k] != "mjs"@ by {
                    if k == 0 { assert("rs"@.len() != "mjs"@.len()); }
                }
            }
            assert(!extensions_spec(SupportedLanguage::Java).contains("mjs"@)) by {
                assert forall|k: int| 0 <= k < extensions_spec(SupportedLanguage::Java).len() implies extensions_spec(SupportedLanguage::Java)[k] != "mjs"@ by {
                    if k == 0 { assert("java"@.len() != "mjs"@.len()); }
                }
            }
            assert(!extensions_spec(SupportedLanguage::Python).contains("mjs"@)) by {
                assert forall|k: int| 0 <= k < extensions_spec(SupportedLanguage::Python).len() implies extensions_spec(SupportedLanguage::Python)[k] != "mjs"@ by {
                    if k == 0 { assert("py"@.len() != "mjs"@.len()); }
                    if k == 1 { assert("pyi"@[0] != "mjs"@[0]); }
                }
            }
        assert forall|i: int| 0 <= i < 3 implies !extensions_spec(#[trigger] fixed_languages()[i]).contains(x) by {
                if i == 0 { assert(fixed_languages()[i] == SupportedLanguage::Rust); }
                if i == 1 { assert(fixed_languages()[i] == SupportedLanguage::Java); }
                if i == 2 { assert(fixed_languages()[i] == SupportedLanguage::Python); }
        }
        assert(fixed_languages()[3] == SupportedLanguage::JavaScript);
        assert(extensions_spec(SupportedLanguage::JavaScript)[2] == x);
        lemma_first_lang_at(fixed_languages(), x, 3);
    }
    if x == "cjs"@ {
            assert(!extensions_spec(SupportedLanguage::Rust).contains("cjs"@)) by {
                assert forall|k: int| 0 <= k < extensions_spec(SupportedLanguage::Rust).len() implies extensions_spec(SupportedLanguage::Rust)[k] != "cjs"@ by {
                    if k == 0 { assert("rs"@.len() != "cjs"@.len()); }
                }
            }
            assert(!extensions_spec(SupportedLanguage::Java).contains("cjs"@)) by {
                assert forall|k: int| 0 <= k < extensions_spec(SupportedLanguage::Java).len() implies extensions_spec(SupportedLanguage::Java)[k] != "cjs"@ by {
                    if k == 0 { assert("java"@.len() != "cjs"@.len()); }
                }
            }
            assert(!extensions_spec(SupportedLanguage::Python).contains("cjs"@)) by {
                assert forall|k: int| 0 <= k < extensions_spec(SupportedLanguage::Python).len() implies extensions_spec(SupportedLanguage::Python)[k] != "cjs"@ by {
                    if k == 0 { assert("py"@.len() != "cjs"@.len()); }
                    if k == 1 { assert("pyi"@[0] != "cjs"@[0]); }
                }
            }
        assert forall|i: int| 0 <= i < 3 implies !extensions_spec(#[trigger] fixed_languages()[i]).contains(x) by {
                if i == 0 { assert(fixed_languages()[i] == SupportedLanguage::Rust); }
                if i == 1 { assert(fixed_languages()[i] == SupportedLanguage::Java); }
                if i == 2 { assert(fixed_languages()[i] == SupportedLanguage::Python); }
        }
        assert(fixed_languages()[3] == SupportedLanguage::JavaScript);
        assert(extensions_spec(SupportedLanguage::JavaScript)[3] == x);
        lemma_first_lang_at(fixed_languages(), x, 3);
    }
    if x == "ts"@ {
            assert(!extensions_spec(SupportedLanguage::Rust).contains("ts"@)) by {
                assert forall|k: int| 0 <= k < extensions_spec(SupportedLanguage::Rust).len() implies extensions_spec(SupportedLanguage::Rust)[k] != "ts"@ by {
                    if k == 0 { assert("rs"@[0] != "ts"@[0]); }
                }
            }
            assert(!extensions_spec(SupportedLanguage::Java).contains("ts"@)) by {
                assert forall|k: int| 0 <= k < extensions_spec(SupportedLanguage::Java).len() implies extensions_spec(SupportedLanguage::Java)[k] != "ts"@ by {
                    if k == 0 { assert("java"@.len() != "ts"@.len()); }
                }
            }
            assert(!extensions_spec(SupportedLanguage::Python).contains("ts"@)) by {
                assert forall|k: int| 0 <= k < extensions_spec(SupportedLanguage::Python).len() implies extensions_spec(SupportedLanguage::Python)[k] != "ts"@ by {
                    if k == 0 { assert("py"@[0] != "ts"@[0]); }
                    if k == 1 { assert("pyi"@.len() != "ts"@.len()); }
                }
            }
            assert(!extensions_spec(SupportedLanguage::JavaScript).contains("ts"@)) by {
                assert forall|k: int| 0 <= k < extensions_spec(SupportedLanguage::JavaScript).len() implies extensions_spec(SupportedLanguage::JavaScript)[k] != "ts"@ by {
                    if k == 0 { assert("js"@[0] != "ts"@[0]); }
                    if k == 1 { assert("jsx"@.len() != "ts"@.len()); }
                    if k == 2 { assert("mjs"@.len() != "ts"@.len()); }
                    if k == 3 { assert("cjs"@.len() != "ts"@.len()); }
                }
            }
        assert forall|i: int| 0 <= i < 4 implies !extensions_spec(#[trigger] fixed_languages()[i]).contains(x) by {
                if i == 0 { assert(fixed_languages()[i] == SupportedLanguage::Rust); }
                if i == 1 { assert(fixed_languages()[i] == SupportedLanguage::Java); }
                if i == 2 { assert(fixed_languages()[i] == SupportedLanguage::Python); }
                if i == 3 { assert(fixed_languages()[i] == SupportedLanguage::JavaScript); }
        }
        assert(fixed_languages()[4] == SupportedLanguage::TypeScript);
        assert(extensions_spec(SupportedLanguage::TypeScript)[0] == x);
        lemma_first_lang_at(fixed_languages(), x, 4);
    }
    if x == "tsx"@ {
            assert(!extensions_spec(SupportedLanguage::Rust).contains("tsx"@)) by {
                assert forall|k: int| 0 <= k < extensions_spec(SupportedLanguage::Rust).len() implies extensions_spec(SupportedLanguage::Rust)[k] != "tsx"@ by {
                    if k == 0 { assert("rs"@.len() != "tsx"@.len()); }
                }
            }
            assert(!extensions_spec(SupportedLanguage::Java).contains("tsx"@)) by {
                assert forall|k: int| 0 <= k < extensions_spec(SupportedLanguage::Java).len() implies extensions_spec(SupportedLanguage::Java)[k] != "tsx"@ by {
                    if k == 0 { assert("java"@.len() != "tsx"@.len()); }
                }
            }
            assert(!extensions_spec(SupportedLanguage::Python).contains("tsx"@)) by {
                assert forall|k: int| 0 <= k < extensions_spec(SupportedLanguage::Python).len() implies extensions_spec(SupportedLanguage::Python)[k] != "tsx"@ by {
                    if k == 0 { assert("py"@.len() != "tsx"@.len()); }
                    if k == 1 { assert("pyi"@[0] != "tsx"@[0]); }
                }
            }
            assert(!extensions_spec(SupportedLanguage::JavaScript).contains("tsx"@)) by {
                assert forall|k: int| 0 <= k < extensions_spec(SupportedLanguage::JavaScript).len() implies extensions_spec(SupportedLanguage::JavaScript)[k] != "tsx"@ by {
                    if k == 0 { assert("js"@.len() != "tsx"@.len()); }
                    if k == 1 { assert("jsx"@[0] != "tsx"@[0]); }
                    if k == 2 { assert("mjs"@[0] != "tsx"@[0]); }
                    if k == 3 { assert("cjs"@[0] != "tsx"@[0]); }
                }
            }
        assert forall|i: int| 0 <= i < 4 implies !extensions_spec(#[trigger] fixed_languages()[i]).contains(x) by {
                if i == 0 { assert(fixed_languages()[i] == SupportedLanguage::Rust); }
                if i == 1 { assert(fixed_languages()[i] == SupportedLanguage::Java); }
                if i == 2 { assert(fixed_languages()[i] == SupportedLanguage::Python); }
                if i == 3 { assert(fixed_languages()[i] == SupportedLanguage::JavaScript); }
        }
        assert(fixed_languages()[4] == SupportedLanguage::TypeScript);
        assert(extensions_spec(SupportedLanguage::TypeScript)[1] == x);
        lemma_first_lang_at(fixed_languages(), x, 4);
    }
    if x == "mts"@ {
            assert(!extensions_spec(SupportedLanguage::Rust).contains("mts"@)) by {
                assert forall|k: int| 0 <= k < extensions_spec(SupportedLanguage::Rust).len() implies extensions_spec(SupportedLanguage::Rust)[k] != "mts"@ by {
                    if k == 0 { assert("rs"@.len() != "mts"@.len()); }
                }
            }
            assert(!extensions_spec(SupportedLanguage::Java).contains("mts"@)) by {
                assert forall|k: int| 0 <= k < extensions_spec(SupportedLanguage::Java).len() implies extensions_spec(SupportedLanguage::Java)[k] != "mts"@ by {
                    if k == 0 { assert("java"@.len() != "mts"@.len()); }
                }
            }
            assert(!extensions_spec(SupportedLanguage::Python).contains("mts"@)) by {
                assert forall|k: int| 0 <= k < extensions_spec(SupportedLanguage::Python).len() implies extensions_spec(SupportedLanguage::Python)[k] != "mts"@ by {
                    if k == 0 { assert("py"@.len() != "mts"@.len()); }
                    if k == 1 { assert("pyi"@[0] != "mts"@[0]); }
                }
            }
            assert(!extensions_spec(SupportedLanguage::JavaScript).contains("mts"@)) by {
                assert forall|k: int| 0 <= k < extensions_spec(SupportedLanguage::JavaScript).len() implies extensions_spec(SupportedLanguage::JavaScript)[k] != "mts"@ by {
                    if k == 0 { assert("js"@.len() != "mts"@.len()); }
                    if k == 1 { assert("jsx"@[0] != "mts"@[0]); }
                    if k == 2 { assert("mjs"@[1] != "mts"@[1]); }
                    if k == 3 { assert("cjs"@[0] != "mts"@[0]); }
                }
            }
        assert forall|i: int| 0 <= i < 4 implies !extensions_spec(#[trigger] fixed_languages()[i]).contains(x) by {
                if i == 0 { assert(fixed_languages()[i] == SupportedLanguage::Rust); }
                if i == 1 { assert(fixed_languages()[i] == SupportedLanguage::Java); }
                if i == 2 { assert(fixed_languages()[i] == SupportedLanguage::Python); }
                if i == 3 { assert(fixed_languages()[i] == SupportedLanguage::JavaScript); }
        }
        assert(fixed_languages()[4] == SupportedLanguage::TypeScript);
        assert(extensions_spec(SupportedLanguage::TypeScript)[2] == x);
        lemma_first_lang_at(fixed_languages(), x, 4);
    }
    if x == "cts"@ {
            assert(!extensions_spec(SupportedLanguage::Rust).contains("cts"@)) by {
                assert forall|k: int| 0 <= k < extensions_spec(SupportedLanguage::Rust).len() implies extensions_spec(SupportedLanguage::Rust)[k] != "cts"@ by {
                    if k == 0 { assert("rs"@.len() != "cts"@.len()); }
                }
            }
            assert(!extensions_spec(SupportedLanguage::Java).contains("cts"@)) by {
                assert forall|k: int| 0 <= k < extensions_spec(SupportedLanguage::Java).len() implies extensions_spec(SupportedLanguage::Java)[k] != "cts"@ by {
                    if k == 0 { assert("java"@.len() != "cts"@.len()); }
                }
            }
            assert(!extensions_spec(SupportedLanguage::Python).contains("cts"@)) by {
                assert forall|k: int| 0 <= k < extensions_spec(SupportedLanguage::Python).len() implies extensions_spec(SupportedLanguage::Python)[k] != "cts"@ by {
                    if k == 0 { assert("py"@.len() != "cts"@.len()); }
                    if k == 1 { assert("pyi"@[0] != "cts"@[0]); }
                }
            }
            assert(!extensions_spec(SupportedLanguage::JavaScript).contains("cts"@)) by {
                assert forall|k: int| 0 <= k < extensions_spec(SupportedLanguage::JavaScript).len() implies extensions_spec(SupportedLanguage::JavaScript)[k] != "cts"@ by {
                    if k == 0 { assert("js"@.len() != "cts"@.len()); }
                    if k == 1 { assert("jsx"@[0] != "cts"@[0]); }
                    if k == 2 { assert("mjs"@[0] != "cts"@[0]); }
                    if k == 3 { assert("cjs"@[1] != "cts"@[1]); }
                }
            }
        assert forall|i: int| 0 <= i < 4 implies !extensions_spec(#[trigger] fixed_languages()[i]).contains(x) by {
                if i == 0 { assert(fixed_languages()[i] == SupportedLanguage::Rust); }
                if i == 1 { assert(fixed_languages()[i] == SupportedLanguage::Java); }
                if i == 2 { assert(fixed_languages()[i] == SupportedLanguage::Python); }
                if i == 3 { assert(fixed_languages()[i] == SupportedLanguage::JavaScript); }
        }
        assert(fixed_languages()[4] == SupportedLanguage::TypeScript);
        assert(extensions_spec(SupportedLanguage::TypeScript)[3] == x);
        lemma_first_lang_at(fixed_languages(), x, 4);
    }
    if x == "go"@ {
            assert(!extensions_spec(SupportedLanguage::Rust).contains("go"@)) by {
                assert forall|k: int| 0 <= k < extensions_spec(SupportedLanguage::Rust).len() implies extensions_spec(SupportedLanguage::Rust)[k] != "go"@ by {
                    if k == 0 { assert("rs"@[0] != "go"@[0]); }
                }
            }
            assert(!extensions_spec(SupportedLanguage::Java).contains("go"@)) by {
                assert forall|k: int| 0 <= k < extensions_spec(SupportedLanguage::Java).len() implies extensions_spec(SupportedLanguage::Java)[k] != "go"@ by {
                    if k == 0 { assert("java"@.len() != "go"@.len()); }
                }
            }
            assert(!extensions_spec(SupportedLanguage::Python).contains("go"@)) by {
                assert forall|k: int| 0 <= k < extensions_spec(SupportedLanguage::Python).len() implies extensions_spec(SupportedLanguage::Python)[k] != "go"@ by {
                    if k == 0 { assert("py"@[0] != "go"@[0]); }
                    if k == 1 { assert("pyi"@.len() != "go"@.len()); }
                }
            }
            assert(!extensions_spec(SupportedLanguage::JavaScript).contains("go"@)) by {
                assert forall|k: int| 0 <= k < extensions_spec(SupportedLanguage::JavaScript).len() implies extensions_spec(SupportedLanguage::JavaScript)[k] != "go"@ by {
                    if k == 0 { assert("js"@[0] != "go"@[0]); }
                    if k == 1 { assert("jsx"@.len() != "go"@.len()); }
                    if k == 2 { assert("mjs"@.len() != "go"@.len()); }
                    if k == 3 { assert("cjs"@.len() != "go"@.len()); }
                }
            }
            assert(!extensions_spec(SupportedLanguage::TypeScript).contains("go"@)) by {
                assert forall|k: int| 0 <= k < extensions_spec(SupportedLanguage::TypeScript).len() implies extensions_spec(SupportedLanguage::TypeScript)[k] != "go"@ by {
                    if k == 0 { assert("ts"@[0] != "go"@[0]); }
                    if k == 1 { assert("tsx"@.len() != "go"@.len()); }
                    if k == 2 { assert("mts"@.len() != "go"@.len()); }
                    if k == 3 { assert("cts"@.len() != "go"@.len()); }
                }
            }
        assert forall|i: int| 0 <= i < 5 implies !extensions_spec(#[trigger] fixed_languages()[i]).contains(x) by {
                if i == 0 { assert(fixed_languages()[i] == SupportedLanguage::Rust); }
                if i == 1 { assert(fixed_languages()[i] == SupportedLanguage::Java); }
                if i == 2 { assert(fixed_languages()[i] == SupportedLanguage::Python); }
                if i == 3 { assert(fixed_languages()[i] == SupportedLanguage::JavaScript); }
                if i == 4 { assert(fixed_languages()[i] == SupportedLanguage::TypeScript); }
        }
        assert(fixed_languages()[5] == SupportedLanguage::Go);
        assert(extensions_spec(SupportedLanguage::Go)[0] == x);
        lemma_first_lang_at(fixed_languages(), x, 5);
    }
    if x == "cpp"@ {
            assert(!extensions_spec(SupportedLanguage::Rust).contains("cpp"@)) by {
                assert forall|k: int| 0 <= k < extensions_spec(SupportedLanguage::Rust).len() implies extensions_spec(SupportedLanguage::Rust)[k] != "cpp"@ by {
                    if k == 0 { assert("rs"@.len() != "cpp"@.len()); }
                }
            }
            assert(!extensions_spec(SupportedLanguage::Java).contains("cpp"@)) by {
                assert forall|k: int| 0 <= k < extensions_spec(SupportedLanguage::Java).len() implies extensions_spec(SupportedLanguage::Java)[k] != "cpp"@ by {
                    if k == 0 { assert("java"@.len() != "cpp"@.len()); }
                }
            }
            assert(!extensions_spec(SupportedLanguage::Python).contains("cpp"@)) by {
                assert forall|k: int| 0 <= k < extensions_spec(SupportedLanguage::Python).len() implies extensions_spec(SupportedLanguage::Python)[k] != "cpp"@ by {
                    if k == 0 { assert("py"@.len() != "cpp"@.len()); }
                    if k == 1 { assert("pyi"@[0] != "cpp"@[0]); }
                }
            }
            assert(!extensions_spec(SupportedLanguage::JavaScript).contains("cpp"@)) by {
                assert forall|k: int| 0 <= k < extensions_spec(SupportedLanguage::JavaScript).len() implies extensions_spec(SupportedLanguage::JavaScript)[k] != "cpp"@ by {
                    if k == 0 { assert("js"@.len() != "cpp"@.len()); }
                    if k == 1 { assert("jsx"@[0] != "cpp"@[0]); }
                    if k == 2 { assert("mjs"@[0] != "cpp"@[0]); }
                    if k == 3 { assert("cjs"@[1] != "cpp"@[1]); }
                }
            }
            assert(!extensions_spec(SupportedLanguage::TypeScript).contains("cpp"@)) by {
                assert forall|k: int| 0 <= k < extensions_spec(SupportedLanguage::TypeScript).len() implies extensions_spec(SupportedLanguage::TypeScript)[k] != "cpp"@ by {
                    if k == 0 { assert("ts"@.len() != "cpp"@.len()); }
                    if k == 1 { assert("tsx"@[0] != "cpp"@[0]); }
                    if k == 2 { assert("mts"@[0] != "cpp"@[0]); }
                    if k == 3 { assert("cts"@[1] != "cpp"@[1]); }
                }
            }
            assert(!extensions_spec(SupportedLanguage::Go).contains("cpp"@)) by {
                assert forall|k: int| 0 <= k < extensions_spec(SupportedLanguage::Go).len() implies extensions_spec(SupportedLanguage::Go)[k] != "cpp"@ by {
                    if k == 0 { assert("go"@.len() != "cpp"@.len()); }
                }
            }
        assert forall|i: int| 0 <= i < 6 implies !extensions_spec(#[trigger] fixed_languages()[i]).contains(x) by {
                if i == 0 { assert(fixed_languages()[i] == SupportedLanguage::Rust); }
                if i == 1 { assert(fixed_languages()[i] == SupportedLanguage::Java); }
                if i == 2 { assert(fixed_languages()[i] == SupportedLanguage::Python); }
                if i == 3 { assert(fixed_languages()[i] == SupportedLanguage::JavaScript); }
                if i == 4 { assert(fixed_languages()[i] == SupportedLanguage::TypeScript); }
                if i == 5 { assert(fixed_languages()[i] == SupportedLanguage::Go); }
        }
        assert(fixed_languages()[6] == SupportedLanguage::Cpp);
        assert(extensions_spec(SupportedLanguage::Cpp)[0] == x);
        lemma_first_lang_at(fixed_languages(), x, 6);
    }
    if x == "cc"@ {
            assert(!extensions_spec(SupportedLanguage::Rust).contains("cc"@)) by {
                assert forall|k: int| 0 <= k < extensions_spec(SupportedLanguage::Rust).len() implies extensions_spec(SupportedLanguage::Rust)[k] != "cc"@ by {
                    if k == 0 { assert("rs"@[0] != "cc"@[0]); }
                }
            }
            assert(!extensions_spec(SupportedLanguage::Java).contains("cc"@)) by {
                assert forall|k: int| 0 <= k < extensions_spec(SupportedLanguage::Java).len() implies extensions_spec(SupportedLanguage::Java)[k] != "cc"@ by {
                    if k == 0 { assert("java"@.len() != "cc"@.len()); }
                }
            }
            assert(!extensions_spec(SupportedLanguage::Python).contains("cc"@)) by {
                assert forall|k: int| 0 <= k < extensions_spec(SupportedLanguage::Python).len() implies extensions_spec(SupportedLanguage::Python)[k] != "cc"@ by {
                    if k == 0 { assert("py"@[0] != "cc"@[0]); }
                    if k == 1 { assert("pyi"@.len() != "cc"@.len()); }
                }
            }
            assert(!extensions_spec(SupportedLanguage::JavaScript).contains("cc"@)) by {
                assert forall|k: int| 0 <= k < extensions_spec(SupportedLanguage::JavaScript).len() implies extensions_spec(SupportedLanguage::JavaScript)[k] != "cc"@ by {
                    if k == 0 { assert("js"@[0] != "cc"@[0]); }
                    if k == 1 { assert("jsx"@.len() != "cc"@.len()); }
                    if k == 2 { assert("mjs"@.len() != "cc"@.len()); }
                    if k == 3 { assert("cjs"@.len() != "cc"@.len()); }
                }
            }
            assert(!extensions_spec(SupportedLanguage::TypeScript).contains("cc"@)) by {
                assert forall|k: int| 0 <= k < extensions_spec(SupportedLanguage::TypeScript).len() implies extensions_spec(SupportedLanguage::TypeScript)[k] != "cc"@ by {
                    if k == 0 { assert("ts"@[0] != "cc"@[0]); }
                    if k == 1 { assert("tsx"@.len() != "cc"@.len()); }
                    if k == 2 { assert("mts"@.len() != "cc"@.len()); }
                    if k == 3 { assert("cts"@.len() != "cc"@.len()); }
                }
            }
            assert(!extensions_spec(SupportedLanguage::Go).contains("cc"@)) by {
                assert forall|k: int| 0 <= k < extensions_spec(SupportedLanguage::Go).len() implies extensions_spec(SupportedLanguage::Go)[k] != "cc"@ by {
                    if k == 0 { assert("go"@[0] != "cc"@[0]); }
                }
            }
        assert forall|i: int| 0 <= i < 6 implies !extensions_spec(#[trigger] fixed_languages()[i]).contains(x) by {
                if i == 0 { assert(fixed_languages()[i] == SupportedLanguage::Rust); }
                if i == 1 { assert(fixed_languages()[i] == SupportedLanguage::Java); }
                if i == 2 { assert(fixed_languages()[i] == SupportedLanguage::Python); }
                if i == 3 { assert(fixed_languages()[i] == SupportedLanguage::JavaScript); }
                if i == 4 { assert(fixed_languages()[i] == SupportedLanguage::TypeScript); }
                if i == 5 { assert(fixed_languages()[i] == SupportedLanguage::Go); }
        }
        assert(fixed_languages()[6] == SupportedLanguage::Cpp);
        assert(extensions_spec(SupportedLanguage::Cpp)[1] == x);
        lemma_first_lang_at(fixed_languages(), x, 6);
    }
    if x == "cxx"@ {
            assert(!extensions_spec(SupportedLanguage::Rust).contains("cxx"@)) by {
                assert forall|k: int| 0 <= k < extensions_spec(SupportedLanguage::Rust).len() implies extensions_spec(SupportedLanguage::Rust)[k] != "cxx"@ by {
                    if k == 0 { assert("rs"@.len() != "cxx"@.len()); }
                }
            }
            assert(!extensions_spec(SupportedLanguage::Java).contains("cxx"@)) by {
                assert forall|k: int| 0 <= k < extensions_spec(SupportedLanguage::Java).len() implies extensions_spec(SupportedLanguage::Java)[k] != "cxx"@ by {
                    if k == 0 { assert("java"@.len() != "cxx"@.len()); }
                }
            }
            assert(!extensions_spec(SupportedLanguage::Python).contains("cxx"@)) by {
                assert forall|k: int| 0 <= k < extensions_spec(SupportedLanguage::Python).len() implies extensions_spec(SupportedLanguage::Python)[k] != "cxx"@ by {
                    if k == 0 { assert("py"@.len() != "cxx"@.len()); }
                    if k == 1 { assert("pyi"@[0] != "cxx"@[0]); }
                }
            }
            assert(!extensions_spec(SupportedLanguage::JavaScript).contains("cxx"@)) by {
                assert forall|k: int| 0 <= k < extensions_spec(SupportedLanguage::JavaScript).len() implies extensions_spec(SupportedLanguage::JavaScript)[k] != "cxx"@ by {
                    if k == 0 { assert("js"@.len() != "cxx"@.len()); }
                    if k == 1 { assert("jsx"@[0] != "cxx"@[0]); }
                    if k == 2 { assert("mjs"@[0] != "cxx"@[0]); }
                    if k == 3 { assert("cjs"@[1] != "cxx"@[1]); }
                }
            }
            assert(!extensions_spec(SupportedLanguage::TypeScript).contains("cxx"@)) by {
                assert forall|k: int| 0 <= k < extensions_spec(SupportedLanguage::TypeScript).len() implies extensions_spec(SupportedLanguage::TypeScript)[k] != "cxx"@ by {
                    if k == 0 { assert("ts"@.len() != "cxx"@.len()); }
                    if k == 1 { assert("tsx"@[0] != "cxx"@[0]); }
                    if k == 2 { assert("mts"@[0] != "cxx"@[0]); }
                    if k == 3 { assert("cts"@[1] != "cxx"@[1]); }
                }
            }
            assert(!extensions_spec(SupportedLanguage::Go).contains("cxx"@)) by {
                assert forall|k: int| 0 <= k < extensions_spec(SupportedLanguage::Go).len() implies extensions_spec(SupportedLanguage::Go)[k] != "cxx"@ by {
                    if k == 0 { assert("go"@.len() != "cxx"@.len()); }
                }
            }
        assert forall|i: int| 0 <= i < 6 implies !extensions_spec(#[trigger] fixed_languages()[i]).contains(x) by {
                if i == 0 { assert(fixed_languages()[i] == SupportedLanguage::Rust); }
                if i == 1 { assert(fixed_languages()[i] == SupportedLanguage::Java); }
                if i == 2 { assert(fixed_languages()[i] == SupportedLanguage::Python); }
                if i == 3 { assert(fixed_languages()[i] == SupportedLanguage::JavaScript); }
                if i == 4 { assert(fixed_languages()[i] == SupportedLanguage::TypeScript); }
                if i == 5 { assert(fixed_languages()[i] == SupportedLanguage::Go); }
        }
        assert(fixed_languages()[6] == SupportedLanguage::Cpp);
        assert(extensions_spec(SupportedLanguage::Cpp)[2] == x);
        lemma_first_lang_at(fixed_languages(), x, 6);
    }
    if x == "h"@ {
            assert(!extensions_spec(SupportedLanguage::Rust).contains("h"@)) by {
                assert forall|k: int| 0 <= k < extensions_spec(SupportedLanguage::Rust).len() implies extensions_spec(SupportedLanguage::Rust)[k] != "h"@ by {
                    if k == 0 { assert("rs"@.len() != "h"@.len()); }
                }
            }
            assert(!extensions_spec(SupportedLanguage::Java).contains("h"@)) by {
                assert forall|k: int| 0 <= k < extensions_spec(SupportedLanguage::Java).len() implies extensions_spec(SupportedLanguage::Java)[k] != "h"@ by {
                    if k == 0 { assert("java"@.len() != "h"@.len()); }
                }
            }
            assert(!extensions_spec(SupportedLanguage::Python).contains("h"@)) by {
                assert forall|k: int| 0 <= k < extensions_spec(SupportedLanguage::Python).len() implies extensions_spec(SupportedLanguage::Python)[k] != "h"@ by {
                    if k == 0 { assert("py"@.len() != "h"@.len()); }
                    if k == 1 { assert("pyi"@.len() != "h"@.len()); }
                }
            }
            assert(!extensions_spec(SupportedLanguage::JavaScript).contains("h"@)) by {
                assert forall|k: int| 0 <= k < extensions_spec(SupportedLanguage::JavaScript).len() implies extensions_spec(SupportedLanguage::JavaScript)[k] != "h"@ by {
                    if k == 0 { assert("js"@.len() != "h"@.len()); }
                    if k == 1 { assert("jsx"@.len() != "h"@.len()); }
                    if k == 2 { assert("mjs"@.len() != "h"@.len()); }
                    if k == 3 { assert("cjs"@.len() != "h"@.len()); }
                }
            }
            assert(!extensions_spec(SupportedLanguage::TypeScript).contains("h"@)) by {
                assert forall|k: int| 0 <= k < extensions_spec(SupportedLanguage::TypeScript).len() implies extensions_spec(SupportedLanguage::TypeScript)[k] != "h"@ by {
                    if k == 0 { assert("ts"@.len() != "h"@.len()); }
                    if k == 1 { assert("tsx"@.len() != "h"@.len()); }
                    if k == 2 { assert("mts"@.len() != "h"@.len()); }
                    if k == 3 { assert("cts"@.len() != "h"@.len()); }
                }
            }
            assert(!extensions_spec(SupportedLanguage::Go).contains("h"@)) by {
                assert forall|k: int| 0 <= k < extensions_spec(SupportedLanguage::Go).len() implies extensions_spec(SupportedLanguage::Go)[k] != "h"@ by {
                    if k == 0 { assert("go"@.len() != "h"@.len()); }
                }
            }
        assert forall|i: int| 0 <= i < 6 implies !extensions_spec(#[trigger] fixed_languages()[i]).contains(x) by {
                if i == 0 { assert(fixed_languages()[i] == SupportedLanguage::Rust); }
                if i == 1 { assert(fixed_languages()[i] == SupportedLanguage::Java); }
                if i == 2 { assert(fixed_languages()[i] == SupportedLanguage::Python); }
                if i == 3 { assert(fixed_languages()[i] == SupportedLanguage::JavaScript); }
                if i == 4 { assert(fixed_languages()[i] == SupportedLanguage::TypeScript); }
                if i == 5 { assert(fixed_languages()[i] == SupportedLanguage::Go); }
        }
        assert(fixed_languages()[6] == SupportedLanguage::Cpp);
        assert(extensions_spec(SupportedLanguage::Cpp)[3] == x);
        lemma_first_lang_at(fixed_languages(), x, 6);
    }
    if x == "hpp"@ {
            assert(!extensions_spec(SupportedLanguage::Rust).contains("hpp"@)) by {
                assert forall|k: int| 0 <= k < extensions_spec(SupportedLanguage::Rust).len() implies extensions_spec(SupportedLanguage::Rust)[k] != "hpp"@ by {
                    if k == 0 { assert("rs"@.len() != "hpp"@.len()); }
                }
            }
            assert(!extensions_spec(SupportedLanguage::Java).contains("hpp"@)) by {
                assert forall|k: int| 0 <= k < extensions_spec(SupportedLanguage::Java).len() implies extensions_spec(SupportedLanguage::Java)[k] != "hpp"@ by {
                    if k == 0 { assert("java"@.len() != "hpp"@.len()); }
                }
            }
            assert(!extensions_spec(SupportedLanguage::Python).contains("hpp"@)) by {
                assert forall|k: int| 0 <= k < extensions_spec(SupportedLanguage::Python).len() implies extensions_spec(SupportedLanguage::Python)[k] != "hpp"@ by {
                    if k == 0 { assert("py"@.len() != "hpp"@.len()); }
                    if k == 1 { assert("pyi"@[0] != "hpp"@[0]); }
                }
            }
            assert(!extensions_spec(SupportedLanguage::JavaScript).contains("hpp"@)) by {
                assert forall|k: int| 0 <= k < extensions_spec(SupportedLanguage::JavaScript).len() implies extensions_spec(SupportedLanguage::JavaScript)[k] != "hpp"@ by {
                    if k == 0 { assert("js"@.len() != "hpp"@.len()); }
                    if k == 1 { assert("jsx"@[0] != "hpp"@[0]); }
                    if k == 2 { assert("mjs"@[0] != "hpp"@[0]); }
                    if k == 3 { assert("cjs"@[0] != "hpp"@[0]); }
                }
            }
            assert(!extensions_spec(SupportedLanguage::TypeScript).contains("hpp"@)) by {
                assert forall|k: int| 0 <= k < extensions_spec(SupportedLanguage::TypeScript).len() implies extensions_spec(SupportedLanguage::TypeScript)[k] != "hpp"@ by {
                    if k == 0 { assert("ts"@.len() != "hpp"@.len()); }
                    if k == 1 { assert("tsx"@[0] != "hpp"@[0]); }
                    if k == 2 { assert("mts"@[0] != "hpp"@[0]); }
                    if k == 3 { assert("cts"@[0] != "hpp"@[0]); }
                }
            }
            assert(!extensions_spec(SupportedLanguage::Go).contains("hpp"@)) by {
                assert forall|k: int| 0 <= k < extensions_spec(SupportedLanguage::Go).len() implies extensions_spec(SupportedLanguage::Go)[k] != "hpp"@ by {
                    if k == 0 { assert("go"@.len() != "hpp"@.len()); }
                }
            }
        assert forall|i: int| 0 <= i < 6 implies !extensions_spec(#[trigger] fixed_languages()[i]).contains(x) by {
                if i == 0 { assert(fixed_languages()[i] == SupportedLanguage::Rust); }
                if i == 1 { assert(fixed_languages()[i] == SupportedLanguage::Java); }
                if i == 2 { assert(fixed_languages()[i] == SupportedLanguage::Python); }
                if i == 3 { assert(fixed_languages()[i] == SupportedLanguage::JavaScript); }
                if i == 4 { assert(fixed_languages()[i] == SupportedLanguage::TypeScript); }
                if i == 5 { assert(fixed_languages()[i] == SupportedLanguage::Go); }
        }
        assert(fixed_languages()[6] == SupportedLanguage::Cpp);
        assert(extensions_spec(SupportedLanguage::Cpp)[4] == x);
        lemma_first_lang_at(fixed_languages(), x, 6);
    }
    if x == "hh"@ {
            assert(!extensions_spec(SupportedLanguage::Rust).contains("hh"@)) by {
                assert forall|k: int| 0 <= k < extensions_spec(SupportedLanguage::Rust).len() implies extensions_spec(SupportedLanguage::Rust)[k] != "hh"@ by {
                    if k == 0 { assert("rs"@[0] != "hh"@[0]); }
                }
            }
            assert(!extensions_spec(SupportedLanguage::Java).contains("hh"@)) by {
                assert forall|k: int| 0 <= k < extensions_spec(SupportedLanguage::Java).len() implies extensions_spec(SupportedLanguage::Java)[k] != "hh"@ by {
                    if k == 0 { assert("java"@.len() != "hh"@.len()); }
                }
            }
            assert(!extensions_spec(SupportedLanguage::Python).contains("hh"@)) by {
                assert forall|k: int| 0 <= k < extensions_spec(SupportedLanguage::Python).len() implies extensions_spec(SupportedLanguage::Python)[k] != "hh"@ by {
                    if k == 0 { assert("py"@[0] != "hh"@[0]); }
                    if k == 1 { assert("pyi"@.len() != "hh"@.len()); }
                }
            }
            assert(!extensions_spec(SupportedLanguage::JavaScript).contains("hh"@)) by {
                assert forall|k: int| 0 <= k < extensions_spec(SupportedLanguage::JavaScript).len() implies extensions_spec(SupportedLanguage::JavaScript)[k] != "hh"@ by {
                    if k == 0 { assert("js"@[0] != "hh"@[0]); }
                    if k == 1 { assert("jsx"@.len() != "hh"@.len()); }
                    if k == 2 { assert("mjs"@.len() != "hh"@.len()); }
                    if k == 3 { assert("cjs"@.len() != "hh"@.len()); }
                }
            }
            assert(!extensions_spec(SupportedLanguage::TypeScript).contains("hh"@)) by {
                assert forall|k: int| 0 <= k < extensions_spec(SupportedLanguage::TypeScript).len() implies extensions_spec(SupportedLanguage::TypeScript)[k] != "hh"@ by {
                    if k == 0 { assert("ts"@[0] != "hh"@[0]); }
                    if k == 1 { assert("tsx"@.len() != "hh"@.len()); }
                    if k == 2 { assert("mts"@.len() != "hh"@.len()); }
                    if k == 3 { assert("cts"@.len() != "hh"@.len()); }
                }
            }
            assert(!extensions_spec(SupportedLanguage::Go).contains("hh"@)) by {
                assert forall|k: int| 0 <= k < extensions_spec(SupportedLanguage::Go).len() implies extensions_spec(SupportedLanguage::Go)[k] != "hh"@ by {
                    if k == 0 { assert("go"@[0] != "hh"@[0]); }
                }
            }
        assert forall|i: int| 0 <= i < 6 implies !extensions_spec(#[trigger] fixed_languages()[i]).contains(x) by {
                if i == 0 { assert(fixed_languages()[i] == SupportedLanguage::Rust); }
                if i == 1 { assert(fixed_languages()[i] == SupportedLanguage::Java); }
                if i == 2 { assert(fixed_languages()[i] == SupportedLanguage::Python); }
                if i == 3 { assert(fixed_languages()[i] == SupportedLanguage::JavaScript); }
                if i == 4 { assert(fixed_languages()[i] == SupportedLanguage::TypeScript); }
                if i == 5 { assert(fixed_languages()[i] == SupportedLanguage::Go); }
        }
        assert(fixed_languages()[6] == SupportedLanguage::Cpp);
        assert(extensions_spec(SupportedLanguage::Cpp)[5] == x);
        lemma_first_lang_at(fixed_languages(), x, 6);
    }
    if x == "hxx"@ {
            assert(!extensions_spec(SupportedLanguage::Rust).contains("hxx"@)) by {
                assert forall|k: int| 0 <= k < extensions_spec(SupportedLanguage::Rust).len() implies extensions_spec(SupportedLanguage::Rust)[k] != "hxx"@ by {
                    if k == 0 { assert("rs"@.len() != "hxx"@.len()); }
                }
            }
            assert(!extensions_spec(SupportedLanguage::Java).contains("hxx"@)) by {
                assert forall|k: int| 0 <= k < extensions_spec(SupportedLanguage::Java).len() implies extensions_spec(SupportedLanguage::Java)[k] != "hxx"@ by {
                    if k == 0 { assert("java"@.len() != "hxx"@.len()); }
                }
            }
            assert(!extensions_spec(SupportedLanguage::Python).contains("hxx"@)) by {
                assert forall|k: int| 0 <= k < extensions_spec(SupportedLanguage::Python).len() implies extensions_spec(SupportedLanguage::Python)[k] != "hxx"@ by {
                    if k == 0 { assert("py"@.len() != "hxx"@.len()); }
                    if k == 1 { assert("pyi"@[0] != "hxx"@[0]); }
                }
            }
            assert(!extensions_spec(SupportedLanguage::JavaScript).contains("hxx"@)) by {
                assert forall|k: int| 0 <= k < extensions_spec(SupportedLanguage::JavaScript).len() implies extensions_spec(SupportedLanguage::JavaScript)[k] != "hxx"@ by {
                    if k == 0 { assert("js"@.len() != "hxx"@.len()); }
                    if k == 1 { assert("jsx"@[0] != "hxx"@[0]); }
                    if k == 2 { assert("mjs"@[0] != "hxx"@[0]); }
                    if k == 3 { assert("cjs"@[0] != "hxx"@[0]); }
                }
            }
            assert(!extensions_spec(SupportedLanguage::TypeScript).contains("hxx"@)) by {
                assert forall|k: int| 0 <= k < extensions_spec(SupportedLanguage::TypeScript).len() implies extensions_spec(SupportedLanguage::TypeScript)[k] != "hxx"@ by {
                    if k == 0 { assert("ts"@.len() != "hxx"@.len()); }
                    if k == 1 { assert("tsx"@[0] != "hxx"@[0]); }
                    if k == 2 { assert("mts"@[0] != "hxx"@[0]); }
                    if k == 3 { assert("cts"@[0] != "hxx"@[0]); }
                }
            }
            assert(!extensions_spec(SupportedLanguage::Go).contains("hxx"@)) by {
                assert forall|k: int| 0 <= k < extensions_spec(SupportedLanguage::Go).len() implies extensions_spec(SupportedLanguage::Go)[k] != "hxx"@ by {
                    if k == 0 { assert("go"@.len() != "hxx"@.len()); }
                }
            }
        assert forall|i: int| 0 <= i < 6 implies !extensions_spec(#[trigger] fixed_languages()[i]).contains(x) by {
                if i == 0 { assert(fixed_languages()[i] == SupportedLanguage::Rust); }
                if i == 1 { assert(fixed_languages()[i] == SupportedLanguage::Java); }
                if i == 2 { assert(fixed_languages()[i] == SupportedLanguage::Python); }
                if i == 3 { assert(fixed_languages()[i] == SupportedLanguage::JavaScript); }
                if i == 4 { assert(fixed_languages()[i] == SupportedLanguage::TypeScript); }
                if i == 5 { assert(fixed_languages()[i] == SupportedLanguage::Go); }
        }
        assert(fixed_languages()[6] == SupportedLanguage::Cpp);
        assert(extensions_spec(SupportedLanguage::Cpp)[6] == x);
        lemma_first_lang_at(fixed_languages(), x, 6);
    }
    if x == "c"@ {
            assert(!extensions_spec(SupportedLanguage::Rust).contains("c"@)) by {
                assert forall|k: int| 0 <= k < extensions_spec(SupportedLanguage::Rust).len() implies extensions_spec(SupportedLanguage::Rust)[k] != "c"@ by {
                    if k == 0 { assert("rs"@.len() != "c"@.len()); }
                }
            }
            assert(!extensions_spec(SupportedLanguage::Java).contains("c"@)) by {
                assert forall|k: int| 0 <= k < extensions_spec(SupportedLanguage::Java).len() implies extensions_spec(SupportedLanguage::Java)[k] != "c"@ by {
                    if k == 0 { assert("java"@.len() != "c"@.len()); }
                }
            }
            assert(!extensions_spec(SupportedLanguage::Python).contains("c"@)) by {
                assert forall|k: int| 0 <= k < extensions_spec(SupportedLanguage::Python).len() implies extensions_spec(SupportedLanguage::Python)[k] != "c"@ by {
                    if k == 0 { assert("py"@.len() != "c"@.len()); }
                    if k == 1 { assert("pyi"@.len() != "c"@.len()); }
                }
            }
            assert(!extensions_spec(SupportedLanguage::JavaScript).contains("c"@)) by {
                assert forall|k: int| 0 <= k < extensions_spec(SupportedLanguage::JavaScript).len() implies extensions_spec(SupportedLanguage::JavaScript)[k] != "c"@ by {
                    if k == 0 { assert("js"@.len() != "c"@.len()); }
                    if k == 1 { assert("jsx"@.len() != "c"@.len()); }
                    if k == 2 { assert("mjs"@.len() != "c"@.len()); }
                    if k == 3 { assert("cjs"@.len() != "c"@.len()); }
                }
            }
            assert(!extensions_spec(SupportedLanguage::TypeScript).contains("c"@)) by {
                assert forall|k: int| 0 <= k < extensions_spec(SupportedLanguage::TypeScript).len() implies extensions_spec(SupportedLanguage::TypeScript)[k] != "c"@ by {
                    if k == 0 { assert("ts"@.len() != "c"@.len()); }
                    if k == 1 { assert("tsx"@.len() != "c"@.len()); }
                    if k == 2 { assert("mts"@.len() != "c"@.len()); }
                    if k == 3 { assert("cts"@.len() != "c"@.len()); }
                }
            }
            assert(!extensions_spec(SupportedLanguage::Go).contains("c"@)) by {
                assert forall|k: int| 0 <= k < extensions_spec(SupportedLanguage::Go).len() implies extensions_spec(SupportedLanguage::Go)[k] != "c"@ by {
                    if k == 0 { assert("go"@.len() != "c"@.len()); }
                }
            }
            assert(!extensions_spec(SupportedLanguage::Cpp).contains("c"@)) by {
                assert forall|k: int| 0 <= k < extensions_spec(SupportedLanguage::Cpp).len() implies extensions_spec(SupportedLanguage::Cpp)[k] != "c"@ by {
                    if k == 0 { assert("cpp"@.len() != "c"@.len()); }
                    if k == 1 { assert("cc"@.len() != "c"@.len()); }
                    if k == 2 { assert("cxx"@.len() != "c"@.len()); }
                    if k == 3 { assert("h"@[0] != "c"@[0]); }
                    if k == 4 { assert("hpp"@.len() != "c"@.len()); }
                    if k == 5 { assert("hh"@.len() != "c"@.len()); }
                    if k == 6 { assert("hxx"@.len() != "c"@.len()); }
                }
            }
        assert forall|i: int| 0 <= i < 7 implies !extensions_spec(#[trigger] fixed_languages()[i]).contains(x) by {
                if i == 0 { assert(fixed_languages()[i] == SupportedLanguage::Rust); }
                if i == 1 { assert(fixed_languages()[i] == SupportedLanguage::Java); }
                if i == 2 { assert(fixed_languages()[i] == SupportedLanguage::Python); }
                if i == 3 { assert(fixed_languages()[i] == SupportedLanguage::JavaScript); }
                if i == 4 { assert(fixed_languages()[i] == SupportedLanguage::TypeScript); }
                if i == 5 { assert(fixed_languages()[i] == SupportedLanguage::Go); }
                if i == 6 { assert(fixed_languages()[i] == SupportedLanguage::Cpp); }
        }
        assert(fixed_languages()[7] == SupportedLanguage::C);
        assert(extensions_spec(SupportedLanguage::C)[0] == x);
        lemma_first_lang_at(fixed_languages(), x, 7);
    }
    if x == "cs"@ {
            assert(!extensions_spec(SupportedLanguage::Rust).contains("cs"@)) by {
                assert forall|k: int| 0 <= k < extensions_spec(SupportedLanguage::Rust).len() implies extensions_spec(SupportedLanguage::Rust)[k] != "cs"@ by {
                    if k == 0 { assert("rs"@[0] != "cs"@[0]); }
                }
            }
            assert(!extensions_spec(SupportedLanguage::Java).contains("cs"@)) by {
                assert forall|k: int| 0 <= k < extensions_spec(SupportedLanguage::Java).len() implies extensions_spec(SupportedLanguage::Java)[k] != "cs"@ by {
                    if k == 0 { assert("java"@.len() != "cs"@.len()); }
                }
            }
            assert(!extensions_spec(SupportedLanguage::Python).contains("cs"@)) by {
                assert forall|k: int| 0 <= k < extensions_spec(SupportedLanguage::Python).len() implies extensions_spec(SupportedLanguage::Python)[k] != "cs"@ by {
                    if k == 0 { assert("py"@[0] != "cs"@[0]); }
                    if k == 1 { assert("pyi"@.len() != "cs"@.len()); }
                }
            }
            assert(!extensions_spec(SupportedLanguage::JavaScript).contains("cs"@)) by {
                assert forall|k: int| 0 <= k < extensions_spec(SupportedLanguage::JavaScript).len() implies extensions_spec(SupportedLanguage::JavaScript)[k] != "cs"@ by {
                    if k == 0 { assert("js"@[0] != "cs"@[0]); }
                    if k == 1 { assert("jsx"@.len() != "cs"@.len()); }
                    if k == 2 { assert("mjs"@.len() != "cs"@.len()); }
                    if k == 3 { assert("cjs"@.len() != "cs"@.len()); }
                }
            }
            assert(!extensions_spec(SupportedLanguage::TypeScript).contains("cs"@)) by {
                assert forall|k: int| 0 <= k < extensions_spec(SupportedLanguage::TypeScript).len() implies extensions_spec(SupportedLanguage::TypeScript)[k] != "cs"@ by {
                    if k == 0 { assert("ts"@[0] != "cs"@[0]); }
                    if k == 1 { assert("tsx"@.len() != "cs"@.len()); }
                    if k == 2 { assert("mts"@.len() != "cs"@.len()); }
                    if k == 3 { assert("cts"@.len() != "cs"@.len()); }
                }
            }
            assert(!extensions_spec(SupportedLanguage::Go).contains("cs"@)) by {
                assert forall|k: int| 0 <= k < extensions_spec(SupportedLanguage::Go).len() implies extensions_spec(SupportedLanguage::Go)[k] != "cs"@ by {
                    if k == 0 { assert("go"@[0] != "cs"@[0]); }
                }
            }
            assert(!extensions_spec(SupportedLanguage::Cpp).contains("cs"@)) by {
                assert forall|k: int| 0 <= k < extensions_spec(SupportedLanguage::Cpp).len() implies extensions_spec(SupportedLanguage::Cpp)[k] != "cs"@ by {
                    if k == 0 { assert("cpp"@.len() != "cs"@.len()); }
                    if k == 1 { assert("cc"@[1] != "cs"@[1]); }
                    if k == 2 { assert("cxx"@.len() != "cs"@.len()); }
                    if k == 3 { assert("h"@.len() != "cs"@.len()); }
                    if k == 4 { assert("hpp"@.len() != "cs"@.len()); }
                    if k == 5 { assert("hh"@[0] != "cs"@[0]); }
                    if k == 6 { assert("hxx"@.len() != "cs"@.len()); }
                }
            }
            assert(!extensions_spec(SupportedLanguage::C).contains("cs"@)) by {
                assert forall|k: int| 0 <= k < extensions_spec(SupportedLanguage::C).len() implies extensions_spec(SupportedLanguage::C)[k] != "cs"@ by {
                    if k == 0 { assert("c"@.len() != "cs"@.len()); }
                    if k == 1 { assert("h"@.len() != "cs"@.len()); }
                }
            }
        assert forall|i: int| 0 <= i < 8 implies !extensions_spec(#[trigger] fixed_languages()[i]).contains(x) by {
                if i == 0 { assert(fixed_languages()[i] == SupportedLanguage::Rust); }
                if i == 1 { assert(fixed_languages()[i] == SupportedLanguage::Java); }
                if i == 2 { assert(fixed_languages()[i] == SupportedLanguage::Python); }
                if i == 3 { assert(fixed_languages()[i] == SupportedLanguage::JavaScript); }
                if i == 4 { assert(fixed_languages()[i] == SupportedLanguage::TypeScript); }
                if i == 5 { assert(fixed_languages()[i] == SupportedLanguage::Go); }
                if i == 6 { assert(fixed_languages()[i] == SupportedLanguage::Cpp); }
                if i == 7 { assert(fixed_languages()[i] == SupportedLanguage::C); }
        }
        assert(fixed_languages()[8] == SupportedLanguage::CSharp);
        assert(extensions_spec(SupportedLanguage::CSharp)[0] == x);
        lemma_first_lang_at(fixed_languages(), x, 8);
    }
    if x == "kt"@ {
            assert(!extensions_spec(SupportedLanguage::Rust).contains("kt"@)) by {
                assert forall|k: int| 0 <= k < extensions_spec(SupportedLanguage::Rust).len() implies extensions_spec(SupportedLanguage::Rust)[k] != "kt"@ by {
                    if k == 0 { assert("rs"@[0] != "kt"@[0]); }
                }
            }
            assert(!extensions_spec(SupportedLanguage::Java).contains("kt"@)) by {
                assert forall|k: int| 0 <= k < extensions_spec(SupportedLanguage::Java).len() implies extensions_spec(SupportedLanguage::Java)[k] != "kt"@ by {
                    if k == 0 { assert("java"@.len() != "kt"@.len()); }
                }
            }
            assert(!extensions_spec(SupportedLanguage::Python).contains("kt"@)) by {
                assert forall|k: int| 0 <= k < extensions_spec(SupportedLanguage::Python).len() implies extensions_spec(SupportedLanguage::Python)[k] != "kt"@ by {
                    if k == 0 { assert("py"@[0] != "kt"@[0]); }
                    if k == 1 { assert("pyi"@.len() != "kt"@.len()); }
                }
            }
            assert(!extensions_spec(SupportedLanguage::JavaScript).contains("kt"@)) by {
                assert forall|k: int| 0 <= k < extensions_spec(SupportedLanguage::JavaScript).len() implies extensions_spec(SupportedLanguage::JavaScript)[k] != "kt"@ by {
                    if k == 0 { assert("js"@[0] != "kt"@[0]); }
                    if k == 1 { assert("jsx"@.len() != "kt"@.len()); }
                    if k == 2 { assert("mjs"@.len() != "kt"@.len()); }
                    if k == 3 { assert("cjs"@.len() != "kt"@.len()); }
                }
            }
            assert(!extensions_spec(SupportedLanguage::TypeScript).contains("kt"@)) by {
                assert forall|k: int| 0 <= k < extensions_spec(SupportedLanguage::TypeScript).len() implies extensions_spec(SupportedLanguage::TypeScript)[k] != "kt"@ by {
                    if k == 0 { assert("ts"@[0] != "kt"@[0]); }
                    if k == 1 { assert("tsx"@.len() != "kt"@.len()); }
                    if k == 2 { assert("mts"@.len() != "kt"@.len()); }
                    if k == 3 { assert("cts"@.len() != "kt"@.len()); }
                }
            }
            assert(!extensions_spec(SupportedLanguage::Go).contains("kt"@)) by {
                assert forall|k: int| 0 <= k < extensions_spec(SupportedLanguage::Go).len() implies extensions_spec(SupportedLanguage::Go)[k] != "kt"@ by {
                    if k == 0 { assert("go"@[0] != "kt"@[0]); }
                }
            }
            assert(!extensions_spec(SupportedLanguage::Cpp).contains("kt"@)) by {
                assert forall|k: int| 0 <= k < extensions_spec(SupportedLanguage::Cpp).len() implies extensions_spec(SupportedLanguage::Cpp)[k] != "kt"@ by {
                    if k == 0 { assert("cpp"@.len() != "kt"@.len()); }
                    if k == 1 { assert("cc"@[0] != "kt"@[0]); }
                    if k == 2 { assert("cxx"@.len() != "kt"@.len()); }
                    if k == 3 { assert("h"@.len() != "kt"@.len()); }
                    if k == 4 { assert("hpp"@.len() != "kt"@.len()); }
                    if k == 5 { assert("hh"@[0] != "kt"@[0]); }
                    if k == 6 { assert("hxx"@.len() != "kt"@.len()); }
                }
            }
            assert(!extensions_spec(SupportedLanguage::C).contains("kt"@)) by {
                assert forall|k: int| 0 <= k < extensions_spec(SupportedLanguage::C).len() implies extensions_spec(SupportedLanguage::C)[k] != "kt"@ by {
                    if k == 0 { assert("c"@.len() != "kt"@.len()); }
                    if k == 1 { assert("h"@.len() != "kt"@.len()); }
                }
            }
            assert(!extensions_spec(SupportedLanguage::CSharp).contains("kt"@)) by {
                assert forall|k: int| 0 <= k < extensions_spec(SupportedLanguage::CSharp).len() implies extensions_spec(SupportedLanguage::CSharp)[k] != "kt"@ by {
                    if k == 0 { assert("cs"@[0] != "kt"@[0]); }
                }
            }
        assert forall|i: int| 0 <= i < 9 implies !extensions_spec(#[trigger] fixed_languages()[i]).contains(x) by {
                if i == 0 { assert(fixed_languages()[i] == SupportedLanguage::Rust); }
                if i == 1 { assert(fixed_languages()[i] == SupportedLanguage::Java); }
                if i == 2 { assert(fixed_languages()[i] == SupportedLanguage::Python); }
                if i == 3 { assert(fixed_languages()[i] == SupportedLanguage::JavaScript); }
                if i == 4 { assert(fixed_languages()[i] == SupportedLanguage::TypeScript); }
                if i == 5 { assert(fixed_languages()[i] == SupportedLanguage::Go); }
                if i == 6 { assert(fixed_languages()[i] == SupportedLanguage::Cpp); }
                if i == 7 { assert(fixed_languages()[i] == SupportedLanguage::C); }
                if i == 8 { assert(fixed_languages()[i] == SupportedLanguage::CSharp); }
        }
        assert(fixed_languages()[9] == SupportedLanguage::Kotlin);
        assert(extensions_spec(SupportedLanguage::Kotlin)[0] == x);
        lemma_first_lang_at(fixed_languages(), x, 9);
    }
    if x == "kts"@ {
            assert(!extensions_spec(SupportedLanguage::Rust).contains("kts"@)) by {
                assert forall|k: int| 0 <= k < extensions_spec(SupportedLanguage::Rust).len() implies extensions_spec(SupportedLanguage::Rust)[k] != "kts"@ by {
                    if k == 0 { assert("rs"@.len() != "kts"@.len()); }
                }
            }
            assert(!extensions_spec(SupportedLanguage::Java).contains("kts"@)) by {
                assert forall|k: int| 0 <= k < extensions_spec(SupportedLanguage::Java).len() implies extensions_spec(SupportedLanguage::Java)[k] != "kts"@ by {
                    if k == 0 { assert("java"@.len() != "kts"@.len()); }
                }
            }
            assert(!extensions_spec(SupportedLanguage::Python).contains("kts"@)) by {
                assert forall|k: int| 0 <= k < extensions_spec(SupportedLanguage::Python).len() implies extensions_spec(SupportedLanguage::Python)[k] != "kts"@ by {
                    if k == 0 { assert("py"@.len() != "kts"@.len()); }
                    if k == 1 { assert("pyi"@[0] != "kts"@[0]); }
                }
            }
            assert(!extensions_spec(SupportedLanguage::JavaScript).contains("kts"@)) by {
                assert forall|k: int| 0 <= k < extensions_spec(SupportedLanguage::JavaScript).len() implies extensions_spec(SupportedLanguage::JavaScript)[k] != "kts"@ by {
                    if k == 0 { assert("js"@.len() != "kts"@.len()); }
                    if k == 1 { assert("jsx"@[0] != "kts"@[0]); }
                    if k == 2 { assert("mjs"@[0] != "kts"@[0]); }
                    if k == 3 { assert("cjs"@[0] != "kts"@[0]); }
                }
            }
            assert(!extensions_spec(SupportedLanguage::TypeScript).contains("kts"@)) by {
                assert forall|k: int| 0 <= k < extensions_spec(SupportedLanguage::TypeScript).len() implies extensions_spec(SupportedLanguage::TypeScript)[k] != "kts"@ by {
                    if k == 0 { assert("ts"@.len() != "kts"@.len()); }
                    if k == 1 { assert("tsx"@[0] != "kts"@[0]); }
                    if k == 2 { assert("mts"@[0] != "kts"@[0]); }
                    if k == 3 { assert("cts"@[0] != "kts"@[0]); }
                }
            }
            assert(!extensions_spec(SupportedLanguage::Go).contains("kts"@)) by {
                assert forall|k: int| 0 <= k < extensions_spec(SupportedLanguage::Go).len() implies extensions_spec(SupportedLanguage::Go)[k] != "kts"@ by {
                    if k == 0 { assert("go"@.len() != "kts"@.len()); }
                }
            }
            assert(!extensions_spec(SupportedLanguage::Cpp).contains("kts"@)) by {
                assert forall|k: int| 0 <= k < extensions_spec(SupportedLanguage::Cpp).len() implies extensions_spec(SupportedLanguage::Cpp)[k] != "kts"@ by {
                    if k == 0 { assert("cpp"@[0] != "kts"@[0]); }
                    if k == 1 { assert("cc"@.len() != "kts"@.len()); }
                    if k == 2 { assert("cxx"@[0] != "kts"@[0]); }
                    if k == 3 { assert("h"@.len() != "kts"@.len()); }
                    if k == 4 { assert("hpp"@[0] != "kts"@[0]); }
                    if k == 5 { assert("hh"@.len() != "kts"@.len()); }
                    if k == 6 { assert("hxx"@[0] != "kts"@[0]); }
                }
            }
            assert(!extensions_spec(SupportedLanguage::C).contains("kts"@)) by {
                assert forall|k: int| 0 <= k < extensions_spec(SupportedLanguage::C).len() implies extensions_spec(SupportedLanguage::C)[k] != "kts"@ by {
                    if k == 0 { assert("c"@.len() != "kts"@.len()); }
                    if k == 1 { assert("h"@.len() != "kts"@.len()); }
                }
            }
            assert(!extensions_spec(SupportedLanguage::CSharp).contains("kts"@)) by {
                assert forall|k: int| 0 <= k < extensions_spec(SupportedLanguage::CSharp).len() implies extensions_spec(SupportedLanguage::CSharp)[k] != "kts"@ by {
                    if k == 0 { assert("cs"@.len() != "kts"@.len()); }
                }
            }
        assert forall|i: int| 0 <= i < 9 implies !extensions_spec(#[trigger] fixed_languages()[i]).contains(x) by {
                if i == 0 { assert(fixed_languages()[i] == SupportedLanguage::Rust); }
                if i == 1 { assert(fixed_languages()[i] == SupportedLanguage::Java); }
                if i == 2 { assert(fixed_languages()[i] == SupportedLanguage::Python); }
                if i == 3 { assert(fixed_languages()[i] == SupportedLanguage::JavaScript); }
                if i == 4 { assert(fixed_languages()[i] == SupportedLanguage::TypeScript); }
                if i == 5 { assert(fixed_languages()[i] == SupportedLanguage::Go); }
                if i == 6 { assert(fixed_languages()[i] == SupportedLanguage::Cpp); }
                if i == 7 { assert(fixed_languages()[i] == SupportedLanguage::C); }
                if i == 8 { assert(fixed_languages()[i] == SupportedLanguage::CSharp); }
        }
        assert(fixed_languages()[9] == SupportedLanguage::Kotlin);
        assert(extensions_spec(SupportedLanguage::Kotlin)[1] == x);
        lemma_first_lang_at(fixed_languages(), x, 9);
    }
    if x == "ktm"@ {
            assert(!extensions_spec(SupportedLanguage::Rust).contains("ktm"@)) by {
                assert forall|k: int| 0 <= k < extensions_spec(SupportedLanguage::Rust).len() implies extensions_spec(SupportedLanguage::Rust)[k] != "ktm"@ by {
                    if k == 0 { assert("rs"@.len() != "ktm"@.len()); }
                }
            }
            assert(!extensions_spec(SupportedLanguage::Java).contains("ktm"@)) by {
                assert forall|k: int| 0 <= k < extensions_spec(SupportedLanguage::Java).len() implies extensions_spec(SupportedLanguage::Java)[k] != "ktm"@ by {
                    if k == 0 { assert("java"@.len() != "ktm"@.len()); }
                }
            }
            assert(!extensions_spec(SupportedLanguage::Python).contains("ktm"@)) by {
                assert forall|k: int| 0 <= k < extensions_spec(SupportedLanguage::Python).len() implies extensions_spec(SupportedLanguage::Python)[k] != "ktm"@ by {
                    if k == 0 { assert("py"@.len() != "ktm"@.len()); }
                    if k == 1 { assert("pyi"@[0] != "ktm"@[0]); }
                }
            }
            assert(!extensions_spec(SupportedLanguage::JavaScript).contains("ktm"@)) by {
                assert forall|k: int| 0 <= k < extensions_spec(SupportedLanguage::JavaScript).len() implies extensions_spec(SupportedLanguage::JavaScript)[k] != "ktm"@ by {
                    if k == 0 { assert("js"@.len() != "ktm"@.len()); }
                    if k == 1 { assert("jsx"@[0] != "ktm"@[0]); }
                    if k == 2 { assert("mjs"@[0] != "ktm"@[0]); }
                    if k == 3 { assert("cjs"@[0] != "ktm"@[0]); }
                }
            }
            assert(!extensions_spec(SupportedLanguage::TypeScript).contains("ktm"@)) by {
                assert forall|k: int| 0 <= k < extensions_spec(SupportedLanguage::TypeScript).len() implies extensions_spec(SupportedLanguage::TypeScript)[k] != "ktm"@ by {
                    if k == 0 { assert("ts"@.len() != "ktm"@.len()); }
                    if k == 1 { assert("tsx"@[0] != "ktm"@[0]); }
                    if k == 2 { assert("mts"@[0] != "ktm"@[0]); }
                    if k == 3 { assert("cts"@[0] != "ktm"@[0]); }
                }
            }
            assert(!extensions_spec(SupportedLanguage::Go).contains("ktm"@)) by {
                assert forall|k: int| 0 <= k < extensions_spec(SupportedLanguage::Go).len() implies extensions_spec(SupportedLanguage::Go)[k] != "ktm"@ by {
                    if k == 0 { assert("go"@.len() != "ktm"@.len()); }
                }
            }
            assert(!extensions_spec(SupportedLanguage::Cpp).contains("ktm"@)) by {
                assert forall|k: int| 0 <= k < extensions_spec(SupportedLanguage::Cpp).len() implies extensions_spec(SupportedLanguage::Cpp)[k] != "ktm"@ by {
                    if k == 0 { assert("cpp"@[0] != "ktm"@[0]); }
                    if k == 1 { assert("cc"@.len() != "ktm"@.len()); }
                    if k == 2 { assert("cxx"@[0] != "ktm"@[0]); }
                    if k == 3 { assert("h"@.len() != "ktm"@.len()); }
                    if k == 4 { assert("hpp"@[0] != "ktm"@[0]); }
                    if k == 5 { assert("hh"@.len() != "ktm"@.len()); }
                    if k == 6 { assert("hxx"@[0] != "ktm"@[0]); }
                }
            }
            assert(!extensions_spec(SupportedLanguage::C).contains("ktm"@)) by {
                assert forall|k: int| 0 <= k < extensions_spec(SupportedLanguage::C).len() implies extensions_spec(SupportedLanguage::C)[k] != "ktm"@ by {
                    if k == 0 { assert("c"@.len() != "ktm"@.len()); }
                    if k == 1 { assert("h"@.len() != "ktm"@.len()); }
                }
            }
            assert(!extensions_spec(SupportedLanguage::CSharp).contains("ktm"@)) by {
                assert forall|k: int| 0 <= k < extensions_spec(SupportedLanguage::CSharp).len() implies extensions_spec(SupportedLanguage::CSharp)[k] != "ktm"@ by {
                    if k == 0 { assert("cs"@.len() != "ktm"@.len()); }
                }
            }
        assert forall|i: int| 0 <= i < 9 implies !extensions_spec(#[trigger] fixed_languages()[i]).contains(x) by {
                if i == 0 { assert(fixed_languages()[i] == SupportedLanguage::Rust); }
                if i == 1 { assert(fixed_languages()[i] == SupportedLanguage::Java); }
                if i == 2 { assert(fixed_languages()[i] == SupportedLanguage::Python); }
                if i == 3 { assert(fixed_languages()[i] == SupportedLanguage::JavaScript); }
                if i == 4 { assert(fixed_languages()[i] == SupportedLanguage::TypeScript); }
                if i == 5 { assert(fixed_languages()[i] == SupportedLanguage::Go); }
                if i == 6 { assert(fixed_languages()[i] == SupportedLanguage::Cpp); }
                if i == 7 { assert(fixed_languages()[i] == SupportedLanguage::C); }
                if i == 8 { assert(fixed_languages()[i] == SupportedLanguage::CSharp); }
        }
        assert(fixed_languages()[9] == SupportedLanguage::Kotlin);
        assert(extensions_spec(SupportedLanguage::Kotlin)[2] == x);
        lemma_first_lang_at(fixed_languages(), x, 9);
    }
    if x == "scala"@ {
            assert(!extensions_spec(SupportedLanguage::Rust).contains("scala"@)) by {
                assert forall|k: int| 0 <= k < extensions_spec(SupportedLanguage::Rust).len() implies extensions_spec(SupportedLanguage::Rust)[k] != "scala"@ by {
                    if k == 0 { assert("rs"@.len() != "scala"@.len()); }
                }
            }
            assert(!extensions_spec(SupportedLanguage::Java).contains("scala"@)) by {
                assert forall|k: int| 0 <= k < extensions_spec(SupportedLanguage::Java).len() implies extensions_spec(SupportedLanguage::Java)[k] != "scala"@ by {
                    if k == 0 { assert("java"@.len() != "scala"@.len()); }
                }
            }
            assert(!extensions_spec(SupportedLanguage::Python).contains("scala"@)) by {
                assert forall|k: int| 0 <= k < extensions_spec(SupportedLanguage::Python).len() implies extensions_spec(SupportedLanguage::Python)[k] != "scala"@ by {
                    if k == 0 { assert("py"@.len() != "scala"@.len()); }
                    if k == 1 { assert("pyi"@.len() != "scala"@.len()); }
                }
            }
            assert(!extensions_spec(SupportedLanguage::JavaScript).contains("scala"@)) by {
                assert forall|k: int| 0 <= k < extensions_spec(SupportedLanguage::JavaScript).len() implies extensions_spec(SupportedLanguage::JavaScript)[k] != "scala"@ by {
                    if k == 0 { assert("js"@.len() != "scala"@.len()); }
                    if k == 1 { assert("jsx"@.len() != "scala"@.len()); }
                    if k == 2 { assert("mjs"@.len() != "scala"@.len()); }
                    if k == 3 { assert("cjs"@.len() != "scala"@.len()); }
                }
            }
            assert(!extensions_spec(SupportedLanguage::TypeScript).contains("scala"@)) by {
                assert forall|k: int| 0 <= k < extensions_spec(SupportedLanguage::TypeScript).len() implies extensions_spec(SupportedLanguage::TypeScript)[k] != "scala"@ by {
                    if k == 0 { assert("ts"@.len() != "scala"@.len()); }
                    if k == 1 { assert("tsx"@.len() != "scala"@.len()); }
                    if k == 2 { assert("mts"@.len() != "scala"@.len()); }
                    if k == 3 { assert("cts"@.len() != "scala"@.len()); }
                }
            }
            assert(!extensions_spec(SupportedLanguage::Go).contains("scala"@)) by {
                assert forall|k: int| 0 <= k < extensions_spec(SupportedLanguage::Go).len() implies extensions_spec(SupportedLanguage::Go)[k] != "scala"@ by {
                    if k == 0 { assert("go"@.len() != "scala"@.len()); }
                }
            }
            assert(!extensions_spec(SupportedLanguage::Cpp).contains("scala"@)) by {
                assert forall|k: int| 0 <= k < extensions_spec(SupportedLanguage::Cpp).len() implies extensions_spec(SupportedLanguage::Cpp)[k] != "scala"@ by {
                    if k == 0 { assert("cpp"@.len() != "scala"@.len()); }
                    if k == 1 { assert("cc"@.len() != "scala"@.len()); }
                    if k == 2 { assert("cxx"@.len() != "scala"@.len()); }
                    if k == 3 { assert("h"@.len() != "scala"@.len()); }
                    if k == 4 { assert("hpp"@.len() != "scala"@.len()); }
                    if k == 5 { assert("hh"@.len() != "scala"@.len()); }
                    if k == 6 { assert("hxx"@.len() != "scala"@.len()); }
                }
            }
            assert(!extensions_spec(SupportedLanguage::C).contains("scala"@)) by {
                assert forall|k: int| 0 <= k < extensions_spec(SupportedLanguage::C).len() implies extensions_spec(SupportedLanguage::C)[k] != "scala"@ by {
                    if k == 0 { assert("c"@.len() != "scala"@.len()); }
                    if k == 1 { assert("h"@.len() != "scala"@.len()); }
                }
            }
            assert(!extensions_spec(SupportedLanguage::CSharp).contains("scala"@)) by {
                assert forall|k: int| 0 <= k < extensions_spec(SupportedLanguage::CSharp).len() implies extensions_spec(SupportedLanguage::CSharp)[k] != "scala"@ by {
                    if k == 0 { assert("cs"@.len() != "scala"@.len()); }
                }
            }
            assert(!extensions_spec(SupportedLanguage::Kotlin).contains("scala"@)) by {
                assert forall|k: int| 0 <= k < extensions_spec(SupportedLanguage::Kotlin).len() implies extensions_spec(SupportedLanguage::Kotlin)[k] != "scala"@ by {
                    if k == 0 { assert("kt"@.len() != "scala"@.len()); }
                    if k == 1 { assert("kts"@.len() != "scala"@.len()); }
                    if k == 2 { assert("ktm"@.len() != "scala"@.len()); }
                }
            }
        assert forall|i: int| 0 <= i < 10 implies !extensions_spec(#[trigger] fixed_languages()[i]).contains(x) by {
                if i == 0 { assert(fixed_languages()[i] == SupportedLanguage::Rust); }
                if i == 1 { assert(fixed_languages()[i] == SupportedLanguage::Java); }
                if i == 2 { assert(fixed_languages()[i] == SupportedLanguage::Python); }
                if i == 3 { assert(fixed_languages()[i] == SupportedLanguage::JavaScript); }
                if i == 4 { assert(fixed_languages()[i] == SupportedLanguage::TypeScript); }
                if i == 5 { assert(fixed_languages()[i] == SupportedLanguage::Go); }
                if i == 6 { assert(fixed_languages()[i] == SupportedLanguage::Cpp); }
                if i == 7 { assert(fixed_languages()[i] == SupportedLanguage::C); }
                if i == 8 { assert(fixed_languages()[i] == SupportedLanguage::CSharp); }
                if i == 9 { assert(fixed_languages()[i] == SupportedLanguage::Kotlin); }
        }
        assert(fixed_languages()[10] == SupportedLanguage::Scala);
        assert(extensions_spec(SupportedLanguage::Scala)[0] == x);
        lemma_first_lang_at(fixed_languages(), x, 10);
    }
    if x == "sc"@ {
            assert(!extensions_spec(SupportedLanguage::Rust).contains("sc"@)) by {
                assert forall|k: int| 0 <= k < extensions_spec(SupportedLanguage::Rust).len() implies extensions_spec(SupportedLanguage::Rust)[k] != "sc"@ by {
                    if k == 0 { assert("rs"@[0] != "sc"@[0]); }
                }
            }
            assert(!extensions_spec(SupportedLanguage::Java).contains("sc"@)) by {
                assert forall|k: int| 0 <= k < extensions_spec(SupportedLanguage::Java).len() implies extensions_spec(SupportedLanguage::Java)[k] != "sc"@ by {
                    if k == 0 { assert("java"@.len() != "sc"@.len()); }
                }
            }
            assert(!extensions_spec(SupportedLanguage::Python).contains("sc"@)) by {
                assert forall|k: int| 0 <= k < extensions_spec(SupportedLanguage::Python).len() implies extensions_spec(SupportedLanguage::Python)[k] != "sc"@ by {
                    if k == 0 { assert("py"@[0] != "sc"@[0]); }
                    if k == 1 { assert("pyi"@.len() != "sc"@.len()); }
                }
            }
            assert(!extensions_spec(SupportedLanguage::JavaScript).contains("sc"@)) by {
                assert forall|k: int| 0 <= k < extensions_spec(SupportedLanguage::JavaScript).len() implies extensions_spec(SupportedLanguage::JavaScript)[k] != "sc"@ by {
                    if k == 0 { assert("js"@[0] != "sc"@[0]); }
                    if k == 1 { assert("jsx"@.len() != "sc"@.len()); }
                    if k == 2 { assert("mjs"@.len() != "sc"@.len()); }
                    if k == 3 { assert("cjs"@.len() != "sc"@.len()); }
                }
            }
            assert(!extensions_spec(SupportedLanguage::TypeScript).contains("sc"@)) by {
                assert forall|k: int| 0 <= k < extensions_spec(SupportedLanguage::TypeScript).len() implies extensions_spec(SupportedLanguage::TypeScript)[k] != "sc"@ by {
                    if k == 0 { assert("ts"@[0] != "sc"@[0]); }
                    if k == 1 { assert("tsx"@.len() != "sc"@.len()); }
                    if k == 2 { assert("mts"@.len() != "sc"@.len()); }
                    if k == 3 { assert("cts"@.len() != "sc"@.len()); }
                }
            }
            assert(!extensions_spec(SupportedLanguage::Go).contains("sc"@)) by {
                assert forall|k: int| 0 <= k < extensions_spec(SupportedLanguage::Go).len() implies extensions_spec(SupportedLanguage::Go)[k] != "sc"@ by {
                    if k == 0 { assert("go"@[0] != "sc"@[0]); }
                }
            }
            assert(!extensions_spec(SupportedLanguage::Cpp).contains("sc"@)) by {
                assert forall|k: int| 0 <= k < extensions_spec(SupportedLanguage::Cpp).len() implies extensions_spec(SupportedLanguage::Cpp)[k] != "sc"@ by {
                    if k == 0 { assert("cpp"@.len() != "sc"@.len()); }
                    if k == 1 { assert("cc"@[0] != "sc"@[0]); }
                    if k == 2 { assert("cxx"@.len() != "sc"@.len()); }
                    if k == 3 { assert("h"@.len() != "sc"@.len()); }
                    if k == 4 { assert("hpp"@.len() != "sc"@.len()); }
                    if k == 5 { assert("hh"@[0] != "sc"@[0]); }
                    if k == 6 { assert("hxx"@.len() != "sc"@.len()); }
                }
            }
            assert(!extensions_spec(SupportedLanguage::C).contains("sc"@)) by {
                assert forall|k: int| 0 <= k < extensions_spec(SupportedLanguage::C).len() implies extensions_spec(SupportedLanguage::C)[k] != "sc"@ by {
                    if k == 0 { assert("c"@.len() != "sc"@.len()); }
                    if k == 1 { assert("h"@.len() != "sc"@.len()); }
                }
            }
            assert(!extensions_spec(SupportedLanguage::CSharp).contains("sc"@)) by {
                assert forall|k: int| 0 <= k < extensions_spec(SupportedLanguage::CSharp).len() implies extensions_spec(SupportedLanguage::CSharp)[k] != "sc"@ by {
                    if k == 0 { assert("cs"@[0] != "sc"@[0]); }
                }
            }
            assert(!extensions_spec(SupportedLanguage::Kotlin).contains("sc"@)) by {
                assert forall|k: int| 0 <= k < extensions_spec(SupportedLanguage::Kotlin).len() implies extensions_spec(SupportedLanguage::Kotlin)[k] != "sc"@ by {
                    if k == 0 { assert("kt"@[0] != "sc"@[0]); }
                    if k == 1 { assert("kts"@.len() != "sc"@.len()); }
                    if k == 2 { assert("ktm"@.len() != "sc"@.len()); }
                }
            }
        assert forall|i: int| 0 <= i < 10 implies !extensions_spec(#[trigger] fixed_languages()[i]).contains(x) by {
                if i == 0 { assert(fixed_languages()[i] == SupportedLanguage::Rust); }
                if i == 1 { assert(fixed_languages()[i] == SupportedLanguage::Java); }
                if i == 2 { assert(fixed_languages()[i] == SupportedLanguage::Python); }
                if i == 3 { assert(fixed_languages()[i] == SupportedLanguage::JavaScript); }
                if i == 4 { assert(fixed_languages()[i] == SupportedLanguage::TypeScript); }
                if i == 5 { assert(fixed_languages()[i] == SupportedLanguage::Go); }
                if i == 6 { assert(fixed_languages()[i] == SupportedLanguage::Cpp); }
                if i == 7 { assert(fixed_languages()[i] == SupportedLanguage::C); }
                if i == 8 { assert(fixed_languages()[i] == SupportedLanguage::CSharp); }
                if i == 9 { assert(fixed_languages()[i] == SupportedLanguage::Kotlin); }
        }
        assert(fixed_languages()[10] == SupportedLanguage::Scala);
        assert(extensions_spec(SupportedLanguage::Scala)[1] == x);
        lemma_first_lang_at(fixed_languages(), x, 10);
    }
    if x == "sbt"@ {
            assert(!extensions_spec(SupportedLanguage::Rust).contains("sbt"@)) by {
                assert forall|k: int| 0 <= k < extensions_spec(SupportedLanguage::Rust).len() implies extensions_spec(SupportedLanguage::Rust)[k] != "sbt"@ by {
                    if k == 0 { assert("rs"@.len() != "sbt"@.len()); }
                }
            }
            assert(!extensions_spec(SupportedLanguage::Java).contains("sbt"@)) by {
                assert forall|k: int| 0 <= k < extensions_spec(SupportedLanguage::Java).len() implies extensions_spec(SupportedLanguage::Java)[k] != "sbt"@ by {
                    if k == 0 { assert("java"@.len() != "sbt"@.len()); }
                }
            }
            assert(!extensions_spec(SupportedLanguage::Python).contains("sbt"@)) by {
                assert forall|k: int| 0 <= k < extensions_spec(SupportedLanguage::Python).len() implies extensions_spec(SupportedLanguage::Python)[k] != "sbt"@ by {
                    if k == 0 { assert("py"@.len() != "sbt"@.len()); }
                    if k == 1 { assert("pyi"@[0] != "sbt"@[0]); }
                }
            }
            assert(!extensions_spec(SupportedLanguage::JavaScript).contains("sbt"@)) by {
                assert forall|k: int| 0 <= k < extensions_spec(SupportedLanguage::JavaScript).len() implies extensions_spec(SupportedLanguage::JavaScript)[k] != "sbt"@ by {
                    if k == 0 { assert("js"@.len() != "sbt"@.len()); }
                    if k == 1 { assert("jsx"@[0] != "sbt"@[0]); }
                    if k == 2 { assert("mjs"@[0] != "sbt"@[0]); }
                    if k == 3 { assert("cjs"@[0] != "sbt"@[0]); }
                }
            }
            assert(!extensions_spec(SupportedLanguage::TypeScript).contains("sbt"@)) by {
                assert forall|k: int| 0 <= k < extensions_spec(SupportedLanguage::TypeScript).len() implies extensions_spec(SupportedLanguage::TypeScript)[k] != "sbt"@ by {
                    if k == 0 { assert("ts"@.len() != "sbt"@.len()); }
                    if k == 1 { assert("tsx"@[0] != "sbt"@[0]); }
                    if k == 2 { assert("mts"@[0] != "sbt"@[0]); }
                    if k == 3 { assert("cts"@[0] != "sbt"@[0]); }
                }
            }
            assert(!extensions_spec(SupportedLanguage::Go).contains("sbt"@)) by {
                assert forall|k: int| 0 <= k < extensions_spec(SupportedLanguage::Go).len() implies extensions_spec(SupportedLanguage::Go)[k] != "sbt"@ by {
                    if k == 0 { assert("go"@.len() != "sbt"@.len()); }
                }
            }
            assert(!extensions_spec(SupportedLanguage::Cpp).contains("sbt"@)) by {
                assert forall|k: int| 0 <= k < extensions_spec(SupportedLanguage::Cpp).len() implies extensions_spec(SupportedLanguage::Cpp)[k] != "sbt"@ by {
                    if k == 0 { assert("cpp"@[0] != "sbt"@[0]); }
                    if k == 1 { assert("cc"@.len() != "sbt"@.len()); }
                    if k == 2 { assert("cxx"@[0] != "sbt"@[0]); }
                    if k == 3 { assert("h"@.len() != "sbt"@.len()); }
                    if k == 4 { assert("hpp"@[0] != "sbt"@[0]); }
                    if k == 5 { assert("hh"@.len() != "sbt"@.len()); }
                    if k == 6 { assert("hxx"@[0] != "sbt"@[0]); }
                }
            }
            assert(!extensions_spec(SupportedLanguage::C).contains("sbt"@)) by {
                assert forall|k: int| 0 <= k < extensions_spec(SupportedLanguage::C).len() implies extensions_spec(SupportedLanguage::C)[k] != "sbt"@ by {
                    if k == 0 { assert("c"@.len() != "sbt"@.len()); }
                    if k == 1 { assert("h"@.len() != "sbt"@.len()); }
                }
            }
            assert(!extensions_spec(SupportedLanguage::CSharp).contains("sbt"@)) by {
                assert forall|k: int| 0 <= k < extensions_spec(SupportedLanguage::CSharp).len() implies extensions_spec(SupportedLanguage::CSharp)[k] != "sbt"@ by {
                    if k == 0 { assert("cs"@.len() != "sbt"@.len()); }
                }
            }
            assert(!extensions_spec(SupportedLanguage::Kotlin).contains("sbt"@)) by {
                assert forall|k: int| 0 <= k < extensions_spec(SupportedLanguage::Kotlin).len() implies extensions_spec(SupportedLanguage::Kotlin)[k] != "sbt"@ by {
                    if k == 0 { assert("kt"@.len() != "sbt"@.len()); }
                    if k == 1 { assert("kts"@[0] != "sbt"@[0]); }
                    if k == 2 { assert("ktm"@[0] != "sbt"@[0]); }
                }
            }
        assert forall|i: int| 0 <= i < 10 implies !extensions_spec(#[trigger] fixed_languages()[i]).contains(x) by {
                if i == 0 { assert(fixed_languages()[i] == SupportedLanguage::Rust); }
                if i == 1 { assert(fixed_languages()[i] == SupportedLanguage::Java); }
                if i == 2 { assert(fixed_languages()[i] == SupportedLanguage::Python); }
                if i == 3 { assert(fixed_languages()[i] == SupportedLanguage::JavaScript); }
                if i == 4 { assert(fixed_languages()[i] == SupportedLanguage::TypeScript); }
                if i == 5 { assert(fixed_languages()[i] == SupportedLanguage::Go); }
                if i == 6 { assert(fixed_languages()[i] == SupportedLanguage::Cpp); }
                if i == 7 { assert(fixed_languages()[i] == SupportedLanguage::C); }
                if i == 8 { assert(fixed_languages()[i] == SupportedLanguage::CSharp); }
                if i == 9 { assert(fixed_languages()[i] == SupportedLanguage::Kotlin); }
        }
        assert(fixed_languages()[10] == SupportedLanguage::Scala);
        assert(extensions_spec(SupportedLanguage::Scala)[2] == x);
        lemma_first_lang_at(fixed_languages(), x, 10);
    }
}

/// The CLI name of a fixed language denotes that language.
pub proof fn lemma_cli_name_denotes(l: SupportedLanguage)
    requires
        l != SupportedLanguage::Auto,
    ensures
        lang_for_cli_name(cli_name_spec(l)->0) == Some(l),
{
    reveal_strlit("rust");
    reveal_strlit("rs");
    reveal_strlit("java");
    reveal_strlit("python");
    reveal_strlit("py");
    reveal_strlit("javascript");
    reveal_strlit("js");
    reveal_strlit("typescript");
    reveal_strlit("ts");
    reveal_strlit("go");
    reveal_strlit("c");
    reveal_strlit("cpp");
    reveal_strlit("c++");
    reveal_strlit("cc");
    reveal_strlit("cxx");
    reveal_strlit("csharp");
    reveal_strlit("cs");
    reveal_strlit("c#");
    reveal_strlit("kotlin");
    reveal_strlit("kt");
    reveal_strlit("kts");
    reveal_strlit("ktm");
    reveal_strlit("scala");
    reveal_strlit("sc");
    reveal_strlit("sbt");
    match l {
        SupportedLanguage::Rust => {},
        SupportedLanguage::Java => {
            assert("java"@[0] != "rust"@[0]);
            assert("java"@.len() != "rs"@.len());
        },
        SupportedLanguage::Python => {
            assert("python"@.len() != "rust"@.len());
            assert("python"@.len() != "rs"@.len());
            assert("python"@.len() != "java"@.len());
        },
        SupportedLanguage::JavaScript => {
            assert("javascript"@.len() != "rust"@.len());
            assert("javascript"@.len() != "rs"@.len());
            assert("javascript"@.len() != "java"@.len());
            assert("javascript"@.len() != "python"@.len());
            assert("javascript"@.len() != "py"@.len());
        },
        SupportedLanguage::TypeScript => {
            assert("typescript"@.len() != "rust"@.len());
            assert("typescript"@.len() != "rs"@.len());
            assert("typescript"@.len() != "java"@.len());
            assert("typescript"@.len() != "python"@.len());
            assert("typescript"@.len() != "py"@.len());
            assert("typescript"@[0] != "javascript"@[0]);
            assert("typescript"@.len() != "js"@.len());
        },
        SupportedLanguage::Go => {
            assert("go"@.len() != "rust"@.len());
            assert("go"@[0] != "rs"@[0]);
            assert("go"@.len() != "java"@.len());
            assert("go"@.len() != "python"@.len());
            assert("go"@[0] != "py"@[0]);
            assert("go"@.len() != "javascript"@.len());
            assert("go"@[0] != "js"@[0]);
            assert("go"@.len() != "typescript"@.len());
            assert("go"@[0] != "ts"@[0]);
        },
        SupportedLanguage::C => {
            assert("c"@.len() != "rust"@.len());
            assert("c"@.len() != "rs"@.len());
            assert("c"@.len() != "java"@.len());
            assert("c"@.len() != "python"@.len());
            assert("c"@.len() != "py"@.len());
            assert("c"@.len() != "javascript"@.len());
            assert("c"@.len() != "js"@.len());
            assert("c"@.len() != "typescript"@.len());
            assert("c"@.len() != "ts"@.len());
            assert("c"@.len() != "go"@.len());
        },
        SupportedLanguage::Cpp => {
            assert("cpp"@.len() != "rust"@.len());
            assert("cpp"@.len() != "rs"@.len());
            assert("cpp"@.len() != "java"@.len());
            assert("cpp"@.len() != "python"@.len());
            assert("cpp"@.len() != "py"@.len());
            assert("cpp"@.len() != "javascript"@.len());
            assert("cpp"@.len() != "js"@.len());
            assert("cpp"@.len() != "typescript"@.len());
            assert("cpp"@.len() != "ts"@.len());
            assert("cpp"@.len() != "go"@.len());
            assert("cpp"@.len() != "c"@.len());
        },
        SupportedLanguage::CSharp => {
            assert("csharp"@.len() != "rust"@.len());
            assert("csharp"@.len() != "rs"@.len());
            assert("csharp"@.len() != "java"@.len());
            assert("csharp"@[0] != "python"@[0]);
            assert("csharp"@.len() != "py"@.len());
            assert("csharp"@.len() != "javascript"@.len());
            assert("csharp"@.len() != "js"@.len());
            assert("csharp"@.len() != "typescript"@.len());
            assert("csharp"@.len() != "ts"@.len());
            assert("csharp"@.len() != "go"@.len());
            assert("csharp"@.len() != "c"@.len());
            assert("csharp"@.len() != "cpp"@.len());
            assert("csharp"@.len() != "c++"@.len());
            assert("csharp"@.len() != "cc"@.len());
            assert("csharp"@.len() != "cxx"@.len());
        },
        SupportedLanguage::Kotlin => {
            assert("kotlin"@.len() != "rust"@.len());
            assert("kotlin"@.len() != "rs"@.len());
            assert("kotlin"@.len() != "java"@.len());
            assert("kotlin"@[0] != "python"@[0]);
            assert("kotlin"@.len() != "py"@.len());
            assert("kotlin"@.len() != "javascript"@.len());
            assert("kotlin"@.len() != "js"@.len());
            assert("kotlin"@.len() != "typescript"@.len());
            assert("kotlin"@.len() != "ts"@.len());
            assert("kotlin"@.len() != "go"@.len());
            assert("kotlin"@.len() != "c"@.len());
            assert("kotlin"@.len() != "cpp"@.len());
            assert("kotlin"@.len() != "c++"@.len());
            assert("kotlin"@.len() != "cc"@.len());
            assert("kotlin"@.len() != "cxx"@.len());
            assert("kotlin"@[0] != "csharp"@[0]);
            assert("kotlin"@.len() != "cs"@.len());
            assert("kotlin"@.len() != "c#"@.len());
        },
        SupportedLanguage::Scala => {
            assert("scala"@.len() != "rust"@.len());
            assert("scala"@.len() != "rs"@.len());
            assert("scala"@.len() != "java"@.len());
            assert("scala"@.len() != "python"@.len());
            assert("scala"@.len() != "py"@.len());
            assert("scala"@.len() != "javascript"@.len());
            assert("scala"@.len() != "js"@.len());
            assert("scala"@.len() != "typescript"@.len());
            assert("scala"@.len() != "ts"@.len());
            assert("scala"@.len() != "go"@.len());
            assert("scala"@.len() != "c"@.len());
            assert("scala"@.len() != "cpp"@.len());
            assert("scala"@.len() != "c++"@.len());
            assert("scala"@.len() != "cc"@.len());
            assert("scala"@.len() != "cxx"@.len());
            assert("scala"@.len() != "csharp"@.len());
            assert("scala"@.len() != "cs"@.len());
            assert("scala"@.len() != "c#"@.len());
            assert("scala"@.len() != "kotlin"@.len());
            assert("scala"@.len() != "kt"@.len());
            assert("scala"@.len() != "kts"@.len());
            assert("scala"@.len() != "ktm"@.len());
        },
        SupportedLanguage::Auto => {},
    }
}

/// The CLI name of a fixed language, written with any ASCII capitals,
/// denotes that language.
pub proof fn lemma_cli_name_round_trip(l: SupportedLanguage, s: Seq<char>)
    requires
        crate::text::ascii_text(s),
        cli_name_spec(l) == Some(s.map_values(|c: char| crate::text::ascii_lower_char(c))),
    ensures
        lang_for_cli_name(crate::text::lowercase(s)) == Some(l),
{
    lemma_cli_name_case_insensitive(s);
    lemma_cli_name_denotes(l);
}

/// A CLI language name in any mix of ASCII capitals denotes what its ASCII
/// lower-case form denotes.
pub proof fn lemma_cli_name_case_insensitive(s: Seq<char>)
    requires
        crate::text::ascii_text(s),
    ensures
        lang_for_cli_name(crate::text::lowercase(s)) == lang_for_cli_name(s.map_values(|c: char| crate::text::ascii_lower_char(c))),
{
    if crate::text::plain_lower_ascii(s) {
        assert(s.map_values(|c: char| crate::text::ascii_lower_char(c)) =~= s);
    }
}

pub proof fn lemma_lex_lt_trans(a: Seq<char>, b: Seq<char>, c: Seq<char>)
    requires
        lex_lt(a, b),
        lex_lt(b, c),
    ensures
        lex_lt(a, c),
    decreases a.len(),
{
    if a.len() > 0 && b.len() > 0 && c.len() > 0 && a[0] == b[0] && b[0] == c[0] {
        lemma_lex_lt_trans(a.drop_first(), b.drop_first(), c.drop_first());
    }
}

pub proof fn lemma_lex_lt_total(a: Seq<char>, b: Seq<char>)
    ensures
        a == b || lex_lt(a, b) || lex_lt(b, a),
    decreases a.len(),
{
    if a.len() > 0 && b.len() > 0 && a[0] == b[0] {
        lemma_lex_lt_total(a.drop_first(), b.drop_first());
        if a.drop_first() == b.drop_first() {
            assert(a =~= seq![a[0]] + a.drop_first());
            assert(b =~= seq![b[0]] + b.drop_first());
        }
    } else if a.len() == 0 && b.len() == 0 {
        assert(a =~= b);
    }
}

pub proof fn lemma_lex_lt_irrefl(a: Seq<char>)
    ensures
        !lex_lt(a, a),
    decreases a.len(),
{
    if a.len() > 0 {
        lemma_lex_lt_irrefl(a.drop_first());
    }
}

fn lex_less(a: &[char], b: &[char]) -> (r: bool)
    ensures
        r == lex_lt(a@, b@),
{
    let mut i: usize = 0;
    assert(a@.skip(0) == a@);
    assert(b@.skip(0) == b@);
    while i < a.len() && i < b.len() && a[i] == b[i]
        invariant
            i <= a.len(),
            i <= b.len(),
            lex_lt(a@, b@) == lex_lt(a@.skip(i as int), b@.skip(i as int)),
        decreases a.len() - i,
    {
        assert(a@.skip(i as int).drop_first() == a@.skip(i + 1));
        assert(b@.skip(i as int).drop_first() == b@.skip(i + 1));
        i = i + 1;
    }
    proof {
        assert(a@.skip(0) == a@);
        assert(b@.skip(0) == b@);
    }
    if i == a.len() {
        i < b.len()
    } else if i == b.len() {
        false
    } else {
        a[i] < b[i]
    }
}

/// `e` is an extension of some fixed language.
pub open spec fn is_fixed_ext(e: Seq<char>) -> bool {
    exists|l: SupportedLanguage| fixed_languages().contains(l) && #[trigger] extensions_spec(l).contains(e)
}

/// Every extension of the fixed languages, each once.
pub open spec fn all_fixed_extensions(exts: Seq<Seq<char>>) -> bool {
    &&& forall|i: int, j: int| 0 <= i < j < exts.len() ==> exts[i] != exts[j]
    &&& forall|i: int| 0 <= i < exts.len() ==> is_fixed_ext(#[trigger] exts[i])
    &&& forall|l: SupportedLanguage, e: Seq<char>|
        #![trigger fixed_languages().contains(l), extensions_spec(l).contains(e)]
        fixed_languages().contains(l) && extensions_spec(l).contains(e) ==> exts.contains(e)
}

fn contains_ext(v: &Vec<&'static str>, e: &str) -> (r: bool)
    ensures
        r == str_views(v@).contains(e@),
{
    let ghost m = str_views(v@);
    let w = chars_of(e);
    let mut i: usize = 0;
    while i < v.len()
        invariant
            i <= v.len(),
            w@ == e@,
            m == str_views(v@),
            forall|k: int| 0 <= k < i ==> m[k] != e@,
        decreases v.len() - i,
    {
        let x = chars_of(v[i]);
        if str_eq(&x, e) {
            assert(m[i as int] == e@);
            return true;
        }
        i = i + 1;
    }
    false
}

impl SupportedLanguage {
    /// All extensions searched in `Auto` mode (walk filter), each once.
    pub fn union_extensions_for_auto_filter() -> (r: Vec<&'static str>)
        ensures
            all_fixed_extensions(str_views(r@)),
    {
        let all = Self::all();
        let mut out: Vec<&'static str> = Vec::new();
        let mut i: usize = 0;
        while i < all.len()
            invariant
                i <= all.len(),
                all@ == fixed_languages(),
                forall|a: int, b: int| 0 <= a < b < out@.len() ==> out@[a]@ != out@[b]@,
                forall|a: int| 0 <= a < out@.len() ==> is_fixed_ext(#[trigger] out@[a]@),
                forall|k: int, e: Seq<char>|
                    #![trigger extensions_spec(fixed_languages()[k]).contains(e)]
                    0 <= k < i && extensions_spec(fixed_languages()[k]).contains(e)
                        ==> str_views(out@).contains(e),
            decreases all.len() - i,
        {
            let lang = all[i];
            let exts = lang.extensions();
            let mut j: usize = 0;
            while j < exts.len()
                invariant
                    i < all.len(),
                    all@ == fixed_languages(),
                    lang == fixed_languages()[i as int],
                    j <= exts.len(),
                    exts@.len() == extensions_spec(lang).len(),
                    forall|k: int| 0 <= k < exts@.len() ==> (#[trigger] exts@[k])@ == extensions_spec(lang)[k],
                    forall|a: int, b: int| 0 <= a < b < out@.len() ==> out@[a]@ != out@[b]@,
                    forall|a: int| 0 <= a < out@.len() ==> is_fixed_ext(#[trigger] out@[a]@),
                    forall|k: int, e: Seq<char>|
                        #![trigger extensions_spec(fixed_languages()[k]).contains(e)]
                        0 <= k < i && extensions_spec(fixed_languages()[k]).contains(e)
                            ==> str_views(out@).contains(e),
                    forall|k: int| 0 <= k < j ==> str_views(out@).contains(#[trigger] extensions_spec(lang)[k]),
                decreases exts.len() - j,
            {
                let e = exts[j];
                let ghost before = out@;
                if !contains_ext(&out, e) {
                    out.push(e);
                    proof {
                        assert(fixed_languages().contains(lang));
                        assert(extensions_spec(lang).contains(e@)) by {
                            assert(extensions_spec(lang)[j as int] == e@);
                        }
                        assert forall|a: int| 0 <= a < out@.len() implies is_fixed_ext(#[trigger] out@[a]@) by {
                            if a == out@.len() - 1 {
                                assert(fixed_languages().contains(lang) && extensions_spec(lang).contains(out@[a]@));
                            } else {
                                assert(out@[a] == before[a]);
                            }
                        }
                        assert forall|a: int, b: int| 0 <= a < b < out@.len() implies out@[a]@ != out@[b]@ by {
                            if b == out@.len() - 1 {
                                assert(str_views(before)[a] == out@[a]@);
                            } else {
                                assert(out@[a] == before[a] && out@[b] == before[b]);
                            }
                        }
                        assert forall|x: Seq<char>| str_views(before).contains(x) implies str_views(out@).contains(x) by {
                            let q = choose|q: int| 0 <= q < before.len() && #[trigger] str_views(before)[q] == x;
                            assert(str_views(out@)[q] == x);
                        }
                        assert(str_views(out@)[out@.len() - 1] == e@);
                    }
                }
                proof {
                    assert(extensions_spec(lang)[j as int] == e@);
                }
                j = j + 1;
            }
            proof {
                assert forall|k: int, e: Seq<char>|
                    #![trigger extensions_spec(fixed_languages()[k]).contains(e)]
                    0 <= k < i + 1 && extensions_spec(fixed_languages()[k]).contains(e)
                        implies str_views(out@).contains(e) by {
                    if k == i {
                        let q = choose|q: int| 0 <= q < extensions_spec(lang).len() && #[trigger] extensions_spec(lang)[q] == e;
                        assert(str_views(out@).contains(extensions_spec(lang)[q]));
                    }
                }
            }
            i = i + 1;
        }
        proof {
            let m = str_views(out@);
            assert forall|l: SupportedLanguage, e: Seq<char>|
                #![trigger fixed_languages().contains(l), extensions_spec(l).contains(e)]
                fixed_languages().contains(l) && extensions_spec(l).contains(e) implies m.contains(e) by {
                let k = choose|k: int| 0 <= k < fixed_languages().len() && #[trigger] fixed_languages()[k] == l;
                assert(extensions_spec(fixed_languages()[k]).contains(e));
            }
            assert forall|a: int, b: int| 0 <= a < b < m.len() implies m[a] != m[b] by {
                assert(m[a] == out@[a]@ && m[b] == out@[b]@);
            }
            assert forall|a: int| 0 <= a < m.len() implies is_fixed_ext(#[trigger] m[a]) by {
                assert(m[a] == out@[a]@);
            }
        }
        out
    }
}


/// A pair of the `Auto` extension map: `(".ext", language name)` for a fixed extension that resolves.
pub open spec fn auto_mapping_entry(e: Seq<char>, pair: (Seq<char>, Seq<char>)) -> bool {
    &&& is_fixed_ext(e)
    &&& lang_for_extension(e) is Some
    &&& pair == (seq!['.'] + e, display_name_spec(lang_for_extension(e)->0))
}

pub open spec fn is_auto_entry(pair: (Seq<char>, Seq<char>)) -> bool {
    exists|e: Seq<char>| #[trigger] auto_mapping_entry(e, pair)
}

pub open spec fn pair_views(v: Seq<(String, String)>) -> Seq<(Seq<char>, Seq<char>)> {
    Seq::new(v.len(), |i: int| (v[i].0@, v[i].1@))
}

/// The extension map of the `Auto` mode: one entry per resolving fixed extension, ordered by key.
pub open spec fn auto_mapping(r: Seq<(Seq<char>, Seq<char>)>) -> bool {
    &&& forall|i: int, j: int| 0 <= i < j < r.len() ==> lex_lt(r[i].0, r[j].0)
    &&& forall|i: int| 0 <= i < r.len() ==> is_auto_entry(#[trigger] r[i])
    &&& forall|e: Seq<char>| is_fixed_ext(e) && lang_for_extension(e) is Some ==> exists|i: int|
        0 <= i < r.len() && #[trigger] r[i] == (seq!['.'] + e, display_name_spec(lang_for_extension(e)->0))
}

fn dot_key(e: &str) -> (r: String)
    ensures
        r@ == seq!['.'] + e@,
{
    let mut s = String::new();
    crate::text::push_char(&mut s, '.');
    crate::text::push_str(&mut s, e);
    s
}

proof fn lemma_dot_key_injective(a: Seq<char>, b: Seq<char>)
    requires
        seq!['.'] + a == seq!['.'] + b,
    ensures
        a == b,
{
    assert(a =~= (seq!['.'] + a).drop_first());
    assert(b =~= (seq!['.'] + b).drop_first());
}

pub open spec fn keys_sorted(r: Seq<(Seq<char>, Seq<char>)>) -> bool {
    forall|i: int, j: int| 0 <= i < j < r.len() ==> lex_lt(r[i].0, r[j].0)
}

/// Inserts `(key, val)` at its place in a list sorted by key.
fn insert_sorted(out: &mut Vec<(String, String)>, key: String, val: String)
    requires
        keys_sorted(pair_views(old(out)@)),
        forall|a: int| 0 <= a < old(out)@.len() ==> (#[trigger] old(out)@[a]).0@ != key@,
    ensures
        keys_sorted(pair_views(final(out)@)),
        exists|p: int| 0 <= p <= old(out)@.len() && pair_views(final(out)@) == pair_views(old(out)@).insert(p, (key@, val@)),
{
    let ghost old_out = pair_views(out@);
    let kv = chars_of(key.as_str());
    let mut p: usize = 0;
    while p < out.len()
        invariant
            p <= out.len(),
            old_out == pair_views(out@),
            kv@ == key@,
            forall|q: int| 0 <= q < p ==> lex_lt(old_out[q].0, key@),
        ensures
            p <= out.len(),
            forall|q: int| 0 <= q < p ==> lex_lt(old_out[q].0, key@),
            p < out.len() ==> !lex_lt(old_out[p as int].0, key@),
        decreases out.len() - p,
    {
        let other = chars_of(out[p].0.as_str());
        if !lex_less(&other, &kv) {
            break;
        }
        p = p + 1;
    }
    proof {
        if p < old_out.len() {
            assert(old_out[p as int].0 != key@) by {
                assert(out@[p as int].0@ != key@);
            }
            lemma_lex_lt_total(old_out[p as int].0, key@);
            assert forall|b: int| p <= b < old_out.len() implies lex_lt(key@, old_out[b].0) by {
                if b > p {
                    lemma_lex_lt_trans(key@, old_out[p as int].0, old_out[b].0);
                }
            }
        }
    }
    let ghost kk = key@;
    let ghost vv = val@;
    out.insert(p, (key, val));
    proof {
        let nv = pair_views(out@);
        assert(nv =~= old_out.insert(p as int, (kk, vv)));
        assert forall|a: int, b: int| 0 <= a < b < nv.len() implies lex_lt(nv[a].0, nv[b].0) by {
            if b < p {
            } else if b == p {
            } else if a < p {
                lemma_lex_lt_trans(nv[a].0, kk, nv[b].0);
            } else if a == p {
            } else {
                assert(nv[a] == old_out[a - 1] && nv[b] == old_out[b - 1]);
            }
        }
    }
}

proof fn lemma_insert_members<T>(s: Seq<T>, p: int, x: T)
    requires
        0 <= p <= s.len(),
    ensures
        s.insert(p, x).contains(x),
        forall|y: T| s.contains(y) ==> #[trigger] s.insert(p, x).contains(y),
        forall|b: int| 0 <= b < s.insert(p, x).len() ==> #[trigger] s.insert(p, x)[b] == x || s.contains(s.insert(p, x)[b]),
{
    let n = s.insert(p, x);
    s.insert_ensures(p, x);
    assert(n[p] == x);
    assert forall|y: T| s.contains(y) implies #[trigger] n.contains(y) by {
        let a = choose|a: int| 0 <= a < s.len() && s[a] == y;
        if a < p {
            assert(n[a] == s[a]);
        } else {
            assert(n[a + 1] == s[a]);
        }
    }
    assert forall|b: int| 0 <= b < n.len() implies #[trigger] n[b] == x || s.contains(n[b]) by {
        if b < p {
            assert(n[b] == s[b]);
        } else if b > p {
            assert(n[b] == s[b - 1]);
        }
    }
}

/// The `Auto` entry of extension `e`.
pub open spec fn entry_of(e: Seq<char>) -> (Seq<char>, Seq<char>) {
    (seq!['.'] + e, display_name_spec(lang_for_extension(e)->0))
}

/// `x` is the entry of one of the first `i` extensions of `ev` that resolve to a language.
pub open spec fn entry_from(x: (Seq<char>, Seq<char>), ev: Seq<Seq<char>>, i: int) -> bool {
    exists|k: int| 0 <= k < i && lang_for_extension(ev[k]) is Some && x == #[trigger] entry_of(ev[k])
}

/// What the `Auto` loop has built after the first `i` extensions.
pub open spec fn auto_prefix(r: Seq<(Seq<char>, Seq<char>)>, ev: Seq<Seq<char>>, i: int) -> bool {
    &&& keys_sorted(r)
    &&& forall|a: int| 0 <= a < r.len() ==> entry_from(#[trigger] r[a], ev, i)
    &&& forall|k: int| 0 <= k < i && lang_for_extension(ev[k]) is Some ==> #[trigger] r.contains(entry_of(ev[k]))
}

proof fn lemma_auto_fresh(r: Seq<(Seq<char>, Seq<char>)>, ev: Seq<Seq<char>>, i: int)
    requires
        0 <= i < ev.len(),
        auto_prefix(r, ev, i),
        forall|a: int, b: int| 0 <= a < b < ev.len() ==> ev[a] != ev[b],
    ensures
        forall|a: int| 0 <= a < r.len() ==> (#[trigger] r[a]).0 != seq!['.'] + ev[i],
{
    assert forall|a: int| 0 <= a < r.len() implies (#[trigger] r[a]).0 != seq!['.'] + ev[i] by {
        assert(entry_from(r[a], ev, i));
        let k = choose|k: int| 0 <= k < i && lang_for_extension(ev[k]) is Some && r[a] == #[trigger] entry_of(ev[k]);
        if r[a].0 == seq!['.'] + ev[i] {
            lemma_dot_key_injective(ev[k], ev[i]);
        }
    }
}

proof fn lemma_auto_step(r: Seq<(Seq<char>, Seq<char>)>, n: Seq<(Seq<char>, Seq<char>)>, ev: Seq<Seq<char>>, i: int)
    requires
        0 <= i < ev.len(),
        lang_for_extension(ev[i]) is Some,
        auto_prefix(r, ev, i),
        keys_sorted(n),
        exists|p: int| 0 <= p <= r.len() && n == r.insert(p, entry_of(ev[i])),
    ensures
        auto_prefix(n, ev, i + 1),
{
    let x = entry_of(ev[i]);
    let p = choose|p: int| 0 <= p <= r.len() && n == r.insert(p, entry_of(ev[i]));
    lemma_insert_members(r, p, x);
    assert forall|a: int| 0 <= a < n.len() implies entry_from(#[trigger] n[a], ev, i + 1) by {
        if n[a] == x {
            assert(0 <= i < i + 1 && lang_for_extension(ev[i]) is Some && n[a] == entry_of(ev[i]));
        } else {
            assert(r.contains(n[a]));
            let b = choose|b: int| 0 <= b < r.len() && r[b] == n[a];
            assert(entry_from(r[b], ev, i));
            let k = choose|k: int| 0 <= k < i && lang_for_extension(ev[k]) is Some && r[b] == #[trigger] entry_of(ev[k]);
            assert(0 <= k < i + 1 && lang_for_extension(ev[k]) is Some && n[a] == entry_of(ev[k]));
        }
    }
    assert forall|k: int| 0 <= k < i + 1 && lang_for_extension(ev[k]) is Some implies #[trigger] n.contains(entry_of(ev[k])) by {
        if k < i {
            assert(r.contains(entry_of(ev[k])));
        }
    }
}

proof fn lemma_auto_done(r: Seq<(Seq<char>, Seq<char>)>, ev: Seq<Seq<char>>)
    requires
        all_fixed_extensions(ev),
        auto_prefix(r, ev, ev.len() as int),
    ensures
        auto_mapping(r),
{
    assert forall|a: int| 0 <= a < r.len() implies is_auto_entry(#[trigger] r[a]) by {
        assert(entry_from(r[a], ev, ev.len() as int));
        let k = choose|k: int| 0 <= k < ev.len() && lang_for_extension(ev[k]) is Some && r[a] == #[trigger] entry_of(ev[k]);
        assert(is_fixed_ext(ev[k]));
        assert(auto_mapping_entry(ev[k], r[a]));
    }
    assert forall|e: Seq<char>| is_fixed_ext(e) && lang_for_extension(e) is Some implies exists|a: int|
        0 <= a < r.len() && #[trigger] r[a] == (seq!['.'] + e, display_name_spec(lang_for_extension(e)->0)) by {
        let l = choose|l: SupportedLanguage| fixed_languages().contains(l) && #[trigger] extensions_spec(l).contains(e);
        assert(ev.contains(e));
        let k = choose|k: int| 0 <= k < ev.len() && ev[k] == e;
        assert(r.contains(entry_of(ev[k])));
        let a = choose|a: int| 0 <= a < r.len() && r[a] == entry_of(ev[k]);
        assert(r[a] == (seq!['.'] + e, display_name_spec(lang_for_extension(e)->0)));
    }
}

impl SupportedLanguage {
    /// The "extension → parsed language" list used for AST search in this mode (shown in the UI).
    pub fn ast_grep_extension_mapping(self) -> (r: Vec<(String, String)>)
        ensures
            self == SupportedLanguage::Auto ==> auto_mapping(pair_views(r@)),
            self != SupportedLanguage::Auto ==> pair_views(r@) == Seq::new(
                extensions_spec(self).len(),
                |i: int| (seq!['.'] + extensions_spec(self)[i], display_name_spec(self)),
            ),
    {
        if self != SupportedLanguage::Auto {
            let exts = self.extensions();
            let name = self.display_name();
            let mut out: Vec<(String, String)> = Vec::new();
            let mut i: usize = 0;
            while i < exts.len()
                invariant
                    i <= exts.len(),
                    exts@.len() == extensions_spec(self).len(),
                    forall|k: int| 0 <= k < exts@.len() ==> (#[trigger] exts@[k])@ == extensions_spec(self)[k],
                    name@ == display_name_spec(self),
                    out@.len() == i,
                    forall|k: int| 0 <= k < i ==> (#[trigger] out@[k]).0@ == seq!['.'] + extensions_spec(self)[k]
                        && out@[k].1@ == display_name_spec(self),
                decreases exts.len() - i,
            {
                let key = dot_key(exts[i]);
                let val = name.to_string();
                out.push((key, val));
                i = i + 1;
            }
            proof {
                assert(pair_views(out@) =~= Seq::new(
                    extensions_spec(self).len(),
                    |k: int| (seq!['.'] + extensions_spec(self)[k], display_name_spec(self)),
                ));
            }
            return out;
        }
        let exts = Self::union_extensions_for_auto_filter();
        let ghost ev = str_views(exts@);
        let mut out: Vec<(String, String)> = Vec::new();
        let mut i: usize = 0;
        while i < exts.len()
            invariant
                i <= exts.len(),
                ev == str_views(exts@),
                all_fixed_extensions(ev),
                auto_prefix(pair_views(out@), ev, i as int),
            decreases exts.len() - i,
        {
            let e = exts[i];
            assert(ev[i as int] == e@);
            match Self::from_extension(e) {
                Some(detected) => {
                    let key = dot_key(e);
                    let ghost old_out = pair_views(out@);
                    proof {
                        lemma_auto_fresh(old_out, ev, i as int);
                        assert forall|a: int| 0 <= a < out@.len() implies (#[trigger] out@[a]).0@ != key@ by {
                            assert(out@[a].0@ == old_out[a].0);
                        }
                    }
                    let val = detected.display_name().to_string();
                    let ghost entry = (key@, val@);
                    assert(entry == entry_of(ev[i as int]));
                    insert_sorted(&mut out, key, val);
                    proof {
                        lemma_auto_step(old_out, pair_views(out@), ev, i as int);
                    }
                },
                None => {},
            }
            i = i + 1;
        }
        proof {
            lemma_auto_done(pair_views(out@), ev);
        }
        out
    }
}

/// Whether a path ends in a plain file name (not a separator, not a `.`).
pub open spec fn ends_in_file_name(path: Seq<char>) -> bool {
    path.len() > 0 && path.last() != '/' && path.last() != '\\' && path.last() != '.'
}

/// The index of the last `c` in `s` (-1 when there is none).
pub open spec fn last_index_of(s: Seq<char>, c: char) -> int
    decreases s.len(),
{
    if s.len() == 0 {
        -1
    } else if s.last() == c {
        s.len() - 1
    } else {
        last_index_of(s.drop_last(), c)
    }
}

/// A path that every platform splits alike: it ends in a plain file name and
/// holds no `\` and no `:` (no Windows separator or prefix), so its file
/// name is the text after its last `/`.
pub open spec fn portable_path(path: Seq<char>) -> bool {
    ends_in_file_name(path) && !contains_char(path, '\\') && !contains_char(path, ':')
}

/// The extension of a portable path: the text after the last `.` of its file
/// name, when that `.` is not the file name's first character.
pub open spec fn extension_spec(path: Seq<char>) -> Option<Seq<char>> {
    let d = last_index_of(path, '.');
    let sl = last_index_of(path, '/');
    if d > sl && d > 0 && path[d - 1] != '/' { Some(path.skip(d + 1)) } else { None }
}

/// Calls `Path::extension` on `path` (taken as UTF-8). Its documentation:
/// the part of the file name after its last `.`, `None` when the file name
/// has no `.` or only a leading one. Where the path ends in a plain file
/// name, that part ends the path, after a `.`, and holds no `.`. Where the
/// path holds no `\` and no `:`, every platform takes the text after the last
/// `/` as the file name, so the extension is `extension_spec`.
#[verifier::external_body]
fn path_extension(path: &str) -> (r: Option<String>)
    ensures
        ends_in_file_name(path@) ==> (r matches Some(e) ==> ends_with(path@, seq!['.'] + e@) && !contains_char(e@, '.')),
        portable_path(path@) ==> match r {
            Some(e) => extension_spec(path@) == Some(e@),
            None => extension_spec(path@) is None,
        },
{
    std::path::Path::new(path).extension().and_then(|e| e.to_str()).map(|e| e.to_string())
}

/// The extension of a path's file name, as `Path::extension` gives it.
pub fn file_extension(path: &str) -> (r: Option<String>)
    ensures
        ends_in_file_name(path@) ==> (r matches Some(e) ==> ends_with(path@, seq!['.'] + e@) && !contains_char(e@, '.')),
        portable_path(path@) ==> match r {
            Some(e) => extension_spec(path@) == Some(e@),
            None => extension_spec(path@) is None,
        },
{
    path_extension(path)
}

} // verus!
