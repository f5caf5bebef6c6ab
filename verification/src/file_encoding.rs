//! Text encodings of searched files: their names, the user's choice, and decoding.
use vstd::prelude::*;
use crate::i18n::{pick, UiLanguage};
use crate::text::{is_control, join, join_strs, push_str, str_views};
use encoding_rs::Encoding;

verus! {

/// The encoding the user asks for (or automatic detection).
#[derive(Debug, Clone, Copy, PartialEq, Eq, Structural)]
pub enum FileEncodingPreference {
    Auto,
    Utf8,
    Utf16Le,
    Utf16Be,
    ShiftJis,
    EucJp,
    Iso2022Jp,
    Gbk,
    Big5,
    EucKr,
    Windows1252,
}

impl Default for FileEncodingPreference {
    fn default() -> (r: Self)
        ensures
            r == FileEncodingPreference::Auto,
    {
        FileEncodingPreference::Auto
    }
}

/// The encoding a file was actually read with.
#[derive(Debug, PartialEq, Eq)]
pub enum FileEncoding {
    Utf8,
    Utf16Le,
    Utf16Be,
    ShiftJis,
    EucJp,
    Iso2022Jp,
    Gbk,
    Big5,
    EucKr,
    Windows1252,
    /// Another encoding, by its name.
    Detected(String),
}

/// The value of a [`FileEncoding`].
pub enum EncodingView {
    Utf8,
    Utf16Le,
    Utf16Be,
    ShiftJis,
    EucJp,
    Iso2022Jp,
    Gbk,
    Big5,
    EucKr,
    Windows1252,
    Detected(Seq<char>),
}

impl View for FileEncoding {
    type V = EncodingView;

    open spec fn view(&self) -> EncodingView {
        match self {
            FileEncoding::Utf8 => EncodingView::Utf8,
            FileEncoding::Utf16Le => EncodingView::Utf16Le,
            FileEncoding::Utf16Be => EncodingView::Utf16Be,
            FileEncoding::ShiftJis => EncodingView::ShiftJis,
            FileEncoding::EucJp => EncodingView::EucJp,
            FileEncoding::Iso2022Jp => EncodingView::Iso2022Jp,
            FileEncoding::Gbk => EncodingView::Gbk,
            FileEncoding::Big5 => EncodingView::Big5,
            FileEncoding::EucKr => EncodingView::EucKr,
            FileEncoding::Windows1252 => EncodingView::Windows1252,
            FileEncoding::Detected(s) => EncodingView::Detected(s@),
        }
    }
}

impl Clone for FileEncoding {
    fn clone(&self) -> (r: Self)
        ensures
            r@ == self@,
    {
        match self {
            FileEncoding::Utf8 => FileEncoding::Utf8,
            FileEncoding::Utf16Le => FileEncoding::Utf16Le,
            FileEncoding::Utf16Be => FileEncoding::Utf16Be,
            FileEncoding::ShiftJis => FileEncoding::ShiftJis,
            FileEncoding::EucJp => FileEncoding::EucJp,
            FileEncoding::Iso2022Jp => FileEncoding::Iso2022Jp,
            FileEncoding::Gbk => FileEncoding::Gbk,
            FileEncoding::Big5 => FileEncoding::Big5,
            FileEncoding::EucKr => FileEncoding::EucKr,
            FileEncoding::Windows1252 => FileEncoding::Windows1252,
            FileEncoding::Detected(s) => FileEncoding::Detected(s.clone()),
        }
    }
}

/// Decoded file contents and the encoding used.
#[derive(Debug)]
pub struct DecodedText {
    pub text: String,
    pub encoding: FileEncoding,
}

/// Label of a fixed encoding (the same in both UI languages).
pub open spec fn fixed_label(e: EncodingView) -> Seq<char> {
    match e {
        EncodingView::Utf8 => "UTF-8"@,
        EncodingView::Utf16Le => "UTF-16 LE"@,
        EncodingView::Utf16Be => "UTF-16 BE"@,
        EncodingView::ShiftJis => "Shift_JIS (CP932)"@,
        EncodingView::EucJp => "EUC-JP"@,
        EncodingView::Iso2022Jp => "JIS (ISO-2022-JP)"@,
        EncodingView::Gbk => "GBK / GB18030"@,
        EncodingView::Big5 => "Big5"@,
        EncodingView::EucKr => "EUC-KR"@,
        EncodingView::Windows1252 => "Latin1 / Windows-1252"@,
        EncodingView::Detected(name) => name,
    }
}

/// The encoding a fixed preference names (`None` for `Auto`).
pub open spec fn preference_encoding(p: FileEncodingPreference) -> Option<EncodingView> {
    match p {
        FileEncodingPreference::Auto => None,
        FileEncodingPreference::Utf8 => Some(EncodingView::Utf8),
        FileEncodingPreference::Utf16Le => Some(EncodingView::Utf16Le),
        FileEncodingPreference::Utf16Be => Some(EncodingView::Utf16Be),
        FileEncodingPreference::ShiftJis => Some(EncodingView::ShiftJis),
        FileEncodingPreference::EucJp => Some(EncodingView::EucJp),
        FileEncodingPreference::Iso2022Jp => Some(EncodingView::Iso2022Jp),
        FileEncodingPreference::Gbk => Some(EncodingView::Gbk),
        FileEncodingPreference::Big5 => Some(EncodingView::Big5),
        FileEncodingPreference::EucKr => Some(EncodingView::EucKr),
        FileEncodingPreference::Windows1252 => Some(EncodingView::Windows1252),
    }
}

impl FileEncodingPreference {
    /// Every choice, in menu order.
    pub fn all() -> (r: &'static [FileEncodingPreference])
        ensures
            r@ == seq![
                FileEncodingPreference::Auto, FileEncodingPreference::Utf8, FileEncodingPreference::Utf16Le,
                FileEncodingPreference::Utf16Be, FileEncodingPreference::ShiftJis, FileEncodingPreference::EucJp,
                FileEncodingPreference::Iso2022Jp, FileEncodingPreference::Gbk, FileEncodingPreference::Big5,
                FileEncodingPreference::EucKr, FileEncodingPreference::Windows1252,
            ],
    {
        let r: &'static [FileEncodingPreference] = &[
            FileEncodingPreference::Auto, FileEncodingPreference::Utf8, FileEncodingPreference::Utf16Le,
            FileEncodingPreference::Utf16Be, FileEncodingPreference::ShiftJis, FileEncodingPreference::EucJp,
            FileEncodingPreference::Iso2022Jp, FileEncodingPreference::Gbk, FileEncodingPreference::Big5,
            FileEncodingPreference::EucKr, FileEncodingPreference::Windows1252,
        ];
        assert(r@ =~= seq![
            FileEncodingPreference::Auto, FileEncodingPreference::Utf8, FileEncodingPreference::Utf16Le,
            FileEncodingPreference::Utf16Be, FileEncodingPreference::ShiftJis, FileEncodingPreference::EucJp,
            FileEncodingPreference::Iso2022Jp, FileEncodingPreference::Gbk, FileEncodingPreference::Big5,
            FileEncodingPreference::EucKr, FileEncodingPreference::Windows1252,
        ]);
        r
    }

    /// Menu label: the encoding's label, or "automatic" in the UI language.
    pub fn display_label(self, ui_lang: UiLanguage) -> (r: &'static str)
        ensures
            r@ == (match preference_encoding(self) {
                None => pick(ui_lang, "自動判定"@, "Auto detect"@),
                Some(e) => fixed_label(e),
            }),
    {
        match self {
            FileEncodingPreference::Auto => match ui_lang {
                UiLanguage::Japanese => "自動判定",
                UiLanguage::English => "Auto detect",
            },
            FileEncodingPreference::Utf8 => "UTF-8",
            FileEncodingPreference::Utf16Le => "UTF-16 LE",
            FileEncodingPreference::Utf16Be => "UTF-16 BE",
            FileEncodingPreference::ShiftJis => "Shift_JIS (CP932)",
            FileEncodingPreference::EucJp => "EUC-JP",
            FileEncodingPreference::Iso2022Jp => "JIS (ISO-2022-JP)",
            FileEncodingPreference::Gbk => "GBK / GB18030",
            FileEncodingPreference::Big5 => "Big5",
            FileEncodingPreference::EucKr => "EUC-KR",
            FileEncodingPreference::Windows1252 => "Latin1 / Windows-1252",
        }
    }

    /// The fixed encoding chosen (`None` for automatic detection).
    pub fn to_file_encoding(self) -> (r: Option<FileEncoding>)
        ensures
            match r {
                Some(e) => preference_encoding(self) == Some(e@),
                None => preference_encoding(self) is None,
            },
    {
        match self {
            FileEncodingPreference::Auto => None,
            FileEncodingPreference::Utf8 => Some(FileEncoding::Utf8),
            FileEncodingPreference::Utf16Le => Some(FileEncoding::Utf16Le),
            FileEncodingPreference::Utf16Be => Some(FileEncoding::Utf16Be),
            FileEncodingPreference::ShiftJis => Some(FileEncoding::ShiftJis),
            FileEncodingPreference::EucJp => Some(FileEncoding::EucJp),
            FileEncodingPreference::Iso2022Jp => Some(FileEncoding::Iso2022Jp),
            FileEncodingPreference::Gbk => Some(FileEncoding::Gbk),
            FileEncodingPreference::Big5 => Some(FileEncoding::Big5),
            FileEncodingPreference::EucKr => Some(FileEncoding::EucKr),
            FileEncodingPreference::Windows1252 => Some(FileEncoding::Windows1252),
        }
    }
}

/// Other names the encoding is known by.
pub open spec fn aliases_spec(e: EncodingView) -> Seq<Seq<char>> {
    match e {
        EncodingView::Utf8 => seq!["UTF8"@, "UTF-8N"@],
        EncodingView::Utf16Le | EncodingView::Utf16Be => seq!["UTF-16"@, "Unicode"@],
        EncodingView::ShiftJis => seq!["CP932"@, "Windows-31J"@, "MS_Kanji"@],
        EncodingView::EucJp => seq!["EUC"@],
        EncodingView::Iso2022Jp => seq!["JIS"@],
        EncodingView::Gbk => seq!["GB18030"@, "CP936"@],
        EncodingView::Big5 => seq!["CP950"@],
        EncodingView::EucKr => seq!["KS X 1001"@, "CP949"@],
        EncodingView::Windows1252 => seq!["Latin1"@, "ISO-8859-1"@],
        EncodingView::Detected(_) => seq![],
    }
}

/// Encodings that are easily confused with this one.
pub open spec fn near_miss_spec(e: EncodingView) -> Seq<Seq<char>> {
    match e {
        EncodingView::Utf8 => seq!["UTF-16 LE"@, "UTF-16 BE"@],
        EncodingView::Utf16Le | EncodingView::Utf16Be => seq!["UTF-8"@, "Shift_JIS (CP932)"@],
        EncodingView::ShiftJis => seq!["EUC-JP"@, "JIS (ISO-2022-JP)"@],
        EncodingView::EucJp => seq!["Shift_JIS (CP932)"@, "JIS (ISO-2022-JP)"@],
        EncodingView::Iso2022Jp => seq!["Shift_JIS (CP932)"@, "EUC-JP"@],
        EncodingView::Gbk => seq!["Big5"@, "Latin1 / Windows-1252"@],
        EncodingView::Big5 => seq!["GBK / GB18030"@, "Latin1 / Windows-1252"@],
        EncodingView::EucKr => seq!["Latin1 / Windows-1252"@, "UTF-8"@],
        EncodingView::Windows1252 => seq!["UTF-8"@, "Shift_JIS (CP932)"@],
        EncodingView::Detected(_) => seq![],
    }
}

fn encoding_aliases(encoding: &FileEncoding) -> (r: &'static [&'static str])
    ensures
        str_views(r@) == aliases_spec(encoding@),
{
    let r: &'static [&'static str] = match encoding {
        FileEncoding::Utf8 => &["UTF8", "UTF-8N"],
        FileEncoding::Utf16Le | FileEncoding::Utf16Be => &["UTF-16", "Unicode"],
        FileEncoding::ShiftJis => &["CP932", "Windows-31J", "MS_Kanji"],
        FileEncoding::EucJp => &["EUC"],
        FileEncoding::Iso2022Jp => &["JIS"],
        FileEncoding::Gbk => &["GB18030", "CP936"],
        FileEncoding::Big5 => &["CP950"],
        FileEncoding::EucKr => &["KS X 1001", "CP949"],
        FileEncoding::Windows1252 => &["Latin1", "ISO-8859-1"],
        FileEncoding::Detected(_) => &[],
    };
    assert(str_views(r@) =~= aliases_spec(encoding@));
    r
}

fn near_miss_candidates(encoding: &FileEncoding) -> (r: &'static [&'static str])
    ensures
        str_views(r@) == near_miss_spec(encoding@),
{
    let r: &'static [&'static str] = match encoding {
        FileEncoding::Utf8 => &["UTF-16 LE", "UTF-16 BE"],
        FileEncoding::Utf16Le | FileEncoding::Utf16Be => &["UTF-8", "Shift_JIS (CP932)"],
        FileEncoding::ShiftJis => &["EUC-JP", "JIS (ISO-2022-JP)"],
        FileEncoding::EucJp => &["Shift_JIS (CP932)", "JIS (ISO-2022-JP)"],
        FileEncoding::Iso2022Jp => &["Shift_JIS (CP932)", "EUC-JP"],
        FileEncoding::Gbk => &["Big5", "Latin1 / Windows-1252"],
        FileEncoding::Big5 => &["GBK / GB18030", "Latin1 / Windows-1252"],
        FileEncoding::EucKr => &["Latin1 / Windows-1252", "UTF-8"],
        FileEncoding::Windows1252 => &["UTF-8", "Shift_JIS (CP932)"],
        FileEncoding::Detected(_) => &[],
    };
    assert(str_views(r@) =~= near_miss_spec(encoding@));
    r
}

/// `"<prefix>: <label>"`, then `"Aliases: …"` and `"Near matches: …"` when
/// there are any, joined by `" / "` (prefixes in the UI language).
pub open spec fn encoding_detail_spec(ui_lang: UiLanguage, ja_prefix: Seq<char>, en_prefix: Seq<char>, e: EncodingView) -> Seq<char> {
    let head = pick(ui_lang, ja_prefix, en_prefix) + ": "@ + fixed_label(e);
    let a = aliases_spec(e);
    let n = near_miss_spec(e);
    let with_aliases = if a.len() > 0 {
        head + " / "@ + pick(ui_lang, "別名: "@, "Aliases: "@) + join(a, ", "@)
    } else {
        head
    };
    if n.len() > 0 {
        with_aliases + " / "@ + pick(ui_lang, "近い候補: "@, "Near matches: "@) + join(n, ", "@)
    } else {
        with_aliases
    }
}

fn build_encoding_detail(ui_lang: UiLanguage, ja_prefix: &str, en_prefix: &str, encoding: &FileEncoding) -> (r: String)
    ensures
        r@ == encoding_detail_spec(ui_lang, ja_prefix@, en_prefix@, encoding@),
{
    let mut s = match ui_lang {
        UiLanguage::Japanese => ja_prefix.to_string(),
        UiLanguage::English => en_prefix.to_string(),
    };
    push_str(&mut s, ": ");
    let label = encoding.display_label();
    push_str(&mut s, label.as_str());
    let aliases = encoding_aliases(encoding);
    if aliases.len() > 0 {
        push_str(&mut s, " / ");
        match ui_lang {
            UiLanguage::Japanese => push_str(&mut s, "別名: "),
            UiLanguage::English => push_str(&mut s, "Aliases: "),
        }
        let j = join_strs(aliases, ", ");
        push_str(&mut s, j.as_str());
    }
    let near = near_miss_candidates(encoding);
    if near.len() > 0 {
        push_str(&mut s, " / ");
        match ui_lang {
            UiLanguage::Japanese => push_str(&mut s, "近い候補: "),
            UiLanguage::English => push_str(&mut s, "Near matches: "),
        }
        let j = join_strs(near, ", ");
        push_str(&mut s, j.as_str());
    }
    s
}

impl FileEncoding {
    /// The encoding's label (its name for a detected one).
    pub fn display_label(&self) -> (r: String)
        ensures
            r@ == fixed_label(self@),
    {
        match self {
            FileEncoding::Utf8 => "UTF-8".to_string(),
            FileEncoding::Utf16Le => "UTF-16 LE".to_string(),
            FileEncoding::Utf16Be => "UTF-16 BE".to_string(),
            FileEncoding::ShiftJis => "Shift_JIS (CP932)".to_string(),
            FileEncoding::EucJp => "EUC-JP".to_string(),
            FileEncoding::Iso2022Jp => "JIS (ISO-2022-JP)".to_string(),
            FileEncoding::Gbk => "GBK / GB18030".to_string(),
            FileEncoding::Big5 => "Big5".to_string(),
            FileEncoding::EucKr => "EUC-KR".to_string(),
            FileEncoding::Windows1252 => "Latin1 / Windows-1252".to_string(),
            FileEncoding::Detected(label) => label.clone(),
        }
    }

    /// `"Encoding: <label> / Aliases: … / Near matches: …"` for the file view.
    pub fn detail_text(&self, ui_lang: UiLanguage) -> (r: String)
        ensures
            r@ == encoding_detail_spec(ui_lang, "文字コード"@, "Encoding"@, self@),
    {
        build_encoding_detail(ui_lang, "文字コード", "Encoding", self)
    }

    /// The same detail, headed "Auto detected".
    pub fn auto_feedback_text(&self, ui_lang: UiLanguage) -> (r: String)
        ensures
            r@ == encoding_detail_spec(ui_lang, "自動判定"@, "Auto detected"@, self@),
    {
        build_encoding_detail(ui_lang, "自動判定", "Auto detected", self)
    }
}

// ───────────────────────── content checks ─────────────────────────

/// Byte order that a BOM-less UTF-16 text shows.
#[derive(Debug, Clone, Copy, PartialEq, Eq, Structural)]
pub enum Utf16Order {
    Le,
    Be,
}

pub open spec fn count_zero_at_parity(s: Seq<u8>, parity: int) -> nat
    decreases s.len(),
{
    if s.len() == 0 {
        0
    } else {
        count_zero_at_parity(s.drop_last(), parity)
            + if (s.len() - 1) % 2 == parity && s.last() == 0 { 1nat } else { 0nat }
    }
}

/// The first 512 bytes look like UTF-16 without a BOM: at least 4 byte pairs;
/// LE when at least 80% of the odd bytes and at most 20% of the even bytes are
/// zero, BE the other way round.
pub open spec fn utf16_guess_spec(bytes: Seq<u8>) -> Option<Utf16Order> {
    let sample = if bytes.len() > 512 { bytes.take(512) } else { bytes };
    let pairs = sample.len() / 2;
    let even = count_zero_at_parity(sample, 0);
    let odd = count_zero_at_parity(sample, 1);
    if pairs < 4 {
        None
    } else if odd * 5 >= pairs * 4 && even * 5 <= pairs {
        Some(Utf16Order::Le)
    } else if even * 5 >= pairs * 4 && odd * 5 <= pairs {
        Some(Utf16Order::Be)
    } else {
        None
    }
}

/// Looks for UTF-16 without a BOM in the first 512 bytes.
pub fn guess_utf16_without_bom(bytes: &[u8]) -> (r: Option<Utf16Order>)
    ensures
        r == utf16_guess_spec(bytes@),
{
    let n: usize = if bytes.len() > 512 { 512 } else { bytes.len() };
    let ghost sample = if bytes@.len() > 512 { bytes@.take(512) } else { bytes@ };
    assert(sample =~= bytes@.take(n as int));
    let pairs = n / 2;
    if pairs < 4 {
        return None;
    }
    let mut even: usize = 0;
    let mut odd: usize = 0;
    let mut i: usize = 0;
    while i < n
        invariant
            i <= n <= bytes.len(),
            n <= 512,
            even <= i,
            odd <= i,
            even as nat == count_zero_at_parity(bytes@.take(i as int), 0),
            odd as nat == count_zero_at_parity(bytes@.take(i as int), 1),
        decreases n - i,
    {
        assert(bytes@.take(i + 1).drop_last() =~= bytes@.take(i as int));
        if bytes[i] == 0 {
            if i % 2 == 0 {
                even = even + 1;
            } else {
                odd = odd + 1;
            }
        }
        i = i + 1;
    }
    if odd * 5 >= pairs * 4 && even * 5 <= pairs {
        return Some(Utf16Order::Le);
    }
    if even * 5 >= pairs * 4 && odd * 5 <= pairs {
        return Some(Utf16Order::Be);
    }
    None
}

/// Weight of a character when judging whether decoded text is binary:
/// 4 for U+FFFD, 1 for another control character than `\n \r \t \f`, else 0.
pub open spec fn suspicion(ch: char) -> nat {
    if ch == '\u{FFFD}' {
        4
    } else if is_control(ch) && !(ch == '\n' || ch == '\r' || ch == '\t' || ch == '\u{000C}') {
        1
    } else {
        0
    }
}

pub open spec fn suspicion_sum(s: Seq<char>) -> nat
    decreases s.len(),
{
    if s.len() == 0 { 0 } else { suspicion_sum(s.drop_last()) + suspicion(s.last()) }
}

/// Decoded text looks binary: over its first 4096 characters, the suspicion
/// sum is more than 5% of the character count.
pub open spec fn binary_text_spec(text: Seq<char>) -> bool {
    let head = if text.len() > 4096 { text.take(4096) } else { text };
    head.len() != 0 && suspicion_sum(head) * 20 > head.len()
}

/// Whether decoded text looks like a binary file.
pub fn is_probably_binary_text(text: &str) -> (b: bool)
    ensures
        b == binary_text_spec(text@),
{
    let v = crate::text::chars_of(text);
    let n: usize = if v.len() > 4096 { 4096 } else { v.len() };
    let ghost head = if text@.len() > 4096 { text@.take(4096) } else { text@ };
    assert(head =~= v@.take(n as int));
    let mut total: usize = 0;
    let mut suspicious: usize = 0;
    while total < n
        invariant
            total <= n <= v.len(),
            n <= 4096,
            suspicious as nat == suspicion_sum(v@.take(total as int)),
            suspicious <= 4 * total,
        decreases n - total,
    {
        let ch = v[total];
        assert(v@.take(total + 1).drop_last() =~= v@.take(total as int));
        assert(v@.take(total + 1).last() == ch);
        total = total + 1;
        if ch == '\u{FFFD}' {
            suspicious = suspicious + 4;
        } else if crate::text::is_control_char(ch) && !(ch == '\n' || ch == '\r' || ch == '\t' || ch == '\u{000C}') {
            suspicious = suspicious + 1;
        }
    }
    total != 0 && suspicious * 20 > total
}

// ───────────────────────── decoding ─────────────────────────

#[verifier::external_type_specification]
#[verifier::external_body]
pub struct ExEncoding(encoding_rs::Encoding);

/// The labels under which the fixed encodings are looked up.
pub open spec fn encoding_label(e: EncodingView) -> Seq<char> {
    match e {
        EncodingView::Utf8 => "utf-8"@,
        EncodingView::Utf16Le => "utf-16le"@,
        EncodingView::Utf16Be => "utf-16be"@,
        EncodingView::ShiftJis => "shift_jis"@,
        EncodingView::EucJp => "euc-jp"@,
        EncodingView::Iso2022Jp => "iso-2022-jp"@,
        EncodingView::Gbk => "gbk"@,
        EncodingView::Big5 => "big5"@,
        EncodingView::EucKr => "euc-kr"@,
        EncodingView::Windows1252 => "windows-1252"@,
        EncodingView::Detected(name) => name,
    }
}

/// One of the labels of the fixed encodings.
pub open spec fn is_fixed_label(l: Seq<char>) -> bool {
    ||| l == "utf-8"@
    ||| l == "utf-16le"@
    ||| l == "utf-16be"@
    ||| l == "shift_jis"@
    ||| l == "euc-jp"@
    ||| l == "iso-2022-jp"@
    ||| l == "gbk"@
    ||| l == "big5"@
    ||| l == "euc-kr"@
    ||| l == "windows-1252"@
}

/// The encoding_rs name of the encoding each fixed label stands for.
pub open spec fn fixed_label_name(l: Seq<char>) -> Seq<char> {
    if l == "utf-8"@ {
        "UTF-8"@
    } else if l == "utf-16le"@ {
        "UTF-16LE"@
    } else if l == "utf-16be"@ {
        "UTF-16BE"@
    } else if l == "shift_jis"@ {
        "Shift_JIS"@
    } else if l == "euc-jp"@ {
        "EUC-JP"@
    } else if l == "iso-2022-jp"@ {
        "ISO-2022-JP"@
    } else if l == "gbk"@ {
        "GBK"@
    } else if l == "big5"@ {
        "Big5"@
    } else if l == "euc-kr"@ {
        "EUC-KR"@
    } else {
        "windows-1252"@
    }
}

/// An encoding_rs encoding together with its name (`Encoding::name`).
pub struct LabeledEncoding {
    enc: &'static Encoding,
    name: String,
}

impl LabeledEncoding {
    /// The encoding's name.
    pub closed spec fn name_view(&self) -> Seq<char> {
        self.name@
    }

    /// The encoding's name.
    pub fn name_str(&self) -> (r: &str)
        ensures
            r@ == self.name_view(),
    {
        self.name.as_str()
    }
}

/// Names the name of the encoding that `Encoding::for_label` finds for a
/// label (a lookup of the trimmed, lower-cased label in encoding_rs's fixed
/// label table), `None` when it finds none.
pub uninterp spec fn label_encoding_name(label: Seq<char>) -> Option<Seq<char>>;

/// Calls `Encoding::for_label` on the label's bytes, keeping the found
/// encoding's name (`Encoding::name`). Each fixed label is in encoding_rs's
/// label table, under the encoding `fixed_label_name` names.
#[verifier::external_body]
fn encoding_for_label(label: &str) -> (r: Option<LabeledEncoding>)
    ensures
        r is Some <==> label_encoding_name(label@) is Some,
        r matches Some(e) ==> label_encoding_name(label@) == Some(e.name_view()),
        is_fixed_label(label@) ==> r is Some,
        r matches Some(e) ==> (is_fixed_label(label@) ==> e.name_view() == fixed_label_name(label@)),
{
    Encoding::for_label(label.as_bytes()).map(|enc| LabeledEncoding { enc, name: enc.name().to_string() })
}

/// The bytes as UTF-16LE code units, when there is an even number of them
/// and none is a surrogate.
pub open spec fn simple_utf16le(b: Seq<u8>) -> bool {
    &&& b.len() % 2 == 0
    &&& forall|i: int| 0 <= i < b.len() / 2 ==> {
        let u = #[trigger] b[2 * i] as int + 256 * b[2 * i + 1] as int;
        u < 0xD800 || u >= 0xE000
    }
}

/// The characters of UTF-16LE code units that are no surrogates.
pub open spec fn utf16le_text(b: Seq<u8>) -> Seq<char> {
    Seq::new((b.len() / 2) as nat, |i: int| (b[2 * i] as int + 256 * b[2 * i + 1] as int) as char)
}

/// Names what `Encoding::decode` returns, for the encoding of a name, on a
/// whole input: the text (the BOM, if any, dropped) and whether malformed
/// sequences were replaced. A function of the bytes and the name.
pub uninterp spec fn decoded_with(bytes: Seq<u8>, name: Seq<char>) -> (Seq<char>, bool);

/// Calls `Encoding::decode`: the text and whether malformed sequences were
/// replaced. `decode` sniffs a byte order mark first and then decodes in the
/// encoding it names, BOM dropped; so a UTF-8 BOM before valid UTF-8 gives
/// that text, and a UTF-16LE BOM before surrogate-free code units gives
/// their characters. UTF-8 without a BOM decodes valid UTF-8 as it is.
/// `decode` panics only when its buffer size overflows `usize`, which the
/// bound on the input rules out.
#[verifier::external_body]
fn decode_raw(bytes: &[u8], enc: &LabeledEncoding) -> (r: (String, bool))
    requires
        bytes@.len() <= usize::MAX / 16,
    ensures
        (r.0@, r.1) == decoded_with(bytes@, enc.name_view()),
        starts_with_bytes(bytes@, seq![0xEFu8, 0xBBu8, 0xBFu8]) && vstd::utf8::valid_utf8(bytes@.skip(3))
            ==> r.0@ == vstd::utf8::decode_utf8(bytes@.skip(3)) && !r.1,
        starts_with_bytes(bytes@, seq![0xFFu8, 0xFEu8]) && simple_utf16le(bytes@.skip(2))
            ==> r.0@ == utf16le_text(bytes@.skip(2)) && !r.1,
        enc.name_view() == "UTF-8"@ && bom_encoding(bytes@) is None && vstd::utf8::valid_utf8(bytes@)
            ==> r.0@ == vstd::utf8::decode_utf8(bytes@) && !r.1,
{
    let (cow, _, had_errors) = enc.enc.decode(bytes);
    (cow.into_owned(), had_errors)
}

/// Names the name of the encoding chardetng guesses for an input fed whole
/// (no top-level domain, UTF-8 allowed): a function of the bytes.
pub uninterp spec fn chardet_guess_name(bytes: Seq<u8>) -> Seq<char>;

/// Calls chardetng: a new `EncodingDetector` fed the whole input once
/// (`feed` with `last` set), then `guess` with no top-level domain and UTF-8
/// allowed; the guess with its name (`Encoding::name`).
#[verifier::external_body]
fn chardetng_guess(bytes: &[u8]) -> (r: LabeledEncoding)
    ensures
        r.name_view() == chardet_guess_name(bytes@),
{
    let mut detector = chardetng::EncodingDetector::new();
    detector.feed(bytes, true);
    let enc = detector.guess(None, true);
    LabeledEncoding { enc, name: enc.name().to_string() }
}

/// The name of the encoding_rs encoding an encoding stands for: fixed ones
/// by their label, detected ones by what encoding_rs finds for the name.
pub open spec fn encoding_rs_name(v: EncodingView) -> Option<Seq<char>> {
    match v {
        EncodingView::Detected(name) => label_encoding_name(name),
        _ => Some(fixed_label_name(encoding_label(v))),
    }
}

impl FileEncoding {
    /// The encoding_rs encoding: always found for a fixed one; for a detected
    /// name, what encoding_rs finds for it as a label.
    fn encoding(&self) -> (r: Option<LabeledEncoding>)
        ensures
            match r {
                Some(e) => encoding_rs_name(self@) == Some(e.name_view()),
                None => encoding_rs_name(self@) is None,
            },
    {
        match self {
            FileEncoding::Utf8 => encoding_for_label("utf-8"),
            FileEncoding::Utf16Le => encoding_for_label("utf-16le"),
            FileEncoding::Utf16Be => encoding_for_label("utf-16be"),
            FileEncoding::ShiftJis => encoding_for_label("shift_jis"),
            FileEncoding::EucJp => encoding_for_label("euc-jp"),
            FileEncoding::Iso2022Jp => encoding_for_label("iso-2022-jp"),
            FileEncoding::Gbk => encoding_for_label("gbk"),
            FileEncoding::Big5 => encoding_for_label("big5"),
            FileEncoding::EucKr => encoding_for_label("euc-kr"),
            FileEncoding::Windows1252 => encoding_for_label("windows-1252"),
            FileEncoding::Detected(label) => encoding_for_label(label.as_str()),
        }
    }
}

/// The encoding an encoding_rs name stands for (`Detected` for the others).
pub open spec fn encoding_for_name_spec(name: Seq<char>) -> EncodingView {
    if name == "UTF-8"@ {
        EncodingView::Utf8
    } else if name == "UTF-16LE"@ {
        EncodingView::Utf16Le
    } else if name == "UTF-16BE"@ {
        EncodingView::Utf16Be
    } else if name == "Shift_JIS"@ {
        EncodingView::ShiftJis
    } else if name == "EUC-JP"@ {
        EncodingView::EucJp
    } else if name == "ISO-2022-JP"@ {
        EncodingView::Iso2022Jp
    } else if name == "GBK"@ {
        EncodingView::Gbk
    } else if name == "Big5"@ {
        EncodingView::Big5
    } else if name == "EUC-KR"@ {
        EncodingView::EucKr
    } else if name == "windows-1252"@ {
        EncodingView::Windows1252
    } else {
        EncodingView::Detected(name)
    }
}

/// The encoding an encoding_rs name stands for.
pub fn file_encoding_for_name(name: &str) -> (r: FileEncoding)
    ensures
        r@ == encoding_for_name_spec(name@),
{
    let v = crate::text::chars_of(name);
    let n = v.as_slice();
    if crate::lang::str_eq(n, "UTF-8") {
        FileEncoding::Utf8
    } else if crate::lang::str_eq(n, "UTF-16LE") {
        FileEncoding::Utf16Le
    } else if crate::lang::str_eq(n, "UTF-16BE") {
        FileEncoding::Utf16Be
    } else if crate::lang::str_eq(n, "Shift_JIS") {
        FileEncoding::ShiftJis
    } else if crate::lang::str_eq(n, "EUC-JP") {
        FileEncoding::EucJp
    } else if crate::lang::str_eq(n, "ISO-2022-JP") {
        FileEncoding::Iso2022Jp
    } else if crate::lang::str_eq(n, "GBK") {
        FileEncoding::Gbk
    } else if crate::lang::str_eq(n, "Big5") {
        FileEncoding::Big5
    } else if crate::lang::str_eq(n, "EUC-KR") {
        FileEncoding::EucKr
    } else if crate::lang::str_eq(n, "windows-1252") {
        FileEncoding::Windows1252
    } else {
        FileEncoding::Detected(name.to_string())
    }
}

/// Inputs larger than this cannot be decoded (the decoder's buffer size
/// would overflow).
pub open spec fn decodable_len(bytes: Seq<u8>) -> bool {
    bytes.len() <= usize::MAX / 16
}

pub open spec fn invalid_text_message() -> Seq<char> {
    "invalid text data for detected encoding"@
}

pub open spec fn utf32_message() -> Seq<char> {
    "UTF-32 is not supported"@
}

pub open spec fn binary_message() -> Seq<char> {
    "binary file"@
}

pub open spec fn manual_required_message() -> Seq<char> {
    "manual encoding required"@
}

pub open spec fn unknown_label_message() -> Seq<char> {
    "unknown encoding label"@
}

/// `text` without one leading U+FEFF.
pub open spec fn strip_bom_char_spec(text: Seq<char>) -> Seq<char> {
    if text.len() > 0 && text[0] == '\u{feff}' { text.skip(1) } else { text }
}

fn strip_bom_char(text: String) -> (r: String)
    ensures
        r@ == strip_bom_char_spec(text@),
{
    let v = crate::text::chars_of(text.as_str());
    if v.len() > 0 && v[0] == '\u{feff}' {
        crate::text::string_of_range(&v, 1, v.len())
    } else {
        text
    }
}

/// Decoding with the encoding of a name: an error when malformed sequences
/// were met, else the text without a leading U+FEFF.
pub open spec fn decode_result(bytes: Seq<u8>, name: Seq<char>) -> Result<Seq<char>, Seq<char>> {
    let d = decoded_with(bytes, name);
    if d.1 { Err(invalid_text_message()) } else { Ok(strip_bom_char_spec(d.0)) }
}

pub open spec fn text_result_view(r: Result<String, String>) -> Result<Seq<char>, Seq<char>> {
    match r {
        Ok(t) => Ok(t@),
        Err(e) => Err(e@),
    }
}

/// The input starts with a UTF-8 byte order mark before valid UTF-8.
pub open spec fn utf8_bom_text(b: Seq<u8>) -> bool {
    starts_with_bytes(b, seq![0xEFu8, 0xBBu8, 0xBFu8]) && vstd::utf8::valid_utf8(b.skip(3))
}

/// The input starts with a UTF-16LE byte order mark before surrogate-free
/// code units.
pub open spec fn utf16le_bom_text(b: Seq<u8>) -> bool {
    starts_with_bytes(b, seq![0xFFu8, 0xFEu8]) && simple_utf16le(b.skip(2))
}

/// Decodes with an encoding: an error when malformed sequences were met, else
/// the text without a leading U+FEFF.
fn decode_with_encoding(bytes: &[u8], encoding: &LabeledEncoding) -> (r: Result<String, String>)
    requires
        decodable_len(bytes@),
    ensures
        text_result_view(r) == decode_result(bytes@, encoding.name_view()),
        utf8_bom_text(bytes@) ==> text_result_view(r) == Ok::<Seq<char>, Seq<char>>(strip_bom_char_spec(vstd::utf8::decode_utf8(bytes@.skip(3)))),
        utf16le_bom_text(bytes@) ==> text_result_view(r) == Ok::<Seq<char>, Seq<char>>(strip_bom_char_spec(utf16le_text(bytes@.skip(2)))),
{
    let (text, had_errors) = decode_raw(bytes, encoding);
    if had_errors {
        return Err("invalid text data for detected encoding".to_string());
    }
    let t = strip_bom_char(text);
    Ok(t)
}

pub open spec fn starts_with_bytes(b: Seq<u8>, p: Seq<u8>) -> bool {
    p.len() <= b.len() && b.take(p.len() as int) == p
}

/// The input starts with a UTF-32 byte order mark.
pub open spec fn has_utf32_bom(b: Seq<u8>) -> bool {
    starts_with_bytes(b, seq![0x00u8, 0x00u8, 0xFEu8, 0xFFu8]) || starts_with_bytes(b, seq![0xFFu8, 0xFEu8, 0x00u8, 0x00u8])
}

/// The encoding of the input's byte order mark, if it has one.
pub open spec fn bom_encoding(b: Seq<u8>) -> Option<EncodingView> {
    if starts_with_bytes(b, seq![0xEFu8, 0xBBu8, 0xBFu8]) {
        Some(EncodingView::Utf8)
    } else if starts_with_bytes(b, seq![0xFFu8, 0xFEu8]) {
        Some(EncodingView::Utf16Le)
    } else if starts_with_bytes(b, seq![0xFEu8, 0xFFu8]) {
        Some(EncodingView::Utf16Be)
    } else {
        None
    }
}

fn starts_with_exec(b: &[u8], p: &[u8]) -> (r: bool)
    ensures
        r == starts_with_bytes(b@, p@),
{
    if p.len() > b.len() {
        return false;
    }
    let mut i: usize = 0;
    while i < p.len()
        invariant
            i <= p.len() <= b.len(),
            forall|k: int| 0 <= k < i ==> b@[k] == p@[k],
        decreases p.len() - i,
    {
        if b[i] != p[i] {
            assert(b@.take(p.len() as int)[i as int] != p@[i as int]);
            return false;
        }
        i = i + 1;
    }
    assert(b@.take(p.len() as int) =~= p@);
    true
}

/// Decoding by the byte order mark's encoding: its text and encoding.
pub open spec fn with_encoding(res: Result<Seq<char>, Seq<char>>, v: EncodingView) -> Result<(Seq<char>, EncodingView), Seq<char>> {
    match res {
        Ok(t) => Ok((t, v)),
        Err(e) => Err(e),
    }
}

pub open spec fn bom_decoded(bytes: Seq<u8>, v: EncodingView) -> Result<(Seq<char>, EncodingView), Seq<char>> {
    with_encoding(decode_result(bytes, fixed_label_name(encoding_label(v))), v)
}

pub open spec fn decoded_view(r: Result<DecodedText, String>) -> Result<(Seq<char>, EncodingView), Seq<char>> {
    match r {
        Ok(d) => Ok((d.text@, d.encoding@)),
        Err(e) => Err(e@),
    }
}

/// The input decoded by its byte order mark: `Ok(None)` without one, an
/// error for UTF-32 or malformed text.
fn decode_bom_prefixed(bytes: &[u8]) -> (r: Result<Option<DecodedText>, String>)
    requires
        decodable_len(bytes@),
    ensures
        has_utf32_bom(bytes@) ==> (r matches Err(e) && e@ == utf32_message()),
        !has_utf32_bom(bytes@) ==> match bom_encoding(bytes@) {
            None => r matches Ok(None),
            Some(v) => match r {
                Ok(Some(d)) => bom_decoded(bytes@, v) == Ok::<(Seq<char>, EncodingView), Seq<char>>((d.text@, d.encoding@)),
                Err(e) => bom_decoded(bytes@, v) == Err::<(Seq<char>, EncodingView), Seq<char>>(e@),
                Ok(None) => false,
            },
        },
        !has_utf32_bom(bytes@) && utf8_bom_text(bytes@) ==> (r matches Ok(Some(d))
            && d.text@ == strip_bom_char_spec(vstd::utf8::decode_utf8(bytes@.skip(3))) && d.encoding@ == EncodingView::Utf8),
        !has_utf32_bom(bytes@) && utf16le_bom_text(bytes@) ==> (r matches Ok(Some(d))
            && d.text@ == strip_bom_char_spec(utf16le_text(bytes@.skip(2))) && d.encoding@ == EncodingView::Utf16Le),
{
    if starts_with_exec(bytes, &[0x00u8, 0x00u8, 0xFEu8, 0xFFu8]) || starts_with_exec(bytes, &[0xFFu8, 0xFEu8, 0x00u8, 0x00u8]) {
        return Err("UTF-32 is not supported".to_string());
    }
    let actual = if starts_with_exec(bytes, &[0xEFu8, 0xBBu8, 0xBFu8]) {
        FileEncoding::Utf8
    } else if starts_with_exec(bytes, &[0xFFu8, 0xFEu8]) {
        FileEncoding::Utf16Le
    } else if starts_with_exec(bytes, &[0xFEu8, 0xFFu8]) {
        FileEncoding::Utf16Be
    } else {
        return Ok(None);
    };
    let encoding = match actual.encoding() {
        Some(e) => e,
        None => return Ok(None),
    };
    match decode_with_encoding(bytes, &encoding) {
        Ok(text) => Ok(Some(DecodedText { text, encoding: actual })),
        Err(e) => Err(e),
    }
}

/// The input without a leading UTF-8 byte order mark.
pub open spec fn without_utf8_bom(b: Seq<u8>) -> Seq<u8> {
    if starts_with_bytes(b, seq![0xEFu8, 0xBBu8, 0xBFu8]) { b.skip(3) } else { b }
}

/// The input as UTF-8 (after an optional byte order mark), when it is valid.
fn decode_utf8(bytes: &[u8]) -> (r: Option<String>)
    ensures
        match r {
            Some(s) => vstd::utf8::encode_utf8(s@) == without_utf8_bom(bytes@),
            None => !vstd::utf8::valid_utf8(without_utf8_bom(bytes@)),
        },
{
    let start: usize = if starts_with_exec(bytes, &[0xEFu8, 0xBBu8, 0xBFu8]) { 3 } else { 0 };
    let mut v: Vec<u8> = Vec::new();
    let mut i: usize = start;
    while i < bytes.len()
        invariant
            start <= i <= bytes.len(),
            start <= bytes.len(),
            v@ == bytes@.subrange(start as int, i as int),
        decreases bytes.len() - i,
    {
        v.push(bytes[i]);
        assert(v@ =~= bytes@.subrange(start as int, i + 1));
        i = i + 1;
    }
    assert(v@ =~= without_utf8_bom(bytes@));
    crate::text::string_from_utf8(v)
}

/// The encoding a UTF-16 guess stands for.
pub open spec fn utf16_view(o: Utf16Order) -> EncodingView {
    if o == Utf16Order::Le { EncodingView::Utf16Le } else { EncodingView::Utf16Be }
}

/// Automatic detection: empty input is empty UTF-8 text; then the byte
/// order mark; then UTF-8; then UTF-16 without a byte order mark; then
/// chardetng's guess.
pub open spec fn auto_decoded(b: Seq<u8>) -> Result<(Seq<char>, EncodingView), Seq<char>> {
    if b.len() == 0 {
        Ok((Seq::empty(), EncodingView::Utf8))
    } else if has_utf32_bom(b) {
        Err(utf32_message())
    } else {
        match bom_encoding(b) {
            Some(v) => bom_decoded(b, v),
            None => if vstd::utf8::valid_utf8(b) {
                Ok((vstd::utf8::decode_utf8(b), EncodingView::Utf8))
            } else {
                match utf16_guess_spec(b) {
                    Some(o) => bom_decoded(b, utf16_view(o)),
                    None => with_encoding(decode_result(b, chardet_guess_name(b)), encoding_for_name_spec(chardet_guess_name(b))),
                }
            },
        }
    }
}

fn decode_auto(bytes: &[u8]) -> (r: Result<DecodedText, String>)
    requires
        decodable_len(bytes@),
    ensures
        decoded_view(r) == auto_decoded(bytes@),
        bytes@.len() > 0 && !has_utf32_bom(bytes@) && utf8_bom_text(bytes@) ==> (r matches Ok(d)
            && d.text@ == strip_bom_char_spec(vstd::utf8::decode_utf8(bytes@.skip(3))) && d.encoding@ == EncodingView::Utf8),
        bytes@.len() > 0 && !has_utf32_bom(bytes@) && utf16le_bom_text(bytes@) ==> (r matches Ok(d)
            && d.text@ == strip_bom_char_spec(utf16le_text(bytes@.skip(2))) && d.encoding@ == EncodingView::Utf16Le),
{
    if bytes.len() == 0 {
        return Ok(DecodedText { text: String::new(), encoding: FileEncoding::Utf8 });
    }
    match decode_bom_prefixed(bytes) {
        Err(e) => return Err(e),
        Ok(Some(d)) => return Ok(d),
        Ok(None) => {},
    }
    match decode_utf8(bytes) {
        Some(text) => {
            proof {
                vstd::utf8::encode_utf8_valid_utf8(text@);
                vstd::utf8::encode_utf8_decode_utf8(text@);
                assert(without_utf8_bom(bytes@) == bytes@);
            }
            return Ok(DecodedText { text, encoding: FileEncoding::Utf8 });
        },
        None => {},
    }
    match guess_utf16_without_bom(bytes) {
        Some(order) => {
            let actual = match order {
                Utf16Order::Le => FileEncoding::Utf16Le,
                Utf16Order::Be => FileEncoding::Utf16Be,
            };
            let encoding = match actual.encoding() {
                Some(e) => e,
                None => return Err("invalid text data for detected encoding".to_string()),
            };
            return match decode_with_encoding(bytes, &encoding) {
                Ok(text) => Ok(DecodedText { text, encoding: actual }),
                Err(e) => Err(e),
            };
        },
        None => {},
    }
    let encoding = chardetng_guess(bytes);
    let text = match decode_with_encoding(bytes, &encoding) {
        Ok(t) => t,
        Err(e) => return Err(e),
    };
    Ok(DecodedText { text, encoding: file_encoding_for_name(encoding.name_str()) })
}

/// Decodes as the given encoding (an error when encoding_rs has no such label).
pub fn decode_bytes_as(bytes: &[u8], encoding: &FileEncoding) -> (r: Result<String, String>)
    requires
        decodable_len(bytes@),
    ensures
        match encoding_rs_name(encoding@) {
            None => r matches Err(e) && e@ == unknown_label_message(),
            Some(n) => text_result_view(r) == decode_result(bytes@, n),
        },
        r matches Err(e) ==> e@ == invalid_text_message() || (encoding@ is Detected && e@ == unknown_label_message()),
{
    let resolved = match encoding.encoding() {
        Some(e) => e,
        None => return Err("unknown encoding label".to_string()),
    };
    decode_with_encoding(bytes, &resolved)
}

/// Decoding as a manual preference.
pub open spec fn manual_decoded(b: Seq<u8>, p: FileEncodingPreference) -> Result<(Seq<char>, EncodingView), Seq<char>> {
    match preference_encoding(p) {
        None => Err(manual_required_message()),
        Some(v) => match encoding_rs_name(v) {
            None => Err(unknown_label_message()),
            Some(n) => with_encoding(decode_result(b, n), v),
        },
    }
}

fn decode_manual(bytes: &[u8], preference: FileEncodingPreference) -> (r: Result<DecodedText, String>)
    requires
        decodable_len(bytes@),
    ensures
        decoded_view(r) == manual_decoded(bytes@, preference),
        preference == FileEncodingPreference::Auto ==> (r matches Err(e) && e@ == manual_required_message()),
        r matches Ok(d) ==> preference_encoding(preference) == Some(d.encoding@),
{
    let encoding = match preference.to_file_encoding() {
        Some(e) => e,
        None => return Err("manual encoding required".to_string()),
    };
    let text = match decode_bytes_as(bytes, &encoding) {
        Ok(t) => t,
        Err(e) => return Err(e),
    };
    Ok(DecodedText { text, encoding })
}

/// A file's decoding: as the preference says, refused when the text looks
/// binary.
pub open spec fn text_decoded(b: Seq<u8>, p: FileEncodingPreference) -> Result<(Seq<char>, EncodingView), Seq<char>> {
    let d = if p == FileEncodingPreference::Auto { auto_decoded(b) } else { manual_decoded(b, p) };
    match d {
        Err(e) => Err(e),
        Ok((t, v)) => if binary_text_spec(t) { Err(binary_message()) } else { Ok((t, v)) },
    }
}

/// A file's bytes decoded as the preference says, refused when the text
/// looks binary.
pub fn decode_text_bytes(bytes: &[u8], preference: FileEncodingPreference) -> (r: Result<DecodedText, String>)
    requires
        decodable_len(bytes@),
    ensures
        decoded_view(r) == text_decoded(bytes@, preference),
        preference == FileEncodingPreference::Auto && bytes@.len() > 0 && !has_utf32_bom(bytes@) && utf8_bom_text(bytes@)
            && !binary_text_spec(strip_bom_char_spec(vstd::utf8::decode_utf8(bytes@.skip(3))))
            ==> (r matches Ok(d) && d.text@ == strip_bom_char_spec(vstd::utf8::decode_utf8(bytes@.skip(3))) && d.encoding@ == EncodingView::Utf8),
        preference == FileEncodingPreference::Auto && bytes@.len() > 0 && !has_utf32_bom(bytes@) && utf16le_bom_text(bytes@)
            && !binary_text_spec(strip_bom_char_spec(utf16le_text(bytes@.skip(2))))
            ==> (r matches Ok(d) && d.text@ == strip_bom_char_spec(utf16le_text(bytes@.skip(2))) && d.encoding@ == EncodingView::Utf16Le),
        r matches Ok(d) ==> !binary_text_spec(d.text@),
        r matches Err(e) ==> e@ == binary_message() || e@ == utf32_message() || e@ == invalid_text_message()
            || e@ == unknown_label_message(),
        preference != FileEncodingPreference::Auto ==> (r matches Ok(d) ==> preference_encoding(preference) == Some(d.encoding@)),
        preference == FileEncodingPreference::Auto && bytes@.len() == 0
            ==> (r matches Ok(d) && d.text@.len() == 0 && d.encoding@ == EncodingView::Utf8),
        preference == FileEncodingPreference::Auto && bytes@.len() > 0 && has_utf32_bom(bytes@)
            ==> (r matches Err(e) && e@ == utf32_message()),
        preference == FileEncodingPreference::Auto && bytes@.len() > 0 && !has_utf32_bom(bytes@) && bom_encoding(bytes@) is Some
            ==> (r matches Ok(d) ==> bom_encoding(bytes@) == Some(d.encoding@)),
        preference == FileEncodingPreference::Auto && bytes@.len() > 0 && !has_utf32_bom(bytes@) && bom_encoding(bytes@) is None
            && vstd::utf8::valid_utf8(bytes@) ==> match r {
                Ok(d) => d.encoding@ == EncodingView::Utf8 && vstd::utf8::encode_utf8(d.text@) == bytes@,
                Err(e) => binary_text_spec(vstd::utf8::decode_utf8(bytes@)) && e@ == binary_message(),
            },
{
    let decoded = match preference {
        FileEncodingPreference::Auto => decode_auto(bytes),
        _ => decode_manual(bytes, preference),
    };
    let decoded = match decoded {
        Ok(d) => d,
        Err(e) => return Err(e),
    };
    if is_probably_binary_text(decoded.text.as_str()) {
        proof {
            vstd::utf8::encode_utf8_decode_utf8(decoded.text@);
        }
        return Err("binary file".to_string());
    }
    proof {
        if vstd::utf8::valid_utf8(bytes@) {
            vstd::utf8::decode_utf8_encode_utf8(bytes@);
        }
    }
    Ok(decoded)
}

} // verus!
