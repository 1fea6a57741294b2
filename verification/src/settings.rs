//! The settings window's model: language tables, the OCR language
//! selection, and the reading of Tesseract's language listing.
use vstd::prelude::*;
use crate::config::AppConfig;
use crate::text::{
    chars_of, contains_str, contains_sub, join_char, join_with, split_char, split_on, trim, trim_str,
    views, is_ascii_lower,
};

verus! {

/// Character views of a table of `(display name, API code)` pairs.
pub open spec fn table_view(t: Seq<(&str, &str)>) -> Seq<(Seq<char>, Seq<char>)> {
    t.map_values(|p: (&str, &str)| (p.0@, p.1@))
}

/// Common translation target languages (display name, API code).
pub open spec fn target_lang_table() -> Seq<(Seq<char>, Seq<char>)> {
    seq![
        ("English"@, "en"@),
        ("Vietnamese"@, "vi"@),
        ("Japanese"@, "ja"@),
        ("Chinese (Simplified)"@, "zh"@),
        ("Korean"@, "ko"@),
        ("French"@, "fr"@),
        ("German"@, "de"@),
        ("Spanish"@, "es"@),
        ("Portuguese"@, "pt"@),
        ("Russian"@, "ru"@),
        ("Thai"@, "th"@),
        ("Indonesian"@, "id"@),
        ("Italian"@, "it"@),
        ("Dutch"@, "nl"@),
        ("Arabic"@, "ar"@),
    ]
}

/// Common source languages (display name, API code).
pub open spec fn source_lang_table() -> Seq<(Seq<char>, Seq<char>)> {
    seq![
        ("Japanese"@, "ja"@),
        ("English"@, "en"@),
        ("Chinese (Simplified)"@, "zh"@),
        ("Korean"@, "ko"@),
        ("Vietnamese"@, "vi"@),
        ("French"@, "fr"@),
        ("German"@, "de"@),
        ("Spanish"@, "es"@),
        ("Portuguese"@, "pt"@),
        ("Russian"@, "ru"@),
        ("Auto-detect"@, "auto"@),
    ]
}

/// The translation target languages offered in the settings.
pub fn target_langs() -> (r: Vec<(&'static str, &'static str)>)
    ensures
        table_view(r@) == target_lang_table(),
{
    let r = vec![
        ("English", "en"),
        ("Vietnamese", "vi"),
        ("Japanese", "ja"),
        ("Chinese (Simplified)", "zh"),
        ("Korean", "ko"),
        ("French", "fr"),
        ("German", "de"),
        ("Spanish", "es"),
        ("Portuguese", "pt"),
        ("Russian", "ru"),
        ("Thai", "th"),
        ("Indonesian", "id"),
        ("Italian", "it"),
        ("Dutch", "nl"),
        ("Arabic", "ar"),
    ];
    assert(table_view(r@) =~= target_lang_table());
    r
}

/// The source languages offered in the settings.
pub fn source_langs() -> (r: Vec<(&'static str, &'static str)>)
    ensures
        table_view(r@) == source_lang_table(),
{
    let r = vec![
        ("Japanese", "ja"),
        ("English", "en"),
        ("Chinese (Simplified)", "zh"),
        ("Korean", "ko"),
        ("Vietnamese", "vi"),
        ("French", "fr"),
        ("German", "de"),
        ("Spanish", "es"),
        ("Portuguese", "pt"),
        ("Russian", "ru"),
        ("Auto-detect", "auto"),
    ];
    assert(table_view(r@) =~= source_lang_table());
    r
}

/// The display name of `code`: the name of its first entry in `table`, or
/// the code itself when the table does not list it.
pub open spec fn display_name(table: Seq<(Seq<char>, Seq<char>)>, code: Seq<char>) -> Seq<char>
    decreases table.len(),
{
    if table.len() == 0 {
        code
    } else if table[0].1 == code {
        table[0].0
    } else {
        display_name(table.drop_first(), code)
    }
}

/// Equality of two string slices by their characters.
pub fn str_eq(a: &str, b: &str) -> (r: bool)
    ensures
        r == (a@ == b@),
{
    let ac = chars_of(a);
    let bc = chars_of(b);
    if ac.len() != bc.len() {
        return false;
    }
    let mut i: usize = 0;
    while i < ac.len()
        invariant
            ac@ == a@,
            bc@ == b@,
            ac.len() == bc.len(),
            i <= ac.len(),
            forall|k: int| 0 <= k < i ==> ac@[k] == bc@[k],
        decreases ac.len() - i,
    {
        if ac[i] != bc[i] {
            return false;
        }
        i += 1;
    }
    assert(a@ =~= b@);
    true
}

fn lookup_name(table: &Vec<(&'static str, &'static str)>, code: &str) -> (r: String)
    ensures
        r@ == display_name(table_view(table@), code@),
{
    let mut i: usize = 0;
    assert(table_view(table@).skip(0) == table_view(table@));
    while i < table.len()
        invariant
            i <= table.len(),
            display_name(table_view(table@), code@) == display_name(
                table_view(table@).skip(i as int),
                code@,
            ),
        decreases table.len() - i,
    {
        let ghost rest = table_view(table@).skip(i as int);
        assert(rest[0] == (table@[i as int].0@, table@[i as int].1@));
        assert(rest.drop_first() == table_view(table@).skip(i + 1));
        if str_eq(table[i].1, code) {
            return String::from_str(table[i].0);
        }
        i += 1;
    }
    assert(table_view(table@).skip(table@.len() as int).len() == 0);
    String::from_str(code)
}

/// What the source language selector shows for `code`.
pub fn source_lang_label(code: &str) -> (r: String)
    ensures
        r@ == display_name(source_lang_table(), code@),
{
    let t = source_langs();
    lookup_name(&t, code)
}

/// What the target language selector shows for `code`.
pub fn target_lang_label(code: &str) -> (r: String)
    ensures
        r@ == display_name(target_lang_table(), code@),
{
    let t = target_langs();
    lookup_name(&t, code)
}

/// A language code as the tables write them: one to four lower-case
/// ASCII letters.
pub open spec fn is_lang_code(code: Seq<char>) -> bool {
    1 <= code.len() <= 4 && forall|i: int| 0 <= i < code.len() ==> is_ascii_lower(#[trigger] code[i])
}

/// Executable `is_lang_code`.
pub fn check_lang_code(code: &str) -> (r: bool)
    ensures
        r == is_lang_code(code@),
{
    let cs = chars_of(code);
    if cs.len() < 1 || cs.len() > 4 {
        return false;
    }
    let mut i: usize = 0;
    while i < cs.len()
        invariant
            cs@ == code@,
            i <= cs.len(),
            forall|k: int| 0 <= k < i ==> is_ascii_lower(#[trigger] code@[k]),
        decreases cs.len() - i,
    {
        if !('a' <= cs[i] && cs[i] <= 'z') {
            return false;
        }
        i += 1;
    }
    true
}

/// Every language code in the tables is one to four lower-case letters.
pub proof fn lemma_table_codes_valid()
    ensures
        forall|i: int| 0 <= i < target_lang_table().len() ==> is_lang_code(#[trigger] target_lang_table()[i].1),
        forall|i: int| 0 <= i < source_lang_table().len() ==> is_lang_code(#[trigger] source_lang_table()[i].1),
{
    reveal_strlit("ar");
    reveal_strlit("auto");
    reveal_strlit("de");
    reveal_strlit("en");
    reveal_strlit("es");
    reveal_strlit("fr");
    reveal_strlit("id");
    reveal_strlit("it");
    reveal_strlit("ja");
    reveal_strlit("ko");
    reveal_strlit("nl");
    reveal_strlit("pt");
    reveal_strlit("ru");
    reveal_strlit("th");
    reveal_strlit("vi");
    reveal_strlit("zh");
    assert forall|i: int| 0 <= i < target_lang_table().len() implies is_lang_code(#[trigger] target_lang_table()[i].1) by {
    }
    assert forall|i: int| 0 <= i < source_lang_table().len() implies is_lang_code(#[trigger] source_lang_table()[i].1) by {
    }
}

/// Separator of the languages in an OCR language setting (`"jpn+eng"`).
pub const OCR_LANG_SEPARATOR: char = '+';

/// The languages of an OCR language setting, in order.
pub fn split_lang_list(ocr_lang: &str) -> (r: Vec<String>)
    ensures
        views(r@) == split_on(ocr_lang@, '+'),
{
    split_char(ocr_lang, OCR_LANG_SEPARATOR)
}

/// The OCR language setting for the given languages.
pub fn join_lang_list(langs: &Vec<String>) -> (r: String)
    ensures
        r@ == join_with(views(langs@), '+'),
{
    join_char(langs, OCR_LANG_SEPARATOR)
}

/// Whether `s` is among `v`.
fn contains_string(v: &Vec<String>, s: &String) -> (r: bool)
    ensures
        r == views(v@).contains(s@),
{
    let mut i: usize = 0;
    while i < v.len()
        invariant
            i <= v.len(),
            forall|k: int| 0 <= k < i ==> v@[k]@ != s@,
        decreases v.len() - i,
    {
        if v[i] == *s {
            assert(views(v@)[i as int] == s@);
            return true;
        }
        i += 1;
    }
    proof {
        if views(v@).contains(s@) {
            let k = choose|k: int| 0 <= k < views(v@).len() && views(v@)[k] == s@;
            assert(v@[k]@ == s@);
        }
    }
    false
}

/// The available languages whose box is ticked (pairs beyond the shorter
/// list are ignored), in order.
pub open spec fn ticked(avail: Seq<Seq<char>>, sel: Seq<bool>) -> Seq<Seq<char>>
    decreases avail.len(),
{
    if avail.len() == 0 || sel.len() == 0 {
        Seq::empty()
    } else {
        let rest = ticked(avail.drop_first(), sel.drop_first());
        if sel[0] {
            seq![avail[0]] + rest
        } else {
            rest
        }
    }
}

/// A language is ticked exactly when it is available at some index whose
/// box is ticked.
proof fn lemma_ticked_contains(avail: Seq<Seq<char>>, sel: Seq<bool>, x: Seq<char>)
    requires
        avail.len() == sel.len(),
    ensures
        ticked(avail, sel).contains(x) <==> exists|i: int|
            0 <= i < avail.len() && sel[i] && #[trigger] avail[i] == x,
    decreases avail.len(),
{
    if avail.len() > 0 {
        let a = avail.drop_first();
        let s = sel.drop_first();
        lemma_ticked_contains(a, s, x);
        let rest = ticked(a, s);
        if sel[0] {
            assert(ticked(avail, sel) == seq![avail[0]] + rest);
            assert((seq![avail[0]] + rest)[0] == avail[0]);
            assert forall|k: int| 0 <= k < rest.len() implies (seq![avail[0]] + rest)[k + 1]
                == rest[k] by {}
        }
        if exists|i: int| 0 <= i < avail.len() && sel[i] && #[trigger] avail[i] == x {
            let i = choose|i: int| 0 <= i < avail.len() && sel[i] && #[trigger] avail[i] == x;
            if i > 0 {
                assert(a[i - 1] == avail[i] && s[i - 1] == sel[i]);
            }
        }
        if exists|j: int| 0 <= j < a.len() && s[j] && #[trigger] a[j] == x {
            let j = choose|j: int| 0 <= j < a.len() && s[j] && #[trigger] a[j] == x;
            assert(avail[j + 1] == a[j] && sel[j + 1] == s[j]);
        }
        if ticked(avail, sel).contains(x) && !(sel[0] && avail[0] == x) {
            if sel[0] {
                let k = choose|k: int| 0 <= k < ticked(avail, sel).len() && ticked(avail, sel)[k] == x;
                assert(k > 0);
                assert(rest[k - 1] == x);
            }
            assert(rest.contains(x));
        }
    }
}

/// Joining non-empty parts gives an empty text exactly when there are none.
proof fn lemma_join_empty(parts: Seq<Seq<char>>, sep: char)
    requires
        forall|i: int| 0 <= i < parts.len() ==> (#[trigger] parts[i]).len() > 0,
    ensures
        (join_with(parts, sep).len() == 0) == (parts.len() == 0),
{
    if parts.len() >= 2 {
        assert(parts.last() == parts[parts.len() - 1]);
        assert((join_with(parts.drop_last(), sep) + seq![sep] + parts.last()).len() > 0);
    } else if parts.len() == 1 {
        assert(parts[0].len() > 0);
    }
}

/// The OCR setting round-trips through the settings window. Given
/// available languages that are distinct, non-empty and free of `+`, and a
/// box per language, the setting built from the ticked boxes
/// (`build_ocr_lang_string`) is empty exactly when nothing is ticked;
/// otherwise splitting it at `+` gives back the ticked languages in order;
/// and an available language is listed in it exactly when its box is
/// ticked, so that opening the settings on it (`SettingsApp::new`) ticks
/// the same boxes again.
pub proof fn lemma_ocr_lang_round_trip(avail: Seq<Seq<char>>, sel: Seq<bool>)
    requires
        avail.len() == sel.len(),
        forall|i: int| 0 <= i < avail.len() ==> (#[trigger] avail[i]).len() > 0 && !avail[i].contains('+'),
        forall|i: int, j: int| 0 <= i < avail.len() && 0 <= j < avail.len() && i != j ==> avail[i] != avail[j],
    ensures
        (join_with(ticked(avail, sel), '+').len() == 0) == (forall|i: int| 0 <= i < sel.len() ==> !sel[i]),
        ticked(avail, sel).len() > 0 ==> split_on(join_with(ticked(avail, sel), '+'), '+') == ticked(avail, sel),
        forall|i: int|
            0 <= i < avail.len() ==> split_on(join_with(ticked(avail, sel), '+'), '+').contains(
                #[trigger] avail[i],
            ) == sel[i],
{
    let t = ticked(avail, sel);
    let s = join_with(t, '+');
    assert forall|k: int| 0 <= k < t.len() implies (#[trigger] t[k]).len() > 0 && !t[k].contains('+') by {
        lemma_ticked_contains(avail, sel, t[k]);
        assert(t.contains(t[k]));
        let i = choose|i: int| 0 <= i < avail.len() && sel[i] && #[trigger] avail[i] == t[k];
        assert(avail[i] == t[k]);
    }
    lemma_join_empty(t, '+');
    assert forall|i: int| 0 <= i < avail.len() implies (t.contains(#[trigger] avail[i]) == sel[i]) by {
        lemma_ticked_contains(avail, sel, avail[i]);
        if t.contains(avail[i]) {
            let j = choose|j: int| 0 <= j < avail.len() && sel[j] && #[trigger] avail[j] == avail[i];
            assert(j == i);
        }
    }
    if t.len() > 0 {
        crate::text::lemma_split_join(t, '+');
    } else {
        assert(s.len() == 0);
        assert(s =~= Seq::<char>::empty());
        assert(split_on(s, '+') == seq![Seq::<char>::empty()]);
        assert forall|i: int| 0 <= i < avail.len() implies !split_on(s, '+').contains(
            #[trigger] avail[i],
        ) by {
            if split_on(s, '+').contains(avail[i]) {
                let k = choose|k: int| 0 <= k < 1 && seq![Seq::<char>::empty()][k] == avail[i];
                assert(avail[i].len() == 0);
            }
        }
    }
    if forall|i: int| 0 <= i < sel.len() ==> !sel[i] {
        if t.len() > 0 {
            lemma_ticked_contains(avail, sel, t[0]);
            assert(t.contains(t[0]));
        }
    } else {
        let i = choose|i: int| !(0 <= i < sel.len() ==> !sel[i]);
        lemma_ticked_contains(avail, sel, avail[i]);
    }
}

/// The settings window's state.
#[derive(Debug)]
pub struct SettingsApp {
    pub config: AppConfig,
    pub available_ocr_langs: Vec<String>,
    pub selected_ocr_langs: Vec<bool>,
    pub saved: bool,
}

impl SettingsApp {
    /// Opens the settings on `config`; an available language is ticked
    /// exactly when the configured OCR setting lists it.
    pub fn new(config: AppConfig, available_ocr_langs: Vec<String>) -> (r: Self)
        ensures
            r.config == config,
            r.available_ocr_langs == available_ocr_langs,
            r.selected_ocr_langs@.len() == available_ocr_langs@.len(),
            forall|i: int|
                0 <= i < available_ocr_langs@.len() ==> #[trigger] r.selected_ocr_langs@[i]
                    == split_on(config.ocr_lang@, '+').contains(available_ocr_langs@[i]@),
            !r.saved,
    {
        let current = split_lang_list(config.ocr_lang.as_str());
        let mut selected: Vec<bool> = Vec::new();
        let mut i: usize = 0;
        while i < available_ocr_langs.len()
            invariant
                i <= available_ocr_langs.len(),
                views(current@) == split_on(config.ocr_lang@, '+'),
                selected@.len() == i,
                forall|k: int|
                    0 <= k < i ==> #[trigger] selected@[k] == split_on(config.ocr_lang@, '+').contains(
                        available_ocr_langs@[k]@,
                    ),
            decreases available_ocr_langs.len() - i,
        {
            let b = contains_string(&current, &available_ocr_langs[i]);
            selected.push(b);
            i += 1;
        }
        SettingsApp { config, available_ocr_langs, selected_ocr_langs: selected, saved: false }
    }

    /// The OCR language setting that the ticked boxes give: the ticked
    /// languages joined with `+`.
    pub fn build_ocr_lang_string(&self) -> (r: String)
        ensures
            r@ == join_with(ticked(views(self.available_ocr_langs@), self.selected_ocr_langs@), '+'),
    {
        let avail = &self.available_ocr_langs;
        let sel = &self.selected_ocr_langs;
        let n = if avail.len() < sel.len() { avail.len() } else { sel.len() };
        let mut picked: Vec<String> = Vec::new();
        let mut i: usize = n;
        while i > 0
            invariant
                n <= avail.len(),
                n <= sel.len(),
                n == avail.len() || n == sel.len(),
                i <= n,
                views(picked@) == ticked(
                    views(avail@).subrange(i as int, n as int),
                    sel@.subrange(i as int, n as int),
                ),
            decreases i,
        {
            let ghost a_rest = views(avail@).subrange(i as int, n as int);
            let ghost s_rest = sel@.subrange(i as int, n as int);
            i -= 1;
            let ghost a_now = views(avail@).subrange(i as int, n as int);
            let ghost s_now = sel@.subrange(i as int, n as int);
            assert(a_now.drop_first() == a_rest);
            assert(s_now.drop_first() == s_rest);
            if sel[i] {
                let mut one: Vec<String> = Vec::new();
                one.push(avail[i].clone());
                let mut k: usize = 0;
                while k < picked.len()
                    invariant
                        k <= picked.len(),
                        one@.len() == k + 1,
                        one@[0]@ == avail@[i as int]@,
                        forall|m: int| 1 <= m <= k ==> #[trigger] one@[m]@ == picked@[m - 1]@,
                    decreases picked.len() - k,
                {
                    one.push(picked[k].clone());
                    k += 1;
                }
                assert(views(one@) =~= seq![views(avail@)[i as int]] + views(picked@));
                picked = one;
            }
        }
        proof {
            let a = views(avail@);
            let s = sel@;
            if n == a.len() {
                assert(a.subrange(0, n as int) == a);
                lemma_ticked_prefix(a, s, n as int);
            } else {
                assert(s.subrange(0, n as int) == s);
                lemma_ticked_prefix_sel(a, s, n as int);
            }
        }
        join_lang_list(&picked)
    }

    /// Applies the ticked boxes to the configuration unless none is ticked
    /// (the window then shows a warning instead). Returns the new setting,
    /// if any.
    pub fn sync_ocr_lang(&mut self) -> (r: Option<String>)
        ensures
            ({
                let s = join_with(
                    ticked(views(old(self).available_ocr_langs@), old(self).selected_ocr_langs@),
                    '+',
                );
                if s.len() == 0 {
                    r is None && *final(self) == *old(self)
                } else {
                    &&& r is Some && r->Some_0@ == s
                    &&& final(self).config.ocr_lang@ == s
                    &&& final(self).available_ocr_langs == old(self).available_ocr_langs
                    &&& final(self).selected_ocr_langs == old(self).selected_ocr_langs
                    &&& final(self).saved == old(self).saved
                }
            }),
    {
        let s = self.build_ocr_lang_string();
        if s.as_str().is_empty() {
            None
        } else {
            self.config.ocr_lang = s.clone();
            Some(s)
        }
    }
}

proof fn lemma_ticked_prefix(a: Seq<Seq<char>>, s: Seq<bool>, n: int)
    requires
        n == a.len(),
        n <= s.len(),
    ensures
        ticked(a, s.subrange(0, n)) == ticked(a, s),
    decreases n,
{
    if n > 0 {
        assert(s.subrange(0, n).drop_first() == s.drop_first().subrange(0, n - 1));
        lemma_ticked_prefix(a.drop_first(), s.drop_first(), n - 1);
    }
}

proof fn lemma_ticked_prefix_sel(a: Seq<Seq<char>>, s: Seq<bool>, n: int)
    requires
        n == s.len(),
        n <= a.len(),
    ensures
        ticked(a.subrange(0, n), s) == ticked(a, s),
    decreases n,
{
    if n > 0 {
        assert(a.subrange(0, n).drop_first() == a.drop_first().subrange(0, n - 1));
        lemma_ticked_prefix_sel(a.drop_first(), s.drop_first(), n - 1);
    }
}

proof fn lemma_ticked_all(a: Seq<Seq<char>>, s: Seq<bool>)
    requires
        s.len() == a.len(),
        forall|i: int| 0 <= i < s.len() ==> #[trigger] s[i],
    ensures
        ticked(a, s) == a,
    decreases a.len(),
{
    if a.len() > 0 {
        lemma_ticked_all(a.drop_first(), s.drop_first());
        assert(seq![a[0]] + a.drop_first() == a);
    }
}

/// Opening the settings and leaving the boxes as they are keeps the OCR
/// setting, when the available languages are exactly the configured ones
/// in the configured order.
pub proof fn lemma_settings_keep_ocr_setting(ocr_lang: Seq<char>, avail: Seq<Seq<char>>, sel: Seq<bool>)
    requires
        avail == split_on(ocr_lang, '+'),
        sel.len() == avail.len(),
        forall|i: int| 0 <= i < avail.len() ==> #[trigger] sel[i] == split_on(ocr_lang, '+').contains(avail[i]),
    ensures
        join_with(ticked(avail, sel), '+') == ocr_lang,
{
    assert forall|i: int| 0 <= i < sel.len() implies #[trigger] sel[i] by {
        assert(split_on(ocr_lang, '+')[i] == avail[i]);
    }
    lemma_ticked_all(avail, sel);
    crate::text::lemma_join_split(ocr_lang, '+');
}

/// The ticked languages are the available ones whose box is ticked:
/// ticking nothing gives the empty setting, which the window refuses.
pub proof fn lemma_nothing_ticked_is_empty(avail: Seq<Seq<char>>, sel: Seq<bool>)
    requires
        forall|i: int| 0 <= i < sel.len() ==> !#[trigger] sel[i],
    ensures
        join_with(ticked(avail, sel), '+').len() == 0,
    decreases avail.len(),
{
    if avail.len() > 0 && sel.len() > 0 {
        assert forall|i: int| 0 <= i < sel.drop_first().len() implies !#[trigger] sel.drop_first()[i] by {
            assert(sel.drop_first()[i] == sel[i + 1]);
        }
        lemma_nothing_ticked_is_empty(avail.drop_first(), sel.drop_first());
    }
}

/// A code listed in a table is shown by the name of its first entry.
pub proof fn lemma_display_name_listed(table: Seq<(Seq<char>, Seq<char>)>, i: int)
    requires
        0 <= i < table.len(),
        forall|j: int| 0 <= j < i ==> (#[trigger] table[j]).1 != table[i].1,
    ensures
        display_name(table, table[i].1) == table[i].0,
    decreases i,
{
    if i > 0 {
        let t = table.drop_first();
        assert forall|j: int| 0 <= j < i - 1 implies (#[trigger] t[j]).1 != t[i - 1].1 by {
            assert(t[j] == table[j + 1]);
        }
        lemma_display_name_listed(t, i - 1);
    }
}

/// A code that a table does not list is shown as it is.
pub proof fn lemma_display_name_unlisted(table: Seq<(Seq<char>, Seq<char>)>, code: Seq<char>)
    requires
        forall|j: int| 0 <= j < table.len() ==> (#[trigger] table[j]).1 != code,
    ensures
        display_name(table, code) == code,
    decreases table.len(),
{
    if table.len() > 0 {
        let t = table.drop_first();
        assert forall|j: int| 0 <= j < t.len() implies (#[trigger] t[j]).1 != code by {
            assert(t[j] == table[j + 1]);
        }
        lemma_display_name_unlisted(t, code);
    }
}

/// The languages in Tesseract's listing `text`: every line but the first
/// (the header), trimmed, without empty lines and without lines that
/// contain `"List of"`. Lines are split at `'\n'`; a `'\r'` before it is
/// whitespace and trimmed away, as with `str::lines`.
pub open spec fn listed_langs(text: Seq<char>) -> Seq<Seq<char>> {
    keep_langs(split_on(text, '\n').drop_first())
}

/// Trimmed lines that are neither empty nor hold `"List of"`, in order.
pub open spec fn keep_langs(lines: Seq<Seq<char>>) -> Seq<Seq<char>>
    decreases lines.len(),
{
    if lines.len() == 0 {
        Seq::empty()
    } else {
        let rest = keep_langs(lines.drop_last());
        let l = trim(lines.last());
        if l.len() > 0 && !contains_sub(l, "List of"@) {
            rest.push(l)
        } else {
            rest
        }
    }
}

/// The languages offered to the user: those listed, or `["eng"]` when the
/// listing names none. The list is never empty.
pub open spec fn langs_or_english(listed: Seq<Seq<char>>) -> Seq<Seq<char>> {
    if listed.len() == 0 {
        seq!["eng"@]
    } else {
        listed
    }
}

/// The languages that an installed Tesseract offers, from what
/// `tesseract --list-langs` wrote to stderr and stdout. When the program
/// could not be run (`None`), or its listing names no language, the
/// result is `["eng"]`.
pub fn tesseract_langs_from_output(output: Option<(String, String)>) -> (r: Vec<String>)
    ensures
        match output {
            Some((err, out)) => views(r@) == langs_or_english(listed_langs(err@ + out@)),
            None => views(r@) == seq!["eng"@],
        },
{
    match output {
        None => english_only(),
        Some((err, out)) => {
            let mut text = err;
            text.append(out.as_str());
            let lines = split_char(text.as_str(), '\n');
            let ghost all = views(lines@);
            let mut r: Vec<String> = Vec::new();
            if lines.len() == 0 {
                proof {
                    crate::text::lemma_split_nonempty(text@, '\n');
                }
            }
            let mut i: usize = 1;
            while i < lines.len()
                invariant
                    1 <= i <= lines.len(),
                    all == views(lines@),
                    all == split_on(text@, '\n'),
                    views(r@) == keep_langs(all.subrange(1, i as int)),
                decreases lines.len() - i,
            {
                let l = trim_str(lines[i].as_str());
                let ghost sub = all.subrange(1, i + 1);
                assert(sub.drop_last() == all.subrange(1, i as int));
                assert(sub.last() == lines@[i as int]@);
                if !l.as_str().is_empty() && !contains_str(l.as_str(), "List of") {
                    r.push(l);
                    assert(views(r@) =~= keep_langs(all.subrange(1, i as int)).push(trim(lines@[i as int]@)));
                }
                i += 1;
            }
            assert(all.subrange(1, lines.len() as int) == all.drop_first());
            if r.len() == 0 {
                english_only()
            } else {
                r
            }
        },
    }
}

/// The one-language list `["eng"]`.
fn english_only() -> (r: Vec<String>)
    ensures
        views(r@) == seq!["eng"@],
{
    let mut r: Vec<String> = Vec::new();
    r.push(String::from_str("eng"));
    assert(views(r@) =~= seq!["eng"@]);
    r
}

/// Whatever Tesseract prints, the languages offered are never an empty
/// list, and none of them is empty or holds the listing's header text.
pub proof fn lemma_offered_langs_clean(text: Seq<char>)
    ensures
        langs_or_english(listed_langs(text)).len() > 0,
        forall|i: int|
            0 <= i < langs_or_english(listed_langs(text)).len() ==> (#[trigger] langs_or_english(
                listed_langs(text),
            )[i]).len() > 0 && !contains_sub(langs_or_english(listed_langs(text))[i], "List of"@),
{
    lemma_listed_langs_clean(text);
    reveal_strlit("eng");
    reveal_strlit("List of");
    let e = "eng"@;
    assert(e.len() == 3);
    assert(!contains_sub(e, "List of"@));
}

/// No language read from a listing is empty or holds the header text.
pub proof fn lemma_listed_langs_clean(text: Seq<char>)
    ensures
        forall|i: int|
            0 <= i < listed_langs(text).len() ==> (#[trigger] listed_langs(text)[i]).len() > 0
                && !contains_sub(listed_langs(text)[i], "List of"@),
{
    lemma_keep_langs_clean(split_on(text, '\n').drop_first());
}

proof fn lemma_keep_langs_clean(lines: Seq<Seq<char>>)
    ensures
        forall|i: int|
            0 <= i < keep_langs(lines).len() ==> (#[trigger] keep_langs(lines)[i]).len() > 0
                && !contains_sub(keep_langs(lines)[i], "List of"@),
    decreases lines.len(),
{
    if lines.len() > 0 {
        lemma_keep_langs_clean(lines.drop_last());
        let rest = keep_langs(lines.drop_last());
        let l = trim(lines.last());
        if l.len() > 0 && !contains_sub(l, "List of"@) {
            assert forall|i: int| 0 <= i < rest.len() implies rest.push(l)[i] == rest[i] by {}
            assert(rest.push(l)[rest.len() as int] == l);
        }
    }
}

} // verus!
