//! Application settings: the configuration record, its defaults and the
//! location of the configuration file.
use vstd::prelude::*;
use crate::text::string_push;

verus! {

/// One-shot translation of a selection, or live monitoring of it.
#[derive(Debug, Clone, Copy, PartialEq, Eq, Structural)]
pub enum TranslationMode {
    Oneshot,
    Live,
}

impl Default for TranslationMode {
    fn default() -> (r: Self)
        ensures
            r == TranslationMode::Oneshot,
    {
        TranslationMode::Oneshot
    }
}

impl TranslationMode {
    /// The other mode.
    pub open spec fn toggled_spec(self) -> Self {
        match self {
            TranslationMode::Oneshot => TranslationMode::Live,
            TranslationMode::Live => TranslationMode::Oneshot,
        }
    }

    /// The other mode (the tray's "Toggle Live Mode").
    pub fn toggled(self) -> (r: Self)
        ensures
            r == self.toggled_spec(),
    {
        match self {
            TranslationMode::Oneshot => TranslationMode::Live,
            TranslationMode::Live => TranslationMode::Oneshot,
        }
    }
}

/// Toggling the mode twice gives back the mode it started from, and a
/// toggle always changes the mode.
pub proof fn lemma_toggle_involutive(m: TranslationMode)
    ensures
        m.toggled_spec().toggled_spec() == m,
        m.toggled_spec() != m,
{
}

/// The translation service that is asked.
#[derive(Debug, Clone, Copy, PartialEq, Eq, Structural)]
pub enum ApiBackend {
    Deepl,
    LibreTranslate,
    Openai,
}

impl Default for ApiBackend {
    fn default() -> (r: Self)
        ensures
            r == ApiBackend::Deepl,
    {
        ApiBackend::Deepl
    }
}

/// The settings of the application, as stored in its configuration file.
#[derive(Debug, Clone)]
pub struct AppConfig {
    pub hotkey: String,
    pub source_lang: String,
    pub target_lang: String,
    pub api_backend: ApiBackend,
    pub api_key: String,
    pub api_url: String,
    pub mode: TranslationMode,
    pub live_interval_ms: u64,
    pub ocr_lang: String,
    pub settle_time_ms: u64,
}

/// Default capture shortcut.
pub fn default_hotkey() -> (r: String)
    ensures
        r@ == "Super+Shift+S"@,
{
    String::from_str("Super+Shift+S")
}

/// Default language of the captured text.
pub fn default_source_lang() -> (r: String)
    ensures
        r@ == "ja"@,
{
    String::from_str("ja")
}

/// Default language of the translation.
pub fn default_target_lang() -> (r: String)
    ensures
        r@ == "en"@,
{
    String::from_str("en")
}

/// Default refresh interval of live mode, in milliseconds.
pub fn default_live_interval_ms() -> (r: u64)
    ensures
        r == 1000,
{
    1000
}

/// Default Tesseract language list.
pub fn default_ocr_lang() -> (r: String)
    ensures
        r@ == "jpn+eng"@,
{
    String::from_str("jpn+eng")
}

/// Default settle time, in milliseconds.
pub fn default_settle_time_ms() -> (r: u64)
    ensures
        r == 1500,
{
    1500
}

impl AppConfig {
    /// The configuration that a missing file stands for.
    pub open spec fn is_default(self) -> bool {
        &&& self.hotkey@ == "Super+Shift+S"@
        &&& self.source_lang@ == "ja"@
        &&& self.target_lang@ == "en"@
        &&& self.api_backend == ApiBackend::Deepl
        &&& self.api_key@ == Seq::<char>::empty()
        &&& self.api_url@ == Seq::<char>::empty()
        &&& self.mode == TranslationMode::Oneshot
        &&& self.live_interval_ms == 1000
        &&& self.ocr_lang@ == "jpn+eng"@
        &&& self.settle_time_ms == 1500
    }
}

impl Default for AppConfig {
    fn default() -> (r: Self)
        ensures
            r.is_default(),
    {
        AppConfig {
            hotkey: default_hotkey(),
            source_lang: default_source_lang(),
            target_lang: default_target_lang(),
            api_backend: ApiBackend::default(),
            api_key: String::new(),
            api_url: String::new(),
            mode: TranslationMode::default(),
            live_interval_ms: default_live_interval_ms(),
            ocr_lang: default_ocr_lang(),
            settle_time_ms: default_settle_time_ms(),
        }
    }
}

/// Why the configuration file cannot be located.
#[derive(Debug, Clone, Copy, PartialEq, Eq, Structural)]
pub enum ConfigError {
    /// The platform has no per-user configuration directory, or its path
    /// is not valid UTF-8.
    NoConfigDir,
}

impl ConfigError {
    /// Human-readable description.
    pub fn message(&self) -> (r: String)
        ensures
            r@ == "Could not determine config directory"@,
    {
        String::from_str("Could not determine config directory")
    }
}

/// `base` extended by the relative component `seg`, as `PathBuf::push`
/// does on Unix: an absolute `seg` replaces `base`; otherwise a `/` goes
/// between the two unless `base` is empty or already ends with one.
pub open spec fn path_join(base: Seq<char>, seg: Seq<char>) -> Seq<char> {
    if seg.len() > 0 && seg[0] == '/' {
        seg
    } else if base.len() == 0 || base.last() == '/' {
        base + seg
    } else {
        base + seq!['/'] + seg
    }
}

/// Executable `path_join`.
pub fn join_path(base: &str, seg: &str) -> (r: String)
    ensures
        r@ == path_join(base@, seg@),
{
    let bs = crate::text::chars_of(base);
    let ss = crate::text::chars_of(seg);
    if ss.len() > 0 && ss[0] == '/' {
        return String::from_str(seg);
    }
    let mut r = String::from_str(base);
    if bs.len() != 0 && bs[bs.len() - 1] != '/' {
        string_push(&mut r, '/');
    }
    r.append(seg);
    r
}

/// The user's configuration directory, as the `dirs` crate finds it from
/// the environment (`dirs::config_dir`), as text. A directory whose path is
/// not valid UTF-8 cannot be held exactly in a `String` and counts as none,
/// so that no other directory is ever used in its place. Nothing is
/// promised of the result: it depends on the environment.
#[verifier::external_body]
fn user_config_dir() -> (r: Option<String>) {
    match dirs::config_dir() {
        Some(p) => match p.into_os_string().into_string() {
            Ok(s) => Some(s),
            Err(_) => None,
        },
        None => None,
    }
}

/// The application's directory inside the configuration directory `base`.
pub open spec fn app_dir_in(base: Seq<char>) -> Seq<char> {
    path_join(base, "eyeclipse"@)
}

/// The configuration file inside the configuration directory `base`.
pub open spec fn config_file_in(base: Seq<char>) -> Seq<char> {
    path_join(app_dir_in(base), "config.toml"@)
}

/// The configuration file is `config.toml` directly inside the
/// application's directory, and that directory is `eyeclipse` directly
/// inside the configuration directory (when that is a non-empty path
/// without a trailing `/`).
pub proof fn lemma_config_file_layout(base: Seq<char>)
    ensures
        config_file_in(base) == app_dir_in(base) + "/config.toml"@,
        base.len() > 0 && base.last() != '/' ==> app_dir_in(base) == base + "/eyeclipse"@,
{
    reveal_strlit("eyeclipse");
    reveal_strlit("config.toml");
    reveal_strlit("/config.toml");
    reveal_strlit("/eyeclipse");
    let d = app_dir_in(base);
    assert(d.len() > 0 && d.last() == 'e');
    assert(d + seq!['/'] + "config.toml"@ =~= d + "/config.toml"@);
    if base.len() > 0 && base.last() != '/' {
        assert(base + seq!['/'] + "eyeclipse"@ =~= base + "/eyeclipse"@);
    }
}

impl AppConfig {
    /// The application's directory, given the user's configuration
    /// directory (`None` where the platform has none).
    pub fn config_dir_under(base: Option<String>) -> (r: Result<String, ConfigError>)
        ensures
            match base {
                Some(b) => r is Ok && r->Ok_0@ == app_dir_in(b@),
                None => r == Err::<String, ConfigError>(ConfigError::NoConfigDir),
            },
    {
        match base {
            Some(b) => Ok(join_path(b.as_str(), "eyeclipse")),
            None => Err(ConfigError::NoConfigDir),
        }
    }

    /// The configuration file, given the user's configuration directory.
    pub fn config_path_under(base: Option<String>) -> (r: Result<String, ConfigError>)
        ensures
            match base {
                Some(b) => r is Ok && r->Ok_0@ == config_file_in(b@),
                None => r == Err::<String, ConfigError>(ConfigError::NoConfigDir),
            },
    {
        let dir = Self::config_dir_under(base)?;
        Ok(join_path(dir.as_str(), "config.toml"))
    }

    /// The application's directory under the user's configuration
    /// directory (`~/.config/eyeclipse` on Linux).
    pub fn config_dir() -> (r: Result<String, ConfigError>)
        ensures
            r is Err ==> r == Err::<String, ConfigError>(ConfigError::NoConfigDir),
            r is Ok ==> exists|b: Seq<char>| r->Ok_0@ == app_dir_in(b),
    {
        Self::config_dir_under(user_config_dir())
    }

    /// The configuration file (`~/.config/eyeclipse/config.toml` on Linux).
    pub fn config_path() -> (r: Result<String, ConfigError>)
        ensures
            r is Err ==> r == Err::<String, ConfigError>(ConfigError::NoConfigDir),
            r is Ok ==> exists|b: Seq<char>| r->Ok_0@ == config_file_in(b),
    {
        Self::config_path_under(user_config_dir())
    }
}

} // verus!
