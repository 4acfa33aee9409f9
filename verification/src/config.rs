//! The persistent settings: where files go, how downloads run, and the
//! key/value interface of the `config` subcommand.

use vstd::prelude::*;
use crate::cli::{Browser, browser_name, browser_named};
use crate::text::{
    opt_view, str_eq, to_ascii_lowercase, trim, lower_seq, trim_seq, decimal, parse_unsigned,
    parse_unsigned_str, u64_to_decimal,
};

verus! {

/// The name for what `Path::join` gives, as text, on the platform the library is built for.
pub uninterp spec fn joined_path(base: Seq<char>, part: Seq<char>) -> Seq<char>;

/// `std::path::Path::join`: the path `part` adjoined to `base`, read back as text.
/// The result is stated only through its name: the separator, and what happens when
/// `part` is absolute, depend on the platform.
#[verifier::external_body]
pub(crate) fn path_join(base: &str, part: &str) -> (r: String)
    ensures
        r@ == joined_path(base@, part@),
{
    std::path::Path::new(base).join(part).to_string_lossy().into_owned()
}

/// `dirs::config_dir`: the user's configuration directory, which the environment decides.
#[verifier::external_body]
fn platform_config_dir() -> Option<String> {
    dirs::config_dir().map(|p| p.to_string_lossy().into_owned())
}

/// `dirs::data_dir`: the user's data directory, which the environment decides.
#[verifier::external_body]
fn platform_data_dir() -> Option<String> {
    dirs::data_dir().map(|p| p.to_string_lossy().into_owned())
}

/// `dirs::audio_dir`: the user's music directory, which the environment decides.
#[verifier::external_body]
fn platform_audio_dir() -> Option<String> {
    dirs::audio_dir().map(|p| p.to_string_lossy().into_owned())
}

/// The settings of the player.
#[derive(Debug, Clone)]
pub struct Config {
    pub download_dir: String,
    pub temp_dir: String,
    pub db_path: String,
    pub cookies_from_browser: Option<Browser>,
    pub concurrency: usize,
    pub retries: u32,
}

/// The settings as plain values.
pub struct ConfigView {
    pub download_dir: Seq<char>,
    pub temp_dir: Seq<char>,
    pub db_path: Seq<char>,
    pub cookies_from_browser: Option<Browser>,
    pub concurrency: usize,
    pub retries: u32,
}

impl View for Config {
    type V = ConfigView;

    open spec fn view(&self) -> ConfigView {
        ConfigView {
            download_dir: self.download_dir@,
            temp_dir: self.temp_dir@,
            db_path: self.db_path@,
            cookies_from_browser: self.cookies_from_browser,
            concurrency: self.concurrency,
            retries: self.retries,
        }
    }
}

/// Why a setting could not be changed.
#[derive(Debug, Clone)]
pub enum ConfigError {
    /// The key names no setting.
    UnknownKey(String),
    /// The browser name, trimmed and lower-cased, names no supported browser.
    UnsupportedBrowser(String),
    /// The value is not a number of downloads to run at once.
    InvalidConcurrency,
    /// The value is not a number of retries.
    InvalidRetries,
}

/// The plain form of a refusal: which kind, and the text it names.
pub enum SetRefusal {
    UnknownKey(Seq<char>),
    UnsupportedBrowser(Seq<char>),
    InvalidConcurrency,
    InvalidRetries,
}

impl View for ConfigError {
    type V = SetRefusal;

    open spec fn view(&self) -> SetRefusal {
        match self {
            ConfigError::UnknownKey(k) => SetRefusal::UnknownKey(k@),
            ConfigError::UnsupportedBrowser(b) => SetRefusal::UnsupportedBrowser(b@),
            ConfigError::InvalidConcurrency => SetRefusal::InvalidConcurrency,
            ConfigError::InvalidRetries => SetRefusal::InvalidRetries,
        }
    }
}

/// The text a refusal reports.
pub open spec fn refusal_text(r: SetRefusal) -> Seq<char> {
    match r {
        SetRefusal::UnknownKey(k) => "unknown config key: "@ + k,
        SetRefusal::UnsupportedBrowser(b) => "unsupported browser: "@ + b,
        SetRefusal::InvalidConcurrency => "invalid concurrency"@,
        SetRefusal::InvalidRetries => "invalid retries"@,
    }
}

impl ConfigError {
    /// The text the refusal reports.
    pub fn message(&self) -> (m: String)
        ensures
            m@ == refusal_text(self@),
    {
        match self {
            ConfigError::UnknownKey(k) => {
                let mut m = String::from_str("unknown config key: ");
                m.append(k.as_str());
                m
            },
            ConfigError::UnsupportedBrowser(b) => {
                let mut m = String::from_str("unsupported browser: ");
                m.append(b.as_str());
                m
            },
            ConfigError::InvalidConcurrency => String::from_str("invalid concurrency"),
            ConfigError::InvalidRetries => String::from_str("invalid retries"),
        }
    }
}

/// The browser named by `s` once it is trimmed and lower-cased.
pub open spec fn browser_from_text(s: Seq<char>) -> Option<Browser> {
    browser_named(lower_seq(trim_seq(s)))
}

/// Reads a browser name, ignoring surrounding white space and ASCII case.
/// On failure the error names the trimmed, lower-cased text.
pub fn parse_browser(value: &str) -> (r: Result<Browser, ConfigError>)
    ensures
        r matches Ok(b) ==> browser_from_text(value@) == Some(b),
        r matches Err(e) ==> browser_from_text(value@) is None && e@ == SetRefusal::UnsupportedBrowser(
            lower_seq(trim_seq(value@)),
        ),
{
    let t = trim(value);
    let v = to_ascii_lowercase(t.as_str());
    let s = v.as_str();
    if str_eq(s, "brave") {
        Ok(Browser::Brave)
    } else if str_eq(s, "chrome") {
        Ok(Browser::Chrome)
    } else if str_eq(s, "chromium") {
        Ok(Browser::Chromium)
    } else if str_eq(s, "edge") {
        Ok(Browser::Edge)
    } else if str_eq(s, "firefox") {
        Ok(Browser::Firefox)
    } else if str_eq(s, "opera") {
        Ok(Browser::Opera)
    } else if str_eq(s, "safari") {
        Ok(Browser::Safari)
    } else if str_eq(s, "vivaldi") {
        Ok(Browser::Vivaldi)
    } else if str_eq(s, "whale") {
        Ok(Browser::Whale)
    } else {
        Err(ConfigError::UnsupportedBrowser(v))
    }
}

/// The value `Config::get` shows for `key`.
pub open spec fn config_value(c: ConfigView, key: Seq<char>) -> Option<Seq<char>> {
    if key == "download_dir"@ {
        Some(c.download_dir)
    } else if key == "temp_dir"@ {
        Some(c.temp_dir)
    } else if key == "db_path"@ {
        Some(c.db_path)
    } else if key == "cookies_from_browser"@ {
        match c.cookies_from_browser {
            Some(b) => Some(browser_name(b)),
            None => None,
        }
    } else if key == "concurrency"@ {
        Some(decimal(c.concurrency as nat))
    } else if key == "retries"@ {
        Some(decimal(c.retries as nat))
    } else {
        None
    }
}

/// What setting `key` to `value` makes of the settings `c`, or why it is refused.
pub open spec fn config_update(c: ConfigView, key: Seq<char>, value: Seq<char>) -> Result<
    ConfigView,
    SetRefusal,
> {
    if key == "download_dir"@ {
        Ok(ConfigView { download_dir: value, ..c })
    } else if key == "temp_dir"@ {
        Ok(ConfigView { temp_dir: value, ..c })
    } else if key == "db_path"@ {
        Ok(ConfigView { db_path: value, ..c })
    } else if key == "cookies_from_browser"@ {
        let t = lower_seq(trim_seq(value));
        if t == ""@ || t == "none"@ {
            Ok(ConfigView { cookies_from_browser: None, ..c })
        } else {
            match browser_from_text(t) {
                Some(b) => Ok(ConfigView { cookies_from_browser: Some(b), ..c }),
                None => Err(SetRefusal::UnsupportedBrowser(lower_seq(trim_seq(t)))),
            }
        }
    } else if key == "concurrency"@ {
        match parse_unsigned(value, usize::MAX as int) {
            Some(n) => Ok(ConfigView { concurrency: n as usize, ..c }),
            None => Err(SetRefusal::InvalidConcurrency),
        }
    } else if key == "retries"@ {
        match parse_unsigned(value, u32::MAX as int) {
            Some(n) => Ok(ConfigView { retries: n as u32, ..c }),
            None => Err(SetRefusal::InvalidRetries),
        }
    } else {
        Err(SetRefusal::UnknownKey(key))
    }
}

/// The settings used when no configuration file exists yet, given the user's data
/// directory and music directory (the current directory stands in for a missing one).
pub open spec fn default_config(data_dir: Option<Seq<char>>, audio_dir: Option<Seq<char>>) -> ConfigView {
    let root = joined_path(
        match data_dir {
            Some(d) => d,
            None => "."@,
        },
        "audiocrab"@,
    );
    let download_dir = joined_path(
        match audio_dir {
            Some(d) => d,
            None => "."@,
        },
        "audiocrab"@,
    );
    ConfigView {
        download_dir: download_dir,
        temp_dir: joined_path(download_dir, "temp"@),
        db_path: joined_path(root, "audiocrab.db"@),
        cookies_from_browser: None,
        concurrency: 4,
        retries: 10,
    }
}

/// Where the configuration file lives, given the user's configuration directory.
pub open spec fn config_file_path(config_dir: Option<Seq<char>>) -> Seq<char> {
    joined_path(
        joined_path(
            match config_dir {
                Some(d) => d,
                None => "."@,
            },
            "audiocrab"@,
        ),
        "config.toml"@,
    )
}

fn dir_or_current(dir: Option<String>) -> (d: String)
    ensures
        d@ == match dir {
            Some(x) => x@,
            None => "."@,
        },
{
    match dir {
        Some(x) => x,
        None => String::from_str("."),
    }
}

impl Config {
    /// The settings used when no configuration file exists, from the given directories.
    pub fn default_in(data_dir: Option<String>, audio_dir: Option<String>) -> (c: Config)
        ensures
            c@ == default_config(
                opt_view(data_dir),
                opt_view(audio_dir),
            ),
    {
        let root = path_join(dir_or_current(data_dir).as_str(), "audiocrab");
        let download_dir = path_join(dir_or_current(audio_dir).as_str(), "audiocrab");
        let temp_dir = path_join(download_dir.as_str(), "temp");
        let db_path = path_join(root.as_str(), "audiocrab.db");
        Config {
            download_dir,
            temp_dir,
            db_path,
            cookies_from_browser: None,
            concurrency: 4,
            retries: 10,
        }
    }

    /// The directory downloaded tracks are stored in.
    pub fn data_dir(&self) -> (d: &str)
        ensures
            d@ == self.download_dir@,
    {
        self.download_dir.as_str()
    }

    /// Where the configuration file lives, given the user's configuration directory.
    pub fn config_path_in(config_dir: Option<String>) -> (p: String)
        ensures
            p@ == config_file_path(
                opt_view(config_dir),
            ),
    {
        let base = path_join(dir_or_current(config_dir).as_str(), "audiocrab");
        path_join(base.as_str(), "config.toml")
    }

    /// Where the configuration file lives for this user.
    pub fn config_path() -> (p: String)
        ensures
            exists|d: Option<Seq<char>>| p@ == config_file_path(d),
    {
        let dir = platform_config_dir();
        let ghost d = opt_view(dir);
        let p = Self::config_path_in(dir);
        assert(p@ == config_file_path(d));
        p
    }

    /// The text of one setting, or none for an unknown key or an unset browser.
    pub fn get(&self, key: &str) -> (r: Option<String>)
        ensures
            match r {
                Some(v) => config_value(self@, key@) == Some(v@),
                None => config_value(self@, key@) is None,
            },
    {
        if str_eq(key, "download_dir") {
            Some(self.download_dir.clone())
        } else if str_eq(key, "temp_dir") {
            Some(self.temp_dir.clone())
        } else if str_eq(key, "db_path") {
            Some(self.db_path.clone())
        } else if str_eq(key, "cookies_from_browser") {
            match &self.cookies_from_browser {
                Some(b) => Some(b.name()),
                None => None,
            }
        } else if str_eq(key, "concurrency") {
            Some(u64_to_decimal(self.concurrency as u64))
        } else if str_eq(key, "retries") {
            Some(u64_to_decimal(self.retries as u64))
        } else {
            None
        }
    }

    /// Changes one setting from its text; on a refusal nothing changes.
    pub fn set(&mut self, key: &str, value: &str) -> (r: Result<(), ConfigError>)
        ensures
            match config_update(old(self)@, key@, value@) {
                Ok(c) => r is Ok && final(self)@ == c,
                Err(e) => r matches Err(x) && x@ == e && final(self)@ == old(self)@,
            },
    {
        if str_eq(key, "download_dir") {
            self.download_dir = String::from_str(value);
            Ok(())
        } else if str_eq(key, "temp_dir") {
            self.temp_dir = String::from_str(value);
            Ok(())
        } else if str_eq(key, "db_path") {
            self.db_path = String::from_str(value);
            Ok(())
        } else if str_eq(key, "cookies_from_browser") {
            let trimmed = trim(value);
            let t = to_ascii_lowercase(trimmed.as_str());
            if str_eq(t.as_str(), "") || str_eq(t.as_str(), "none") {
                self.cookies_from_browser = None;
                Ok(())
            } else {
                match parse_browser(t.as_str()) {
                    Ok(b) => {
                        self.cookies_from_browser = Some(b);
                        Ok(())
                    },
                    Err(e) => Err(e),
                }
            }
        } else if str_eq(key, "concurrency") {
            match parse_unsigned_str(value, usize::MAX as u64) {
                Some(n) => {
                    self.concurrency = n as usize;
                    Ok(())
                },
                None => Err(ConfigError::InvalidConcurrency),
            }
        } else if str_eq(key, "retries") {
            match parse_unsigned_str(value, u32::MAX as u64) {
                Some(n) => {
                    self.retries = n as u32;
                    Ok(())
                },
                None => Err(ConfigError::InvalidRetries),
            }
        } else {
            Err(ConfigError::UnknownKey(String::from_str(key)))
        }
    }
}

impl Default for Config {
    /// The settings used when no configuration file exists, from the user's directories.
    fn default() -> (c: Self)
        ensures
            exists|d: Option<Seq<char>>, a: Option<Seq<char>>| c@ == default_config(d, a),
    {
        let data_dir = platform_data_dir();
        let audio_dir = platform_audio_dir();
        let ghost d = opt_view(data_dir);
        let ghost a = opt_view(audio_dir);
        let c = Config::default_in(data_dir, audio_dir);
        assert(c@ == default_config(d, a));
        c
    }
}


proof fn lemma_plain_word(s: Seq<char>)
    requires
        s.len() > 0,
        forall|i: int| 0 <= i < s.len() ==> 'a' <= #[trigger] s[i] <= 'z',
    ensures
        trim_seq(s) == s,
        lower_seq(s) == s,
{
    assert(crate::text::trim_start_seq(s) == s);
    assert(crate::text::trim_end_seq(s) == s);
    assert(lower_seq(s) =~= s);
}

/// Neither the empty text nor "none" names a browser.
pub proof fn lemma_no_browser_named_empty_or_none(t: Seq<char>)
    requires
        t == ""@ || t == "none"@,
    ensures
        browser_from_text(t) is None,
{
    reveal_strlit("brave");
    reveal_strlit("chrome");
    reveal_strlit("chromium");
    reveal_strlit("edge");
    reveal_strlit("firefox");
    reveal_strlit("opera");
    reveal_strlit("safari");
    reveal_strlit("vivaldi");
    reveal_strlit("whale");
    reveal_strlit("");
    reveal_strlit("none");
    lemma_plain_word("none"@);
    if t == ""@ {
        assert(trim_seq(t) =~= t);
        assert(lower_seq(t) =~= t);
    }
}

/// A browser's name reads back as that browser, and is neither empty nor "none".
pub proof fn law_browser_name_reads_back(b: Browser)
    ensures
        browser_from_text(browser_name(b)) == Some(b),
        lower_seq(trim_seq(browser_name(b))) == browser_name(b),
        browser_name(b) != ""@,
        browser_name(b) != "none"@,
{
    reveal_strlit("brave");
    reveal_strlit("chrome");
    reveal_strlit("chromium");
    reveal_strlit("edge");
    reveal_strlit("firefox");
    reveal_strlit("opera");
    reveal_strlit("safari");
    reveal_strlit("vivaldi");
    reveal_strlit("whale");
    reveal_strlit("");
    reveal_strlit("none");
    lemma_plain_word(browser_name(b));
}

/// The setting names differ from one another.
proof fn lemma_keys_distinct()
    ensures
        "download_dir"@ != "temp_dir"@,
        "download_dir"@ != "db_path"@,
        "download_dir"@ != "cookies_from_browser"@,
        "download_dir"@ != "concurrency"@,
        "download_dir"@ != "retries"@,
        "temp_dir"@ != "db_path"@,
        "temp_dir"@ != "cookies_from_browser"@,
        "temp_dir"@ != "concurrency"@,
        "temp_dir"@ != "retries"@,
        "db_path"@ != "cookies_from_browser"@,
        "db_path"@ != "concurrency"@,
        "db_path"@ != "retries"@,
        "cookies_from_browser"@ != "concurrency"@,
        "cookies_from_browser"@ != "retries"@,
        "concurrency"@ != "retries"@,
{
    reveal_strlit("download_dir");
    reveal_strlit("temp_dir");
    reveal_strlit("db_path");
    reveal_strlit("cookies_from_browser");
    reveal_strlit("concurrency");
    reveal_strlit("retries");
    assert("download_dir"@.len() == 12);
    assert("temp_dir"@.len() == 8);
    assert("db_path"@.len() == 7);
    assert("cookies_from_browser"@.len() == 20);
    assert("concurrency"@.len() == 11);
    assert("retries"@.len() == 7);
    assert("db_path"@[0] != "retries"@[0]);
}

/// Writing a setting and reading it back: a path reads back exactly as written, a
/// number in its canonical decimal form, a browser by its lower-case name; and no
/// other setting changes.
pub proof fn law_get_after_set(c: ConfigView, key: Seq<char>, value: Seq<char>)
    requires
        config_update(c, key, value) is Ok,
    ensures
        ({
            let d = config_update(c, key, value)->Ok_0;
            &&& (key == "download_dir"@ || key == "temp_dir"@ || key == "db_path"@)
                ==> config_value(d, key) == Some(value)
            &&& key == "concurrency"@ ==> config_value(d, key) == Some(
                decimal(parse_unsigned(value, usize::MAX as int)->0 as nat),
            )
            &&& key == "retries"@ ==> config_value(d, key) == Some(
                decimal(parse_unsigned(value, u32::MAX as int)->0 as nat),
            )
            &&& key == "cookies_from_browser"@ ==> config_value(d, key) == match browser_from_text(
                value,
            ) {
                Some(b) => Some(browser_name(b)),
                None => None,
            }
            &&& key != "download_dir"@ ==> d.download_dir == c.download_dir
            &&& key != "temp_dir"@ ==> d.temp_dir == c.temp_dir
            &&& key != "db_path"@ ==> d.db_path == c.db_path
            &&& key != "cookies_from_browser"@ ==> d.cookies_from_browser == c.cookies_from_browser
            &&& key != "concurrency"@ ==> d.concurrency == c.concurrency
            &&& key != "retries"@ ==> d.retries == c.retries
        }),
{
    lemma_keys_distinct();
    reveal_strlit("");
    reveal_strlit("none");
    crate::text::lemma_parse_unsigned_range(value, usize::MAX as int);
    crate::text::lemma_parse_unsigned_range(value, u32::MAX as int);
    if key == "concurrency"@ {
        let d = config_update(c, key, value)->Ok_0;
        assert(config_value(d, key) == Some(decimal(d.concurrency as nat)));
    }
    if key == "retries"@ {
        let d = config_update(c, key, value)->Ok_0;
        assert(config_value(d, key) == Some(decimal(d.retries as nat)));
    }
    if key == "cookies_from_browser"@ {
        let t = lower_seq(trim_seq(value));
        crate::text::lemma_lower_trim_idempotent(value);
        assert(browser_from_text(t) == browser_from_text(value));
        if t == ""@ || t == "none"@ {
            lemma_no_browser_named_empty_or_none(t);
        }
    }
}

/// Writing back the text a setting shows succeeds and changes nothing.
pub proof fn law_set_what_get_shows(c: ConfigView, key: Seq<char>)
    requires
        config_value(c, key) is Some,
    ensures
        config_update(c, key, config_value(c, key)->0) == Ok::<ConfigView, SetRefusal>(c),
{
    lemma_keys_distinct();
    if key == "cookies_from_browser"@ {
        law_browser_name_reads_back(c.cookies_from_browser->0);
    } else if key == "concurrency"@ {
        crate::text::lemma_parse_decimal(c.concurrency as nat, usize::MAX as int);
    } else if key == "retries"@ {
        crate::text::lemma_parse_decimal(c.retries as nat, u32::MAX as int);
    }
}

} // verus!
