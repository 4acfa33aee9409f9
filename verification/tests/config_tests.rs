use audiocrab::cli::Browser;
use audiocrab::config::{Config, ConfigError, parse_browser};

fn sample() -> Config {
    Config {
        download_dir: "/music/audiocrab".to_string(),
        temp_dir: "/music/audiocrab/temp".to_string(),
        db_path: "/data/audiocrab/audiocrab.db".to_string(),
        cookies_from_browser: None,
        concurrency: 4,
        retries: 10,
    }
}

#[test]
fn get_shows_each_setting() {
    let mut c = sample();
    assert_eq!(c.get("download_dir").as_deref(), Some("/music/audiocrab"));
    assert_eq!(c.get("temp_dir").as_deref(), Some("/music/audiocrab/temp"));
    assert_eq!(c.get("db_path").as_deref(), Some("/data/audiocrab/audiocrab.db"));
    assert_eq!(c.get("concurrency").as_deref(), Some("4"));
    assert_eq!(c.get("retries").as_deref(), Some("10"));
    assert_eq!(c.get("cookies_from_browser"), None);
    assert_eq!(c.get("volume"), None);
    c.cookies_from_browser = Some(Browser::Firefox);
    assert_eq!(c.get("cookies_from_browser").as_deref(), Some("firefox"));
    assert_eq!(c.data_dir(), "/music/audiocrab");
}

#[test]
fn set_then_get_reads_back() {
    let mut c = sample();
    c.set("download_dir", "/tmp/x").unwrap();
    assert_eq!(c.get("download_dir").as_deref(), Some("/tmp/x"));
    c.set("concurrency", "+012").unwrap();
    assert_eq!(c.concurrency, 12);
    assert_eq!(c.get("concurrency").as_deref(), Some("12"));
    c.set("retries", "4294967295").unwrap();
    assert_eq!(c.retries, u32::MAX);
    c.set("cookies_from_browser", "  ChRoMe \n").unwrap();
    assert_eq!(c.cookies_from_browser, Some(Browser::Chrome));
    c.set("cookies_from_browser", " NONE ").unwrap();
    assert_eq!(c.cookies_from_browser, None);
    c.set("cookies_from_browser", "vivaldi").unwrap();
    c.set("cookies_from_browser", "").unwrap();
    assert_eq!(c.cookies_from_browser, None);
}

#[test]
fn setting_back_what_get_shows_changes_nothing() {
    let mut c = sample();
    c.cookies_from_browser = Some(Browser::Whale);
    for key in ["download_dir", "temp_dir", "db_path", "cookies_from_browser", "concurrency", "retries"] {
        let shown = c.get(key).unwrap();
        let mut d = c.clone();
        d.set(key, &shown).unwrap();
        assert_eq!(d.get(key), c.get(key));
        assert_eq!(d.concurrency, c.concurrency);
        assert_eq!(d.retries, c.retries);
        assert_eq!(d.cookies_from_browser, c.cookies_from_browser);
        assert_eq!(d.download_dir, c.download_dir);
    }
}

#[test]
fn refused_settings_leave_config_unchanged() {
    let mut c = sample();
    assert!(matches!(c.set("colour", "red"), Err(ConfigError::UnknownKey(k)) if k == "colour"));
    assert!(matches!(c.set("concurrency", "four"), Err(ConfigError::InvalidConcurrency)));
    assert!(matches!(c.set("concurrency", "-1"), Err(ConfigError::InvalidConcurrency)));
    assert!(matches!(c.set("concurrency", "+"), Err(ConfigError::InvalidConcurrency)));
    assert!(matches!(c.set("concurrency", " 4"), Err(ConfigError::InvalidConcurrency)));
    assert!(matches!(c.set("retries", "4294967296"), Err(ConfigError::InvalidRetries)));
    assert!(matches!(c.set("retries", ""), Err(ConfigError::InvalidRetries)));
    assert!(matches!(c.set("cookies_from_browser", " Netscape "), Err(ConfigError::UnsupportedBrowser(b)) if b == "netscape"));
    assert_eq!(c.concurrency, 4);
    assert_eq!(c.retries, 10);
    assert_eq!(c.cookies_from_browser, None);
}

#[test]
fn browsers_parse_by_name() {
    assert_eq!(parse_browser("brave").ok(), Some(Browser::Brave));
    assert_eq!(parse_browser(" EDGE").ok(), Some(Browser::Edge));
    assert_eq!(parse_browser("Safari\t").ok(), Some(Browser::Safari));
    assert_eq!(parse_browser("opera").ok(), Some(Browser::Opera));
    assert_eq!(parse_browser("chromium").ok(), Some(Browser::Chromium));
    assert!(matches!(parse_browser(" Lynx "), Err(ConfigError::UnsupportedBrowser(ref b)) if b == "lynx"));
    assert_eq!(parse_browser(" Lynx ").unwrap_err().message(), "unsupported browser: lynx");
    for b in [Browser::Brave, Browser::Chrome, Browser::Chromium, Browser::Edge, Browser::Firefox,
              Browser::Opera, Browser::Safari, Browser::Vivaldi, Browser::Whale] {
        assert_eq!(parse_browser(&b.name()).ok(), Some(b));
    }
}

#[test]
fn defaults_are_built_from_user_directories() {
    let c = Config::default_in(Some("/home/u/.local/share".to_string()), Some("/home/u/Music".to_string()));
    assert_eq!(c.download_dir, "/home/u/Music/audiocrab");
    assert_eq!(c.temp_dir, "/home/u/Music/audiocrab/temp");
    assert_eq!(c.db_path, "/home/u/.local/share/audiocrab/audiocrab.db");
    assert_eq!(c.concurrency, 4);
    assert_eq!(c.retries, 10);
    assert_eq!(c.cookies_from_browser, None);
    let d = Config::default_in(None, None);
    assert_eq!(d.download_dir, "./audiocrab");
    assert_eq!(d.db_path, "./audiocrab/audiocrab.db");
    let e = Config::default();
    assert!(e.download_dir.ends_with("audiocrab"));
    assert_eq!(e.concurrency, 4);
}

#[test]
fn config_file_lives_under_the_config_directory() {
    assert_eq!(Config::config_path_in(Some("/etc".to_string())), "/etc/audiocrab/config.toml");
    assert_eq!(Config::config_path_in(None), "./audiocrab/config.toml");
    assert!(Config::config_path().ends_with("audiocrab/config.toml"));
}

#[test]
fn refusals_report_what_was_wrong() {
    let mut c = sample();
    assert_eq!(c.set("colour", "red").unwrap_err().message(), "unknown config key: colour");
    assert_eq!(c.set("cookies_from_browser", " Netscape ").unwrap_err().message(), "unsupported browser: netscape");
    assert_eq!(c.set("concurrency", "x").unwrap_err().message(), "invalid concurrency");
    assert_eq!(c.set("retries", "-2").unwrap_err().message(), "invalid retries");
}
