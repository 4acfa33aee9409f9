//! The command-line vocabulary: player commands, filters, sort keys and browsers.

use vstd::prelude::*;
use crate::text::opt_view;

verus! {

/// What the user asked for on the command line.
#[derive(Debug, Clone)]
pub struct Cli {
    /// download link (must be supported by yt-dlp)
    pub download: Option<String>,
    /// filter by source playlist name
    pub playlist: Option<String>,
    /// filter by tag name (repeatable)
    pub tag: Vec<String>,
    /// filter by artist name
    pub artist: Option<String>,
    /// filter by album name
    pub album: Option<String>,
    /// filter match mode: "and" (all filters must match) or "or" (any filter matches)
    pub match_mode: String,
    /// continue the previous playback session if available
    pub continue_session: bool,
    /// browser to pull cookies from (for auth-gated downloads)
    pub cookies_from_browser: Option<Browser>,
    /// control command sent to the running player
    pub command: Option<Commands>,
}

/// Commands understood by the player and the command line.
#[derive(Debug, Clone)]
pub enum Commands {
    Play,
    Pause,
    SetVolume { level: u8 },
    VolumeUp,
    VolumeDown,
    Skip,
    Quit,
    Next,
    Previous,
    Shuffle { filter: FilterSpec },
    Ascending { sort_by: SortKey, filter: FilterSpec },
    Descending { sort_by: SortKey, filter: FilterSpec },
    Name,
    Info,
    Like { weight: Option<u8> },
    Tags { action: TagsAction },
    Playlists,
    Config { action: ConfigAction },
}

/// Queries about tags.
#[derive(Debug, Clone, Copy, PartialEq, Eq, Structural)]
pub enum TagsAction {
    List,
}

/// Reading and writing the configuration file.
#[derive(Debug, Clone)]
pub enum ConfigAction {
    Get { key: String },
    SetValue { key: String, value: String },
    Path,
}

/// The catalogue columns a queue can be sorted by.
#[derive(Debug, Clone, Copy, PartialEq, Eq, Structural)]
pub enum SortKey {
    Title,
    Artist,
    Album,
    UploadDate,
    DateAdded,
    PlayCount,
}

/// The browsers whose cookies the downloader can use.
#[derive(Debug, Clone, Copy, PartialEq, Eq, Structural)]
pub enum Browser {
    Brave,
    Chrome,
    Chromium,
    Edge,
    Firefox,
    Opera,
    Safari,
    Vivaldi,
    Whale,
}

/// Which tracks a queue is built from.
#[derive(Debug, Clone)]
pub struct FilterSpec {
    pub playlist: Option<String>,
    pub tags: Vec<String>,
    pub artist: Option<String>,
    pub album: Option<String>,
    /// "and" or "or"
    pub match_mode: String,
}

/// A filter as plain values.
pub struct FilterView {
    pub playlist: Option<Seq<char>>,
    pub tags: Seq<Seq<char>>,
    pub artist: Option<Seq<char>>,
    pub album: Option<Seq<char>>,
    pub match_mode: Seq<char>,
}

impl View for FilterSpec {
    type V = FilterView;

    open spec fn view(&self) -> FilterView {
        FilterView {
            playlist: opt_view(self.playlist),
            tags: crate::queue::views(self.tags@),
            artist: opt_view(self.artist),
            album: opt_view(self.album),
            match_mode: self.match_mode@,
        }
    }
}

/// A configuration action as plain values.
pub enum ConfigActionView {
    Get { key: Seq<char> },
    SetValue { key: Seq<char>, value: Seq<char> },
    Path,
}

impl View for ConfigAction {
    type V = ConfigActionView;

    open spec fn view(&self) -> ConfigActionView {
        match self {
            ConfigAction::Get { key } => ConfigActionView::Get { key: key@ },
            ConfigAction::SetValue { key, value } => ConfigActionView::SetValue { key: key@, value: value@ },
            ConfigAction::Path => ConfigActionView::Path,
        }
    }
}

/// A command as plain values.
pub enum CommandView {
    Play,
    Pause,
    SetVolume { level: u8 },
    VolumeUp,
    VolumeDown,
    Skip,
    Quit,
    Next,
    Previous,
    Shuffle { filter: FilterView },
    Ascending { sort_by: SortKey, filter: FilterView },
    Descending { sort_by: SortKey, filter: FilterView },
    Name,
    Info,
    Like { weight: Option<u8> },
    Tags { action: TagsAction },
    Playlists,
    Config { action: ConfigActionView },
}

impl View for Commands {
    type V = CommandView;

    open spec fn view(&self) -> CommandView {
        match self {
            Commands::Play => CommandView::Play,
            Commands::Pause => CommandView::Pause,
            Commands::SetVolume { level } => CommandView::SetVolume { level: *level },
            Commands::VolumeUp => CommandView::VolumeUp,
            Commands::VolumeDown => CommandView::VolumeDown,
            Commands::Skip => CommandView::Skip,
            Commands::Quit => CommandView::Quit,
            Commands::Next => CommandView::Next,
            Commands::Previous => CommandView::Previous,
            Commands::Shuffle { filter } => CommandView::Shuffle { filter: filter@ },
            Commands::Ascending { sort_by, filter } => CommandView::Ascending { sort_by: *sort_by, filter: filter@ },
            Commands::Descending { sort_by, filter } => CommandView::Descending { sort_by: *sort_by, filter: filter@ },
            Commands::Name => CommandView::Name,
            Commands::Info => CommandView::Info,
            Commands::Like { weight } => CommandView::Like { weight: *weight },
            Commands::Tags { action } => CommandView::Tags { action: *action },
            Commands::Playlists => CommandView::Playlists,
            Commands::Config { action } => CommandView::Config { action: action@ },
        }
    }
}

/// The catalogue column named by a sort key.
pub open spec fn sort_column(k: SortKey) -> Seq<char> {
    match k {
        SortKey::Title => "title"@,
        SortKey::Artist => "artist"@,
        SortKey::Album => "album"@,
        SortKey::UploadDate => "upload_date"@,
        SortKey::DateAdded => "created_at"@,
        SortKey::PlayCount => "play_count"@,
    }
}

impl SortKey {
    /// The catalogue column this key sorts by, as the key is displayed.
    pub fn column_name(&self) -> (s: String)
        ensures
            s@ == sort_column(*self),
    {
        match self {
            SortKey::Title => String::from_str("title"),
            SortKey::Artist => String::from_str("artist"),
            SortKey::Album => String::from_str("album"),
            SortKey::UploadDate => String::from_str("upload_date"),
            SortKey::DateAdded => String::from_str("created_at"),
            SortKey::PlayCount => String::from_str("play_count"),
        }
    }
}

/// The lower-case name of a browser, as the downloader and the configuration write it.
pub open spec fn browser_name(b: Browser) -> Seq<char> {
    match b {
        Browser::Brave => "brave"@,
        Browser::Chrome => "chrome"@,
        Browser::Chromium => "chromium"@,
        Browser::Edge => "edge"@,
        Browser::Firefox => "firefox"@,
        Browser::Opera => "opera"@,
        Browser::Safari => "safari"@,
        Browser::Vivaldi => "vivaldi"@,
        Browser::Whale => "whale"@,
    }
}

/// The browser whose lower-case name is exactly `s`.
pub open spec fn browser_named(s: Seq<char>) -> Option<Browser> {
    if s == "brave"@ {
        Some(Browser::Brave)
    } else if s == "chrome"@ {
        Some(Browser::Chrome)
    } else if s == "chromium"@ {
        Some(Browser::Chromium)
    } else if s == "edge"@ {
        Some(Browser::Edge)
    } else if s == "firefox"@ {
        Some(Browser::Firefox)
    } else if s == "opera"@ {
        Some(Browser::Opera)
    } else if s == "safari"@ {
        Some(Browser::Safari)
    } else if s == "vivaldi"@ {
        Some(Browser::Vivaldi)
    } else if s == "whale"@ {
        Some(Browser::Whale)
    } else {
        None
    }
}

impl Browser {
    /// The lower-case name of the browser.
    pub fn name(&self) -> (s: String)
        ensures
            s@ == browser_name(*self),
    {
        match self {
            Browser::Brave => String::from_str("brave"),
            Browser::Chrome => String::from_str("chrome"),
            Browser::Chromium => String::from_str("chromium"),
            Browser::Edge => String::from_str("edge"),
            Browser::Firefox => String::from_str("firefox"),
            Browser::Opera => String::from_str("opera"),
            Browser::Safari => String::from_str("safari"),
            Browser::Vivaldi => String::from_str("vivaldi"),
            Browser::Whale => String::from_str("whale"),
        }
    }
}

/// A filter that selects every complete track and combines its conditions with "and".
pub open spec fn is_default_filter(f: FilterSpec) -> bool {
    &&& f.playlist is None
    &&& f.tags@.len() == 0
    &&& f.artist is None
    &&& f.album is None
    &&& f.match_mode@ == "and"@
}

impl Default for FilterSpec {
    fn default() -> (f: Self)
        ensures
            is_default_filter(f),
    {
        FilterSpec {
            playlist: None,
            tags: Vec::new(),
            artist: None,
            album: None,
            match_mode: String::from_str("and"),
        }
    }
}


} // verus!
