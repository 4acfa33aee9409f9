//! What an invocation of the program asks for, and how the player's first queue is
//! chosen.

use vstd::prelude::*;
use crate::catalog::clone_strings;
use crate::cli::{Browser, Cli, CommandView, Commands, ConfigAction, FilterSpec, FilterView, SortKey, TagsAction, sort_column};
use crate::controller::{Snapshot, SnapshotView, mode_label, mode_label_spec};
use crate::queue::{QueueMode, views};
use crate::text::{opt_view, str_eq};

verus! {

/// The filter the command-line options describe.
pub open spec fn cli_filter(args: Cli) -> FilterView {
    FilterView {
        playlist: opt_view(args.playlist),
        tags: views(args.tag@),
        artist: opt_view(args.artist),
        album: opt_view(args.album),
        match_mode: args.match_mode@,
    }
}

/// The command a player is started with or sent: the sort commands and shuffle take
/// the command line's filter; no command means shuffle; any other command is sent
/// as it is.
pub open spec fn startup_command(args: Cli) -> CommandView {
    match args.command {
        Some(Commands::Ascending { sort_by, .. }) => CommandView::Ascending { sort_by, filter: cli_filter(args) },
        Some(Commands::Descending { sort_by, .. }) => CommandView::Descending { sort_by, filter: cli_filter(args) },
        Some(Commands::Shuffle { .. }) | None => CommandView::Shuffle { filter: cli_filter(args) },
        Some(other) => other@,
    }
}

fn clone_opt(o: &Option<String>) -> (r: Option<String>)
    ensures
        opt_view(r) == opt_view(*o),
{
    match o {
        Some(s) => Some(s.clone()),
        None => None,
    }
}

fn copy_filter(f: &FilterSpec) -> (r: FilterSpec)
    ensures
        r@ == f@,
{
    FilterSpec {
        playlist: clone_opt(&f.playlist),
        tags: clone_strings(&f.tags),
        artist: clone_opt(&f.artist),
        album: clone_opt(&f.album),
        match_mode: f.match_mode.clone(),
    }
}

fn copy_command(c: &Commands) -> (r: Commands)
    ensures
        r@ == c@,
{
    match c {
        Commands::Play => Commands::Play,
        Commands::Pause => Commands::Pause,
        Commands::SetVolume { level } => Commands::SetVolume { level: *level },
        Commands::VolumeUp => Commands::VolumeUp,
        Commands::VolumeDown => Commands::VolumeDown,
        Commands::Skip => Commands::Skip,
        Commands::Quit => Commands::Quit,
        Commands::Next => Commands::Next,
        Commands::Previous => Commands::Previous,
        Commands::Shuffle { filter } => Commands::Shuffle { filter: copy_filter(filter) },
        Commands::Ascending { sort_by, filter } => Commands::Ascending { sort_by: *sort_by, filter: copy_filter(filter) },
        Commands::Descending { sort_by, filter } => Commands::Descending { sort_by: *sort_by, filter: copy_filter(filter) },
        Commands::Name => Commands::Name,
        Commands::Info => Commands::Info,
        Commands::Like { weight } => Commands::Like { weight: *weight },
        Commands::Tags { action } => Commands::Tags { action: *action },
        Commands::Playlists => Commands::Playlists,
        Commands::Config { action } => Commands::Config {
            action: match action {
                ConfigAction::Get { key } => ConfigAction::Get { key: key.clone() },
                ConfigAction::SetValue { key, value } => ConfigAction::SetValue { key: key.clone(), value: value.clone() },
                ConfigAction::Path => ConfigAction::Path,
            },
        },
    }
}

/// The filter the command-line options describe.
pub fn filter_from_args(args: &Cli) -> (f: FilterSpec)
    ensures
        f@ == cli_filter(*args),
{
    FilterSpec {
        playlist: clone_opt(&args.playlist),
        tags: clone_strings(&args.tag),
        artist: clone_opt(&args.artist),
        album: clone_opt(&args.album),
        match_mode: args.match_mode.clone(),
    }
}

/// The command a player is started with or sent.
pub fn resolve_startup_command(args: &Cli) -> (c: Commands)
    ensures
        c@ == startup_command(*args),
{
    let filter = filter_from_args(args);
    match &args.command {
        Some(Commands::Ascending { sort_by, .. }) => Commands::Ascending { sort_by: *sort_by, filter },
        Some(Commands::Descending { sort_by, .. }) => Commands::Descending { sort_by: *sort_by, filter },
        None | Some(Commands::Shuffle { .. }) => Commands::Shuffle { filter },
        Some(other) => copy_command(other),
    }
}

/// How the player's first queue is built.
#[derive(Debug, Clone)]
pub enum QueuePlan {
    /// Shuffle the matching tracks by weight.
    Shuffle(FilterSpec),
    /// Sort the matching tracks by a column.
    Sorted { filter: FilterSpec, sort_by: SortKey, descending: bool },
}

/// The refusal to start a player for a command that only a running player takes.
pub open spec fn no_player_message() -> Seq<char> {
    "no player running - start one first with a bare invocation, shuffle, ascending, or descending"@
}

/// How the first queue is built for a start-up command; only shuffle and the sort
/// commands start a player.
pub fn initial_queue_plan(command: &Commands) -> (r: Result<QueuePlan, String>)
    ensures
        match command@ {
            CommandView::Shuffle { filter } => r matches Ok(QueuePlan::Shuffle(f)) && f@ == filter,
            CommandView::Ascending { sort_by, filter } => r matches Ok(
                QueuePlan::Sorted { filter: f, sort_by: s, descending: d },
            ) && f@ == filter && s == sort_by && !d,
            CommandView::Descending { sort_by, filter } => r matches Ok(
                QueuePlan::Sorted { filter: f, sort_by: s, descending: d },
            ) && f@ == filter && s == sort_by && d,
            _ => r matches Err(e) && e@ == no_player_message(),
        },
{
    match command {
        Commands::Shuffle { filter } => Ok(QueuePlan::Shuffle(copy_filter(filter))),
        Commands::Ascending { sort_by, filter } => Ok(
            QueuePlan::Sorted { filter: copy_filter(filter), sort_by: *sort_by, descending: false },
        ),
        Commands::Descending { sort_by, filter } => Ok(
            QueuePlan::Sorted { filter: copy_filter(filter), sort_by: *sort_by, descending: true },
        ),
        _ => Err(
            String::from_str(
                "no player running - start one first with a bare invocation, shuffle, ascending, or descending",
            ),
        ),
    }
}

/// What one invocation of the program does.
#[derive(Debug, Clone)]
pub enum Route {
    /// Print one setting.
    ConfigGet(String),
    /// Change one setting and save the configuration.
    ConfigSet { key: String, value: String },
    /// Print where the configuration file lives.
    ConfigPath,
    /// Download a link, with the browser to take cookies from when the command line
    /// names one (else the configuration's).
    Download { link: String, browser: Option<Browser> },
    /// List the tags.
    ListTags,
    /// List the source playlists.
    ListPlaylists,
    /// Ask the running player, or else the saved state, for information.
    Info,
    /// Send this command to the running player, or start one with it.
    Player(Commands),
}

/// What one invocation does: a configuration subcommand first, then a download, then
/// the catalogue queries, then the player.
pub fn route(args: &Cli) -> (r: Route)
    ensures
        match args.command {
            Some(Commands::Config { action }) => match action@ {
                crate::cli::ConfigActionView::Get { key } => r matches Route::ConfigGet(k) && k@ == key,
                crate::cli::ConfigActionView::SetValue { key, value } => r matches Route::ConfigSet { key: k, value: v } && k@ == key && v@ == value,
                crate::cli::ConfigActionView::Path => r matches Route::ConfigPath,
            },
            _ => match args.download {
                Some(link) => r matches Route::Download { link: l, browser: b } && l@ == link@ && b == args.cookies_from_browser,
                None => match args.command {
                    Some(Commands::Tags { .. }) => r matches Route::ListTags,
                    Some(Commands::Playlists) => r matches Route::ListPlaylists,
                    Some(Commands::Info) => r matches Route::Info,
                    _ => r matches Route::Player(c) && c@ == startup_command(*args),
                },
            },
        },
{
    if let Some(Commands::Config { action }) = &args.command {
        return match action {
            ConfigAction::Get { key } => Route::ConfigGet(key.clone()),
            ConfigAction::SetValue { key, value } => Route::ConfigSet { key: key.clone(), value: value.clone() },
            ConfigAction::Path => Route::ConfigPath,
        };
    }
    if let Some(link) = &args.download {
        return Route::Download { link: link.clone(), browser: args.cookies_from_browser };
    }
    match &args.command {
        Some(Commands::Tags { .. }) => Route::ListTags,
        Some(Commands::Playlists) => Route::ListPlaylists,
        Some(Commands::Info) => Route::Info,
        _ => Route::Player(resolve_startup_command(args)),
    }
}

/// A first queue as plain values.
pub enum QueuePlanView {
    Shuffle(FilterView),
    Sorted { filter: FilterView, sort_by: SortKey, descending: bool },
}

impl View for QueuePlan {
    type V = QueuePlanView;

    open spec fn view(&self) -> QueuePlanView {
        match self {
            QueuePlan::Shuffle(f) => QueuePlanView::Shuffle(f@),
            QueuePlan::Sorted { filter, sort_by, descending } => QueuePlanView::Sorted {
                filter: filter@,
                sort_by: *sort_by,
                descending: *descending,
            },
        }
    }
}

/// How a player starts: its first queue, the seed to shuffle with (a fresh one when
/// there is none), and the position to start at.
#[derive(Debug, Clone)]
pub struct StartPlan {
    pub queue: QueuePlan,
    pub seed: Option<u64>,
    pub cursor: usize,
}

/// A start as plain values.
pub struct StartPlanView {
    pub queue: QueuePlanView,
    pub seed: Option<u64>,
    pub cursor: int,
}

impl View for StartPlan {
    type V = StartPlanView;

    open spec fn view(&self) -> StartPlanView {
        StartPlanView { queue: self.queue@, seed: self.seed, cursor: self.cursor as int }
    }
}

/// The player state saved for the next session, as the catalogue stores it: the
/// mode's label, the sort column, the filter, the seed and the cursor.
#[derive(Debug, Clone)]
pub struct SavedSession {
    pub mode: String,
    pub sort_key: Option<String>,
    pub filter: FilterSpec,
    pub seed: Option<i64>,
    pub cursor: i64,
}

/// A saved session as plain values.
pub struct SavedView {
    pub mode: Seq<char>,
    pub sort_key: Option<Seq<char>>,
    pub filter: FilterView,
    pub seed: Option<i64>,
    pub cursor: i64,
}

impl View for SavedSession {
    type V = SavedView;

    open spec fn view(&self) -> SavedView {
        SavedView {
            mode: self.mode@,
            sort_key: opt_view(self.sort_key),
            filter: self.filter@,
            seed: self.seed,
            cursor: self.cursor,
        }
    }
}

/// What is saved of a player state.
pub open spec fn saved_of(snap: SnapshotView) -> SavedView {
    SavedView {
        mode: mode_label_spec(snap.mode),
        sort_key: match snap.sort {
            Some(k) => Some(sort_column(k)),
            None => None,
        },
        filter: snap.filter,
        seed: match snap.seed {
            Some(x) => Some(x as i64),
            None => None,
        },
        cursor: snap.cursor as i64,
    }
}

/// The player state to save, in the form the catalogue stores it.
pub fn saved_session(snap: &Snapshot) -> (s: SavedSession)
    ensures
        s@ == saved_of(snap@),
{
    SavedSession {
        mode: mode_label(snap.mode),
        sort_key: match snap.sort {
            Some(k) => Some(k.column_name()),
            None => None,
        },
        filter: copy_filter(&snap.filter),
        seed: match snap.seed {
            Some(x) => Some(x as i64),
            None => None,
        },
        cursor: snap.cursor as i64,
    }
}

/// The mode a saved label names.
pub open spec fn mode_named(s: Seq<char>) -> Option<QueueMode> {
    if s == "shuffle"@ {
        Some(QueueMode::Shuffle)
    } else if s == "ascending"@ {
        Some(QueueMode::Ascending)
    } else if s == "descending"@ {
        Some(QueueMode::Descending)
    } else {
        None
    }
}

/// The sort key whose column a saved name names.
pub open spec fn sort_key_named(s: Seq<char>) -> Option<SortKey> {
    if s == "title"@ {
        Some(SortKey::Title)
    } else if s == "artist"@ {
        Some(SortKey::Artist)
    } else if s == "album"@ {
        Some(SortKey::Album)
    } else if s == "upload_date"@ {
        Some(SortKey::UploadDate)
    } else if s == "created_at"@ {
        Some(SortKey::DateAdded)
    } else if s == "play_count"@ {
        Some(SortKey::PlayCount)
    } else {
        None
    }
}

/// The mode a saved label names.
pub fn mode_from_label(s: &str) -> (m: Option<QueueMode>)
    ensures
        m == mode_named(s@),
{
    if str_eq(s, "shuffle") {
        Some(QueueMode::Shuffle)
    } else if str_eq(s, "ascending") {
        Some(QueueMode::Ascending)
    } else if str_eq(s, "descending") {
        Some(QueueMode::Descending)
    } else {
        None
    }
}

/// The sort key whose column a saved name names.
pub fn sort_key_from_column(s: &str) -> (k: Option<SortKey>)
    ensures
        k == sort_key_named(s@),
{
    if str_eq(s, "title") {
        Some(SortKey::Title)
    } else if str_eq(s, "artist") {
        Some(SortKey::Artist)
    } else if str_eq(s, "album") {
        Some(SortKey::Album)
    } else if str_eq(s, "upload_date") {
        Some(SortKey::UploadDate)
    } else if str_eq(s, "created_at") {
        Some(SortKey::DateAdded)
    } else if str_eq(s, "play_count") {
        Some(SortKey::PlayCount)
    } else {
        None
    }
}

/// The start that resumes a saved session, when the session can be resumed: a
/// shuffled one needs its seed, a sorted one its sort column. The saved filter is
/// used again; a cursor that is no position starts at the first track.
pub open spec fn resumed_plan(s: SavedView) -> Option<StartPlanView> {
    let cursor = if 0 <= s.cursor && s.cursor <= usize::MAX {
        s.cursor as int
    } else {
        0
    };
    match mode_named(s.mode) {
        Some(QueueMode::Shuffle) => match s.seed {
            Some(x) => Some(StartPlanView { queue: QueuePlanView::Shuffle(s.filter), seed: Some(x as u64), cursor }),
            None => None,
        },
        Some(m) => match s.sort_key {
            Some(col) => match sort_key_named(col) {
                Some(k) => Some(
                    StartPlanView {
                        queue: QueuePlanView::Sorted {
                            filter: s.filter,
                            sort_by: k,
                            descending: m == QueueMode::Descending,
                        },
                        seed: None,
                        cursor,
                    },
                ),
                None => None,
            },
            None => None,
        },
        None => None,
    }
}

/// The start that resumes a saved session, if it can be resumed.
pub fn resume_plan(saved: &SavedSession) -> (r: Option<StartPlan>)
    ensures
        match resumed_plan(saved@) {
            Some(p) => r matches Some(x) && x@ == p,
            None => r is None,
        },
{
    let cursor: usize = if 0 <= saved.cursor && saved.cursor as u64 <= usize::MAX as u64 {
        saved.cursor as usize
    } else {
        0
    };
    match mode_from_label(saved.mode.as_str()) {
        Some(QueueMode::Shuffle) => match saved.seed {
            Some(x) => Some(StartPlan { queue: QueuePlan::Shuffle(copy_filter(&saved.filter)), seed: Some(x as u64), cursor }),
            None => None,
        },
        Some(m) => match &saved.sort_key {
            Some(col) => match sort_key_from_column(col.as_str()) {
                Some(k) => Some(
                    StartPlan {
                        queue: QueuePlan::Sorted {
                            filter: copy_filter(&saved.filter),
                            sort_by: k,
                            descending: m == QueueMode::Descending,
                        },
                        seed: None,
                        cursor,
                    },
                ),
                None => None,
            },
            None => None,
        },
        None => None,
    }
}

/// Whether the command line names no filter of its own.
pub open spec fn no_filter_options(args: Cli) -> bool {
    &&& args.playlist is None
    &&& args.tag@.len() == 0
    &&& args.artist is None
    &&& args.album is None
}

/// How the first queue is built for a start-up command, as plain values.
pub open spec fn fresh_plan(c: CommandView) -> Result<QueuePlanView, Seq<char>> {
    match c {
        CommandView::Shuffle { filter } => Ok(QueuePlanView::Shuffle(filter)),
        CommandView::Ascending { sort_by, filter } => Ok(QueuePlanView::Sorted { filter, sort_by, descending: false }),
        CommandView::Descending { sort_by, filter } => Ok(QueuePlanView::Sorted { filter, sort_by, descending: true }),
        _ => Err(no_player_message()),
    }
}

/// How a player is started. A bare invocation that asks to continue, names no filter
/// and finds a session it can resume resumes it; otherwise the start-up command's
/// queue is built afresh, from the first track and with a fresh seed.
pub open spec fn start_plan_spec(args: Cli, saved: Option<SavedView>) -> Result<StartPlanView, Seq<char>> {
    if args.continue_session && args.command is None && no_filter_options(args) && saved is Some
        && resumed_plan(saved->0) is Some {
        Ok(resumed_plan(saved->0)->0)
    } else {
        match fresh_plan(startup_command(args)) {
            Ok(q) => Ok(StartPlanView { queue: q, seed: None, cursor: 0 }),
            Err(e) => Err(e),
        }
    }
}

/// How a player is started, given the session saved last, if any.
pub fn startup_plan(args: &Cli, saved: Option<SavedSession>) -> (r: Result<StartPlan, String>)
    ensures
        match start_plan_spec(*args, match saved {
            Some(s) => Some(s@),
            None => None,
        }) {
            Ok(p) => r matches Ok(x) && x@ == p,
            Err(e) => r matches Err(x) && x@ == e,
        },
{
    if args.continue_session && args.command.is_none() && args.playlist.is_none() && args.tag.len() == 0
        && args.artist.is_none() && args.album.is_none() {
        match &saved {
            Some(s) => match resume_plan(s) {
                Some(p) => return Ok(p),
                None => {},
            },
            None => {},
        }
    }
    let command = resolve_startup_command(args);
    match initial_queue_plan(&command) {
        Ok(q) => Ok(StartPlan { queue: q, seed: None, cursor: 0 }),
        Err(e) => Err(e),
    }
}

/// A session saved by the player and read back at the next start resumes as it was
/// left: the same mode, filter, sort key and seed, and the same cursor; and a bare
/// invocation that asks to continue and names no filter starts that way.
pub proof fn law_resume_restores_saved_session(args: Cli, snap: SnapshotView)
    requires
        snap.mode == QueueMode::Shuffle ==> snap.seed is Some,
        snap.mode != QueueMode::Shuffle ==> snap.sort is Some,
        0 <= snap.cursor <= i64::MAX,
        snap.cursor <= usize::MAX,
        args.continue_session,
        args.command is None,
        no_filter_options(args),
    ensures
        ({
            let p = StartPlanView {
                queue: if snap.mode == QueueMode::Shuffle {
                    QueuePlanView::Shuffle(snap.filter)
                } else {
                    QueuePlanView::Sorted {
                        filter: snap.filter,
                        sort_by: snap.sort->0,
                        descending: snap.mode == QueueMode::Descending,
                    }
                },
                seed: if snap.mode == QueueMode::Shuffle {
                    snap.seed
                } else {
                    None
                },
                cursor: snap.cursor,
            };
            &&& resumed_plan(saved_of(snap)) == Some(p)
            &&& start_plan_spec(args, Some(saved_of(snap))) == Ok::<StartPlanView, Seq<char>>(p)
        }),
{
    reveal_strlit("shuffle");
    reveal_strlit("ascending");
    reveal_strlit("descending");
    reveal_strlit("title");
    reveal_strlit("artist");
    reveal_strlit("album");
    reveal_strlit("upload_date");
    reveal_strlit("created_at");
    reveal_strlit("play_count");
    assert("shuffle"@[0] != "ascending"@[0]);
    assert("shuffle"@[0] != "descending"@[0]);
    assert("ascending"@[0] != "descending"@[0]);
    if let Some(x) = snap.seed {
        assert((x as i64) as u64 == x) by (bit_vector);
    }
    if let Some(k) = snap.sort {
        assert(sort_key_named(sort_column(k)) == Some(k)) by {
            assert("title"@[0] != "artist"@[0]);
            assert("title"@[0] != "album"@[0]);
            assert("title"@[0] != "upload_date"@[0]);
            assert("title"@[0] != "created_at"@[0]);
            assert("title"@[0] != "play_count"@[0]);
            assert("artist"@[1] != "album"@[1]);
            assert("artist"@[0] != "upload_date"@[0]);
            assert("artist"@[0] != "created_at"@[0]);
            assert("artist"@[0] != "play_count"@[0]);
            assert("album"@[0] != "upload_date"@[0]);
            assert("album"@[0] != "created_at"@[0]);
            assert("album"@[0] != "play_count"@[0]);
            assert("upload_date"@[0] != "created_at"@[0]);
            assert("upload_date"@[0] != "play_count"@[0]);
            assert("created_at"@[0] != "play_count"@[0]);
        }
    }
}

/// Each sort key names its own catalogue column, and each column name is read back
/// as that key; any other name is no sort key.
pub proof fn law_sort_key_columns()
    ensures
        sort_column(SortKey::Title) == "title"@,
        sort_column(SortKey::Artist) == "artist"@,
        sort_column(SortKey::Album) == "album"@,
        sort_column(SortKey::UploadDate) == "upload_date"@,
        sort_column(SortKey::DateAdded) == "created_at"@,
        sort_column(SortKey::PlayCount) == "play_count"@,
        sort_key_named("title"@) == Some(SortKey::Title),
        sort_key_named("artist"@) == Some(SortKey::Artist),
        sort_key_named("album"@) == Some(SortKey::Album),
        sort_key_named("upload_date"@) == Some(SortKey::UploadDate),
        sort_key_named("created_at"@) == Some(SortKey::DateAdded),
        sort_key_named("play_count"@) == Some(SortKey::PlayCount),
        forall|k: SortKey| sort_key_named(#[trigger] sort_column(k)) == Some(k),
        forall|n: Seq<char>| #[trigger] sort_key_named(n) matches Some(k) ==> sort_column(k) == n,
{
    reveal_strlit("title");
    reveal_strlit("artist");
    reveal_strlit("album");
    reveal_strlit("upload_date");
    reveal_strlit("created_at");
    reveal_strlit("play_count");
    assert("title"@[0] != "artist"@[0]);
    assert("title"@[0] != "album"@[0]);
    assert("title"@[0] != "upload_date"@[0]);
    assert("title"@[0] != "created_at"@[0]);
    assert("title"@[0] != "play_count"@[0]);
    assert("artist"@[1] != "album"@[1]);
    assert("artist"@[0] != "upload_date"@[0]);
    assert("artist"@[0] != "created_at"@[0]);
    assert("artist"@[0] != "play_count"@[0]);
    assert("album"@[0] != "upload_date"@[0]);
    assert("album"@[0] != "created_at"@[0]);
    assert("album"@[0] != "play_count"@[0]);
    assert("upload_date"@[0] != "created_at"@[0]);
    assert("upload_date"@[0] != "play_count"@[0]);
    assert("created_at"@[0] != "play_count"@[0]);
}

/// Each queue mode is saved under its own label, which reads back as that mode.
pub proof fn law_mode_labels()
    ensures
        mode_label_spec(QueueMode::Shuffle) == "shuffle"@,
        mode_label_spec(QueueMode::Ascending) == "ascending"@,
        mode_label_spec(QueueMode::Descending) == "descending"@,
        mode_named("shuffle"@) == Some(QueueMode::Shuffle),
        mode_named("ascending"@) == Some(QueueMode::Ascending),
        mode_named("descending"@) == Some(QueueMode::Descending),
        forall|m: QueueMode| mode_named(#[trigger] mode_label_spec(m)) == Some(m),
{
    reveal_strlit("shuffle");
    reveal_strlit("ascending");
    reveal_strlit("descending");
    assert("shuffle"@[0] != "ascending"@[0]);
    assert("shuffle"@[0] != "descending"@[0]);
    assert("ascending"@[0] != "descending"@[0]);
}

/// A command line that does not ask to continue, gives a command, or names any filter
/// of its own (a playlist, a tag, an artist or an album) starts afresh: the saved
/// session plays no part, the queue starts at its first track with a fresh seed, and
/// a bare invocation shuffles exactly the tracks its options name.
pub proof fn law_fresh_start_ignores_saved_session(args: Cli, s1: Option<SavedView>, s2: Option<SavedView>)
    requires
        !args.continue_session || args.command is Some || args.playlist is Some || args.tag@.len() > 0
            || args.artist is Some || args.album is Some,
    ensures
        start_plan_spec(args, s1) == start_plan_spec(args, s2),
        start_plan_spec(args, s1) matches Ok(p) ==> p.seed is None && p.cursor == 0,
        args.command is None ==> start_plan_spec(args, s1) == Ok::<StartPlanView, Seq<char>>(
            StartPlanView {
                queue: QueuePlanView::Shuffle(
                    FilterView {
                        playlist: opt_view(args.playlist),
                        tags: views(args.tag@),
                        artist: opt_view(args.artist),
                        album: opt_view(args.album),
                        match_mode: args.match_mode@,
                    },
                ),
                seed: None,
                cursor: 0,
            },
        ),
{
}

/// A bare invocation that asks to continue and names no filter resumes any saved
/// session that can be resumed.
pub proof fn law_bare_start_resumes(args: Cli, s: SavedView)
    requires
        args.continue_session,
        args.command is None,
        args.playlist is None,
        args.tag@.len() == 0,
        args.artist is None,
        args.album is None,
        resumed_plan(s) is Some,
    ensures
        start_plan_spec(args, Some(s)) == Ok::<StartPlanView, Seq<char>>(resumed_plan(s)->0),
{
}

} // verus!
