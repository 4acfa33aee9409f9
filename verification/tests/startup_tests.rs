use audiocrab::cli::{Browser, Cli, Commands, ConfigAction, FilterSpec, SortKey};
use audiocrab::controller::Snapshot;
use audiocrab::queue::QueueMode;
use audiocrab::startup::{initial_queue_plan, resolve_startup_command, route, saved_session, startup_plan, QueuePlan, Route, StartPlan};

fn args(command: Option<Commands>) -> Cli {
    Cli {
        download: None,
        playlist: Some("Mix".to_string()),
        tag: vec!["chill".to_string()],
        artist: None,
        album: Some("B".to_string()),
        match_mode: "or".to_string(),
        continue_session: true,
        cookies_from_browser: None,
        command,
    }
}

#[test]
fn startup_command_takes_the_command_line_filter() {
    match resolve_startup_command(&args(None)) {
        Commands::Shuffle { filter } => {
            assert_eq!(filter.playlist.as_deref(), Some("Mix"));
            assert_eq!(filter.tags, vec!["chill"]);
            assert_eq!(filter.album.as_deref(), Some("B"));
            assert_eq!(filter.match_mode, "or");
        }
        other => panic!("unexpected {other:?}"),
    }
    let c = resolve_startup_command(&args(Some(Commands::Ascending { sort_by: SortKey::Artist, filter: FilterSpec::default() })));
    assert!(matches!(c, Commands::Ascending { sort_by: SortKey::Artist, ref filter } if filter.match_mode == "or"));
    let c = resolve_startup_command(&args(Some(Commands::Like { weight: Some(3) })));
    assert!(matches!(c, Commands::Like { weight: Some(3) }));
}

#[test]
fn only_shuffle_and_sorting_start_a_player() {
    assert!(matches!(initial_queue_plan(&Commands::Shuffle { filter: FilterSpec::default() }), Ok(QueuePlan::Shuffle(_))));
    assert!(matches!(
        initial_queue_plan(&Commands::Descending { sort_by: SortKey::Title, filter: FilterSpec::default() }),
        Ok(QueuePlan::Sorted { sort_by: SortKey::Title, descending: true, .. })
    ));
    match initial_queue_plan(&Commands::Pause) {
        Err(e) => assert_eq!(e, "no player running - start one first with a bare invocation, shuffle, ascending, or descending"),
        Ok(_) => panic!("pause must not start a player"),
    }
}

#[test]
fn invocations_are_routed_in_order() {
    let config = args(Some(Commands::Config { action: ConfigAction::SetValue { key: "retries".to_string(), value: "3".to_string() } }));
    assert!(matches!(route(&config), Route::ConfigSet { ref key, ref value } if key == "retries" && value == "3"));
    let mut download = args(Some(Commands::Info));
    download.download = Some("https://x".to_string());
    download.cookies_from_browser = Some(Browser::Brave);
    assert!(matches!(route(&download), Route::Download { ref link, browser: Some(Browser::Brave) } if link == "https://x"));
    assert!(matches!(route(&args(Some(Commands::Info))), Route::Info));
    assert!(matches!(route(&args(Some(Commands::Playlists))), Route::ListPlaylists));
    assert!(matches!(route(&args(Some(Commands::Next))), Route::Player(Commands::Next)));
    assert!(matches!(route(&args(None)), Route::Player(Commands::Shuffle { .. })));
}

fn bare(continue_session: bool) -> Cli {
    Cli {
        download: None,
        playlist: None,
        tag: Vec::new(),
        artist: None,
        album: None,
        match_mode: "and".to_string(),
        continue_session,
        cookies_from_browser: None,
        command: None,
    }
}

fn saved_filter() -> FilterSpec {
    FilterSpec {
        playlist: Some("Evening".to_string()),
        tags: vec!["jazz".to_string()],
        artist: None,
        album: None,
        match_mode: "or".to_string(),
    }
}

#[test]
fn a_saved_shuffle_resumes_where_it_was_left() {
    let snap = Snapshot { mode: QueueMode::Shuffle, sort: None, filter: saved_filter(), seed: Some(u64::MAX - 5), cursor: 7 };
    let saved = saved_session(&snap);
    assert_eq!(saved.mode, "shuffle");
    assert_eq!(saved.sort_key, None);
    assert_eq!(saved.seed, Some((u64::MAX - 5) as i64));
    assert_eq!(saved.cursor, 7);
    let plan = startup_plan(&bare(true), Some(saved)).unwrap();
    assert_eq!(plan.seed, Some(u64::MAX - 5));
    assert_eq!(plan.cursor, 7);
    match plan.queue {
        QueuePlan::Shuffle(f) => {
            assert_eq!(f.playlist.as_deref(), Some("Evening"));
            assert_eq!(f.tags, vec!["jazz"]);
            assert_eq!(f.match_mode, "or");
        }
        other => panic!("unexpected {other:?}"),
    }
}

#[test]
fn a_saved_sort_resumes_with_its_column_and_direction() {
    let snap = Snapshot { mode: QueueMode::Descending, sort: Some(SortKey::DateAdded), filter: saved_filter(), seed: None, cursor: 2 };
    let saved = saved_session(&snap);
    assert_eq!(saved.mode, "descending");
    assert_eq!(saved.sort_key.as_deref(), Some("created_at"));
    let plan = startup_plan(&bare(true), Some(saved)).unwrap();
    assert_eq!(plan.cursor, 2);
    assert_eq!(plan.seed, None);
    assert!(matches!(plan.queue, QueuePlan::Sorted { sort_by: SortKey::DateAdded, descending: true, .. }));
}

#[test]
fn a_fresh_queue_when_resuming_is_not_asked_for_or_not_possible() {
    let snap = Snapshot { mode: QueueMode::Ascending, sort: Some(SortKey::Title), filter: saved_filter(), seed: None, cursor: 3 };
    let fresh = |plan: StartPlan| {
        assert_eq!(plan.cursor, 0);
        assert_eq!(plan.seed, None);
        assert!(matches!(plan.queue, QueuePlan::Shuffle(ref f) if f.playlist.is_none() && f.tags.is_empty()));
    };
    fresh(startup_plan(&bare(false), Some(saved_session(&snap))).unwrap());
    fresh(startup_plan(&bare(true), None).unwrap());
    let mut bad = saved_session(&snap);
    bad.mode = "sideways".to_string();
    fresh(startup_plan(&bare(true), Some(bad)).unwrap());
    let mut unsorted = saved_session(&snap);
    unsorted.sort_key = Some("colour".to_string());
    fresh(startup_plan(&bare(true), Some(unsorted)).unwrap());
    let mut seedless = saved_session(&snap);
    seedless.mode = "shuffle".to_string();
    fresh(startup_plan(&bare(true), Some(seedless)).unwrap());
    let mut negative = saved_session(&snap);
    negative.cursor = -4;
    assert_eq!(startup_plan(&bare(true), Some(negative)).unwrap().cursor, 0);
    let mut filtered = bare(true);
    filtered.artist = Some("X".to_string());
    let plan = startup_plan(&filtered, Some(saved_session(&snap))).unwrap();
    assert_eq!(plan.cursor, 0);
    assert!(matches!(plan.queue, QueuePlan::Shuffle(ref f) if f.artist.as_deref() == Some("X")));
    let mut sorted = bare(true);
    sorted.command = Some(Commands::Ascending { sort_by: SortKey::Album, filter: FilterSpec::default() });
    let plan = startup_plan(&sorted, Some(saved_session(&snap))).unwrap();
    assert!(matches!(plan.queue, QueuePlan::Sorted { sort_by: SortKey::Album, descending: false, .. }));
    assert_eq!(plan.cursor, 0);
    let mut pause = bare(true);
    pause.command = Some(Commands::Pause);
    assert!(startup_plan(&pause, Some(saved_session(&snap))).is_err());
}
