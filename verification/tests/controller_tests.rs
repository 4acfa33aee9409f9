use audiocrab::cli::{Commands, ConfigAction, FilterSpec, SortKey, TagsAction};
use audiocrab::controller::{mode_label, player_name, Action, Controller, Halt, Reply, Stage};
use audiocrab::queue::{PlaybackQueue, QueueMode};

fn queue(names: &[&str]) -> PlaybackQueue {
    PlaybackQueue::new_sorted(names.iter().map(|s| s.to_string()).collect(), QueueMode::Ascending)
}

fn started(names: &[&str]) -> Controller {
    let mut c = Controller::new(queue(names), FilterSpec::default(), Some(SortKey::Title));
    let acts = c.start();
    assert!(matches!(&acts[..], [Action::LoadTrack(id)] if id == names[0]));
    let acts = c.on_loaded(true);
    if names.len() > 1 {
        assert!(matches!(&acts[..], [Action::LoadTrack(id)] if id == names[1]));
        let acts = c.on_loaded(true);
        assert!(matches!(&acts[..], [Action::Persist(_)]));
    } else {
        assert!(matches!(&acts[..], [Action::LoadTrack(id)] if id == names[0]));
        let acts = c.on_loaded(true);
        assert!(matches!(&acts[..], [Action::Persist(_)]));
    }
    assert_eq!(c.stage_now(), Stage::Ready);
    c
}

fn is_ack(a: &Action) -> bool {
    matches!(a, Action::Reply(Reply::Ack))
}

#[test]
fn an_empty_queue_stops_the_controller() {
    let mut c = Controller::new(queue(&[]), FilterSpec::default(), None);
    let acts = c.start();
    assert!(matches!(&acts[..], [Action::Halt(Halt::NoMatchingTracks)]));
    assert_eq!(c.stage_now(), Stage::Stopped);
    assert!(c.on_command(Commands::Play).is_empty());
}

#[test]
fn start_searches_for_a_playable_track() {
    let mut c = Controller::new(queue(&["a", "b", "c"]), FilterSpec::default(), None);
    c.start();
    let acts = c.on_loaded(false);
    assert!(matches!(&acts[..], [Action::LoadTrack(id)] if id == "a"));
    let acts = c.on_loaded(false);
    assert!(matches!(&acts[..], [Action::LoadTrack(id)] if id == "b"));
    let acts = c.on_loaded(true);
    assert!(matches!(&acts[..], [Action::LoadTrack(id)] if id == "c"));
    assert_eq!(c.queue().current_id(), Some("b"));
    let acts = c.on_loaded(false);
    assert!(matches!(&acts[..], [Action::LoadTrack(id)] if id == "a"));
    let acts = c.on_loaded(false);
    assert!(matches!(&acts[..], [Action::LoadTrack(id)] if id == "b"));
    let acts = c.on_loaded(false);
    assert!(matches!(&acts[..], [Action::Persist(s)] if s.cursor == 1 && s.mode == QueueMode::Ascending));
}

#[test]
fn start_stops_when_nothing_plays() {
    let mut c = Controller::new(queue(&["a", "b"]), FilterSpec::default(), None);
    c.start();
    c.on_loaded(false);
    c.on_loaded(false);
    let acts = c.on_loaded(false);
    assert!(matches!(&acts[..], [Action::Halt(Halt::NoPlayableTracks)]));
    assert_eq!(c.stage_now(), Stage::Stopped);
}

#[test]
fn simple_commands_are_acknowledged() {
    let mut c = started(&["a", "b"]);
    let acts = c.on_command(Commands::Pause);
    assert!(matches!(&acts[0], Action::Pause) && is_ack(&acts[1]));
    let acts = c.on_command(Commands::SetVolume { level: 150 });
    assert!(matches!(&acts[0], Action::SetVolume(150)) && is_ack(&acts[1]));
    let acts = c.on_command(Commands::VolumeUp);
    assert!(matches!(&acts[0], Action::VolumeUp) && is_ack(&acts[1]));
    let acts = c.on_command(Commands::Name);
    assert!(matches!(&acts[..], [Action::Reply(Reply::Name)]));
    assert_eq!(player_name(), "audiocrab");
    let acts = c.on_command(Commands::Info);
    assert!(matches!(&acts[..], [Action::Reply(Reply::Info { current: Some(id), position: 0, length: 2 })] if id == "a"));
    for cmd in [Commands::Playlists, Commands::Tags { action: TagsAction::List }, Commands::Config { action: ConfigAction::Path }] {
        let acts = c.on_command(cmd);
        assert!(matches!(&acts[..], [Action::Reply(Reply::Error(e))] if e == "command is not handled by the player"));
    }
}

#[test]
fn play_resumes_or_reloads() {
    let mut c = started(&["a", "b"]);
    let acts = c.on_command(Commands::Play);
    assert!(matches!(&acts[..], [Action::CheckPlayerEmpty]));
    let acts = c.on_player_empty(false);
    assert!(matches!(&acts[0], Action::Play) && is_ack(&acts[1]));
    c.on_command(Commands::Play);
    let acts = c.on_player_empty(true);
    assert!(matches!(&acts[..], [Action::LoadTrack(id)] if id == "a"));
    let acts = c.on_loaded(true);
    assert!(matches!(&acts[..], [Action::LoadTrack(id)] if id == "b"));
    let acts = c.on_loaded(true);
    assert!(matches!(&acts[0], Action::Play) && is_ack(&acts[1]));
}

#[test]
fn next_and_previous_move_the_queue() {
    let mut c = started(&["a", "b", "c"]);
    let acts = c.on_command(Commands::Next);
    assert!(matches!(&acts[..], [Action::SkipOne, Action::LoadTrack(id)] if id == "c"));
    assert_eq!(c.queue().current_id(), Some("b"));
    let acts = c.on_loaded(true);
    assert!(matches!(&acts[0], Action::Persist(s) if s.cursor == 1) && is_ack(&acts[1]));
    let acts = c.on_command(Commands::Previous);
    assert!(matches!(&acts[..], [Action::Stop, Action::LoadTrack(id)] if id == "a"));
    let acts = c.on_loaded(false);
    assert!(matches!(&acts[..], [Action::LoadTrack(id)] if id == "b"));
    let acts = c.on_loaded(true);
    assert!(matches!(&acts[0], Action::Persist(s) if s.cursor == 0) && is_ack(&acts[1]));
}

#[test]
fn only_the_expected_track_finishing_counts() {
    let mut c = started(&["a", "b"]);
    assert!(c.on_track_finished("b").is_empty());
    let acts = c.on_track_finished("a");
    assert!(matches!(&acts[..], [Action::RecordPlay(id), Action::LoadTrack(next)] if id == "a" && next == "a"));
    assert_eq!(c.queue().current_id(), Some("b"));
    let acts = c.on_loaded(true);
    assert!(matches!(&acts[..], [Action::Persist(_)]));
    assert!(c.on_track_finished("a").is_empty());
}

#[test]
fn likes_store_a_bounded_weight() {
    let mut c = started(&["a"]);
    for (asked, stored) in [(None, 2u8), (Some(0), 1), (Some(7), 7), (Some(200), 10)] {
        let acts = c.on_command(Commands::Like { weight: asked });
        assert!(matches!(&acts[..], [Action::StoreWeight { id, weight }] if id == "a" && *weight == stored));
        let acts = c.on_weight_stored(Ok(()));
        assert!(is_ack(&acts[0]));
    }
    c.on_command(Commands::Like { weight: None });
    let acts = c.on_weight_stored(Err("locked".to_string()));
    assert!(matches!(&acts[..], [Action::Reply(Reply::Error(e))] if e == "locked"));
}

#[test]
fn rebuilding_keeps_the_current_track() {
    let mut c = started(&["a", "b", "c"]);
    c.on_command(Commands::Next);
    c.on_loaded(true);
    let acts = c.on_command(Commands::Descending { sort_by: SortKey::PlayCount, filter: FilterSpec::default() });
    assert!(matches!(&acts[..], [Action::FetchSorted { sort_by: SortKey::PlayCount, descending: true, .. }]));
    let acts = c.on_sorted(Ok(vec!["c".to_string(), "b".to_string(), "a".to_string()]));
    assert!(matches!(&acts[0], Action::Persist(s) if s.cursor == 1 && s.mode == QueueMode::Descending && s.sort == Some(SortKey::PlayCount)));
    assert_eq!(c.queue().current_id(), Some("b"));
    let acts = c.on_command(Commands::Shuffle { filter: FilterSpec::default() });
    assert!(matches!(&acts[..], [Action::FetchShuffled(_)]));
    let shuffled = PlaybackQueue::new_shuffle_ordered(vec!["x".to_string(), "y".to_string()], 5);
    let acts = c.on_shuffled(Ok(shuffled));
    assert!(matches!(&acts[0], Action::Persist(s) if s.cursor == 0 && s.seed == Some(5) && s.sort.is_none()));
    assert_eq!(c.queue().current_id(), Some("x"));
    c.on_command(Commands::Shuffle { filter: FilterSpec::default() });
    let acts = c.on_shuffled(Err("database is locked".to_string()));
    assert!(matches!(&acts[..], [Action::Reply(Reply::Error(e))] if e == "database is locked"));
    assert_eq!(c.queue().current_id(), Some("x"));
}

#[test]
fn audio_failures_reload_the_expected_track() {
    let mut c = started(&["a", "b"]);
    let acts = c.on_audio_failure();
    assert!(matches!(&acts[..], [Action::RecoverAudio]));
    let acts = c.on_audio_recovered(true);
    assert!(matches!(&acts[..], [Action::LoadTrack(id)] if id == "a"));
    let acts = c.on_loaded(true);
    assert!(matches!(&acts[..], [Action::LoadTrack(id)] if id == "b"));
    assert!(c.on_loaded(true).is_empty());
    c.on_audio_failure();
    assert!(c.on_audio_recovered(false).is_empty());
    assert_eq!(c.stage_now(), Stage::Ready);
}

#[test]
fn quit_acknowledges_then_shuts_down() {
    let mut c = started(&["a"]);
    let acts = c.on_command(Commands::Quit);
    assert!(is_ack(&acts[0]) && matches!(&acts[1], Action::Shutdown));
    assert_eq!(c.stage_now(), Stage::Stopped);
    assert_eq!(mode_label(QueueMode::Shuffle), "shuffle");
    assert_eq!(mode_label(QueueMode::Descending), "descending");
}

/// Answers every question the controller asks, as the player process does, and checks
/// that each step ends settled or with the question it waits for.
fn drive(c: &mut Controller, mut acts: Vec<Action>, loads_ok: bool) {
    loop {
        let settled = matches!(c.stage_now(), Stage::Ready | Stage::Stopped | Stage::NotStarted);
        if settled {
            return;
        }
        acts = match acts.last() {
            Some(Action::LoadTrack(_)) => c.on_loaded(loads_ok),
            Some(Action::CheckPlayerEmpty) => c.on_player_empty(true),
            Some(Action::RecoverAudio) => c.on_audio_recovered(true),
            Some(Action::FetchShuffled(_)) => c.on_shuffled(Ok(PlaybackQueue::new_shuffle_ordered(vec!["c".to_string(), "a".to_string()], 5))),
            Some(Action::FetchSorted { .. }) => c.on_sorted(Ok(vec!["a".to_string(), "b".to_string()])),
            Some(Action::StoreWeight { .. }) => c.on_weight_stored(Ok(())),
            other => panic!("waiting in {:?} after {:?}", c.stage_now(), other),
        };
    }
}

#[test]
fn answered_steps_settle_before_the_next_message() {
    for loads_ok in [true, false] {
        let mut c = Controller::new(queue(&["a", "b", "c"]), FilterSpec::default(), None);
        let acts = c.start();
        drive(&mut c, acts, loads_ok);
        let commands = vec![
            Commands::Play,
            Commands::Next,
            Commands::Previous,
            Commands::Like { weight: None },
            Commands::Shuffle { filter: FilterSpec::default() },
            Commands::Descending { sort_by: SortKey::Album, filter: FilterSpec::default() },
            Commands::Pause,
        ];
        for cmd in commands {
            if c.stage_now() == Stage::Stopped {
                break;
            }
            let acts = c.on_command(cmd);
            drive(&mut c, acts, loads_ok);
            let acts = c.on_audio_failure();
            drive(&mut c, acts, loads_ok);
            let acts = c.on_track_finished("a");
            drive(&mut c, acts, loads_ok);
        }
    }
}
