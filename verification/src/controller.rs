//! The player's controller: what it does on each command, finished track and audio
//! failure. It decides; the caller performs each action it returns and, where an
//! action asks a question, hands the answer back.

use vstd::prelude::*;
use crate::catalog::clone_strings;
use crate::cli::{Commands, FilterSpec, FilterView, SortKey};
use crate::queue::{PlaybackQueue, QueueMode, first_index_of, ring_ahead, ring_next, ring_prev, views};
use crate::text::opt_view;

verus! {

/// What the controller does once the track after the current one is queued.
#[derive(Debug, Clone, Copy, PartialEq, Eq, Structural)]
pub enum After {
    /// The player has just started: the state is saved.
    Startup,
    /// A play command: playback resumes and the command is acknowledged.
    Play,
    /// A track finished: the state is saved.
    Finished,
    /// The audio output was replaced: nothing more.
    Recovered,
    /// A next or skip command: the state is saved and the command acknowledged.
    Next,
    /// A previous command: the state is saved and the command acknowledged.
    Previous,
}

/// Why the controller looks for a playable track.
#[derive(Debug, Clone, Copy, PartialEq, Eq, Structural)]
pub enum Origin {
    Startup,
    Play,
}

/// What the controller is waiting for.
#[derive(Debug, Clone, Copy, PartialEq, Eq, Structural)]
pub enum Stage {
    /// Not started yet.
    NotStarted,
    /// Ready for the next message.
    Ready,
    /// Stopped for good.
    Stopped,
    /// Waiting for the current track to load.
    LoadingCurrent(Origin),
    /// Trying the tracks in turn from the current one, `tries_left` loads still allowed.
    Searching { tries_left: usize, origin: Origin },
    /// Waiting for a track to load again; the result does not matter.
    Reloading(After),
    /// Waiting for the track `offset` places ahead to load; at most `limit` places are tried.
    LookingAhead { offset: usize, limit: usize, after: After },
    /// Waiting to learn whether the player has nothing queued.
    CheckingPlayer,
    /// Waiting for the audio output to be replaced.
    Recovering,
    /// Waiting for a shuffled queue.
    Shuffling,
    /// Waiting for the sorted ids.
    Sorting { sort_by: SortKey, descending: bool },
    /// Waiting for a like to be stored.
    StoringWeight,
}

/// Why the controller stopped without being asked to.
#[derive(Debug, Clone, Copy, PartialEq, Eq, Structural)]
pub enum Halt {
    /// The queue it was given is empty.
    NoMatchingTracks,
    /// No track of the queue could be loaded.
    NoPlayableTracks,
}

/// The player state that is saved for the next session.
#[derive(Debug, Clone)]
pub struct Snapshot {
    pub mode: QueueMode,
    pub sort: Option<SortKey>,
    pub filter: FilterSpec,
    pub seed: Option<u64>,
    pub cursor: usize,
}

/// A saved player state as plain values.
pub struct SnapshotView {
    pub mode: QueueMode,
    pub sort: Option<SortKey>,
    pub filter: FilterView,
    pub seed: Option<u64>,
    pub cursor: int,
}

impl View for Snapshot {
    type V = SnapshotView;

    open spec fn view(&self) -> SnapshotView {
        SnapshotView {
            mode: self.mode,
            sort: self.sort,
            filter: self.filter@,
            seed: self.seed,
            cursor: self.cursor as int,
        }
    }
}

/// The answer to a command.
#[derive(Debug, Clone)]
pub enum Reply {
    Ack,
    /// The player's name.
    Name,
    /// The current track, the position of the cursor and the length of the queue;
    /// the caller adds the player's own state and the track's catalogue entry.
    Info { current: Option<String>, position: usize, length: usize },
    Error(String),
}

/// An answer as plain values.
pub enum ReplyView {
    Ack,
    Name,
    Info { current: Option<Seq<char>>, position: int, length: int },
    Error(Seq<char>),
}

impl View for Reply {
    type V = ReplyView;

    open spec fn view(&self) -> ReplyView {
        match self {
            Reply::Ack => ReplyView::Ack,
            Reply::Name => ReplyView::Name,
            Reply::Info { current, position, length } => ReplyView::Info {
                current: opt_view(*current),
                position: *position as int,
                length: *length as int,
            },
            Reply::Error(e) => ReplyView::Error(e@),
        }
    }
}

/// What the controller asks the caller to do. The actions marked "answer" expect the
/// caller to hand back their result before anything else.
#[derive(Debug, Clone)]
pub enum Action {
    /// Queue the track's audio on the player; answer whether that worked.
    LoadTrack(String),
    /// Answer whether the player has nothing queued.
    CheckPlayerEmpty,
    /// Replace the audio output; answer whether that worked.
    RecoverAudio,
    /// Shuffle the matching tracks with a fresh seed; answer with the new queue.
    FetchShuffled(FilterSpec),
    /// List the matching tracks sorted; answer with their ids.
    FetchSorted { filter: FilterSpec, sort_by: SortKey, descending: bool },
    /// Store the track's weight; answer whether that worked.
    StoreWeight { id: String, weight: u8 },
    /// Count one more play of the track.
    RecordPlay(String),
    Play,
    Pause,
    Stop,
    SkipOne,
    /// Set the volume to `level` percent.
    SetVolume(u8),
    VolumeUp,
    VolumeDown,
    /// Save the player state.
    Persist(Snapshot),
    Reply(Reply),
    /// Stop the player after a quit command.
    Shutdown,
    /// Stop the controller.
    Halt(Halt),
}

/// An action as plain values.
pub enum ActionView {
    LoadTrack(Seq<char>),
    CheckPlayerEmpty,
    RecoverAudio,
    FetchShuffled(FilterView),
    FetchSorted { filter: FilterView, sort_by: SortKey, descending: bool },
    StoreWeight { id: Seq<char>, weight: u8 },
    RecordPlay(Seq<char>),
    Play,
    Pause,
    Stop,
    SkipOne,
    SetVolume(u8),
    VolumeUp,
    VolumeDown,
    Persist(SnapshotView),
    Reply(ReplyView),
    Shutdown,
    Halt(Halt),
}

impl View for Action {
    type V = ActionView;

    open spec fn view(&self) -> ActionView {
        match self {
            Action::LoadTrack(id) => ActionView::LoadTrack(id@),
            Action::CheckPlayerEmpty => ActionView::CheckPlayerEmpty,
            Action::RecoverAudio => ActionView::RecoverAudio,
            Action::FetchShuffled(f) => ActionView::FetchShuffled(f@),
            Action::FetchSorted { filter, sort_by, descending } => ActionView::FetchSorted {
                filter: filter@,
                sort_by: *sort_by,
                descending: *descending,
            },
            Action::StoreWeight { id, weight } => ActionView::StoreWeight { id: id@, weight: *weight },
            Action::RecordPlay(id) => ActionView::RecordPlay(id@),
            Action::Play => ActionView::Play,
            Action::Pause => ActionView::Pause,
            Action::Stop => ActionView::Stop,
            Action::SkipOne => ActionView::SkipOne,
            Action::SetVolume(l) => ActionView::SetVolume(*l),
            Action::VolumeUp => ActionView::VolumeUp,
            Action::VolumeDown => ActionView::VolumeDown,
            Action::Persist(s) => ActionView::Persist(s@),
            Action::Reply(r) => ActionView::Reply(r@),
            Action::Shutdown => ActionView::Shutdown,
            Action::Halt(h) => ActionView::Halt(*h),
        }
    }
}

/// The plain form of a list of actions.
pub open spec fn action_views(v: Seq<Action>) -> Seq<ActionView> {
    v.map_values(|a: Action| a@)
}

/// The track at position `pos`, if the queue has any.
pub open spec fn track_at(ids: Seq<Seq<char>>, pos: int) -> Option<Seq<char>> {
    if ids.len() > 0 {
        Some(ids[pos])
    } else {
        None
    }
}

/// The actions that close a flow once the next track is queued.
pub open spec fn finish_actions(after: After, snap: SnapshotView) -> Seq<ActionView> {
    match after {
        After::Startup | After::Finished => seq![ActionView::Persist(snap)],
        After::Play => seq![ActionView::Play, ActionView::Reply(ReplyView::Ack)],
        After::Recovered => Seq::empty(),
        After::Next | After::Previous => seq![
            ActionView::Persist(snap),
            ActionView::Reply(ReplyView::Ack),
        ],
    }
}

/// The stage and actions that start queueing the track after the current one: try
/// the next place, or close the flow at once when the queue is empty.
pub open spec fn lookahead_start(ids: Seq<Seq<char>>, pos: int, after: After, snap: SnapshotView) -> (Stage, Seq<ActionView>) {
    if ids.len() == 0 {
        (Stage::Ready, finish_actions(after, snap))
    } else {
        (
            Stage::LookingAhead { offset: 1, limit: ids.len() as usize, after },
            seq![ActionView::LoadTrack(ids[ring_ahead(pos, 1, ids.len() as int)])],
        )
    }
}

/// The weight a like stores: the one asked for, 2 by default, kept within 1 to 10.
pub open spec fn like_weight(w: Option<u8>) -> u8 {
    let v = match w {
        Some(x) => x,
        None => 2u8,
    };
    if v < 1 {
        1
    } else if v > 10 {
        10
    } else {
        v
    }
}

/// The flow a search for a playable track belongs to.
pub open spec fn after_of(o: Origin) -> After {
    match o {
        Origin::Startup => After::Startup,
        Origin::Play => After::Play,
    }
}

fn after_for(o: Origin) -> (a: After)
    ensures
        a == after_of(o),
{
    match o {
        Origin::Startup => After::Startup,
        Origin::Play => After::Play,
    }
}

/// What a search that found nothing playable leaves: at start-up the controller
/// stops; after a play command the expected track is cleared and the next track is
/// queued.
pub open spec fn search_failed_post(a: Controller, b: Controller, origin: Origin, before: Seq<Action>, after: Seq<Action>) -> bool {
    match origin {
        Origin::Startup => {
            &&& b.stage() == Stage::Stopped
            &&& b.expected_id() == a.expected_id()
            &&& action_views(after) == action_views(before).push(
                ActionView::Halt(Halt::NoPlayableTracks),
            )
        },
        Origin::Play => {
            let (st, acts) = lookahead_start(a.ids(), a.position(), After::Play, a.snapshot_view());
            &&& b.expected_id() is None
            &&& b.stage() == st
            &&& action_views(after) == action_views(before) + acts
        },
    }
}

/// What finding a playable current track does: it becomes the expected track, and
/// the next track is queued.
pub open spec fn found_post(a: Controller, b: Controller, origin: Origin, acts: Seq<ActionView>) -> bool {
    let (st, la) = lookahead_start(a.ids(), a.position(), after_of(origin), a.snapshot_view());
    &&& b.queue_spec() == a.queue_spec()
    &&& b.expected_id() == a.current()
    &&& b.stage() == st
    &&& acts == la
}

/// What taking the result `ok` of a load does, by stage.
pub open spec fn loaded_post(a: Controller, b: Controller, ok: bool, acts: Seq<ActionView>) -> bool {
    match a.stage() {
        Stage::LoadingCurrent(origin) if ok => found_post(a, b, origin, acts),
        Stage::Searching { origin, .. } if ok => found_post(a, b, origin, acts),
        Stage::LoadingCurrent(origin) => {
            &&& b.queue_spec() == a.queue_spec()
            &&& a.ids().len() > 0 ==> {
                &&& b.expected_id() is None
                &&& b.stage() == (Stage::Searching { tries_left: a.ids().len() as usize, origin })
                &&& acts == seq![ActionView::LoadTrack(a.ids()[a.position()])]
            }
            &&& a.ids().len() == 0 ==> (origin == Origin::Startup ==> b.stage() == Stage::Stopped
                && acts == seq![ActionView::Halt(Halt::NoPlayableTracks)])
                && (origin == Origin::Play ==> b.expected_id() is None && b.stage() == Stage::Ready
                && acts == finish_actions(After::Play, a.snapshot_view()))
        },
        Stage::Searching { tries_left, origin } => {
            &&& b.ids() == a.ids()
            &&& b.queue_spec().queue_mode() == a.queue_spec().queue_mode()
            &&& b.queue_spec().shuffle_seed() == a.queue_spec().shuffle_seed()
            &&& a.ids().len() > 0 ==> b.position() == ring_next(a.position(), a.ids().len() as int)
            &&& a.ids().len() == 0 ==> b.position() == a.position()
            &&& (tries_left <= 1 || a.ids().len() == 0) ==> (origin == Origin::Startup ==> b.stage() == Stage::Stopped
                && b.expected_id() == a.expected_id()
                && acts == seq![ActionView::Halt(Halt::NoPlayableTracks)])
                && (origin == Origin::Play ==> {
                    let (st, la) = lookahead_start(b.ids(), b.position(), After::Play, b.snapshot_view());
                    &&& b.expected_id() is None
                    &&& b.stage() == st
                    &&& acts == la
                })
            &&& (tries_left > 1 && a.ids().len() > 0) ==> {
                &&& b.expected_id() == a.expected_id()
                &&& b.stage() == (Stage::Searching { tries_left: (tries_left - 1) as usize, origin })
                &&& acts == seq![ActionView::LoadTrack(b.ids()[b.position()])]
            }
        },
        Stage::Reloading(after) => {
            let (st, la) = lookahead_start(a.ids(), a.position(), after, a.snapshot_view());
            &&& b.queue_spec() == a.queue_spec()
            &&& b.expected_id() == a.expected_id()
            &&& b.stage() == st
            &&& acts == la
        },
        Stage::LookingAhead { offset, limit, after } => {
            &&& b.queue_spec() == a.queue_spec()
            &&& b.expected_id() == a.expected_id()
            &&& if !ok && offset < limit && a.ids().len() > 0 {
                &&& b.stage() == (Stage::LookingAhead { offset: (offset + 1) as usize, limit, after })
                &&& acts == seq![
                    ActionView::LoadTrack(a.ids()[ring_ahead(a.position(), offset + 1, a.ids().len() as int)]),
                ]
            } else {
                &&& b.stage() == Stage::Ready
                &&& acts == finish_actions(after, a.snapshot_view())
            }
        },
        _ => {
            &&& b.queue_spec() == a.queue_spec()
            &&& b.expected_id() == a.expected_id()
            &&& b.stage() == a.stage()
            &&& acts.len() == 0
        },
    }
}

/// Whether only the stage changed between `a` and `b`.
pub open spec fn same_state(a: Controller, b: Controller) -> bool {
    &&& b.queue_spec() == a.queue_spec()
    &&& b.expected_id() == a.expected_id()
    &&& b.filter_view() == a.filter_view()
    &&& b.sort_key() == a.sort_key()
    &&& b.pending() == a.pending()
}

/// The answer to commands the player does not handle.
pub open spec fn unhandled_message() -> Seq<char> {
    "command is not handled by the player"@
}

/// The answer to a like when there is no current track.
pub open spec fn no_track_message() -> Seq<char> {
    "no current track"@
}

/// What a command does to a ready controller.
pub open spec fn command_post(a: Controller, b: Controller, cmd: Commands, acts: Seq<ActionView>) -> bool {
    match cmd {
        Commands::Play => same_state(a, b) && b.stage() == Stage::CheckingPlayer && acts == seq![
            ActionView::CheckPlayerEmpty,
        ],
        Commands::Pause => same_state(a, b) && b.stage() == Stage::Ready && acts == seq![
            ActionView::Pause,
            ActionView::Reply(ReplyView::Ack),
        ],
        Commands::Quit => same_state(a, b) && b.stage() == Stage::Stopped && acts == seq![
            ActionView::Reply(ReplyView::Ack),
            ActionView::Shutdown,
        ],
        Commands::SetVolume { level } => same_state(a, b) && b.stage() == Stage::Ready && acts
            == seq![ActionView::SetVolume(level), ActionView::Reply(ReplyView::Ack)],
        Commands::VolumeUp => same_state(a, b) && b.stage() == Stage::Ready && acts == seq![
            ActionView::VolumeUp,
            ActionView::Reply(ReplyView::Ack),
        ],
        Commands::VolumeDown => same_state(a, b) && b.stage() == Stage::Ready && acts == seq![
            ActionView::VolumeDown,
            ActionView::Reply(ReplyView::Ack),
        ],
        Commands::Next | Commands::Skip => {
            let (st, la) = lookahead_start(b.ids(), b.position(), After::Next, b.snapshot_view());
            &&& b.ids() == a.ids()
            &&& b.queue_spec().queue_mode() == a.queue_spec().queue_mode()
            &&& b.queue_spec().shuffle_seed() == a.queue_spec().shuffle_seed()
            &&& a.ids().len() > 0 ==> b.position() == ring_next(a.position(), a.ids().len() as int)
            &&& a.ids().len() == 0 ==> b.position() == a.position()
            &&& b.expected_id() == b.current()
            &&& b.filter_view() == a.filter_view()
            &&& b.sort_key() == a.sort_key()
            &&& b.pending() == a.pending()
            &&& b.stage() == st
            &&& acts == seq![ActionView::SkipOne] + la
        },
        Commands::Previous => {
            let (st, la) = lookahead_start(b.ids(), b.position(), After::Previous, b.snapshot_view());
            &&& b.ids() == a.ids()
            &&& b.queue_spec().queue_mode() == a.queue_spec().queue_mode()
            &&& b.queue_spec().shuffle_seed() == a.queue_spec().shuffle_seed()
            &&& a.ids().len() > 0 ==> b.position() == ring_prev(a.position(), a.ids().len() as int)
            &&& a.ids().len() == 0 ==> b.position() == a.position()
            &&& b.expected_id() == b.current()
            &&& b.filter_view() == a.filter_view()
            &&& b.sort_key() == a.sort_key()
            &&& b.pending() == a.pending()
            &&& match b.current() {
                Some(id) => b.stage() == Stage::Reloading(After::Previous) && acts == seq![
                    ActionView::Stop,
                    ActionView::LoadTrack(id),
                ],
                None => b.stage() == st && acts == seq![ActionView::Stop] + la,
            }
        },
        Commands::Like { weight } => same_state(a, b) && match a.current() {
            Some(id) => b.stage() == Stage::StoringWeight && acts == seq![
                ActionView::StoreWeight { id, weight: like_weight(weight) },
            ],
            None => b.stage() == Stage::Ready && acts == seq![
                ActionView::Reply(ReplyView::Error(no_track_message())),
            ],
        },
        Commands::Shuffle { filter } => {
            &&& b.queue_spec() == a.queue_spec()
            &&& b.expected_id() == a.expected_id()
            &&& b.filter_view() == a.filter_view()
            &&& b.sort_key() == a.sort_key()
            &&& b.pending() == Some(filter@)
            &&& b.stage() == Stage::Shuffling
            &&& acts == seq![ActionView::FetchShuffled(filter@)]
        },
        Commands::Ascending { sort_by, filter } => {
            &&& b.queue_spec() == a.queue_spec()
            &&& b.expected_id() == a.expected_id()
            &&& b.filter_view() == a.filter_view()
            &&& b.sort_key() == a.sort_key()
            &&& b.pending() == Some(filter@)
            &&& b.stage() == (Stage::Sorting { sort_by, descending: false })
            &&& acts == seq![ActionView::FetchSorted { filter: filter@, sort_by, descending: false }]
        },
        Commands::Descending { sort_by, filter } => {
            &&& b.queue_spec() == a.queue_spec()
            &&& b.expected_id() == a.expected_id()
            &&& b.filter_view() == a.filter_view()
            &&& b.sort_key() == a.sort_key()
            &&& b.pending() == Some(filter@)
            &&& b.stage() == (Stage::Sorting { sort_by, descending: true })
            &&& acts == seq![ActionView::FetchSorted { filter: filter@, sort_by, descending: true }]
        },
        Commands::Info => same_state(a, b) && b.stage() == Stage::Ready && acts == seq![
            ActionView::Reply(
                ReplyView::Info {
                    current: a.current(),
                    position: a.position(),
                    length: a.ids().len() as int,
                },
            ),
        ],
        Commands::Name => same_state(a, b) && b.stage() == Stage::Ready && acts == seq![
            ActionView::Reply(ReplyView::Name),
        ],
        _ => same_state(a, b) && b.stage() == Stage::Ready && acts == seq![
            ActionView::Reply(ReplyView::Error(unhandled_message())),
        ],
    }
}

fn like_weight_of(w: Option<u8>) -> (r: u8)
    ensures
        r == like_weight(w),
{
    let v = match w {
        Some(x) => x,
        None => 2,
    };
    if v < 1 {
        1
    } else if v > 10 {
        10
    } else {
        v
    }
}

/// The state after a rebuilt queue is put in place: the queue has the given ids,
/// mode and seed; the track that was current stays current when the new queue holds
/// it (else the queue starts at `start`); the pending filter and the sort key become
/// current; the state is saved and the command acknowledged.
pub open spec fn rebuilt_post(
    a: Controller,
    b: Controller,
    ids: Seq<Seq<char>>,
    mode: QueueMode,
    seed: Option<u64>,
    start: int,
    sort: Option<SortKey>,
    acts: Seq<ActionView>,
) -> bool {
    &&& b.ids() == ids
    &&& b.queue_spec().queue_mode() == mode
    &&& b.queue_spec().shuffle_seed() == seed
    &&& b.position() == match a.current() {
        Some(id) => match first_index_of(ids, id) {
            Some(i) => i,
            None => start,
        },
        None => start,
    }
    &&& b.filter_view() == match a.pending() {
        Some(f) => f,
        None => a.filter_view(),
    }
    &&& b.pending() is None
    &&& b.sort_key() == sort
    &&& b.expected_id() == a.expected_id()
    &&& b.stage() == Stage::Ready
    &&& acts == seq![ActionView::Persist(b.snapshot_view()), ActionView::Reply(ReplyView::Ack)]
}

/// How a queue's mode is written in the saved state.
pub open spec fn mode_label_spec(m: QueueMode) -> Seq<char> {
    match m {
        QueueMode::Shuffle => "shuffle"@,
        QueueMode::Ascending => "ascending"@,
        QueueMode::Descending => "descending"@,
    }
}

/// How a queue's mode is written in the saved state.
pub fn mode_label(m: QueueMode) -> (s: String)
    ensures
        s@ == mode_label_spec(m),
{
    match m {
        QueueMode::Shuffle => String::from_str("shuffle"),
        QueueMode::Ascending => String::from_str("ascending"),
        QueueMode::Descending => String::from_str("descending"),
    }
}

/// The name the player answers with.
pub open spec fn player_name_spec() -> Seq<char> {
    "audiocrab"@
}

/// The name the player answers with.
pub fn player_name() -> (s: String)
    ensures
        s@ == player_name_spec(),
{
    String::from_str("audiocrab")
}

/// Whether the controller, in stage `st`, waits for the answer to the action `a`.
pub open spec fn awaits(st: Stage, a: ActionView) -> bool {
    match st {
        Stage::LoadingCurrent(_) | Stage::Searching { .. } | Stage::Reloading(_)
        | Stage::LookingAhead { .. } => a is LoadTrack,
        Stage::CheckingPlayer => a is CheckPlayerEmpty,
        Stage::Recovering => a is RecoverAudio,
        Stage::Shuffling => a is FetchShuffled,
        Stage::Sorting { .. } => a is FetchSorted,
        Stage::StoringWeight => a is StoreWeight,
        _ => false,
    }
}

/// Whether the controller waits for no answer in stage `st`.
pub open spec fn settled(st: Stage) -> bool {
    st is NotStarted || st is Ready || st is Stopped
}

/// What every step of the controller leaves: it is settled, or its last action is the
/// question it now waits for, or the step took nothing and changed no stage.
pub open spec fn step_leaves(before: Stage, after: Stage, acts: Seq<ActionView>) -> bool {
    ||| settled(after)
    ||| acts.len() > 0 && awaits(after, acts.last())
    ||| after == before && acts.len() == 0
}

/// The player's controller.
pub struct Controller {
    queue: PlaybackQueue,
    expected: Option<String>,
    filter: FilterSpec,
    sort: Option<SortKey>,
    stage: Stage,
    pending_filter: Option<FilterSpec>,
}

fn clone_filter(f: &FilterSpec) -> (r: FilterSpec)
    ensures
        r@ == f@,
{
    FilterSpec {
        playlist: f.playlist.clone(),
        tags: clone_strings(&f.tags),
        artist: f.artist.clone(),
        album: f.album.clone(),
        match_mode: f.match_mode.clone(),
    }
}

fn owned(s: Option<&str>) -> (r: Option<String>)
    ensures
        opt_view(r) == match s {
            Some(x) => Some(x@),
            None => None,
        },
{
    match s {
        Some(x) => Some(String::from_str(x)),
        None => None,
    }
}

impl Controller {
    /// The tracks in playing order.
    pub closed spec fn ids(self) -> Seq<Seq<char>> {
        self.queue.ids()
    }

    /// The position of the current track.
    pub closed spec fn position(self) -> int {
        self.queue.position()
    }

    /// The queue itself.
    pub closed spec fn queue_spec(self) -> PlaybackQueue {
        self.queue
    }

    /// The track whose end the controller waits for.
    pub closed spec fn expected_id(self) -> Option<Seq<char>> {
        opt_view(self.expected)
    }

    /// The filter the queue was built from.
    pub closed spec fn filter_view(self) -> FilterView {
        self.filter@
    }

    /// The sort key the queue was built with, if it is sorted.
    pub closed spec fn sort_key(self) -> Option<SortKey> {
        self.sort
    }

    /// What the controller is waiting for.
    pub closed spec fn stage(self) -> Stage {
        self.stage
    }

    /// The filter of a queue being rebuilt.
    pub closed spec fn pending(self) -> Option<FilterView> {
        match self.pending_filter {
            Some(f) => Some(f@),
            None => None,
        }
    }

    /// The state that would be saved now.
    pub open spec fn snapshot_view(self) -> SnapshotView {
        SnapshotView {
            mode: self.queue_spec().queue_mode(),
            sort: self.sort_key(),
            filter: self.filter_view(),
            seed: self.queue_spec().shuffle_seed(),
            cursor: self.position(),
        }
    }

    /// The current track.
    pub open spec fn current(self) -> Option<Seq<char>> {
        track_at(self.ids(), self.position())
    }

    /// A controller for the queue built at start-up from `filter` and `sort`.
    pub fn new(queue: PlaybackQueue, filter: FilterSpec, sort: Option<SortKey>) -> (c: Self)
        ensures
            c.queue_spec() == queue,
            c.filter_view() == filter@,
            c.sort_key() == sort,
            c.expected_id() is None,
            c.stage() == Stage::NotStarted,
            c.pending() is None,
    {
        Controller { queue, expected: None, filter, sort, stage: Stage::NotStarted, pending_filter: None }
    }

    /// The stage the controller is in.
    pub fn stage_now(&self) -> (s: Stage)
        ensures
            s == self.stage(),
    {
        self.stage
    }

    /// The queue.
    pub fn queue(&self) -> (q: &PlaybackQueue)
        ensures
            *q == self.queue_spec(),
    {
        &self.queue
    }

    fn snapshot(&self) -> (s: Snapshot)
        ensures
            s@ == self.snapshot_view(),
    {
        Snapshot {
            mode: self.queue.mode(),
            sort: self.sort,
            filter: clone_filter(&self.filter),
            seed: self.queue.seed(),
            cursor: self.queue.cursor(),
        }
    }

    fn push_action(out: &mut Vec<Action>, a: Action)
        ensures
            action_views(final(out)@) == action_views(old(out)@).push(a@),
    {
        out.push(a);
        assert(action_views(out@) =~= action_views(old(out)@).push(a@));
    }

    fn finish(&mut self, after: After, out: &mut Vec<Action>)
        ensures
            final(self).stage() == Stage::Ready,
            final(self).queue_spec() == old(self).queue_spec(),
            final(self).expected_id() == old(self).expected_id(),
            final(self).filter_view() == old(self).filter_view(),
            final(self).sort_key() == old(self).sort_key(),
            final(self).pending() == old(self).pending(),
            action_views(final(out)@) == action_views(old(out)@) + finish_actions(
                after,
                old(self).snapshot_view(),
            ),
    {
        self.stage = Stage::Ready;
        match after {
            After::Startup | After::Finished => {
                let s = self.snapshot();
                Self::push_action(out, Action::Persist(s));
            },
            After::Play => {
                Self::push_action(out, Action::Play);
                Self::push_action(out, Action::Reply(Reply::Ack));
            },
            After::Recovered => {},
            After::Next | After::Previous => {
                let s = self.snapshot();
                Self::push_action(out, Action::Persist(s));
                Self::push_action(out, Action::Reply(Reply::Ack));
            },
        }
        assert(action_views(out@) =~= action_views(old(out)@) + finish_actions(
            after,
            old(self).snapshot_view(),
        ));
    }

    fn begin_lookahead(&mut self, after: After, out: &mut Vec<Action>)
        ensures
            settled(final(self).stage()) || (action_views(final(out)@).len() > 0 && awaits(final(self).stage(), action_views(final(out)@).last())),
            final(self).queue_spec() == old(self).queue_spec(),
            final(self).expected_id() == old(self).expected_id(),
            final(self).filter_view() == old(self).filter_view(),
            final(self).sort_key() == old(self).sort_key(),
            final(self).pending() == old(self).pending(),
            ({
                let (st, acts) = lookahead_start(
                    old(self).ids(),
                    old(self).position(),
                    after,
                    old(self).snapshot_view(),
                );
                final(self).stage() == st && action_views(final(out)@) == action_views(old(out)@)
                    + acts
            }),
    {
        let n = self.queue.len();
        if n == 0 {
            self.finish(after, out);
        } else {
            match self.queue.peek_ahead(1) {
                Some(id) => {
                    Self::push_action(out, Action::LoadTrack(String::from_str(id)));
                },
                None => {},
            }
            self.stage = Stage::LookingAhead { offset: 1, limit: n, after };
        }
    }

    fn begin_search(&mut self, origin: Origin, out: &mut Vec<Action>)
        ensures
            final(self).filter_view() == old(self).filter_view(),
            final(self).sort_key() == old(self).sort_key(),
            final(self).pending() == old(self).pending(),
            final(self).queue_spec() == old(self).queue_spec(),
            old(self).ids().len() > 0 ==> {
                &&& final(self).stage() == (Stage::Searching {
                    tries_left: old(self).ids().len() as usize,
                    origin,
                })
                &&& final(self).expected_id() == old(self).expected_id()
                &&& action_views(final(out)@) == action_views(old(out)@).push(
                    ActionView::LoadTrack(old(self).ids()[old(self).position()]),
                )
            },
            old(self).ids().len() == 0 ==> search_failed_post(*old(self), *final(self), origin, old(out)@, final(out)@),
    {
        let n = self.queue.len();
        if n == 0 {
            self.search_failed(origin, out);
        } else {
            match self.queue.current_id() {
                Some(id) => Self::push_action(out, Action::LoadTrack(String::from_str(id))),
                None => {},
            }
            self.stage = Stage::Searching { tries_left: n, origin };
        }
    }

    fn search_failed(&mut self, origin: Origin, out: &mut Vec<Action>)
        ensures
            settled(final(self).stage()) || (action_views(final(out)@).len() > 0 && awaits(final(self).stage(), action_views(final(out)@).last())),
            final(self).filter_view() == old(self).filter_view(),
            final(self).sort_key() == old(self).sort_key(),
            final(self).pending() == old(self).pending(),
            final(self).queue_spec() == old(self).queue_spec(),
            search_failed_post(*old(self), *final(self), origin, old(out)@, final(out)@),
    {
        match origin {
            Origin::Startup => {
                Self::push_action(out, Action::Halt(Halt::NoPlayableTracks));
                self.stage = Stage::Stopped;
            },
            Origin::Play => {
                self.expected = None;
                self.begin_lookahead(After::Play, out);
            },
        }
    }

    /// Starts the controller: it loads the current track, or stops when the queue is empty.
    pub fn start(&mut self) -> (acts: Vec<Action>)
        ensures
            step_leaves(old(self).stage(), final(self).stage(), action_views(acts@)),
            final(self).queue_spec() == old(self).queue_spec(),
            final(self).expected_id() == old(self).expected_id(),
            final(self).filter_view() == old(self).filter_view(),
            final(self).sort_key() == old(self).sort_key(),
            final(self).pending() == old(self).pending(),
            old(self).stage() != Stage::NotStarted ==> final(self).stage() == old(self).stage()
                && acts@.len() == 0,
            old(self).stage() == Stage::NotStarted && old(self).ids().len() == 0 ==> {
                &&& final(self).stage() == Stage::Stopped
                &&& action_views(acts@) == seq![ActionView::Halt(Halt::NoMatchingTracks)]
            },
            old(self).stage() == Stage::NotStarted && old(self).ids().len() > 0 ==> {
                &&& final(self).stage() == Stage::LoadingCurrent(Origin::Startup)
                &&& action_views(acts@) == seq![
                    ActionView::LoadTrack(old(self).ids()[old(self).position()]),
                ]
            },
    {
        let mut out: Vec<Action> = Vec::new();
        if self.stage != Stage::NotStarted {
            return out;
        }
        match self.queue.current_id() {
            None => {
                Self::push_action(&mut out, Action::Halt(Halt::NoMatchingTracks));
                self.stage = Stage::Stopped;
            },
            Some(id) => {
                Self::push_action(&mut out, Action::LoadTrack(String::from_str(id)));
                self.stage = Stage::LoadingCurrent(Origin::Startup);
            },
        }
        out
    }

    /// Takes the result of loading a track.
    pub fn on_loaded(&mut self, ok: bool) -> (acts: Vec<Action>)
        ensures
            step_leaves(old(self).stage(), final(self).stage(), action_views(acts@)),
            final(self).filter_view() == old(self).filter_view(),
            final(self).sort_key() == old(self).sort_key(),
            final(self).pending() == old(self).pending(),
            loaded_post(*old(self), *final(self), ok, action_views(acts@)),
    {
        let mut out: Vec<Action> = Vec::new();
        assert(action_views(out@) =~= Seq::<ActionView>::empty());
        match self.stage {
            Stage::LoadingCurrent(origin) => {
                if ok {
                    self.expected = owned(self.queue.current_id());
                    self.begin_lookahead(after_for(origin), &mut out);
                    assert(action_views(out@) =~= Seq::<ActionView>::empty() + action_views(out@));
                } else {
                    self.expected = None;
                    self.begin_search(origin, &mut out);
                    assert(action_views(out@) =~= Seq::<ActionView>::empty() + action_views(out@));
                    proof {
                        if old(self).ids().len() > 0 {
                            assert(action_views(out@) =~= seq![
                                ActionView::LoadTrack(old(self).ids()[old(self).position()]),
                            ]);
                        } else if origin == Origin::Startup {
                            assert(action_views(out@) =~= seq![ActionView::Halt(Halt::NoPlayableTracks)]);
                        }
                    }
                }
            },
            Stage::Searching { tries_left, origin } => {
                if ok {
                    self.expected = owned(self.queue.current_id());
                    self.begin_lookahead(after_for(origin), &mut out);
                    assert(action_views(out@) =~= Seq::<ActionView>::empty() + action_views(out@));
                } else {
                    self.queue.advance();
                    if tries_left <= 1 || self.queue.len() == 0 {
                        self.search_failed(origin, &mut out);
                        assert(action_views(out@) =~= Seq::<ActionView>::empty() + action_views(out@));
                        proof {
                            if origin == Origin::Startup {
                                assert(action_views(out@) =~= seq![ActionView::Halt(Halt::NoPlayableTracks)]);
                            }
                        }
                    } else {
                        match self.queue.current_id() {
                            Some(id) => Self::push_action(&mut out, Action::LoadTrack(String::from_str(id))),
                            None => {},
                        }
                        self.stage = Stage::Searching { tries_left: tries_left - 1, origin };
                        proof {
                            if old(self).ids().len() > 0 {
                                assert(action_views(out@) =~= seq![
                                    ActionView::LoadTrack(self.ids()[self.position()]),
                                ]);
                            }
                        }
                    }
                }
            },
            Stage::Reloading(after) => {
                self.begin_lookahead(after, &mut out);
                assert(action_views(out@) =~= Seq::<ActionView>::empty() + action_views(out@));
            },
            Stage::LookingAhead { offset, limit, after } => {
                if !ok && offset < limit && self.queue.len() > 0 {
                    match self.queue.peek_ahead(offset + 1) {
                        Some(id) => Self::push_action(&mut out, Action::LoadTrack(String::from_str(id))),
                        None => {},
                    }
                    self.stage = Stage::LookingAhead { offset: offset + 1, limit, after };
                    assert(action_views(out@) =~= seq![
                        ActionView::LoadTrack(old(self).ids()[ring_ahead(old(self).position(), offset + 1, old(self).ids().len() as int)]),
                    ]);
                } else {
                    self.finish(after, &mut out);
                    assert(action_views(out@) =~= Seq::<ActionView>::empty() + action_views(out@));
                }
            },
            _ => {},
        }
        out
    }


    /// Takes whether the player has nothing queued, after a play command.
    pub fn on_player_empty(&mut self, empty: bool) -> (acts: Vec<Action>)
        ensures
            step_leaves(old(self).stage(), final(self).stage(), action_views(acts@)),
            final(self).filter_view() == old(self).filter_view(),
            final(self).sort_key() == old(self).sort_key(),
            final(self).pending() == old(self).pending(),
            final(self).queue_spec() == old(self).queue_spec(),
            old(self).stage() != Stage::CheckingPlayer ==> final(self).stage() == old(self).stage()
                && final(self).expected_id() == old(self).expected_id() && acts@.len() == 0,
            old(self).stage() == Stage::CheckingPlayer && !empty ==> {
                &&& final(self).stage() == Stage::Ready
                &&& final(self).expected_id() == old(self).expected_id()
                &&& action_views(acts@) == finish_actions(After::Play, old(self).snapshot_view())
            },
            old(self).stage() == Stage::CheckingPlayer && empty && old(self).ids().len() > 0 ==> {
                &&& final(self).stage() == Stage::LoadingCurrent(Origin::Play)
                &&& final(self).expected_id() == old(self).expected_id()
                &&& action_views(acts@) == seq![ActionView::LoadTrack(old(self).ids()[old(self).position()])]
            },
            old(self).stage() == Stage::CheckingPlayer && empty && old(self).ids().len() == 0 ==> {
                &&& final(self).stage() == Stage::Ready
                &&& final(self).expected_id() is None
                &&& action_views(acts@) == finish_actions(After::Play, old(self).snapshot_view())
            },
    {
        let mut out: Vec<Action> = Vec::new();
        assert(action_views(out@) =~= Seq::<ActionView>::empty());
        if self.stage != Stage::CheckingPlayer {
            return out;
        }
        if !empty {
            self.finish(After::Play, &mut out);
        } else {
            match self.queue.current_id() {
                Some(id) => {
                    Self::push_action(&mut out, Action::LoadTrack(String::from_str(id)));
                    self.stage = Stage::LoadingCurrent(Origin::Play);
                },
                None => {
                    self.expected = None;
                    self.begin_search(Origin::Play, &mut out);
                },
            }
        }
        assert(action_views(out@) =~= Seq::<ActionView>::empty() + action_views(out@));
        out
    }

    /// Takes the news that the audio output failed or the default device changed.
    pub fn on_audio_failure(&mut self) -> (acts: Vec<Action>)
        ensures
            step_leaves(old(self).stage(), final(self).stage(), action_views(acts@)),
            final(self).filter_view() == old(self).filter_view(),
            final(self).sort_key() == old(self).sort_key(),
            final(self).pending() == old(self).pending(),
            final(self).queue_spec() == old(self).queue_spec(),
            final(self).expected_id() == old(self).expected_id(),
            old(self).stage() == Stage::Ready ==> final(self).stage() == Stage::Recovering
                && action_views(acts@) == seq![ActionView::RecoverAudio],
            old(self).stage() != Stage::Ready ==> final(self).stage() == old(self).stage()
                && acts@.len() == 0,
    {
        let mut out: Vec<Action> = Vec::new();
        if self.stage == Stage::Ready {
            Self::push_action(&mut out, Action::RecoverAudio);
            self.stage = Stage::Recovering;
            assert(action_views(out@) =~= seq![ActionView::RecoverAudio]);
        }
        out
    }

    /// Takes whether the audio output was replaced: if so, the expected track and the
    /// one after it are queued again.
    pub fn on_audio_recovered(&mut self, ok: bool) -> (acts: Vec<Action>)
        ensures
            step_leaves(old(self).stage(), final(self).stage(), action_views(acts@)),
            final(self).filter_view() == old(self).filter_view(),
            final(self).sort_key() == old(self).sort_key(),
            final(self).pending() == old(self).pending(),
            final(self).queue_spec() == old(self).queue_spec(),
            final(self).expected_id() == old(self).expected_id(),
            old(self).stage() != Stage::Recovering ==> final(self).stage() == old(self).stage()
                && acts@.len() == 0,
            old(self).stage() == Stage::Recovering && !ok ==> final(self).stage() == Stage::Ready
                && acts@.len() == 0,
            old(self).stage() == Stage::Recovering && ok && old(self).expected_id() is Some ==> {
                &&& final(self).stage() == Stage::Reloading(After::Recovered)
                &&& action_views(acts@) == seq![ActionView::LoadTrack(old(self).expected_id()->0)]
            },
            old(self).stage() == Stage::Recovering && ok && old(self).expected_id() is None ==> {
                let (st, la) = lookahead_start(old(self).ids(), old(self).position(), After::Recovered, old(self).snapshot_view());
                &&& final(self).stage() == st
                &&& action_views(acts@) == la
            },
    {
        let mut out: Vec<Action> = Vec::new();
        assert(action_views(out@) =~= Seq::<ActionView>::empty());
        if self.stage != Stage::Recovering {
            return out;
        }
        if !ok {
            self.stage = Stage::Ready;
            return out;
        }
        match &self.expected {
            Some(id) => {
                let id = id.clone();
                Self::push_action(&mut out, Action::LoadTrack(id));
                self.stage = Stage::Reloading(After::Recovered);
            },
            None => {
                self.begin_lookahead(After::Recovered, &mut out);
            },
        }
        assert(action_views(out@) =~= Seq::<ActionView>::empty() + action_views(out@));
        out
    }

    /// Takes the news that the track `id` finished playing. Only the end of the
    /// expected track counts: its play is recorded, the queue moves on and the track
    /// after the new current one is queued.
    pub fn on_track_finished(&mut self, id: &str) -> (acts: Vec<Action>)
        ensures
            step_leaves(old(self).stage(), final(self).stage(), action_views(acts@)),
            final(self).filter_view() == old(self).filter_view(),
            final(self).sort_key() == old(self).sort_key(),
            final(self).pending() == old(self).pending(),
            !(old(self).stage() == Stage::Ready && old(self).expected_id() == Some(id@)) ==> {
                &&& final(self).queue_spec() == old(self).queue_spec()
                &&& final(self).expected_id() == old(self).expected_id()
                &&& final(self).stage() == old(self).stage()
                &&& acts@.len() == 0
            },
            old(self).stage() == Stage::Ready && old(self).expected_id() == Some(id@) ==> {
                let (st, la) = lookahead_start(final(self).ids(), final(self).position(), After::Finished, final(self).snapshot_view());
                &&& final(self).ids() == old(self).ids()
                &&& final(self).queue_spec().queue_mode() == old(self).queue_spec().queue_mode()
                &&& final(self).queue_spec().shuffle_seed() == old(self).queue_spec().shuffle_seed()
                &&& old(self).ids().len() > 0 ==> final(self).position() == ring_next(old(self).position(), old(self).ids().len() as int)
                &&& old(self).ids().len() == 0 ==> final(self).position() == old(self).position()
                &&& final(self).expected_id() == final(self).current()
                &&& final(self).stage() == st
                &&& action_views(acts@) == seq![ActionView::RecordPlay(id@)] + la
            },
    {
        let mut out: Vec<Action> = Vec::new();
        assert(action_views(out@) =~= Seq::<ActionView>::empty());
        if self.stage != Stage::Ready {
            return out;
        }
        let matches = match &self.expected {
            Some(e) => crate::text::str_eq(e.as_str(), id),
            None => false,
        };
        if !matches {
            return out;
        }
        Self::push_action(&mut out, Action::RecordPlay(String::from_str(id)));
        let ghost recorded = action_views(out@);
        self.queue.advance();
        self.expected = owned(self.queue.current_id());
        self.begin_lookahead(After::Finished, &mut out);
        assert(recorded =~= seq![ActionView::RecordPlay(id@)]);
        out
    }

    /// Takes the answer to a request to store a like.
    pub fn on_weight_stored(&mut self, result: Result<(), String>) -> (acts: Vec<Action>)
        ensures
            step_leaves(old(self).stage(), final(self).stage(), action_views(acts@)),
            final(self).filter_view() == old(self).filter_view(),
            final(self).sort_key() == old(self).sort_key(),
            final(self).pending() == old(self).pending(),
            final(self).queue_spec() == old(self).queue_spec(),
            final(self).expected_id() == old(self).expected_id(),
            old(self).stage() != Stage::StoringWeight ==> final(self).stage() == old(self).stage()
                && acts@.len() == 0,
            old(self).stage() == Stage::StoringWeight ==> final(self).stage() == Stage::Ready
                && action_views(acts@) == seq![ActionView::Reply(match result {
                    Ok(_) => ReplyView::Ack,
                    Err(e) => ReplyView::Error(e@),
                })],
    {
        let mut out: Vec<Action> = Vec::new();
        if self.stage != Stage::StoringWeight {
            return out;
        }
        let reply = match result {
            Ok(()) => Reply::Ack,
            Err(e) => Reply::Error(e),
        };
        Self::push_action(&mut out, Action::Reply(reply));
        self.stage = Stage::Ready;
        assert(action_views(out@) =~= seq![ActionView::Reply(match result {
            Ok(_) => ReplyView::Ack,
            Err(e) => ReplyView::Error(e@),
        })]);
        out
    }

    fn reply_only(&mut self, r: Reply) -> (acts: Vec<Action>)
        ensures
            same_state(*old(self), *final(self)),
            final(self).stage() == Stage::Ready,
            action_views(acts@) == seq![ActionView::Reply(r@)],
    {
        let mut out: Vec<Action> = Vec::new();
        Self::push_action(&mut out, Action::Reply(r));
        self.stage = Stage::Ready;
        assert(action_views(out@) =~= seq![ActionView::Reply(r@)]);
        out
    }

    fn act_and_ack(&mut self, a: Action) -> (acts: Vec<Action>)
        ensures
            same_state(*old(self), *final(self)),
            final(self).stage() == Stage::Ready,
            action_views(acts@) == seq![a@, ActionView::Reply(ReplyView::Ack)],
    {
        let mut out: Vec<Action> = Vec::new();
        Self::push_action(&mut out, a);
        Self::push_action(&mut out, Action::Reply(Reply::Ack));
        self.stage = Stage::Ready;
        assert(action_views(out@) =~= seq![a@, ActionView::Reply(ReplyView::Ack)]);
        out
    }

    /// Takes a command from a client. A controller that is not ready takes none.
    pub fn on_command(&mut self, cmd: Commands) -> (acts: Vec<Action>)
        ensures
            step_leaves(old(self).stage(), final(self).stage(), action_views(acts@)),
            old(self).stage() != Stage::Ready ==> same_state(*old(self), *final(self))
                && final(self).stage() == old(self).stage() && acts@.len() == 0,
            old(self).stage() == Stage::Ready ==> command_post(*old(self), *final(self), cmd, action_views(acts@)),
    {
        let mut out: Vec<Action> = Vec::new();
        assert(action_views(out@) =~= Seq::<ActionView>::empty());
        if self.stage != Stage::Ready {
            return out;
        }
        match cmd {
            Commands::Play => {
                Self::push_action(&mut out, Action::CheckPlayerEmpty);
                self.stage = Stage::CheckingPlayer;
                assert(action_views(out@) =~= seq![ActionView::CheckPlayerEmpty]);
                out
            },
            Commands::Pause => self.act_and_ack(Action::Pause),
            Commands::Quit => {
                Self::push_action(&mut out, Action::Reply(Reply::Ack));
                Self::push_action(&mut out, Action::Shutdown);
                self.stage = Stage::Stopped;
                assert(action_views(out@) =~= seq![ActionView::Reply(ReplyView::Ack), ActionView::Shutdown]);
                out
            },
            Commands::SetVolume { level } => self.act_and_ack(Action::SetVolume(level)),
            Commands::VolumeUp => self.act_and_ack(Action::VolumeUp),
            Commands::VolumeDown => self.act_and_ack(Action::VolumeDown),
            Commands::Next | Commands::Skip => {
                Self::push_action(&mut out, Action::SkipOne);
                let ghost first = action_views(out@);
                self.queue.advance();
                self.expected = owned(self.queue.current_id());
                self.begin_lookahead(After::Next, &mut out);
                assert(first =~= seq![ActionView::SkipOne]);
                out
            },
            Commands::Previous => {
                Self::push_action(&mut out, Action::Stop);
                let ghost first = action_views(out@);
                self.queue.previous();
                self.expected = owned(self.queue.current_id());
                match self.queue.current_id() {
                    Some(id) => {
                        Self::push_action(&mut out, Action::LoadTrack(String::from_str(id)));
                        self.stage = Stage::Reloading(After::Previous);
                        assert(action_views(out@) =~= seq![ActionView::Stop, ActionView::LoadTrack(id@)]);
                    },
                    None => {
                        self.begin_lookahead(After::Previous, &mut out);
                    },
                }
                assert(first =~= seq![ActionView::Stop]);
                out
            },
            Commands::Like { weight } => {
                match self.queue.current_id() {
                    Some(id) => {
                        let w = like_weight_of(weight);
                        Self::push_action(&mut out, Action::StoreWeight { id: String::from_str(id), weight: w });
                        self.stage = Stage::StoringWeight;
                        assert(action_views(out@) =~= seq![ActionView::StoreWeight { id: id@, weight: w }]);
                        out
                    },
                    None => self.reply_only(Reply::Error(String::from_str("no current track"))),
                }
            },
            Commands::Shuffle { filter } => {
                let copy = clone_filter(&filter);
                self.pending_filter = Some(filter);
                Self::push_action(&mut out, Action::FetchShuffled(copy));
                self.stage = Stage::Shuffling;
                assert(action_views(out@) =~= seq![ActionView::FetchShuffled(copy@)]);
                out
            },
            Commands::Ascending { sort_by, filter } => {
                let copy = clone_filter(&filter);
                self.pending_filter = Some(filter);
                Self::push_action(&mut out, Action::FetchSorted { filter: copy, sort_by, descending: false });
                self.stage = Stage::Sorting { sort_by, descending: false };
                assert(action_views(out@) =~= seq![ActionView::FetchSorted { filter: copy@, sort_by, descending: false }]);
                out
            },
            Commands::Descending { sort_by, filter } => {
                let copy = clone_filter(&filter);
                self.pending_filter = Some(filter);
                Self::push_action(&mut out, Action::FetchSorted { filter: copy, sort_by, descending: true });
                self.stage = Stage::Sorting { sort_by, descending: true };
                assert(action_views(out@) =~= seq![ActionView::FetchSorted { filter: copy@, sort_by, descending: true }]);
                out
            },
            Commands::Info => {
                let current = owned(self.queue.current_id());
                let position = self.queue.cursor();
                let length = self.queue.len();
                self.reply_only(Reply::Info { current, position, length })
            },
            Commands::Name => self.reply_only(Reply::Name),
            _ => self.reply_only(Reply::Error(String::from_str("command is not handled by the player"))),
        }
    }

    fn install(&mut self, q: PlaybackQueue, sort: Option<SortKey>) -> (acts: Vec<Action>)
        ensures
            rebuilt_post(
                *old(self),
                *final(self),
                q.ids(),
                q.queue_mode(),
                q.shuffle_seed(),
                q.position(),
                sort,
                action_views(acts@),
            ),
    {
        let current = owned(self.queue.current_id());
        self.queue = q;
        match &current {
            Some(id) => self.queue.set_current_id(id.as_str()),
            None => {},
        }
        match self.pending_filter.take() {
            Some(f) => self.filter = f,
            None => {},
        }
        self.sort = sort;
        self.stage = Stage::Ready;
        let mut out: Vec<Action> = Vec::new();
        let snap = self.snapshot();
        Self::push_action(&mut out, Action::Persist(snap));
        Self::push_action(&mut out, Action::Reply(Reply::Ack));
        assert(action_views(out@) =~= seq![
            ActionView::Persist(self.snapshot_view()),
            ActionView::Reply(ReplyView::Ack),
        ]);
        out
    }

    fn refuse_rebuild(&mut self, e: String) -> (acts: Vec<Action>)
        ensures
            final(self).queue_spec() == old(self).queue_spec(),
            final(self).expected_id() == old(self).expected_id(),
            final(self).filter_view() == old(self).filter_view(),
            final(self).sort_key() == old(self).sort_key(),
            final(self).pending() is None,
            final(self).stage() == Stage::Ready,
            action_views(acts@) == seq![ActionView::Reply(ReplyView::Error(e@))],
    {
        self.pending_filter = None;
        self.stage = Stage::Ready;
        let mut out: Vec<Action> = Vec::new();
        Self::push_action(&mut out, Action::Reply(Reply::Error(e)));
        assert(action_views(out@) =~= seq![ActionView::Reply(ReplyView::Error(e@))]);
        out
    }

    /// Takes the shuffled queue for a shuffle command, or why there is none.
    pub fn on_shuffled(&mut self, result: Result<PlaybackQueue, String>) -> (acts: Vec<Action>)
        ensures
            step_leaves(old(self).stage(), final(self).stage(), action_views(acts@)),
            old(self).stage() != Stage::Shuffling ==> same_state(*old(self), *final(self))
                && final(self).stage() == old(self).stage() && acts@.len() == 0,
            old(self).stage() == Stage::Shuffling ==> match result {
                Ok(q) => rebuilt_post(
                    *old(self),
                    *final(self),
                    q.ids(),
                    q.queue_mode(),
                    q.shuffle_seed(),
                    q.position(),
                    None,
                    action_views(acts@),
                ),
                Err(e) => {
                    &&& final(self).queue_spec() == old(self).queue_spec()
                    &&& final(self).expected_id() == old(self).expected_id()
                    &&& final(self).filter_view() == old(self).filter_view()
                    &&& final(self).sort_key() == old(self).sort_key()
                    &&& final(self).pending() is None
                    &&& final(self).stage() == Stage::Ready
                    &&& action_views(acts@) == seq![ActionView::Reply(ReplyView::Error(e@))]
                },
            },
    {
        if self.stage != Stage::Shuffling {
            return Vec::new();
        }
        match result {
            Ok(q) => self.install(q, None),
            Err(e) => self.refuse_rebuild(e),
        }
    }

    /// Takes the sorted ids for an ascending or descending command, or why there are none.
    pub fn on_sorted(&mut self, result: Result<Vec<String>, String>) -> (acts: Vec<Action>)
        ensures
            step_leaves(old(self).stage(), final(self).stage(), action_views(acts@)),
            !(old(self).stage() is Sorting) ==> same_state(*old(self), *final(self))
                && final(self).stage() == old(self).stage() && acts@.len() == 0,
            old(self).stage() matches Stage::Sorting { sort_by, descending } ==> match result {
                Ok(ids) => rebuilt_post(
                    *old(self),
                    *final(self),
                    views(ids@),
                    if descending {
                        QueueMode::Descending
                    } else {
                        QueueMode::Ascending
                    },
                    None,
                    0,
                    Some(sort_by),
                    action_views(acts@),
                ),
                Err(e) => {
                    &&& final(self).queue_spec() == old(self).queue_spec()
                    &&& final(self).expected_id() == old(self).expected_id()
                    &&& final(self).filter_view() == old(self).filter_view()
                    &&& final(self).sort_key() == old(self).sort_key()
                    &&& final(self).pending() is None
                    &&& final(self).stage() == Stage::Ready
                    &&& action_views(acts@) == seq![ActionView::Reply(ReplyView::Error(e@))]
                },
            },
    {
        match self.stage {
            Stage::Sorting { sort_by, descending } => match result {
                Ok(ids) => {
                    let mode = if descending {
                        QueueMode::Descending
                    } else {
                        QueueMode::Ascending
                    };
                    let q = PlaybackQueue::new_sorted(ids, mode);
                    self.install(q, Some(sort_by))
                },
                Err(e) => self.refuse_rebuild(e),
            },
            _ => Vec::new(),
        }
    }
}

/// A controller's tracks and position are those of its queue, so its current track
/// is the queue's current track.
pub proof fn lemma_controller_queue(c: Controller)
    ensures
        c.ids() == c.queue_spec().ids(),
        c.position() == c.queue_spec().position(),
        c.current() == track_at(c.queue_spec().ids(), c.queue_spec().position()),
{
}

/// A like stores a weight from 1 to 10: 2 when none is given, the given one when it
/// lies in that range, else the nearest bound.
pub proof fn law_like_weight(w: Option<u8>)
    ensures
        1 <= like_weight(w) <= 10,
        like_weight(None) == 2,
        forall|x: u8| 1 <= x <= 10 ==> #[trigger] like_weight(Some(x)) == x,
        forall|x: u8| x > 10 ==> #[trigger] like_weight(Some(x)) == 10,
        like_weight(Some(0u8)) == 1,
{
}

/// After a shuffle or a sort, the track that was playing stays the current track
/// whenever the new queue holds it.
pub proof fn law_rebuild_keeps_current_track(
    a: Controller,
    b: Controller,
    ids: Seq<Seq<char>>,
    mode: QueueMode,
    seed: Option<u64>,
    start: int,
    sort: Option<SortKey>,
    acts: Seq<ActionView>,
    id: Seq<char>,
)
    requires
        rebuilt_post(a, b, ids, mode, seed, start, sort, acts),
        a.current() == Some(id),
        ids.contains(id),
    ensures
        b.current() == Some(id),
{
    crate::queue::law_first_index_of(ids, id);
}

/// What each command does to a ready player: pause, the volume commands, quit and
/// name each give their own action, with the reply; play first asks whether anything
/// is queued; next and skip stop the current track and move one place forward,
/// wrapping round; previous stops it and moves one place back, wrapping round; a like
/// with a current track stores a weight for that track; a command the player does not
/// handle is refused.
pub proof fn law_command_actions(a: Controller, b: Controller, cmd: Commands, acts: Seq<ActionView>)
    requires
        a.stage() == Stage::Ready,
        command_post(a, b, cmd, acts),
    ensures
        cmd is Pause ==> acts == seq![ActionView::Pause, ActionView::Reply(ReplyView::Ack)],
        cmd is VolumeUp ==> acts == seq![ActionView::VolumeUp, ActionView::Reply(ReplyView::Ack)],
        cmd is VolumeDown ==> acts == seq![ActionView::VolumeDown, ActionView::Reply(ReplyView::Ack)],
        cmd matches Commands::SetVolume { level } ==> acts == seq![
            ActionView::SetVolume(level),
            ActionView::Reply(ReplyView::Ack),
        ],
        cmd is Quit ==> acts == seq![ActionView::Reply(ReplyView::Ack), ActionView::Shutdown] && b.stage()
            == Stage::Stopped,
        cmd is Name ==> acts == seq![ActionView::Reply(ReplyView::Name)],
        cmd is Play ==> acts == seq![ActionView::CheckPlayerEmpty],
        (cmd is Next || cmd is Skip) ==> acts.len() > 0 && acts[0] == ActionView::SkipOne && b.ids() == a.ids()
            && (a.ids().len() > 0 ==> b.position() == (a.position() + 1) % (a.ids().len() as int))
            && b.expected_id() == b.current(),
        cmd is Previous ==> acts.len() > 0 && acts[0] == ActionView::Stop && b.ids() == a.ids()
            && (a.ids().len() > 0 ==> b.position() == if a.position() == 0 {
                a.ids().len() - 1
            } else {
                a.position() - 1
            }) && b.expected_id() == b.current(),
        cmd matches Commands::Like { weight } ==> (a.current() matches Some(id) ==> acts == seq![
            ActionView::StoreWeight { id, weight: like_weight(weight) },
        ]),
        cmd is Like && a.current() is None ==> acts == seq![ActionView::Reply(ReplyView::Error(no_track_message()))],
        (cmd is Tags || cmd is Playlists || cmd is Config) ==> acts == seq![
            ActionView::Reply(ReplyView::Error(unhandled_message())),
        ],
{
}

} // verus!
