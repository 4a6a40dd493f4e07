//! The dispatch state machine: owns the playout state, polls the schedule
//! resolver and the clock once per tick, and drives the playback port.
//! Decisions are taken by pure functions with exact contracts; the `Player`
//! performs them against its injected collaborators, one tick per `step`.
//!
//! Recovery is built into the tick loop: a missing playlist document or an
//! empty media enumeration leaves the state unchanged and is retried on the
//! next tick, never treated as fatal. Transitions out of `Advertizement` and
//! `TimeAnnouncement` always land on `Stopped`, never directly on
//! `MusicPlaying`, so every content switch re-validates working hours and
//! re-resolves the playlist.

use vstd::prelude::*;
use vstd::string::StringExecFns;

use crate::config::NodeConfig;
use crate::datetime::DateTime;
use crate::playlist::{
    Playlist, spec_advertizement_folders, spec_announcement_file, spec_is_working_time,
    spec_jingles, spec_music_folders,
};
use crate::ports::{MediaEnumerator, PlaybackPort, PlaylistStore, RandomSource, Scheduler};
use crate::strutil::{clone_strings, push_char, spec_starts_with, str_starts_with};

verus! {

/// The playout state; exactly one variant is active at any instant. The
/// cursor of `MusicPlaying` is the queue index of the track being played;
/// the cursor of `Advertizement` is the index of the next block item (start
/// jingle, advertisement files in order, end jingle) to start.
#[derive(Debug)]
pub enum PlayerState {
    Stopped,
    MusicPlaying { queue: Vec<String>, cursor: usize },
    Advertizement { queue: Vec<String>, cursor: usize },
    TimeAnnouncement { file: String },
}

/// Whether the playlist asks for a shuffled music start position.
pub open spec fn spec_shuffle(pl: Playlist) -> bool {
    match pl.music {
        Some(m) => match m.shuffle {
            Some(b) => b,
            None => false,
        },
        None => false,
    }
}

fn read_shuffle(pl: &Playlist) -> (r: bool)
    ensures
        r == spec_shuffle(*pl),
{
    match &pl.music {
        Some(m) => match &m.shuffle {
            Some(b) => *b,
            None => false,
        },
        None => false,
    }
}

/// What the dispatcher does on a tick spent in `Stopped`.
pub enum StoppedDecision {
    StayStopped,
    BeginMusic { folders: Vec<String>, shuffle: bool },
}

/// The `Stopped` decision for the resolved playlist at instant `now`:
/// remain stopped outside working hours or when no music schedule entry
/// matches today; otherwise begin music from the matched folders.
pub fn stopped_decision(pl: &Playlist, now: &DateTime) -> (d: StoppedDecision)
    requires
        now.is_valid(),
    ensures
        (d is StayStopped) == (!spec_is_working_time(*pl, *now) || spec_music_folders(
            *pl,
            now.date,
        ).len() == 0),
        (d matches StoppedDecision::BeginMusic { folders, shuffle } ==> folders@
            == spec_music_folders(*pl, now.date) && shuffle == spec_shuffle(*pl)),
{
    if !pl.is_working_time(*now) {
        return StoppedDecision::StayStopped;
    }
    let folders = pl.get_music_folders_for_date(now.date);
    if folders.len() == 0 {
        return StoppedDecision::StayStopped;
    }
    let shuffle = read_shuffle(pl);
    StoppedDecision::BeginMusic { folders, shuffle }
}

/// What the dispatcher does on a tick spent in `MusicPlaying`.
pub enum PlayingDecision {
    TrackOver,
    WorkingTimeOver,
    AdvertizementDue { folders: Vec<String> },
    AnnouncementDue { file: String },
    KeepPlaying,
}

/// The `MusicPlaying` decision, in strict priority order: a track that has
/// ended outranks the end of working hours, which outranks a due
/// advertisement window, which outranks a due hourly announcement (fired
/// only when the hour changed since the previous tick); otherwise keep
/// playing.
pub fn playing_decision(pl: &Playlist, now: &DateTime, prev: &DateTime, still_playing: bool) -> (d:
    PlayingDecision)
    requires
        now.is_valid(),
    ensures
        !still_playing ==> d is TrackOver,
        (still_playing && !spec_is_working_time(*pl, *now)) ==> d is WorkingTimeOver,
        (still_playing && spec_is_working_time(*pl, *now) && spec_advertizement_folders(
            *pl,
            *now,
        ).len() > 0) ==> (d matches PlayingDecision::AdvertizementDue { folders } && folders@
            == spec_advertizement_folders(*pl, *now)),
        (still_playing && spec_is_working_time(*pl, *now) && spec_advertizement_folders(
            *pl,
            *now,
        ).len() == 0 && prev.time.hour != now.time.hour && spec_announcement_file(*pl, *now)
            is Some) ==> (d matches PlayingDecision::AnnouncementDue { file } && Some(file@)
            == spec_announcement_file(*pl, *now)),
        (still_playing && spec_is_working_time(*pl, *now) && spec_advertizement_folders(
            *pl,
            *now,
        ).len() == 0 && (prev.time.hour == now.time.hour || spec_announcement_file(*pl, *now)
            is None)) ==> d is KeepPlaying,
{
    if !still_playing {
        return PlayingDecision::TrackOver;
    }
    if !pl.is_working_time(*now) {
        return PlayingDecision::WorkingTimeOver;
    }
    let folders = pl.get_advertizement_folders_for_datetime(*now);
    if folders.len() > 0 {
        return PlayingDecision::AdvertizementDue { folders };
    }
    if prev.time.hour != now.time.hour {
        match pl.get_announcement_file_path_for_time(*now) {
            Some(file) => {
                return PlayingDecision::AnnouncementDue { file };
            },
            None => {
            },
        }
    }
    PlayingDecision::KeepPlaying
}

/// The path names something at or below the media root: it is the root
/// itself, or the root followed by a path separator.
pub open spec fn spec_under_root(root: Seq<char>, path: Seq<char>) -> bool {
    path == root || spec_starts_with(path, root + seq!['/'])
}

/// A path already below the media root, or an absolute path, is used as
/// given; any other path is joined under the root.
pub open spec fn spec_resolved_path(root: Seq<char>, path: Seq<char>) -> Seq<char> {
    if spec_under_root(root, path) || (path.len() > 0 && path[0] == '/') {
        path
    } else {
        root + seq!['/'] + path
    }
}

pub fn resolve_media_path(root: &String, path: &String) -> (r: String)
    ensures
        r@ == spec_resolved_path(root@, path@),
{
    let mut root_slash = root.clone();
    push_char(&mut root_slash, '/');
    proof {
        assert(root_slash@ =~= root@ + seq!['/']);
    }
    let n = path.as_str().unicode_len();
    let absolute = n > 0 && path.as_str().get_char(0) == '/';
    if *path == *root || str_starts_with(path.as_str(), root_slash.as_str()) || absolute {
        path.clone()
    } else {
        let mut r = root_slash;
        r.append(path.as_str());
        proof {
            assert(r@ =~= root@ + seq!['/'] + path@);
        }
        r
    }
}

/// Resolves the path against the media root, restores full volume and
/// starts playback, returning at once.
fn play_non_blocking<P: PlaybackPort>(port: &mut P, root: &String, path: &String) {
    let full = resolve_media_path(root, path);
    port.set_volume(100);
    port.load_and_play(&full);
}

/// The one-element sequence holding a configured jingle path; empty when
/// none is configured.
pub open spec fn opt_seq(jingle: Option<String>) -> Seq<String> {
    match jingle {
        Some(p) => seq![p],
        None => Seq::empty(),
    }
}

/// The advertisement block built around the enumerated files: the
/// playlist's start jingle, the files in order, then its end jingle.
pub open spec fn spec_block_of(pl: Playlist, files: Seq<String>) -> Seq<String> {
    opt_seq(spec_jingles(pl).0) + files + opt_seq(spec_jingles(pl).1)
}

/// `queue` is the playlist's advertisement block around some non-empty
/// file list.
pub open spec fn spec_is_ad_block(pl: Playlist, queue: Seq<String>) -> bool {
    exists|files: Seq<String>| files.len() > 0 && queue == #[trigger] spec_block_of(pl, files)
}

/// Assembles the advertisement block for one window.
fn assemble_ad_block(pl: &Playlist, files: Vec<String>) -> (queue: Vec<String>)
    ensures
        queue@ == spec_block_of(*pl, files@),
        queue@.len() >= files@.len(),
{
    let jingles = pl.get_advertizement_jingles_file_path();
    let (start_jingle, end_jingle) = jingles;
    let mut queue: Vec<String> = Vec::new();
    match &start_jingle {
        Some(p) => queue.push(p.clone()),
        None => {
        },
    }
    let ghost files0 = files@;
    let mut files = files;
    queue.append(&mut files);
    match &end_jingle {
        Some(p) => queue.push(p.clone()),
        None => {
        },
    }
    proof {
        assert(queue@ =~= spec_block_of(*pl, files0));
    }
    queue
}

/// Ramps the volume from 100 down to 0 in steps of 10 with a fade pause
/// between steps, then pauses the device; a no-op when nothing is playing.
fn fade_out<P: PlaybackPort, C: Scheduler>(port: &mut P, sched: &mut C) {
    if !port.is_playing() {
        return ;
    }
    let mut i: u8 = 0;
    while i < 10
        invariant
            i <= 10,
        decreases 10 - i,
    {
        port.set_volume(90 - i * 10);
        sched.wait_fade_step();
        i += 1;
    }
    port.pause();
}

/// The dispatch state machine with its injected collaborators.
pub struct Player<S, M, P, C, R> where
    S: PlaylistStore,
    M: MediaEnumerator,
    P: PlaybackPort,
    C: Scheduler,
    R: RandomSource,
 {
    pub store: S,
    pub media: M,
    pub port: P,
    pub sched: C,
    pub rng: R,
    pub node_config: NodeConfig,
    pub status: PlayerState,
    pub playlist: Option<Playlist>,
    pub next_track_index: usize,
    pub prev_datetime: DateTime,
}

impl<S, M, P, C, R> Player<S, M, P, C, R> where
    S: PlaylistStore,
    M: MediaEnumerator,
    P: PlaybackPort,
    C: Scheduler,
    R: RandomSource,
 {
    /// A music queue is non-empty with its cursor inside it; an
    /// advertisement block has had its first item started and its cursor
    /// never runs past its end.
    pub open spec fn wf(self) -> bool {
        match self.status {
            PlayerState::MusicPlaying { queue, cursor } => queue@.len() > 0 && cursor
                < queue@.len(),
            PlayerState::Advertizement { queue, cursor } => queue@.len() > 0 && 1 <= cursor
                <= queue@.len(),
            _ => true,
        }
    }

    pub fn new(node_config: NodeConfig, store: S, media: M, port: P, sched: C, rng: R) -> (p:
        Player<S, M, P, C, R>)
        ensures
            p.wf(),
            p.status is Stopped,
            p.playlist is None,
            p.next_track_index == 0,
            p.node_config == node_config,
    {
        Player {
            store,
            media,
            port,
            sched,
            rng,
            node_config,
            status: PlayerState::Stopped,
            playlist: None,
            next_track_index: 0,
            prev_datetime: DateTime::new(
                crate::datetime::Date::new(1970, 1, 1),
                crate::datetime::Time::new(0, 0, 0),
            ),
        }
    }

    /// One enumeration round for the given folders through the injected
    /// enumerator. An empty result is transient: the dispatch loop retries
    /// on the next tick.
    pub fn load_media_files_list_from_dirs(&mut self, dirs: &Vec<String>) -> (files: Vec<String>)
        ensures
            final(self).status == old(self).status,
            final(self).playlist == old(self).playlist,
            final(self).next_track_index == old(self).next_track_index,
            final(self).node_config == old(self).node_config,
            final(self).prev_datetime == old(self).prev_datetime,
    {
        self.media.list_files(dirs)
    }

    /// One resolution attempt: fetches the default document and, for a
    /// named node, the override document, and resolves them.
    fn read_playlist(&mut self) -> (pl: Option<Playlist>)
        ensures
            final(self).status == old(self).status,
            final(self).playlist == old(self).playlist,
            final(self).next_track_index == old(self).next_track_index,
            final(self).node_config == old(self).node_config,
            final(self).prev_datetime == old(self).prev_datetime,
    {
        let default_doc = self.store.fetch_default();
        let node_doc = match &self.node_config.node.name {
            Some(name) => self.store.fetch_for_node(name),
            None => None,
        };
        Playlist::read_from_config(default_doc, node_doc)
    }

    /// One dispatch round for the current state.
    pub fn step(&mut self)
        requires
            old(self).wf(),
        ensures
            final(self).wf(),
            final(self).node_config == old(self).node_config,
            old(self).status is Stopped ==> (final(self).status is Stopped || (final(self).status is MusicPlaying && final(self).playlist is Some)),
            old(self).status is Stopped ==> (final(self).status is Stopped ==> (final(self).status
                == old(self).status && final(self).playlist == old(self).playlist && final(self).next_track_index == old(self).next_track_index)),
            old(self).status is Stopped ==> (final(self).status
                matches PlayerState::MusicPlaying { queue, cursor } ==> cursor < queue@.len() && (
            final(self).next_track_index == (cursor + 1) % (queue@.len() as int)) && (final(self).playlist matches Some(pl) ==> (!spec_shuffle(pl) ==> cursor == (old(self).next_track_index as int) % (queue@.len() as int)))),
            old(self).status is MusicPlaying ==> (final(self).playlist == old(self).playlist
                && final(self).next_track_index == old(self).next_track_index),
            (old(self).status is MusicPlaying && final(self).status is MusicPlaying) ==> final(self).status == old(self).status,
            old(self).status is MusicPlaying ==> (final(self).status
                matches PlayerState::Advertizement { queue, cursor } ==> (cursor == 1 && (old(self).playlist matches Some(pl) && spec_is_ad_block(pl, queue@)))),
            old(self).status is Advertizement ==> (final(self).status is Advertizement || final(self).status is Stopped),
            old(self).status is Advertizement ==> (final(self).playlist == old(self).playlist
                && final(self).next_track_index == old(self).next_track_index),
            old(self).status matches PlayerState::Advertizement { queue: q0, cursor: c0 } ==> ((
            final(self).status matches PlayerState::Advertizement { queue, cursor } ==> (queue@
                == q0@ && (cursor == c0 || cursor == c0 + 1))) && (final(self).status is Stopped
                ==> c0 == q0@.len())),
            old(self).status is TimeAnnouncement ==> (final(self).status is TimeAnnouncement
                || final(self).status is Stopped),
            old(self).status is TimeAnnouncement ==> (final(self).playlist == old(self).playlist
                && final(self).next_track_index == old(self).next_track_index),
            (old(self).status is TimeAnnouncement && final(self).status is TimeAnnouncement)
                ==> final(self).status == old(self).status,
    {
        let tag: u8 = match &self.status {
            PlayerState::Stopped => 0,
            PlayerState::MusicPlaying { .. } => 1,
            PlayerState::Advertizement { .. } => 2,
            PlayerState::TimeAnnouncement { .. } => 3,
        };
        if tag == 0 {
            self.step_stopped();
        } else if tag == 1 {
            self.step_playing();
        } else if tag == 2 {
            self.step_advertizement();
        } else {
            self.step_announcement();
        }
    }

    /// `Stopped`: re-resolve the playlist (an absent document waits one
    /// tick); outside working hours or with no matching music folders, wait
    /// one tick and remain `Stopped`; an empty enumeration likewise waits
    /// one tick. Otherwise pick the starting cursor (sequential, or drawn
    /// below the queue length when shuffling), start that track and enter
    /// `MusicPlaying`, advancing the sequential cursor modulo the queue
    /// length for next time.
    fn step_stopped(&mut self)
        requires
            old(self).status is Stopped,
        ensures
            final(self).wf(),
            final(self).node_config == old(self).node_config,
            final(self).status is Stopped || (final(self).status is MusicPlaying && final(self).playlist is Some),
            (final(self).status matches PlayerState::MusicPlaying { queue, cursor } ==> cursor
                < queue@.len() && (final(self).next_track_index == (cursor + 1) % (
            queue@.len() as int)) && (final(self).playlist matches Some(pl) ==> (!spec_shuffle(pl)
                ==> cursor == (old(self).next_track_index as int) % (queue@.len() as int)))),
            final(self).status is Stopped ==> (final(self).playlist == old(self).playlist && final(self).next_track_index == old(self).next_track_index && final(self).status == old(self).status),
    {
        let pl = match self.read_playlist() {
            Some(pl) => pl,
            None => {
                self.sched.wait_tick();
                return ;
            },
        };
        let now = self.sched.now();
        match stopped_decision(&pl, &now) {
            StoppedDecision::StayStopped => {
                self.sched.wait_tick();
            },
            StoppedDecision::BeginMusic { folders, shuffle } => {
                let files = self.media.list_files(&folders);
                let count = files.len();
                if count == 0 {
                    self.sched.wait_tick();
                    return ;
                }
                let cursor = if shuffle {
                    self.rng.below(count)
                } else {
                    self.next_track_index % count
                };
                play_non_blocking(&mut self.port, &self.node_config.media.folder, &files[cursor]);
                self.next_track_index = (cursor + 1) % count;
                self.prev_datetime = now;
                self.status = PlayerState::MusicPlaying { queue: files, cursor };
                self.playlist = Some(pl);
            },
        }
    }

    /// `MusicPlaying`: wait one tick, then apply the priority rules; on any
    /// interruption other than the track's own end, fade out first. An
    /// advertisement window whose folders enumerate to nothing leaves the
    /// music playing and is retried next tick while the window lasts.
    fn step_playing(&mut self)
        requires
            old(self).wf(),
            old(self).status is MusicPlaying,
        ensures
            final(self).wf(),
            final(self).node_config == old(self).node_config,
            final(self).playlist == old(self).playlist,
            final(self).next_track_index == old(self).next_track_index,
            final(self).status is MusicPlaying ==> final(self).status == old(self).status,
            (final(self).status matches PlayerState::Advertizement { queue, cursor } ==> (cursor
                == 1 && (old(self).playlist matches Some(pl) && spec_is_ad_block(pl, queue@)))),
    {
        self.sched.wait_tick();
        let still_playing = self.port.is_playing();
        let now = self.sched.now();
        let prev = self.prev_datetime;
        let has_playlist = match &self.playlist {
            Some(_) => true,
            None => false,
        };
        if !has_playlist {
            if !still_playing {
                self.status = PlayerState::Stopped;
            }
            return ;
        }
        let decision = match &self.playlist {
            Some(pl) => playing_decision(pl, &now, &prev, still_playing),
            None => PlayingDecision::KeepPlaying,
        };
        match decision {
            PlayingDecision::TrackOver => {
                self.status = PlayerState::Stopped;
            },
            PlayingDecision::WorkingTimeOver => {
                fade_out(&mut self.port, &mut self.sched);
                self.status = PlayerState::Stopped;
            },
            PlayingDecision::AdvertizementDue { folders } => {
                let listed = self.media.list_files(&folders);
                if listed.len() == 0 {
                    self.prev_datetime = now;
                    return ;
                }
                let queue = match &self.playlist {
                    Some(pl) => {
                        let queue = assemble_ad_block(pl, listed);
                        proof {
                            assert(spec_is_ad_block(*pl, queue@));
                        }
                        queue
                    },
                    None => listed,
                };
                fade_out(&mut self.port, &mut self.sched);
                play_non_blocking(&mut self.port, &self.node_config.media.folder, &queue[0]);
                self.status = PlayerState::Advertizement { queue, cursor: 1 };
            },
            PlayingDecision::AnnouncementDue { file } => {
                fade_out(&mut self.port, &mut self.sched);
                play_non_blocking(&mut self.port, &self.node_config.media.folder, &file);
                self.status = PlayerState::TimeAnnouncement { file };
            },
            PlayingDecision::KeepPlaying => {
                self.prev_datetime = now;
            },
        }
    }

    /// `Advertizement`: wait one tick; while the current block item still
    /// plays, keep waiting; when it ends, start the next item, and after
    /// the last one return to `Stopped` unconditionally. No scheduling rule
    /// is re-checked during the block.
    fn step_advertizement(&mut self)
        requires
            old(self).wf(),
            old(self).status is Advertizement,
        ensures
            final(self).wf(),
            final(self).node_config == old(self).node_config,
            final(self).playlist == old(self).playlist,
            final(self).next_track_index == old(self).next_track_index,
            final(self).status is Advertizement || final(self).status is Stopped,
            old(self).status matches PlayerState::Advertizement { queue: q0, cursor: c0 } ==> ((
            final(self).status matches PlayerState::Advertizement { queue, cursor } ==> (queue@
                == q0@ && (cursor == c0 || cursor == c0 + 1))) && (final(self).status is Stopped
                ==> c0 == q0@.len())),
    {
        self.sched.wait_tick();
        if self.port.is_playing() {
            return ;
        }
        let pair = match &self.status {
            PlayerState::Advertizement { queue, cursor } => (clone_strings(queue), *cursor),
            _ => (Vec::new(), 0),
        };
        let (queue, cursor) = pair;
        if cursor < queue.len() {
            play_non_blocking(&mut self.port, &self.node_config.media.folder, &queue[cursor]);
            self.status = PlayerState::Advertizement { queue, cursor: cursor + 1 };
        } else {
            self.status = PlayerState::Stopped;
        }
    }

    /// `TimeAnnouncement`: wait one tick; when the announcement has ended,
    /// return to `Stopped` unconditionally.
    fn step_announcement(&mut self)
        requires
            old(self).status is TimeAnnouncement,
        ensures
            final(self).wf(),
            final(self).node_config == old(self).node_config,
            final(self).playlist == old(self).playlist,
            final(self).next_track_index == old(self).next_track_index,
            final(self).status is TimeAnnouncement || final(self).status is Stopped,
            final(self).status is TimeAnnouncement ==> final(self).status == old(self).status,
    {
        self.sched.wait_tick();
        if self.port.is_playing() {
            return ;
        }
        self.status = PlayerState::Stopped;
    }

    /// Runs up to `ticks` dispatch rounds; the embedding program calls this
    /// in its own loop to run the node indefinitely.
    pub fn start(&mut self, ticks: u64)
        requires
            old(self).wf(),
        ensures
            final(self).wf(),
            final(self).node_config == old(self).node_config,
    {
        let mut remaining: u64 = ticks;
        while remaining > 0
            invariant
                self.wf(),
                self.node_config == old(self).node_config,
            decreases remaining,
        {
            self.step();
            remaining = remaining - 1;
        }
    }
}

} // verus!
