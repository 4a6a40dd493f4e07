use playout::config::NodeConfig;
use playout::datetime::{Date, DateTime, Time};
use playout::player::{Player, PlayerState};
use playout::playlist::{
    Advertizement, Music, MusicSchedule, Playlist, WorkingHours, WorkingHoursSchedule,
};
use playout::player::resolve_media_path;
use playout::ports::{
    Lcg, ManualScheduler, MediaEnumerator, PlaybackPort, PlaylistStore, RandomSource, Scheduler,
};

fn t(h: u32, m: u32, s: u32) -> Time {
    Time::new(h, m, s)
}

fn d(y: u32, m: u32, day: u32) -> Date {
    Date::new(y, m, day)
}

fn dt(h: u32, m: u32, s: u32) -> DateTime {
    DateTime::new(d(2023, 6, 1), t(h, m, s))
}

fn folders(names: &[&str]) -> Vec<String> {
    names.iter().map(|s| s.to_string()).collect()
}

fn playlist(shuffle: bool) -> Playlist {
    Playlist {
        working_hours: Some(WorkingHours {
            schedule: Some(vec![WorkingHoursSchedule(t(8, 0, 0), t(17, 0, 0)); 7]),
            exceptions: None,
        }),
        music: Some(Music {
            shuffle: Some(shuffle),
            schedule: Some(vec![MusicSchedule(
                d(1970, 1, 1),
                d(1970, 12, 31),
                folders(&["music"]),
            )]),
        }),
        advertizement: Some(Advertizement {
            schedule: Some(vec![(t(0, 15, 0), folders(&["ads"]))]),
            start_jingle: Some("jingle_start.mp3".to_string()),
            end_jingle: Some("jingle_end.mp3".to_string()),
        }),
        time_announcement: None,
    }
}

struct FixedStore {
    doc: Option<Playlist>,
}

impl PlaylistStore for FixedStore {
    fn fetch_default(&mut self) -> Option<Playlist> {
        self.doc.clone()
    }

    fn fetch_for_node(&mut self, _node_name: &String) -> Option<Playlist> {
        None
    }
}

struct ScriptedMedia {
    responses: Vec<Vec<String>>,
    calls: usize,
}

impl MediaEnumerator for ScriptedMedia {
    fn list_files(&mut self, _folders: &Vec<String>) -> Vec<String> {
        let r = if self.calls < self.responses.len() {
            self.responses[self.calls].clone()
        } else {
            self.responses.last().cloned().unwrap_or_default()
        };
        self.calls += 1;
        r
    }
}

/// Records every command and answers `is_playing` from a script, `false`
/// once the script runs out.
struct LogPort {
    log: Vec<String>,
    playing_script: Vec<bool>,
    pos: usize,
}

impl LogPort {
    fn new(playing_script: Vec<bool>) -> LogPort {
        LogPort { log: Vec::new(), playing_script, pos: 0 }
    }
}

impl PlaybackPort for LogPort {
    fn load_and_play(&mut self, path: &String) {
        self.log.push(format!("play:{}", path));
    }

    fn set_volume(&mut self, volume: u8) {
        self.log.push(format!("vol:{}", volume));
    }

    fn pause(&mut self) {
        self.log.push("pause".to_string());
    }

    fn is_playing(&mut self) -> bool {
        let r = if self.pos < self.playing_script.len() {
            self.playing_script[self.pos]
        } else {
            false
        };
        self.pos += 1;
        r
    }
}

/// Hands out a fixed sequence of draws.
struct FixedRng {
    draws: Vec<usize>,
    pos: usize,
}

impl RandomSource for FixedRng {
    fn below(&mut self, bound: usize) -> usize {
        let r = if self.pos < self.draws.len() { self.draws[self.pos] } else { 0 };
        self.pos += 1;
        r % bound
    }
}

type TestPlayer = Player<FixedStore, ScriptedMedia, LogPort, ManualScheduler, FixedRng>;

fn make_player(
    doc: Option<Playlist>,
    responses: Vec<Vec<String>>,
    playing_script: Vec<bool>,
    draws: Vec<usize>,
    now: DateTime,
) -> TestPlayer {
    Player::new(
        NodeConfig::new("/media".to_string(), Some("node1".to_string())),
        FixedStore { doc },
        ScriptedMedia { responses, calls: 0 },
        LogPort::new(playing_script),
        ManualScheduler::new(now),
        FixedRng { draws, pos: 0 },
    )
}

fn is_stopped(p: &TestPlayer) -> bool {
    matches!(p.status, PlayerState::Stopped)
}

fn music_cursor(p: &TestPlayer) -> Option<usize> {
    match &p.status {
        PlayerState::MusicPlaying { cursor, .. } => Some(*cursor),
        _ => None,
    }
}

#[test]
fn stopped_stays_outside_working_hours() {
    let mut p = make_player(
        Some(playlist(false)),
        vec![vec!["music/a.mp3".to_string()]],
        vec![],
        vec![],
        dt(7, 0, 0),
    );
    for _ in 0..3 {
        p.step();
        assert!(is_stopped(&p));
    }
    assert!(p.port.log.is_empty());
}

#[test]
fn stopped_stays_without_playlist_document() {
    let mut p = make_player(None, vec![vec!["music/a.mp3".to_string()]], vec![], vec![], dt(10, 0, 0));
    for _ in 0..3 {
        p.step();
        assert!(is_stopped(&p));
    }
}

#[test]
fn empty_enumeration_retries_each_tick_then_proceeds() {
    // The matched schedule entry resolves to zero files twice; the
    // dispatcher keeps retrying without failing, then proceeds.
    let mut p = make_player(
        Some(playlist(false)),
        vec![vec![], vec![], vec!["music/a.mp3".to_string()]],
        vec![],
        vec![],
        dt(10, 0, 0),
    );
    p.step();
    assert!(is_stopped(&p));
    p.step();
    assert!(is_stopped(&p));
    p.step();
    assert!(matches!(p.status, PlayerState::MusicPlaying { .. }));
    assert_eq!(p.media.calls, 3);
    assert_eq!(p.port.log, vec!["vol:100".to_string(), "play:/media/music/a.mp3".to_string()]);
}

#[test]
fn sequential_cursor_starts_at_zero_and_advances_modulo() {
    let queue = vec![
        "music/a.mp3".to_string(),
        "music/b.mp3".to_string(),
        "music/c.mp3".to_string(),
    ];
    // Every `is_playing` poll reports false, so each played track ends on
    // the next tick and the player bounces through Stopped to the next one.
    let mut p = make_player(Some(playlist(false)), vec![queue], vec![], vec![], dt(10, 0, 0));
    let mut played_cursors = Vec::new();
    for _ in 0..8 {
        p.step();
        if let Some(c) = music_cursor(&p) {
            played_cursors.push(c);
        }
    }
    assert_eq!(played_cursors, vec![0, 1, 2, 0]);
    let plays: Vec<&String> = p.port.log.iter().filter(|e| e.starts_with("play:")).collect();
    assert_eq!(
        plays,
        vec![
            "play:/media/music/a.mp3",
            "play:/media/music/b.mp3",
            "play:/media/music/c.mp3",
            "play:/media/music/a.mp3",
        ]
    );
}

#[test]
fn shuffle_draws_cursor_below_queue_length() {
    let queue = vec![
        "music/a.mp3".to_string(),
        "music/b.mp3".to_string(),
        "music/c.mp3".to_string(),
    ];
    let mut p = make_player(Some(playlist(true)), vec![queue], vec![], vec![2], dt(10, 0, 0));
    p.step();
    assert_eq!(music_cursor(&p), Some(2));
    assert_eq!(p.next_track_index, 0);
    assert_eq!(p.port.log.last().unwrap(), "play:/media/music/c.mp3");
}

#[test]
fn advertisement_window_fades_then_plays_block_then_stops() {
    // One step enters MusicPlaying; the clock then moves into the :15
    // advertisement window while the track still plays.
    let mut p = make_player(
        Some(playlist(false)),
        vec![
            vec!["music/a.mp3".to_string()],
            vec!["ads/x.mp3".to_string(), "ads/y.mp3".to_string()],
        ],
        // First poll: the decision sees the track still playing; second:
        // fade-out sees it playing too; afterwards each block item has
        // ended whenever polled.
        vec![true, true],
        vec![],
        dt(10, 0, 0),
    );
    p.step();
    assert!(matches!(p.status, PlayerState::MusicPlaying { .. }));
    p.sched.current = dt(10, 15, 0);
    p.step();
    match &p.status {
        PlayerState::Advertizement { queue, cursor } => {
            assert_eq!(
                queue,
                &vec![
                    "jingle_start.mp3".to_string(),
                    "ads/x.mp3".to_string(),
                    "ads/y.mp3".to_string(),
                    "jingle_end.mp3".to_string(),
                ]
            );
            assert_eq!(*cursor, 1);
        },
        other => panic!("expected advertisement block, got {:?}", other),
    }
    // The current track was faded, not cut: full ramp then pause, before
    // the jingle starts.
    let log = p.port.log.clone();
    let fade_start = log.iter().position(|e| e == "vol:90").unwrap();
    let ramp: Vec<String> = (0..10).map(|k| format!("vol:{}", 90 - k * 10)).collect();
    assert_eq!(&log[fade_start..fade_start + 10], &ramp[..]);
    assert_eq!(log[fade_start + 10], "pause");
    assert_eq!(log[fade_start + 11], "vol:100");
    assert_eq!(log[fade_start + 12], "play:/media/jingle_start.mp3");
    // The block then plays in order and lands on Stopped, never directly
    // back on MusicPlaying.
    let mut states = Vec::new();
    for _ in 0..4 {
        p.step();
        states.push(matches!(p.status, PlayerState::MusicPlaying { .. }));
    }
    assert!(is_stopped(&p));
    assert!(states.iter().all(|m| !m));
    let plays: Vec<&String> = p.port.log.iter().filter(|e| e.starts_with("play:")).collect();
    assert_eq!(
        plays,
        vec![
            "play:/media/music/a.mp3",
            "play:/media/jingle_start.mp3",
            "play:/media/ads/x.mp3",
            "play:/media/ads/y.mp3",
            "play:/media/jingle_end.mp3",
        ]
    );
}

#[test]
fn working_hours_end_fades_then_stops_and_does_not_resume() {
    let mut p = make_player(
        Some(playlist(false)),
        vec![vec!["music/a.mp3".to_string()]],
        // The track keeps playing: the decision poll and the fade poll see
        // true, as would any later poll.
        vec![true; 32],
        vec![],
        dt(16, 59, 0),
    );
    p.step();
    assert!(matches!(p.status, PlayerState::MusicPlaying { .. }));
    // Working hours end mid-track.
    p.sched.current = dt(17, 30, 0);
    p.step();
    assert!(is_stopped(&p));
    let log = p.port.log.clone();
    let fade_start = log.iter().position(|e| e == "vol:90").unwrap();
    let ramp: Vec<String> = (0..10).map(|k| format!("vol:{}", 90 - k * 10)).collect();
    assert_eq!(&log[fade_start..fade_start + 10], &ramp[..]);
    assert_eq!(log[fade_start + 10], "pause");
    // The node stays silent while working hours remain over.
    let plays_before = p.port.log.iter().filter(|e| e.starts_with("play:")).count();
    for _ in 0..5 {
        p.step();
        assert!(is_stopped(&p));
    }
    let plays_after = p.port.log.iter().filter(|e| e.starts_with("play:")).count();
    assert_eq!(plays_before, plays_after);
    // When working hours next become true, playback resumes.
    p.sched.current = DateTime::new(d(2023, 6, 2), t(9, 0, 0));
    p.step();
    assert!(matches!(p.status, PlayerState::MusicPlaying { .. }));
}

#[test]
fn hour_change_triggers_time_announcement() {
    let mut pl = playlist(false);
    pl.advertizement = None;
    pl.time_announcement =
        Some(playout::playlist::TimeAnnouncement { folder: Some("time".to_string()) });
    let mut p = make_player(
        Some(pl),
        vec![vec!["music/a.mp3".to_string()]],
        vec![true, true],
        vec![],
        dt(10, 59, 0),
    );
    p.step();
    assert!(matches!(p.status, PlayerState::MusicPlaying { .. }));
    p.sched.current = dt(11, 0, 0);
    p.step();
    match &p.status {
        PlayerState::TimeAnnouncement { file } => assert_eq!(file, "time/11_00.mp3"),
        other => panic!("expected announcement, got {:?}", other),
    }
    // The announcement has ended by the next poll: back to Stopped, never
    // directly to MusicPlaying.
    p.step();
    assert!(is_stopped(&p));
}

#[test]
fn track_end_returns_to_stopped_then_next_track() {
    let mut p = make_player(
        Some(playlist(false)),
        vec![vec!["music/a.mp3".to_string(), "music/b.mp3".to_string()]],
        vec![],
        vec![],
        dt(10, 0, 0),
    );
    p.step();
    assert_eq!(music_cursor(&p), Some(0));
    // Track over on the next tick: through Stopped...
    p.step();
    assert!(is_stopped(&p));
    // ...and the following round starts the next track.
    p.step();
    assert_eq!(music_cursor(&p), Some(1));
}

#[test]
fn start_runs_the_given_number_of_rounds() {
    let mut p = make_player(
        Some(playlist(false)),
        vec![vec!["music/a.mp3".to_string()]],
        vec![],
        vec![],
        dt(7, 0, 0),
    );
    p.start(5);
    assert!(is_stopped(&p));
}

#[test]
fn resolve_media_path_joins_only_unrooted_paths() {
    assert_eq!(
        resolve_media_path(&"/media".to_string(), &"music/a.mp3".to_string()),
        "/media/music/a.mp3"
    );
    assert_eq!(
        resolve_media_path(&"/media".to_string(), &"/media/music/a.mp3".to_string()),
        "/media/music/a.mp3"
    );
    // An absolute path outside the media root is used as given, as a path
    // join would replace the base with it.
    assert_eq!(
        resolve_media_path(&"/media".to_string(), &"/mnt/share/x.mp3".to_string()),
        "/mnt/share/x.mp3"
    );
    // A sibling folder that merely shares the root's spelling is still
    // joined.
    assert_eq!(
        resolve_media_path(&"media".to_string(), &"media2/x.mp3".to_string()),
        "media/media2/x.mp3"
    );
}

#[test]
fn lcg_source_is_seedable_and_bounded() {
    let mut a = Lcg::new(42);
    let mut b = Lcg::new(42);
    let mut c = Lcg::new(43);
    let mut all_equal_to_c = true;
    for bound in [1usize, 2, 7, 100] {
        let x = a.below(bound);
        assert!(x < bound);
        assert_eq!(x, b.below(bound));
        if x != c.below(bound) {
            all_equal_to_c = false;
        }
    }
    assert!(!all_equal_to_c);
}

#[test]
fn shuffle_through_lcg_lands_inside_queue() {
    let queue = vec![
        "music/a.mp3".to_string(),
        "music/b.mp3".to_string(),
        "music/c.mp3".to_string(),
    ];
    let mut p: Player<FixedStore, ScriptedMedia, LogPort, ManualScheduler, Lcg> =
        Player::new(
            NodeConfig::new("/media".to_string(), None),
            FixedStore { doc: Some(playlist(true)) },
            ScriptedMedia { responses: vec![queue], calls: 0 },
            LogPort::new(vec![]),
            ManualScheduler::new(dt(10, 0, 0)),
            Lcg::new(7),
        );
    p.step();
    let cursor = match &p.status {
        PlayerState::MusicPlaying { cursor, .. } => *cursor,
        other => panic!("expected music, got {:?}", other),
    };
    assert!(cursor < 3);
}

/// A store with an override document but no default document.
struct OverrideOnlyStore {
    node_doc: Option<Playlist>,
}

impl PlaylistStore for OverrideOnlyStore {
    fn fetch_default(&mut self) -> Option<Playlist> {
        None
    }

    fn fetch_for_node(&mut self, _node_name: &String) -> Option<Playlist> {
        self.node_doc.clone()
    }
}

#[test]
fn absent_default_document_blocks_resolution() {
    // Even with an override document present, an absent default keeps the
    // node idle.
    let mut p: Player<OverrideOnlyStore, ScriptedMedia, LogPort, ManualScheduler, FixedRng> =
        Player::new(
            NodeConfig::new("/media".to_string(), Some("node1".to_string())),
            OverrideOnlyStore { node_doc: Some(playlist(false)) },
            ScriptedMedia { responses: vec![vec!["music/a.mp3".to_string()]], calls: 0 },
            LogPort::new(vec![]),
            ManualScheduler::new(dt(10, 0, 0)),
            FixedRng { draws: vec![], pos: 0 },
        );
    for _ in 0..3 {
        p.step();
        assert!(matches!(p.status, PlayerState::Stopped));
    }
    assert!(p.port.log.is_empty());
}

#[test]
fn manual_scheduler_falls_back_to_epoch_on_invalid_datetime() {
    let mut sched = ManualScheduler::new(DateTime::new(d(2023, 13, 99), t(99, 99, 99)));
    let now = sched.now();
    assert_eq!(now.date.year, 1970);
    assert_eq!(now.date.month, 1);
    let mut ok = ManualScheduler::new(dt(10, 0, 0));
    assert_eq!(ok.now(), dt(10, 0, 0));
}
