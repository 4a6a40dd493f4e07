//! The playlist data model and the schedule resolver: merging a default
//! document with a per-node override, and answering the time-based queries
//! (working hours, music folders for a date, advertisement folders for a
//! minute of the hour, hourly announcement file, jingle paths).

use vstd::prelude::*;
use vstd::string::StringExecFns;

use crate::datetime::{Date, DateTime, Time, spec_weekday_from_monday};
use crate::strutil::{clone_strings, push_char, push_two_digits, two_digit_chars};

verus! {

/// One weekday's working interval: (opening time, closing time), inclusive
/// on both ends.
#[derive(Clone, Copy, PartialEq, Eq, Structural, Debug)]
pub struct WorkingHoursSchedule(pub Time, pub Time);

/// Working hours: one interval per weekday (Monday = index 0), plus exact
/// calendar-date exceptions that replace the weekday's interval wholesale.
#[derive(Clone, Debug)]
pub struct WorkingHours {
    pub schedule: Option<Vec<WorkingHoursSchedule>>,
    pub exceptions: Option<Vec<(Date, WorkingHoursSchedule)>>,
}

/// One music schedule entry: (range start date, range end date, folders).
/// A start date with year 1970 marks an annually recurring window compared
/// by month and day only.
#[derive(Clone, Debug)]
pub struct MusicSchedule(pub Date, pub Date, pub Vec<String>);

#[derive(Clone, Debug)]
pub struct Music {
    pub shuffle: Option<bool>,
    pub schedule: Option<Vec<MusicSchedule>>,
}

/// Advertisement windows: a minute-of-hour key (a time value whose hour and
/// second must be zero to ever match) mapped to folders, with optional
/// jingles bracketing each advertisement block.
#[derive(Clone, Debug)]
pub struct Advertizement {
    pub schedule: Option<Vec<(Time, Vec<String>)>>,
    pub start_jingle: Option<String>,
    pub end_jingle: Option<String>,
}

#[derive(Clone, Debug)]
pub struct TimeAnnouncement {
    pub folder: Option<String>,
}

/// A playlist document; every section is optional.
#[derive(Clone, Debug)]
pub struct Playlist {
    pub working_hours: Option<WorkingHours>,
    pub music: Option<Music>,
    pub advertizement: Option<Advertizement>,
    pub time_announcement: Option<TimeAnnouncement>,
}

/// The value for the first entry whose key equals `k`, if any.
pub open spec fn assoc_lookup<K, V>(s: Seq<(K, V)>, k: K) -> Option<V>
    decreases s.len(),
{
    if s.len() == 0 {
        None
    } else if s[0].0 == k {
        Some(s[0].1)
    } else {
        assoc_lookup(s.drop_first(), k)
    }
}

/// `a` unless it is absent, else `b`.
pub open spec fn spec_opt_or<T>(a: Option<T>, b: Option<T>) -> Option<T> {
    if a is Some {
        a
    } else {
        b
    }
}

fn opt_or<T>(a: Option<T>, b: Option<T>) -> (r: Option<T>)
    ensures
        r == spec_opt_or(a, b),
{
    match a {
        Some(x) => Some(x),
        None => b,
    }
}

/// Field-by-field merge of two present working-hours sections; the second
/// (override) wins wherever it is set.
pub open spec fn spec_merge_working_hours(f: WorkingHours, s: WorkingHours) -> WorkingHours {
    WorkingHours {
        schedule: spec_opt_or(s.schedule, f.schedule),
        exceptions: spec_opt_or(s.exceptions, f.exceptions),
    }
}

pub open spec fn spec_merge_music(f: Music, s: Music) -> Music {
    Music { shuffle: spec_opt_or(s.shuffle, f.shuffle), schedule: spec_opt_or(s.schedule, f.schedule) }
}

pub open spec fn spec_merge_advertizement(f: Advertizement, s: Advertizement) -> Advertizement {
    Advertizement {
        schedule: spec_opt_or(s.schedule, f.schedule),
        start_jingle: spec_opt_or(s.start_jingle, f.start_jingle),
        end_jingle: spec_opt_or(s.end_jingle, f.end_jingle),
    }
}

pub open spec fn spec_merge_time_announcement(
    f: TimeAnnouncement,
    s: TimeAnnouncement,
) -> TimeAnnouncement {
    TimeAnnouncement { folder: spec_opt_or(s.folder, f.folder) }
}

/// Merge of two optional playlist documents: a section present on only one
/// side is taken wholesale; a section present on both sides is merged field
/// by field with the second (override) document winning.
pub open spec fn spec_merge(first: Option<Playlist>, second: Option<Playlist>) -> Option<
    Playlist,
> {
    match (first, second) {
        (Some(f), None) => Some(f),
        (None, Some(s)) => Some(s),
        (Some(f), Some(s)) => Some(
            Playlist {
                working_hours: match (f.working_hours, s.working_hours) {
                    (Some(fw), Some(sw)) => Some(spec_merge_working_hours(fw, sw)),
                    (Some(fw), None) => Some(fw),
                    (None, Some(sw)) => Some(sw),
                    (None, None) => None,
                },
                music: match (f.music, s.music) {
                    (Some(fm), Some(sm)) => Some(spec_merge_music(fm, sm)),
                    (Some(fm), None) => Some(fm),
                    (None, Some(sm)) => Some(sm),
                    (None, None) => None,
                },
                advertizement: match (f.advertizement, s.advertizement) {
                    (Some(fa), Some(sa)) => Some(spec_merge_advertizement(fa, sa)),
                    (Some(fa), None) => Some(fa),
                    (None, Some(sa)) => Some(sa),
                    (None, None) => None,
                },
                time_announcement: match (f.time_announcement, s.time_announcement) {
                    (Some(ft), Some(st)) => Some(spec_merge_time_announcement(ft, st)),
                    (Some(ft), None) => Some(ft),
                    (None, Some(st)) => Some(st),
                    (None, None) => None,
                },
            },
        ),
        (None, None) => None,
    }
}

/// Merges the default document (`first`) with the override document
/// (`second`); the override wins field by field.
pub fn merge_playlists(first: Option<Playlist>, second: Option<Playlist>) -> (r: Option<Playlist>)
    ensures
        r == spec_merge(first, second),
{
    match (first, second) {
        (Some(f), None) => Some(f),
        (None, Some(s)) => Some(s),
        (Some(f), Some(s)) => {
            let working_hours = match (f.working_hours, s.working_hours) {
                (Some(fw), Some(sw)) => Some(
                    WorkingHours {
                        schedule: opt_or(sw.schedule, fw.schedule),
                        exceptions: opt_or(sw.exceptions, fw.exceptions),
                    },
                ),
                (Some(fw), None) => Some(fw),
                (None, Some(sw)) => Some(sw),
                (None, None) => None,
            };
            let music = match (f.music, s.music) {
                (Some(fm), Some(sm)) => Some(
                    Music {
                        shuffle: opt_or(sm.shuffle, fm.shuffle),
                        schedule: opt_or(sm.schedule, fm.schedule),
                    },
                ),
                (Some(fm), None) => Some(fm),
                (None, Some(sm)) => Some(sm),
                (None, None) => None,
            };
            let advertizement = match (f.advertizement, s.advertizement) {
                (Some(fa), Some(sa)) => Some(
                    Advertizement {
                        schedule: opt_or(sa.schedule, fa.schedule),
                        start_jingle: opt_or(sa.start_jingle, fa.start_jingle),
                        end_jingle: opt_or(sa.end_jingle, fa.end_jingle),
                    },
                ),
                (Some(fa), None) => Some(fa),
                (None, Some(sa)) => Some(sa),
                (None, None) => None,
            };
            let time_announcement = match (f.time_announcement, s.time_announcement) {
                (Some(ft), Some(st)) => Some(
                    TimeAnnouncement { folder: opt_or(st.folder, ft.folder) },
                ),
                (Some(ft), None) => Some(ft),
                (None, Some(st)) => Some(st),
                (None, None) => None,
            };
            Some(Playlist { working_hours, music, advertizement, time_announcement })
        },
        (None, None) => None,
    }
}

/// Merging a document with itself changes nothing.
pub proof fn lemma_merge_idempotent(p: Option<Playlist>)
    ensures
        spec_merge(p, p) == p,
{
    match p {
        None => {
        },
        Some(x) => {
            assert(spec_merge(p, p)->Some_0 == x);
        },
    }
}

/// Every field set in the override document wins over the default; a field
/// or section absent in the override falls back to the default's.
pub proof fn lemma_merge_override_wins(f: Playlist, s: Playlist, m: Playlist)
    requires
        spec_merge(Some(f), Some(s)) == Some(m),
    ensures
        s.working_hours is None ==> m.working_hours == f.working_hours,
        f.working_hours is None ==> m.working_hours == s.working_hours,
        f.working_hours matches Some(fw) ==> s.working_hours matches Some(sw)
            ==> m.working_hours == Some(spec_merge_working_hours(fw, sw)),
        s.music is None ==> m.music == f.music,
        f.music is None ==> m.music == s.music,
        f.music matches Some(fm) ==> s.music matches Some(sm) ==> m.music == Some(
            spec_merge_music(fm, sm),
        ),
        s.advertizement is None ==> m.advertizement == f.advertizement,
        f.advertizement is None ==> m.advertizement == s.advertizement,
        f.advertizement matches Some(fa) ==> s.advertizement matches Some(sa)
            ==> m.advertizement == Some(spec_merge_advertizement(fa, sa)),
        s.time_announcement is None ==> m.time_announcement == f.time_announcement,
        f.time_announcement is None ==> m.time_announcement == s.time_announcement,
        f.time_announcement matches Some(ft) ==> s.time_announcement matches Some(st)
            ==> m.time_announcement == Some(spec_merge_time_announcement(ft, st)),
{
}

/// The effective playlist for a node, from its two fetched documents: an
/// absent default document blocks resolution outright, even when an
/// override document exists; otherwise the override is merged over the
/// default.
pub open spec fn spec_effective(default_doc: Option<Playlist>, node_doc: Option<Playlist>) -> Option<
    Playlist,
> {
    if default_doc is None {
        None
    } else {
        spec_merge(default_doc, node_doc)
    }
}

/// The date falls inside the music schedule entry's range: an entry whose
/// start year is the 1970 sentinel recurs annually and compares month and
/// day only (each component within its bounds); any other entry compares the
/// whole date chronologically, inclusive on both ends.
pub open spec fn spec_entry_matches(e: MusicSchedule, d: Date) -> bool {
    if e.0.year == 1970 {
        e.0.month <= d.month <= e.1.month && e.0.day <= d.day <= e.1.day
    } else {
        e.0.spec_le(d) && d.spec_le(e.1)
    }
}

/// The folders of the first entry that matches `d`; empty when none does.
pub open spec fn spec_music_scan(s: Seq<MusicSchedule>, d: Date) -> Seq<String>
    decreases s.len(),
{
    if s.len() == 0 {
        Seq::empty()
    } else if spec_entry_matches(s[0], d) {
        s[0].2@
    } else {
        spec_music_scan(s.drop_first(), d)
    }
}

pub open spec fn spec_music_folders(pl: Playlist, d: Date) -> Seq<String> {
    match pl.music {
        None => Seq::empty(),
        Some(m) => match m.schedule {
            None => Seq::empty(),
            Some(s) => spec_music_scan(s@, d),
        },
    }
}

/// Document order is priority order: when entry `i` matches and no earlier
/// entry does, the scan returns entry `i`'s folders, whatever later entries
/// would have matched.
pub proof fn lemma_music_first_match_wins(s: Seq<MusicSchedule>, d: Date, i: int)
    requires
        0 <= i < s.len(),
        spec_entry_matches(s[i], d),
        forall|j: int| 0 <= j < i ==> !spec_entry_matches(s[j], d),
    ensures
        spec_music_scan(s, d) == s[i].2@,
    decreases i,
{
    if i > 0 {
        lemma_music_first_match_wins(s.drop_first(), d, i - 1);
    }
}

/// The time-of-day window in force for `dt`'s date: the weekday's entry,
/// replaced wholesale by an exact-date exception when one exists; absent
/// when no schedule is configured or the weekday has no entry.
pub open spec fn spec_working_window(pl: Playlist, d: Date) -> Option<WorkingHoursSchedule> {
    match pl.working_hours {
        None => None,
        Some(wh) => match wh.schedule {
            None => None,
            Some(sched) => {
                let idx = spec_weekday_from_monday(d);
                if idx >= sched@.len() {
                    None
                } else {
                    match wh.exceptions {
                        Some(ex) => match assoc_lookup(ex@, d) {
                            Some(e) => Some(e),
                            None => Some(sched@[idx]),
                        },
                        None => Some(sched@[idx]),
                    }
                }
            },
        },
    }
}

/// `dt` lies within working hours: its time of day is inside the window in
/// force for its date, inclusive on both ends; false when no window is in
/// force.
pub open spec fn spec_is_working_time(pl: Playlist, dt: DateTime) -> bool {
    match spec_working_window(pl, dt.date) {
        None => false,
        Some(w) => w.0.spec_seconds() <= dt.time.spec_seconds() <= w.1.spec_seconds(),
    }
}

/// The advertisement lookup key for `dt`: its minute of the hour, with hour
/// and second zeroed.
pub open spec fn spec_minute_key(dt: DateTime) -> Time {
    Time { hour: 0, minute: dt.time.minute, second: 0 }
}

/// The advertisement folders for `dt`'s minute of the hour; empty when no
/// entry is keyed at that minute.
pub open spec fn spec_advertizement_folders(pl: Playlist, dt: DateTime) -> Seq<String> {
    match pl.advertizement {
        None => Seq::empty(),
        Some(a) => match a.schedule {
            None => Seq::empty(),
            Some(entries) => match assoc_lookup(entries@, spec_minute_key(dt)) {
                Some(v) => v@,
                None => Seq::empty(),
            },
        },
    }
}

/// Advertisement matching ignores the hour (and the second) entirely: two
/// datetimes with the same minute of the hour resolve identically.
pub proof fn lemma_advertizement_minute_only(pl: Playlist, dt1: DateTime, dt2: DateTime)
    requires
        dt1.time.minute == dt2.time.minute,
    ensures
        spec_advertizement_folders(pl, dt1) == spec_advertizement_folders(pl, dt2),
{
    assert(spec_minute_key(dt1) == spec_minute_key(dt2));
}

/// The hourly announcement file for `dt`: absent unless the minute is zero
/// and a folder is configured; otherwise `folder/HH_00.mp3` with the hour
/// zero-padded to two digits.
pub open spec fn spec_announcement_file(pl: Playlist, dt: DateTime) -> Option<Seq<char>> {
    if dt.time.minute > 0 {
        None
    } else {
        match pl.time_announcement {
            None => None,
            Some(ta) => match ta.folder {
                None => None,
                Some(f) => Some(f@ + seq!['/'] + two_digit_chars(dt.time.hour as int) + "_00.mp3"@),
            },
        }
    }
}

/// The configured jingle paths: (start, end).
pub open spec fn spec_jingles(pl: Playlist) -> (Option<String>, Option<String>) {
    match pl.advertizement {
        None => (None, None),
        Some(a) => (a.start_jingle, a.end_jingle),
    }
}

fn lookup_exception(entries: &Vec<(Date, WorkingHoursSchedule)>, k: &Date) -> (r: Option<
    WorkingHoursSchedule,
>)
    ensures
        r == assoc_lookup(entries@, *k),
{
    proof {
        assert(entries@.skip(0) =~= entries@);
    }
    let mut i: usize = 0;
    while i < entries.len()
        invariant
            i <= entries@.len(),
            assoc_lookup(entries@, *k) == assoc_lookup(entries@.skip(i as int), *k),
        decreases entries@.len() - i,
    {
        proof {
            assert(entries@.skip(i as int)[0] == entries@[i as int]);
            assert(entries@.skip(i as int).drop_first() =~= entries@.skip(i as int + 1));
        }
        if entries[i].0 == *k {
            return Some(entries[i].1);
        }
        i += 1;
    }
    None
}

fn lookup_minute(entries: &Vec<(Time, Vec<String>)>, k: &Time) -> (r: Option<usize>)
    ensures
        match r {
            Some(i) => i < entries@.len() && assoc_lookup(entries@, *k) == Some(entries@[i as int].1),
            None => assoc_lookup(entries@, *k) is None,
        },
{
    proof {
        assert(entries@.skip(0) =~= entries@);
    }
    let mut i: usize = 0;
    while i < entries.len()
        invariant
            i <= entries@.len(),
            assoc_lookup(entries@, *k) == assoc_lookup(entries@.skip(i as int), *k),
        decreases entries@.len() - i,
    {
        proof {
            assert(entries@.skip(i as int)[0] == entries@[i as int]);
            assert(entries@.skip(i as int).drop_first() =~= entries@.skip(i as int + 1));
        }
        if entries[i].0 == *k {
            return Some(i);
        }
        i += 1;
    }
    None
}

fn entry_matches(e: &MusicSchedule, d: &Date) -> (r: bool)
    ensures
        r == spec_entry_matches(*e, *d),
{
    if e.0.year == 1970 {
        e.0.month <= d.month && d.month <= e.1.month && e.0.day <= d.day && d.day <= e.1.day
    } else {
        e.0.le(d) && d.le(&e.1)
    }
}

impl Playlist {
    /// Resolves the effective playlist for a node from its two fetched
    /// documents: an absent default blocks resolution outright; otherwise
    /// the override document is merged over the default.
    pub fn read_from_config(default_doc: Option<Playlist>, node_doc: Option<Playlist>) -> (r:
        Option<Playlist>)
        ensures
            r == spec_effective(default_doc, node_doc),
    {
        match default_doc {
            None => None,
            Some(d) => merge_playlists(Some(d), node_doc),
        }
    }

    /// The music folders for the given date: those of the first matching
    /// schedule entry, in document order; empty when none matches.
    pub fn get_music_folders_for_date(&self, dt: Date) -> (r: Vec<String>)
        ensures
            r@ == spec_music_folders(*self, dt),
    {
        match &self.music {
            Some(music) => match &music.schedule {
                Some(schedule) => {
                    proof {
                        assert(schedule@.skip(0) =~= schedule@);
                    }
                    let mut i: usize = 0;
                    while i < schedule.len()
                        invariant
                            i <= schedule@.len(),
                            spec_music_folders(*self, dt) == spec_music_scan(schedule@, dt),
                            spec_music_scan(schedule@, dt) == spec_music_scan(
                                schedule@.skip(i as int),
                                dt,
                            ),
                        decreases schedule@.len() - i,
                    {
                        proof {
                            assert(schedule@.skip(i as int)[0] == schedule@[i as int]);
                            assert(schedule@.skip(i as int).drop_first() =~= schedule@.skip(
                                i as int + 1,
                            ));
                        }
                        if entry_matches(&schedule[i], &dt) {
                            proof {
                                assert(spec_music_scan(schedule@.skip(i as int), dt)
                                    == schedule@[i as int].2@);
                            }
                            return clone_strings(&schedule[i].2);
                        }
                        i += 1;
                    }
                    Vec::new()
                },
                None => Vec::new(),
            },
            None => Vec::new(),
        }
    }

    /// `dt` lies within the working hours in force for its date (inclusive
    /// on both ends); false when no schedule is configured.
    pub fn is_working_time(&self, dt: DateTime) -> (r: bool)
        requires
            dt.date.is_valid(),
        ensures
            r == spec_is_working_time(*self, dt),
    {
        match &self.working_hours {
            Some(working_hours) => match &working_hours.schedule {
                Some(schedule) => {
                    let day_index = dt.date.weekday_from_monday() as usize;
                    if day_index < schedule.len() {
                        let mut window = schedule[day_index];
                        match &working_hours.exceptions {
                            Some(exceptions) => {
                                match lookup_exception(exceptions, &dt.date) {
                                    Some(e) => {
                                        window = e;
                                    },
                                    None => {
                                    },
                                }
                            },
                            None => {
                            },
                        }
                        window.0.le(&dt.time) && dt.time.le(&window.1)
                    } else {
                        false
                    }
                },
                None => false,
            },
            None => false,
        }
    }

    /// The advertisement folders whose entry is keyed at `dt`'s minute of
    /// the hour; empty when there is none.
    pub fn get_advertizement_folders_for_datetime(&self, dt: DateTime) -> (r: Vec<String>)
        ensures
            r@ == spec_advertizement_folders(*self, dt),
    {
        match &self.advertizement {
            Some(advertizement) => match &advertizement.schedule {
                Some(schedule) => {
                    let key = Time::new(0, dt.time.minute, 0);
                    match lookup_minute(schedule, &key) {
                        Some(i) => clone_strings(&schedule[i].1),
                        None => Vec::new(),
                    }
                },
                None => Vec::new(),
            },
            None => Vec::new(),
        }
    }

    /// The hourly announcement file path for `dt`, when its minute is zero
    /// and an announcement folder is configured.
    pub fn get_announcement_file_path_for_time(&self, dt: DateTime) -> (r: Option<String>)
        requires
            dt.time.is_valid(),
        ensures
            (r is Some) == (spec_announcement_file(*self, dt) is Some),
            r matches Some(p) ==> spec_announcement_file(*self, dt) == Some(p@),
    {
        if dt.time.minute > 0 {
            return None;
        }
        match &self.time_announcement {
            Some(time_announcement) => match &time_announcement.folder {
                Some(folder) => {
                    let mut path = folder.clone();
                    push_char(&mut path, '/');
                    push_two_digits(&mut path, dt.time.hour);
                    path.append("_00.mp3");
                    proof {
                        assert(path@ =~= folder@ + seq!['/'] + two_digit_chars(
                            dt.time.hour as int,
                        ) + "_00.mp3"@);
                    }
                    Some(path)
                },
                None => None,
            },
            None => None,
        }
    }

    /// The configured advertisement jingle paths: (start, end).
    pub fn get_advertizement_jingles_file_path(&self) -> (r: (Option<String>, Option<String>))
        ensures
            r == spec_jingles(*self),
    {
        match &self.advertizement {
            Some(advertizement) => {
                let start = match &advertizement.start_jingle {
                    Some(s) => Some(s.clone()),
                    None => None,
                };
                let end = match &advertizement.end_jingle {
                    Some(s) => Some(s.clone()),
                    None => None,
                };
                (start, end)
            },
            None => (None, None),
        }
    }
}

} // verus!
