//! The dispatcher's collaborators, as injectable capabilities: wall-clock
//! scheduling, playlist document reading, media enumeration, the playback
//! device, and the shuffle randomness source. Real devices implement these
//! outside the library; deterministic implementations usable under test live
//! here as well.

use vstd::prelude::*;

use crate::datetime::{Date, DateTime, Time};
use crate::playlist::Playlist;

verus! {

/// Wall-clock time source and tick/fade pacing.
pub trait Scheduler {
    /// The current local date and time.
    fn now(&mut self) -> (dt: DateTime)
        ensures
            dt.is_valid(),
    ;

    /// Suspends for one polling tick (one second on a real device).
    fn wait_tick(&mut self);

    /// Suspends for one fade-out volume step (half a second on a real device).
    fn wait_fade_step(&mut self);
}

/// Reads raw playlist documents; a missing or unparseable document is absent.
pub trait PlaylistStore {
    /// The default playlist document.
    fn fetch_default(&mut self) -> Option<Playlist>;

    /// The override document for the named node.
    fn fetch_for_node(&mut self, node_name: &String) -> Option<Playlist>;
}

/// Turns folder names, relative to the media root, into the aggregate ordered
/// list of media file paths found under them.
pub trait MediaEnumerator {
    fn list_files(&mut self, folders: &Vec<String>) -> Vec<String>;
}

/// Minimal playback device capability used by the dispatcher.
pub trait PlaybackPort {
    /// Loads the file at `path` and starts playing it, returning at once.
    fn load_and_play(&mut self, path: &String);

    /// Sets the output volume.
    fn set_volume(&mut self, volume: u8)
        requires
            volume <= 100,
    ;

    fn pause(&mut self);

    fn is_playing(&mut self) -> bool;
}

/// Source of shuffle start positions.
pub trait RandomSource {
    fn below(&mut self, bound: usize) -> (r: usize)
        requires
            bound > 0,
        ensures
            r < bound,
    ;
}

/// A deterministic, seedable linear-congruential random source.
pub struct Lcg {
    pub state: u64,
}

impl Lcg {
    pub fn new(seed: u64) -> (r: Lcg)
        ensures
            r.state == seed % 0x1_0000_0000,
    {
        Lcg { state: seed % 0x1_0000_0000 }
    }
}

impl RandomSource for Lcg {
    fn below(&mut self, bound: usize) -> (r: usize) {
        let s: u64 = self.state % 0x1_0000_0000;
        self.state = (s * 1664525 + 1013904223) % 0x1_0000_0000;
        let r64: u64 = self.state % (bound as u64);
        r64 as usize
    }
}

/// A scheduler whose clock is advanced by hand and whose waits return at
/// once, for driving the dispatcher without real delays.
pub struct ManualScheduler {
    pub current: DateTime,
}

impl ManualScheduler {
    pub fn new(current: DateTime) -> (r: ManualScheduler)
        ensures
            r.current == current,
    {
        ManualScheduler { current }
    }
}

impl Scheduler for ManualScheduler {
    /// Hands out the manually set datetime, falling back to the epoch when
    /// the set value is not a valid calendar datetime.
    fn now(&mut self) -> (dt: DateTime) {
        let dt = self.current;
        if dt.date.year >= 1 && dt.date.month >= 1 && dt.date.month <= 12 && dt.date.day >= 1
            && dt.date.day <= 31 && dt.time.hour < 24 && dt.time.minute < 60 && dt.time.second
            < 60 {
            dt
        } else {
            DateTime { date: Date { year: 1970, month: 1, day: 1 }, time: Time { hour: 0, minute: 0, second: 0 } }
        }
    }

    fn wait_tick(&mut self) {
    }

    fn wait_fade_step(&mut self) {
    }
}

} // verus!
