//! The score: "Misty", set for a melody and a walking bass.
//!
//! Each entry is a note name and its length in milliseconds; an empty name
//! is a rest.

use crate::music::sequencer::{ScoreEntry, Track};
use vstd::prelude::*;

verus! {

/// The melody line.
pub const MELODY: [(&'static str, u64); 134] = [
    ("B\u{266d}4", 500), ("G4", 500), ("D4", 3000), ("B\u{266d}3", 500),
    ("C4", 500), ("C#4", 500), ("C5", 500), ("C5", 500),
    ("A#4", 500), ("C5", 500), ("A#4", 500), ("G4", 500),
    ("E\u{266d}4", 500), ("C4", 2500), ("", 250), ("G#3", 250),
    ("G#3", 250), ("G#3", 250), ("C4", 250), ("E\u{266d}4", 250),
    ("B\u{266d}4", 500), ("B\u{266d}4", 500), ("B\u{266d}4", 500), ("G#4", 500),
    ("B\u{266d}4", 1000), ("G#4", 1000), ("G4", 1000), ("G#4", 500),
    ("B\u{266d}4", 500), ("E\u{266d}4", 1000), ("F4", 500), ("G4", 500),
    ("G#4", 500), ("C4", 1000), ("C4", 500), ("D4", 1000),
    ("E\u{266d}4", 500), ("F4", 500), ("G4", 1000), ("G4", 1000),
    ("G4", 1000), ("G4", 1000), ("F4", 1000), ("F4", 1000),
    ("F4", 1000), ("B\u{266d}4", 500), ("G4", 500), ("D4", 3000),
    ("B\u{266d}3", 500), ("C4", 500), ("C#4", 500), ("C5", 500),
    ("C5", 500), ("A#4", 500), ("C5", 500), ("A#4", 500),
    ("G4", 500), ("E\u{266d}4", 500), ("C4", 2500), ("", 250),
    ("G#3", 250), ("G#3", 250), ("G#3", 250), ("C4", 250),
    ("E\u{266d}4", 250), ("B\u{266d}4", 500), ("B\u{266d}4", 500), ("B\u{266d}4", 500),
    ("G#4", 500), ("B\u{266d}4", 1000), ("G#4", 1000), ("G4", 1000),
    ("G#4", 500), ("B\u{266d}4", 500), ("E\u{266d}4", 1000), ("F4", 500),
    ("G4", 500), ("G#4", 500), ("C4", 1500), ("E\u{266d}4", 500),
    ("D4", 500), ("E\u{266d}4", 500), ("F4", 500), ("E\u{266d}4", 1000),
    ("E\u{266d}4", 1000), ("E\u{266d}4", 1000), ("E\u{266d}4", 1000), ("", 1500),
    ("E\u{266d}4", 500), ("F4", 500), ("G4", 500), ("B\u{266d}4", 500),
    ("C5", 500), ("C#5", 500), ("C#5", 500), ("C#5", 500),
    ("C#5", 2500), ("C#5", 500), ("C#5", 250), ("E\u{266d}5", 250),
    ("E5", 1000), ("E\u{266d}5", 1000), ("C#5", 1000), ("C5", 1000),
    ("C5", 500), ("E\u{266d}4", 500), ("C5", 2000), ("", 2000),
    ("E\u{266d}4", 500), ("F4", 500), ("G4", 500), ("B\u{266d}4", 500),
    ("C5", 500), ("D5", 500), ("D5", 500), ("D5", 500),
    ("D5", 500), ("D5", 2000), ("D5", 500), ("D5", 500),
    ("C#5", 500), ("D5", 500), ("F5", 500), ("D5", 500),
    ("C5", 500), ("B\u{266d}4", 1000), ("B\u{266d}4", 1000), ("G#4", 1000),
    ("G4", 1000), ("G#4", 1000), ("G4", 1000), ("F4", 1000),
    ("B\u{266d}4", 1000), ("", 3000),
];

/// The bass line.
pub const BASSLINE: [(&'static str, u64); 69] = [
    ("", 1000), ("E\u{266d}2", 1000), ("G2", 1000), ("G#2", 1000),
    ("B\u{266d}2", 1000), ("B\u{266d}1", 1000), ("C#2", 1000), ("E\u{266d}2", 1000),
    ("G2", 1000), ("G#1", 1000), ("C2", 1000), ("E\u{266d}2", 1000),
    ("G#2", 1000), ("G#1", 1000), ("B2", 1000), ("E\u{266d}2", 1000),
    ("G#2", 1000), ("E\u{266d}2", 1000), ("G2", 1000), ("C2", 1000),
    ("E\u{266d}2", 1000), ("F1", 1000), ("G#2", 1000), ("B\u{266d}2", 1000),
    ("C2", 1000), ("G2", 1000), ("B\u{266d}2", 1000), ("C1", 1000),
    ("E1", 1000), ("F2", 1000), ("A2", 1000), ("B\u{266d}2", 1000),
    ("C2", 1000), ("E\u{266d}2", 1000), ("G2", 1000), ("G#2", 1000),
    ("B\u{266d}2", 1000), ("E\u{266d}2", 1000), ("G2", 1000), ("G#2", 1000),
    ("B\u{266d}2", 1000), ("C2", 1000), ("E\u{266d}2", 1000), ("G2", 1000),
    ("A2", 1000), ("F2", 1000), ("A2", 1000), ("C3", 1000),
    ("D3", 1000), ("B\u{266d}2", 1000), ("D3", 1000), ("F3", 1000),
    ("G3", 1000), ("E\u{266d}2", 1000), ("G2", 1000), ("G#2", 1000),
    ("B\u{266d}2", 1000), ("C2", 1000), ("E\u{266d}2", 1000), ("G2", 1000),
    ("A2", 1000), ("F2", 1000), ("A2", 1000), ("C3", 1000),
    ("D3", 1000), ("C2", 1000), ("E\u{266d}2", 1000), ("G2", 1000),
    ("A2", 1000),
];

/// A track plays a score when it holds the same notes, of the same lengths,
/// in the same order.
pub open spec fn plays(track: Seq<ScoreEntry>, score: Seq<(&'static str, u64)>) -> bool {
    &&& track.len() == score.len()
    &&& forall|i: int|
        0 <= i < score.len() ==> (#[trigger] track[i]).symbol@ == score[i].0@ && track[i].duration_ms
            == score[i].1
}

/// The melody as a track.
pub fn melody() -> (track: Track)
    ensures
        track.wf(),
        plays(track.entries@, MELODY@),
{
    let mut entries: Vec<ScoreEntry> = Vec::new();
    let mut i: usize = 0;
    while i < 134
        invariant
            i <= 134,
            entries@.len() == i,
            forall|j: int|
                0 <= j < i ==> (#[trigger] entries@[j]).symbol@ == MELODY@[j].0@
                    && entries@[j].duration_ms == MELODY@[j].1,
        decreases 134 - i,
    {
        entries.push(ScoreEntry::new(MELODY[i].0, MELODY[i].1));
        i = i + 1;
    }
    Track { entries }
}

/// The bass line as a track.
pub fn bassline() -> (track: Track)
    ensures
        track.wf(),
        plays(track.entries@, BASSLINE@),
{
    let mut entries: Vec<ScoreEntry> = Vec::new();
    let mut i: usize = 0;
    while i < 69
        invariant
            i <= 69,
            entries@.len() == i,
            forall|j: int|
                0 <= j < i ==> (#[trigger] entries@[j]).symbol@ == BASSLINE@[j].0@
                    && entries@[j].duration_ms == BASSLINE@[j].1,
        decreases 69 - i,
    {
        entries.push(ScoreEntry::new(BASSLINE[i].0, BASSLINE[i].1));
        i = i + 1;
    }
    Track { entries }
}

} // verus!
