//! The sequencer: two cursors that walk the melody and bass tracks, one
//! sample at a time, and the samples they give.

use crate::music::pitch::{note_centihertz, note_freq};
use crate::music::synth::{
    cycle_steps, generate_pulse_wave, generate_triangle_wave, mix, mixed_den, mixed_num,
    pulse_level, sounds, triangle_num, Level, BASS_GAIN, MELODY_GAIN,
};
use vstd::prelude::*;

verus! {

/// The part of each cycle that the melody's pulse wave spends high, in
/// hundredths.
pub const MELODY_DUTY: u32 = 45;

/// One entry of a score: a note name, or any other text for a rest, and how
/// long it lasts in milliseconds.
pub struct ScoreEntry {
    pub symbol: String,
    pub duration_ms: u64,
}

impl ScoreEntry {
    /// An entry of the given note and length.
    pub fn new(symbol: &str, duration_ms: u64) -> (entry: ScoreEntry)
        ensures
            entry.symbol@ == symbol@,
            entry.duration_ms == duration_ms,
    {
        ScoreEntry { symbol: String::from_str(symbol), duration_ms }
    }
}

/// A track: a score that is played in a circle.
pub struct Track {
    pub entries: Vec<ScoreEntry>,
}

impl Track {
    /// A track has at least one entry.
    pub open spec fn wf(&self) -> bool {
        self.entries@.len() > 0
    }

    /// Makes a track of a score; an empty score makes none.
    pub fn new(entries: Vec<ScoreEntry>) -> (track: Option<Track>)
        ensures
            track is Some <==> entries@.len() > 0,
            track matches Some(t) ==> t.entries == entries && t.wf(),
    {
        if entries.len() == 0 {
            None
        } else {
            Some(Track { entries })
        }
    }

    /// The number of entries.
    pub fn len(&self) -> (n: usize)
        ensures
            n == self.entries@.len(),
    {
        self.entries.len()
    }

    /// The entry of the given number, counted from zero, if there is one.
    pub fn get(&self, index: usize) -> (entry: Option<&ScoreEntry>)
        ensures
            entry == if index < self.entries@.len() {
                Some(&self.entries@[index as int])
            } else {
                None
            },
    {
        if index < self.entries.len() {
            Some(&self.entries[index])
        } else {
            None
        }
    }
}

/// Where a track stands: the entry that sounds and the samples played of it.
#[derive(Clone, Copy, Debug, PartialEq, Eq, Structural)]
pub struct TrackCursor {
    pub note_index: usize,
    pub elapsed_samples: u64,
}

/// The length of a note in samples, rounded down.
pub open spec fn duration_samples(duration_ms: u64, sample_rate: u32) -> int {
    duration_ms * sample_rate / 1000
}

/// Whether the note under the cursor has been played to its end.
pub open spec fn note_is_over(cursor: TrackCursor, track: Seq<ScoreEntry>, sample_rate: u32) -> bool
    recommends
        cursor.note_index < track.len(),
{
    cursor.elapsed_samples >= duration_samples(track[cursor.note_index as int].duration_ms, sample_rate)
}

/// The cursor on the note that sounds next: the following entry, from its
/// start, where the note under the cursor is over, and the cursor itself
/// where it is not. After the last entry comes the first.
pub open spec fn cursor_entered(cursor: TrackCursor, track: Seq<ScoreEntry>, sample_rate: u32) -> TrackCursor
    recommends
        cursor.note_index < track.len(),
{
    if note_is_over(cursor, track, sample_rate) {
        TrackCursor {
            note_index: ((cursor.note_index + 1) % (track.len() as int)) as usize,
            elapsed_samples: 0,
        }
    } else {
        cursor
    }
}

/// The cursor after one sample.
pub open spec fn cursor_stepped(cursor: TrackCursor, track: Seq<ScoreEntry>, sample_rate: u32) -> TrackCursor
    recommends
        cursor.note_index < track.len(),
{
    let entered = cursor_entered(cursor, track, sample_rate);
    TrackCursor {
        note_index: entered.note_index,
        elapsed_samples: (entered.elapsed_samples + 1) as u64,
    }
}

/// The frequency of the note under a cursor, in hundredths of a hertz.
pub open spec fn cursor_freq(cursor: TrackCursor, track: Seq<ScoreEntry>) -> u32
    recommends
        cursor.note_index < track.len(),
{
    note_centihertz(track[cursor.note_index as int].symbol@) as u32
}

impl TrackCursor {
    /// The cursor at the start of a track.
    pub fn start() -> (cursor: TrackCursor)
        ensures
            cursor.note_index == 0,
            cursor.elapsed_samples == 0,
    {
        TrackCursor { note_index: 0, elapsed_samples: 0 }
    }

    /// Moves on to the next entry where the note under the cursor is over.
    pub fn enter(&mut self, track: &Track, sample_rate: u32)
        requires
            track.wf(),
            old(self).note_index < track.entries@.len(),
        ensures
            *final(self) == cursor_entered(*old(self), track.entries@, sample_rate),
            final(self).note_index < track.entries@.len(),
            final(self).elapsed_samples <= old(self).elapsed_samples,
    {
        let duration_ms: u64 = track.entries[self.note_index].duration_ms;
        assert(duration_ms * sample_rate <= 0xffff_ffff_ffff_ffff * 0xffff_ffff) by (nonlinear_arith)
            requires
                0 <= duration_ms <= 0xffff_ffff_ffff_ffff,
                0 <= sample_rate <= 0xffff_ffff,
        ;
        let length: u128 = (duration_ms as u128) * (sample_rate as u128) / 1000;
        let entries: usize = track.entries.len();
        if self.elapsed_samples as u128 >= length {
            self.note_index = (self.note_index + 1) % entries;
            self.elapsed_samples = 0;
        }
    }
}

/// The whole position of the sequencer.
#[derive(Clone, Copy, Debug, PartialEq, Eq, Structural)]
pub struct SequencerState {
    pub melody: TrackCursor,
    pub bass: TrackCursor,
    pub global_sample_counter: u64,
}

/// The state after one sample: each cursor stepped on its own track, and the
/// global counter, which gives the oscillators their phase, one further.
pub open spec fn state_stepped(
    state: SequencerState,
    melody: Seq<ScoreEntry>,
    bass: Seq<ScoreEntry>,
    sample_rate: u32,
) -> SequencerState {
    SequencerState {
        melody: cursor_stepped(state.melody, melody, sample_rate),
        bass: cursor_stepped(state.bass, bass, sample_rate),
        global_sample_counter: (state.global_sample_counter + 1) as u64,
    }
}

/// The state after `count` samples.
pub open spec fn state_after(
    state: SequencerState,
    melody: Seq<ScoreEntry>,
    bass: Seq<ScoreEntry>,
    sample_rate: u32,
    count: nat,
) -> SequencerState
    decreases count,
{
    if count == 0 {
        state
    } else {
        state_stepped(
            state_after(state, melody, bass, sample_rate, (count - 1) as nat),
            melody,
            bass,
            sample_rate,
        )
    }
}

/// The level of the melody voice: a pulse wave.
pub open spec fn melody_level(sample_counter: u64, freq: u32, sample_rate: u32) -> Level {
    Level { num: pulse_level(sample_counter, freq, sample_rate, MELODY_DUTY) as i64, den: 1 }
}

/// The level of the bass voice: a triangle wave.
pub open spec fn bass_level(sample_counter: u64, freq: u32, sample_rate: u32) -> Level {
    Level {
        num: triangle_num(sample_counter, freq, sample_rate) as i64,
        den: if sounds(freq, sample_rate) {
            cycle_steps(sample_rate) as i64
        } else {
            1
        },
    }
}

/// The mix of the two voices under the fixed gains.
pub open spec fn mixed_level(melody: Level, bass: Level) -> Level {
    Level {
        num: mixed_num(melody, bass, MELODY_GAIN, BASS_GAIN) as i64,
        den: mixed_den(melody, bass) as i64,
    }
}

/// The sample that is given in a state: each track first moves on where its
/// note is over, then both voices sound at the global counter and are mixed.
pub open spec fn sample_in(
    state: SequencerState,
    melody: Seq<ScoreEntry>,
    bass: Seq<ScoreEntry>,
    sample_rate: u32,
) -> Level {
    mixed_level(
        melody_level(
            state.global_sample_counter,
            cursor_freq(cursor_entered(state.melody, melody, sample_rate), melody),
            sample_rate,
        ),
        bass_level(
            state.global_sample_counter,
            cursor_freq(cursor_entered(state.bass, bass, sample_rate), bass),
            sample_rate,
        ),
    )
}

/// Silence, as every paused or exhausted sample is written.
pub open spec fn silence() -> Level {
    Level { num: 0, den: 1 }
}

/// A sequencer: the two tracks, the sample rate of the output, and the
/// position in both.
pub struct Sequencer {
    pub melody: Track,
    pub bass: Track,
    pub sample_rate: u32,
    pub state: SequencerState,
}

impl Sequencer {
    /// Both tracks have entries, the clock runs, each cursor stands on an
    /// entry of its track, and no note has been played for longer than the
    /// sequencer has run.
    pub open spec fn wf(&self) -> bool {
        &&& self.melody.wf()
        &&& self.bass.wf()
        &&& self.sample_rate > 0
        &&& self.state.melody.note_index < self.melody.entries@.len()
        &&& self.state.bass.note_index < self.bass.entries@.len()
        &&& self.state.melody.elapsed_samples <= self.state.global_sample_counter
        &&& self.state.bass.elapsed_samples <= self.state.global_sample_counter
    }

    /// The state after `count` samples from where the sequencer stands.
    pub open spec fn state_in(&self, count: nat) -> SequencerState {
        state_after(self.state, self.melody.entries@, self.bass.entries@, self.sample_rate, count)
    }

    /// The sample given `index` samples from where the sequencer stands.
    pub open spec fn sample_at(&self, index: nat) -> Level {
        sample_in(self.state_in(index), self.melody.entries@, self.bass.entries@, self.sample_rate)
    }

    /// How many samples can still be counted.
    pub open spec fn samples_left(&self) -> nat {
        (u64::MAX - self.state.global_sample_counter) as nat
    }

    /// A sequencer at the start of both tracks. A sample rate of zero makes
    /// none.
    pub fn new(melody: Track, bass: Track, sample_rate: u32) -> (out: Option<Sequencer>)
        requires
            melody.wf(),
            bass.wf(),
        ensures
            out is Some <==> sample_rate > 0,
            out matches Some(s) ==> {
                &&& s.wf()
                &&& s.melody == melody
                &&& s.bass == bass
                &&& s.sample_rate == sample_rate
                &&& s.state == initial_state()
            },
    {
        if sample_rate == 0 {
            None
        } else {
            Some(
                Sequencer {
                    melody,
                    bass,
                    sample_rate,
                    state: SequencerState {
                        melody: TrackCursor::start(),
                        bass: TrackCursor::start(),
                        global_sample_counter: 0,
                    },
                },
            )
        }
    }

    /// The sequencer `count` samples on: the same tracks at the same rate, in
    /// the state after that many samples.
    pub open spec fn advanced(&self, count: nat) -> Sequencer {
        Sequencer {
            melody: self.melody,
            bass: self.bass,
            sample_rate: self.sample_rate,
            state: self.state_in(count),
        }
    }

    /// How many of `frames` samples are played: none while paused, and no
    /// more than can still be counted.
    pub open spec fn played(&self, playing: bool, frames: nat) -> nat {
        if !playing {
            0
        } else if frames <= self.samples_left() {
            frames
        } else {
            self.samples_left()
        }
    }

    /// The sample written at `index` of a buffer of `frames`: the next
    /// samples of the score as far as they are played, then silence.
    pub open spec fn frame(&self, playing: bool, frames: nat, index: nat) -> Level {
        if index < self.played(playing, frames) {
            self.sample_at(index)
        } else {
            silence()
        }
    }

    /// Gives the next sample and steps on.
    pub fn next_sample(&mut self) -> (out: Level)
        requires
            old(self).wf(),
            old(self).state.global_sample_counter < u64::MAX,
        ensures
            final(self).wf(),
            final(self).melody == old(self).melody,
            final(self).bass == old(self).bass,
            final(self).sample_rate == old(self).sample_rate,
            final(self).state == old(self).state_in(1),
            final(self).state.global_sample_counter == old(self).state.global_sample_counter + 1,
            out == old(self).sample_at(0),
            out.wf(),
            100 * out.num <= (MELODY_GAIN + BASS_GAIN) * out.den,
            -((MELODY_GAIN + BASS_GAIN) * out.den) <= 100 * out.num,
    {
        proof {
            reveal_with_fuel(state_after, 2);
        }
        let mut melody_cursor: TrackCursor = self.state.melody;
        let mut bass_cursor: TrackCursor = self.state.bass;
        melody_cursor.enter(&self.melody, self.sample_rate);
        bass_cursor.enter(&self.bass, self.sample_rate);
        let melody_freq: u32 = note_freq(self.melody.entries[melody_cursor.note_index].symbol.as_str());
        let bass_freq: u32 = note_freq(self.bass.entries[bass_cursor.note_index].symbol.as_str());
        let now: u64 = self.state.global_sample_counter;
        let melody_wave: Level = generate_pulse_wave(now, melody_freq, self.sample_rate, MELODY_DUTY);
        let bass_wave: Level = generate_triangle_wave(now, bass_freq, self.sample_rate);
        let out: Level = mix(melody_wave, bass_wave, MELODY_GAIN, BASS_GAIN);
        melody_cursor.elapsed_samples = melody_cursor.elapsed_samples + 1;
        bass_cursor.elapsed_samples = bass_cursor.elapsed_samples + 1;
        self.state = SequencerState {
            melody: melody_cursor,
            bass: bass_cursor,
            global_sample_counter: now + 1,
        };
        out
    }
}

impl Sequencer {
    /// Fills one buffer of `frames` samples. While playing, the samples
    /// are the next ones of the score and the position moves on by as many;
    /// while paused, the buffer is silent and the position stays. Samples
    /// past the end of the counter are silent too.
    pub fn render(&mut self, playing: bool, frames: usize) -> (out: Vec<Level>)
        requires
            old(self).wf(),
        ensures
            final(self).wf(),
            *final(self) == old(self).advanced(old(self).played(playing, frames as nat)),
            out@.len() == frames,
            forall|i: int|
                0 <= i < frames ==> #[trigger] out@[i] == old(self).frame(
                    playing,
                    frames as nat,
                    i as nat,
                ),
            forall|i: int|
                0 <= i < frames ==> {
                    &&& (#[trigger] out@[i]).wf()
                    &&& 100 * out@[i].num <= (MELODY_GAIN + BASS_GAIN) * out@[i].den
                    &&& -((MELODY_GAIN + BASS_GAIN) * out@[i].den) <= 100 * out@[i].num
                },
    {
        let ghost start: Sequencer = *self;
        let mut out: Vec<Level> = Vec::new();
        let mut i: usize = 0;
        while i < frames
            invariant
                i <= frames,
                start.wf(),
                self.wf(),
                *self == start.advanced(start.played(playing, i as nat)),
                self.state.global_sample_counter == start.state.global_sample_counter
                    + start.played(playing, i as nat),
                out@.len() == i,
                forall|j: int|
                    0 <= j < i ==> #[trigger] out@[j] == start.frame(playing, i as nat, j as nat),
                forall|j: int|
                    0 <= j < i ==> {
                        &&& (#[trigger] out@[j]).wf()
                        &&& 100 * out@[j].num <= (MELODY_GAIN + BASS_GAIN) * out@[j].den
                        &&& -((MELODY_GAIN + BASS_GAIN) * out@[j].den) <= 100 * out@[j].num
                    },
            decreases frames - i,
        {
            let ghost before: Sequencer = *self;
            if playing && self.state.global_sample_counter < u64::MAX {
                let level: Level = self.next_sample();
                proof {
                    reveal_with_fuel(state_after, 2);
                    assert(start.played(playing, i as nat) == i);
                    assert(start.played(playing, (i + 1) as nat) == i + 1);
                    assert(before.state_in(1) == start.state_in((i + 1) as nat));
                    assert(before.sample_at(0) == start.sample_at(i as nat));
                }
                out.push(level);
            } else {
                out.push(Level::zero());
                proof {
                    assert(start.played(playing, (i + 1) as nat) == start.played(
                        playing,
                        i as nat,
                    ));
                }
            }
            i = i + 1;
        }
        out
    }
}

/// The cursor after `count` samples.
pub open spec fn cursor_after(
    cursor: TrackCursor,
    track: Seq<ScoreEntry>,
    sample_rate: u32,
    count: nat,
) -> TrackCursor
    decreases count,
{
    if count == 0 {
        cursor
    } else {
        cursor_stepped(cursor_after(cursor, track, sample_rate, (count - 1) as nat), track, sample_rate)
    }
}

/// How the samples are cut into buffers makes no difference: the state
/// after one run of samples and then another is the state after both
/// together.
pub proof fn lemma_buffers_compose(
    state: SequencerState,
    melody: Seq<ScoreEntry>,
    bass: Seq<ScoreEntry>,
    sample_rate: u32,
    first: nat,
    second: nat,
)
    ensures
        state_after(
            state_after(state, melody, bass, sample_rate, first),
            melody,
            bass,
            sample_rate,
            second,
        ) == state_after(state, melody, bass, sample_rate, first + second),
    decreases second,
{
    if second > 0 {
        lemma_buffers_compose(state, melody, bass, sample_rate, first, (second - 1) as nat);
        assert(first + second - 1 == first + (second - 1) as nat);
    }
}

/// The two tracks go their own ways: after any number of samples each
/// cursor stands where it would stand had it walked its track alone.
pub proof fn lemma_tracks_are_independent(
    state: SequencerState,
    melody: Seq<ScoreEntry>,
    bass: Seq<ScoreEntry>,
    sample_rate: u32,
    count: nat,
)
    ensures
        state_after(state, melody, bass, sample_rate, count).melody == cursor_after(
            state.melody,
            melody,
            sample_rate,
            count,
        ),
        state_after(state, melody, bass, sample_rate, count).bass == cursor_after(
            state.bass,
            bass,
            sample_rate,
            count,
        ),
        state.global_sample_counter + count <= u64::MAX ==> state_after(
            state,
            melody,
            bass,
            sample_rate,
            count,
        ).global_sample_counter == state.global_sample_counter + count,
    decreases count,
{
    if count > 0 {
        lemma_tracks_are_independent(state, melody, bass, sample_rate, (count - 1) as nat);
    }
}

/// A cursor that stands on an entry of its track stands on one after every
/// sample.
pub proof fn lemma_cursor_stays_on_track(
    cursor: TrackCursor,
    track: Seq<ScoreEntry>,
    sample_rate: u32,
    count: nat,
)
    requires
        cursor.note_index < track.len(),
    ensures
        cursor_after(cursor, track, sample_rate, count).note_index < track.len(),
    decreases count,
{
    if count > 0 {
        lemma_cursor_stays_on_track(cursor, track, sample_rate, (count - 1) as nat);
        let before: TrackCursor = cursor_after(cursor, track, sample_rate, (count - 1) as nat);
        let len: int = track.len() as int;
        assert(0 <= (before.note_index + 1) % len < len) by (nonlinear_arith)
            requires
                len > 0,
                before.note_index >= 0,
        ;
    }
}

/// A note sounds for its whole length: a cursor stays on its note, and
/// counts each sample, as long as the note is not over.
pub proof fn lemma_note_holds(
    cursor: TrackCursor,
    track: Seq<ScoreEntry>,
    sample_rate: u32,
    count: nat,
)
    requires
        cursor.note_index < track.len(),
        cursor.elapsed_samples + count <= duration_samples(
            track[cursor.note_index as int].duration_ms,
            sample_rate,
        ),
        cursor.elapsed_samples + count <= u64::MAX,
    ensures
        cursor_after(cursor, track, sample_rate, count) == (TrackCursor {
            note_index: cursor.note_index,
            elapsed_samples: (cursor.elapsed_samples + count) as u64,
        }),
    decreases count,
{
    if count > 0 {
        lemma_note_holds(cursor, track, sample_rate, (count - 1) as nat);
    }
}

/// With the sample after its last, a note gives way to the next entry of
/// its track, which is the first entry after the last; and of that entry
/// one sample has then been played.
pub proof fn lemma_note_ends(cursor: TrackCursor, track: Seq<ScoreEntry>, sample_rate: u32)
    requires
        cursor.note_index < track.len(),
        cursor.elapsed_samples >= duration_samples(
            track[cursor.note_index as int].duration_ms,
            sample_rate,
        ),
    ensures
        cursor_after(cursor, track, sample_rate, 1) == (TrackCursor {
            note_index: if cursor.note_index + 1 == track.len() {
                0
            } else {
                (cursor.note_index + 1) as usize
            },
            elapsed_samples: 1,
        }),
{
    reveal_with_fuel(cursor_after, 2);
    let len: int = track.len() as int;
    if cursor.note_index + 1 == len {
        assert((cursor.note_index + 1) % len == 0) by (nonlinear_arith)
            requires
                cursor.note_index + 1 == len,
                len > 0,
        ;
    } else {
        assert((cursor.note_index + 1) % len == cursor.note_index + 1) by (nonlinear_arith)
            requires
                0 <= cursor.note_index + 1 < len,
        ;
    }
}

/// A track of one note loops on that note: from its start the note is
/// played for its whole length without a break, and the sample after that
/// is the first of the note played anew.
pub proof fn lemma_single_note_loops(entry: ScoreEntry, sample_rate: u32)
    requires
        1 <= duration_samples(entry.duration_ms, sample_rate) < u64::MAX,
    ensures
        forall|count: nat|
            count <= duration_samples(entry.duration_ms, sample_rate) ==> #[trigger] cursor_after(
                initial_state().melody,
                seq![entry],
                sample_rate,
                count,
            ) == (TrackCursor { note_index: 0, elapsed_samples: count as u64 }),
        cursor_after(
            initial_state().melody,
            seq![entry],
            sample_rate,
            (duration_samples(entry.duration_ms, sample_rate) + 1) as nat,
        ) == (TrackCursor { note_index: 0, elapsed_samples: 1 }),
{
    let track: Seq<ScoreEntry> = seq![entry];
    let start: TrackCursor = initial_state().melody;
    let length: nat = duration_samples(entry.duration_ms, sample_rate) as nat;
    assert forall|count: nat| count <= length implies #[trigger] cursor_after(
        start,
        track,
        sample_rate,
        count,
    ) == (TrackCursor { note_index: 0, elapsed_samples: count as u64 }) by {
        lemma_note_holds(start, track, sample_rate, count);
    }
    let last: TrackCursor = cursor_after(start, track, sample_rate, length);
    lemma_note_ends(last, track, sample_rate);
    assert(cursor_after(last, track, sample_rate, 1) == cursor_stepped(last, track, sample_rate)) by {
        reveal_with_fuel(cursor_after, 2);
    }
}

/// The state in which every sequencer starts.
pub open spec fn initial_state() -> SequencerState {
    SequencerState {
        melody: TrackCursor { note_index: 0, elapsed_samples: 0 },
        bass: TrackCursor { note_index: 0, elapsed_samples: 0 },
        global_sample_counter: 0,
    }
}

} // verus!
