//! The playback controller: start, pause, resume and stop, and the buffer
//! that the audio host asks for.
//!
//! The controller holds no connection of its own. Whoever owns the
//! connection to the audio host asks the controller whether one is needed,
//! opens it, and reports back how that went. On each request of the host
//! for samples it asks the controller for them: one by one with
//! `next_sample`, or a buffer at a time with `play_sound`.

use crate::music::misty::{bassline, melody, plays, BASSLINE, MELODY};
use crate::music::sequencer::{initial_state, silence, Sequencer};
use crate::music::synth::{Level, BASS_GAIN, MELODY_GAIN};
use vstd::prelude::*;

verus! {

/// What came of opening the default output device.
#[derive(Clone, Copy, Debug, PartialEq, Eq, Structural)]
pub enum DeviceReport {
    /// A connection is open, at this many samples per second.
    Ready { sample_rate: u32 },
    /// There is no output device.
    NoDevice,
    /// The device would not open a stream.
    Refused,
}

/// Why playback did not start.
#[derive(Clone, Copy, Debug, PartialEq, Eq, Structural)]
pub enum PlaybackError {
    /// No output device was found.
    DeviceUnavailable,
    /// A device was found and no stream could be opened on it.
    ConnectionFailure,
}

/// The playback controller.
///
/// `sequencer` is there exactly while a connection to the audio host is
/// registered; `music_playing` is the pause flag.
pub struct MusicPlayer {
    pub music_playing: bool,
    pub sequencer: Option<Sequencer>,
}

impl MusicPlayer {
    /// The sequencer, where there is one, is well formed.
    pub open spec fn wf(&self) -> bool {
        self.sequencer matches Some(s) ==> s.wf()
    }

    /// Whether a connection is registered.
    pub open spec fn running(&self) -> bool {
        self.sequencer is Some
    }

    /// Whether the score is sounding: a connection is registered and
    /// playback is not paused.
    pub open spec fn playing(&self) -> bool {
        self.running() && self.music_playing
    }

    /// The player with playback paused.
    pub open spec fn paused(&self) -> MusicPlayer {
        MusicPlayer { music_playing: false, sequencer: self.sequencer }
    }

    /// The player with playback resumed.
    pub open spec fn resumed(&self) -> MusicPlayer {
        MusicPlayer { music_playing: true, sequencer: self.sequencer }
    }

    /// The player with the pause flag flipped.
    pub open spec fn toggled(&self) -> MusicPlayer {
        MusicPlayer { music_playing: !self.music_playing, sequencer: self.sequencer }
    }

    /// The player after a buffer of `frames` samples was asked for.
    pub open spec fn after_frames(&self, frames: nat) -> MusicPlayer {
        match self.sequencer {
            Some(s) => MusicPlayer {
                music_playing: self.music_playing,
                sequencer: Some(s.advanced(s.played(self.music_playing, frames))),
            },
            None => *self,
        }
    }

    /// The sample at `index` of a buffer of `frames`: silence where no
    /// sequencer is there to ask.
    pub open spec fn frame(&self, frames: nat, index: nat) -> Level {
        match self.sequencer {
            Some(s) => s.frame(self.music_playing, frames, index),
            None => silence(),
        }
    }

    /// A player that has not been started.
    pub fn new() -> (player: MusicPlayer)
        ensures
            player.music_playing,
            player.sequencer is None,
            player.wf(),
    {
        MusicPlayer { music_playing: true, sequencer: None }
    }

    /// Whether a connection is registered.
    pub fn is_running(&self) -> (out: bool)
        ensures
            out == self.running(),
    {
        self.sequencer.is_some()
    }

    /// Whether the score is sounding.
    pub fn is_playing(&self) -> (out: bool)
        ensures
            out == self.playing(),
    {
        self.sequencer.is_some() && self.music_playing
    }

    /// The decision that opens `start_music_thread`: a player that is
    /// already playing needs no connection, every other one does.
    pub fn needs_connection(&self) -> (out: bool)
        ensures
            out == !self.playing(),
    {
        !self.is_playing()
    }

    /// Starts playback, given what came of opening the output device.
    ///
    /// A player that is already playing is left as it is, whatever the
    /// report. For any other, an open connection starts the score from its
    /// first entries on both tracks, playing; a failure is told to the
    /// caller and leaves the player as it was.
    pub fn start_music_thread(&mut self, report: DeviceReport) -> (out: Result<(), PlaybackError>)
        requires
            old(self).wf(),
        ensures
            final(self).wf(),
            old(self).playing() ==> out is Ok && *final(self) == *old(self),
            !old(self).playing() ==> match report {
                DeviceReport::Ready { sample_rate } if sample_rate > 0 => {
                    &&& out is Ok
                    &&& final(self).music_playing
                    &&& final(self).sequencer matches Some(s) && {
                        &&& s.sample_rate == sample_rate
                        &&& s.state == initial_state()
                        &&& plays(s.melody.entries@, MELODY@)
                        &&& plays(s.bass.entries@, BASSLINE@)
                    }
                },
                DeviceReport::Ready { .. } | DeviceReport::Refused => {
                    &&& out == Err::<(), PlaybackError>(PlaybackError::ConnectionFailure)
                    &&& *final(self) == *old(self)
                },
                DeviceReport::NoDevice => {
                    &&& out == Err::<(), PlaybackError>(PlaybackError::DeviceUnavailable)
                    &&& *final(self) == *old(self)
                },
            },
    {
        if self.is_playing() {
            return Ok(());
        }
        match report {
            DeviceReport::Ready { sample_rate } => {
                match Sequencer::new(melody(), bassline(), sample_rate) {
                    Some(sequencer) => {
                        self.sequencer = Some(sequencer);
                        self.music_playing = true;
                        Ok(())
                    },
                    None => Err(PlaybackError::ConnectionFailure),
                }
            },
            DeviceReport::NoDevice => Err(PlaybackError::DeviceUnavailable),
            DeviceReport::Refused => Err(PlaybackError::ConnectionFailure),
        }
    }

    /// Flips the pause flag. The position in the score stays.
    pub fn toggle_music(&mut self)
        ensures
            *final(self) == old(self).toggled(),
    {
        self.music_playing = !self.music_playing;
    }

    /// Pauses playback. The position in the score stays.
    pub fn pause(&mut self)
        ensures
            *final(self) == old(self).paused(),
    {
        self.music_playing = false;
    }

    /// Resumes playback where it was paused.
    pub fn resume(&mut self)
        ensures
            *final(self) == old(self).resumed(),
    {
        self.music_playing = true;
    }

    /// Gives one sample for the audio host: the next one of the score
    /// while the player is playing, and silence while it is paused, while
    /// it is not running, and when the count of samples is spent. Nothing
    /// is allocated on the way.
    pub fn next_sample(&mut self) -> (out: Level)
        requires
            old(self).wf(),
        ensures
            final(self).wf(),
            *final(self) == old(self).after_frames(1),
            out == old(self).frame(1, 0),
            out.wf(),
            100 * out.num <= (MELODY_GAIN + BASS_GAIN) * out.den,
            -((MELODY_GAIN + BASS_GAIN) * out.den) <= 100 * out.num,
    {
        let playing: bool = self.music_playing;
        match &mut self.sequencer {
            Some(sequencer) => {
                if playing && sequencer.state.global_sample_counter < u64::MAX {
                    let ghost before: Sequencer = *sequencer;
                    let out: Level = sequencer.next_sample();
                    assert(*sequencer == before.advanced(1));
                    out
                } else {
                    assert(sequencer.state_in(0) == sequencer.state);
                    assert(*sequencer == sequencer.advanced(0));
                    Level::zero()
                }
            },
            None => Level::zero(),
        }
    }

    /// Stops playback: the sequencer is dropped, and with it the position
    /// in the score. The caller closes the connection.
    pub fn stop_music_thread(&mut self)
        ensures
            !final(self).music_playing,
            final(self).sequencer is None,
            final(self).wf(),
    {
        self.sequencer = None;
        self.music_playing = false;
    }
}

/// Fills one buffer of `frames` samples for the audio host.
///
/// While the player is playing, the samples are the next ones of the score
/// and the sequencer moves on by as many. While it is paused the buffer is
/// silent and the sequencer stays where it is; where there is no sequencer
/// the buffer is silent too.
pub fn play_sound(player: &mut MusicPlayer, frames: usize) -> (out: Vec<Level>)
    requires
        old(player).wf(),
    ensures
        final(player).wf(),
        *final(player) == old(player).after_frames(frames as nat),
        out@.len() == frames,
        forall|i: int|
            0 <= i < frames ==> #[trigger] out@[i] == old(player).frame(frames as nat, i as nat),
        forall|i: int|
            0 <= i < frames ==> {
                &&& (#[trigger] out@[i]).wf()
                &&& 100 * out@[i].num <= (MELODY_GAIN + BASS_GAIN) * out@[i].den
                &&& -((MELODY_GAIN + BASS_GAIN) * out@[i].den) <= 100 * out@[i].num
            },
{
    let playing: bool = player.music_playing;
    match &mut player.sequencer {
        Some(sequencer) => sequencer.render(playing, frames),
        None => {
            let mut out: Vec<Level> = Vec::new();
            let mut i: usize = 0;
            while i < frames
                invariant
                    i <= frames,
                    out@.len() == i,
                    forall|j: int| 0 <= j < i ==> #[trigger] out@[j] == silence(),
                decreases frames - i,
            {
                out.push(Level::zero());
                i = i + 1;
            }
            out
        },
    }
}

/// Pausing keeps the place: however many samples are asked for while the
/// player is paused, after resuming the sequencer stands on the same notes,
/// as far into each, as when the pause began.
pub proof fn lemma_pause_keeps_position(player: MusicPlayer, frames: nat)
    ensures
        player.paused().after_frames(frames).resumed().sequencer == player.sequencer,
        forall|i: nat| i < frames ==> #[trigger] player.paused().frame(frames, i) == silence(),
{
    match player.sequencer {
        Some(s) => {
            assert(s.played(false, frames) == 0);
            assert(s.state_in(0) == s.state);
            assert(s.advanced(0) == s);
        },
        None => {},
    }
}

} // verus!
