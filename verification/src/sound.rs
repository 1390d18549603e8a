//! Gating of sound cues.
//!
//! Whether a one-shot cue is still playing is judged by simulated time, not by
//! asking the audio device: a cue counts as playing for its configured
//! duration and is stopped by the first update after that. What the device has
//! to do is appended to a list of commands that the host carries out.

use vstd::prelude::*;
use crate::timer::{count_down, remaining_after};

verus! {

/// The sounds of the three games.
#[derive(Clone, Copy, Debug, PartialEq, Eq, Structural)]
pub enum SoundId {
    Wall,
    Paddle,
    Miss,
    Apple,
    SnakeDeath,
    PlayerShoot,
    PlayerDead,
    Ufo,
    UfoDead,
    InvaderDead,
    InvaderMoveLow,
    InvaderMoveHigh,
}

/// What the audio device is asked to do with a sound.
#[derive(Clone, Copy, Debug, PartialEq, Eq, Structural)]
pub enum AudioAction {
    /// Play the sound once from its start.
    Play,
    /// Play the sound from its start, over and over.
    PlayLooping,
    /// Stop the sound and rewind it.
    Stop,
}

/// One request to the audio device.
#[derive(Clone, Copy, Debug, PartialEq, Eq, Structural)]
pub struct AudioCommand {
    pub sound: SoundId,
    pub action: AudioAction,
}

/// The playback state of one sound, as far as the simulation tracks it.
#[derive(Clone, Copy, Debug, PartialEq, Eq, Structural)]
pub struct SoundEffect {
    pub sound: SoundId,
    pub is_playing: bool,
    /// Length of the sound in microseconds.
    pub duration: i64,
    /// Microseconds until a one-shot counts as finished; below zero when it
    /// has.
    pub next_play_in: i64,
    pub loops: bool,
}

impl SoundEffect {
    /// The command that starts this sound.
    pub open spec fn start_command(self) -> AudioCommand {
        AudioCommand {
            sound: self.sound,
            action: if self.loops { AudioAction::PlayLooping } else { AudioAction::Play },
        }
    }

    /// The command that stops this sound.
    pub open spec fn stop_command(self) -> AudioCommand {
        AudioCommand { sound: self.sound, action: AudioAction::Stop }
    }

    /// Whether `play` would do nothing because the sound is idle and its last
    /// run has timed out.
    pub open spec fn is_ready(self) -> bool {
        !self.is_playing && self.next_play_in < 0
    }

    /// Whether the next update stops the sound: a one-shot that is playing and
    /// has run its duration.
    pub open spec fn has_run_out(self) -> bool {
        !self.loops && self.is_playing && self.next_play_in < 0
    }

    /// The state after `play`.
    pub open spec fn played(self) -> SoundEffect {
        if self.is_playing {
            self
        } else {
            SoundEffect { is_playing: true, next_play_in: self.duration, ..self }
        }
    }

    /// The commands after `play`.
    pub open spec fn played_audio(self, audio: Seq<AudioCommand>) -> Seq<AudioCommand> {
        if self.is_playing {
            audio
        } else {
            audio.push(self.start_command())
        }
    }

    /// The state after `reset`.
    pub open spec fn stopped(self) -> SoundEffect {
        SoundEffect { is_playing: false, next_play_in: 0, ..self }
    }

    /// The state after an update by `elapsed`.
    pub open spec fn updated(self, elapsed: u32) -> SoundEffect {
        let base = if self.has_run_out() { self.stopped() } else { self };
        SoundEffect { next_play_in: remaining_after(base.next_play_in, elapsed), ..base }
    }

    /// The commands after an update.
    pub open spec fn updated_audio(self, audio: Seq<AudioCommand>) -> Seq<AudioCommand> {
        if self.has_run_out() {
            audio.push(self.stop_command())
        } else {
            audio
        }
    }

    /// An idle one-shot sound of the given length.
    pub fn new(sound: SoundId, duration: i64) -> (effect: SoundEffect)
        ensures
            effect == (SoundEffect {
                sound,
                is_playing: false,
                duration,
                next_play_in: 0,
                loops: false,
            }),
    {
        SoundEffect { sound, is_playing: false, duration, next_play_in: 0, loops: false }
    }

    /// Starts the sound unless it counts as playing already.
    pub fn play(&mut self, audio: &mut Vec<AudioCommand>)
        ensures
            *final(self) == old(self).played(),
            final(audio)@ == old(self).played_audio(old(audio)@),
    {
        if !self.is_playing {
            audio.push(
                AudioCommand {
                    sound: self.sound,
                    action: if self.loops {
                        AudioAction::PlayLooping
                    } else {
                        AudioAction::Play
                    },
                },
            );
            self.is_playing = true;
            self.next_play_in = self.duration;
        }
    }

    /// Stops the sound, whether or not it counts as playing.
    pub fn reset(&mut self, audio: &mut Vec<AudioCommand>)
        ensures
            *final(self) == old(self).stopped(),
            final(audio)@ == old(audio)@.push(old(self).stop_command()),
    {
        audio.push(AudioCommand { sound: self.sound, action: AudioAction::Stop });
        self.is_playing = false;
        self.next_play_in = 0;
    }

    /// Chooses whether the sound repeats once started.
    pub fn set_loop(&mut self, loops: bool)
        ensures
            *final(self) == (SoundEffect { loops, ..*old(self) }),
    {
        self.loops = loops;
    }

    /// Whether the sound is idle and its last run has timed out.
    pub fn can_play(&self) -> (ready: bool)
        ensures
            ready == self.is_ready(),
    {
        !self.is_playing && self.next_play_in < 0
    }

    /// Lets `elapsed` microseconds pass: a one-shot that has run its duration
    /// is stopped, then the time is counted down.
    pub fn update(&mut self, elapsed: u32, audio: &mut Vec<AudioCommand>)
        ensures
            *final(self) == old(self).updated(elapsed),
            final(audio)@ == old(self).updated_audio(old(audio)@),
    {
        if !self.loops && self.is_playing && self.next_play_in < 0 {
            self.reset(audio);
        }
        self.next_play_in = count_down(self.next_play_in, elapsed);
    }
}

} // verus!
