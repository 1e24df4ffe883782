//! The face of the host: a pack of frames and the engine that turns
//! them.

use vstd::prelude::*;
use crate::clock::Moment;

pub mod default_pack;
pub mod loader;
pub mod mood;
pub mod types;

pub use default_pack::load_default_pack;
pub use loader::{parse_mood_map, FacePackMeta};
pub use mood::MoodEngine;
pub use types::{AsciiFrame, FacePack, Mood, PackError};

verus! {

/// The face of the host.
pub struct Agent {
    engine: MoodEngine,
}

impl Agent {
    /// The engine that turns the frames.
    pub closed spec fn engine(&self) -> MoodEngine {
        self.engine
    }

    /// A face of the given frames that shows the first frame of the
    /// neutral mood from `now` on.
    pub fn from_pack(pack: FacePack, now: Moment) -> (agent: Agent)
        requires
            pack.wf(),
        ensures
            agent.engine().pack() == pack,
            agent.engine().current_mood() == Mood::Neutral,
            agent.engine().frame_index() == 0,
            agent.engine().interval().nanos == mood::FRAME_INTERVAL_NANOS,
            agent.engine().last_advance() == now,
    {
        Agent { engine: MoodEngine::new(pack, now) }
    }

    /// Lets time pass, as the engine's `tick` says.
    pub fn tick(&mut self, now: Moment)
        ensures
            final(self).engine().pack() == old(self).engine().pack(),
            final(self).engine().current_mood() == old(self).engine().current_mood(),
            final(self).engine().frame_index() == (old(self).engine().frame_index()
                + mood::intervals_passed(
                now,
                old(self).engine().last_advance(),
                old(self).engine().interval(),
            )) % (old(self).engine().pack().frames_per_mood as nat),
            final(self).engine().interval() == old(self).engine().interval(),
            final(self).engine().last_advance().nanos == old(self).engine().last_advance().nanos
                + mood::intervals_passed(
                now,
                old(self).engine().last_advance(),
                old(self).engine().interval(),
            ) * old(self).engine().interval().nanos,
    {
        self.engine.tick(now);
    }

    /// The frame that shows.
    pub fn current_frame(&self) -> (frame: &AsciiFrame)
        ensures
            *frame == self.engine().shown_frame(),
    {
        self.engine.current_frame()
    }

    /// Changes the mood, as the engine's `set_mood` says.
    pub fn set_mood(&mut self, mood: Mood, now: Moment)
        ensures
            final(self).engine().pack() == old(self).engine().pack(),
            final(self).engine().current_mood() == mood,
            final(self).engine().interval() == old(self).engine().interval(),
            if old(self).engine().current_mood() == mood {
                final(self).engine().frame_index() == old(self).engine().frame_index()
                    && final(self).engine().last_advance() == old(self).engine().last_advance()
            } else {
                final(self).engine().frame_index() == 0 && final(self).engine().last_advance()
                    == now
            },
    {
        self.engine.set_mood(mood, now);
    }

    /// The mood that shows.
    pub fn mood(&self) -> (mood: Mood)
        ensures
            mood == self.engine().current_mood(),
    {
        self.engine.mood()
    }
}

} // verus!
