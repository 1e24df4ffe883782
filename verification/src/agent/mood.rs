//! The engine that turns the frames of a face: it keeps the mood and
//! shows the frames of the mood one after the other.

use vstd::prelude::*;
use crate::agent::types::{mood_ordinal, AsciiFrame, FacePack, Mood};
use crate::clock::{elapsed, Moment, Span};

verus! {

/// The time a frame shows, in nanoseconds.
pub const FRAME_INTERVAL_NANOS: u64 = 300_000_000;

/// Keeps the mood of a face and the frame that shows.
pub struct MoodEngine {
    pack: FacePack,
    mood: Mood,
    frame_index: usize,
    frame_interval: Span,
    last_advance: Moment,
}

/// The number of whole intervals from `last` to `now`.
pub open spec fn intervals_passed(now: Moment, last: Moment, interval: Span) -> nat {
    elapsed(now, last) / (interval.nanos as nat)
}

impl MoodEngine {
    #[verifier::type_invariant]
    spec fn frame_in_pack(&self) -> bool {
        &&& self.pack.wf()
        &&& self.frame_index < self.pack.frames_per_mood
        &&& self.frame_interval.nanos > 0
    }

    /// The frames the engine turns.
    pub closed spec fn pack(&self) -> FacePack {
        self.pack
    }

    /// The mood that shows.
    pub closed spec fn current_mood(&self) -> Mood {
        self.mood
    }

    /// The place of the frame that shows among the frames of the mood.
    pub closed spec fn frame_index(&self) -> nat {
        self.frame_index as nat
    }

    /// The time a frame shows.
    pub closed spec fn interval(&self) -> Span {
        self.frame_interval
    }

    /// When the frame that shows began to show.
    pub closed spec fn last_advance(&self) -> Moment {
        self.last_advance
    }

    /// The frame that shows.
    pub open spec fn shown_frame(&self) -> AsciiFrame {
        self.pack().frames@[mood_ordinal(self.current_mood())]@[self.frame_index() as int]
    }

    /// An engine that shows the first frame of the neutral mood from
    /// `now` on.
    pub fn new(pack: FacePack, now: Moment) -> (engine: MoodEngine)
        requires
            pack.wf(),
        ensures
            engine.pack() == pack,
            engine.current_mood() == Mood::Neutral,
            engine.frame_index() == 0,
            engine.interval().nanos == FRAME_INTERVAL_NANOS,
            engine.last_advance() == now,
    {
        MoodEngine {
            pack,
            mood: Mood::Neutral,
            frame_index: 0,
            frame_interval: Span { nanos: FRAME_INTERVAL_NANOS },
            last_advance: now,
        }
    }

    /// Changes the mood. Another mood shows its first frame from `now`
    /// on; the mood that shows already goes on as it is.
    pub fn set_mood(&mut self, mood: Mood, now: Moment)
        ensures
            final(self).pack() == old(self).pack(),
            final(self).interval() == old(self).interval(),
            final(self).current_mood() == mood,
            if old(self).current_mood() == mood {
                final(self).frame_index() == old(self).frame_index() && final(self).last_advance()
                    == old(self).last_advance()
            } else {
                final(self).frame_index() == 0 && final(self).last_advance() == now
            },
    {
        proof {
            use_type_invariant(&*self);
        }
        if self.mood == mood {
            return ;
        }
        self.mood = mood;
        self.frame_index = 0;
        self.last_advance = now;
    }

    /// Lets time pass. For each whole interval since the frame began
    /// to show, the next frame shows, the first one after the last;
    /// what is left of the time counts towards the next interval.
    pub fn tick(&mut self, now: Moment)
        ensures
            final(self).pack() == old(self).pack(),
            final(self).interval() == old(self).interval(),
            final(self).current_mood() == old(self).current_mood(),
            final(self).frame_index() == (old(self).frame_index() + intervals_passed(
                now,
                old(self).last_advance(),
                old(self).interval(),
            )) % (old(self).pack().frames_per_mood as nat),
            final(self).last_advance().nanos == old(self).last_advance().nanos + intervals_passed(
                now,
                old(self).last_advance(),
                old(self).interval(),
            ) * old(self).interval().nanos,
    {
        proof {
            use_type_invariant(&*self);
        }
        let interval: u64 = self.frame_interval.nanos;
        let gone: u64 = now.since(self.last_advance).nanos;
        let steps: u64 = gone / interval;
        let rest: u64 = gone % interval;
        let count: u128 = self.pack.frames_per_mood as u128;
        let next: u128 = (self.frame_index as u128 + steps as u128) % count;
        proof {
            vstd::arithmetic::div_mod::lemma_fundamental_div_mod(gone as int, interval as int);
            assert(steps * interval == gone - rest) by (nonlinear_arith)
                requires
                    gone == interval * steps + rest,
            ;
        }
        self.frame_index = next as usize;
        self.last_advance = self.last_advance.later(Span { nanos: gone - rest });
    }

    /// The frame that shows.
    pub fn current_frame(&self) -> (frame: &AsciiFrame)
        ensures
            *frame == self.shown_frame(),
            self.pack().wf(),
            self.frame_index() < self.pack().frames_per_mood,
    {
        proof {
            use_type_invariant(self);
        }
        &self.pack.frames[self.mood.ordinal()][self.frame_index]
    }

    /// The mood that shows.
    pub fn mood(&self) -> (mood: Mood)
        ensures
            mood == self.current_mood(),
    {
        self.mood
    }
}

} // verus!
