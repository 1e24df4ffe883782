//! Faces: the moods a face can show, the frames of a mood, and the pack
//! that holds the frames of every mood.

use vstd::prelude::*;
use crate::text::{concat2, concat4, decimal, render_u64, texts};

verus! {

/// One frame of a face, as lines of text.
#[derive(Debug, Clone, PartialEq, Eq)]
pub struct AsciiFrame {
    pub lines: Vec<String>,
}

/// The texts of a list of string slices.
pub open spec fn slice_texts(lines: Seq<&str>) -> Seq<Seq<char>> {
    Seq::new(lines.len(), |i: int| lines[i]@)
}

impl AsciiFrame {
    /// The frame of the given lines.
    pub fn from_lines(lines: &[&str]) -> (frame: AsciiFrame)
        ensures
            texts(frame.lines@) == slice_texts(lines@),
    {
        let mut owned: Vec<String> = Vec::new();
        let mut i: usize = 0;
        while i < lines.len()
            invariant
                i <= lines.len(),
                owned.len() == i,
                forall|j: int| 0 <= j < i ==> owned@[j]@ == lines@[j]@,
            decreases lines.len() - i,
        {
            let line: &str = lines[i];
            owned.push(line.to_owned());
            i += 1;
        }
        assert(texts(owned@) =~= slice_texts(lines@));
        AsciiFrame { lines: owned }
    }
}

/// The moods a face can show.
#[derive(Debug, Clone, Copy, PartialEq, Eq, Hash, Structural)]
pub enum Mood {
    Neutral,
    Happy,
    Angry,
    GodMode,
    HurtRealBad,
    Thinking,
}

/// The place of a mood among the moods, which is the place of its
/// frames in a pack.
pub open spec fn mood_ordinal(mood: Mood) -> int {
    match mood {
        Mood::Neutral => 0,
        Mood::Happy => 1,
        Mood::Angry => 2,
        Mood::GodMode => 3,
        Mood::HurtRealBad => 4,
        Mood::Thinking => 5,
    }
}

impl Mood {
    /// The number of moods.
    pub const COUNT: usize = 6;

    /// The moods in the order of their places.
    pub const ALL: [Mood; 6] = [
        Mood::Neutral,
        Mood::Happy,
        Mood::Angry,
        Mood::GodMode,
        Mood::HurtRealBad,
        Mood::Thinking,
    ];

    /// The place of the mood among the moods.
    pub fn ordinal(self) -> (place: usize)
        ensures
            place == mood_ordinal(self),
            place < 6,
    {
        match self {
            Mood::Neutral => 0,
            Mood::Happy => 1,
            Mood::Angry => 2,
            Mood::GodMode => 3,
            Mood::HurtRealBad => 4,
            Mood::Thinking => 5,
        }
    }
}

/// What is wrong with the frames of a pack, over plain values.
pub enum PackFault {
    WrongMoodCount { found: nat },
    NoFrames,
    UnevenFrames { mood: nat, found: nat, expected: nat },
    MissingMood(Seq<char>),
}

/// Why a face pack was rejected.
#[derive(Debug, Clone, PartialEq, Eq)]
pub enum PackError {
    /// The pack does not have frames for six moods.
    WrongMoodCount { found: usize },
    /// The first mood has no frame.
    NoFrames,
    /// The mood at place `mood` has another number of frames than the
    /// first.
    UnevenFrames { mood: usize, found: usize, expected: usize },
    /// The metadata of a pack does not say where the frames of the
    /// mood of this name are.
    MissingMood(String),
}

impl View for PackError {
    type V = PackFault;

    open spec fn view(&self) -> PackFault {
        match self {
            PackError::WrongMoodCount { found } => PackFault::WrongMoodCount {
                found: *found as nat,
            },
            PackError::NoFrames => PackFault::NoFrames,
            PackError::UnevenFrames { mood, found, expected } => PackFault::UnevenFrames {
                mood: *mood as nat,
                found: *found as nat,
                expected: *expected as nat,
            },
            PackError::MissingMood(name) => PackFault::MissingMood(name@),
        }
    }
}

impl PackFault {
    /// The fault in words.
    pub open spec fn message(self) -> Seq<char> {
        match self {
            PackFault::WrongMoodCount { found } => "face pack must define 6 moods, got "@
                + decimal(found),
            PackFault::NoFrames => "face pack must contain at least one frame per mood"@,
            PackFault::UnevenFrames { mood, found, expected } => "mood index "@ + decimal(mood)
                + " has "@ + decimal(found) + " frames, expected "@ + decimal(expected),
            PackFault::MissingMood(name) => "missing mood \""@ + name
                + "\" in face pack metadata"@,
        }
    }
}

impl PackError {
    /// The error in words.
    pub fn message(&self) -> (text: String)
        ensures
            text@ == self@.message(),
    {
        match self {
            PackError::WrongMoodCount { found } => {
                let n = render_u64(*found as u64);
                concat2("face pack must define 6 moods, got ", n.as_str())
            },
            PackError::NoFrames => "face pack must contain at least one frame per mood".to_owned(),
            PackError::UnevenFrames { mood, found, expected } => {
                let m = render_u64(*mood as u64);
                let f = render_u64(*found as u64);
                let e = render_u64(*expected as u64);
                let mut text = concat4("mood index ", m.as_str(), " has ", f.as_str());
                text.append(" frames, expected ");
                text.append(e.as_str());
                text
            },
            PackError::MissingMood(name) => {
                let mut text = concat2("missing mood \"", name.as_str());
                text.append("\" in face pack metadata");
                text
            },
        }
    }
}

/// The frames of every mood.
#[derive(Debug, Clone, PartialEq, Eq)]
pub struct FacePack {
    /// The frames, by the place of the mood and then by the place of
    /// the frame.
    pub frames: Vec<Vec<AsciiFrame>>,
    /// The number of frames each mood has.
    pub frames_per_mood: usize,
}

/// The first thing that is wrong with the frames of a pack: there have
/// to be six moods, the first has to have a frame, and every mood has
/// to have as many frames as the first.
pub open spec fn frames_fault(frames: Seq<Vec<AsciiFrame>>) -> Option<PackFault> {
    if frames.len() != 6 {
        Some(PackFault::WrongMoodCount { found: frames.len() })
    } else if frames[0]@.len() == 0 {
        Some(PackFault::NoFrames)
    } else {
        uneven_from(frames, 0)
    }
}

/// The first mood from place `from` on that has another number of
/// frames than the first mood.
pub open spec fn uneven_from(frames: Seq<Vec<AsciiFrame>>, from: int) -> Option<PackFault>
    decreases frames.len() - from,
{
    if from < 0 || from >= frames.len() {
        None
    } else if frames[from]@.len() != frames[0]@.len() {
        Some(
            PackFault::UnevenFrames {
                mood: from as nat,
                found: frames[from]@.len(),
                expected: frames[0]@.len(),
            },
        )
    } else {
        uneven_from(frames, from + 1)
    }
}

impl FacePack {
    /// A pack with frames for six moods, the same number for each and
    /// at least one.
    pub open spec fn wf(&self) -> bool {
        &&& self.frames@.len() == 6
        &&& self.frames_per_mood > 0
        &&& forall|i: int| 0 <= i < 6 ==> (#[trigger] self.frames@[i])@.len() == self.frames_per_mood
    }

    /// Makes a pack of the frames of the six moods.
    pub fn new(frames: Vec<Vec<AsciiFrame>>) -> (r: Result<FacePack, PackError>)
        ensures
            match r {
                Ok(pack) => frames_fault(frames@) is None && pack.wf() && pack.frames == frames,
                Err(e) => frames_fault(frames@) == Some(e@),
            },
    {
        if frames.len() != Mood::COUNT {
            return Err(PackError::WrongMoodCount { found: frames.len() });
        }
        let frames_per_mood: usize = frames[0].len();
        if frames_per_mood == 0 {
            return Err(PackError::NoFrames);
        }
        let mut i: usize = 0;
        while i < frames.len()
            invariant
                i <= frames.len(),
                frames.len() == 6,
                frames_per_mood == frames@[0]@.len(),
                frames_per_mood > 0,
                uneven_from(frames@, 0) == uneven_from(frames@, i as int),
                forall|j: int| 0 <= j < i ==> (#[trigger] frames@[j])@.len() == frames_per_mood,
            decreases frames.len() - i,
        {
            if frames[i].len() != frames_per_mood {
                return Err(
                    PackError::UnevenFrames {
                        mood: i,
                        found: frames[i].len(),
                        expected: frames_per_mood,
                    },
                );
            }
            i += 1;
        }
        Ok(FacePack { frames, frames_per_mood })
    }
}

} // verus!
