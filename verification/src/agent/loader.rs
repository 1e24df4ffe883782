//! The metadata of a face pack that comes as a sheet of sprites.

use vstd::prelude::*;
use crate::agent::types::{PackError, PackFault};
use crate::text::same_text;

verus! {

/// What a sheet of sprites says of itself.
#[derive(Debug, Clone, PartialEq, Eq)]
pub struct FacePackMeta {
    /// The width and the height of one sprite.
    pub sprite_size: [u32; 2],
    /// The number of frames each mood has.
    pub frames_per_mood: usize,
    /// The row of each mood on the sheet, by the mood's name. Of two
    /// entries of one name the later counts.
    pub moods: Vec<(String, usize)>,
}

/// The row the entries give for `name`: that of the last entry of the
/// name among the first `upto`.
pub open spec fn row_of(moods: Seq<(String, usize)>, name: Seq<char>, upto: int) -> Option<usize>
    decreases upto,
{
    if upto <= 0 || upto > moods.len() {
        None
    } else if moods[upto - 1].0@ == name {
        Some(moods[upto - 1].1)
    } else {
        row_of(moods, name, upto - 1)
    }
}

/// The row the metadata gives for the mood of this name.
pub fn mood_row(meta: &FacePackMeta, name: &str) -> (row: Option<usize>)
    ensures
        row == row_of(meta.moods@, name@, meta.moods@.len() as int),
{
    let mut i: usize = meta.moods.len();
    while i > 0
        invariant
            i <= meta.moods.len(),
            row_of(meta.moods@, name@, meta.moods@.len() as int) == row_of(
                meta.moods@,
                name@,
                i as int,
            ),
        decreases i,
    {
        if same_text(meta.moods[i - 1].0.as_str(), name) {
            return Some(meta.moods[i - 1].1);
        }
        i -= 1;
    }
    None
}

/// The wire names of the six moods in the order of their places.
pub open spec fn mood_names() -> Seq<Seq<char>> {
    seq!["neutral"@, "happy"@, "angry"@, "god_mode"@, "hurt_real_bad"@, "thinking"@]
}

/// The row of each mood on the sheet, by the mood's place. Every mood
/// has to have a row; the first that has none is named.
pub fn parse_mood_map(meta: &FacePackMeta) -> (r: Result<[usize; 6], PackError>)
    ensures
        match r {
            Ok(rows) => forall|m: int|
                0 <= m < 6 ==> row_of(
                    meta.moods@,
                    #[trigger] mood_names()[m],
                    meta.moods@.len() as int,
                ) == Some(rows[m]),
            Err(e) => exists|m: int|
                0 <= m < 6 && e@ == PackFault::MissingMood(#[trigger] mood_names()[m]) && row_of(
                    meta.moods@,
                    mood_names()[m],
                    meta.moods@.len() as int,
                ) is None && forall|k: int|
                    0 <= k < m ==> row_of(
                        meta.moods@,
                        #[trigger] mood_names()[k],
                        meta.moods@.len() as int,
                    ) is Some,
        },
{
    let neutral: usize = match mood_row(meta, "neutral") {
        Some(row) => row,
        None => {
            assert(mood_names()[0] == "neutral"@);
            return Err(PackError::MissingMood("neutral".to_owned()));
        },
    };
    let happy: usize = match mood_row(meta, "happy") {
        Some(row) => row,
        None => {
            assert(mood_names()[1] == "happy"@);
            assert(mood_names()[0] == "neutral"@);
            return Err(PackError::MissingMood("happy".to_owned()));
        },
    };
    let angry: usize = match mood_row(meta, "angry") {
        Some(row) => row,
        None => {
            assert(mood_names()[2] == "angry"@);
            assert(mood_names()[1] == "happy"@);
            assert(mood_names()[0] == "neutral"@);
            return Err(PackError::MissingMood("angry".to_owned()));
        },
    };
    let god_mode: usize = match mood_row(meta, "god_mode") {
        Some(row) => row,
        None => {
            assert(mood_names()[3] == "god_mode"@);
            assert(mood_names()[2] == "angry"@);
            assert(mood_names()[1] == "happy"@);
            assert(mood_names()[0] == "neutral"@);
            return Err(PackError::MissingMood("god_mode".to_owned()));
        },
    };
    let hurt_real_bad: usize = match mood_row(meta, "hurt_real_bad") {
        Some(row) => row,
        None => {
            assert(mood_names()[4] == "hurt_real_bad"@);
            assert(mood_names()[3] == "god_mode"@);
            assert(mood_names()[2] == "angry"@);
            assert(mood_names()[1] == "happy"@);
            assert(mood_names()[0] == "neutral"@);
            return Err(PackError::MissingMood("hurt_real_bad".to_owned()));
        },
    };
    let thinking: usize = match mood_row(meta, "thinking") {
        Some(row) => row,
        None => {
            assert(mood_names()[5] == "thinking"@);
            assert(mood_names()[4] == "hurt_real_bad"@);
            assert(mood_names()[3] == "god_mode"@);
            assert(mood_names()[2] == "angry"@);
            assert(mood_names()[1] == "happy"@);
            assert(mood_names()[0] == "neutral"@);
            return Err(PackError::MissingMood("thinking".to_owned()));
        },
    };
    let rows: [usize; 6] = [neutral, happy, angry, god_mode, hurt_real_bad, thinking];
    assert(mood_names()[5] == "thinking"@);
    assert(mood_names()[4] == "hurt_real_bad"@);
    assert(mood_names()[3] == "god_mode"@);
    assert(mood_names()[2] == "angry"@);
    assert(mood_names()[1] == "happy"@);
    assert(mood_names()[0] == "neutral"@);
    Ok(rows)
}

} // verus!
