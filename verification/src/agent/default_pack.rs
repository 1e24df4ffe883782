//! The face a host shows when it is given no other.

use vstd::prelude::*;
use crate::agent::types::{AsciiFrame, FacePack, PackError};

verus! {

/// The frame of the given lines.
pub fn frame(lines: &[&str]) -> (frame: AsciiFrame)
    ensures
        crate::text::texts(frame.lines@) == crate::agent::types::slice_texts(lines@),
{
    AsciiFrame::from_lines(lines)
}

fn three(a: AsciiFrame, b: AsciiFrame, c: AsciiFrame) -> (frames: Vec<AsciiFrame>)
    ensures
        frames@ == seq![a, b, c],
{
    let mut frames: Vec<AsciiFrame> = Vec::new();
    frames.push(a);
    frames.push(b);
    frames.push(c);
    assert(frames@ =~= seq![a, b, c]);
    frames
}

/// The default face: three frames for each of the six moods.
pub fn load_default_pack() -> (r: Result<FacePack, PackError>)
    ensures
        r matches Ok(pack) && pack.wf() && pack.frames_per_mood == 3,
{
    let mut frames: Vec<Vec<AsciiFrame>> = Vec::new();
    frames.push(
        three(
            frame(&["  .-----.  ", " | o   o | ", " |   -   | ", "  '-----'  "]),
            frame(&["  .-----.  ", " | -   - | ", " |   -   | ", "  '-----'  "]),
            frame(&["  .-----.  ", " | o   o | ", " |   o   | ", "  '-----'  "]),
        ),
    );
    frames.push(
        three(
            frame(&["  .-----.  ", " | ^   ^ | ", " |  \\_/  | ", "  '-----'  "]),
            frame(&["  .-----.  ", " | ^   ^ | ", " |  \\__/ | ", "  '-----'  "]),
            frame(&["  .-----.  ", " | ^   ^ | ", " |  \\___/| ", "  '-----'  "]),
        ),
    );
    frames.push(
        three(
            frame(&["  .-----.  ", " | >   < | ", " |   _   | ", "  '-----'  "]),
            frame(&["  .-----.  ", " | >   < | ", " |  ___  | ", "  '-----'  "]),
            frame(&["  .-----.  ", " | >   < | ", " |   _   | ", "  '-----'  "]),
        ),
    );
    frames.push(
        three(
            frame(&["  .-***-.  ", " | *   * | ", " |  \\_/  | ", "  '-***-'  "]),
            frame(&["  .-***-.  ", " | *   * | ", " |  \\__/ | ", "  '-***-'  "]),
            frame(&["  .-***-.  ", " | *   * | ", " |  /_\\  | ", "  '-***-'  "]),
        ),
    );
    frames.push(
        three(
            frame(&["  .-----.  ", " | x   x | ", " |   ~   | ", "  '-----'  "]),
            frame(&["  .-----.  ", " | x   x | ", " |  ___  | ", "  '-----'  "]),
            frame(&["  .-----.  ", " | x   x | ", " |   _   | ", "  '-----'  "]),
        ),
    );
    frames.push(
        three(
            frame(&["  .-----.  ", " | o   - | ", " |   _   |?", "  '-----'  "]),
            frame(&["  .-----.  ", " | -   o | ", " |   _   |?", "  '-----'  "]),
            frame(&["  .-----.  ", " | o   o | ", " |   _   |?", "  '-----'  "]),
        ),
    );
    proof {
        reveal_with_fuel(crate::agent::types::uneven_from, 8);
    }
    FacePack::new(frames)
}

} // verus!
