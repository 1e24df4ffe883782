//! How pictures are put on the terminal, and how the way is chosen
//! from what the terminal says of itself.

use vstd::prelude::*;
use crate::text::same_text;

verus! {

/// A way to put pictures on a terminal.
#[derive(Debug, Clone, Copy, PartialEq, Eq, Structural)]
pub enum GraphicsBackend {
    Kitty,
    ITerm2,
    Sixel,
    UnicodeBlock,
}

/// One frame of the face as pixels.
#[derive(Debug, Clone, Copy, PartialEq, Eq)]
pub struct FaceFrame<'a> {
    pub data: &'a [u8],
    pub width: u32,
    pub height: u32,
}

/// What the shell of the host shows.
#[derive(Debug, Clone, PartialEq, Eq)]
pub struct ShellView<'a> {
    pub module_title: &'a str,
    pub status_line: &'a str,
    pub hud_left: Vec<String>,
    pub hud_right: Vec<String>,
    pub face: Option<FaceFrame<'a>>,
    pub graphics_backend: GraphicsBackend,
}

/// `str::to_lowercase`: the text in lower case, as Unicode has it.
pub uninterp spec fn lowercased(s: Seq<char>) -> Seq<char>;

/// `str::to_lowercase`, whose result is `lowercased` of the text.
#[verifier::external_body]
fn lowercase(s: &str) -> (r: String)
    ensures
        r@ == lowercased(s@),
{
    s.to_lowercase()
}

/// Whether `needle` occurs in `s` at place `at`.
pub open spec fn occurs_at(s: Seq<char>, needle: Seq<char>, at: int) -> bool {
    0 <= at && at + needle.len() <= s.len() && s.subrange(at, at + needle.len()) == needle
}

/// Whether `needle` occurs in `s`.
pub open spec fn occurs_in(s: Seq<char>, needle: Seq<char>) -> bool {
    exists|at: int| occurs_at(s, needle, at)
}

/// Whether `needle` occurs in `s`.
pub fn contains_text(s: &str, needle: &str) -> (found: bool)
    ensures
        found == occurs_in(s@, needle@),
{
    let n: usize = s.unicode_len();
    let m: usize = needle.unicode_len();
    if m > n {
        assert forall|at: int| !occurs_at(s@, needle@, at) by {}
        return false;
    }
    let mut at: usize = 0;
    while at <= n - m
        invariant
            n == s@.len(),
            m == needle@.len(),
            m <= n,
            at <= n - m + 1,
            forall|k: int| 0 <= k < at ==> !occurs_at(s@, needle@, k),
        decreases n - m + 1 - at,
    {
        let mut j: usize = 0;
        while j < m && s.get_char(at + j) == needle.get_char(j)
            invariant
                n == s@.len(),
                m == needle@.len(),
                at + m <= n,
                j <= m,
                forall|k: int| 0 <= k < j ==> s@[at + k] == needle@[k],
            decreases m - j,
        {
            j += 1;
        }
        if j == m {
            assert(s@.subrange(at as int, at + m) =~= needle@);
            assert(occurs_at(s@, needle@, at as int));
            return true;
        }
        proof {
            assert(s@.subrange(at as int, at + m)[j as int] == s@[at + j]);
        }
        at += 1;
    }
    assert forall|k: int| !occurs_at(s@, needle@, k) by {}
    false
}

/// The way to put pictures on the terminal, from what the user asks
/// for (`SPUD_GRAPHICS`) and what the terminal says of itself
/// (`TERM_PROGRAM`, `TERM`). What the user asks for counts first,
/// where it is `sixel` or `unicode` in any case of letters; then a
/// terminal that is known for sixel gets sixel; every other gets
/// Unicode blocks.
pub open spec fn chosen_backend(
    asked: Option<Seq<char>>,
    program: Option<Seq<char>>,
    term: Option<Seq<char>>,
) -> GraphicsBackend {
    if asked is Some && lowercased(asked->0) == "sixel"@ {
        GraphicsBackend::Sixel
    } else if asked is Some && lowercased(asked->0) == "unicode"@ {
        GraphicsBackend::UnicodeBlock
    } else if program is Some && (program->0 == "WezTerm"@ || program->0 == "mlterm"@) {
        GraphicsBackend::Sixel
    } else if term is Some && (occurs_in(term->0, "xterm"@) || occurs_in(term->0, "mlterm"@)
        || term->0 == "foot"@) {
        GraphicsBackend::Sixel
    } else {
        GraphicsBackend::UnicodeBlock
    }
}

/// Chooses the way to put pictures on the terminal.
pub fn detect_backend(asked: Option<&str>, program: Option<&str>, term: Option<&str>) -> (backend:
    GraphicsBackend)
    ensures
        backend == chosen_backend(
            match asked {
                Some(s) => Some(s@),
                None => None,
            },
            match program {
                Some(s) => Some(s@),
                None => None,
            },
            match term {
                Some(s) => Some(s@),
                None => None,
            },
        ),
{
    match asked {
        Some(value) => {
            let lower: String = lowercase(value);
            if same_text(lower.as_str(), "sixel") {
                return GraphicsBackend::Sixel;
            }
            if same_text(lower.as_str(), "unicode") {
                return GraphicsBackend::UnicodeBlock;
            }
        },
        None => {},
    }
    match program {
        Some(name) => {
            if same_text(name, "WezTerm") || same_text(name, "mlterm") {
                return GraphicsBackend::Sixel;
            }
        },
        None => {},
    }
    match term {
        Some(name) => {
            if contains_text(name, "xterm") || contains_text(name, "mlterm") || same_text(
                name,
                "foot",
            ) {
                return GraphicsBackend::Sixel;
            }
        },
        None => {},
    }
    GraphicsBackend::UnicodeBlock
}

} // verus!
