//! What a module of the host puts on the status display, and the
//! module that greets.

use vstd::prelude::*;
use crate::text::texts;

verus! {

/// The lines a module puts on the two columns of the status display.
#[derive(Debug, Clone, PartialEq, Eq, Default)]
pub struct HudContribution {
    pub left_lines: Vec<String>,
    pub right_lines: Vec<String>,
}

/// The module that greets.
#[derive(Debug, Clone, Copy, PartialEq, Eq, Default)]
pub struct HelloModule;

impl HelloModule {
    /// The module.
    pub fn new() -> (module: HelloModule) {
        HelloModule
    }

    /// The identifier of the module.
    pub fn id(&self) -> (id: &'static str)
        ensures
            id@ == "hello"@,
    {
        "hello"
    }

    /// The title of the module.
    pub fn title(&self) -> (title: &'static str)
        ensures
            title@ == "Hello"@,
    {
        "Hello"
    }

    /// The lines the module puts on the status display.
    pub fn hud(&self) -> (hud: HudContribution)
        ensures
            texts(hud.left_lines@) == seq!["Tab: next module"@, "q: quit"@],
            texts(hud.right_lines@) == seq!["HMR: (planned)"@, "IMG: (planned)"@],
    {
        let mut left_lines: Vec<String> = Vec::new();
        left_lines.push("Tab: next module".to_owned());
        left_lines.push("q: quit".to_owned());
        let mut right_lines: Vec<String> = Vec::new();
        right_lines.push("HMR: (planned)".to_owned());
        right_lines.push("IMG: (planned)".to_owned());
        assert(texts(left_lines@) =~= seq!["Tab: next module"@, "q: quit"@]);
        assert(texts(right_lines@) =~= seq!["HMR: (planned)"@, "IMG: (planned)"@]);
        HudContribution { left_lines, right_lines }
    }
}

} // verus!
