//! The desktop platforms a bundle is built for.

use vstd::prelude::*;

verus! {

/// The platform a build targets. It fixes how paths are written and which
/// bundled executable belongs to the build.
#[derive(Clone, Copy, Debug, PartialEq, Eq)]
pub enum Platform {
    Linux,
    Windows,
    MacOs,
}

impl Platform {
    /// The character this platform writes between two components of a path.
    pub open spec fn separator(self) -> char {
        match self {
            Platform::Windows => '\\',
            _ => '/',
        }
    }

    /// Whether this platform reads `c` as a boundary between components.
    /// Windows reads both slashes so.
    pub open spec fn separates(self, c: char) -> bool {
        c == '/' || (self is Windows && c == '\\')
    }

    /// The separator as a string of one character.
    pub fn separator_text(self) -> (text: &'static str)
        ensures
            text@ == seq![self.separator()],
    {
        match self {
            Platform::Windows => {
                proof {
                    reveal_strlit("\\");
                }
                assert("\\"@ =~= seq!['\\']);
                "\\"
            },
            _ => {
                proof {
                    reveal_strlit("/");
                }
                assert("/"@ =~= seq!['/']);
                "/"
            },
        }
    }

    /// Tests a character against `separates`.
    pub fn is_separator(self, c: char) -> (yes: bool)
        ensures
            yes == self.separates(c),
    {
        match self {
            Platform::Windows => c == '/' || c == '\\',
            _ => c == '/',
        }
    }
}

} // verus!
