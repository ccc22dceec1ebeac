//! Evaluated backend options of a window.

use vstd::prelude::*;
use vstd::string::StrSliceExecFns;

verus! {

/// Backend-specific options of a window.
pub struct BackendWindowOptions {
    pub wayland: WlBackendWindowOptions,
}

/// Options of a window on a Wayland layer-shell surface.
pub struct WlBackendWindowOptions {
    pub exclusive: bool,
    pub focusable: bool,
    pub namespace: Option<String>,
}

/// An edge of the screen.
#[derive(Clone, Copy, Debug, PartialEq, Eq, Structural)]
pub enum Side {
    Top,
    Left,
    Right,
    Bottom,
}

impl Default for Side {
    fn default() -> (r: Side)
        ensures
            r == Side::Top,
    {
        Side::Top
    }
}

/// Text that names no side.
#[derive(Clone, Debug, PartialEq, Eq)]
pub struct SideParseError {
    pub input: String,
}

/// The side that a word names, in its short or long form.
pub open spec fn side_named(s: Seq<char>) -> Option<Side> {
    if s == "l"@ || s == "left"@ {
        Some(Side::Left)
    } else if s == "r"@ || s == "right"@ {
        Some(Side::Right)
    } else if s == "t"@ || s == "top"@ {
        Some(Side::Top)
    } else if s == "b"@ || s == "bottom"@ {
        Some(Side::Bottom)
    } else {
        None
    }
}

/// Whether two texts hold the same characters.
pub fn same_text(s: &str, w: &str) -> (r: bool)
    ensures
        r == (s@ == w@),
{
    let n = s.unicode_len();
    if n != w.unicode_len() {
        return false;
    }
    let mut i: usize = 0;
    while i < n
        invariant
            n == s@.len() == w@.len(),
            i <= n,
            s@.subrange(0, i as int) == w@.subrange(0, i as int),
        decreases n - i,
    {
        if s.get_char(i) != w.get_char(i) {
            return false;
        }
        i = i + 1;
        assert(s@.subrange(0, i as int) =~= s@.subrange(0, i - 1).push(s@[i - 1]));
        assert(w@.subrange(0, i as int) =~= w@.subrange(0, i - 1).push(w@[i - 1]));
    }
    assert(s@ =~= s@.subrange(0, n as int));
    assert(w@ =~= w@.subrange(0, n as int));
    true
}

impl Side {
    /// Reads a side from its name: `l`/`left`, `r`/`right`, `t`/`top` or
    /// `b`/`bottom`.
    pub fn parse(s: &str) -> (r: Result<Side, SideParseError>)
        ensures
            side_named(s@) matches Some(side) ==> r == Ok::<Side, SideParseError>(side),
            side_named(s@) is None ==> (r matches Err(e) && e.input@ == s@),
    {
        proof {
            reveal_strlit("l");
            reveal_strlit("left");
            reveal_strlit("r");
            reveal_strlit("right");
            reveal_strlit("t");
            reveal_strlit("top");
            reveal_strlit("b");
            reveal_strlit("bottom");
        }
        if same_text(s, "l") || same_text(s, "left") {
            Ok(Side::Left)
        } else if same_text(s, "r") || same_text(s, "right") {
            Ok(Side::Right)
        } else if same_text(s, "t") || same_text(s, "top") {
            Ok(Side::Top)
        } else if same_text(s, "b") || same_text(s, "bottom") {
            Ok(Side::Bottom)
        } else {
            Err(SideParseError { input: s.to_owned() })
        }
    }
}

impl std::str::FromStr for Side {
    type Err = SideParseError;

    fn from_str(s: &str) -> Result<Side, SideParseError> {
        Side::parse(s)
    }
}

} // verus!
