//! Terminal window sizes and the rule for propagating them to a PTY.

use vstd::prelude::*;

verus! {

/// A terminal window size: character cells and pixel dimensions.
#[derive(Clone, Copy, PartialEq, Eq, Structural, Debug)]
pub struct Winsize {
    pub rows: u16,
    pub cols: u16,
    pub xpixel: u16,
    pub ypixel: u16,
}

/// The fixed fallback size reported to a PTY whose head has no real
/// terminal on its input.
pub open spec fn spec_default_winsize() -> Winsize {
    Winsize { rows: 80, cols: 30, xpixel: 640, ypixel: 480 }
}

/// The size applied to a PTY when the local terminal cannot report one.
pub fn default_winsize() -> (w: Winsize)
    ensures
        w == spec_default_winsize(),
{
    Winsize { rows: 80, cols: 30, xpixel: 640, ypixel: 480 }
}

/// The size to apply to the PTY, given what a query of the local terminal
/// returned: the queried size when there was one, the fixed default when
/// the input is not a terminal.
pub fn choose_winsize(queried: Option<Winsize>) -> (w: Winsize)
    ensures
        w == match queried {
            Some(q) => q,
            None => spec_default_winsize(),
        },
{
    match queried {
        Some(q) => q,
        None => default_winsize(),
    }
}

} // verus!
