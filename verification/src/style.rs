//! SGR (Select Graphic Rendition) styling of list rows: the highlighted
//! row inverted as black on white, the others dimmed, ordinals green and
//! the input prompt magenta, each followed by a full attribute reset.

use vstd::prelude::*;
use vstd::string::StringExecFns;

verus! {

/// The SGR reset sequence that closes every styled span.
pub open spec fn sgr_reset() -> Seq<char> {
    "\x1b[0m"@
}

/// A span styled by one SGR introducer and closed by a reset.
pub open spec fn styled(intro: Seq<char>, s: Seq<char>) -> Seq<char> {
    intro + s + sgr_reset()
}

/// Dim (faint) styling, for the rows that are not highlighted.
pub open spec fn faint_of(s: Seq<char>) -> Seq<char> {
    styled("\x1b[2m"@, s)
}

/// Black-on-white styling, for the highlighted row.
pub open spec fn highlight_of(s: Seq<char>) -> Seq<char> {
    styled("\x1b[30;47m"@, s)
}

/// Green styling, for the ordinals of the numbered mode.
pub open spec fn green_of(s: Seq<char>) -> Seq<char> {
    styled("\x1b[32m"@, s)
}

/// Magenta styling, for the input prompt of the filterable mode.
pub open spec fn magenta_of(s: Seq<char>) -> Seq<char> {
    styled("\x1b[35m"@, s)
}

/// Wraps `s` between the given SGR introducer and a reset.
fn sgr_wrap(intro: &str, s: &str) -> (r: String)
    ensures
        r@ == styled(intro@, s@),
{
    let mut r = intro.to_owned();
    r.append(s);
    r.append("\x1b[0m");
    r
}

/// `s` styled dim.
pub fn faint(s: &str) -> (r: String)
    ensures
        r@ == faint_of(s@),
{
    sgr_wrap("\x1b[2m", s)
}

/// `s` styled black on white.
pub fn highlight(s: &str) -> (r: String)
    ensures
        r@ == highlight_of(s@),
{
    sgr_wrap("\x1b[30;47m", s)
}

/// `s` styled green.
pub fn green(s: &str) -> (r: String)
    ensures
        r@ == green_of(s@),
{
    sgr_wrap("\x1b[32m", s)
}

/// `s` styled magenta.
pub fn magenta(s: &str) -> (r: String)
    ensures
        r@ == magenta_of(s@),
{
    sgr_wrap("\x1b[35m", s)
}

} // verus!
