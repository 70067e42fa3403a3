//! The escape sequences that set and reset terminal colours, wrapped in the
//! markers by which a shell counts them as zero-width.

use vstd::prelude::*;
use vstd::string::*;
use crate::text::{decimal, push_decimal};
use crate::themes::Colorcode;

verus! {

/// The sequence that selects colour `code` in the plane `prefix` (38 for the
/// foreground, 48 for the background).
pub open spec fn color_text(prefix: Seq<char>, code: Colorcode) -> Seq<char> {
    "\\[\\e["@ + prefix + ";5;"@ + decimal(code as int) + "m\\]"@
}

/// The sequence that sets the foreground colour.
pub open spec fn fg_text(code: Colorcode) -> Seq<char> {
    color_text("38"@, code)
}

/// The sequence that sets the background colour.
pub open spec fn bg_text(code: Colorcode) -> Seq<char> {
    color_text("48"@, code)
}

/// The sequence that switches all colours off.
pub open spec fn reset_text() -> Seq<char> {
    "\\[\\e[0m\\]"@
}

/// Writes the sequence that selects colour `code` in the plane `prefix`.
pub fn color(prefix: &str, code: Colorcode) -> (r: String)
    ensures
        r@ == color_text(prefix@, code),
{
    let mut out = String::from_str("\\[\\e[");
    out.append(prefix);
    out.append(";5;");
    push_decimal(&mut out, code as i64);
    out.append("m\\]");
    out
}

/// Writes the sequence that sets the foreground colour.
pub fn fgcolor(code: Colorcode) -> (r: String)
    ensures
        r@ == fg_text(code),
{
    color("38", code)
}

/// Writes the sequence that sets the background colour.
pub fn bgcolor(code: Colorcode) -> (r: String)
    ensures
        r@ == bg_text(code),
{
    color("48", code)
}

/// Writes the sequence that switches all colours off.
pub fn reset() -> (r: String)
    ensures
        r@ == reset_text(),
{
    String::from_str("\\[\\e[0m\\]")
}

} // verus!
