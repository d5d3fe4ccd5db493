//! The diagnostic emitter: structured comment blocks for items the engine
//! refuses to bind. No item is ever silently dropped; a refused item takes
//! its output position as a diagnostic.

use vstd::prelude::*;
use crate::ir::UnsupportedItem;
use crate::strfmt::dec_str;
use crate::strfmt::push_dec;

verus! {

/// The diagnostic comment block for a refused item: its name and the
/// human-readable reason.
pub open spec fn diag_text(name: Seq<char>, reason: Seq<char>) -> Seq<char> {
    "// Error while generating bindings for item '"@ + name + "':\n// "@ + reason + "\n"@
}

/// The diagnostic comment block for a refused item with a source location:
/// file and 1-based line, then name and reason.
pub open spec fn diag_text_at(
    file: Seq<char>,
    line: u64,
    name: Seq<char>,
    reason: Seq<char>,
) -> Seq<char> {
    "// Generated from: "@ + file + ";l="@ + dec_str(line as nat) + "\n"@ + diag_text(
        name,
        reason,
    )
}

/// The diagnostic text of an unsupported IR item.
pub open spec fn unsupported_text(u: UnsupportedItem) -> Seq<char> {
    diag_text_at(u.source_loc.filename@, u.source_loc.line, u.name@, u.message@)
}

/// Appends the diagnostic comment block for `name` and `reason` to `out`.
pub fn push_diag(out: &mut String, name: &str, reason: &str)
    ensures
        final(out)@ == old(out)@ + diag_text(name@, reason@),
{
    out.append("// Error while generating bindings for item '");
    out.append(name);
    out.append("':\n// ");
    out.append(reason);
    out.append("\n");
}

/// The diagnostic comment block for `name` and `reason`, as an owned
/// string.
pub fn diag_string(name: &str, reason: &str) -> (r: String)
    ensures
        r@ == diag_text(name@, reason@),
{
    let mut out = String::new();
    push_diag(&mut out, name, reason);
    out
}

/// The diagnostic text of an unsupported IR item, as an owned string.
pub fn unsupported_string(u: &UnsupportedItem) -> (r: String)
    ensures
        r@ == unsupported_text(*u),
{
    let mut out: String = "// Generated from: ".to_owned();
    out.append(u.source_loc.filename.as_str());
    out.append(";l=");
    push_dec(&mut out, u.source_loc.line);
    out.append("\n");
    push_diag(&mut out, u.name.as_str(), u.message.as_str());
    out
}

} // verus!
