//! Small file-handling decisions for saved recordings: the default
//! container extension for an extensionless file name.

use vstd::prelude::*;

use crate::text::find_char;

verus! {

/// A file name kept as given when it already has an extension, else
/// with the default recording container appended.
pub open spec fn spec_default_extension(name: Seq<char>) -> Seq<char> {
    if exists|i: int| 0 <= i < name.len() && name[i] == '.' {
        name
    } else {
        name + ".webm"@
    }
}

/// Append the default container extension to an extensionless name.
pub fn ensure_recording_extension(filename: &String) -> (r: String)
    ensures
        r@ == spec_default_extension(filename@),
{
    match find_char(filename.as_str(), '.') {
        Some(_) => filename.clone(),
        None => {
            let mut out = filename.clone();
            out.append(".webm");
            out
        },
    }
}

} // verus!
