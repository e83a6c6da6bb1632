use vstd::prelude::*;

verus! {

/// The diagnostic line reported when a path does not name a regular file:
/// `File '<path>' doesn't exists` (the informal wording is kept verbatim).
pub open spec fn not_found_text(path: Seq<char>) -> Seq<char> {
    "File '"@ + path + "' doesn't exists"@
}

/// Builds the diagnostic line for a path that does not name a regular file.
pub fn not_found_message(path: &str) -> (r: String)
    ensures
        r@ == not_found_text(path@),
{
    let mut s = String::from_str("File '");
    s.append(path);
    s.append("' doesn't exists");
    s
}

} // verus!
