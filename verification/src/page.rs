//! What the setup pages compute besides their widgets.
use vstd::prelude::*;

verus! {

/// The text of an optional string property as it is handed on: the string,
/// or the empty string when there is none.
pub fn variant_text(string: Option<String>) -> (r: String)
    ensures
        r@ == match string {
            Some(s) => s@,
            None => Seq::empty(),
        },
{
    match string {
        Some(s) => s,
        None => String::new(),
    }
}

} // verus!
