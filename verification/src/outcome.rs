//! What came of an action that was carried out on the library's behalf.
//!
//! The operating system and the windowing layer report a failure as a text;
//! that text is handed back as `Err`.

use vstd::prelude::*;

verus! {

/// An outcome as a mathematical value: done, or failed with an error text.
pub open spec fn outcome_view(outcome: Result<(), String>) -> Result<(), Seq<char>> {
    match outcome {
        Ok(_) => Ok(()),
        Err(error) => Err(error@),
    }
}

} // verus!
