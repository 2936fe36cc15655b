//! Ending the first boot: phrog's first-run flag is cleared so that the setup
//! does not start again.
use vstd::prelude::*;

verus! {

/// The settings schema that holds phrog's first-run flag.
pub const FIRST_RUN_SCHEMA: &'static str = "mobi.phosh.phrog";

/// The key of the first-run flag.
pub const FIRST_RUN_KEY: &'static str = "first-run";

/// What clearing the first-run flag comes to.
#[derive(Debug, Clone, Copy, PartialEq, Eq, Structural)]
pub enum FirstRunStep {
    /// The schema is not installed: nothing is changed.
    SchemaMissing,
    /// The schema lacks the key: nothing is changed.
    KeyMissing,
    /// The key is set to the empty string.
    ClearKey,
}

/// The step taken, given whether the schema was found and whether it has
/// the key.
pub open spec fn first_run_step_spec(schema_found: bool, has_key: bool) -> FirstRunStep {
    if !schema_found {
        FirstRunStep::SchemaMissing
    } else if !has_key {
        FirstRunStep::KeyMissing
    } else {
        FirstRunStep::ClearKey
    }
}

/// Decides how the first-run flag is cleared: only when the schema is
/// installed and has the key is the key set, to the empty string.
pub fn first_run_step(schema_found: bool, has_key: bool) -> (r: FirstRunStep)
    ensures
        r == first_run_step_spec(schema_found, has_key),
{
    if !schema_found {
        return FirstRunStep::SchemaMissing;
    }
    if !has_key {
        return FirstRunStep::KeyMissing;
    }
    FirstRunStep::ClearKey
}

} // verus!
