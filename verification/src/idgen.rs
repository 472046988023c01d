//! Generation of fresh execution identifiers.

use vstd::prelude::*;

verus! {

/// Relies on uuid::Uuid::new_v4 and its hyphenated rendering: a fresh random
/// identifier whose rendering is 36 hexadecimal and hyphen characters. The
/// first eight of them after the fixed prefix give a 13-character token; the
/// token is random, so nothing more is promised of it.
#[verifier::external_body]
pub(crate) fn fresh_execution_id() -> (r: String)
    ensures
        r@.len() == 13,
        r@.subrange(0, 5) == "exec_"@,
{
    let u = uuid::Uuid::new_v4().to_string();
    format!("exec_{}", &u[..8])
}

} // verus!
