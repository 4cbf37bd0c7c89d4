//! Small fallible operations with exact success and failure conditions.

use vstd::prelude::*;

verus! {

/// Succeeds exactly when asked to: `Ok("Success")` on `true`,
/// `Err("failure")` on `false`.
pub fn this_can_fail(succeeds: bool) -> (r: Result<String, String>)
    ensures
        succeeds ==> (r matches Ok(s) && s@ == "Success"@),
        !succeeds ==> (r matches Err(e) && e@ == "failure"@),
{
    if succeeds {
        Ok(String::from_str("Success"))
    } else {
        Err(String::from_str("failure"))
    }
}

/// Chains one succeeding and one failing step, so the whole chain always
/// stops at the second step with its `Err("failure")`.
pub fn multiple_possible_failures() -> (r: Result<String, String>)
    ensures
        r matches Err(e) && e@ == "failure"@,
{
    match this_can_fail(true) {
        Ok(_) => {},
        Err(e) => {
            return Err(e);
        },
    }
    match this_can_fail(false) {
        Ok(_) => {},
        Err(e) => {
            return Err(e);
        },
    }
    Ok(String::from_str("all good"))
}

} // verus!
