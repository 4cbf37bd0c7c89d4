//! A configuration record with sensible defaults.

use std::path::PathBuf;
use std::time::Duration;
use vstd::prelude::*;

verus! {

/// Declares `std::path::PathBuf`, so that configuration fields can hold
/// paths; the library never looks inside one.
#[verifier::external_type_specification]
#[verifier::external_body]
pub struct ExPathBuf(PathBuf);

/// The span of the given number of whole seconds.
pub uninterp spec fn duration_from_secs(secs: u64) -> Duration;

/// Relies on `std::time::Duration::from_secs`: the result is a function of
/// the argument alone.
#[verifier::external_body]
fn seconds(secs: u64) -> (d: Duration)
    ensures
        d == duration_from_secs(secs),
{
    Duration::from_secs(secs)
}

/// Where to write, where to search, how long to wait, and whether to check.
#[derive(Debug)]
pub struct MyConfiguration {
    pub output: Option<PathBuf>,
    pub search_path: Vec<PathBuf>,
    pub timeout: Duration,
    pub check: bool,
}

impl Default for MyConfiguration {
    /// No output, an empty search path, a timeout of zero seconds, and
    /// checking switched off.
    fn default() -> (c: MyConfiguration)
        ensures
            c.output is None,
            c.search_path@ == Seq::<PathBuf>::empty(),
            c.timeout == duration_from_secs(0),
            c.check == false,
    {
        let c = MyConfiguration {
            output: None,
            search_path: Vec::new(),
            timeout: seconds(0),
            check: false,
        };
        proof {
            assert(c.search_path@ =~= Seq::<PathBuf>::empty());
        }
        c
    }
}

} // verus!
