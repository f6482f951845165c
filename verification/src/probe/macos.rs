//! Probing on macOS, where the container runtimes run inside a virtual
//! machine and their storage is out of the host's reach.

use crate::probe::{ProbeFacts, ProbeResult};
use vstd::prelude::*;

verus! {

/// What a probe finds on macOS: nothing.
pub open spec fn probe_on() -> ProbeFacts {
    ProbeFacts { runtimes: Seq::empty(), default: None }
}

/// Probes a macOS host: no runtime is looked for, and none is reported.
pub fn probe() -> (result: ProbeResult)
    ensures
        result@ == probe_on(),
        result.well_formed(),
{
    let result = ProbeResult { runtimes: Vec::new(), default: None };
    assert(result@.runtimes =~= Seq::empty());
    result
}

} // verus!
