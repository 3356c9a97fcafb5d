//! What `execute` and `prove` report besides their result.

use vstd::prelude::*;

verus! {

#[verifier::external_type_specification]
#[verifier::external_body]
#[verifier::reject_recursive_types(K)]
#[verifier::reject_recursive_types(V)]
#[verifier::reject_recursive_types(S)]
pub struct ExIndexMap<K, V, S>(indexmap::IndexMap<K, V, S>);

/// The entries of a region map, in insertion order.
pub uninterp spec fn region_entries(m: indexmap::IndexMap<String, u64>) -> Seq<(Seq<char>, u64)>;

/// Relies on indexmap's `IndexMap::new`: a map with no entries.
#[verifier::external_body]
fn empty_regions() -> (r: indexmap::IndexMap<String, u64>)
    ensures
        region_entries(r).len() == 0,
{
    indexmap::IndexMap::new()
}

/// The outcome of running a guest without proving: total cycles (`None`
/// when the backend does not report a count), named regions with their
/// cycle counts (in order, keys unique) and the wall-clock time in
/// nanoseconds.
#[derive(Debug)]
pub struct ProgramExecutionReport {
    pub total_num_cycles: Option<u64>,
    pub region_cycles: indexmap::IndexMap<String, u64>,
    pub execution_duration_nanos: u64,
}

impl ProgramExecutionReport {
    /// The named regions and their cycle counts, in order.
    pub open spec fn regions(&self) -> Seq<(Seq<char>, u64)> {
        region_entries(self.region_cycles)
    }

    /// A report with the given cycle count, no regions and no measured time.
    pub fn new(total_num_cycles: u64) -> (r: ProgramExecutionReport)
        ensures
            r.total_num_cycles == Some(total_num_cycles),
            r.regions().len() == 0,
            r.execution_duration_nanos == 0,
    {
        ProgramExecutionReport {
            total_num_cycles: Some(total_num_cycles),
            region_cycles: empty_regions(),
            execution_duration_nanos: 0,
        }
    }

    /// A report with no regions; `None` cycles when the backend reports no
    /// count.
    pub fn with_duration(total_num_cycles: Option<u64>, execution_duration_nanos: u64) -> (r:
        ProgramExecutionReport)
        ensures
            r.total_num_cycles == total_num_cycles,
            r.regions().len() == 0,
            r.execution_duration_nanos == execution_duration_nanos,
    {
        ProgramExecutionReport {
            total_num_cycles,
            region_cycles: empty_regions(),
            execution_duration_nanos,
        }
    }
}

/// The wall-clock time that proving took, in nanoseconds.
#[derive(Debug, Clone, Copy, PartialEq, Eq)]
pub struct ProgramProvingReport {
    pub proving_time_nanos: u64,
}

impl ProgramProvingReport {
    pub fn new(proving_time_nanos: u64) -> (r: ProgramProvingReport)
        ensures
            r.proving_time_nanos == proving_time_nanos,
    {
        ProgramProvingReport { proving_time_nanos }
    }
}

} // verus!
