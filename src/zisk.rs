//! The adapter for ZisK: an emulator-only backend. Execution reads the cycle
//! count from the emulator's statistics report; proving and verification are
//! not available.

use vstd::prelude::*;
use vstd::string::*;
use crate::input::{concat_payloads, Input};
use crate::stats::{read_stat, spec_stat};
use crate::report::{ProgramExecutionReport, ProgramProvingReport};

verus! {

/// The compiler for ZisK guests (RV64IMA); the program is the ELF's path.
#[allow(non_camel_case_types)]
#[derive(Debug)]
pub struct RV64_IMA_ZISK_ZKVM_ELF;

/// Why executing a ZisK guest failed.
#[derive(Debug)]
pub enum ExecuteError {
    /// The input could not be serialized.
    SerializeInput(String),
    /// The ELF could not be turned into a ZisK ROM.
    Riscv2ziskFailed(String),
    /// The emulator stopped without the guest terminating.
    EmulationNotTerminate,
    /// The statistics report holds no total step count.
    TotalStepsNotFound,
}

/// Any failure of the ZisK adapter.
#[derive(Debug)]
pub enum ZiskError {
    Compile(crate::manifest::ManifestError),
    Execute(ExecuteError),
    /// This backend has no prover.
    ProveNotImplemented,
    /// This backend has no verifier.
    VerifyNotImplemented,
}

/// The marker that precedes the step count in the statistics report.
pub const TOTAL_STEPS_MARKER: &'static str = "total steps = ";

/// The total step count in a statistics report.
pub open spec fn spec_total_steps(report: Seq<char>) -> Option<nat> {
    spec_stat(report, TOTAL_STEPS_MARKER@)
}

/// The total step count in the emulator's statistics report, or
/// `TotalStepsNotFound` when the report has none.
pub fn parse_total_steps(report: &str) -> (r: Result<u64, ExecuteError>)
    ensures
        match spec_total_steps(report@) {
            Some(v) => r == Ok::<u64, ExecuteError>(v as u64),
            None => r matches Err(ExecuteError::TotalStepsNotFound),
        },
{
    match read_stat(report, TOTAL_STEPS_MARKER) {
        Some(v) => Ok(v),
        None => Err(ExecuteError::TotalStepsNotFound),
    }
}

/// The ZisK backend bound to the path of a compiled ELF.
#[derive(Debug)]
pub struct EreZisk {
    elf_path: String,
}

impl EreZisk {
    pub closed spec fn spec_elf_path(&self) -> Seq<char> {
        self.elf_path@
    }

    pub fn new(elf_path: String) -> (r: EreZisk)
        ensures
            r.spec_elf_path() == elf_path@,
    {
        EreZisk { elf_path }
    }

    pub fn elf_path(&self) -> (r: &String)
        ensures
            r@ == self.spec_elf_path(),
    {
        &self.elf_path
    }

    /// The emulator's input: all item payloads, concatenated in order.
    pub fn emulator_input(input: &Input) -> (r: Vec<u8>)
        ensures
            r@ == concat_payloads(input@),
    {
        input.concatenated_bytes()
    }

    /// The report of an emulation: it must have terminated, and its
    /// statistics report must give the total step count, which becomes the
    /// cycle count.
    pub fn execute_result(terminated: bool, stats_report: &str) -> (r: Result<
        ProgramExecutionReport,
        ZiskError,
    >)
        ensures
            !terminated ==> r matches Err(ZiskError::Execute(ExecuteError::EmulationNotTerminate)),
            terminated ==> match spec_total_steps(stats_report@) {
                Some(v) => r matches Ok(rep) && rep.total_num_cycles == Some(v as u64)
                    && rep.regions().len() == 0,
                None => r matches Err(ZiskError::Execute(ExecuteError::TotalStepsNotFound)),
            },
    {
        if !terminated {
            return Err(ZiskError::Execute(ExecuteError::EmulationNotTerminate));
        }
        match parse_total_steps(stats_report) {
            Ok(v) => Ok(ProgramExecutionReport::new(v)),
            Err(e) => Err(ZiskError::Execute(e)),
        }
    }

    /// Proving is not available on this backend: it fails at once, with an
    /// error that says so.
    pub fn prove(&self, input: &Input) -> (r: Result<(Vec<u8>, ProgramProvingReport), ZiskError>)
        ensures
            r matches Err(ZiskError::ProveNotImplemented),
    {
        Err(ZiskError::ProveNotImplemented)
    }

    /// Verification is not available on this backend: it fails at once,
    /// with an error that says so.
    pub fn verify(&self, proof_bytes: &[u8]) -> (r: Result<(), ZiskError>)
        ensures
            r matches Err(ZiskError::VerifyNotImplemented),
    {
        Err(ZiskError::VerifyNotImplemented)
    }
}

} // verus!
