//! The adapter for Nexus: the guest's package name comes from its manifest,
//! and the prover reads all inputs as one private byte buffer.

use vstd::prelude::*;
use crate::input::{concat_payloads, Input};
use crate::manifest::{guest_package_name, manifest_result, GuestDir, ManifestError};
use crate::risc0::ConfigError;
use crate::report::{ProgramExecutionReport, ProgramProvingReport};
use crate::resource::ProverResourceType;

verus! {

/// The compiler for Nexus guests; the program is the path of the built ELF.
#[allow(non_camel_case_types)]
#[derive(Debug)]
pub struct NEXUS_TARGET;

/// Why compiling a Nexus guest failed.
#[derive(Debug)]
pub enum CompileError {
    /// The guest directory or its manifest is unusable.
    Manifest(ManifestError),
    /// The Nexus toolchain failed.
    Client(String),
}

/// Why proving with Nexus failed.
#[derive(Debug)]
pub enum ProveError {
    Client(String),
    Bincode(String),
}

/// Why verifying a Nexus proof failed.
#[derive(Debug)]
pub enum VerifyError {
    Client(String),
    /// The bytes do not decode as a proof.
    Bincode(String),
}

/// Any failure of the Nexus adapter, by phase.
#[derive(Debug)]
pub enum NexusError {
    /// A resource type this backend cannot serve.
    Config(ConfigError),
    Compile(CompileError),
    Prove(ProveError),
    Verify(VerifyError),
}

impl NEXUS_TARGET {
    /// The package the Nexus toolchain builds: the guest manifest's
    /// `package.name`, or why there is none.
    pub fn package_name(dir: &str, found: &GuestDir) -> (r: Result<String, NexusError>)
        ensures
            match r {
                Ok(n) => manifest_result(dir@, *found, Ok(n)),
                Err(NexusError::Compile(CompileError::Manifest(e))) => manifest_result(
                    dir@,
                    *found,
                    Err(e),
                ),
                _ => false,
            },
    {
        match guest_package_name(dir, found) {
            Ok(n) => Ok(n),
            Err(e) => Err(NexusError::Compile(CompileError::Manifest(e))),
        }
    }
}

/// The Nexus backend bound to the path of a compiled ELF.
#[derive(Debug)]
pub struct EreNexus {
    program: String,
}

impl EreNexus {
    pub closed spec fn spec_program(&self) -> Seq<char> {
        self.program@
    }

    /// Binds the ELF at `program`. Nexus proves on the CPU only: a GPU or a
    /// network resource fails here, before any run.
    pub fn new(program: String, resource_type: ProverResourceType) -> (r: Result<
        EreNexus,
        NexusError,
    >)
        ensures
            resource_type is Cpu ==> (r matches Ok(z) && z.spec_program() == program@),
            resource_type is Gpu ==> r matches Err(
                NexusError::Config(ConfigError::GpuWithoutSupport),
            ),
            resource_type is Network ==> r matches Err(
                NexusError::Config(ConfigError::NetworkUnsupported),
            ),
    {
        match resource_type {
            ProverResourceType::Cpu => Ok(EreNexus { program }),
            ProverResourceType::Gpu => Err(NexusError::Config(ConfigError::GpuWithoutSupport)),
            ProverResourceType::Network(_) => Err(
                NexusError::Config(ConfigError::NetworkUnsupported),
            ),
        }
    }

    /// The backend's name.
    pub fn name(&self) -> (r: &'static str)
        ensures
            r@ == "nexus"@,
    {
        "nexus"
    }

    pub fn program(&self) -> (r: &String)
        ensures
            r@ == self.spec_program(),
    {
        &self.program
    }

    /// The prover's private input: all item payloads, concatenated in order.
    pub fn private_input(input: &Input) -> (r: Vec<u8>)
        ensures
            r@ == concat_payloads(input@),
    {
        input.concatenated_bytes()
    }

    /// The report of an execution. The Nexus toolchain offers no separate
    /// executor, so the report carries the measured time and says that the
    /// cycle count is unavailable.
    pub fn execute_report(elapsed_nanos: u64) -> (r: ProgramExecutionReport)
        ensures
            r.total_num_cycles is None,
            r.regions().len() == 0,
            r.execution_duration_nanos == elapsed_nanos,
    {
        ProgramExecutionReport::with_duration(None, elapsed_nanos)
    }

    /// The encoded proof and report of a proving run, or its failure.
    pub fn prove_result(outcome: Result<Vec<u8>, String>, elapsed_nanos: u64) -> (r: Result<
        (Vec<u8>, ProgramProvingReport),
        NexusError,
    >)
        ensures
            outcome matches Ok(b) ==> (r matches Ok((p, rep)) && p@ == b@
                && rep.proving_time_nanos == elapsed_nanos),
            outcome matches Err(m) ==> (r matches Err(NexusError::Prove(ProveError::Client(e)))
                && e@ == m@),
    {
        match outcome {
            Ok(b) => Ok((b, ProgramProvingReport::new(elapsed_nanos))),
            Err(m) => Err(NexusError::Prove(ProveError::Client(m))),
        }
    }
}

} // verus!
