//! The adapter for RISC Zero: resource-type dispatch at construction, the
//! lifecycle of the local proving service a CUDA build relies on, and the
//! decisions around the executor, the prover and the service's job queue.

use vstd::prelude::*;
use vstd::string::*;
use crate::clock::{nanos_since, now};
use crate::input::{le_bytes, le_encode, words_le, Input, InputItem};
use crate::report::{ProgramExecutionReport, ProgramProvingReport};
use crate::resource::ProverResourceType;

verus! {

/// A compiled RISC Zero guest: its ELF and its image identifier.
#[derive(Debug, Clone)]
pub struct Risc0Program {
    pub elf: Vec<u8>,
    pub image_id: [u32; 8],
}

/// The compiler for RISC Zero guests (RV32IM).
#[allow(non_camel_case_types)]
#[derive(Debug)]
pub struct RV32_IM_RISCZERO_ZKVM_ELF;

#[verifier::external_type_specification]
#[verifier::external_body]
pub struct ExReceipt(risc0_zkvm::Receipt);

/// Whether bytes open with the tag of a succinct or a Groth16 receipt.
/// bincode writes an enum's variant as its index in four little-endian
/// bytes, and a `Receipt` begins with its `InnerReceipt`, whose variants are
/// Composite (0), Succinct (1), Groth16 (2) and Fake (3). Succinct and
/// Groth16 receipts hold no nested receipts, so decoding them recurses to a
/// fixed depth only; a composite receipt nests receipts without bound.
pub open spec fn flat_receipt_tag(b: Seq<u8>) -> bool {
    b.len() >= 4 && (b[0] == 1 || b[0] == 2) && b[1] == 0 && b[2] == 0 && b[3] == 0
}

/// Whether bytes decode, with bincode, as a receipt.
pub uninterp spec fn receipt_decodes(bytes: Seq<u8>) -> bool;

/// Whether bytes decode as a receipt that verifies, with dev mode off,
/// against the image identifier.
pub uninterp spec fn receipt_verifies(bytes: Seq<u8>, image_id: [u32; 8]) -> bool;

/// Relies on bincode::deserialize for risc0_zkvm's `Receipt` (the encoding
/// that RISC Zero's proving service hands receipts out in): whether the
/// bytes decode depends on them alone. Bytes that name a value of the
/// uninhabited `Unknown` type make its derived `Deserialize` fail, not panic.
/// bincode has no depth limit, so only bytes with a flat receipt's tag are
/// handed to it. The error is bincode's message.
#[verifier::external_body]
fn decode_receipt(bytes: &[u8]) -> (r: Result<risc0_zkvm::Receipt, String>)
    requires
        flat_receipt_tag(bytes@),
    ensures
        r is Ok <==> receipt_decodes(bytes@),
{
    bincode::deserialize::<risc0_zkvm::Receipt>(bytes).map_err(|e| e.to_string())
}

/// Relies on bincode::deserialize for risc0_zkvm's `Receipt` and on
/// `Receipt::verify_with_context` with dev mode switched off, against the
/// image identifier given as eight words: the outcome depends on the bytes
/// and the identifier alone. The error is the message of either step.
#[verifier::external_body]
fn check_receipt(bytes: &[u8], image_id: [u32; 8]) -> (r: Result<(), String>)
    requires
        flat_receipt_tag(bytes@),
    ensures
        r is Ok <==> receipt_verifies(bytes@, image_id),
{
    let receipt = bincode::deserialize::<risc0_zkvm::Receipt>(bytes).map_err(|e| e.to_string())?;
    let ctx = risc0_zkvm::VerifierContext::default().with_dev_mode(false);
    receipt
        .verify_with_context(&ctx, risc0_zkvm::sha::Digest::from(image_id))
        .map_err(|e| e.to_string())
}

fn has_flat_receipt_tag(b: &[u8]) -> (r: bool)
    ensures
        r == flat_receipt_tag(b@),
{
    b.len() >= 4 && (b[0] == 1 || b[0] == 2) && b[1] == 0 && b[2] == 0 && b[3] == 0
}

/// Accepts receipt bytes from the proving service as proof bytes: they must
/// carry a flat receipt's tag and decode as a receipt.
pub fn service_receipt(bytes: Vec<u8>) -> (r: Result<Vec<u8>, Risc0Error>)
    ensures
        r matches Ok(b) ==> b@ == bytes@,
        r is Ok <==> (flat_receipt_tag(bytes@) && receipt_decodes(bytes@)),
        r is Err ==> r matches Err(Risc0Error::DecodeProof(_)),
{
    if !has_flat_receipt_tag(bytes.as_slice()) {
        return Err(Risc0Error::DecodeProof(String::from_str("not a succinct or Groth16 receipt")));
    }
    match decode_receipt(bytes.as_slice()) {
        Ok(_) => Ok(bytes),
        Err(m) => Err(Risc0Error::DecodeProof(m)),
    }
}

/// Relies on risc0_zkvm's `VERSION`, the version of the SDK crate.
#[verifier::external_body]
fn risc0_sdk_version() -> (r: &'static str) {
    risc0_zkvm::VERSION
}

/// The GPU acceleration a build of this library was made with.
#[derive(Debug, Clone, Copy, PartialEq, Eq)]
pub enum GpuSupport {
    NoGpu,
    Cuda,
    Metal,
    CudaAndMetal,
}

/// This build has no GPU acceleration.
pub const BUILD_GPU_SUPPORT: GpuSupport = GpuSupport::NoGpu;

/// Which prover an instance uses.
#[derive(Debug, Clone, Copy, PartialEq, Eq)]
pub enum ProvingPath {
    /// The in-process prover (CPU, or Metal on a Metal build).
    Local,
    /// The local proving service on a CUDA build.
    Bento,
}

/// A resource type that this build cannot serve.
#[derive(Debug, Clone, Copy, PartialEq, Eq)]
pub enum ConfigError {
    /// CPU proving asked of a build with GPU acceleration.
    CpuOnGpuBuild,
    /// GPU proving asked of a build without GPU acceleration.
    GpuWithoutSupport,
    /// GPU proving asked of a build with both CUDA and Metal.
    ConflictingGpuSupport,
    /// Network proving is not implemented for this backend.
    NetworkUnsupported,
}

/// A `docker compose` command on the proving service.
#[derive(Debug, Clone, Copy, PartialEq, Eq)]
pub enum BentoCommand {
    Up,
    Down,
}

/// Any failure of the RISC Zero adapter.
#[derive(Debug)]
pub enum Risc0Error {
    Config(ConfigError),
    /// `docker compose` could not be started.
    ComposeSpawn(String),
    /// `docker compose` ran and failed.
    ComposeFailed(BentoCommand),
    /// The executor failed, for instance because the guest read input it
    /// was not given.
    Execute(String),
    Prove(String),
    /// The bytes are not an encoded receipt.
    DecodeProof(String),
    /// The receipt does not verify against the program's image.
    Verify(String),
    /// The proving service reported a status this adapter does not know.
    UnexpectedStatus(String),
    /// The proving job was still running when the wait bound ran out.
    PollTimeout,
    /// Proving on this instance goes through the proving service.
    ServiceRequired,
    /// The proving service has as many holders as can be counted.
    ServiceHoldersExhausted,
}

/// The prover that `resource` selects on a build with `build`, or why the
/// build cannot serve it.
pub open spec fn spec_proving_path(resource: ProverResourceType, build: GpuSupport) -> Result<
    ProvingPath,
    ConfigError,
> {
    match resource {
        ProverResourceType::Cpu => if build == GpuSupport::NoGpu {
            Ok(ProvingPath::Local)
        } else {
            Err(ConfigError::CpuOnGpuBuild)
        },
        ProverResourceType::Gpu => match build {
            GpuSupport::NoGpu => Err(ConfigError::GpuWithoutSupport),
            GpuSupport::CudaAndMetal => Err(ConfigError::ConflictingGpuSupport),
            GpuSupport::Cuda => Ok(ProvingPath::Bento),
            GpuSupport::Metal => Ok(ProvingPath::Local),
        },
        ProverResourceType::Network(_) => Err(ConfigError::NetworkUnsupported),
    }
}

/// Chooses the prover for `resource` on a build with `build`.
pub fn select_proving_path(resource: &ProverResourceType, build: GpuSupport) -> (r: Result<
    ProvingPath,
    ConfigError,
>)
    ensures
        r == spec_proving_path(*resource, build),
{
    match resource {
        ProverResourceType::Cpu => match build {
            GpuSupport::NoGpu => Ok(ProvingPath::Local),
            _ => Err(ConfigError::CpuOnGpuBuild),
        },
        ProverResourceType::Gpu => match build {
            GpuSupport::NoGpu => Err(ConfigError::GpuWithoutSupport),
            GpuSupport::CudaAndMetal => Err(ConfigError::ConflictingGpuSupport),
            GpuSupport::Cuda => Ok(ProvingPath::Bento),
            GpuSupport::Metal => Ok(ProvingPath::Local),
        },
        ProverResourceType::Network(_) => Err(ConfigError::NetworkUnsupported),
    }
}

/// The RISC Zero backend bound to one program and one resource type.
#[derive(Debug)]
pub struct EreRisc0 {
    program: Risc0Program,
    resource_type: ProverResourceType,
    path: ProvingPath,
}

impl EreRisc0 {
    pub closed spec fn spec_program(&self) -> Risc0Program {
        self.program
    }

    pub closed spec fn spec_resource_type(&self) -> ProverResourceType {
        self.resource_type
    }

    pub closed spec fn spec_path(&self) -> ProvingPath {
        self.path
    }

    /// Binds `program` to `resource` on a build with `build`. A resource
    /// type that the build cannot serve fails here, before any run.
    pub(crate) fn bind(
        program: Risc0Program,
        resource_type: ProverResourceType,
        build: GpuSupport,
    ) -> (r: Result<EreRisc0, Risc0Error>)
        ensures
            spec_proving_path(resource_type, build) matches Err(e) ==> (r matches Err(
                Risc0Error::Config(c),
            ) && c == e),
            spec_proving_path(resource_type, build) matches Ok(p) ==> (r matches Ok(z)
                && z.spec_path() == p && z.spec_program() == program && z.spec_resource_type()
                == resource_type),
    {
        match select_proving_path(&resource_type, build) {
            Err(e) => Err(Risc0Error::Config(e)),
            Ok(path) => Ok(EreRisc0 { program, resource_type, path }),
        }
    }

    /// Binds `program` to `resource` on this build, which has no GPU
    /// acceleration: CPU is served, GPU and network fail at once.
    pub fn new(program: Risc0Program, resource_type: ProverResourceType) -> (r: Result<
        EreRisc0,
        Risc0Error,
    >)
        ensures
            spec_proving_path(resource_type, BUILD_GPU_SUPPORT) matches Err(e) ==> (r matches Err(
                Risc0Error::Config(c),
            ) && c == e),
            spec_proving_path(resource_type, BUILD_GPU_SUPPORT) matches Ok(p) ==> (r matches Ok(z)
                && z.spec_path() == p && z.spec_program() == program && z.spec_resource_type()
                == resource_type),
            resource_type is Cpu <==> r is Ok,
    {
        EreRisc0::bind(program, resource_type, BUILD_GPU_SUPPORT)
    }

    /// The backend's name.
    pub fn name(&self) -> (r: &'static str)
        ensures
            r@ == "risc0"@,
    {
        "risc0"
    }

    /// The version of the RISC Zero SDK this library is built with.
    pub fn sdk_version(&self) -> (r: &'static str) {
        risc0_sdk_version()
    }

    pub fn program(&self) -> (r: &Risc0Program)
        ensures
            *r == self.spec_program(),
    {
        &self.program
    }

    pub fn proving_path(&self) -> (r: ProvingPath)
        ensures
            r == self.spec_path(),
    {
        self.path
    }

    /// Whether this instance relies on the local proving service, which must
    /// run from its construction to its teardown.
    pub fn needs_service(&self) -> (r: bool)
        ensures
            r == (self.spec_path() == ProvingPath::Bento),
    {
        match self.path {
            ProvingPath::Bento => true,
            ProvingPath::Local => false,
        }
    }

    /// Checks proof bytes against this instance's program. Bytes without a
    /// flat receipt's tag, or that do not decode as a receipt, fail with
    /// `DecodeProof`, never a panic; other bytes succeed exactly when the
    /// receipt verifies against the program's image, and fail with `Verify`
    /// otherwise.
    pub fn verify(&self, proof_bytes: &[u8]) -> (r: Result<(), Risc0Error>)
        ensures
            !(flat_receipt_tag(proof_bytes@) && receipt_decodes(proof_bytes@)) ==> r matches Err(
                Risc0Error::DecodeProof(_),
            ),
            (flat_receipt_tag(proof_bytes@) && receipt_decodes(proof_bytes@)) ==> (r is Ok
                <==> receipt_verifies(proof_bytes@, self.spec_program().image_id)),
            (flat_receipt_tag(proof_bytes@) && receipt_decodes(proof_bytes@)) ==> (r is Ok
                || r matches Err(Risc0Error::Verify(_))),
    {
        if !has_flat_receipt_tag(proof_bytes) {
            return Err(
                Risc0Error::DecodeProof(String::from_str("not a succinct or Groth16 receipt")),
            );
        }
        match decode_receipt(proof_bytes) {
            Err(m) => Err(Risc0Error::DecodeProof(m)),
            Ok(_) => match check_receipt(proof_bytes, self.program.image_id) {
                Ok(()) => Ok(()),
                Err(m) => Err(Risc0Error::Verify(m)),
            },
        }
    }

    /// The report of an execution: the executor's cycle count, or its
    /// failure as an error.
    pub fn execute_result(outcome: Result<u64, String>, elapsed_nanos: u64) -> (r: Result<
        ProgramExecutionReport,
        Risc0Error,
    >)
        ensures
            outcome matches Ok(c) ==> (r matches Ok(rep) && rep.total_num_cycles == Some(c)
                && rep.execution_duration_nanos == elapsed_nanos && rep.regions().len() == 0),
            outcome matches Err(m) ==> (r matches Err(Risc0Error::Execute(e)) && e@ == m@),
    {
        match outcome {
            Ok(c) => Ok(ProgramExecutionReport::with_duration(Some(c), elapsed_nanos)),
            Err(m) => Err(Risc0Error::Execute(m)),
        }
    }

    /// The encoded receipt and report of a proving run, or its failure.
    pub fn prove_result(outcome: Result<Vec<u8>, String>, elapsed_nanos: u64) -> (r: Result<
        (Vec<u8>, ProgramProvingReport),
        Risc0Error,
    >)
        ensures
            outcome matches Ok(b) ==> (r matches Ok((p, rep)) && p@ == b@
                && rep.proving_time_nanos == elapsed_nanos),
            outcome matches Err(m) ==> (r matches Err(Risc0Error::Prove(e)) && e@ == m@),
    {
        match outcome {
            Ok(b) => Ok((b, ProgramProvingReport::new(elapsed_nanos))),
            Err(m) => Err(Risc0Error::Prove(m)),
        }
    }
}

/// A length-prefixed frame: the length as four little-endian bytes (its low
/// 32 bits), then the bytes.
pub fn frame_bytes(b: &Vec<u8>) -> (r: Vec<u8>)
    ensures
        r@ == le_bytes(b@.len(), 4) + b@,
{
    let mut out = le_encode(b.len() as u64, 4);
    let mut i: usize = 0;
    while i < b.len()
        invariant
            i <= b@.len(),
            out@ == le_bytes(b@.len(), 4) + b@.subrange(0, i as int),
        decreases b@.len() - i,
    {
        out.push(b[i]);
        assert(b@.subrange(0, i as int + 1) =~= b@.subrange(0, i as int).push(b@[i as int]));
        i = i + 1;
    }
    assert(b@.subrange(0, b@.len() as int) =~= b@);
    out
}

/// The bytes one item contributes to the guest's input stream: an object's
/// words, or a length-prefixed frame of raw bytes.
pub open spec fn stdin_part(item: InputItem) -> Seq<u8> {
    match item {
        InputItem::Object { words, .. } => words_le(words@),
        InputItem::Bytes(b) => le_bytes(b@.len(), 4) + b@,
    }
}

/// The guest's whole input stream: each item's part, in order.
pub open spec fn spec_stdin(items: Seq<InputItem>) -> Seq<u8>
    decreases items.len(),
{
    if items.len() == 0 {
        Seq::empty()
    } else {
        spec_stdin(items.drop_last()) + stdin_part(items.last())
    }
}

/// Appending an item appends its part to the guest's input stream, so the
/// guest reads the items in the order they were written.
pub proof fn lemma_append_extends_stdin(items: Seq<InputItem>, item: InputItem)
    ensures
        spec_stdin(items.push(item)) == spec_stdin(items) + stdin_part(item),
{
    assert(items.push(item).drop_last() =~= items);
}

fn words_bytes(w: &Vec<u32>) -> (r: Vec<u8>)
    ensures
        r@ == words_le(w@),
{
    let mut out: Vec<u8> = Vec::new();
    let mut i: usize = 0;
    while i < w.len()
        invariant
            i <= w@.len(),
            out@ == words_le(w@.subrange(0, i as int)),
        decreases w@.len() - i,
    {
        let mut b = le_encode(w[i] as u64, 4);
        proof {
            let s = w@.subrange(0, i as int + 1);
            assert(s.drop_last() =~= w@.subrange(0, i as int));
            assert(s.last() == w@[i as int]);
        }
        out.append(&mut b);
        i = i + 1;
    }
    assert(w@.subrange(0, w@.len() as int) =~= w@);
    out
}

/// The input stream of a guest run: objects as their words, raw bytes as
/// length-prefixed frames, in the order of the items. The local executor,
/// the local prover and the proving service all read this stream.
pub fn guest_stdin(input: &Input) -> (r: Vec<u8>)
    ensures
        r@ == spec_stdin(input@),
{
    let mut out: Vec<u8> = Vec::new();
    let n = input.len();
    let mut i: usize = 0;
    while i < n
        invariant
            n == input@.len(),
            i <= n,
            out@ == spec_stdin(input@.subrange(0, i as int)),
        decreases n - i,
    {
        let mut part = match input.get(i) {
            InputItem::Object { words, .. } => words_bytes(words),
            InputItem::Bytes(b) => frame_bytes(b),
        };
        proof {
            let s = input@.subrange(0, i as int + 1);
            assert(s.drop_last() =~= input@.subrange(0, i as int));
            assert(s.last() == input@[i as int]);
        }
        out.append(&mut part);
        i = i + 1;
    }
    assert(input@.subrange(0, n as int) =~= input@);
    out
}

/// The zkVM server binary that runs and proves guests, found on `PATH`.
pub const R0VM: &'static str = "r0vm";

/// Relies on risc0_zkvm's `ExecutorEnv` (the stream as the guest's stdin)
/// and `ExternalProver::execute`, which runs the guest in an `r0vm`
/// subprocess; the result is the run's total cycle count, or the failure's
/// message.
#[verifier::external_body]
fn run_executor(stdin: &Vec<u8>, elf: &Vec<u8>) -> (r: Result<u64, String>) {
    let env = risc0_zkvm::ExecutorEnv::builder()
        .write_slice(stdin.as_slice())
        .build()
        .map_err(|e| e.to_string())?;
    let executor = risc0_zkvm::ExternalProver::new("ipc", R0VM);
    let info = risc0_zkvm::Executor::execute(&executor, env, elf).map_err(|e| e.to_string())?;
    Ok(info.cycles())
}

/// Relies on risc0_zkvm's `ExecutorEnv` and `ExternalProver::prove_with_opts`,
/// which proves the guest's run in an `r0vm` subprocess with succinct
/// options; the result is the receipt, or the failure's message.
#[verifier::external_body]
fn run_prover(stdin: &Vec<u8>, elf: &Vec<u8>) -> (r: Result<risc0_zkvm::Receipt, String>) {
    let env = risc0_zkvm::ExecutorEnv::builder()
        .write_slice(stdin.as_slice())
        .build()
        .map_err(|e| e.to_string())?;
    let prover = risc0_zkvm::ExternalProver::new("ipc", R0VM);
    let opts = risc0_zkvm::ProverOpts::succinct();
    let info = risc0_zkvm::Prover::prove_with_opts(&prover, env, elf, &opts)
        .map_err(|e| e.to_string())?;
    Ok(info.receipt)
}

/// Relies on bincode::serialize for risc0_zkvm's `Receipt`: what it writes,
/// bincode::deserialize reads back as a receipt.
#[verifier::external_body]
fn encode_receipt(receipt: &risc0_zkvm::Receipt) -> (r: Result<Vec<u8>, String>)
    ensures
        r matches Ok(b) ==> receipt_decodes(b@),
{
    bincode::serialize(receipt).map_err(|e| e.to_string())
}

impl EreRisc0 {
    /// Runs the program on `input` without proving. An executor failure,
    /// such as a guest that reads input it was not given, is reported as
    /// `Execute`, never a panic.
    pub fn execute(&self, input: &Input) -> (r: Result<ProgramExecutionReport, Risc0Error>)
        ensures
            r is Err ==> r matches Err(Risc0Error::Execute(_)),
            r matches Ok(rep) ==> rep.regions().len() == 0 && rep.total_num_cycles is Some,
    {
        let stdin = guest_stdin(input);
        let start = now();
        let outcome = run_executor(&stdin, &self.program.elf);
        let elapsed = nanos_since(&start);
        EreRisc0::execute_result(outcome, elapsed)
    }

    /// Proves the program on `input` with succinct options, and encodes the
    /// receipt. The bytes handed out always carry a flat receipt's tag and
    /// decode as a receipt, so `verify` never rejects them as undecodable:
    /// it accepts them exactly when the receipt verifies.
    ///
    /// An instance bound to the proving service proves through the service's
    /// job queue, which the caller drives (see `bento`); here it fails with
    /// `ServiceRequired`.
    pub fn prove(&self, input: &Input) -> (r: Result<(Vec<u8>, ProgramProvingReport), Risc0Error>)
        ensures
            self.spec_path() == ProvingPath::Bento ==> r matches Err(Risc0Error::ServiceRequired),
            r matches Ok((b, _)) ==> flat_receipt_tag(b@) && receipt_decodes(b@),
            (self.spec_path() == ProvingPath::Local && r is Err) ==> r matches Err(
                Risc0Error::Prove(_),
            ),
    {
        if self.needs_service() {
            return Err(Risc0Error::ServiceRequired);
        }
        let stdin = guest_stdin(input);
        let start = now();
        let outcome = run_prover(&stdin, &self.program.elf);
        let elapsed = nanos_since(&start);
        let encoded = match outcome {
            Ok(receipt) => match encode_receipt(&receipt) {
                Ok(b) => if has_flat_receipt_tag(b.as_slice()) {
                    Ok(b)
                } else {
                    Err(String::from_str("the prover returned neither a succinct nor a Groth16 receipt"))
                },
                Err(m) => Err(m),
            },
            Err(m) => Err(m),
        };
        EreRisc0::prove_result(encoded, elapsed)
    }
}

} // verus!
