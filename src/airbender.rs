//! The adapter for the Airbender toolchain: a `cargo` build of the guest, and
//! an `airbender-cli` process for execution, proving and verification.

use vstd::prelude::*;
use vstd::string::*;
use crate::input::{le_bytes, le_encode, Input, InputItem};
use crate::stats::{read_stat, spec_stat};
use crate::manifest::ManifestError;
use crate::process::{
    join_path, path_join, push_arg, views, ArtifactRead, Invocation, ProcessStatus,
};
use crate::report::{ProgramExecutionReport, ProgramProvingReport};

verus! {

/// Lower-case hexadecimal digit of a value below 16.
pub open spec fn hex_digit(v: u8) -> char {
    seq!['0', '1', '2', '3', '4', '5', '6', '7', '8', '9', 'a', 'b', 'c', 'd', 'e', 'f'][v as int]
}

/// Two lower-case hex digits per byte, high nibble first.
pub open spec fn hex_lower(b: Seq<u8>) -> Seq<char>
    decreases b.len(),
{
    if b.len() == 0 {
        Seq::empty()
    } else {
        hex_lower(b.drop_last()) + seq![hex_digit(b.last() / 16), hex_digit(b.last() % 16)]
    }
}

/// The lines joined with `\n` between them (no trailing newline).
pub open spec fn join_lines(lines: Seq<Seq<char>>) -> Seq<char>
    decreases lines.len(),
{
    if lines.len() == 0 {
        Seq::empty()
    } else if lines.len() == 1 {
        lines[0]
    } else {
        join_lines(lines.drop_last()) + seq!['\n'] + lines.last()
    }
}

/// The input file that `airbender-cli` reads: one hex line per item.
pub open spec fn hex_input_file(items: Seq<InputItem>) -> Seq<char> {
    join_lines(items.map_values(|i: InputItem| hex_lower(i.payload())))
}

/// Relies on hex::encode: two lower-case digits per byte, high nibble first.
#[verifier::external_body]
fn encode_hex(b: &Vec<u8>) -> (r: String)
    ensures
        r@ == hex_lower(b@),
{
    hex::encode(b)
}

/// The marker after which `airbender-cli execute` prints the run's cycle
/// count on stdout.
pub const CYCLES_MARKER: &'static str = "cycles = ";

/// The program's identity at the head of a proof: its length in eight
/// little-endian bytes, then its bytes.
pub open spec fn program_prefix(elf: Seq<u8>) -> Seq<u8> {
    le_bytes(elf.len(), 8) + elf
}

/// The proof bytes of an Airbender run: the program's identity, then the
/// proof metadata that the CLI wrote.
pub open spec fn proof_envelope(elf: Seq<u8>, metadata: Seq<u8>) -> Seq<u8> {
    program_prefix(elf) + metadata
}

/// Proof bytes made for a program open, for that program, to the metadata
/// they enclose.
pub proof fn lemma_envelope_opens(elf: Seq<u8>, metadata: Seq<u8>)
    ensures
        proof_envelope(elf, metadata).len() >= program_prefix(elf).len(),
        proof_envelope(elf, metadata).subrange(0, program_prefix(elf).len() as int)
            == program_prefix(elf),
        proof_envelope(elf, metadata).subrange(
            program_prefix(elf).len() as int,
            proof_envelope(elf, metadata).len() as int,
        ) == metadata,
{
    let p = program_prefix(elf);
    let e = proof_envelope(elf, metadata);
    assert(e.subrange(0, p.len() as int) =~= p);
    assert(e.subrange(p.len() as int, e.len() as int) =~= metadata);
}

/// The guest's target triple.
pub const TARGET_TRIPLE: &'static str = "riscv32i-unknown-none-elf";

/// The compiler for Airbender guests: `cargo +nightly build --release` for
/// the bare RISC-V 32 target.
#[allow(non_camel_case_types)]
#[derive(Debug)]
pub struct RV32_IM_SUCCINCT_ZKVM_ELF;

/// Why compiling an Airbender guest failed.
#[derive(Debug)]
pub enum CompileError {
    /// The guest directory or its manifest is unusable.
    Manifest(ManifestError),
    /// The compiled ELF is not at its expected path.
    ElfNotFound(String),
    /// The build ran and exited unsuccessfully; its exit code, if any.
    CargoBuildFailed { status: Option<i32>, path: String },
    /// Reading the compiled ELF failed.
    ReadFile { path: String, message: String },
    /// The build process could not be started.
    CargoProveBuild { cwd: String, message: String },
}

/// Why executing an Airbender guest failed.
#[derive(Debug)]
pub enum ExecuteError {
    /// Staging the program or input failed.
    Io(String),
    /// `airbender-cli` could not be started.
    CliCommand(String),
    /// `airbender-cli` failed; what it wrote to stderr.
    CliFailed(String),
    /// `airbender-cli` succeeded and printed no cycle count.
    CyclesNotFound,
}

/// Why proving an Airbender guest failed.
#[derive(Debug)]
pub enum ProveError {
    Io(String),
    CliCommand(String),
    CliFailed(String),
    /// The CLI reported success but wrote no proof at the path.
    ProofMissing(String),
    /// The proof at the path could not be read.
    ReadProof(String, String),
}

/// Why verifying an Airbender proof failed.
#[derive(Debug)]
pub enum VerifyError {
    /// The bytes are not a proof of this instance's program: shorter than
    /// the envelope, or enveloping another program.
    Decode,
    Io(String),
    CliCommand(String),
    CliFailed(String),
}

/// Any failure of the Airbender adapter, by phase.
#[derive(Debug)]
pub enum AirbenderError {
    CompileError(CompileError),
    Execute(ExecuteError),
    Prove(ProveError),
    Verify(VerifyError),
}

/// `dir/target/<triple>/release/name`.
pub open spec fn spec_elf_path(dir: Seq<char>, name: Seq<char>) -> Seq<char> {
    path_join(path_join(path_join(path_join(dir, "target"@), TARGET_TRIPLE@), "release"@), name)
}

impl RV32_IM_SUCCINCT_ZKVM_ELF {
    /// The build command, run in the guest directory.
    pub fn build_invocation(dir: &str) -> (r: Invocation)
        ensures
            r.program@ == "cargo"@,
            views(r.args@) == seq![
                "+nightly"@,
                "build"@,
                "--release"@,
                "--target"@,
                TARGET_TRIPLE@,
            ],
            r.cwd matches Some(c) && c@ == dir@,
    {
        let mut args: Vec<String> = Vec::new();
        push_arg(&mut args, "+nightly");
        push_arg(&mut args, "build");
        push_arg(&mut args, "--release");
        push_arg(&mut args, "--target");
        push_arg(&mut args, TARGET_TRIPLE);
        assert(views(args@) =~= seq![
            "+nightly"@,
            "build"@,
            "--release"@,
            "--target"@,
            TARGET_TRIPLE@,
        ]);
        Invocation { program: String::from_str("cargo"), args, cwd: Some(String::from_str(dir)) }
    }

    /// Reads the build's outcome: a build that could not start or that did
    /// not exit with code zero is fatal, and never retried.
    pub fn build_result(dir: &str, status: &ProcessStatus) -> (r: Result<(), CompileError>)
        ensures
            status.spec_succeeded() <==> r is Ok,
            status matches ProcessStatus::SpawnFailed(m) ==> (r matches Err(
                CompileError::CargoProveBuild { cwd, message },
            ) && cwd@ == dir@ && message@ == m@),
            status matches ProcessStatus::Exited { code, .. } ==> (!status.spec_succeeded() ==> (
            r matches Err(CompileError::CargoBuildFailed { status: s, path }) && s == code
                && path@ == dir@)),
    {
        match status {
            ProcessStatus::SpawnFailed(m) => Err(
                CompileError::CargoProveBuild { cwd: String::from_str(dir), message: m.clone() },
            ),
            ProcessStatus::Exited { code, .. } => {
                if status.succeeded() {
                    Ok(())
                } else {
                    Err(CompileError::CargoBuildFailed { status: *code, path: String::from_str(dir) })
                }
            },
        }
    }

    /// Where the build leaves the ELF of package `name`.
    pub fn elf_path(dir: &str, name: &str) -> (r: String)
        ensures
            r@ == spec_elf_path(dir@, name@),
    {
        let a = join_path(dir, "target");
        let b = join_path(a.as_str(), TARGET_TRIPLE);
        let c = join_path(b.as_str(), "release");
        join_path(c.as_str(), name)
    }

    /// The compiled program from what was found at the ELF path: a missing
    /// artifact and an unreadable one are distinct errors.
    pub fn collect_elf(path: &str, read: ArtifactRead) -> (r: Result<Vec<u8>, CompileError>)
        ensures
            read is Missing ==> (r matches Err(CompileError::ElfNotFound(p)) && p@ == path@),
            read matches ArtifactRead::Failed(m) ==> (r matches Err(
                CompileError::ReadFile { path: p, message },
            ) && p@ == path@ && message@ == m@),
            read matches ArtifactRead::Bytes(b) ==> (r matches Ok(v) && v@ == b@),
    {
        match read {
            ArtifactRead::Missing => Err(CompileError::ElfNotFound(String::from_str(path))),
            ArtifactRead::Failed(m) => Err(
                CompileError::ReadFile { path: String::from_str(path), message: m },
            ),
            ArtifactRead::Bytes(b) => Ok(b),
        }
    }
}

/// The Airbender backend bound to one compiled ELF.
#[derive(Debug)]
pub struct EreAirbender {
    program: Vec<u8>,
}

/// The argument list of a CLI run on a staged ELF and input file.
pub open spec fn cli_run_args(verb: Seq<char>, elf: Seq<char>, input: Seq<char>) -> Seq<Seq<char>> {
    seq![verb, "--bin"@, elf, "--input-file"@, input]
}

impl EreAirbender {
    /// The compiled ELF this instance runs.
    pub closed spec fn spec_program(&self) -> Seq<u8> {
        self.program@
    }

    pub fn new(program: Vec<u8>) -> (r: EreAirbender)
        ensures
            r.spec_program() == program@,
    {
        EreAirbender { program }
    }

    /// The ELF bytes to stage before each run.
    pub fn program(&self) -> (r: &Vec<u8>)
        ensures
            r@ == self.spec_program(),
    {
        &self.program
    }

    /// The text of the input file: each item's bytes as lower-case hex, one
    /// line per item, in order.
    pub fn input_file_contents(input: &Input) -> (r: String)
        ensures
            r@ == hex_input_file(input@),
    {
        let mut out = String::new();
        let n = input.len();
        let mut i: usize = 0;
        while i < n
            invariant
                n == input@.len(),
                i <= n,
                out@ == join_lines(
                    input@.subrange(0, i as int).map_values(|it: InputItem| hex_lower(it.payload())),
                ),
            decreases n - i,
        {
            let bytes = input.get(i).as_bytes();
            let line = encode_hex(&bytes);
            let ghost prev = input@.subrange(0, i as int).map_values(
                |it: InputItem| hex_lower(it.payload()),
            );
            let ghost next = input@.subrange(0, i as int + 1).map_values(
                |it: InputItem| hex_lower(it.payload()),
            );
            proof {
                assert(next.drop_last() =~= prev);
                assert(next.last() == hex_lower(input@[i as int].payload()));
            }
            let ghost before = out@;
            if i > 0 {
                out.append("\n");
                proof {
                    reveal_strlit("\n");
                }
                assert("\n"@ =~= seq!['\n']);
            }
            out.append(line.as_str());
            proof {
                if i == 0 {
                    assert(prev.len() == 0);
                    assert(out@ =~= next[0]);
                } else {
                    assert(before == join_lines(prev));
                    assert(out@ =~= join_lines(prev) + seq!['\n'] + next.last());
                }
            }
            i = i + 1;
        }
        assert(input@.subrange(0, n as int) =~= input@);
        out
    }

    /// `airbender-cli execute --bin <elf> --input-file <input>`.
    pub fn execute_invocation(elf_path: &str, input_path: &str) -> (r: Invocation)
        ensures
            r.program@ == "airbender-cli"@,
            views(r.args@) == cli_run_args("execute"@, elf_path@, input_path@),
            r.cwd is None,
    {
        let mut args: Vec<String> = Vec::new();
        push_arg(&mut args, "execute");
        push_arg(&mut args, "--bin");
        push_arg(&mut args, elf_path);
        push_arg(&mut args, "--input-file");
        push_arg(&mut args, input_path);
        assert(views(args@) =~= cli_run_args("execute"@, elf_path@, input_path@));
        Invocation { program: String::from_str("airbender-cli"), args, cwd: None }
    }

    /// The report of an execution run: a CLI that could not start or did not
    /// succeed is an error carrying its cause or its stderr; a successful
    /// run reports the cycle count that follows `CYCLES_MARKER` on its
    /// stdout, and a run that printed none is `CyclesNotFound`.
    pub fn execute_result(status: &ProcessStatus, elapsed_nanos: u64) -> (r: Result<
        ProgramExecutionReport,
        AirbenderError,
    >)
        ensures
            r is Ok ==> status.spec_succeeded(),
            status matches ProcessStatus::Exited { stdout, .. } ==> (status.spec_succeeded() ==> (
            match spec_stat(stdout@, CYCLES_MARKER@) {
                Some(c) => r matches Ok(rep) && rep.total_num_cycles == Some(c as u64)
                    && rep.regions().len() == 0 && rep.execution_duration_nanos == elapsed_nanos,
                None => r matches Err(AirbenderError::Execute(ExecuteError::CyclesNotFound)),
            })),
            status matches ProcessStatus::SpawnFailed(m) ==> (r matches Err(
                AirbenderError::Execute(ExecuteError::CliCommand(e)),
            ) && e@ == m@),
            status matches ProcessStatus::Exited { stderr, .. } ==> (!status.spec_succeeded() ==> (
            r matches Err(AirbenderError::Execute(ExecuteError::CliFailed(e))) && e@ == stderr@)),
    {
        match status {
            ProcessStatus::SpawnFailed(m) => Err(
                AirbenderError::Execute(ExecuteError::CliCommand(m.clone())),
            ),
            ProcessStatus::Exited { stdout, stderr, .. } => {
                if status.succeeded() {
                    match read_stat(stdout.as_str(), CYCLES_MARKER) {
                        Some(c) => Ok(ProgramExecutionReport::with_duration(Some(c), elapsed_nanos)),
                        None => Err(AirbenderError::Execute(ExecuteError::CyclesNotFound)),
                    }
                } else {
                    Err(AirbenderError::Execute(ExecuteError::CliFailed(stderr.clone())))
                }
            },
        }
    }

    /// `airbender-cli prove ... --until final-recursion --tmp-dir /tmp`, run
    /// in a fresh output directory.
    pub fn prove_invocation(elf_path: &str, input_path: &str, output_dir: &str) -> (r: Invocation)
        ensures
            r.program@ == "airbender-cli"@,
            views(r.args@) == cli_run_args("prove"@, elf_path@, input_path@) + seq![
                "--until"@,
                "final-recursion"@,
                "--tmp-dir"@,
                "/tmp"@,
            ],
            r.cwd matches Some(c) && c@ == output_dir@,
    {
        let mut args: Vec<String> = Vec::new();
        push_arg(&mut args, "prove");
        push_arg(&mut args, "--bin");
        push_arg(&mut args, elf_path);
        push_arg(&mut args, "--input-file");
        push_arg(&mut args, input_path);
        push_arg(&mut args, "--until");
        push_arg(&mut args, "final-recursion");
        push_arg(&mut args, "--tmp-dir");
        push_arg(&mut args, "/tmp");
        assert(views(args@) =~= cli_run_args("prove"@, elf_path@, input_path@) + seq![
            "--until"@,
            "final-recursion"@,
            "--tmp-dir"@,
            "/tmp"@,
        ]);
        Invocation {
            program: String::from_str("airbender-cli"),
            args,
            cwd: Some(String::from_str(output_dir)),
        }
    }

    /// Where a proving run leaves its proof: `<output_dir>/output/metadata.json`.
    pub fn proof_path(output_dir: &str) -> (r: String)
        ensures
            r@ == path_join(path_join(output_dir@, "output"@), "metadata.json"@),
    {
        let o = join_path(output_dir, "output");
        join_path(o.as_str(), "metadata.json")
    }

    /// The proof and report of a proving run: the proof file's bytes in an
    /// envelope that names this instance's program. The proof file is read
    /// only after the CLI succeeded; a success that left no proof is its own
    /// error.
    pub fn prove_result(
        &self,
        status: &ProcessStatus,
        proof_path: &str,
        artifact: ArtifactRead,
        elapsed_nanos: u64,
    ) -> (r: Result<(Vec<u8>, ProgramProvingReport), AirbenderError>)
        ensures
            r is Ok <==> (status.spec_succeeded() && artifact is Bytes),
            r matches Ok((b, rep)) ==> (artifact matches ArtifactRead::Bytes(p) && b@
                == proof_envelope(self.spec_program(), p@) && rep.proving_time_nanos
                == elapsed_nanos),
            status matches ProcessStatus::SpawnFailed(m) ==> (r matches Err(
                AirbenderError::Prove(ProveError::CliCommand(e)),
            ) && e@ == m@),
            status matches ProcessStatus::Exited { stderr, .. } ==> (!status.spec_succeeded() ==> (
            r matches Err(AirbenderError::Prove(ProveError::CliFailed(e))) && e@ == stderr@)),
            (status.spec_succeeded() && artifact is Missing) ==> (r matches Err(
                AirbenderError::Prove(ProveError::ProofMissing(p)),
            ) && p@ == proof_path@),
            status.spec_succeeded() ==> (artifact matches ArtifactRead::Failed(m) ==> (r matches Err(
                AirbenderError::Prove(ProveError::ReadProof(p, e)),
            ) && p@ == proof_path@ && e@ == m@)),
    {
        match status {
            ProcessStatus::SpawnFailed(m) => Err(
                AirbenderError::Prove(ProveError::CliCommand(m.clone())),
            ),
            ProcessStatus::Exited { stderr, .. } => {
                if !status.succeeded() {
                    Err(AirbenderError::Prove(ProveError::CliFailed(stderr.clone())))
                } else {
                    match artifact {
                        ArtifactRead::Missing => Err(
                            AirbenderError::Prove(ProveError::ProofMissing(String::from_str(proof_path))),
                        ),
                        ArtifactRead::Failed(m) => Err(
                            AirbenderError::Prove(ProveError::ReadProof(String::from_str(proof_path), m)),
                        ),
                        ArtifactRead::Bytes(b) => {
                            let mut p = self.identity();
                            let mut m = b;
                            p.append(&mut m);
                            Ok((p, ProgramProvingReport::new(elapsed_nanos)))
                        },
                    }
                }
            },
        }
    }

    /// This instance's program identity, the head of its proofs.
    fn identity(&self) -> (r: Vec<u8>)
        ensures
            r@ == program_prefix(self.spec_program()),
    {
        let mut p = le_encode(self.program.len() as u64, 8);
        let mut e = self.program.clone();
        p.append(&mut e);
        p
    }

    /// The proof metadata inside proof bytes made for this instance's
    /// program. Bytes that are shorter than the envelope, or that envelope
    /// another program, fail with `Decode`.
    pub fn open_proof(&self, proof_bytes: &[u8]) -> (r: Result<Vec<u8>, AirbenderError>)
        ensures
            r is Ok <==> (proof_bytes@.len() >= program_prefix(self.spec_program()).len()
                && proof_bytes@.subrange(0, program_prefix(self.spec_program()).len() as int)
                == program_prefix(self.spec_program())),
            r matches Ok(m) ==> proof_bytes@ == proof_envelope(self.spec_program(), m@),
            r is Err ==> r matches Err(AirbenderError::Verify(VerifyError::Decode)),
    {
        let p = self.identity();
        let n = p.len();
        if proof_bytes.len() < n {
            return Err(AirbenderError::Verify(VerifyError::Decode));
        }
        let mut i: usize = 0;
        while i < n
            invariant
                p@ == program_prefix(self.spec_program()),
                n == p@.len(),
                n <= proof_bytes@.len(),
                i <= n,
                proof_bytes@.subrange(0, i as int) == p@.subrange(0, i as int),
            decreases n - i,
        {
            if proof_bytes[i] != p[i] {
                assert(proof_bytes@.subrange(0, n as int)[i as int] != p@[i as int]);
                assert(proof_bytes@.subrange(0, n as int) != p@);
                return Err(AirbenderError::Verify(VerifyError::Decode));
            }
            assert(proof_bytes@.subrange(0, i + 1) =~= proof_bytes@.subrange(0, i as int).push(
                proof_bytes@[i as int],
            ));
            assert(p@.subrange(0, i + 1) =~= p@.subrange(0, i as int).push(p@[i as int]));
            i = i + 1;
        }
        assert(p@.subrange(0, n as int) =~= p@);
        let mut m: Vec<u8> = Vec::new();
        let mut j: usize = n;
        while j < proof_bytes.len()
            invariant
                p@ == program_prefix(self.spec_program()),
                n == p@.len(),
                proof_bytes@.subrange(0, n as int) == p@,
                n <= j <= proof_bytes@.len(),
                m@ == proof_bytes@.subrange(n as int, j as int),
            decreases proof_bytes@.len() - j,
        {
            m.push(proof_bytes[j]);
            assert(proof_bytes@.subrange(n as int, j + 1) =~= proof_bytes@.subrange(
                n as int,
                j as int,
            ).push(proof_bytes@[j as int]));
            j = j + 1;
        }
        assert(proof_bytes@ =~= proof_bytes@.subrange(0, n as int) + proof_bytes@.subrange(
            n as int,
            proof_bytes@.len() as int,
        ));
        Ok(m)
    }

    /// Where a proof is staged for verification: `<dir>/metadata.json`.
    pub fn metadata_path(dir: &str) -> (r: String)
        ensures
            r@ == path_join(dir@, "metadata.json"@),
    {
        join_path(dir, "metadata.json")
    }

    /// `airbender-cli verify-all --metadata <path>`.
    pub fn verify_invocation(metadata_path: &str) -> (r: Invocation)
        ensures
            r.program@ == "airbender-cli"@,
            views(r.args@) == seq!["verify-all"@, "--metadata"@, metadata_path@],
            r.cwd is None,
    {
        let mut args: Vec<String> = Vec::new();
        push_arg(&mut args, "verify-all");
        push_arg(&mut args, "--metadata");
        push_arg(&mut args, metadata_path);
        assert(views(args@) =~= seq!["verify-all"@, "--metadata"@, metadata_path@]);
        Invocation { program: String::from_str("airbender-cli"), args, cwd: None }
    }

    /// The verdict of a verification run: success exactly when the CLI ran
    /// and exited with code zero; otherwise the cause, never a panic.
    pub fn verify_result(status: &ProcessStatus) -> (r: Result<(), AirbenderError>)
        ensures
            status.spec_succeeded() <==> r is Ok,
            status matches ProcessStatus::SpawnFailed(m) ==> (r matches Err(
                AirbenderError::Verify(VerifyError::CliCommand(e)),
            ) && e@ == m@),
            status matches ProcessStatus::Exited { stderr, .. } ==> (!status.spec_succeeded() ==> (
            r matches Err(AirbenderError::Verify(VerifyError::CliFailed(e))) && e@ == stderr@)),
    {
        match status {
            ProcessStatus::SpawnFailed(m) => Err(
                AirbenderError::Verify(VerifyError::CliCommand(m.clone())),
            ),
            ProcessStatus::Exited { stderr, .. } => {
                if status.succeeded() {
                    Ok(())
                } else {
                    Err(AirbenderError::Verify(VerifyError::CliFailed(stderr.clone())))
                }
            },
        }
    }
}

} // verus!
