use ere::nexus::{CompileError, EreNexus, NexusError, NEXUS_TARGET};
use ere::airbender::{
    AirbenderError, EreAirbender, ExecuteError, ProveError, RV32_IM_SUCCINCT_ZKVM_ELF,
};
use ere::input::{Input, InputItem};
use ere::manifest::{guest_package_name, manifest_path, GuestDir, ManifestError};
use ere::process::{str_eq, ArtifactRead, ProcessStatus};

fn exited(code: i32, stderr: &str) -> ProcessStatus {
    ProcessStatus::Exited { code: Some(code), stdout: String::new(), stderr: stderr.to_string() }
}

#[test]
fn input_keeps_order_and_encodes_little_endian() {
    let mut input = Input::new();
    input.write_u32(42);
    input.write_u16(42);
    input.write_bytes(vec![1, 2, 3]);
    input.write_u64(0x0102030405060708);
    assert_eq!(input.len(), 4);
    assert!(matches!(input.get(2), InputItem::Bytes(b) if b == &vec![1, 2, 3]));
    assert_eq!(input.get(0).as_bytes(), vec![42, 0, 0, 0]);
    assert_eq!(input.get(3).as_bytes(), vec![8, 7, 6, 5, 4, 3, 2, 1]);
    assert_eq!(
        input.concatenated_bytes(),
        vec![42, 0, 0, 0, 42, 0, 1, 2, 3, 8, 7, 6, 5, 4, 3, 2, 1]
    );
}

#[test]
fn six_byte_guest_input() {
    // The guest reads n (u32) and a (u16) as six little-endian bytes and
    // outputs (n + a) * 2.
    let mut input = Input::new();
    input.write_u32(42);
    input.write_u16(42);
    let bytes = ere::zisk::EreZisk::emulator_input(&input);
    assert_eq!(bytes.len(), 6);
    let n = u32::from_le_bytes([bytes[0], bytes[1], bytes[2], bytes[3]]);
    let a = u16::from_le_bytes([bytes[4], bytes[5]]) as u32;
    assert_eq!((n + a) * 2, 168);
}

#[test]
fn airbender_input_file_is_hex_lines() {
    let mut input = Input::new();
    input.write_bytes(vec![0xde, 0xad, 0x01]);
    input.write_u16(0xabcd);
    input.write_bytes(vec![]);
    assert_eq!(EreAirbender::input_file_contents(&input), "dead01\ncdab\n");
    assert_eq!(EreAirbender::input_file_contents(&Input::new()), "");
    let mut one = Input::new();
    one.write_bytes(vec![0x0f]);
    assert_eq!(EreAirbender::input_file_contents(&one), "0f");
}

#[test]
fn airbender_cli_invocations() {
    let e = EreAirbender::execute_invocation("/t/program.elf", "/t/input.txt");
    assert_eq!(e.program, "airbender-cli");
    assert_eq!(e.args, vec!["execute", "--bin", "/t/program.elf", "--input-file", "/t/input.txt"]);
    let p = EreAirbender::prove_invocation("/a.elf", "/i.txt", "/out");
    assert_eq!(
        p.args,
        vec![
            "prove", "--bin", "/a.elf", "--input-file", "/i.txt", "--until", "final-recursion",
            "--tmp-dir", "/tmp"
        ]
    );
    assert_eq!(p.cwd.as_deref(), Some("/out"));
    assert_eq!(EreAirbender::proof_path("/out"), "/out/output/metadata.json");
    let v = EreAirbender::verify_invocation("/d/metadata.json");
    assert_eq!(v.args, vec!["verify-all", "--metadata", "/d/metadata.json"]);
    let z = EreAirbender::new(vec![1, 2, 3]);
    assert_eq!(z.program(), &vec![1, 2, 3]);
}

#[test]
fn airbender_results_carry_stderr() {
    let printed = ProcessStatus::Exited {
        code: Some(0),
        stdout: "executed\ncycles = 1234\n".to_string(),
        stderr: String::new(),
    };
    let ok = EreAirbender::execute_result(&printed, 77).unwrap();
    assert_eq!(ok.total_num_cycles, Some(1234));
    assert!(matches!(
        EreAirbender::execute_result(&exited(0, ""), 0),
        Err(AirbenderError::Execute(ExecuteError::CyclesNotFound))
    ));
    assert_eq!(ok.execution_duration_nanos, 77);
    assert!(ok.region_cycles.is_empty());
    let bad = EreAirbender::execute_result(&exited(1, "boom"), 0);
    assert!(matches!(bad, Err(AirbenderError::Execute(ExecuteError::CliFailed(ref s))) if s == "boom"));
    let signal = ProcessStatus::Exited { code: None, stdout: String::new(), stderr: String::new() };
    assert!(EreAirbender::verify_result(&signal).is_err());
    let spawn = ProcessStatus::SpawnFailed("not found".to_string());
    assert!(matches!(
        EreAirbender::execute_result(&spawn, 0),
        Err(AirbenderError::Execute(ExecuteError::CliCommand(_)))
    ));
    assert!(EreAirbender::verify_result(&exited(0, "")).is_ok());
}

#[test]
fn airbender_prove_collects_proof() {
    let zkvm = EreAirbender::new(vec![7, 7, 7]);
    let s = exited(0, "");
    let (p, rep) =
        zkvm.prove_result(&s, "/o/m.json", ArtifactRead::Bytes(vec![5, 6]), 9).unwrap();
    assert_eq!(p, vec![3, 0, 0, 0, 0, 0, 0, 0, 7, 7, 7, 5, 6]);
    assert_eq!(rep.proving_time_nanos, 9);
    assert_eq!(zkvm.open_proof(&p).unwrap(), vec![5, 6]);
    assert!(matches!(
        zkvm.prove_result(&s, "/o/m.json", ArtifactRead::Missing, 0),
        Err(AirbenderError::Prove(ProveError::ProofMissing(ref path))) if path == "/o/m.json"
    ));
    assert!(matches!(
        zkvm.prove_result(&exited(2, "bad"), "/o/m.json", ArtifactRead::Bytes(vec![1]), 0),
        Err(AirbenderError::Prove(ProveError::CliFailed(_)))
    ));
}

#[test]
fn airbender_proofs_are_bound_to_their_program() {
    let mine = EreAirbender::new(vec![1, 2]);
    let other = EreAirbender::new(vec![1, 3]);
    let (p, _) = mine
        .prove_result(&exited(0, ""), "/m", ArtifactRead::Bytes(b"{}".to_vec()), 0)
        .unwrap();
    assert!(matches!(
        other.open_proof(&p),
        Err(AirbenderError::Verify(ere::airbender::VerifyError::Decode))
    ));
    assert!(matches!(
        mine.open_proof(&[1, 2, 3]),
        Err(AirbenderError::Verify(ere::airbender::VerifyError::Decode))
    ));
    assert_eq!(mine.open_proof(&p).unwrap(), b"{}".to_vec());
}

#[test]
fn airbender_compile_steps() {
    let b = RV32_IM_SUCCINCT_ZKVM_ELF::build_invocation("/g");
    assert_eq!(b.program, "cargo");
    assert_eq!(b.args, vec!["+nightly", "build", "--release", "--target", "riscv32i-unknown-none-elf"]);
    assert_eq!(b.cwd.as_deref(), Some("/g"));
    assert_eq!(
        RV32_IM_SUCCINCT_ZKVM_ELF::elf_path("/g", "guest"),
        "/g/target/riscv32i-unknown-none-elf/release/guest"
    );
    assert!(RV32_IM_SUCCINCT_ZKVM_ELF::build_result("/g", &exited(0, "")).is_ok());
    assert!(matches!(
        RV32_IM_SUCCINCT_ZKVM_ELF::build_result("/g", &exited(101, "")),
        Err(ere::airbender::CompileError::CargoBuildFailed { status: Some(101), .. })
    ));
    assert!(matches!(
        RV32_IM_SUCCINCT_ZKVM_ELF::collect_elf("/g/x", ArtifactRead::Missing),
        Err(ere::airbender::CompileError::ElfNotFound(_))
    ));
    assert_eq!(
        RV32_IM_SUCCINCT_ZKVM_ELF::collect_elf("/g/x", ArtifactRead::Bytes(vec![1])).unwrap(),
        vec![1]
    );
}

#[test]
fn missing_manifest_is_its_own_error() {
    let r = guest_package_name("/g", &GuestDir::ManifestMissing);
    match r {
        Err(ManifestError::CargoTomlMissing { program_dir, manifest_path }) => {
            assert_eq!(program_dir, "/g");
            assert_eq!(manifest_path, "/g/Cargo.toml");
        }
        other => panic!("unexpected {other:?}"),
    }
    assert!(matches!(
        guest_package_name("/nope", &GuestDir::NotADirectory),
        Err(ManifestError::InvalidProgramPath(_))
    ));
    assert_eq!(manifest_path("/g"), "/g/Cargo.toml");
}

#[test]
fn manifest_without_package_name() {
    let text = "[package]\nversion = \"0.1.0\"\n".to_string();
    assert!(matches!(
        guest_package_name("/g", &GuestDir::Manifest(text)),
        Err(ManifestError::MissingPackageName { .. })
    ));
    let text = "[dependencies]\nfoo = \"1\"\n".to_string();
    assert!(matches!(
        guest_package_name("/g", &GuestDir::Manifest(text)),
        Err(ManifestError::MissingPackageName { .. })
    ));
    let text = "[package]\nname = 3\n".to_string();
    assert!(matches!(
        guest_package_name("/g", &GuestDir::Manifest(text)),
        Err(ManifestError::MissingPackageName { .. })
    ));
}

#[test]
fn manifest_parse_and_read_errors() {
    let text = "[package\nname = \"x\"".to_string();
    assert!(matches!(
        guest_package_name("/g", &GuestDir::Manifest(text)),
        Err(ManifestError::ParseCargoToml { .. })
    ));
    assert!(matches!(
        guest_package_name("/g", &GuestDir::ManifestUnreadable("denied".to_string())),
        Err(ManifestError::ReadFile { ref message, .. }) if message == "denied"
    ));
    let text = "[package]\nname = \"guest-prog\"\nversion = \"0.1.0\"\n".to_string();
    assert_eq!(guest_package_name("/g", &GuestDir::Manifest(text)).unwrap(), "guest-prog");
}

#[test]
fn nexus_package_name_and_input() {
    let text = "[package]\nname = \"nx\"\n".to_string();
    assert_eq!(NEXUS_TARGET::package_name("/g", &GuestDir::Manifest(text)).unwrap(), "nx");
    assert!(matches!(
        NEXUS_TARGET::package_name("/g", &GuestDir::ManifestMissing),
        Err(NexusError::Compile(CompileError::Manifest(_)))
    ));
    let mut input = Input::new();
    input.write_u64(10);
    assert_eq!(EreNexus::private_input(&input), vec![10, 0, 0, 0, 0, 0, 0, 0]);
    let z = EreNexus::new("/g/elf".to_string(), ere::resource::ProverResourceType::Cpu).unwrap();
    assert_eq!(z.program(), "/g/elf");
    let rep = EreNexus::execute_report(5);
    assert_eq!(rep.execution_duration_nanos, 5);
    assert_eq!(rep.total_num_cycles, None);
    assert!(matches!(
        EreNexus::new("/g/elf".to_string(), ere::resource::ProverResourceType::Gpu),
        Err(NexusError::Config(ere::risc0::ConfigError::GpuWithoutSupport))
    ));
    let text = "[package]\nversion = \"1\"\n".to_string();
    assert!(matches!(
        NEXUS_TARGET::package_name("/g", &GuestDir::Manifest(text)),
        Err(NexusError::Compile(CompileError::Manifest(ManifestError::MissingPackageName { .. })))
    ));
    assert!(matches!(
        NEXUS_TARGET::package_name("/g", &GuestDir::ManifestMissing),
        Err(NexusError::Compile(CompileError::Manifest(ManifestError::CargoTomlMissing { .. })))
    ));
}

#[test]
fn string_equality() {
    assert!(str_eq("RUNNING", "RUNNING"));
    assert!(!str_eq("RUNNING", "RUNNIN"));
    assert!(!str_eq("abc", "abd"));
    assert!(str_eq("", ""));
}
