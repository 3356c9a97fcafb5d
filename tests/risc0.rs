use ere::bento::{ComposeEnv, Construction, ServiceRegistry};
use ere::process::ProcessStatus;
use ere::risc0::{select_proving_path, ConfigError, GpuSupport};
use ere::input::Input;
use ere::resource::ProverResourceType;
use ere::risc0::{frame_bytes, guest_stdin, EreRisc0, ProvingPath, Risc0Error, Risc0Program};

// A stand-in program: bytes that no executor accepts as a guest.
fn no_env() -> ComposeEnv {
    ComposeEnv { rust_log: None, segment_size: None, keccak_po2: None }
}

fn status(code: i32) -> ProcessStatus {
    ProcessStatus::Exited { code: Some(code), stdout: String::new(), stderr: String::new() }
}

// An instance for a CUDA build, whose service start is reported successful.
fn cuda_instance(reg: &mut ServiceRegistry) -> EreRisc0 {
    match EreRisc0::new_for_build(
        test_program(),
        ProverResourceType::Gpu,
        GpuSupport::Cuda,
        reg,
        "t",
        &no_env(),
    )
    .unwrap()
    {
        Construction::Ready(z) => z,
        Construction::StartService(p) => p.finish(reg, &status(0)).unwrap(),
    }
}

fn test_program() -> Risc0Program {
    Risc0Program {
        elf: vec![0x7f, b'E', b'L', b'F', 1, 1, 1, 0],
        image_id: [1, 2, 3, 4, 5, 6, 7, 8],
    }
}

#[test]
fn test_prove_r0_fails_on_bad_input_causing_execution_failure() {
    let elf_bytes = test_program();

    let empty_input = Input::new();

    let zkvm = EreRisc0::new(elf_bytes, ProverResourceType::Cpu).unwrap();
    let prove_result = zkvm.prove(&empty_input);
    assert!(prove_result.is_err());
}

#[test]
fn test_prove_r0_dummy_input_cuda() {
    let elf_bytes = test_program();

    // This build has no GPU acceleration: asking for the GPU fails at
    // construction, before any proving attempt.
    assert!(EreRisc0::new(elf_bytes, ProverResourceType::Gpu).is_err());

    // On a CUDA build the instance proves through the proving service.
    let mut reg = ServiceRegistry::new();
    let zkvm = cuda_instance(&mut reg);
    let empty_input = Input::new();
    let prove_result = zkvm.prove(&empty_input);
    assert!(prove_result.is_err());
}

#[test]
fn test_execute_r0_no_input_for_guest_expecting_input() {
    let program = test_program();

    let empty_input = Input::new();

    let zkvm = EreRisc0::new(program, ProverResourceType::Cpu).unwrap();
    let result = zkvm.execute(&empty_input);

    assert!(
        result.is_err(),
        "execute should fail if guest expects input but none is provided."
    );
    assert!(matches!(result, Err(Risc0Error::Execute(_))));
}

#[test]
fn execute_result_reports_cycles() {
    let report = EreRisc0::execute_result(Ok(65536), 10).unwrap();
    assert_eq!(report.total_num_cycles, Some(65536));
    assert_eq!(report.execution_duration_nanos, 10);
    assert!(report.region_cycles.is_empty());
    assert!(matches!(
        EreRisc0::execute_result(Err("guest fault".to_string()), 0),
        Err(Risc0Error::Execute(_))
    ));
}

#[test]
fn guest_stdin_matches_executor_framing() {
    let mut input = Input::new();
    input.write_u32(42);
    input.write_u16(42);
    input.write_bytes(vec![7, 8]);
    input.write_u64(0x0000_0001_0000_0002);
    assert_eq!(
        guest_stdin(&input),
        vec![42, 0, 0, 0, 42, 0, 0, 0, 2, 0, 0, 0, 7, 8, 2, 0, 0, 0, 1, 0, 0, 0]
    );
    assert!(guest_stdin(&Input::new()).is_empty());
}

#[test]
fn service_bound_instance_proves_through_the_service() {
    let mut reg = ServiceRegistry::new();
    let z = cuda_instance(&mut reg);
    assert!(matches!(z.prove(&Input::new()), Err(Risc0Error::ServiceRequired)));
}

#[test]
fn network_resource_is_refused_at_construction() {
    let cfg = ere::resource::NetworkProverConfig::default();
    let r = EreRisc0::new(test_program(), ProverResourceType::Network(cfg));
    assert!(matches!(
        r,
        Err(Risc0Error::Config(ere::risc0::ConfigError::NetworkUnsupported))
    ));
}

#[test]
fn proving_path_follows_build_support() {
    assert_eq!(
        select_proving_path(&ProverResourceType::Gpu, GpuSupport::Cuda),
        Ok(ProvingPath::Bento)
    );
    assert_eq!(
        select_proving_path(&ProverResourceType::Gpu, GpuSupport::Metal),
        Ok(ProvingPath::Local)
    );
    assert_eq!(
        select_proving_path(&ProverResourceType::Gpu, GpuSupport::NoGpu),
        Err(ConfigError::GpuWithoutSupport)
    );
    assert_eq!(
        select_proving_path(&ProverResourceType::Gpu, GpuSupport::CudaAndMetal),
        Err(ConfigError::ConflictingGpuSupport)
    );
    assert_eq!(
        select_proving_path(&ProverResourceType::Cpu, GpuSupport::Cuda),
        Err(ConfigError::CpuOnGpuBuild)
    );
    let mut reg = ServiceRegistry::new();
    let z = cuda_instance(&mut reg);
    assert!(z.needs_service());
    assert_eq!(reg.holders(), 1);
}

#[test]
fn verify_reports_decode_failure_without_panicking() {
    let zkvm = EreRisc0::new(test_program(), ProverResourceType::Cpu).unwrap();
    for bytes in [vec![], vec![1, 2, 3], vec![0xff; 64]] {
        let r = zkvm.verify(&bytes);
        assert!(matches!(r, Err(Risc0Error::DecodeProof(_))), "{bytes:?}");
    }
}

#[test]
fn prove_result_hands_back_the_receipt_bytes() {
    let receipt = vec![9u8; 32];
    let (proof_bytes, report) = EreRisc0::prove_result(Ok(receipt.clone()), 5).unwrap();
    assert_eq!(proof_bytes, receipt);
    assert_eq!(report.proving_time_nanos, 5);
}

#[test]
fn frame_prefixes_length() {
    assert_eq!(frame_bytes(&vec![7, 8, 9]), vec![3, 0, 0, 0, 7, 8, 9]);
    assert_eq!(frame_bytes(&vec![]), vec![0, 0, 0, 0]);
    let big = vec![1u8; 300];
    let f = frame_bytes(&big);
    assert_eq!(&f[..4], &[44, 1, 0, 0]);
    assert_eq!(f.len(), 304);
}

#[test]
fn backend_name_and_sdk_version() {
    let zkvm = EreRisc0::new(test_program(), ProverResourceType::Cpu).unwrap();
    assert_eq!(zkvm.name(), "risc0");
    assert_eq!(zkvm.sdk_version(), "2.3.2");
}

#[test]
fn first_gpu_holder_starts_the_service_and_a_failed_start_rolls_back() {
    let mut reg = ServiceRegistry::new();
    let build = |reg: &mut ServiceRegistry, r: ProverResourceType| {
        EreRisc0::new_for_build(test_program(), r, GpuSupport::Cuda, reg, "t", &no_env())
    };
    assert!(matches!(build(&mut reg, ProverResourceType::Cpu), Err(Risc0Error::Config(_))));
    assert_eq!(reg.holders(), 0);
    let pending = match build(&mut reg, ProverResourceType::Gpu).unwrap() {
        Construction::StartService(p) => p,
        other => panic!("unexpected {other:?}"),
    };
    assert_eq!(pending.run().invocation.args, vec!["compose", "--file", "-", "up", "--detach"]);
    assert_eq!(reg.holders(), 1);
    assert!(matches!(
        pending.finish(&mut reg, &status(1)),
        Err(Risc0Error::ComposeFailed(_))
    ));
    assert_eq!(reg.holders(), 0);
    let pending = match build(&mut reg, ProverResourceType::Gpu).unwrap() {
        Construction::StartService(p) => p,
        other => panic!("unexpected {other:?}"),
    };
    let first = pending.finish(&mut reg, &status(0)).unwrap();
    assert!(first.needs_service());
    assert!(matches!(
        build(&mut reg, ProverResourceType::Gpu).unwrap(),
        Construction::Ready(_)
    ));
    assert_eq!(reg.holders(), 2);
    let metal = EreRisc0::new_for_build(
        test_program(),
        ProverResourceType::Gpu,
        GpuSupport::Metal,
        &mut reg,
        "t",
        &no_env(),
    );
    assert!(matches!(metal, Ok(Construction::Ready(ref z)) if !z.needs_service()));
    assert_eq!(reg.holders(), 2);
}

#[test]
fn service_receipts_must_decode() {
    assert!(matches!(
        ere::risc0::service_receipt(vec![0, 0, 0, 0, 1]),
        Err(Risc0Error::DecodeProof(_))
    ));
    assert!(matches!(
        ere::risc0::service_receipt(vec![1, 0, 0, 0, 1]),
        Err(Risc0Error::DecodeProof(_))
    ));
}
