//! The local proving service that a CUDA build relies on: starting and
//! stopping it with `docker compose`, sharing it between instances, and
//! reading the status of a proving job.

use vstd::prelude::*;
use vstd::string::*;
use crate::process::{push_arg, str_eq, views, Invocation, ProcessStatus};
use crate::resource::ProverResourceType;
use crate::risc0::{
    spec_proving_path, BentoCommand, ConfigError, EreRisc0, GpuSupport, ProvingPath, Risc0Error,
    Risc0Program,
};

verus! {

/// `s` with every occurrence of `from` replaced by `to`: matches are taken
/// from the left and do not overlap. An empty `from` matches before every
/// character and at the end.
pub open spec fn replaced(s: Seq<char>, from: Seq<char>, to: Seq<char>) -> Seq<char>
    decreases s.len(),
{
    if from.len() == 0 {
        if s.len() == 0 {
            to
        } else {
            to + seq![s[0]] + replaced(s.drop_first(), from, to)
        }
    } else if s.len() < from.len() {
        s
    } else if s.subrange(0, from.len() as int) == from {
        to + replaced(s.subrange(from.len() as int, s.len() as int), from, to)
    } else {
        seq![s[0]] + replaced(s.drop_first(), from, to)
    }
}

/// Relies on str::replace, which replaces the non-overlapping matches of
/// `from` found from the left.
#[verifier::external_body]
fn replace_all(s: &str, from: &str, to: &str) -> (r: String)
    ensures
        r@ == replaced(s@, from@, to@),
{
    s.replace(from, to)
}

/// The parameters substituted into the service definition; an absent one
/// takes its default.
#[derive(Debug, Clone)]
pub struct ComposeEnv {
    /// Log level; `INFO` by default.
    pub rust_log: Option<String>,
    /// Segment size (a power of two); `21` by default.
    pub segment_size: Option<String>,
    /// Keccak segment size (a power of two); `17` by default.
    pub keccak_po2: Option<String>,
}

pub open spec fn value_or(v: Option<String>, default: Seq<char>) -> Seq<char> {
    match v {
        Some(s) => s@,
        None => default,
    }
}

fn owned_or(v: &Option<String>, default: &str) -> (r: String)
    ensures
        r@ == value_or(*v, default@),
{
    match v {
        Some(s) => s.clone(),
        None => String::from_str(default),
    }
}

/// The service definition with its three placeholders filled in.
pub open spec fn spec_compose_file(template: Seq<char>, env: ComposeEnv) -> Seq<char> {
    replaced(
        replaced(
            replaced(template, "${RUST_LOG}"@, value_or(env.rust_log, "INFO"@)),
            "${SEGMENT_SIZE}"@,
            value_or(env.segment_size, "21"@),
        ),
        "${RISC0_KECCAK_PO2}"@,
        value_or(env.keccak_po2, "17"@),
    )
}

/// Fills the placeholders `${RUST_LOG}`, `${SEGMENT_SIZE}` and
/// `${RISC0_KECCAK_PO2}` of the service definition.
pub fn render_compose_file(template: &str, env: &ComposeEnv) -> (r: String)
    ensures
        r@ == spec_compose_file(template@, *env),
{
    let log = owned_or(&env.rust_log, "INFO");
    let seg = owned_or(&env.segment_size, "21");
    let po2 = owned_or(&env.keccak_po2, "17");
    let a = replace_all(template, "${RUST_LOG}", log.as_str());
    let b = replace_all(a.as_str(), "${SEGMENT_SIZE}", seg.as_str());
    replace_all(b.as_str(), "${RISC0_KECCAK_PO2}", po2.as_str())
}

/// A `docker compose` run that reads the service definition from stdin.
#[derive(Debug)]
pub struct ComposeRun {
    pub invocation: Invocation,
    pub stdin: String,
}

/// The words that follow `docker compose --file -` for `cmd`.
pub open spec fn command_words(cmd: BentoCommand) -> Seq<Seq<char>> {
    match cmd {
        BentoCommand::Up => seq!["up"@, "--detach"@],
        BentoCommand::Down => seq!["down"@, "--volumes"@],
    }
}

/// `docker compose --file - <cmd>`, with the filled-in definition on stdin.
pub fn compose_run(cmd: BentoCommand, template: &str, env: &ComposeEnv) -> (r: ComposeRun)
    ensures
        r.invocation.program@ == "docker"@,
        views(r.invocation.args@) == seq!["compose"@, "--file"@, "-"@] + command_words(cmd),
        r.invocation.cwd is None,
        r.stdin@ == spec_compose_file(template@, *env),
{
    let mut args: Vec<String> = Vec::new();
    push_arg(&mut args, "compose");
    push_arg(&mut args, "--file");
    push_arg(&mut args, "-");
    match cmd {
        BentoCommand::Up => {
            push_arg(&mut args, "up");
            push_arg(&mut args, "--detach");
        },
        BentoCommand::Down => {
            push_arg(&mut args, "down");
            push_arg(&mut args, "--volumes");
        },
    }
    assert(views(args@) =~= seq!["compose"@, "--file"@, "-"@] + command_words(cmd));
    ComposeRun {
        invocation: Invocation { program: String::from_str("docker"), args, cwd: None },
        stdin: render_compose_file(template, env),
    }
}

/// `docker compose ... up --detach`: starts the service.
pub fn docker_compose_bento_up(template: &str, env: &ComposeEnv) -> (r: ComposeRun)
    ensures
        r.invocation.program@ == "docker"@,
        views(r.invocation.args@) == seq!["compose"@, "--file"@, "-"@, "up"@, "--detach"@],
        r.invocation.cwd is None,
        r.stdin@ == spec_compose_file(template@, *env),
{
    let r = compose_run(BentoCommand::Up, template, env);
    assert(seq!["compose"@, "--file"@, "-"@] + command_words(BentoCommand::Up) =~= seq![
        "compose"@,
        "--file"@,
        "-"@,
        "up"@,
        "--detach"@,
    ]);
    r
}

/// `docker compose ... down --volumes`: stops the service and drops its data.
pub fn docker_compose_bento_down(template: &str, env: &ComposeEnv) -> (r: ComposeRun)
    ensures
        r.invocation.program@ == "docker"@,
        views(r.invocation.args@) == seq!["compose"@, "--file"@, "-"@, "down"@, "--volumes"@],
        r.invocation.cwd is None,
        r.stdin@ == spec_compose_file(template@, *env),
{
    let r = compose_run(BentoCommand::Down, template, env);
    assert(seq!["compose"@, "--file"@, "-"@] + command_words(BentoCommand::Down) =~= seq![
        "compose"@,
        "--file"@,
        "-"@,
        "down"@,
        "--volumes"@,
    ]);
    r
}

/// The outcome of a compose run: success exactly when it exited with code zero.
pub fn compose_result(cmd: BentoCommand, status: &ProcessStatus) -> (r: Result<(), Risc0Error>)
    ensures
        status.spec_succeeded() <==> r is Ok,
        status matches ProcessStatus::SpawnFailed(m) ==> (r matches Err(
            Risc0Error::ComposeSpawn(e),
        ) && e@ == m@),
        (status is Exited && !status.spec_succeeded()) ==> (r matches Err(
            Risc0Error::ComposeFailed(c),
        ) && c == cmd),
{
    match status {
        ProcessStatus::SpawnFailed(m) => Err(Risc0Error::ComposeSpawn(m.clone())),
        ProcessStatus::Exited { .. } => {
            if status.succeeded() {
                Ok(())
            } else {
                Err(Risc0Error::ComposeFailed(cmd))
            }
        },
    }
}

/// The number of live instances that rely on the service. The service is
/// started when the first one arrives and stopped when the last one leaves,
/// so instances with overlapping lifetimes share one service safely.
#[derive(Debug)]
pub struct ServiceRegistry {
    holders: u64,
}

impl ServiceRegistry {
    pub closed spec fn spec_holders(&self) -> nat {
        self.holders as nat
    }

    /// No instance holds the service.
    pub fn new() -> (r: ServiceRegistry)
        ensures
            r.spec_holders() == 0,
    {
        ServiceRegistry { holders: 0 }
    }

    pub fn holders(&self) -> (r: u64)
        ensures
            r == self.spec_holders(),
    {
        self.holders
    }

    /// One more instance holds the service; the result says whether it must
    /// be started now (it was not running).
    pub fn acquire(&mut self) -> (start: bool)
        requires
            old(self).spec_holders() < u64::MAX,
        ensures
            final(self).spec_holders() == old(self).spec_holders() + 1,
            start == (old(self).spec_holders() == 0),
    {
        self.holders = self.holders + 1;
        self.holders == 1
    }

    /// One instance lets go of the service; the result says whether it must
    /// be stopped now (that was the last holder). Releasing with no holder
    /// changes nothing.
    pub fn release(&mut self) -> (stop: bool)
        ensures
            old(self).spec_holders() == 0 ==> final(self).spec_holders() == 0 && !stop,
            old(self).spec_holders() > 0 ==> final(self).spec_holders() == old(
                self,
            ).spec_holders() - 1 && stop == (old(self).spec_holders() == 1),
    {
        if self.holders == 0 {
            false
        } else {
            self.holders = self.holders - 1;
            self.holders == 0
        }
    }
}

/// What constructing an instance yields.
#[derive(Debug)]
pub enum Construction {
    /// The instance, ready: it needs no service, or the service already runs
    /// for another holder.
    Ready(EreRisc0),
    /// The instance is held back until the service it needs has started.
    StartService(PendingStart),
}

/// An instance whose proving service must start before it is handed out.
#[derive(Debug)]
pub struct PendingStart {
    zkvm: EreRisc0,
    run: ComposeRun,
}

impl PendingStart {
    pub closed spec fn spec_instance(&self) -> EreRisc0 {
        self.zkvm
    }

    pub closed spec fn spec_run(&self) -> ComposeRun {
        self.run
    }

    /// The `docker compose ... up` run that starts the service.
    pub fn run(&self) -> (r: &ComposeRun)
        ensures
            *r == self.spec_run(),
    {
        &self.run
    }

    /// The instance, once the start has succeeded. A failed start is the
    /// construction's error: no instance comes out, and the holder it was
    /// started for lets go, so the next construction starts it again.
    pub fn finish(self, registry: &mut ServiceRegistry, status: &ProcessStatus) -> (r: Result<
        EreRisc0,
        Risc0Error,
    >)
        ensures
            status.spec_succeeded() ==> (r matches Ok(z) && z == self.spec_instance()
                && final(registry).spec_holders() == old(registry).spec_holders()),
            !status.spec_succeeded() ==> (final(registry).spec_holders() == if old(
                registry,
            ).spec_holders() == 0 {
                0
            } else {
                (old(registry).spec_holders() - 1) as nat
            }),
            status matches ProcessStatus::SpawnFailed(m) ==> (r matches Err(
                Risc0Error::ComposeSpawn(e),
            ) && e@ == m@),
            (status is Exited && !status.spec_succeeded()) ==> r matches Err(
                Risc0Error::ComposeFailed(BentoCommand::Up),
            ),
    {
        match compose_result(BentoCommand::Up, status) {
            Ok(()) => Ok(self.zkvm),
            Err(e) => {
                registry.release();
                Err(e)
            },
        }
    }
}

impl EreRisc0 {
    /// Binds `program` to `resource` on a build with `build`. A resource
    /// type that the build cannot serve fails here, before any run. An
    /// instance that relies on the proving service becomes a holder of it in
    /// `registry`; the first holder comes out as a pending start, which
    /// yields the instance only once the service has started.
    pub fn new_for_build(
        program: Risc0Program,
        resource_type: ProverResourceType,
        build: GpuSupport,
        registry: &mut ServiceRegistry,
        template: &str,
        env: &ComposeEnv,
    ) -> (r: Result<Construction, Risc0Error>)
        ensures
            spec_proving_path(resource_type, build) matches Err(e) ==> (r matches Err(
                Risc0Error::Config(c),
            ) && c == e && final(registry).spec_holders() == old(registry).spec_holders()),
            spec_proving_path(resource_type, build) == Ok::<ProvingPath, ConfigError>(
                ProvingPath::Local,
            ) ==> (r matches Ok(Construction::Ready(z)) && z.spec_path() == ProvingPath::Local
                && z.spec_program() == program && z.spec_resource_type() == resource_type
                && final(registry).spec_holders() == old(registry).spec_holders()),
            (spec_proving_path(resource_type, build) == Ok::<ProvingPath, ConfigError>(
                ProvingPath::Bento,
            ) && old(registry).spec_holders() == u64::MAX) ==> (r matches Err(
                Risc0Error::ServiceHoldersExhausted,
            ) && final(registry).spec_holders() == old(registry).spec_holders()),
            (spec_proving_path(resource_type, build) == Ok::<ProvingPath, ConfigError>(
                ProvingPath::Bento,
            ) && old(registry).spec_holders() < u64::MAX) ==> final(registry).spec_holders() == old(
                registry,
            ).spec_holders() + 1,
            (spec_proving_path(resource_type, build) == Ok::<ProvingPath, ConfigError>(
                ProvingPath::Bento,
            ) && 0 < old(registry).spec_holders() < u64::MAX) ==> (r matches Ok(
                Construction::Ready(z),
            ) && z.spec_path() == ProvingPath::Bento && z.spec_program() == program
                && z.spec_resource_type() == resource_type),
            (spec_proving_path(resource_type, build) == Ok::<ProvingPath, ConfigError>(
                ProvingPath::Bento,
            ) && old(registry).spec_holders() == 0) ==> (r matches Ok(
                Construction::StartService(ps),
            ) && ps.spec_instance().spec_path() == ProvingPath::Bento
                && ps.spec_instance().spec_program() == program
                && ps.spec_instance().spec_resource_type() == resource_type && views(
                ps.spec_run().invocation.args@,
            ) == seq!["compose"@, "--file"@, "-"@, "up"@, "--detach"@]
                && ps.spec_run().invocation.program@ == "docker"@ && ps.spec_run().stdin@
                == spec_compose_file(template@, *env)),
    {
        let zkvm = EreRisc0::bind(program, resource_type, build)?;
        if !zkvm.needs_service() {
            return Ok(Construction::Ready(zkvm));
        }
        if registry.holders() == u64::MAX {
            return Err(Risc0Error::ServiceHoldersExhausted);
        }
        if registry.acquire() {
            let run = docker_compose_bento_up(template, env);
            Ok(Construction::StartService(PendingStart { zkvm, run }))
        } else {
            Ok(Construction::Ready(zkvm))
        }
    }
}

/// Seconds between two status requests.
pub const POLL_INTERVAL_SECS: u64 = 2;

/// What to do after reading a proving job's status.
#[derive(Debug)]
pub enum PollDecision {
    /// Still running: ask again after this many seconds.
    Wait(u64),
    /// Succeeded: download the receipt.
    Download,
    /// Still running past the wait bound.
    TimedOut,
    /// Any other status, which is reported as it came.
    Fail(String),
}

/// The decision on a job status read after `waited_secs` seconds of waiting,
/// with an optional bound on the wait. `RUNNING` waits (until the bound),
/// `SUCCEEDED` downloads, and any other status fails, so no status can make
/// the loop spin forever on its own.
pub fn poll_step(status: &str, waited_secs: u64, max_wait_secs: Option<u64>) -> (r: PollDecision)
    ensures
        status@ == "RUNNING"@ ==> match max_wait_secs {
            Some(m) => if waited_secs >= m {
                r is TimedOut
            } else {
                r matches PollDecision::Wait(s) && s == POLL_INTERVAL_SECS
            },
            None => r matches PollDecision::Wait(s) && s == POLL_INTERVAL_SECS,
        },
        status@ == "SUCCEEDED"@ ==> r is Download,
        (status@ != "RUNNING"@ && status@ != "SUCCEEDED"@) ==> (r matches PollDecision::Fail(s)
            && s@ == status@),
{
    proof {
        reveal_strlit("RUNNING");
        reveal_strlit("SUCCEEDED");
        assert("RUNNING"@.len() != "SUCCEEDED"@.len());
    }
    if str_eq(status, "RUNNING") {
        match max_wait_secs {
            Some(m) => if waited_secs >= m {
                PollDecision::TimedOut
            } else {
                PollDecision::Wait(POLL_INTERVAL_SECS)
            },
            None => PollDecision::Wait(POLL_INTERVAL_SECS),
        }
    } else if str_eq(status, "SUCCEEDED") {
        PollDecision::Download
    } else {
        PollDecision::Fail(String::from_str(status))
    }
}

/// The error for a decision that ends the wait without a receipt.
pub fn poll_error(d: &PollDecision) -> (r: Option<Risc0Error>)
    ensures
        d is TimedOut ==> r matches Some(Risc0Error::PollTimeout),
        d matches PollDecision::Fail(s) ==> (r matches Some(Risc0Error::UnexpectedStatus(e))
            && e@ == s@),
        (d is Wait || d is Download) ==> r is None,
{
    match d {
        PollDecision::TimedOut => Some(Risc0Error::PollTimeout),
        PollDecision::Fail(s) => Some(Risc0Error::UnexpectedStatus(s.clone())),
        _ => None,
    }
}

} // verus!
