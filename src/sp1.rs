//! The SP1 compiler: the guest is built inside a Docker container from an
//! image built on the shared base, and the ELF is collected from a mounted
//! output directory.

use vstd::prelude::*;
use vstd::string::*;
use crate::docker::{Error, ImageBuild};
use crate::process::{join_path, path_join, push_arg, views, ArtifactRead, Invocation, ProcessStatus};

verus! {

/// The tag of the SP1 build image.
pub const SP1_IMAGE_TAG: &'static str = "ere-build-sp1:latest";

/// The SP1 build image's Dockerfile, relative to the workspace.
pub const SP1_DOCKERFILE: &'static str = "docker/sp1/Dockerfile";

/// Where the guest workspace is mounted inside the container.
pub const CONTAINER_WORKSPACE: &'static str = "/guest-workspace";

/// Where the container writes the ELF.
pub const CONTAINER_OUTPUT: &'static str = "/output";

/// Why compiling an SP1 guest failed.
#[derive(Debug)]
pub enum CompileError {
    DockerImageBuildFailed(Error),
    InvalidMountPath(String),
    CreatingTempOutputDirectoryFailed(String),
    InvalidTempOutputPath(String),
    InvalidGuestPath(String),
    /// `docker run` could not be started.
    DockerCommandFailed(String),
    /// The container ran and exited unsuccessfully; its exit code, if any.
    DockerContainerRunFailed(Option<i32>),
    /// The container succeeded and left no ELF at the path.
    CompiledELFProgramMissing(String),
    ReadCompiledELFProgram(String),
}

/// `host:container`, a volume mount.
pub open spec fn mount(host: Seq<char>, container: Seq<char>) -> Seq<char> {
    host + seq![':'] + container
}

/// The arguments of the container run that compiles the guest at
/// `guest_relative` inside the mounted workspace.
pub open spec fn run_args(workspace: Seq<char>, output: Seq<char>, guest_relative: Seq<char>) -> Seq<
    Seq<char>,
> {
    seq![
        "run"@,
        "--rm"@,
        "-v"@,
        mount(workspace, CONTAINER_WORKSPACE@),
        "-v"@,
        mount(output, CONTAINER_OUTPUT@),
        SP1_IMAGE_TAG@,
        "./guest-compiler"@,
        path_join(CONTAINER_WORKSPACE@, guest_relative),
        CONTAINER_OUTPUT@,
    ]
}

fn mount_arg(host: &str, container: &str) -> (r: String)
    ensures
        r@ == mount(host@, container@),
{
    proof {
        reveal_strlit(":");
    }
    let mut r = String::from_str(host);
    r.append(":");
    r.append(container);
    r
}

/// The SP1 compiler.
#[allow(non_camel_case_types)]
#[derive(Debug)]
pub struct RV32_IM_SUCCINCT_ZKVM_ELF;

impl RV32_IM_SUCCINCT_ZKVM_ELF {
    /// Starts building the SP1 image from the Dockerfile in `docker_workspace`.
    pub fn image_build(docker_workspace: &str) -> (r: (ImageBuild, Invocation))
        ensures
            r.0.spec_stage() == crate::docker::BuildStage::CheckDocker,
            r.0.spec_workspace_dir() == docker_workspace@,
            r.0.spec_dockerfile() == SP1_DOCKERFILE@,
            r.0.spec_tag() == SP1_IMAGE_TAG@,
            r.1.program@ == "docker"@,
            views(r.1.args@) == seq!["--version"@],
    {
        ImageBuild::build_image(docker_workspace, SP1_DOCKERFILE, SP1_IMAGE_TAG)
    }

    /// `docker run` of the build image, with the guest workspace and the
    /// output directory mounted.
    pub fn run_invocation(workspace_dir: &str, output_dir: &str, guest_relative: &str) -> (r:
        Invocation)
        ensures
            r.program@ == "docker"@,
            views(r.args@) == run_args(workspace_dir@, output_dir@, guest_relative@),
            r.cwd is None,
    {
        let ws = mount_arg(workspace_dir, CONTAINER_WORKSPACE);
        let out = mount_arg(output_dir, CONTAINER_OUTPUT);
        let guest = join_path(CONTAINER_WORKSPACE, guest_relative);
        let mut args: Vec<String> = Vec::new();
        push_arg(&mut args, "run");
        push_arg(&mut args, "--rm");
        push_arg(&mut args, "-v");
        push_arg(&mut args, ws.as_str());
        push_arg(&mut args, "-v");
        push_arg(&mut args, out.as_str());
        push_arg(&mut args, SP1_IMAGE_TAG);
        push_arg(&mut args, "./guest-compiler");
        push_arg(&mut args, guest.as_str());
        push_arg(&mut args, CONTAINER_OUTPUT);
        assert(views(args@) =~= run_args(workspace_dir@, output_dir@, guest_relative@));
        Invocation { program: String::from_str("docker"), args, cwd: None }
    }

    /// The outcome of the container run.
    pub fn run_result(status: &ProcessStatus) -> (r: Result<(), CompileError>)
        ensures
            status.spec_succeeded() <==> r is Ok,
            status matches ProcessStatus::SpawnFailed(m) ==> (r matches Err(
                CompileError::DockerCommandFailed(e),
            ) && e@ == m@),
            status matches ProcessStatus::Exited { code, .. } ==> (!status.spec_succeeded() ==> (
            r matches Err(CompileError::DockerContainerRunFailed(c)) && c == code)),
    {
        match status {
            ProcessStatus::SpawnFailed(m) => Err(CompileError::DockerCommandFailed(m.clone())),
            ProcessStatus::Exited { code, .. } => {
                if status.succeeded() {
                    Ok(())
                } else {
                    Err(CompileError::DockerContainerRunFailed(*code))
                }
            },
        }
    }

    /// Where the container leaves the ELF on the host: `<output_dir>/guest.elf`.
    pub fn elf_path(output_dir: &str) -> (r: String)
        ensures
            r@ == path_join(output_dir@, "guest.elf"@),
    {
        join_path(output_dir, "guest.elf")
    }

    /// The compiled program from what was found at the ELF path.
    pub fn collect_elf(path: &str, read: ArtifactRead) -> (r: Result<Vec<u8>, CompileError>)
        ensures
            read is Missing ==> (r matches Err(CompileError::CompiledELFProgramMissing(p)) && p@
                == path@),
            read matches ArtifactRead::Failed(m) ==> (r matches Err(
                CompileError::ReadCompiledELFProgram(e),
            ) && e@ == m@),
            read matches ArtifactRead::Bytes(b) ==> (r matches Ok(v) && v@ == b@),
    {
        match read {
            ArtifactRead::Missing => Err(
                CompileError::CompiledELFProgramMissing(String::from_str(path)),
            ),
            ArtifactRead::Failed(m) => Err(CompileError::ReadCompiledELFProgram(m)),
            ArtifactRead::Bytes(b) => Ok(b),
        }
    }
}

} // verus!
