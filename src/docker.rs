//! The two-stage Docker image build: a probe that Docker is there, the shared
//! base image, then the program-specific image on top of it. The caller runs
//! each invocation and hands back its outcome; this module decides the next
//! step.

use vstd::prelude::*;
use vstd::string::*;
use crate::process::{join_path, path_join, push_arg, views, Invocation, ProcessStatus};

verus! {

/// Why an image build failed.
#[derive(Debug, PartialEq, Eq)]
pub enum Error {
    /// A Dockerfile path that cannot be handed to Docker as text.
    InvalidDockerfilePath(String),
    /// `docker build` could not be started; the message of the failure.
    DockerBuildFailed(String),
    /// `docker build` ran and failed.
    ImageBuildFailed,
    /// Docker is not installed or cannot be run.
    DockerIsNotAvailable,
}

/// The tag of the shared base image.
pub const BASE_IMAGE_TAG: &'static str = "ere-base:latest";

/// The base image's Dockerfile, relative to the workspace.
pub const BASE_DOCKERFILE: &'static str = "docker/base/Dockerfile.base";

/// `docker build -t <tag> -f <dockerfile> <context>`.
pub open spec fn build_args(tag: Seq<char>, dockerfile: Seq<char>, context: Seq<char>) -> Seq<
    Seq<char>,
> {
    seq!["build"@, "-t"@, tag, "-f"@, dockerfile, context]
}

fn build_invocation(tag: &str, dockerfile: &str, context: &str) -> (r: Invocation)
    ensures
        r.program@ == "docker"@,
        views(r.args@) == build_args(tag@, dockerfile@, context@),
        r.cwd is None,
{
    let mut args: Vec<String> = Vec::new();
    push_arg(&mut args, "build");
    push_arg(&mut args, "-t");
    push_arg(&mut args, tag);
    push_arg(&mut args, "-f");
    push_arg(&mut args, dockerfile);
    push_arg(&mut args, context);
    assert(views(args@) =~= build_args(tag@, dockerfile@, context@));
    Invocation { program: String::from_str("docker"), args, cwd: None }
}

/// Where an image build stands.
#[derive(Debug, Clone, Copy, PartialEq, Eq, Structural)]
pub enum BuildStage {
    /// Waiting for the outcome of `docker --version`.
    CheckDocker,
    /// Waiting for the base image build.
    BuildBase,
    /// Waiting for the program image build.
    BuildImage,
    /// Finished, with success or an error.
    Done,
}

/// What the caller does next.
#[derive(Debug)]
pub enum BuildStep {
    /// Run this and hand its outcome to `step`.
    Run(Invocation),
    /// The build is over.
    Finished(Result<(), Error>),
}

/// A two-stage image build in progress.
#[derive(Debug)]
pub struct ImageBuild {
    workspace_dir: String,
    dockerfile: String,
    tag: String,
    stage: BuildStage,
}

impl ImageBuild {
    pub closed spec fn spec_stage(&self) -> BuildStage {
        self.stage
    }

    pub closed spec fn spec_workspace_dir(&self) -> Seq<char> {
        self.workspace_dir@
    }

    pub closed spec fn spec_dockerfile(&self) -> Seq<char> {
        self.dockerfile@
    }

    pub closed spec fn spec_tag(&self) -> Seq<char> {
        self.tag@
    }

    pub fn stage(&self) -> (r: BuildStage)
        ensures
            r == self.spec_stage(),
    {
        self.stage
    }

    /// Starts building the image `tag` from the Dockerfile at
    /// `dockerfile_workspace_relative_path` inside `workspace_dir`. The first
    /// step probes for Docker with `docker --version`.
    pub fn build_image(workspace_dir: &str, dockerfile_workspace_relative_path: &str, tag: &str) -> (r: (
        ImageBuild,
        Invocation,
    ))
        ensures
            r.0.spec_stage() == BuildStage::CheckDocker,
            r.0.spec_workspace_dir() == workspace_dir@,
            r.0.spec_dockerfile() == dockerfile_workspace_relative_path@,
            r.0.spec_tag() == tag@,
            r.1.program@ == "docker"@,
            views(r.1.args@) == seq!["--version"@],
            r.1.cwd is None,
    {
        let mut args: Vec<String> = Vec::new();
        push_arg(&mut args, "--version");
        assert(views(args@) =~= seq!["--version"@]);
        (
            ImageBuild {
                workspace_dir: String::from_str(workspace_dir),
                dockerfile: String::from_str(dockerfile_workspace_relative_path),
                tag: String::from_str(tag),
                stage: BuildStage::CheckDocker,
            },
            Invocation { program: String::from_str("docker"), args, cwd: None },
        )
    }

    /// Advances the build with the outcome of the invocation it asked for.
    ///
    /// A probe that cannot start means Docker is not available. A build that
    /// cannot start, or that exits unsuccessfully, ends the build with its
    /// error; after the base image comes the program image, after that success.
    pub fn step(&mut self, status: &ProcessStatus) -> (r: BuildStep)
        requires
            old(self).spec_stage() != BuildStage::Done,
        ensures
            final(self).spec_workspace_dir() == old(self).spec_workspace_dir(),
            final(self).spec_dockerfile() == old(self).spec_dockerfile(),
            final(self).spec_tag() == old(self).spec_tag(),
            r is Finished <==> final(self).spec_stage() == BuildStage::Done,
            old(self).spec_stage() == BuildStage::CheckDocker ==> match status {
                ProcessStatus::SpawnFailed(_) => r matches BuildStep::Finished(
                    Err(Error::DockerIsNotAvailable),
                ),
                ProcessStatus::Exited { .. } => final(self).spec_stage() == BuildStage::BuildBase
                    && (r matches BuildStep::Run(inv) && inv.program@ == "docker"@ && inv.cwd is None
                    && views(inv.args@) == build_args(
                    BASE_IMAGE_TAG@,
                    path_join(old(self).spec_workspace_dir(), BASE_DOCKERFILE@),
                    old(self).spec_workspace_dir(),
                )),
            },
            old(self).spec_stage() != BuildStage::CheckDocker ==> match status {
                ProcessStatus::SpawnFailed(m) => r matches BuildStep::Finished(
                    Err(Error::DockerBuildFailed(e)),
                ) && e@ == m@,
                ProcessStatus::Exited { .. } => if !status.spec_succeeded() {
                    r matches BuildStep::Finished(Err(Error::ImageBuildFailed))
                } else if old(self).spec_stage() == BuildStage::BuildBase {
                    final(self).spec_stage() == BuildStage::BuildImage && (r matches BuildStep::Run(
                        inv,
                    ) && inv.program@ == "docker"@ && inv.cwd is None && views(inv.args@)
                        == build_args(
                        old(self).spec_tag(),
                        path_join(old(self).spec_workspace_dir(), old(self).spec_dockerfile()),
                        old(self).spec_workspace_dir(),
                    ))
                } else {
                    r matches BuildStep::Finished(Ok(()))
                },
            },
    {
        match self.stage {
            BuildStage::CheckDocker => match status {
                ProcessStatus::SpawnFailed(_) => {
                    self.stage = BuildStage::Done;
                    BuildStep::Finished(Err(Error::DockerIsNotAvailable))
                },
                ProcessStatus::Exited { .. } => {
                    self.stage = BuildStage::BuildBase;
                    let dockerfile = join_path(self.workspace_dir.as_str(), BASE_DOCKERFILE);
                    BuildStep::Run(
                        build_invocation(
                            BASE_IMAGE_TAG,
                            dockerfile.as_str(),
                            self.workspace_dir.as_str(),
                        ),
                    )
                },
            },
            _ => match status {
                ProcessStatus::SpawnFailed(m) => {
                    self.stage = BuildStage::Done;
                    BuildStep::Finished(Err(Error::DockerBuildFailed(m.clone())))
                },
                ProcessStatus::Exited { .. } => {
                    if !status.succeeded() {
                        self.stage = BuildStage::Done;
                        BuildStep::Finished(Err(Error::ImageBuildFailed))
                    } else if self.stage == BuildStage::BuildBase {
                        self.stage = BuildStage::BuildImage;
                        let dockerfile = join_path(
                            self.workspace_dir.as_str(),
                            self.dockerfile.as_str(),
                        );
                        BuildStep::Run(
                            build_invocation(
                                self.tag.as_str(),
                                dockerfile.as_str(),
                                self.workspace_dir.as_str(),
                            ),
                        )
                    } else {
                        self.stage = BuildStage::Done;
                        BuildStep::Finished(Ok(()))
                    }
                },
            },
        }
    }
}

} // verus!
