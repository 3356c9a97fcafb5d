//! The one reportable error that every backend's failures converge into,
//! and the lifecycle phase each failure belongs to.

use vstd::prelude::*;
use crate::airbender::AirbenderError;
use crate::nexus::NexusError;
use crate::risc0::Risc0Error;
use crate::sp1;
use crate::zisk::ZiskError;

verus! {

/// The phase of the lifecycle in which a failure happened.
#[derive(Debug, Clone, Copy, PartialEq, Eq)]
pub enum Phase {
    /// Constructing or tearing down a backend instance.
    Setup,
    Compile,
    Execute,
    Prove,
    Verify,
}

/// A failure of any backend.
#[derive(Debug)]
pub enum ZkvmError {
    Airbender(AirbenderError),
    Nexus(NexusError),
    Risc0(Risc0Error),
    Sp1(sp1::CompileError),
    Zisk(ZiskError),
}

/// The phase of a RISC Zero failure.
pub open spec fn risc0_phase(e: Risc0Error) -> Phase {
    match e {
        Risc0Error::Config(_) | Risc0Error::ComposeSpawn(_) | Risc0Error::ComposeFailed(_)
        | Risc0Error::ServiceHoldersExhausted => Phase::Setup,
        Risc0Error::Execute(_) => Phase::Execute,
        Risc0Error::DecodeProof(_) | Risc0Error::Verify(_) => Phase::Verify,
        _ => Phase::Prove,
    }
}

/// The phase of any failure.
pub open spec fn spec_phase(e: ZkvmError) -> Phase {
    match e {
        ZkvmError::Airbender(a) => match a {
            AirbenderError::CompileError(_) => Phase::Compile,
            AirbenderError::Execute(_) => Phase::Execute,
            AirbenderError::Prove(_) => Phase::Prove,
            AirbenderError::Verify(_) => Phase::Verify,
        },
        ZkvmError::Nexus(n) => match n {
            NexusError::Config(_) => Phase::Setup,
            NexusError::Compile(_) => Phase::Compile,
            NexusError::Prove(_) => Phase::Prove,
            NexusError::Verify(_) => Phase::Verify,
        },
        ZkvmError::Risc0(r) => risc0_phase(r),
        ZkvmError::Sp1(_) => Phase::Compile,
        ZkvmError::Zisk(z) => match z {
            ZiskError::Compile(_) => Phase::Compile,
            ZiskError::Execute(_) => Phase::Execute,
            ZiskError::ProveNotImplemented => Phase::Prove,
            ZiskError::VerifyNotImplemented => Phase::Verify,
        },
    }
}

impl ZkvmError {
    /// The phase this failure belongs to, whatever the backend.
    pub fn phase(&self) -> (r: Phase)
        ensures
            r == spec_phase(*self),
    {
        match self {
            ZkvmError::Airbender(a) => match a {
                AirbenderError::CompileError(_) => Phase::Compile,
                AirbenderError::Execute(_) => Phase::Execute,
                AirbenderError::Prove(_) => Phase::Prove,
                AirbenderError::Verify(_) => Phase::Verify,
            },
            ZkvmError::Nexus(n) => match n {
                NexusError::Config(_) => Phase::Setup,
                NexusError::Compile(_) => Phase::Compile,
                NexusError::Prove(_) => Phase::Prove,
                NexusError::Verify(_) => Phase::Verify,
            },
            ZkvmError::Risc0(r) => match r {
                Risc0Error::Config(_) | Risc0Error::ComposeSpawn(_) | Risc0Error::ComposeFailed(_)
                | Risc0Error::ServiceHoldersExhausted => Phase::Setup,
                Risc0Error::Execute(_) => Phase::Execute,
                Risc0Error::DecodeProof(_) | Risc0Error::Verify(_) => Phase::Verify,
                _ => Phase::Prove,
            },
            ZkvmError::Sp1(_) => Phase::Compile,
            ZkvmError::Zisk(z) => match z {
                ZiskError::Compile(_) => Phase::Compile,
                ZiskError::Execute(_) => Phase::Execute,
                ZiskError::ProveNotImplemented => Phase::Prove,
                ZiskError::VerifyNotImplemented => Phase::Verify,
            },
        }
    }

    /// Whether the backend cannot perform the operation at all, as opposed
    /// to one attempt of it failing.
    pub fn is_not_implemented(&self) -> (r: bool)
        ensures
            r == (*self matches ZkvmError::Zisk(ZiskError::ProveNotImplemented)
                || *self matches ZkvmError::Zisk(ZiskError::VerifyNotImplemented)
                || *self matches ZkvmError::Risc0(
                Risc0Error::Config(crate::risc0::ConfigError::NetworkUnsupported),
            ) || *self matches ZkvmError::Nexus(
                NexusError::Config(crate::risc0::ConfigError::NetworkUnsupported),
            )),
    {
        match self {
            ZkvmError::Zisk(ZiskError::ProveNotImplemented) => true,
            ZkvmError::Zisk(ZiskError::VerifyNotImplemented) => true,
            ZkvmError::Risc0(Risc0Error::Config(crate::risc0::ConfigError::NetworkUnsupported)) => true,
            ZkvmError::Nexus(NexusError::Config(crate::risc0::ConfigError::NetworkUnsupported)) => true,
            _ => false,
        }
    }
}

} // verus!
