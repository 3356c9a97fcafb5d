//! A uniform adapter layer over several zkVM backends: the input model, the
//! resource-type dispatch, the error taxonomy and the decisions of the
//! external-process orchestration that every backend adapter shares.

pub mod input;
pub mod process;
pub mod report;
mod clock;
pub mod manifest;
pub mod airbender;
pub mod resource;
pub mod risc0;
pub mod bento;
pub mod docker;
pub mod sp1;
pub mod stats;
pub mod zisk;
pub mod nexus;
pub mod error;
