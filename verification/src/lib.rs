//! The core of a zero-knowledge virtual machine's proof pipeline: the Fiat-Shamir transcript
//! that turns an interactive argument into a non-interactive one, and the container that
//! carries a finished proof over the wire. Beside them stand the plans of the command line:
//! what a new project consists of, and what installing the toolchains does step by step.

pub mod bytes;
pub mod error;
pub mod scalar;
pub mod group;
pub mod transcript;
pub mod container;
pub mod project;
pub mod toolchain;
pub mod welcome;
