//! A small command-construction and subprocess-observation layer for an
//! external containerization tool.
//!
//! Builders assemble ordered argument lists for the tool's `build`, `create`
//! and `cp` operations; a run of the tool is observed as a sequence of output
//! lines and an optional exit code, which the capture types normalize into a
//! process result. Launching the child process and draining its pipes is I/O
//! and lives outside this library; everything that decides or computes —
//! argument order, line trimming and accumulation, echo formatting, exit
//! status resolution, derived identifiers — is verified here.

pub mod command;
pub mod process;
pub mod text;
