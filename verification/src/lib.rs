//! The decisions behind the Kalkki desktop shell.
//!
//! The shell itself is a thin layer over a web-view framework: it attaches
//! plugins, exposes one command to the front-end and enters the event loop.
//! What it attaches, in which order, and what becomes of a failure is decided
//! here, apart from the framework, so that each decision has a contract.

pub mod failure;
pub mod launch;
pub mod level;
