//! A deterministic simulation harness: the simulation context consulted by
//! the interposed libc entry points, the scene registry and driver, the Info
//! message exchanged between the harness and a scene binary, target
//! selection, and the decisions of the fuzzer and of the determinism check.

pub mod bundle;
pub mod context;
pub mod determinism;
pub mod driver;
pub mod fuzz;
pub mod heap;
pub mod proto;
pub mod target;
pub mod text;
