//! Sans-I/O core of a microservice framework: typed buses with routing,
//! an RPC failure taxonomy, and an in-process service runtime.
pub mod esb;
pub mod hex;
pub mod launcher;
pub mod peer;
pub mod rpc;
pub mod uservice;
pub mod uthread;
pub mod util;
