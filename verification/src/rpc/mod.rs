//! Request/reply layer: failure codes and the errors of both peers.
pub mod client;
pub mod connection;
pub mod error;
pub mod server;

pub use client::RpcClient;
pub use connection::{Api, EndpointId, EndpointSet, Reply, Request};
pub use error::{
    ClientError, ExtCode, Failure, FailureCode, FailureCodeExt, ServerError, WireError,
};
pub use server::{Handler, RpcServer};
