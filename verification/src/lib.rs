//! Per-component invocation context of a distributed WebAssembly component
//! host.
//!
//! For every outbound call a running component makes, this library decides
//! where the call goes (a component hosted in the same process, or a remote
//! entity on the cluster-wide message bus) and how bytes move to and from that
//! destination: link-name selection and resolution over a routing table, a
//! dual-path invocation dispatcher with an in-process single-slot stream
//! bridge, a messaging facade that reconciles two generations of a pub/sub
//! contract with a transport-fallback policy, a reveal-gated secrets cache, a
//! configuration snapshot view, and a transport-failure classifier.
//!
//! The library itself performs no I/O: the surrounding host owns the message
//! bus, the component execution runtime and the shared locks, and drives the
//! decisions made here.

pub mod dispatch;
pub mod errors;
pub mod handler;
pub mod iface;
pub mod logging;
pub mod messaging;
pub mod secrets;
pub mod stream;
pub mod strmap;
