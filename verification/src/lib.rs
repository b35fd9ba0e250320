//! The core of a harness that serves one synthetic payload stream over two
//! transports: a multiplexed transport with datagrams and streams, and a
//! framed socket behind TLS.

pub mod browser;
pub mod certificate;
pub mod counter;
pub mod fingerprint;
pub mod frame;
pub mod handler;
pub mod listener;
pub mod orchestrator;
