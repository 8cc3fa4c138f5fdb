//! Orchestration around a TLS engine that works on in-memory buffers: the
//! retry-driven stream adapter, the classification of the engine's status
//! codes, the certificate verification bridge and the decisions that the
//! engine's locking callbacks make.
pub mod status;
pub mod locking;
pub mod stream;
pub mod x509;
pub mod context;
pub mod cipher;
