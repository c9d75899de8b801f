//! Worker-side execution engine of the Flame batch-compute platform: the
//! executor's lifecycle state machine, the shim bridge that forwards lifecycle
//! calls to a user service, and the marshaling between wire descriptors and the
//! domain types that user code sees.
pub mod error;
pub mod wire;
pub mod context;
pub mod driver;
pub mod trace;
pub mod shim;
pub mod control;
