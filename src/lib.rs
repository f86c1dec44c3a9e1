//! Trust layer of a credential-vault server: purpose-scoped tokens, the
//! request authorization chain and the time-gated emergency-access workflow.
pub mod text;
pub mod token;
pub mod signature;
pub mod guard;
pub mod emergency;
pub mod store;
pub mod scheduler;
pub mod attachment;

