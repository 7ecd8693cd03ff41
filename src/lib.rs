//! OAuth device-authorization sign-in against a provider, exchange of the
//! provider's access token for a service credential, and the rules that govern
//! the stored credential's lifetime.
//!
//! Everything here is decision logic with contracts; the network, the file
//! system and the process environment are driven by the caller, which hands the
//! results back as plain values.
mod json;
mod paths;
mod text;

pub mod approval;
pub mod device_flow;
pub mod exchange;
pub mod store;
pub mod token;

pub use token::CopilotToken;
