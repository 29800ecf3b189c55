//! Server-side verification for U2F security keys: challenge handling, minimal
//! DER length decoding, registration and authentication checks.

pub mod authorization;
pub mod crypto;
pub mod register;
pub mod u2ferror;
pub mod util;
