//! The logic of a command-line client for an OpenID Connect identity
//! provider: logging in by one of three flows, keeping the credential, and
//! adding resources at the provider with it.
//!
//! The library decides and computes; it does no input or output. A login is
//! a machine ([`flows`]): it tells its caller what to do next, a request to
//! send, a file to write, a listener to bind or to stop, and is told what
//! came of it. What is read from a file or received from the provider is
//! handed in as text, and what is to be sent or written is handed out as
//! text.
//!
//! Every function is verified against its contract. What the library takes
//! from other crates, the SHA-256 digest, random bytes, the reading and
//! writing of JSON and the making of URLs, it calls behind functions whose
//! contracts are believed and not proved; each of them says so.

pub mod add;
pub mod base64url;
pub mod cli;
pub mod discovery;
pub mod env;
pub mod error;
pub mod flows;
pub mod json;
pub mod logout;
pub mod payloads;
pub mod pkce;
pub mod query;
pub mod text;
pub mod token;
