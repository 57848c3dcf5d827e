//! Identity and authenticated-delivery core of an ActivityPub node: per-user
//! key material, canonical actor and WebFinger documents, `acct:` resource
//! parsing, Create(Note) activities and HTTP signatures.

pub mod uris;
pub mod crypto;
pub mod error;
pub mod acct;
pub mod user_repository;
pub mod documents;
pub mod signature;
pub mod service;
