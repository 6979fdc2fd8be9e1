//! The policy core of a catalog backend: identities and signed tokens, the
//! authorization gate, the fetch-modify-validate update protocol of each
//! entity, and the parameterized search-query builder.
pub mod authentication;
pub mod authorization;
pub mod bindings;
pub mod identity;
pub mod models;
pub mod query;
pub mod rpc;
pub mod validation;
pub mod view_models;
