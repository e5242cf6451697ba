//! Building blocks shared by the registries: the expiring store and the token source.
pub mod cache;
pub mod token;
