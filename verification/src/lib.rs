//! Resolve a package identifier into one of four canonical URLs — homepage,
//! source repository, documentation, or registry listing page — from either
//! a local manifest document or a registry metadata record, applying the
//! documented fallback rules when a field is absent.

pub mod parse;
pub mod resolve;
pub mod urls;
