//! A fortune service's request logic: configuration rules, prompt
//! composition, the upstream request and reply formats, and the mapping of
//! every upstream outcome to the reply sent to the caller.
pub mod config;
pub mod handler;
pub mod prompt;
pub mod text;
pub mod upstream;
