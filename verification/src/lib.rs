//! The decisions of a small user-directory service: which statement each
//! repository operation sends to the store, which response each store answer
//! earns, and in which order the store is brought up at start.

pub mod handlers;
pub mod repository;
pub mod setup;
pub mod user;
