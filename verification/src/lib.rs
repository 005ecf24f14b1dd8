//! A notes service, verified: the row mapper, the repository's four
//! operations read against a model of the notes table, and the state
//! machine that every request follows from its input to its reply.
//!
//! The relational store, the connection pool and the worker pool are not
//! part of this library. A caller performs what an [`routes::Action`] asks
//! for and hands back what happened as an [`routes::Event`].

pub mod failure;
pub mod ident;
pub mod clock;
pub mod notes;
pub mod storage;
pub mod repository;
pub mod routes;
