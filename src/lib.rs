//! Creating merge requests on a GitLab server: title formatting, API routes,
//! response settlement and the per-branch request sequence, kept free of I/O so
//! that every decision is verified. The program around it performs the calls.

pub mod accessor;
pub mod manager;
pub mod merge_request;
pub mod models;
pub mod registry;
pub mod routes;
pub mod title;
