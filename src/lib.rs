//! Orchestration core of a middleware between a course-management backend and
//! a GitLab instance: the identity store that maps local identifiers to GitLab
//! ids, the authentication of inbound webhooks, the proxy rules for archive
//! downloads and commit pages, and the multi-step workflows that create and
//! delete GitLab resources.
pub mod error;
pub mod token;
pub mod net;
pub mod auth;
pub mod encoding;
pub mod proxy;
pub mod store;
pub mod requests;
pub mod flows;
