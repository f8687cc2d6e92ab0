//! The rules by which a desktop client reaches Jira and Tempo:
//! where a request goes, how it authenticates, and what its answer means.

pub mod auth;
pub mod auth_laws;
pub mod error;
pub mod method;
pub mod request;
pub mod response;
pub mod text;
pub mod text_laws;
pub mod url;
pub mod url_laws;
