//! Publication and resolution of static sites hosted under their own hosts.
//!
//! Uploaded sites are validated (plain HTML and CSS files, or one zip archive that is
//! extracted), given an identity, recorded as site and file rows, uploaded under
//! `sites/{id}/`, and announced in a routing cache written under its version tag.
//! Requests `{host}/{subpath}` are resolved to one stored file, with the index-file
//! fallback at a site's root. The request flows are state machines: the caller performs
//! each action against the stores and reports back what happened.
use vstd::prelude::*;

pub mod archive;
pub mod config;
pub mod error;
pub mod flow;
pub mod laws;
pub mod models;
pub mod objects;
pub mod publish;
pub mod resolve;
pub mod routing;
pub mod text;
pub mod upload_file;
pub mod validate;
