//! Core logic of a local development proxy for scripts deployed to a remote
//! preview service: listen-address resolution, preview session tokens, the
//! header and redirect rewriting applied to proxied traffic, and the
//! classification of inspector events; plus the small pure helpers that the
//! surrounding tool relies on (bundle paths, asset keys, credential
//! resolution, target validation).
pub mod text;
pub mod server_config;
pub mod headers;
pub mod redirect;
pub mod preview;
pub mod inspector;
pub mod bucket;
pub mod wranglerjs;
pub mod kv;
pub mod install;
pub mod package;
pub mod settings;
pub mod project;
pub mod publish;
