//! Resolution, caching and installation rules of a mod manager for a moddable
//! game server and client, with every rule stated as a contract.

pub mod cache_laws;
pub mod cache_mod_access;
pub mod cached_mod;
pub mod cached_mod_version;
pub mod configuration_access;
pub mod file_manager;
pub mod github_mod_repository;
pub mod html_parsers;
pub mod install_record;
pub mod mod_manifest;
pub mod rate_limit;
pub mod remote_mod_access;
pub mod shared_traits;
pub mod spt_access;
pub mod spt_mod_repository;
pub mod text;
pub mod time_access;
pub mod update;
pub mod url_access;
pub mod version;
pub mod zip_data;
