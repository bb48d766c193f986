pub mod changelog;
pub mod commit_analyzer;
pub mod config;
pub mod github;
pub mod plan;
pub mod preflight;
pub mod text;
pub mod toml_file;
pub mod version;
pub mod workspace;
