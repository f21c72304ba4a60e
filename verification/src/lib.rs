pub mod api_version;
pub mod container;
pub mod generators;
pub mod manifest;
pub mod named;
pub mod output;
pub mod payload;
pub mod provisioner;
pub mod resource;
pub mod service;
pub mod string_map;
pub mod text;
pub mod values;

pub use generators::generate_all_resources;
pub use values::Values;
