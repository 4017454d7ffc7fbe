//! The language backends and what they have in common.
pub mod backend_feature;
pub mod backend_item;
pub mod backend_metadata;
pub mod cpp_backend;
pub mod csharp_backend;
pub mod js_backend;
pub mod lua_backend;
pub mod python_backend;
pub mod rust_backend;

pub use backend_feature::BackendFeature;
pub use backend_item::BackendItem;
pub use backend_metadata::BackendMetadata;
