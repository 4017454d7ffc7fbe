//! Rust backend for the neutral declaration model.
pub mod attributes;
pub mod backend;
pub mod constant_types;
pub mod define_types;
pub mod enum_types;
pub mod field_types;
pub mod function_types;
pub mod generic_types;
pub mod module_from_ir;
pub mod namespace_types;
pub mod struct_types;
pub mod trait_types;
pub mod visibility;

pub use backend::RustBackend;
pub use constant_types::{RustConstant, RustConstantRenderOptions};
pub use define_types::{RustDefinition, RustDefinitionRenderOptions};
pub use enum_types::{RustEnum, RustEnumRenderOptions, RustEnumVariant, RustEnumVariantRenderOptions, RustEnumVariantValue};
pub use field_types::{RustField, RustFieldRenderOptions};
pub use function_types::{RustFunction, RustFunctionRenderOptions, RustParameter, RustSelfKind};
pub use generic_types::RustGenericArgument;
pub use namespace_types::{RustModule, RustModuleRenderOptions};
pub use struct_types::{RustStruct, RustStructRenderOptions};
pub use trait_types::{RustExternBlock, RustTrait};
pub use visibility::RustVisibility;
