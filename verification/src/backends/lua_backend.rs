//! Lua backend for the native declaration model.
//!
//! Lua is the thinnest backend: the language has no types, no visibility, no
//! classes, and no generics. The native model holds only what Lua expresses —
//! a module table (`local M = {}` ... `return M`), untyped functions,
//! free-form field assignments, and constant tables standing for enums.

pub mod backend;
pub mod enum_types;
pub mod function_types;
pub mod module_types;

pub use backend::LuaBackend;
pub use enum_types::{LuaEnum, LuaEnumMember, LuaEnumRenderOptions};
pub use function_types::{LuaFunction, LuaFunctionRenderOptions};
pub use module_types::{LuaField, LuaModule, LuaModuleConversionOptions, LuaModuleRenderOptions};
