//! Rendering of declarations (structs, enums, functions, namespaces, ...) as source text
//! for several target languages: C++, C#, Rust, Python, JavaScript and Lua.
pub mod backends;
pub mod conversion;
pub mod ir;
pub mod literal;
pub mod text;
pub mod type_map;
