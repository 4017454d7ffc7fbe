use vstd::prelude::*;

use crate::backends::BackendItem;
use crate::conversion::{ConversionResult, WarningText};
use crate::ir::LanguageDefinition;

use crate::text::push_str;

verus! {

/// Represents a Rust lowering of a preprocessor-style define.
///
/// Rust has no preprocessor, so a C/C++ `#define` is lowered to a module-level constant.
/// A define with no value becomes a unit constant (`pub const NAME: () = ();`), preserving the
/// "is defined" marker.
#[derive(Debug, Clone, PartialEq)]
pub struct RustDefinition {
    /// The name of the define.
    pub name: String,
    /// The value expression, if any.
    pub value: Option<String>,
    /// Optional documentation for the define.
    pub docs: Option<Vec<String>>,
}

/// Render options for Rust definitions.
#[derive(Debug, Clone)]
pub struct RustDefinitionRenderOptions {
    /// The constant type to emit for a value-carrying define (defines are untyped in C).
    pub const_type: String,
    /// Whether to render documentation comments.
    pub render_docs: bool,
}

impl RustDefinitionRenderOptions {
    /// The constant type the options give, or `i64` by default.
    pub open spec fn const_type_or_default(o: Option<&Self>) -> Seq<char> {
        match o {
            Some(o) => o.const_type@,
            None => "i64"@,
        }
    }

    /// Whether the options render docs (they do by default).
    pub open spec fn render_docs_or_default(o: Option<&Self>) -> bool {
        match o {
            Some(o) => o.render_docs,
            None => true,
        }
    }
}

impl Default for RustDefinitionRenderOptions {
    fn default() -> (r: Self)
        ensures
            r.const_type@ == "i64"@,
            r.render_docs,
    {
        let mut const_type = String::new();
        push_str(&mut const_type, "i64");
        assert(const_type@ =~= "i64"@);
        RustDefinitionRenderOptions { const_type, render_docs: true }
    }
}


/// Conversion options for Rust defines (there are none).
#[derive(Debug, Clone, Copy)]
pub struct RustDefinitionConversionOptions {}

impl Default for RustDefinitionConversionOptions {
    fn default() -> (r: Self) {
        RustDefinitionConversionOptions {  }
    }
}

impl BackendItem for RustDefinition {
    type IrType = LanguageDefinition;
    type ConversionOptions = RustDefinitionConversionOptions;

    /// A define converts to the IR without loss.
    fn to_ir(self, options: Option<&RustDefinitionConversionOptions>) -> (r: ConversionResult<LanguageDefinition>)
        ensures
            r.value.name == self.name,
            r.value.value == self.value,
            r.value.docs == self.docs,
            r.log@ == Seq::<WarningText>::empty(),
    {
        ConversionResult::new(LanguageDefinition { name: self.name, value: self.value, docs: self.docs })
    }

    /// An IR define converts without loss.
    fn from_ir(input: LanguageDefinition, options: Option<&RustDefinitionConversionOptions>) -> (r: ConversionResult<Self>)
        ensures
            r.value.name == input.name,
            r.value.value == input.value,
            r.value.docs == input.docs,
            r.log@ == Seq::<WarningText>::empty(),
    {
        ConversionResult::new(RustDefinition { name: input.name, value: input.value, docs: input.docs })
    }
}

} // verus!
