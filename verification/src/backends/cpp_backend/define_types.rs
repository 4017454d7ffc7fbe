use vstd::prelude::*;

use crate::backends::BackendItem;
use crate::conversion::{ConversionResult, WarningText};
use crate::ir::LanguageDefinition;

verus! {

/// Represents a C++ define.
#[derive(Debug, Clone)]
pub struct CppDefinition {
    /// The name of the define.
    pub name: String,
    /// The value of the define.
    pub value: Option<String>,
    /// Documentation for the define.
    pub docs: Option<Vec<String>>,
}

/// Render options for C++ defines.
#[derive(Debug, Clone, Copy)]
pub struct CppDefinitionRenderOptions {
    /// Whether to render documentation comments.
    pub render_docs: bool,
}

impl CppDefinitionRenderOptions {
    /// The given options, or the defaults (docs rendered).
    pub open spec fn or_default(o: Option<&Self>) -> Self {
        match o {
            Some(o) => *o,
            None => CppDefinitionRenderOptions { render_docs: true },
        }
    }
}

impl Default for CppDefinitionRenderOptions {
    fn default() -> (r: Self)
        ensures
            r.render_docs,
    {
        CppDefinitionRenderOptions { render_docs: true }
    }
}


/// Conversion options for C++ defines (there are none).
#[derive(Debug, Clone, Copy)]
pub struct CppDefinitionConversionOptions {}

impl Default for CppDefinitionConversionOptions {
    fn default() -> (r: Self) {
        CppDefinitionConversionOptions {  }
    }
}

impl BackendItem for CppDefinition {
    type IrType = LanguageDefinition;
    type ConversionOptions = CppDefinitionConversionOptions;

    /// A define converts to the IR without loss.
    fn to_ir(self, options: Option<&CppDefinitionConversionOptions>) -> (r: ConversionResult<LanguageDefinition>)
        ensures
            r.value.name == self.name,
            r.value.value == self.value,
            r.value.docs == self.docs,
            r.log@ == Seq::<WarningText>::empty(),
    {
        ConversionResult::new(LanguageDefinition { name: self.name, value: self.value, docs: self.docs })
    }

    /// An IR define converts without loss.
    fn from_ir(input: LanguageDefinition, options: Option<&CppDefinitionConversionOptions>) -> (r: ConversionResult<Self>)
        ensures
            r.value.name == input.name,
            r.value.value == input.value,
            r.value.docs == input.docs,
            r.log@ == Seq::<WarningText>::empty(),
    {
        ConversionResult::new(CppDefinition { name: input.name, value: input.value, docs: input.docs })
    }
}

} // verus!
