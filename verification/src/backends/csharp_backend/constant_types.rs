use vstd::prelude::*;

use crate::backends::BackendItem;
use crate::conversion::{ConversionLog, ConversionResult};
use crate::ir::LanguageConstant;
use super::visibility::{csharp_visibility_ir, csharp_visibility_from_ir, csharp_visibility_from_ir_warnings, csharp_visibility_ir_warnings};

use super::CSharpVisibility;

verus! {

/// Represents a C# constant (`const` field).
#[derive(Debug, Clone, PartialEq)]
pub struct CSharpConstant {
    /// The name of the constant.
    pub name: String,
    /// The visibility of the constant.
    pub visibility: CSharpVisibility,
    /// The data type of the constant.
    pub data_type: String,
    /// The value of the constant.
    pub value: String,
    /// Optional documentation for the constant.
    pub docs: Option<Vec<String>>,
}

/// Render options for C# constants.
#[derive(Debug, Clone, Copy)]
pub struct CSharpConstantRenderOptions {
    /// Whether to render documentation comments.
    pub render_docs: bool,
}

impl CSharpConstantRenderOptions {
    /// The given options, or the defaults (docs rendered).
    pub open spec fn or_default(o: Option<&Self>) -> Self {
        match o {
            Some(o) => *o,
            None => CSharpConstantRenderOptions { render_docs: true },
        }
    }
}

impl Default for CSharpConstantRenderOptions {
    fn default() -> (r: Self)
        ensures
            r.render_docs,
    {
        CSharpConstantRenderOptions { render_docs: true }
    }
}


/// Conversion options for C# constants (there are none).
#[derive(Debug, Clone, Copy)]
pub struct CSharpConstantConversionOptions {}

impl Default for CSharpConstantConversionOptions {
    fn default() -> (r: Self) {
        CSharpConstantConversionOptions {  }
    }
}

impl BackendItem for CSharpConstant {
    type IrType = LanguageConstant;
    type ConversionOptions = CSharpConstantConversionOptions;

    fn to_ir(self, options: Option<&CSharpConstantConversionOptions>) -> (r: ConversionResult<LanguageConstant>)
        ensures
            r.value.name == self.name,
            r.value.visibility == csharp_visibility_ir(self.visibility),
            r.value.data_type == self.data_type,
            r.value.value == self.value,
            r.value.docs == self.docs,
            r.log@ == (csharp_visibility_ir_warnings(self.visibility)),
    {
        let visibility = self.visibility.to_ir(None);
        ConversionResult::with_log(
            LanguageConstant {
                name: self.name,
                visibility: visibility.value,
                data_type: self.data_type,
                value: self.value,
                docs: self.docs,
            },
            visibility.log,
        )
    }

    fn from_ir(input: LanguageConstant, options: Option<&CSharpConstantConversionOptions>) -> (r: ConversionResult<Self>)
        ensures
            r.value.name == input.name,
            r.value.visibility == csharp_visibility_from_ir(input.visibility),
            r.value.data_type == input.data_type,
            r.value.value == input.value,
            r.value.docs == input.docs,
            r.log@ == csharp_visibility_from_ir_warnings(input.visibility),
    {
        let ghost v = input.visibility;
        let visibility = CSharpVisibility::from_ir(input.visibility, None);
        let mut log = ConversionLog::new();
        log.add_warnings(visibility.log.warnings);
        assert(log@ =~= csharp_visibility_from_ir_warnings(v));
        ConversionResult::with_log(
            CSharpConstant {
                name: input.name,
                visibility: visibility.value,
                data_type: input.data_type,
                value: input.value,
                docs: input.docs,
            },
            log,
        )
    }
}

} // verus!
