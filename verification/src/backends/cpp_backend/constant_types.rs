use vstd::prelude::*;

use crate::backends::BackendItem;
use crate::conversion::{ConversionLog, ConversionResult, WarningText};
use crate::ir::LanguageConstant;
use super::visibility::{cpp_visibility_ir, cpp_visibility_from_ir, cpp_visibility_from_ir_warnings};

use super::CppVisibility;

verus! {

/// Represents a C++ constant.
#[derive(Debug, Clone, PartialEq)]
pub struct CppConstant {
    /// The name of the constant.
    pub name: String,
    /// The visibility of the constant.
    pub visibility: CppVisibility,
    /// The data type of the constant.
    pub data_type: String,
    /// The value of the constant.
    pub value: String,
    /// Optional documentation for the constant.
    pub docs: Option<Vec<String>>,
}

/// Render options for C++ constants.
#[derive(Debug, Clone, Copy)]
pub struct CppConstantRenderOptions {
    /// Whether to use constexpr instead of const.
    pub use_constexpr: bool,
    /// Whether to include inline specifier for constants.
    pub use_inline: bool,
    /// Whether to render documentation comments.
    pub render_docs: bool,
}

impl CppConstantRenderOptions {
    /// The default options: `const`, no `inline`, docs rendered.
    pub open spec fn spec_default() -> Self {
        CppConstantRenderOptions { use_constexpr: false, use_inline: false, render_docs: true }
    }

    /// The given options, or the defaults.
    pub open spec fn or_default(o: Option<&Self>) -> Self {
        match o {
            Some(o) => *o,
            None => Self::spec_default(),
        }
    }
}

impl Default for CppConstantRenderOptions {
    fn default() -> (r: Self)
        ensures
            r == Self::spec_default(),
    {
        CppConstantRenderOptions { use_constexpr: false, use_inline: false, render_docs: true }
    }
}


/// Conversion options for C++ constants (there are none).
#[derive(Debug, Clone, Copy)]
pub struct CppConstantConversionOptions {}

impl Default for CppConstantConversionOptions {
    fn default() -> (r: Self) {
        CppConstantConversionOptions {  }
    }
}

impl BackendItem for CppConstant {
    type IrType = LanguageConstant;
    type ConversionOptions = CppConstantConversionOptions;

    fn to_ir(self, options: Option<&CppConstantConversionOptions>) -> (r: ConversionResult<LanguageConstant>)
        ensures
            r.value.name == self.name,
            r.value.visibility == cpp_visibility_ir(self.visibility),
            r.value.data_type == self.data_type,
            r.value.value == self.value,
            r.value.docs == self.docs,
            r.log@ == (Seq::<WarningText>::empty()),
    {
        ConversionResult::new(LanguageConstant {
            name: self.name,
            visibility: self.visibility.to_ir(None).value,
            data_type: self.data_type,
            value: self.value,
            docs: self.docs,
        })
    }

    fn from_ir(input: LanguageConstant, options: Option<&CppConstantConversionOptions>) -> (r: ConversionResult<Self>)
        ensures
            r.value.name == input.name,
            r.value.visibility == cpp_visibility_from_ir(input.visibility),
            r.value.data_type == input.data_type,
            r.value.value == input.value,
            r.value.docs == input.docs,
            r.log@ == cpp_visibility_from_ir_warnings(input.visibility),
    {
        let ghost v = input.visibility;
        let visibility = CppVisibility::from_ir(input.visibility, None);
        let mut log = ConversionLog::new();
        log.add_warnings(visibility.log.warnings);
        assert(log@ =~= cpp_visibility_from_ir_warnings(v));
        ConversionResult::with_log(
            CppConstant {
                name: input.name,
                visibility: visibility.value,
                data_type: input.data_type,
                value: input.value,
                docs: input.docs,
            },
            log,
        )
    }
}

} // verus!
