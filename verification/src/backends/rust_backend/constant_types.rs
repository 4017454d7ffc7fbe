use vstd::prelude::*;

use crate::backends::BackendItem;
use crate::conversion::{ConversionLog, ConversionResult, WarningText, unsupported, feature_warning};
use crate::ir::LanguageConstant;
use super::visibility::{rust_visibility_ir, rust_visibility_from_ir, rust_visibility_from_ir_warnings};

use super::RustVisibility;

verus! {

/// Represents a Rust constant (`const`) or `static` item.
#[derive(Debug, Clone)]
pub struct RustConstant {
    /// The name of the constant.
    pub name: String,
    /// The visibility of the constant.
    pub visibility: RustVisibility,
    /// The type of the constant.
    pub data_type: String,
    /// The value expression of the constant.
    pub value: String,
    /// Whether to emit `static` instead of `const`.
    pub is_static: bool,
    /// Optional documentation for the constant.
    pub docs: Option<Vec<String>>,
}

/// Render options for Rust constants.
#[derive(Debug, Clone, Copy)]
pub struct RustConstantRenderOptions {
    /// Whether to render documentation comments.
    pub render_docs: bool,
}

impl RustConstantRenderOptions {
    /// The given options, or the defaults (docs rendered).
    pub open spec fn or_default(o: Option<&Self>) -> Self {
        match o {
            Some(o) => *o,
            None => RustConstantRenderOptions { render_docs: true },
        }
    }
}

impl Default for RustConstantRenderOptions {
    fn default() -> (r: Self)
        ensures
            r.render_docs,
    {
        RustConstantRenderOptions { render_docs: true }
    }
}


/// Conversion options for Rust constants (there are none).
#[derive(Debug, Clone, Copy)]
pub struct RustConstantConversionOptions {}

impl Default for RustConstantConversionOptions {
    fn default() -> (r: Self) {
        RustConstantConversionOptions {  }
    }
}

impl BackendItem for RustConstant {
    type IrType = LanguageConstant;
    type ConversionOptions = RustConstantConversionOptions;

    fn to_ir(self, options: Option<&RustConstantConversionOptions>) -> (r: ConversionResult<LanguageConstant>)
        ensures
            r.value.name == self.name,
            r.value.visibility == rust_visibility_ir(self.visibility),
            r.value.data_type == self.data_type,
            r.value.value == self.value,
            r.value.docs == self.docs,
            r.log@ == (if self.is_static {
            seq![unsupported("`static` item `"@ + self.name@ + "`"@, "lowered to a plain constant in the language-agnostic IR"@)]
        } else {
            Seq::<WarningText>::empty()
        }),
    {
        let mut log = ConversionLog::new();
        if self.is_static {
            log.add_warning(feature_warning(
                "`static` item `",
                self.name.as_str(),
                "`",
                "lowered to a plain constant in the language-agnostic IR",
            ));
        }
        let visibility = self.visibility.to_ir(None);
        log.add_warnings(visibility.log.warnings);
        proof {
            assert(log@ =~= (if self.is_static {
            seq![unsupported("`static` item `"@ + self.name@ + "`"@, "lowered to a plain constant in the language-agnostic IR"@)]
        } else {
            Seq::<WarningText>::empty()
        }));
        }
        ConversionResult::with_log(
            LanguageConstant {
                name: self.name,
                visibility: visibility.value,
                data_type: self.data_type,
                value: self.value,
                docs: self.docs,
            },
            log,
        )
    }

    fn from_ir(input: LanguageConstant, options: Option<&RustConstantConversionOptions>) -> (r: ConversionResult<Self>)
        ensures
            r.value.name == input.name,
            r.value.visibility == rust_visibility_from_ir(input.visibility),
            r.value.data_type == input.data_type,
            r.value.value == input.value,
            r.value.docs == input.docs,
            !r.value.is_static,
            r.log@ == rust_visibility_from_ir_warnings(input.visibility),
    {
        let ghost v = input.visibility;
        let visibility = RustVisibility::from_ir(input.visibility, None);
        let mut log = ConversionLog::new();
        log.add_warnings(visibility.log.warnings);
        assert(log@ =~= rust_visibility_from_ir_warnings(v));
        ConversionResult::with_log(
            RustConstant {
                name: input.name,
                visibility: visibility.value,
                data_type: input.data_type,
                value: input.value,
                is_static: false,
                docs: input.docs,
            },
            log,
        )
    }
}

} // verus!
