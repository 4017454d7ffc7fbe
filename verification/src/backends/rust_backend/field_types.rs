use vstd::prelude::*;

use crate::conversion::ConversionConfig;

use super::attributes::{rust_attribute_warnings, warn_dropped_attributes};
use super::visibility::{rust_visibility_from_ir, rust_visibility_from_ir_warnings, rust_visibility_ir};
use super::RustVisibility;
use crate::backends::BackendItem;
use crate::conversion::{feature_warning, unsupported, ConversionLog, ConversionResult, WarningText};
use crate::ir::LanguageField;

verus! {

/// Represents a field of a Rust struct.
#[derive(Debug, Clone, PartialEq)]
pub struct RustField {
    /// The name of the field.
    pub name: String,
    /// The type of the field.
    pub field_type: String,
    /// The visibility of the field.
    pub visibility: RustVisibility,
    /// Attributes applied to the field (e.g. `#[serde(default)]`), without the leading `#[`.
    pub attributes: Vec<String>,
    /// Optional documentation for the field.
    pub docs: Option<Vec<String>>,
}

/// Render options for Rust fields.
#[derive(Debug, Clone, Copy)]
pub struct RustFieldRenderOptions {
    /// Whether to render documentation comments.
    pub render_docs: bool,
    /// Whether to render attributes.
    pub render_attributes: bool,
}

impl Default for RustFieldRenderOptions {
    fn default() -> (r: Self)
        ensures
            r.render_docs,
            r.render_attributes,
    {
        RustFieldRenderOptions { render_docs: true, render_attributes: true }
    }
}


/// What converting a Rust field to the IR loses: each of its attributes.
pub open spec fn rust_field_ir_warnings(f: RustField) -> Seq<WarningText> {
    rust_attribute_warnings(f.attributes@, "field"@, f.name@)
}

/// Whether `r` is the IR of the Rust field `f`: the same name, type and docs, its visibility
/// converted, an instance field, and no attributes.
pub open spec fn rust_field_ir_is(r: LanguageField, f: RustField) -> bool {
    &&& r.name == f.name
    &&& r.field_type == f.field_type
    &&& r.visibility == rust_visibility_ir(f.visibility)
    &&& !r.is_static
    &&& !r.is_const
    &&& r.docs == f.docs
    &&& r.annotations@.len() == 0
    &&& r.raw_attributes@.len() == 0
}

impl RustField {
    /// Converts the field to the IR, reporting its attributes as dropped.
    fn convert(self) -> (r: ConversionResult<LanguageField>)
        ensures
            rust_field_ir_is(r.value, self),
            r.log@ == rust_field_ir_warnings(self),
    {
        let mut log = ConversionLog::new();
        warn_dropped_attributes(&self.attributes, "field", self.name.as_str(), &mut log);
        let visibility = self.visibility.to_ir(None);
        log.add_warnings(visibility.log.warnings);
        assert(log@ =~= rust_field_ir_warnings(self));
        ConversionResult::with_log(
            LanguageField {
                name: self.name,
                field_type: self.field_type,
                visibility: visibility.value,
                is_static: false,
                is_const: false,
                docs: self.docs,
                annotations: Vec::new(),
                raw_attributes: Vec::new(),
            },
            log,
        )
    }

    /// Converts the field to the IR, reporting its attributes as dropped.
    pub fn to_ir(self, options: Option<&RustFieldConversionOptions>) -> (r: ConversionResult<LanguageField>)
        ensures
            rust_field_ir_is(r.value, self),
            r.log@ == rust_field_ir_warnings(self),
    {
        self.convert()
    }
}


/// Conversion options for Rust fields: the conversion's configuration.
#[derive(Clone)]
pub struct RustFieldConversionOptions {
    /// The conversion configuration (the user's hooks).
    pub config: ConversionConfig,
}

impl Default for RustFieldConversionOptions {
    fn default() -> (r: Self)
        ensures
            r.config.hooks is None,
    {
        RustFieldConversionOptions { config: ConversionConfig::default() }
    }
}

impl RustFieldConversionOptions {
    /// Whether options are given and carry hooks.
    pub open spec fn hooked(o: Option<&Self>) -> bool {
        o matches Some(x) && x.config.hooks is Some
    }
}


/// What the configuration of a conversion made of an IR field's name and type: the field's
/// Rust name and Rust type.
pub struct RustFieldNames {
    pub name: ConversionResult<String>,
    pub field_type: ConversionResult<String>,
}

/// What converting an IR field to Rust loses: `static` and `const`, then what renaming and type
/// mapping report, then what its visibility loses.
pub open spec fn rust_field_from_ir_warnings(input: LanguageField, names: RustFieldNames) -> Seq<WarningText> {
    (if input.is_static {
        seq![unsupported(
            "static field `"@ + input.name@ + "`"@,
            "Rust struct fields cannot be static; the modifier was dropped"@,
        )]
    } else {
        Seq::empty()
    }) + (if input.is_const {
        seq![unsupported(
            "const field `"@ + input.name@ + "`"@,
            "Rust struct fields cannot be const; the modifier was dropped"@,
        )]
    } else {
        Seq::empty()
    }) + names.name.log@ + names.field_type.log@ + rust_visibility_from_ir_warnings(input.visibility)
}

/// Whether `r` is the Rust field an IR field converts to, given its names: its visibility
/// converted, and no attributes.
pub open spec fn rust_field_from_ir_is(r: RustField, input: LanguageField, names: RustFieldNames) -> bool {
    &&& r.name == names.name.value
    &&& r.field_type == names.field_type.value
    &&& r.visibility == rust_visibility_from_ir(input.visibility)
    &&& r.attributes@.len() == 0
    &&& r.docs == input.docs
}

impl RustField {
    /// Converts an IR field to Rust, given its Rust name and type as the conversion's
    /// configuration resolved them.
    pub fn from_ir(input: LanguageField, names: RustFieldNames) -> (r: ConversionResult<RustField>)
        ensures
            rust_field_from_ir_is(r.value, input, names),
            r.log@ == rust_field_from_ir_warnings(input, names),
    {
        let ghost inp = input;
        let ghost nm = names;
        let mut log = ConversionLog::new();
        if input.is_static {
            log.add_warning(feature_warning(
                "static field `",
                input.name.as_str(),
                "`",
                "Rust struct fields cannot be static; the modifier was dropped",
            ));
        }
        if input.is_const {
            log.add_warning(feature_warning(
                "const field `",
                input.name.as_str(),
                "`",
                "Rust struct fields cannot be const; the modifier was dropped",
            ));
        }
        let RustFieldNames { name, field_type } = names;
        log.add_warnings(name.log.warnings);
        log.add_warnings(field_type.log.warnings);
        let visibility = RustVisibility::from_ir(input.visibility, None);
        log.add_warnings(visibility.log.warnings);
        assert(log@ =~= rust_field_from_ir_warnings(inp, nm));
        ConversionResult::with_log(
            RustField {
                name: name.value,
                field_type: field_type.value,
                visibility: visibility.value,
                attributes: Vec::new(),
                docs: input.docs,
            },
            log,
        )
    }
}

} // verus!
