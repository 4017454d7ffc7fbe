use vstd::prelude::*;

use crate::conversion::ConversionConfig;

use super::attributes::{
    classify_csharp_attributes, csharp_annotations, csharp_kept_raw, csharp_raw_texts, foreign_attribute_warnings,
    push_csharp_raw, push_resolved, resolved_texts,
};
use super::visibility::{
    csharp_visibility_from_ir, csharp_visibility_from_ir_warnings, csharp_visibility_ir, csharp_visibility_ir_warnings,
};
use super::CSharpVisibility;
use crate::backends::BackendItem;
use crate::conversion::{feature_warning, unsupported, ConversionLog, ConversionResult, WarningText};
use crate::ir::{raw_attributes_are, LanguageField, TargetLanguage};
use crate::text::texts;

verus! {

/// Represents a field of a C# type.
#[derive(Debug, Clone, PartialEq)]
pub struct CSharpField {
    /// The name of the field.
    pub name: String,
    /// The type of the field.
    pub field_type: String,
    /// The visibility of the field.
    pub visibility: CSharpVisibility,
    /// Whether the field is `static`.
    pub is_static: bool,
    /// Whether the field is `const`.
    pub is_const: bool,
    /// Whether the field is `readonly`.
    pub is_readonly: bool,
    /// Optional initializer expression.
    pub initializer: Option<String>,
    /// Attributes applied to the field (without the leading `[`).
    pub attributes: Vec<String>,
    /// Documentation for the field.
    pub docs: Option<Vec<String>>,
}

/// Render options for C# fields.
#[derive(Debug, Clone, Copy)]
pub struct CSharpFieldRenderOptions {
    /// Whether to render documentation comments.
    pub render_docs: bool,
    /// Whether to render attributes.
    pub render_attributes: bool,
}

impl CSharpFieldRenderOptions {
    /// The default options: docs and attributes rendered.
    pub open spec fn spec_default() -> Self {
        CSharpFieldRenderOptions { render_docs: true, render_attributes: true }
    }
}

impl Default for CSharpFieldRenderOptions {
    fn default() -> (r: Self)
        ensures
            r == Self::spec_default(),
    {
        CSharpFieldRenderOptions { render_docs: true, render_attributes: true }
    }
}


/// What converting a C# field to the IR loses: `readonly`, the initializer, and what its
/// visibility loses.
pub open spec fn csharp_field_ir_warnings(f: CSharpField) -> Seq<WarningText> {
    (if f.is_readonly {
        seq![unsupported(
            "`readonly` on field `"@ + f.name@ + "`"@,
            "readonly modifier dropped from the language-agnostic IR"@,
        )]
    } else {
        Seq::empty()
    }) + (if f.initializer is Some {
        seq![unsupported(
            "initializer on field `"@ + f.name@ + "`"@,
            "field initializer dropped from the language-agnostic IR"@,
        )]
    } else {
        Seq::empty()
    }) + csharp_visibility_ir_warnings(f.visibility)
}

/// Whether `r` is the IR of the C# field `f`: the same name, type, storage and docs, its
/// visibility converted, and its attributes split into annotations and raw C# attributes.
pub open spec fn csharp_field_ir_is(r: LanguageField, f: CSharpField) -> bool {
    &&& r.name == f.name
    &&& r.field_type == f.field_type
    &&& r.visibility == csharp_visibility_ir(f.visibility)
    &&& r.is_static == f.is_static
    &&& r.is_const == f.is_const
    &&& r.docs == f.docs
    &&& r.annotations@ == csharp_annotations(f.attributes@)
    &&& raw_attributes_are(r.raw_attributes@, TargetLanguage::CSharp, csharp_raw_texts(f.attributes@))
}

impl CSharpField {
    /// Converts the field to the IR, reporting the modifiers the IR has no place for.
    fn convert(self) -> (r: ConversionResult<LanguageField>)
        ensures
            csharp_field_ir_is(r.value, self),
            r.log@ == csharp_field_ir_warnings(self),
    {
        let mut log = ConversionLog::new();
        if self.is_readonly {
            log.add_warning(feature_warning(
                "`readonly` on field `",
                self.name.as_str(),
                "`",
                "readonly modifier dropped from the language-agnostic IR",
            ));
        }
        if self.initializer.is_some() {
            log.add_warning(feature_warning(
                "initializer on field `",
                self.name.as_str(),
                "`",
                "field initializer dropped from the language-agnostic IR",
            ));
        }
        let (annotations, raw_attributes) = classify_csharp_attributes(&self.attributes);
        let visibility = self.visibility.to_ir(None);
        log.add_warnings(visibility.log.warnings);
        assert(log@ =~= csharp_field_ir_warnings(self));
        ConversionResult::with_log(
            LanguageField {
                name: self.name,
                field_type: self.field_type,
                visibility: visibility.value,
                is_static: self.is_static,
                is_const: self.is_const,
                docs: self.docs,
                annotations,
                raw_attributes,
            },
            log,
        )
    }

    /// Converts the field to the IR, reporting the modifiers the IR has no place for.
    pub fn to_ir(self, options: Option<&CSharpFieldConversionOptions>) -> (r: ConversionResult<LanguageField>)
        ensures
            csharp_field_ir_is(r.value, self),
            r.log@ == csharp_field_ir_warnings(self),
    {
        self.convert()
    }
}


/// Conversion options for C# fields: the conversion's configuration.
#[derive(Clone)]
pub struct CSharpFieldConversionOptions {
    /// The conversion configuration (the user's hooks).
    pub config: ConversionConfig,
}

impl Default for CSharpFieldConversionOptions {
    fn default() -> (r: Self)
        ensures
            r.config.hooks is None,
    {
        CSharpFieldConversionOptions { config: ConversionConfig::default() }
    }
}

impl CSharpFieldConversionOptions {
    /// Whether options are given and carry hooks.
    pub open spec fn hooked(o: Option<&Self>) -> bool {
        o matches Some(x) && x.config.hooks is Some
    }
}


/// What the configuration of a conversion made of an IR field's name, type and annotations:
/// the field's C# name, its C# type, and the C# attribute each annotation maps to, if any.
pub struct CSharpFieldNames {
    pub name: ConversionResult<String>,
    pub field_type: ConversionResult<String>,
    pub annotation_attributes: Vec<Option<String>>,
}

/// Whether `r` is the C# field an IR field converts to, given the names and attributes of its
/// conversion: not readonly and without initializer, its visibility converted, and as
/// attributes the resolved annotations, then its raw C# attributes.
pub open spec fn csharp_field_from_ir_is(r: CSharpField, input: LanguageField, names: CSharpFieldNames) -> bool {
    &&& r.name == names.name.value
    &&& r.field_type == names.field_type.value
    &&& r.visibility == csharp_visibility_from_ir(input.visibility)
    &&& r.is_static == input.is_static
    &&& r.is_const == input.is_const
    &&& !r.is_readonly
    &&& r.initializer is None
    &&& texts(r.attributes@) == resolved_texts(names.annotation_attributes@) + csharp_kept_raw(input.raw_attributes@)
    &&& r.docs == input.docs
}

/// What converting an IR field to C# loses: what renaming and type mapping report, what its
/// visibility loses, and each raw attribute of another language.
pub open spec fn csharp_field_from_ir_warnings(input: LanguageField, names: CSharpFieldNames) -> Seq<WarningText> {
    names.name.log@ + names.field_type.log@ + csharp_visibility_from_ir_warnings(input.visibility)
        + foreign_attribute_warnings(input.raw_attributes@)
}

impl CSharpField {
    /// Converts an IR field to C#, given the field's C# name and type and the C# attributes of
    /// its annotations as the conversion's configuration resolved them.
    pub fn from_ir(input: LanguageField, names: CSharpFieldNames) -> (r: ConversionResult<CSharpField>)
        ensures
            csharp_field_from_ir_is(r.value, input, names),
            r.log@ == csharp_field_from_ir_warnings(input, names),
    {
        let ghost inp = input;
        let ghost nm = names;
        let CSharpFieldNames { name, field_type, annotation_attributes } = names;
        let mut log = ConversionLog::new();
        log.add_warnings(name.log.warnings);
        log.add_warnings(field_type.log.warnings);
        let visibility = CSharpVisibility::from_ir(input.visibility, None);
        log.add_warnings(visibility.log.warnings);
        let mut attributes: Vec<String> = Vec::new();
        assert(texts(attributes@) =~= Seq::<Seq<char>>::empty());
        push_resolved(annotation_attributes, &mut attributes);
        push_csharp_raw(&input.raw_attributes, &mut attributes, &mut log);
        assert(log@ =~= csharp_field_from_ir_warnings(inp, nm));
        ConversionResult::with_log(
            CSharpField {
                name: name.value,
                field_type: field_type.value,
                visibility: visibility.value,
                is_static: input.is_static,
                is_const: input.is_const,
                is_readonly: false,
                initializer: None,
                attributes,
                docs: input.docs,
            },
            log,
        )
    }
}

} // verus!
