use vstd::prelude::*;

use crate::conversion::ConversionConfig;

use super::attributes::{alignment_of, cpp_foreign_warnings, last_alignment, lemma_no_cpp_foreign_warnings, report_foreign_cpp};
use super::visibility::{cpp_visibility_from_ir, cpp_visibility_from_ir_warnings, cpp_visibility_ir};
use super::CppVisibility;
use crate::backends::BackendItem;
use crate::conversion::{feature_warning, unsupported, ConversionLog, ConversionResult, WarningText};
use crate::ir::{Annotation, LanguageField, TargetLanguage};
use crate::text::push_str;

verus! {

/// Represents a field in a C++ struct.
#[derive(Debug, Clone, PartialEq)]
pub struct CppField {
    /// The name of the field.
    pub name: String,
    /// The type of the field.
    pub field_type: String,
    /// The visibility of the field.
    pub visibility: CppVisibility,
    /// The size of the array if the field is an array.
    pub array_size: Option<String>,
    /// Bit field size (can be a number or a macro/define name).
    pub bit_field_size: Option<String>,
    /// Over-alignment for this field (`alignas(N)`); `None` = natural alignment.
    pub alignment: Option<u32>,
    /// Whether the field is static.
    pub is_static: bool,
    /// Whether the field is const.
    pub is_const: bool,
    /// Whether the field is inline.
    pub is_inline: bool,
    /// Optional initialization value for the field.
    pub initialization_value: Option<String>,
    /// Inline comment for the field.
    pub inline_comment: Option<String>,
    /// Documentation for the field.
    pub docs: Option<Vec<String>>,
}

/// Render options for C++ fields.
#[derive(Debug, Clone, Copy)]
pub struct CppFieldRenderOptions {
    /// Whether to include field initializers in the declaration.
    pub render_initializers: bool,
    /// Whether to render static fields with their storage class specifier.
    pub render_static_specifier: bool,
    /// Whether to render const fields with their const qualifier.
    pub render_const_qualifier: bool,
    /// Whether to render documentation comments.
    pub render_docs: bool,
}

impl CppFieldRenderOptions {
    /// The default options: everything rendered.
    pub open spec fn spec_default() -> Self {
        CppFieldRenderOptions {
            render_initializers: true,
            render_static_specifier: true,
            render_const_qualifier: true,
            render_docs: true,
        }
    }
}

impl Default for CppFieldRenderOptions {
    fn default() -> (r: Self)
        ensures
            r == Self::spec_default(),
    {
        CppFieldRenderOptions {
            render_initializers: true,
            render_static_specifier: true,
            render_const_qualifier: true,
            render_docs: true,
        }
    }
}


/// The warning for a part of the field `name` that the IR drops.
pub open spec fn field_feature_warning(what: Seq<char>, name: Seq<char>, resolution: Seq<char>) -> WarningText {
    unsupported(what + " on field `"@ + name + "`"@, resolution)
}

/// What converting a C++ field to the IR loses: its array dimension, bit-field width, `inline`,
/// initializer and inline comment, in that order.
pub open spec fn cpp_field_ir_warnings(f: CppField) -> Seq<WarningText> {
    (if f.array_size is Some {
        seq![field_feature_warning("C array dimension"@, f.name@, "array size dropped; encode it in the field type if needed"@)]
    } else {
        Seq::empty()
    }) + (if f.bit_field_size is Some {
        seq![field_feature_warning("C bit-field"@, f.name@, "bit-field width dropped from the language-agnostic IR"@)]
    } else {
        Seq::empty()
    }) + (if f.is_inline {
        seq![field_feature_warning("`inline` specifier"@, f.name@, "inline specifier dropped from the language-agnostic IR"@)]
    } else {
        Seq::empty()
    }) + (if f.initialization_value is Some {
        seq![field_feature_warning("initializer"@, f.name@, "field initializer dropped from the language-agnostic IR"@)]
    } else {
        Seq::empty()
    }) + (if f.inline_comment is Some {
        seq![field_feature_warning("inline comment"@, f.name@, "inline comment dropped from the language-agnostic IR"@)]
    } else {
        Seq::empty()
    })
}

/// Whether `r` is the IR of the C++ field `f`: the same name, type, storage and docs, its
/// visibility converted, and its alignment as an annotation.
pub open spec fn cpp_field_ir_is(r: LanguageField, f: CppField) -> bool {
    &&& r.name == f.name
    &&& r.field_type == f.field_type
    &&& r.visibility == cpp_visibility_ir(f.visibility)
    &&& r.is_static == f.is_static
    &&& r.is_const == f.is_const
    &&& r.docs == f.docs
    &&& r.annotations@ == (match f.alignment {
        Some(n) => seq![Annotation::Aligned(n)],
        None => Seq::empty(),
    })
    &&& r.raw_attributes@.len() == 0
}

/// The warning for a part of the field `name`.
fn field_warning(what: &str, name: &str, resolution: &str) -> (w: crate::conversion::ConversionWarning)
    ensures
        w@ == field_feature_warning(what@, name@, resolution@),
{
    let mut pre = String::new();
    push_str(&mut pre, what);
    push_str(&mut pre, " on field `");
    feature_warning(pre.as_str(), name, "`", resolution)
}

impl CppField {
    /// Converts the field to the IR, reporting what the IR has no place for.
    fn convert(self) -> (r: ConversionResult<LanguageField>)
        ensures
            cpp_field_ir_is(r.value, self),
            r.log@ == cpp_field_ir_warnings(self),
    {
        let ghost f = self;
        let mut log = ConversionLog::new();
        let visibility = self.visibility.to_ir(None);
        if self.array_size.is_some() {
            log.add_warning(field_warning("C array dimension", self.name.as_str(), "array size dropped; encode it in the field type if needed"));
        }
        if self.bit_field_size.is_some() {
            log.add_warning(field_warning("C bit-field", self.name.as_str(), "bit-field width dropped from the language-agnostic IR"));
        }
        let mut annotations: Vec<Annotation> = Vec::new();
        if let Some(alignment) = self.alignment {
            annotations.push(Annotation::Aligned(alignment));
        }
        if self.is_inline {
            log.add_warning(field_warning("`inline` specifier", self.name.as_str(), "inline specifier dropped from the language-agnostic IR"));
        }
        if self.initialization_value.is_some() {
            log.add_warning(field_warning("initializer", self.name.as_str(), "field initializer dropped from the language-agnostic IR"));
        }
        if self.inline_comment.is_some() {
            log.add_warning(field_warning("inline comment", self.name.as_str(), "inline comment dropped from the language-agnostic IR"));
        }
        assert(log@ =~= cpp_field_ir_warnings(f));
        assert(annotations@ =~= (match f.alignment {
            Some(n) => seq![Annotation::Aligned(n)],
            None => Seq::empty(),
        }));
        ConversionResult::with_log(
            LanguageField {
                name: self.name,
                field_type: self.field_type,
                visibility: visibility.value,
                is_static: self.is_static,
                is_const: self.is_const,
                docs: self.docs,
                annotations,
                raw_attributes: Vec::new(),
            },
            log,
        )
    }

    /// Converts the field to the IR, reporting what the IR has no place for.
    pub fn to_ir(self, options: Option<&CppFieldConversionOptions>) -> (r: ConversionResult<LanguageField>)
        ensures
            cpp_field_ir_is(r.value, self),
            r.log@ == cpp_field_ir_warnings(self),
    {
        self.convert()
    }
}


/// No loss goes unreported: a C++ field whose conversion to the IR logs no warning has no array
/// dimension, bit-field width, `inline`, initializer or inline comment.
pub proof fn cpp_field_conversion_reports_every_loss(f: CppField)
    requires
        cpp_field_ir_warnings(f).len() == 0,
    ensures
        f.array_size is None && f.bit_field_size is None && !f.is_inline,
        f.initialization_value is None && f.inline_comment is None,
{
}


/// Conversion options for C++ fields: the conversion's configuration.
#[derive(Clone)]
pub struct CppFieldConversionOptions {
    /// The conversion configuration (the user's hooks).
    pub config: ConversionConfig,
}

impl Default for CppFieldConversionOptions {
    fn default() -> (r: Self)
        ensures
            r.config.hooks is None,
    {
        CppFieldConversionOptions { config: ConversionConfig::default() }
    }
}

impl CppFieldConversionOptions {
    /// Whether options are given and carry hooks.
    pub open spec fn hooked(o: Option<&Self>) -> bool {
        o matches Some(x) && x.config.hooks is Some
    }
}

/// What the configuration of a conversion made of an IR field's name and type: the field's
/// C++ name and C++ type.
pub struct CppFieldNames {
    pub name: ConversionResult<String>,
    pub field_type: ConversionResult<String>,
}

/// What converting an IR field to C++ loses: what its visibility loses, what type mapping
/// reports, each raw attribute of another language, then what renaming reports.
pub open spec fn cpp_field_from_ir_warnings(input: LanguageField, names: CppFieldNames) -> Seq<WarningText> {
    cpp_visibility_from_ir_warnings(input.visibility) + names.field_type.log@ + cpp_foreign_warnings(
        input.raw_attributes@,
    ) + names.name.log@
}

/// Whether `r` is the C++ field an IR field converts to, given its names: its visibility
/// converted, the alignment of its last `Aligned` annotation, `static` and `const` kept, and
/// no array size, bit-field width, `inline`, initializer or inline comment.
pub open spec fn cpp_field_from_ir_is(r: CppField, input: LanguageField, names: CppFieldNames) -> bool {
    &&& r.name == names.name.value
    &&& r.field_type == names.field_type.value
    &&& r.visibility == cpp_visibility_from_ir(input.visibility)
    &&& r.array_size is None && r.bit_field_size is None
    &&& r.alignment == last_alignment(input.annotations@)
    &&& r.is_static == input.is_static && r.is_const == input.is_const
    &&& !r.is_inline
    &&& r.initialization_value is None && r.inline_comment is None
    &&& r.docs == input.docs
}

impl CppField {
    /// Converts an IR field to C++, given its C++ name and type as the conversion's
    /// configuration resolved them.
    pub fn from_ir(input: LanguageField, names: CppFieldNames) -> (r: ConversionResult<CppField>)
        ensures
            cpp_field_from_ir_is(r.value, input, names),
            r.log@ == cpp_field_from_ir_warnings(input, names),
    {
        let ghost inp = input;
        let ghost nm = names;
        let mut log = ConversionLog::new();
        let visibility = CppVisibility::from_ir(input.visibility, None);
        log.add_warnings(visibility.log.warnings);
        let CppFieldNames { name, field_type } = names;
        log.add_warnings(field_type.log.warnings);
        let alignment = alignment_of(&input.annotations);
        report_foreign_cpp(&input.raw_attributes, &mut log);
        log.add_warnings(name.log.warnings);
        assert(log@ =~= cpp_field_from_ir_warnings(inp, nm));
        ConversionResult::with_log(
            CppField {
                name: name.value,
                field_type: field_type.value,
                visibility: visibility.value,
                array_size: None,
                bit_field_size: None,
                alignment,
                is_static: input.is_static,
                is_const: input.is_const,
                is_inline: false,
                initialization_value: None,
                inline_comment: None,
                docs: input.docs,
            },
            log,
        )
    }
}

/// No loss goes unreported on the way from the IR: an IR field whose conversion to C++ logs no
/// warning has a visibility C++ spells as it is, and only C++ raw attributes.
pub proof fn cpp_field_from_ir_reports_every_loss(input: LanguageField, names: CppFieldNames)
    requires
        cpp_field_from_ir_warnings(input, names).len() == 0,
    ensures
        cpp_visibility_ir(cpp_visibility_from_ir(input.visibility)) == input.visibility,
        forall|i: int|
            0 <= i < input.raw_attributes@.len() ==> (#[trigger] input.raw_attributes@[i]).source == TargetLanguage::Cpp,
{
    lemma_no_cpp_foreign_warnings(input.raw_attributes@);
}

} // verus!
