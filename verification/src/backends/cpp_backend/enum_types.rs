use vstd::prelude::*;

use crate::conversion::ConversionConfig;

use crate::backends::BackendItem;
use super::attributes::{cpp_foreign_warnings, report_foreign_cpp};
use super::visibility::cpp_visibility_from_ir_warnings;
use super::CppVisibility;
use crate::conversion::{
    feature_warning, flat, lemma_flat_all, lemma_flat_step, unsupported, ConversionLog, ConversionResult, WarningText,
};
use crate::ir::{EnumVariant, EnumVariantValue, LanguageEnum, Visibility};

verus! {

/// Represents a variant in a C++ enum.
#[derive(Debug, Clone, PartialEq)]
pub struct CppEnumVariant {
    /// The name of the variant.
    pub name: String,
    /// The value of the variant.
    pub value: Option<String>,
    /// Documentation for the variant.
    pub docs: Option<Vec<String>>,
}

/// Render options for C++ enum variants.
#[derive(Debug, Clone, Copy)]
pub struct CppEnumVariantRenderOptions {
    /// Whether to align the value of the variant with the variant name.
    pub align_value: bool,
    /// Whether to render documentation comments.
    pub render_docs: bool,
}

impl CppEnumVariantRenderOptions {
    /// The default options: no alignment, docs rendered.
    pub open spec fn spec_default() -> Self {
        CppEnumVariantRenderOptions { align_value: false, render_docs: true }
    }

    /// The given options, or the defaults.
    pub open spec fn or_default(o: Option<&Self>) -> Self {
        match o {
            Some(o) => *o,
            None => Self::spec_default(),
        }
    }
}

impl Default for CppEnumVariantRenderOptions {
    fn default() -> (r: Self)
        ensures
            r == Self::spec_default(),
    {
        CppEnumVariantRenderOptions { align_value: false, render_docs: true }
    }
}

/// Represents a C++ enum definition.
#[derive(Debug, Clone, PartialEq)]
pub struct CppEnum {
    /// The name of the enum.
    pub name: String,
    /// The variants of the enum.
    pub variants: Vec<CppEnumVariant>,
    /// Whether this is a enum class.
    pub is_enum_class: bool,
    /// The underlying type of the enum (e.g., `int32_t`).
    pub underlying_type: Option<String>,
    /// Documentation for the enum.
    pub docs: Option<Vec<String>>,
}

/// Render options for C++ enums.
#[derive(Debug, Clone, Copy)]
pub struct CppEnumRenderOptions {
    /// Whether to render documentation comments.
    pub render_docs: bool,
}

impl CppEnumRenderOptions {
    /// The given options, or the defaults (docs rendered).
    pub open spec fn or_default(o: Option<&Self>) -> Self {
        match o {
            Some(o) => *o,
            None => CppEnumRenderOptions { render_docs: true },
        }
    }
}

impl Default for CppEnumRenderOptions {
    fn default() -> (r: Self)
        ensures
            r.render_docs,
    {
        CppEnumRenderOptions { render_docs: true }
    }
}


/// Conversion options for C++ enum variants (there are none).
#[derive(Debug, Clone, Copy)]
pub struct CppEnumVariantConversionOptions {}

impl Default for CppEnumVariantConversionOptions {
    fn default() -> (r: Self) {
        CppEnumVariantConversionOptions {  }
    }
}

/// Whether `r` is the IR of the C++ enumerator `v`: its value, if any, and no attributes.
pub open spec fn cpp_variant_ir_is(r: EnumVariant, v: CppEnumVariant) -> bool {
    &&& r.name == v.name
    &&& match v.value {
        Some(x) => r.value matches EnumVariantValue::Value(w) && w == x,
        None => r.value is NoValue,
    }
    &&& r.docs == v.docs
    &&& r.raw_attributes@.len() == 0
}

/// What converting an IR variant to a C++ enumerator loses: a data payload.
pub open spec fn cpp_variant_from_ir_warnings(v: EnumVariant) -> Seq<WarningText> {
    match v.value {
        EnumVariantValue::Tuple(_) | EnumVariantValue::Struct(_) => seq![unsupported(
            "data-carrying payload on enum variant `"@ + v.name@ + "`"@,
            "C++ enums hold no per-variant data; payload dropped"@,
        )],
        _ => Seq::empty(),
    }
}

impl BackendItem for CppEnumVariant {
    type IrType = EnumVariant;
    type ConversionOptions = CppEnumVariantConversionOptions;

    fn to_ir(self, options: Option<&CppEnumVariantConversionOptions>) -> (r: ConversionResult<EnumVariant>)
        ensures
            cpp_variant_ir_is(r.value, self),
            r.log@ == Seq::<WarningText>::empty(),
    {
        let value = match self.value {
            Some(v) => EnumVariantValue::Value(v),
            None => EnumVariantValue::NoValue,
        };
        ConversionResult::new(EnumVariant { name: self.name, value, docs: self.docs, raw_attributes: Vec::new() })
    }

    fn from_ir(input: EnumVariant, options: Option<&CppEnumVariantConversionOptions>) -> (r: ConversionResult<Self>)
        ensures
            r.value.name == input.name,
            r.value.value == (match input.value {
                EnumVariantValue::Value(w) => Some(w),
                _ => None,
            }),
            r.value.docs == input.docs,
            r.log@ == cpp_variant_from_ir_warnings(input),
    {
        let ghost v = input;
        let mut log = ConversionLog::new();
        let value = match input.value {
            EnumVariantValue::NoValue => None,
            EnumVariantValue::Value(w) => Some(w),
            EnumVariantValue::Tuple(_) | EnumVariantValue::Struct(_) => {
                log.add_warning(feature_warning(
                    "data-carrying payload on enum variant `",
                    input.name.as_str(),
                    "`",
                    "C++ enums hold no per-variant data; payload dropped",
                ));
                None
            },
        };
        assert(log@ =~= cpp_variant_from_ir_warnings(v));
        ConversionResult::with_log(CppEnumVariant { name: input.name, value, docs: input.docs }, log)
    }
}

/// What converting a C++ enum to the IR loses: its unscoped form.
pub open spec fn cpp_enum_ir_warnings(e: CppEnum) -> Seq<WarningText> {
    if !e.is_enum_class {
        seq![unsupported(
            "unscoped C++ enum `"@ + e.name@ + "`"@,
            "represented as a scoped enum in the language-agnostic IR"@,
        )]
    } else {
        Seq::empty()
    }
}

/// Whether `r` is the IR of the C++ enum `e`: default visibility, the same name, underlying
/// type and docs, its enumerators converted, and no attributes.
pub open spec fn cpp_enum_ir_is(r: LanguageEnum, e: CppEnum) -> bool {
    &&& r.name == e.name
    &&& r.visibility == Visibility::Default
    &&& r.variants@.len() == e.variants@.len()
    &&& forall|i: int| 0 <= i < r.variants@.len() ==> cpp_variant_ir_is(#[trigger] r.variants@[i], e.variants@[i])
    &&& r.underlying_type == e.underlying_type
    &&& r.docs == e.docs
    &&& r.annotations@.len() == 0
    &&& r.raw_attributes@.len() == 0
}

impl CppEnum {
    /// Converts the enum to the IR; an unscoped enum becomes scoped, which is reported.
    fn convert(self) -> (r: ConversionResult<LanguageEnum>)
        ensures
            cpp_enum_ir_is(r.value, self),
            r.log@ == cpp_enum_ir_warnings(self),
    {
        let ghost e = self;
        let mut log = ConversionLog::new();
        if !self.is_enum_class {
            log.add_warning(feature_warning(
                "unscoped C++ enum `",
                self.name.as_str(),
                "`",
                "represented as a scoped enum in the language-agnostic IR",
            ));
        }
        assert(log@ =~= cpp_enum_ir_warnings(e));
        let CppEnum { name, variants, is_enum_class: _, underlying_type, docs } = self;
        let ghost all = variants@;
        let mut rest = variants;
        let mut out: Vec<EnumVariant> = Vec::new();
        while rest.len() > 0
            invariant
                out@.len() + rest@.len() == all.len(),
                rest@ == all.skip(out@.len() as int),
                forall|i: int| 0 <= i < out@.len() ==> cpp_variant_ir_is(#[trigger] out@[i], all[i]),
            decreases rest@.len(),
        {
            let v = rest.remove(0);
            out.push(v.to_ir(None).value);
            assert(rest@ =~= all.skip(out@.len() as int));
        }
        ConversionResult::with_log(
            LanguageEnum {
                name,
                visibility: Visibility::Default,
                variants: out,
                underlying_type,
                docs,
                annotations: Vec::new(),
                raw_attributes: Vec::new(),
            },
            log,
        )
    }

    /// Converts the enum to the IR; an unscoped enum becomes scoped, which is reported.
    /// The user's hook, if the options carry one, is applied to the result.
    pub fn to_ir(self, options: Option<&CppEnumConversionOptions>) -> (r: ConversionResult<LanguageEnum>)
        ensures
            !CppEnumConversionOptions::hooked(options) ==> cpp_enum_ir_is(r.value, self),
            r.log@ == cpp_enum_ir_warnings(self),
    {
        let mut r = self.convert();
        if let Some(o) = options {
            o.config.after_to_ir_enum(&mut r.value);
        }
        r
    }
}


/// A C++ enumerator converts to the IR and back unchanged, without warnings.
pub proof fn cpp_variant_round_trip(v: CppEnumVariant, r: EnumVariant)
    requires
        cpp_variant_ir_is(r, v),
    ensures
        r.name == v.name,
        (match r.value {
            EnumVariantValue::Value(w) => Some(w),
            _ => None,
        }) == v.value,
        r.docs == v.docs,
        cpp_variant_from_ir_warnings(r).len() == 0,
{
}


/// Conversion options for C++ enums: the conversion's configuration.
#[derive(Clone)]
pub struct CppEnumConversionOptions {
    /// Whether to render the converted enum as an `enum class`.
    pub is_enum_class: bool,
    /// The conversion configuration (the user's hooks).
    pub config: ConversionConfig,
}

impl Default for CppEnumConversionOptions {
    fn default() -> (r: Self)
        ensures
            r.is_enum_class,
            r.config.hooks is None,
    {
        CppEnumConversionOptions { is_enum_class: true, config: ConversionConfig::default() }
    }
}

impl CppEnumConversionOptions {
    /// Whether options are given and carry hooks.
    pub open spec fn hooked(o: Option<&Self>) -> bool {
        o matches Some(x) && x.config.hooks is Some
    }
}

/// Whether the underlying type that the conversion's configuration mapped fits the enum:
/// one exactly when the enum has one.
pub open spec fn cpp_enum_underlying_fits(input: LanguageEnum, underlying_type: Option<ConversionResult<String>>) -> bool {
    underlying_type is Some <==> input.underlying_type is Some
}

/// What converting an IR enum to C++ loses: what its visibility loses (C++ enums carry none),
/// what mapping the underlying type reports, what each variant loses, then each raw attribute
/// of another language.
pub open spec fn cpp_enum_from_ir_warnings(input: LanguageEnum, underlying_type: Option<ConversionResult<String>>) -> Seq<
    WarningText,
> {
    cpp_visibility_from_ir_warnings(input.visibility) + match underlying_type {
        Some(t) => t.log@,
        None => Seq::empty(),
    } + flat(Seq::new(input.variants@.len(), |i: int| cpp_variant_from_ir_warnings(input.variants@[i])))
        + cpp_foreign_warnings(input.raw_attributes@)
}

/// Whether `r` is the C++ enum an IR enum converts to, given its mapped underlying type: the
/// same name and docs, each variant with its explicit value (if any), and an `enum class` as
/// asked.
pub open spec fn cpp_enum_from_ir_is(
    r: CppEnum,
    input: LanguageEnum,
    is_enum_class: bool,
    underlying_type: Option<ConversionResult<String>>,
) -> bool {
    &&& r.name == input.name
    &&& r.variants@.len() == input.variants@.len()
    &&& forall|i: int| 0 <= i < r.variants@.len() ==> {
        &&& (#[trigger] r.variants@[i]).name == input.variants@[i].name
        &&& r.variants@[i].value == (match input.variants@[i].value {
            EnumVariantValue::Value(w) => Some(w),
            _ => None,
        })
        &&& r.variants@[i].docs == input.variants@[i].docs
    }
    &&& r.underlying_type == (match underlying_type {
        Some(t) => Some(t.value),
        None => None,
    })
    &&& r.is_enum_class == is_enum_class
    &&& r.docs == input.docs
}

impl CppEnum {
    /// Converts an IR enum to C++, as an `enum class` when asked (the default of the
    /// conversion options), given its underlying type as the conversion's configuration mapped
    /// it. The caller applies the user's `before_from_ir_*` hook, if any, to the input first.
    pub fn from_ir(input: LanguageEnum, is_enum_class: bool, underlying_type: Option<ConversionResult<String>>) -> (r:
        ConversionResult<CppEnum>)
        requires
            cpp_enum_underlying_fits(input, underlying_type),
        ensures
            cpp_enum_from_ir_is(r.value, input, is_enum_class, underlying_type),
            r.log@ == cpp_enum_from_ir_warnings(input, underlying_type),
    {
        let ghost inp = input;
        let ghost ut = underlying_type;
        let mut log = ConversionLog::new();
        let LanguageEnum { name, visibility, variants, underlying_type: _, docs, annotations: _, raw_attributes } = input;
        let visibility = CppVisibility::from_ir(visibility, None);
        log.add_warnings(visibility.log.warnings);
        let underlying_type = match underlying_type {
            Some(t) => {
                log.add_warnings(t.log.warnings);
                Some(t.value)
            },
            None => None,
        };
        let ghost head = log@;
        let ghost vs = variants@;
        let ghost vparts = Seq::new(vs.len(), |k: int| cpp_variant_from_ir_warnings(vs[k]));
        let mut vrest = variants;
        let mut out_variants: Vec<CppEnumVariant> = Vec::new();
        while vrest.len() > 0
            invariant
                out_variants@.len() + vrest@.len() == vs.len(),
                vrest@ == vs.skip(out_variants@.len() as int),
                vparts == Seq::new(vs.len(), |k: int| cpp_variant_from_ir_warnings(vs[k])),
                forall|k: int| 0 <= k < out_variants@.len() ==> {
                    &&& (#[trigger] out_variants@[k]).name == vs[k].name
                    &&& out_variants@[k].value == (match vs[k].value {
                        EnumVariantValue::Value(w) => Some(w),
                        _ => None,
                    })
                    &&& out_variants@[k].docs == vs[k].docs
                },
                log@ == head + flat(vparts.take(out_variants@.len() as int)),
            decreases vrest@.len(),
        {
            let v = vrest.remove(0);
            proof {
                lemma_flat_step(vparts, out_variants@.len() as int);
            }
            let c = CppEnumVariant::from_ir(v, None);
            log.add_warnings(c.log.warnings);
            out_variants.push(c.value);
            assert(vrest@ =~= vs.skip(out_variants@.len() as int));
        }
        proof {
            lemma_flat_all(vparts);
        }
        report_foreign_cpp(&raw_attributes, &mut log);
        assert(log@ =~= cpp_enum_from_ir_warnings(inp, ut));
        ConversionResult::with_log(
            CppEnum { name, variants: out_variants, is_enum_class, underlying_type, docs },
            log,
        )
    }
}

} // verus!
