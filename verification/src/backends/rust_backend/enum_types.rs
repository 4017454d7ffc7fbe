use vstd::prelude::*;

use crate::conversion::ConversionConfig;

use super::attributes::{
    derive_texts, push_derives, rust_annotation, rust_attribute_to_annotation, rust_foreign_warnings, rust_raw_derives,
    sort_rust_raw,
};
use super::visibility::{rust_visibility_from_ir, rust_visibility_from_ir_warnings, rust_visibility_ir};
use super::RustVisibility;
use crate::backends::BackendItem;
use crate::conversion::{flat, lemma_flat_all, lemma_flat_step, ConversionLog, ConversionResult, WarningText};
use crate::ir::{raw_attributes_are, Annotation, EnumVariant, EnumVariantValue, LanguageEnum, RawAttribute, TargetLanguage};
use crate::literal::str_eq;
use crate::text::{push_str, texts};

verus! {

/// The payload of a Rust enum variant.
#[derive(Debug, Clone, PartialEq)]
pub enum RustEnumVariantValue {
    /// A unit variant (`Foo`).
    Unit,
    /// A unit variant with an explicit discriminant (`Foo = 1`).
    Discriminant(String),
    /// A tuple variant (`Foo(A, B)`).
    Tuple(Vec<String>),
    /// A struct variant (`Foo { a: A, b: B }`).
    Struct(Vec<(String, String)>),
}

/// A variant of a Rust enum.
#[derive(Debug, Clone, PartialEq)]
pub struct RustEnumVariant {
    /// The name of the variant.
    pub name: String,
    /// The payload of the variant.
    pub value: RustEnumVariantValue,
    /// Optional documentation for the variant.
    pub docs: Option<Vec<String>>,
}

/// Represents a Rust enum.
#[derive(Debug, Clone, PartialEq)]
pub struct RustEnum {
    /// The name of the enum.
    pub name: String,
    /// The visibility of the enum.
    pub visibility: RustVisibility,
    /// The variants of the enum.
    pub variants: Vec<RustEnumVariant>,
    /// The `#[repr(...)]` representation, if any (e.g. `u8`).
    pub repr: Option<String>,
    /// Derives applied to the enum (e.g. `Debug`, `Clone`).
    pub derives: Vec<String>,
    /// Optional documentation for the enum.
    pub docs: Option<Vec<String>>,
}

/// Render options for Rust enum variants.
#[derive(Debug, Clone, Copy)]
pub struct RustEnumVariantRenderOptions {
    /// Whether to render documentation comments.
    pub render_docs: bool,
}

impl Default for RustEnumVariantRenderOptions {
    fn default() -> (r: Self)
        ensures
            r.render_docs,
    {
        RustEnumVariantRenderOptions { render_docs: true }
    }
}

/// Render options for Rust enums.
#[derive(Debug, Clone, Copy)]
pub struct RustEnumRenderOptions {
    /// Whether to render documentation comments.
    pub render_docs: bool,
    /// Whether to render derives and the `#[repr(...)]` attribute.
    pub render_attributes: bool,
    /// Whether the `#[repr(...)]` line is written before the `#[derive(...)]` line (otherwise after it).
    pub attributes_before_derives: bool,
    /// Render options for the enum's variants.
    pub variant: RustEnumVariantRenderOptions,
}

impl RustEnumRenderOptions {
    /// The default options: docs and attributes (the derives first), variant docs.
    pub open spec fn spec_default() -> Self {
        RustEnumRenderOptions {
            render_docs: true,
            render_attributes: true,
            attributes_before_derives: false,
            variant: RustEnumVariantRenderOptions { render_docs: true },
        }
    }

    /// The given options, or the defaults.
    pub open spec fn or_default(o: Option<&Self>) -> Self {
        match o {
            Some(o) => *o,
            None => Self::spec_default(),
        }
    }
}

impl Default for RustEnumRenderOptions {
    fn default() -> (r: Self)
        ensures
            r == Self::spec_default(),
    {
        RustEnumRenderOptions {
            render_docs: true,
            render_attributes: true,
            attributes_before_derives: false,
            variant: RustEnumVariantRenderOptions::default(),
        }
    }
}


/// Whether a `#[repr(...)]` token is an integral representation, which the IR carries as the
/// enum's underlying type.
pub open spec fn integral_repr(repr: Seq<char>) -> bool {
    repr == "i8"@ || repr == "u8"@ || repr == "i16"@ || repr == "u16"@ || repr == "i32"@ || repr == "u32"@
        || repr == "i64"@ || repr == "u64"@ || repr == "i128"@ || repr == "u128"@ || repr == "isize"@
        || repr == "usize"@
}

/// Whether `repr` is an integral representation.
pub fn is_integral_repr(repr: &str) -> (r: bool)
    ensures
        r == integral_repr(repr@),
{
    str_eq(repr, "i8") || str_eq(repr, "u8") || str_eq(repr, "i16") || str_eq(repr, "u16") || str_eq(repr, "i32")
        || str_eq(repr, "u32") || str_eq(repr, "i64") || str_eq(repr, "u64") || str_eq(repr, "i128") || str_eq(
        repr,
        "u128",
    ) || str_eq(repr, "isize") || str_eq(repr, "usize")
}

/// The IR value of a Rust variant's value.
pub open spec fn rust_variant_value_ir_is(r: EnumVariantValue, v: RustEnumVariantValue) -> bool {
    match v {
        RustEnumVariantValue::Unit => r is NoValue,
        RustEnumVariantValue::Discriminant(d) => r matches EnumVariantValue::Value(w) && w == d,
        RustEnumVariantValue::Tuple(ts) => r matches EnumVariantValue::Tuple(us) && us == ts,
        RustEnumVariantValue::Struct(fs) => r matches EnumVariantValue::Struct(gs) && gs == fs,
    }
}

/// Whether `r` is the IR of the Rust enum `e`: the same name and docs, its visibility and
/// variants converted, an integral `repr` as the underlying type, any other `repr` as its
/// annotation or, failing one, a raw `repr(..)` attribute after the derives.
pub open spec fn rust_enum_ir_is(r: LanguageEnum, e: RustEnum) -> bool {
    let other_repr = e.repr matches Some(t) && !integral_repr(t@);
    let repr_text = "repr("@ + e.repr->0@ + ")"@;
    &&& r.name == e.name
    &&& r.visibility == rust_visibility_ir(e.visibility)
    &&& r.variants@.len() == e.variants@.len()
    &&& forall|i: int| 0 <= i < r.variants@.len() ==> {
        &&& (#[trigger] r.variants@[i]).name == e.variants@[i].name
        &&& rust_variant_value_ir_is(r.variants@[i].value, e.variants@[i].value)
        &&& r.variants@[i].docs == e.variants@[i].docs
        &&& r.variants@[i].raw_attributes@.len() == 0
    }
    &&& r.underlying_type == (if e.repr matches Some(t) && integral_repr(t@) {
        e.repr
    } else {
        None
    })
    &&& r.docs == e.docs
    &&& r.annotations@ == (if other_repr && rust_annotation(repr_text) is Some {
        seq![rust_annotation(repr_text)->0]
    } else {
        Seq::empty()
    })
    &&& raw_attributes_are(
        r.raw_attributes@,
        TargetLanguage::Rust,
        derive_texts(e.derives@) + (if other_repr && rust_annotation(repr_text) is None {
            seq![repr_text]
        } else {
            Seq::empty()
        }),
    )
}

impl RustEnum {
    /// Converts the enum to the IR, without loss.
    fn convert(self) -> (r: ConversionResult<LanguageEnum>)
        ensures
            rust_enum_ir_is(r.value, self),
            r.log@ == Seq::<WarningText>::empty(),
    {
        let ghost e = self;
        let mut raw_attributes: Vec<RawAttribute> = Vec::new();
        push_derives(&self.derives, &mut raw_attributes);
        let ghost nd = raw_attributes@;
        let mut annotations: Vec<Annotation> = Vec::new();
        let RustEnum { name, visibility, variants, repr, derives: _, docs } = self;
        let underlying_type = match repr {
            Some(t) => {
                if is_integral_repr(t.as_str()) {
                    Some(t)
                } else {
                    let mut text = String::new();
                    push_str(&mut text, "repr(");
                    push_str(&mut text, t.as_str());
                    push_str(&mut text, ")");
                    match rust_attribute_to_annotation(text.as_str()) {
                        Some(a) => annotations.push(a),
                        None => raw_attributes.push(RawAttribute { source: TargetLanguage::Rust, text }),
                    }
                    None
                }
            },
            None => None,
        };
        assert(raw_attributes_are(
            raw_attributes@,
            TargetLanguage::Rust,
            derive_texts(e.derives@) + (if (e.repr matches Some(t) && !integral_repr(t@)) && rust_annotation(
                "repr("@ + e.repr->0@ + ")"@,
            ) is None {
                seq!["repr("@ + e.repr->0@ + ")"@]
            } else {
                Seq::empty()
            }),
        ));
        let visibility = visibility.to_ir(None);
        let ghost all = variants@;
        let mut rest = variants;
        let mut ir_variants: Vec<EnumVariant> = Vec::new();
        while rest.len() > 0
            invariant
                ir_variants@.len() + rest@.len() == all.len(),
                rest@ == all.skip(ir_variants@.len() as int),
                forall|i: int| 0 <= i < ir_variants@.len() ==> {
                    &&& (#[trigger] ir_variants@[i]).name == all[i].name
                    &&& rust_variant_value_ir_is(ir_variants@[i].value, all[i].value)
                    &&& ir_variants@[i].docs == all[i].docs
                    &&& ir_variants@[i].raw_attributes@.len() == 0
                },
            decreases rest@.len(),
        {
            let v = rest.remove(0);
            let value = match v.value {
                RustEnumVariantValue::Unit => EnumVariantValue::NoValue,
                RustEnumVariantValue::Discriminant(d) => EnumVariantValue::Value(d),
                RustEnumVariantValue::Tuple(ts) => EnumVariantValue::Tuple(ts),
                RustEnumVariantValue::Struct(fs) => EnumVariantValue::Struct(fs),
            };
            ir_variants.push(EnumVariant { name: v.name, value, docs: v.docs, raw_attributes: Vec::new() });
            assert(rest@ =~= all.skip(ir_variants@.len() as int));
        }
        ConversionResult::new(
            LanguageEnum {
                name,
                visibility: visibility.value,
                variants: ir_variants,
                underlying_type,
                docs,
                annotations,
                raw_attributes,
            },
        )
    }

    /// Converts the enum to the IR, without loss.
    /// The user's hook, if the options carry one, is applied to the result.
    pub fn to_ir(self, options: Option<&RustEnumConversionOptions>) -> (r: ConversionResult<LanguageEnum>)
        ensures
            !RustEnumConversionOptions::hooked(options) ==> rust_enum_ir_is(r.value, self),
            r.log@ == Seq::<WarningText>::empty(),
    {
        let mut r = self.convert();
        if let Some(o) = options {
            o.config.after_to_ir_enum(&mut r.value);
        }
        r
    }
}


/// Conversion options for Rust enums: the conversion's configuration.
#[derive(Clone)]
pub struct RustEnumConversionOptions {
    /// The conversion configuration (the user's hooks).
    pub config: ConversionConfig,
}

impl Default for RustEnumConversionOptions {
    fn default() -> (r: Self)
        ensures
            r.config.hooks is None,
    {
        RustEnumConversionOptions { config: ConversionConfig::default() }
    }
}

impl RustEnumConversionOptions {
    /// Whether options are given and carry hooks.
    pub open spec fn hooked(o: Option<&Self>) -> bool {
        o matches Some(x) && x.config.hooks is Some
    }
}

/// What the configuration of a conversion made of an IR enum's names and type: the enum's
/// Rust name, its `repr` type, and each variant's Rust name.
pub struct RustEnumNames {
    pub name: ConversionResult<String>,
    pub repr: Option<ConversionResult<String>>,
    pub variants: Vec<ConversionResult<String>>,
}

/// Whether the names fit the enum: a `repr` exactly when the enum has an underlying type, and
/// a name for each variant.
pub open spec fn rust_enum_names_fit(input: LanguageEnum, names: RustEnumNames) -> bool {
    &&& (names.repr is Some <==> input.underlying_type is Some)
    &&& names.variants@.len() == input.variants@.len()
}

/// The Rust payload of an IR variant value.
pub open spec fn rust_variant_value_from_ir(v: EnumVariantValue) -> RustEnumVariantValue {
    match v {
        EnumVariantValue::NoValue => RustEnumVariantValue::Unit,
        EnumVariantValue::Value(w) => RustEnumVariantValue::Discriminant(w),
        EnumVariantValue::Tuple(ts) => RustEnumVariantValue::Tuple(ts),
        EnumVariantValue::Struct(fs) => RustEnumVariantValue::Struct(fs),
    }
}

/// What converting an IR enum to Rust loses: what renaming reports, what its visibility loses,
/// each raw attribute of another language, what mapping the `repr` type reports, then what
/// renaming each variant reports.
pub open spec fn rust_enum_from_ir_warnings(input: LanguageEnum, names: RustEnumNames) -> Seq<WarningText> {
    names.name.log@ + rust_visibility_from_ir_warnings(input.visibility) + rust_foreign_warnings(input.raw_attributes@)
        + match names.repr {
        Some(t) => t.log@,
        None => Seq::empty(),
    } + flat(Seq::new(input.variants@.len(), |i: int| names.variants@[i].log@))
}

/// Whether `r` is the Rust enum an IR enum converts to, given its names: its visibility
/// converted, each variant renamed with its payload, its raw `derive(..)` attributes as
/// derives (other raw Rust attributes are dropped), and the same docs.
pub open spec fn rust_enum_from_ir_is(r: RustEnum, input: LanguageEnum, names: RustEnumNames) -> bool {
    &&& r.name == names.name.value
    &&& r.visibility == rust_visibility_from_ir(input.visibility)
    &&& r.variants@.len() == input.variants@.len()
    &&& forall|i: int| 0 <= i < r.variants@.len() ==> {
        &&& (#[trigger] r.variants@[i]).name == names.variants@[i].value
        &&& r.variants@[i].value == rust_variant_value_from_ir(input.variants@[i].value)
        &&& r.variants@[i].docs == input.variants@[i].docs
    }
    &&& r.repr == (match names.repr {
        Some(t) => Some(t.value),
        None => None,
    })
    &&& texts(r.derives@) == rust_raw_derives(input.raw_attributes@)
    &&& r.docs == input.docs
}

impl RustEnum {
    /// Converts an IR enum to Rust, given its names and `repr` type as the conversion's
    /// configuration resolved them. The caller applies the user's `before_from_ir_*` hook, if any, to the input first.
    pub fn from_ir(input: LanguageEnum, names: RustEnumNames) -> (r: ConversionResult<RustEnum>)
        requires
            rust_enum_names_fit(input, names),
        ensures
            rust_enum_from_ir_is(r.value, input, names),
            r.log@ == rust_enum_from_ir_warnings(input, names),
    {
        let ghost inp = input;
        let ghost nm = names;
        let mut log = ConversionLog::new();
        let RustEnumNames { name, repr, variants: variant_names } = names;
        let LanguageEnum { name: _, visibility, variants, underlying_type: _, docs, annotations: _, raw_attributes } = input;
        log.add_warnings(name.log.warnings);
        let visibility = RustVisibility::from_ir(visibility, None);
        log.add_warnings(visibility.log.warnings);
        let mut derives: Vec<String> = Vec::new();
        let mut dropped: Vec<String> = Vec::new();
        assert(texts(derives@) =~= Seq::<Seq<char>>::empty());
        sort_rust_raw(&raw_attributes, &mut derives, &mut dropped, &mut log);
        let repr = match repr {
            Some(t) => {
                log.add_warnings(t.log.warnings);
                Some(t.value)
            },
            None => None,
        };
        let ghost head = log@;
        let ghost vs = variants@;
        let ghost ns = variant_names@;
        let ghost vparts = Seq::new(vs.len(), |k: int| ns[k].log@);
        let mut vrest = variants;
        let mut nrest = variant_names;
        let mut out_variants: Vec<RustEnumVariant> = Vec::new();
        while vrest.len() > 0
            invariant
                vs.len() == ns.len(),
                out_variants@.len() + vrest@.len() == vs.len(),
                vrest@ == vs.skip(out_variants@.len() as int),
                nrest@ == ns.skip(out_variants@.len() as int),
                vparts == Seq::new(vs.len(), |k: int| ns[k].log@),
                forall|k: int| 0 <= k < out_variants@.len() ==> {
                    &&& (#[trigger] out_variants@[k]).name == ns[k].value
                    &&& out_variants@[k].value == rust_variant_value_from_ir(vs[k].value)
                    &&& out_variants@[k].docs == vs[k].docs
                },
                log@ == head + flat(vparts.take(out_variants@.len() as int)),
            decreases vrest@.len(),
        {
            let v = vrest.remove(0);
            let n = nrest.remove(0);
            proof {
                lemma_flat_step(vparts, out_variants@.len() as int);
            }
            log.add_warnings(n.log.warnings);
            let EnumVariant { name: _, value, docs: vdocs, raw_attributes: _ } = v;
            let value = match value {
                EnumVariantValue::NoValue => RustEnumVariantValue::Unit,
                EnumVariantValue::Value(w) => RustEnumVariantValue::Discriminant(w),
                EnumVariantValue::Tuple(ts) => RustEnumVariantValue::Tuple(ts),
                EnumVariantValue::Struct(fs) => RustEnumVariantValue::Struct(fs),
            };
            out_variants.push(RustEnumVariant { name: n.value, value, docs: vdocs });
            assert(vrest@ =~= vs.skip(out_variants@.len() as int));
            assert(nrest@ =~= ns.skip(out_variants@.len() as int));
        }
        proof {
            lemma_flat_all(vparts);
        }
        assert(log@ =~= rust_enum_from_ir_warnings(inp, nm));
        ConversionResult::with_log(
            RustEnum { name: name.value, visibility: visibility.value, variants: out_variants, repr, derives, docs },
            log,
        )
    }
}

} // verus!
