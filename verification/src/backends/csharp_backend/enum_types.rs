use vstd::prelude::*;

use crate::conversion::ConversionConfig;

use super::attributes::{
    classify_csharp_attributes, csharp_annotations, csharp_raw_texts, foreign_attribute_warning,
    foreign_attribute_warnings,
};
use super::visibility::{
    csharp_visibility_from_ir, csharp_visibility_from_ir_warnings, csharp_visibility_ir, csharp_visibility_ir_warnings,
};
use super::CSharpVisibility;
use crate::backends::BackendItem;
use crate::conversion::{
    feature_warning, flat, lemma_flat_all, lemma_flat_step, unsupported, ConversionLog, ConversionResult, WarningText,
};
use crate::ir::{raw_attributes_are, EnumVariant, EnumVariantValue, LanguageEnum, RawAttribute, TargetLanguage};
use crate::literal::str_eq;
use crate::text::{push_str, texts};

verus! {

/// Represents a member of a C# enum.
#[derive(Debug, Clone, PartialEq)]
pub struct CSharpEnumMember {
    /// The name of the member.
    pub name: String,
    /// The explicit value of the member, if any.
    pub value: Option<String>,
    /// Documentation for the member.
    pub docs: Option<Vec<String>>,
}

/// Represents a C# enum.
#[derive(Debug, Clone, PartialEq)]
pub struct CSharpEnum {
    /// The name of the enum.
    pub name: String,
    /// The visibility of the enum.
    pub visibility: CSharpVisibility,
    /// The underlying integral type, if any.
    pub underlying_type: Option<String>,
    /// The members of the enum.
    pub members: Vec<CSharpEnumMember>,
    /// Whether the enum is a `[Flags]` enum.
    pub is_flags: bool,
    /// Attributes applied to the enum (without the leading `[`).
    pub attributes: Vec<String>,
    /// Documentation for the enum.
    pub docs: Option<Vec<String>>,
}

/// Render options for C# enum members.
#[derive(Debug, Clone, Copy)]
pub struct CSharpEnumVariantRenderOptions {
    /// Whether to render documentation comments.
    pub render_docs: bool,
}

impl CSharpEnumVariantRenderOptions {
    /// The given options, or the defaults (docs rendered).
    pub open spec fn or_default(o: Option<&Self>) -> Self {
        match o {
            Some(o) => *o,
            None => CSharpEnumVariantRenderOptions { render_docs: true },
        }
    }
}

impl Default for CSharpEnumVariantRenderOptions {
    fn default() -> (r: Self)
        ensures
            r.render_docs,
    {
        CSharpEnumVariantRenderOptions { render_docs: true }
    }
}

/// Render options for C# enums.
#[derive(Debug, Clone, Copy)]
pub struct CSharpEnumRenderOptions {
    /// Whether to render documentation comments.
    pub render_docs: bool,
    /// Render options for the members.
    pub variant: CSharpEnumVariantRenderOptions,
}

impl CSharpEnumRenderOptions {
    /// The default options: docs rendered, for the enum and its members.
    pub open spec fn spec_default() -> Self {
        CSharpEnumRenderOptions { render_docs: true, variant: CSharpEnumVariantRenderOptions { render_docs: true } }
    }

    /// The given options, or the defaults.
    pub open spec fn or_default(o: Option<&Self>) -> Self {
        match o {
            Some(o) => *o,
            None => Self::spec_default(),
        }
    }
}

impl Default for CSharpEnumRenderOptions {
    fn default() -> (r: Self)
        ensures
            r == Self::spec_default(),
    {
        CSharpEnumRenderOptions { render_docs: true, variant: CSharpEnumVariantRenderOptions::default() }
    }
}


/// The IR variant of a C# enum member: its value, if any, and no attributes.
pub open spec fn csharp_member_ir_is(r: EnumVariant, m: CSharpEnumMember) -> bool {
    &&& r.name == m.name
    &&& match m.value {
        Some(v) => r.value matches EnumVariantValue::Value(w) && w == v,
        None => r.value is NoValue,
    }
    &&& r.docs == m.docs
    &&& r.raw_attributes@.len() == 0
}

/// The raw C# attributes of an enum in the IR: `Flags` first when it is a flags enum, then the
/// attributes that map to no annotation.
pub open spec fn csharp_enum_raw_texts(e: CSharpEnum) -> Seq<Seq<char>> {
    (if e.is_flags {
        seq!["Flags"@]
    } else {
        Seq::empty()
    }) + csharp_raw_texts(e.attributes@)
}

/// Whether `r` is the IR of the C# enum `e`.
pub open spec fn csharp_enum_ir_is(r: LanguageEnum, e: CSharpEnum) -> bool {
    &&& r.name == e.name
    &&& r.visibility == csharp_visibility_ir(e.visibility)
    &&& r.variants@.len() == e.members@.len()
    &&& forall|i: int| 0 <= i < r.variants@.len() ==> csharp_member_ir_is(#[trigger] r.variants@[i], e.members@[i])
    &&& r.underlying_type == e.underlying_type
    &&& r.docs == e.docs
    &&& r.annotations@ == csharp_annotations(e.attributes@)
    &&& raw_attributes_are(r.raw_attributes@, TargetLanguage::CSharp, csharp_enum_raw_texts(e))
}

impl CSharpEnum {
    /// Converts the enum to the IR: `[Flags]` becomes a raw C# attribute, and each member a
    /// variant. Only what its visibility loses is reported.
    fn convert(self) -> (r: ConversionResult<LanguageEnum>)
        ensures
            csharp_enum_ir_is(r.value, self),
            r.log@ == csharp_visibility_ir_warnings(self.visibility),
    {
        let ghost e = self;
        let mut log = ConversionLog::new();
        let mut raw_attributes: Vec<RawAttribute> = Vec::new();
        if self.is_flags {
            raw_attributes.push(RawAttribute { source: TargetLanguage::CSharp, text: "Flags".to_owned() });
        }
        let (annotations, mut rest_raw) = classify_csharp_attributes(&self.attributes);
        let ghost r1 = raw_attributes@;
        let ghost r2 = rest_raw@;
        raw_attributes.append(&mut rest_raw);
        assert(raw_attributes@ =~= r1 + r2);
        assert(raw_attributes_are(raw_attributes@, TargetLanguage::CSharp, csharp_enum_raw_texts(e))) by {
            assert forall|i: int| 0 <= i < raw_attributes@.len() implies (#[trigger] raw_attributes@[i]).source
                == TargetLanguage::CSharp && raw_attributes@[i].text@ == csharp_enum_raw_texts(e)[i] by {
                if i >= r1.len() {
                    assert(raw_attributes@[i] == r2[i - r1.len()]);
                }
            }
        }
        let visibility = self.visibility.to_ir(None);
        log.add_warnings(visibility.log.warnings);
        assert(log@ =~= csharp_visibility_ir_warnings(e.visibility));
        let CSharpEnum { name, visibility: _, underlying_type, members, is_flags: _, attributes: _, docs } = self;
        let ghost all = members@;
        let mut rest = members;
        let mut variants: Vec<EnumVariant> = Vec::new();
        while rest.len() > 0
            invariant
                variants@.len() + rest@.len() == all.len(),
                rest@ == all.skip(variants@.len() as int),
                forall|k: int| 0 <= k < variants@.len() ==> csharp_member_ir_is(#[trigger] variants@[k], all[k]),
            decreases rest@.len(),
        {
            let m = rest.remove(0);
            let value = match m.value {
                Some(v) => EnumVariantValue::Value(v),
                None => EnumVariantValue::NoValue,
            };
            variants.push(EnumVariant { name: m.name, value, docs: m.docs, raw_attributes: Vec::new() });
            assert(rest@ =~= all.skip(variants@.len() as int));
        }
        ConversionResult::with_log(
            LanguageEnum {
                name,
                visibility: visibility.value,
                variants,
                underlying_type,
                docs,
                annotations,
                raw_attributes,
            },
            log,
        )
    }

    /// Converts the enum to the IR: `[Flags]` becomes a raw C# attribute, and each member a
    /// variant. Only what its visibility loses is reported.
    /// The user's hook, if the options carry one, is applied to the result.
    pub fn to_ir(self, options: Option<&CSharpEnumConversionOptions>) -> (r: ConversionResult<LanguageEnum>)
        ensures
            !CSharpEnumConversionOptions::hooked(options) ==> csharp_enum_ir_is(r.value, self),
            r.log@ == csharp_visibility_ir_warnings(self.visibility),
    {
        let mut r = self.convert();
        if let Some(o) = options {
            o.config.after_to_ir_enum(&mut r.value);
        }
        r
    }
}


/// Conversion options for C# enums: the conversion's configuration.
#[derive(Clone)]
pub struct CSharpEnumConversionOptions {
    /// The conversion configuration (the user's hooks).
    pub config: ConversionConfig,
}

impl Default for CSharpEnumConversionOptions {
    fn default() -> (r: Self)
        ensures
            r.config.hooks is None,
    {
        CSharpEnumConversionOptions { config: ConversionConfig::default() }
    }
}

impl CSharpEnumConversionOptions {
    /// Whether options are given and carry hooks.
    pub open spec fn hooked(o: Option<&Self>) -> bool {
        o matches Some(x) && x.config.hooks is Some
    }
}


/// Whether a raw C# attribute `Flags` is among the raw attributes.
pub open spec fn has_flags_attribute(raws: Seq<RawAttribute>) -> bool {
    exists|i: int| 0 <= i < raws.len() && (#[trigger] raws[i]).source == TargetLanguage::CSharp && raws[i].text@ == "Flags"@
}

/// The texts of the raw C# attributes other than `Flags`, in order.
pub open spec fn csharp_enum_kept_raw(raws: Seq<RawAttribute>) -> Seq<Seq<char>>
    decreases raws.len(),
{
    if raws.len() == 0 {
        Seq::empty()
    } else {
        csharp_enum_kept_raw(raws.drop_last()) + if raws.last().source == TargetLanguage::CSharp && raws.last().text@
            != "Flags"@ {
            seq![raws.last().text@]
        } else {
            Seq::empty()
        }
    }
}

/// What the configuration of a conversion made of an IR enum's names and type: the enum's C#
/// name, its C# underlying type (when it has one), and each member's C# name.
pub struct CSharpEnumNames {
    pub name: ConversionResult<String>,
    pub underlying_type: Option<ConversionResult<String>>,
    pub members: Vec<ConversionResult<String>>,
}

/// Whether the names fit the enum: an underlying type exactly when it has one, and a name for
/// each variant.
pub open spec fn csharp_enum_names_fit(input: LanguageEnum, names: CSharpEnumNames) -> bool {
    &&& (names.underlying_type is Some <==> input.underlying_type is Some)
    &&& names.members@.len() == input.variants@.len()
}

/// What converting one variant loses: a data payload, then what renaming it reports.
pub open spec fn csharp_member_from_ir_warnings(v: EnumVariant, enum_name: Seq<char>, name: ConversionResult<String>) -> Seq<
    WarningText,
> {
    (match v.value {
        EnumVariantValue::Tuple(_) | EnumVariantValue::Struct(_) => seq![unsupported(
            "data-carrying variant `"@ + v.name@ + "` on enum `"@ + enum_name + "`"@,
            "C# enums cannot carry data; rendered as a plain member"@,
        )],
        _ => Seq::empty(),
    }) + name.log@
}

/// What converting an IR enum to C# loses: what renaming reports, what its visibility loses,
/// each raw attribute of another language, what mapping the underlying type reports, then what
/// each variant loses.
pub open spec fn csharp_enum_from_ir_warnings(input: LanguageEnum, names: CSharpEnumNames) -> Seq<WarningText> {
    names.name.log@ + csharp_visibility_from_ir_warnings(input.visibility) + foreign_attribute_warnings(
        input.raw_attributes@,
    ) + (match names.underlying_type {
        Some(t) => t.log@,
        None => Seq::empty(),
    }) + flat(
        Seq::new(
            input.variants@.len(),
            |i: int| csharp_member_from_ir_warnings(input.variants@[i], input.name@, names.members@[i]),
        ),
    )
}

/// Whether `r` is the C# enum an IR enum converts to, given the names of its conversion: a
/// flags enum exactly when a raw C# `Flags` attribute is there, the other raw C# attributes,
/// and each variant as a member with its value (none for a data payload).
pub open spec fn csharp_enum_from_ir_is(r: CSharpEnum, input: LanguageEnum, names: CSharpEnumNames) -> bool {
    &&& r.name == names.name.value
    &&& r.visibility == csharp_visibility_from_ir(input.visibility)
    &&& r.underlying_type == (match names.underlying_type {
        Some(t) => Some(t.value),
        None => None,
    })
    &&& r.members@.len() == input.variants@.len()
    &&& forall|i: int| 0 <= i < r.members@.len() ==> {
        &&& (#[trigger] r.members@[i]).name == names.members@[i].value
        &&& r.members@[i].value == (match input.variants@[i].value {
            EnumVariantValue::Value(v) => Some(v),
            _ => None,
        })
        &&& r.members@[i].docs == input.variants@[i].docs
    }
    &&& r.is_flags == has_flags_attribute(input.raw_attributes@)
    &&& texts(r.attributes@) == csharp_enum_kept_raw(input.raw_attributes@)
    &&& r.docs == input.docs
}

impl CSharpEnum {
    /// Converts an IR enum to C#, given its names as the conversion's configuration resolved
    /// them. The caller applies the user's `before_from_ir_*` hook, if any, to the input first.
    pub fn from_ir(input: LanguageEnum, names: CSharpEnumNames) -> (r: ConversionResult<CSharpEnum>)
        requires
            csharp_enum_names_fit(input, names),
        ensures
            csharp_enum_from_ir_is(r.value, input, names),
            r.log@ == csharp_enum_from_ir_warnings(input, names),
    {
        let ghost inp = input;
        let ghost nm = names;
        let CSharpEnumNames { name, underlying_type: mapped_underlying, members: member_names } = names;
        let mut log = ConversionLog::new();
        log.add_warnings(name.log.warnings);
        let LanguageEnum { name: enum_name, visibility, variants, underlying_type: _, docs, annotations: _, raw_attributes } = input;
        let visibility = CSharpVisibility::from_ir(visibility, None);
        log.add_warnings(visibility.log.warnings);
        let ghost lstart = log@;
        let mut is_flags = false;
        let mut attributes: Vec<String> = Vec::new();
        let mut i: usize = 0;
        while i < raw_attributes.len()
            invariant
                i <= raw_attributes@.len(),
                is_flags == exists|k: int|
                    0 <= k < i && (#[trigger] raw_attributes@[k]).source == TargetLanguage::CSharp && raw_attributes@[k].text@
                        == "Flags"@,
                texts(attributes@) == csharp_enum_kept_raw(raw_attributes@.take(i as int)),
                log@ == lstart + foreign_attribute_warnings(raw_attributes@.take(i as int)),
            decreases raw_attributes@.len() - i,
        {
            assert(raw_attributes@.take(i + 1).drop_last() =~= raw_attributes@.take(i as int));
            let raw = &raw_attributes[i];
            let ghost before = attributes@;
            if raw.source != TargetLanguage::CSharp {
                let mut pre = String::new();
                push_str(&mut pre, "opaque ");
                push_str(&mut pre, raw.source.name());
                push_str(&mut pre, " attribute `");
                log.add_warning(feature_warning(pre.as_str(), raw.text.as_str(), "`", "cannot translate to C#; dropped"));
            } else if str_eq(raw.text.as_str(), "Flags") {
                is_flags = true;
            } else {
                attributes.push(raw.text.clone());
                assert(texts(attributes@) =~= texts(before) + seq![raw.text@]);
            }
            i = i + 1;
            assert(texts(attributes@) =~= csharp_enum_kept_raw(raw_attributes@.take(i as int)));
            assert(log@ =~= lstart + foreign_attribute_warnings(raw_attributes@.take(i as int)));
        }
        assert(raw_attributes@.take(i as int) =~= raw_attributes@);
        let underlying_type = match mapped_underlying {
            Some(t) => {
                log.add_warnings(t.log.warnings);
                Some(t.value)
            },
            None => None,
        };
        let ghost head = log@;
        let ghost vs = variants@;
        let ghost mns = member_names@;
        let ghost parts = Seq::new(vs.len(), |k: int| csharp_member_from_ir_warnings(vs[k], enum_name@, mns[k]));
        let mut vrest = variants;
        let mut nrest = member_names;
        let mut members: Vec<CSharpEnumMember> = Vec::new();
        while vrest.len() > 0
            invariant
                vs.len() == mns.len(),
                members@.len() + vrest@.len() == vs.len(),
                vrest@ == vs.skip(members@.len() as int),
                nrest@ == mns.skip(members@.len() as int),
                parts == Seq::new(vs.len(), |k: int| csharp_member_from_ir_warnings(vs[k], enum_name@, mns[k])),
                forall|k: int| 0 <= k < members@.len() ==> {
                    &&& (#[trigger] members@[k]).name == mns[k].value
                    &&& members@[k].value == (match vs[k].value {
                        EnumVariantValue::Value(v) => Some(v),
                        _ => None,
                    })
                    &&& members@[k].docs == vs[k].docs
                },
                log@ == head + flat(parts.take(members@.len() as int)),
            decreases vrest@.len(),
        {
            let v = vrest.remove(0);
            let n = nrest.remove(0);
            proof {
                lemma_flat_step(parts, members@.len() as int);
            }
            let ghost before = log@;
            let value = match v.value {
                EnumVariantValue::NoValue => None,
                EnumVariantValue::Value(x) => Some(x),
                EnumVariantValue::Tuple(_) | EnumVariantValue::Struct(_) => {
                    let mut pre = String::new();
                    push_str(&mut pre, "data-carrying variant `");
                    push_str(&mut pre, v.name.as_str());
                    push_str(&mut pre, "` on enum `");
                    log.add_warning(feature_warning(
                        pre.as_str(),
                        enum_name.as_str(),
                        "`",
                        "C# enums cannot carry data; rendered as a plain member",
                    ));
                    None
                },
            };
            log.add_warnings(n.log.warnings);
            proof {
                reveal_strlit("` on enum `");
                reveal_strlit("data-carrying variant `");
                assert(log@ =~= before + csharp_member_from_ir_warnings(vs[members@.len() as int], enum_name@, mns[members@.len() as int]));
            }
            members.push(CSharpEnumMember { name: n.value, value, docs: v.docs });
            assert(vrest@ =~= vs.skip(members@.len() as int));
            assert(nrest@ =~= mns.skip(members@.len() as int));
        }
        proof {
            lemma_flat_all(parts);
        }
        assert(log@ =~= csharp_enum_from_ir_warnings(inp, nm));
        ConversionResult::with_log(
            CSharpEnum { name: name.value, visibility: visibility.value, underlying_type, members, is_flags, attributes, docs },
            log,
        )
    }
}

} // verus!
