use vstd::prelude::*;

use crate::conversion::ConversionConfig;

use super::attributes::{
    classify_csharp_attributes, csharp_annotations, csharp_kept_raw, csharp_raw_texts, foreign_attribute_warnings,
    push_csharp_raw, push_resolved, resolved_texts,
};
use super::field_types::{
    csharp_field_from_ir_is, csharp_field_from_ir_warnings, csharp_field_ir_is, csharp_field_ir_warnings, CSharpFieldNames,
};
use super::function_types::{
    csharp_method_from_ir_is, csharp_method_from_ir_warnings, csharp_method_ir_is, csharp_method_ir_warnings,
    csharp_method_names_fit, generics_to_ir, CSharpMethodNames,
};
use super::generic_types::csharp_generic_from_ir_warnings;
use super::visibility::{
    csharp_visibility_from_ir, csharp_visibility_from_ir_warnings, csharp_visibility_ir, csharp_visibility_ir_warnings,
};
use super::{CSharpField, CSharpGenericArgument, CSharpMethod, CSharpProperty, CSharpVisibility};
use crate::backends::BackendItem;
use crate::conversion::{
    feature_warning, flat, lemma_flat_all, lemma_flat_contains, lemma_flat_step, unsupported, ConversionLog, ConversionResult, WarningText,
};
use crate::ir::{
    raw_attributes_are, LanguageBase, LanguageField, LanguageFunction, LanguageStruct, LanguageStructKind,
    TargetLanguage, Visibility,
};
use crate::text::{push_str, texts};

verus! {

/// The kind of a C# type declaration.
#[derive(Debug, Clone, Copy, PartialEq, Eq, Structural)]
pub enum CSharpTypeKind {
    /// A `class`.
    Class,
    /// A `struct`.
    Struct,
    /// An `interface`.
    Interface,
    /// A `record`.
    Record,
}

impl CSharpTypeKind {
    /// The C# keyword for this kind.
    pub open spec fn keyword_text(self) -> Seq<char> {
        match self {
            CSharpTypeKind::Class => "class"@,
            CSharpTypeKind::Struct => "struct"@,
            CSharpTypeKind::Interface => "interface"@,
            CSharpTypeKind::Record => "record"@,
        }
    }

    /// The C# keyword for this kind.
    pub fn keyword(&self) -> (r: &'static str)
        ensures
            r@ == self.keyword_text(),
    {
        match self {
            CSharpTypeKind::Class => "class",
            CSharpTypeKind::Struct => "struct",
            CSharpTypeKind::Interface => "interface",
            CSharpTypeKind::Record => "record",
        }
    }

    /// Whether the `sealed` modifier is valid for this kind. Structs are implicitly
    /// sealed and interfaces cannot be sealed in C#, so `sealed` only applies to
    /// `class` and `record`.
    pub fn can_be_sealed(&self) -> (r: bool)
        ensures
            r == (*self == CSharpTypeKind::Class || *self == CSharpTypeKind::Record),
    {
        matches!(self, CSharpTypeKind::Class | CSharpTypeKind::Record)
    }

    /// Whether the `abstract` modifier is valid for this kind. Structs are sealed value
    /// types and interfaces are implicitly abstract, so `abstract` only applies to
    /// `class` and `record`.
    pub fn can_be_abstract(&self) -> (r: bool)
        ensures
            r == (*self == CSharpTypeKind::Class || *self == CSharpTypeKind::Record),
    {
        matches!(self, CSharpTypeKind::Class | CSharpTypeKind::Record)
    }

    /// Whether the `unsafe` modifier is valid for this kind: every kind but `struct`, which is
    /// kept safe by design.
    pub fn can_be_unsafe(&self) -> (r: bool)
        ensures
            r == (*self != CSharpTypeKind::Struct),
    {
        !matches!(self, CSharpTypeKind::Struct)
    }
}

/// Represents a C# type declaration (class / struct / interface / record).
#[derive(Debug, Clone, PartialEq)]
pub struct CSharpType {
    /// The kind of the type.
    pub kind: CSharpTypeKind,
    /// The name of the type.
    pub name: String,
    /// The visibility of the type.
    pub visibility: CSharpVisibility,
    /// Whether the type is `abstract`.
    pub is_abstract: bool,
    /// Whether the type is `sealed`.
    pub is_sealed: bool,
    /// Whether the type is `static`.
    pub is_static: bool,
    /// Whether the type is `unsafe`. Never valid on a `struct`; see [`CSharpTypeKind::can_be_unsafe`].
    pub is_unsafe: bool,
    /// Whether the type is `partial`.
    pub is_partial: bool,
    /// Generic type parameters.
    pub generic_args: Vec<CSharpGenericArgument>,
    /// The base class, if any.
    pub base_class: Option<String>,
    /// Implemented interfaces.
    pub interfaces: Vec<String>,
    /// The fields of the type.
    pub fields: Vec<CSharpField>,
    /// The properties of the type.
    pub properties: Vec<CSharpProperty>,
    /// The methods of the type.
    pub methods: Vec<CSharpMethod>,
    /// Attributes applied to the type (without the leading `[`).
    pub attributes: Vec<String>,
    /// Documentation for the type.
    pub docs: Option<Vec<String>>,
}

/// Render options for C# types.
#[derive(Debug, Clone, Copy)]
pub struct CSharpTypeRenderOptions {
    /// Whether to render documentation comments.
    pub render_docs: bool,
    /// Whether to render attributes.
    pub render_attributes: bool,
    /// Whether to render properties.
    pub render_properties: bool,
    /// Whether to render methods.
    pub render_methods: bool,
}

impl CSharpTypeRenderOptions {
    /// The default options: everything rendered.
    pub open spec fn spec_default() -> Self {
        CSharpTypeRenderOptions {
            render_docs: true,
            render_attributes: true,
            render_properties: true,
            render_methods: true,
        }
    }

    /// The given options, or the defaults.
    pub open spec fn or_default(o: Option<&Self>) -> Self {
        match o {
            Some(o) => *o,
            None => Self::spec_default(),
        }
    }
}

impl Default for CSharpTypeRenderOptions {
    fn default() -> (r: Self)
        ensures
            r == Self::spec_default(),
    {
        CSharpTypeRenderOptions {
            render_docs: true,
            render_attributes: true,
            render_properties: true,
            render_methods: true,
        }
    }
}


/// The IR kind of a C# type: interfaces and records flatten to classes.
pub open spec fn csharp_kind_ir(k: CSharpTypeKind) -> LanguageStructKind {
    match k {
        CSharpTypeKind::Struct => LanguageStructKind::Struct,
        _ => LanguageStructKind::Class,
    }
}

/// The warning for one modifier or kind of type `name` that the IR drops.
pub open spec fn type_feature_warning(what: Seq<char>, name: Seq<char>, resolution: Seq<char>) -> WarningText {
    unsupported(what + " on type `"@ + name + "`"@, resolution)
}

/// What converting a C# type's own kind and modifiers to the IR loses.
pub open spec fn csharp_type_head_warnings(t: CSharpType) -> Seq<WarningText> {
    (match t.kind {
        CSharpTypeKind::Interface => seq![type_feature_warning(
            "`interface` kind"@,
            t.name@,
            "interface flattened to a class in the language-agnostic IR"@,
        )],
        CSharpTypeKind::Record => seq![type_feature_warning(
            "`record` kind"@,
            t.name@,
            "record flattened to a class in the language-agnostic IR"@,
        )],
        _ => Seq::empty(),
    }) + (if t.is_static {
        seq![type_feature_warning("`static`"@, t.name@, "static modifier dropped from the language-agnostic IR"@)]
    } else {
        Seq::empty()
    }) + (if t.is_partial {
        seq![type_feature_warning("`partial`"@, t.name@, "partial modifier dropped from the language-agnostic IR"@)]
    } else {
        Seq::empty()
    }) + (if t.is_unsafe {
        seq![type_feature_warning("`unsafe`"@, t.name@, "unsafe modifier dropped from the language-agnostic IR"@)]
    } else {
        Seq::empty()
    }) + csharp_visibility_ir_warnings(t.visibility)
}

/// What converting one property of type `name` loses: the property becomes a field.
pub open spec fn csharp_property_ir_warnings(p: CSharpProperty, name: Seq<char>) -> Seq<WarningText> {
    seq![unsupported(
        "property `"@ + p.name@ + "` on type `"@ + name + "`"@,
        "property lowered to a field in the language-agnostic IR"@,
    )] + csharp_visibility_ir_warnings(p.visibility)
}

/// What converting a C# type to the IR loses: its kind and modifiers, its visibility, then what
/// each field, each property and each method loses, in order.
pub open spec fn csharp_type_ir_warnings(t: CSharpType) -> Seq<WarningText> {
    csharp_type_head_warnings(t) + flat(Seq::new(t.fields@.len(), |i: int| csharp_field_ir_warnings(t.fields@[i])))
        + flat(Seq::new(t.properties@.len(), |i: int| csharp_property_ir_warnings(t.properties@[i], t.name@)))
        + flat(Seq::new(t.methods@.len(), |i: int| csharp_method_ir_warnings(t.methods@[i])))
}

/// Whether `r` is the IR field a C# property is lowered to.
pub open spec fn csharp_property_ir_is(r: LanguageField, p: CSharpProperty) -> bool {
    &&& r.name == p.name
    &&& r.field_type == p.prop_type
    &&& r.visibility == csharp_visibility_ir(p.visibility)
    &&& r.is_static == p.is_static
    &&& !r.is_const
    &&& r.docs == p.docs
    &&& r.annotations@.len() == 0
    &&& r.raw_attributes@.len() == 0
}

/// Whether `bases` holds the base class, then the interfaces, each as a public base.
pub open spec fn csharp_bases_ir_are(bases: Seq<LanguageBase>, t: CSharpType) -> bool {
    let names = (match t.base_class {
        Some(b) => seq![b@],
        None => Seq::empty(),
    }) + Seq::new(t.interfaces@.len(), |i: int| t.interfaces@[i]@);
    &&& bases.len() == names.len()
    &&& forall|i: int| 0 <= i < bases.len() ==> (#[trigger] bases[i]).name@ == names[i] && bases[i].visibility == Visibility::Public
}

/// Whether `r` is the IR of the C# type `t`: its kind flattened, its modifiers and docs, its
/// visibility, its bases, its fields followed by its properties lowered to fields, its methods
/// and generic parameters converted, and its attributes split into annotations and raw C#
/// attributes.
pub open spec fn csharp_type_ir_is(r: LanguageStruct, t: CSharpType) -> bool {
    &&& r.visibility == csharp_visibility_ir(t.visibility)
    &&& r.struct_kind == csharp_kind_ir(t.kind)
    &&& r.is_abstract == t.is_abstract
    &&& r.is_final == t.is_sealed
    &&& r.name == t.name
    &&& r.generic_args@.len() == t.generic_args@.len()
    &&& forall|i: int| 0 <= i < r.generic_args@.len() ==> {
        &&& (#[trigger] r.generic_args@[i]).name == t.generic_args@[i].name
        &&& r.generic_args@[i].keyword@ == Seq::<char>::empty()
        &&& r.generic_args@[i].default_value is None
        &&& r.generic_args@[i].where_clause == t.generic_args@[i].constraints
    }
    &&& csharp_bases_ir_are(r.bases@, t)
    &&& r.fields@.len() == t.fields@.len() + t.properties@.len()
    &&& forall|i: int| 0 <= i < t.fields@.len() ==> csharp_field_ir_is(#[trigger] r.fields@[i], t.fields@[i])
    &&& forall|i: int|
        0 <= i < t.properties@.len() ==> csharp_property_ir_is(#[trigger] r.fields@[t.fields@.len() + i], t.properties@[i])
    &&& r.methods@.len() == t.methods@.len()
    &&& forall|i: int| 0 <= i < t.methods@.len() ==> csharp_method_ir_is(#[trigger] r.methods@[i], t.methods@[i])
    &&& r.docs == t.docs
    &&& r.annotations@ == csharp_annotations(t.attributes@)
    &&& raw_attributes_are(r.raw_attributes@, TargetLanguage::CSharp, csharp_raw_texts(t.attributes@))
}

/// The warning for a modifier or kind of type `name`.
fn type_warning(what: &str, name: &str, resolution: &str) -> (w: crate::conversion::ConversionWarning)
    ensures
        w@ == type_feature_warning(what@, name@, resolution@),
{
    let mut feature = String::new();
    push_str(&mut feature, what);
    push_str(&mut feature, " on type `");
    feature_warning(feature.as_str(), name, "`", resolution)
}

/// Converts the fields to the IR, in order, appending what each loses to `log`.
fn fields_to_ir(fs: Vec<CSharpField>, log: &mut ConversionLog) -> (r: Vec<LanguageField>)
    ensures
        r@.len() == fs@.len(),
        forall|k: int| 0 <= k < r@.len() ==> csharp_field_ir_is(#[trigger] r@[k], fs@[k]),
        final(log)@ == old(log)@ + flat(Seq::new(fs@.len(), |i: int| csharp_field_ir_warnings(fs@[i]))),
{
    let ghost all = fs@;
    let ghost parts = Seq::new(fs@.len(), |i: int| csharp_field_ir_warnings(fs@[i]));
    let ghost start = log@;
    let mut rest = fs;
    let mut out: Vec<LanguageField> = Vec::new();
    while rest.len() > 0
        invariant
            out@.len() + rest@.len() == all.len(),
            rest@ == all.skip(out@.len() as int),
            parts == Seq::new(all.len(), |i: int| csharp_field_ir_warnings(all[i])),
            forall|k: int| 0 <= k < out@.len() ==> csharp_field_ir_is(#[trigger] out@[k], all[k]),
            log@ == start + flat(parts.take(out@.len() as int)),
        decreases rest@.len(),
    {
        let f = rest.remove(0);
        proof {
            lemma_flat_step(parts, out@.len() as int);
        }
        let c = f.to_ir(None);
        log.add_warnings(c.log.warnings);
        out.push(c.value);
        assert(rest@ =~= all.skip(out@.len() as int));
    }
    proof {
        lemma_flat_all(parts);
    }
    out
}

/// Lowers the properties of type `name` to IR fields, in order, appending what each loses to
/// `log`.
fn properties_to_ir(ps: Vec<CSharpProperty>, name: &str, log: &mut ConversionLog) -> (r: Vec<LanguageField>)
    ensures
        r@.len() == ps@.len(),
        forall|k: int| 0 <= k < r@.len() ==> csharp_property_ir_is(#[trigger] r@[k], ps@[k]),
        final(log)@ == old(log)@ + flat(Seq::new(ps@.len(), |i: int| csharp_property_ir_warnings(ps@[i], name@))),
{
    let ghost all = ps@;
    let ghost parts = Seq::new(ps@.len(), |i: int| csharp_property_ir_warnings(ps@[i], name@));
    let ghost start = log@;
    let mut rest = ps;
    let mut out: Vec<LanguageField> = Vec::new();
    while rest.len() > 0
        invariant
            out@.len() + rest@.len() == all.len(),
            rest@ == all.skip(out@.len() as int),
            parts == Seq::new(all.len(), |i: int| csharp_property_ir_warnings(all[i], name@)),
            forall|k: int| 0 <= k < out@.len() ==> csharp_property_ir_is(#[trigger] out@[k], all[k]),
            log@ == start + flat(parts.take(out@.len() as int)),
        decreases rest@.len(),
    {
        let p = rest.remove(0);
        proof {
            lemma_flat_step(parts, out@.len() as int);
        }
        let mut what = String::new();
        push_str(&mut what, "property `");
        push_str(&mut what, p.name.as_str());
        push_str(&mut what, "`");
        log.add_warning(type_warning(what.as_str(), name, "property lowered to a field in the language-agnostic IR"));
        let visibility = p.visibility.to_ir(None);
        log.add_warnings(visibility.log.warnings);
        out.push(LanguageField {
            name: p.name,
            field_type: p.prop_type,
            visibility: visibility.value,
            is_static: p.is_static,
            is_const: false,
            docs: p.docs,
            annotations: Vec::new(),
            raw_attributes: Vec::new(),
        });
        assert(rest@ =~= all.skip(out@.len() as int));
        proof {
            reveal_strlit("`");
            reveal_strlit(" on type `");
            reveal_strlit("` on type `");
            assert(what@ + " on type `"@ + name@ + "`"@ =~= "property `"@ + p.name@ + "` on type `"@ + name@ + "`"@);
        }
        assert(log@ =~= start + flat(parts.take(out@.len() as int)));
    }
    proof {
        lemma_flat_all(parts);
    }
    out
}

/// Converts the methods to the IR, in order, appending what each loses to `log`.
fn methods_to_ir(ms: Vec<CSharpMethod>, log: &mut ConversionLog) -> (r: Vec<LanguageFunction>)
    ensures
        r@.len() == ms@.len(),
        forall|k: int| 0 <= k < r@.len() ==> csharp_method_ir_is(#[trigger] r@[k], ms@[k]),
        final(log)@ == old(log)@ + flat(Seq::new(ms@.len(), |i: int| csharp_method_ir_warnings(ms@[i]))),
{
    let ghost all = ms@;
    let ghost parts = Seq::new(ms@.len(), |i: int| csharp_method_ir_warnings(ms@[i]));
    let ghost start = log@;
    let mut rest = ms;
    let mut out: Vec<LanguageFunction> = Vec::new();
    while rest.len() > 0
        invariant
            out@.len() + rest@.len() == all.len(),
            rest@ == all.skip(out@.len() as int),
            parts == Seq::new(all.len(), |i: int| csharp_method_ir_warnings(all[i])),
            forall|k: int| 0 <= k < out@.len() ==> csharp_method_ir_is(#[trigger] out@[k], all[k]),
            log@ == start + flat(parts.take(out@.len() as int)),
        decreases rest@.len(),
    {
        let m = rest.remove(0);
        proof {
            lemma_flat_step(parts, out@.len() as int);
        }
        let c = m.to_ir(None);
        log.add_warnings(c.log.warnings);
        out.push(c.value);
        assert(rest@ =~= all.skip(out@.len() as int));
    }
    proof {
        lemma_flat_all(parts);
    }
    out
}

/// The bases of a type: the base class, then the interfaces, each public.
fn bases_to_ir(base_class: Option<String>, interfaces: Vec<String>) -> (r: Vec<LanguageBase>)
    ensures
        ({
            let names = (match base_class {
                Some(b) => seq![b@],
                None => Seq::empty(),
            }) + Seq::new(interfaces@.len(), |i: int| interfaces@[i]@);
            &&& r@.len() == names.len()
            &&& forall|i: int| 0 <= i < r@.len() ==> (#[trigger] r@[i]).name@ == names[i] && r@[i].visibility == Visibility::Public
        }),
{
    let ghost names = (if base_class is Some {
        seq![base_class->0@]
    } else {
        Seq::empty()
    }) + Seq::new(interfaces@.len(), |i: int| interfaces@[i]@);
    let ghost all = interfaces@;
    let mut out: Vec<LanguageBase> = Vec::new();
    if let Some(b) = base_class {
        out.push(LanguageBase { name: b, visibility: Visibility::Public });
    }
    let ghost offset = out@.len();
    let mut rest = interfaces;
    while rest.len() > 0
        invariant
            out@.len() == offset + (all.len() - rest@.len()),
            rest@.len() <= all.len(),
            rest@ == all.skip(all.len() - rest@.len()),
            offset + all.len() == names.len(),
            forall|i: int| 0 <= i < offset ==> names[i] == (#[trigger] out@[i]).name@,
            forall|i: int| offset <= i < names.len() ==> names[i] == all[i - offset]@,
            forall|i: int| 0 <= i < out@.len() ==> (#[trigger] out@[i]).name@ == names[i] && out@[i].visibility == Visibility::Public,
        decreases rest@.len(),
    {
        let n = rest.remove(0);
        out.push(LanguageBase { name: n, visibility: Visibility::Public });
        assert(rest@ =~= all.skip(all.len() - rest@.len()));
    }
    out
}

impl CSharpType {
    /// Converts the type to the IR. Interfaces and records flatten to classes; `static`,
    /// `partial` and `unsafe` are dropped; properties are lowered to fields after the fields.
    /// Each of these losses, and those of the members, is reported in the log.
    fn convert(self) -> (r: ConversionResult<LanguageStruct>)
        ensures
            csharp_type_ir_is(r.value, self),
            r.log@ == csharp_type_ir_warnings(self),
    {
        let ghost t = self;
        let mut log = ConversionLog::new();
        let struct_kind = match self.kind {
            CSharpTypeKind::Struct => LanguageStructKind::Struct,
            CSharpTypeKind::Class => LanguageStructKind::Class,
            CSharpTypeKind::Interface => {
                log.add_warning(type_warning(
                    "`interface` kind",
                    self.name.as_str(),
                    "interface flattened to a class in the language-agnostic IR",
                ));
                LanguageStructKind::Class
            },
            CSharpTypeKind::Record => {
                log.add_warning(type_warning(
                    "`record` kind",
                    self.name.as_str(),
                    "record flattened to a class in the language-agnostic IR",
                ));
                LanguageStructKind::Class
            },
        };
        if self.is_static {
            log.add_warning(type_warning("`static`", self.name.as_str(), "static modifier dropped from the language-agnostic IR"));
        }
        if self.is_partial {
            log.add_warning(type_warning("`partial`", self.name.as_str(), "partial modifier dropped from the language-agnostic IR"));
        }
        if self.is_unsafe {
            log.add_warning(type_warning("`unsafe`", self.name.as_str(), "unsafe modifier dropped from the language-agnostic IR"));
        }
        let (annotations, raw_attributes) = classify_csharp_attributes(&self.attributes);
        let visibility = self.visibility.to_ir(None);
        log.add_warnings(visibility.log.warnings);
        assert(log@ =~= csharp_type_head_warnings(t));
        let CSharpType {
            kind: _,
            name,
            visibility: _,
            is_abstract,
            is_sealed,
            is_static: _,
            is_unsafe: _,
            is_partial: _,
            generic_args,
            base_class,
            interfaces,
            fields,
            properties,
            methods,
            attributes: _,
            docs,
        } = self;
        let bases = bases_to_ir(base_class, interfaces);
        let mut ir_fields = fields_to_ir(fields, &mut log);
        let mut lowered = properties_to_ir(properties, name.as_str(), &mut log);
        let ghost nf = ir_fields@;
        let ghost np = lowered@;
        ir_fields.append(&mut lowered);
        assert(ir_fields@ =~= nf + np);
        let ir_methods = methods_to_ir(methods, &mut log);
        assert(log@ =~= csharp_type_ir_warnings(t));
        ConversionResult::with_log(
            LanguageStruct {
                visibility: visibility.value,
                struct_kind,
                is_abstract,
                is_final: is_sealed,
                name,
                generic_args: generics_to_ir(generic_args),
                bases,
                fields: ir_fields,
                methods: ir_methods,
                docs,
                annotations,
                raw_attributes,
            },
            log,
        )
    }

    /// Converts the type to the IR. Interfaces and records flatten to classes; `static`,
    /// `partial` and `unsafe` are dropped; properties are lowered to fields after the fields.
    /// Each of these losses, and those of the members, is reported in the log.
    /// The user's hook, if the options carry one, is applied to the result.
    pub fn to_ir(self, options: Option<&CSharpTypeConversionOptions>) -> (r: ConversionResult<LanguageStruct>)
        ensures
            !CSharpTypeConversionOptions::hooked(options) ==> csharp_type_ir_is(r.value, self),
            r.log@ == csharp_type_ir_warnings(self),
    {
        let mut r = self.convert();
        if let Some(o) = options {
            o.config.after_to_ir_struct(&mut r.value);
        }
        r
    }
}


/// No loss goes unreported: a C# type whose conversion to the IR logs no warning is a plain
/// class or struct without `static`, `partial` or `unsafe`, without properties, and whose fields
/// are neither `readonly` nor initialized and whose methods are neither `async` nor `unsafe`
/// and carry no attributes.
pub proof fn csharp_type_conversion_reports_every_loss(t: CSharpType)
    requires
        csharp_type_ir_warnings(t).len() == 0,
    ensures
        t.kind == CSharpTypeKind::Class || t.kind == CSharpTypeKind::Struct,
        !t.is_static && !t.is_partial && !t.is_unsafe,
        t.properties@.len() == 0,
        forall|i: int| 0 <= i < t.fields@.len() ==> !(#[trigger] t.fields@[i]).is_readonly && t.fields@[i].initializer is None,
        forall|i: int|
            0 <= i < t.methods@.len() ==> !(#[trigger] t.methods@[i]).is_async && !t.methods@[i].is_unsafe
                && t.methods@[i].attributes@.len() == 0,
{
    let fp = Seq::new(t.fields@.len(), |i: int| csharp_field_ir_warnings(t.fields@[i]));
    let pp = Seq::new(t.properties@.len(), |i: int| csharp_property_ir_warnings(t.properties@[i], t.name@));
    let mp = Seq::new(t.methods@.len(), |i: int| csharp_method_ir_warnings(t.methods@[i]));
    assert(csharp_type_head_warnings(t).len() == 0);
    if t.properties@.len() > 0 {
        lemma_flat_contains(pp, 0);
    }
    assert forall|i: int| 0 <= i < t.fields@.len() implies !(#[trigger] t.fields@[i]).is_readonly
        && t.fields@[i].initializer is None by {
        lemma_flat_contains(fp, i);
    }
    assert forall|i: int| 0 <= i < t.methods@.len() implies !(#[trigger] t.methods@[i]).is_async
        && !t.methods@[i].is_unsafe && t.methods@[i].attributes@.len() == 0 by {
        lemma_flat_contains(mp, i);
    }
}


/// Conversion options for C# types: the conversion's configuration.
#[derive(Clone)]
pub struct CSharpTypeConversionOptions {
    /// The conversion configuration (the user's hooks).
    pub config: ConversionConfig,
}

impl Default for CSharpTypeConversionOptions {
    fn default() -> (r: Self)
        ensures
            r.config.hooks is None,
    {
        CSharpTypeConversionOptions { config: ConversionConfig::default() }
    }
}

impl CSharpTypeConversionOptions {
    /// Whether options are given and carry hooks.
    pub open spec fn hooked(o: Option<&Self>) -> bool {
        o matches Some(x) && x.config.hooks is Some
    }
}


/// What the configuration of a conversion made of an IR struct's names, types and annotations:
/// the type's C# name, the C# attribute each annotation maps to (if any), and the names of each
/// field and each method.
pub struct CSharpTypeNames {
    pub name: ConversionResult<String>,
    pub annotation_attributes: Vec<Option<String>>,
    pub fields: Vec<CSharpFieldNames>,
    pub methods: Vec<CSharpMethodNames>,
}

/// Whether the names fit the struct: names for each field and each method.
pub open spec fn csharp_type_names_fit(input: LanguageStruct, names: CSharpTypeNames) -> bool {
    &&& names.fields@.len() == input.fields@.len()
    &&& names.methods@.len() == input.methods@.len()
    &&& forall|i: int| 0 <= i < input.methods@.len() ==> csharp_method_names_fit(#[trigger] input.methods@[i], names.methods@[i])
}

/// The C# kind of an IR struct: a class stays a class, a struct or union becomes a struct,
/// unless it is abstract, which a C# struct cannot be: then a class.
pub open spec fn csharp_kind_from_ir(input: LanguageStruct) -> CSharpTypeKind {
    if input.struct_kind == LanguageStructKind::Class || input.is_abstract {
        CSharpTypeKind::Class
    } else {
        CSharpTypeKind::Struct
    }
}

/// What converting an IR struct's own kind to C# loses: a union, and an abstract value type.
pub open spec fn csharp_kind_from_ir_warnings(input: LanguageStruct) -> Seq<WarningText> {
    (if input.struct_kind == LanguageStructKind::Union {
        seq![unsupported("union `"@ + input.name@ + "`"@, "C# has no union; rendered as a struct"@)]
    } else {
        Seq::empty()
    }) + (if input.is_abstract && input.struct_kind != LanguageStructKind::Class {
        seq![unsupported(
            "abstract value type `"@ + input.name@ + "`"@,
            "C# structs cannot be abstract; lowered to a class"@,
        )]
    } else {
        Seq::empty()
    })
}

/// What converting an IR struct to a C# type loses: its kind, what renaming reports, what its
/// visibility loses, each raw attribute of another language, then what each field, each method
/// and each generic parameter loses.
pub open spec fn csharp_type_from_ir_warnings(input: LanguageStruct, names: CSharpTypeNames) -> Seq<WarningText> {
    csharp_kind_from_ir_warnings(input) + names.name.log@ + csharp_visibility_from_ir_warnings(input.visibility)
        + foreign_attribute_warnings(input.raw_attributes@) + flat(
        Seq::new(input.fields@.len(), |i: int| csharp_field_from_ir_warnings(input.fields@[i], names.fields@[i])),
    ) + flat(
        Seq::new(input.methods@.len(), |i: int| csharp_method_from_ir_warnings(input.methods@[i], names.methods@[i])),
    ) + flat(Seq::new(input.generic_args@.len(), |i: int| csharp_generic_from_ir_warnings(input.generic_args@[i])))
}

/// Whether `r` is the C# type an IR struct converts to, given the names of its conversion: its
/// kind, its first base as the base class and the others as interfaces, its fields, methods
/// and generic parameters converted, the resolved annotations then its raw C# attributes, and
/// no properties nor `static`, `unsafe` or `partial`.
pub open spec fn csharp_type_from_ir_is(r: CSharpType, input: LanguageStruct, names: CSharpTypeNames) -> bool {
    &&& r.kind == csharp_kind_from_ir(input)
    &&& r.name == names.name.value
    &&& r.visibility == csharp_visibility_from_ir(input.visibility)
    &&& r.is_abstract == input.is_abstract
    &&& r.is_sealed == input.is_final
    &&& !r.is_static && !r.is_unsafe && !r.is_partial
    &&& r.generic_args@.len() == input.generic_args@.len()
    &&& forall|i: int| 0 <= i < r.generic_args@.len() ==> {
        &&& (#[trigger] r.generic_args@[i]).name == input.generic_args@[i].name
        &&& r.generic_args@[i].constraints == input.generic_args@[i].where_clause
    }
    &&& r.base_class == (if input.bases@.len() > 0 {
        Some(input.bases@[0].name)
    } else {
        None
    })
    &&& r.interfaces@.len() == (if input.bases@.len() > 0 {
        input.bases@.len() - 1
    } else {
        0
    })
    &&& forall|i: int| 0 <= i < r.interfaces@.len() ==> #[trigger] r.interfaces@[i] == input.bases@[i + 1].name
    &&& r.fields@.len() == input.fields@.len()
    &&& forall|i: int|
        0 <= i < r.fields@.len() ==> csharp_field_from_ir_is(#[trigger] r.fields@[i], input.fields@[i], names.fields@[i])
    &&& r.properties@.len() == 0
    &&& r.methods@.len() == input.methods@.len()
    &&& forall|i: int|
        0 <= i < r.methods@.len() ==> csharp_method_from_ir_is(#[trigger] r.methods@[i], input.methods@[i], names.methods@[i])
    &&& texts(r.attributes@) == resolved_texts(names.annotation_attributes@) + csharp_kept_raw(input.raw_attributes@)
    &&& r.docs == input.docs
}

impl CSharpType {
    /// Converts an IR struct to a C# type, given its names as the conversion's configuration
    /// resolved them. The caller applies the user's `before_from_ir_*` hook, if any, to the input first.
    pub fn from_ir(input: LanguageStruct, names: CSharpTypeNames) -> (r: ConversionResult<CSharpType>)
        requires
            csharp_type_names_fit(input, names),
        ensures
            csharp_type_from_ir_is(r.value, input, names),
            r.log@ == csharp_type_from_ir_warnings(input, names),
    {
        let ghost inp = input;
        let ghost nm = names;
        let mut log = ConversionLog::new();
        let mut kind = match input.struct_kind {
            LanguageStructKind::Class => CSharpTypeKind::Class,
            LanguageStructKind::Struct => CSharpTypeKind::Struct,
            LanguageStructKind::Union => {
                log.add_warning(feature_warning("union `", input.name.as_str(), "`", "C# has no union; rendered as a struct"));
                CSharpTypeKind::Struct
            },
        };
        if input.is_abstract && !kind.can_be_abstract() {
            log.add_warning(feature_warning(
                "abstract value type `",
                input.name.as_str(),
                "`",
                "C# structs cannot be abstract; lowered to a class",
            ));
            kind = CSharpTypeKind::Class;
        }
        assert(log@ =~= csharp_kind_from_ir_warnings(inp));
        let CSharpTypeNames { name, annotation_attributes, fields: field_names, methods: method_names } = names;
        log.add_warnings(name.log.warnings);
        let LanguageStruct {
            visibility,
            struct_kind: _,
            is_abstract,
            is_final,
            name: _,
            generic_args,
            bases,
            fields,
            methods,
            docs,
            annotations: _,
            raw_attributes,
        } = input;
        let visibility = CSharpVisibility::from_ir(visibility, None);
        log.add_warnings(visibility.log.warnings);
        let mut attributes: Vec<String> = Vec::new();
        assert(texts(attributes@) =~= Seq::<Seq<char>>::empty());
        push_resolved(annotation_attributes, &mut attributes);
        push_csharp_raw(&raw_attributes, &mut attributes, &mut log);
        let ghost head = log@;

        let ghost bs = bases@;
        let mut base_class: Option<String> = None;
        let mut interfaces: Vec<String> = Vec::new();
        let mut brest = bases;
        let mut taken: usize = 0;
        assert(bs.len() == brest.len());
        while brest.len() > 0
            invariant
                taken + brest@.len() == bs.len(),
                bs.len() <= usize::MAX,
                brest@ == bs.skip(taken as int),
                base_class == (if taken > 0 { Some(bs[0].name) } else { None }),
                interfaces@.len() == (if taken > 0 { taken - 1 } else { 0 }),
                forall|i: int| 0 <= i < interfaces@.len() ==> #[trigger] interfaces@[i] == bs[i + 1].name,
            decreases brest@.len(),
        {
            let b = brest.remove(0);
            if taken == 0 {
                base_class = Some(b.name);
            } else {
                interfaces.push(b.name);
            }
            taken = taken + 1;
            assert(brest@ =~= bs.skip(taken as int));
        }

        let ghost fs = fields@;
        let ghost fns = field_names@;
        let ghost fparts = Seq::new(fs.len(), |i: int| csharp_field_from_ir_warnings(fs[i], fns[i]));
        let mut frest = fields;
        let mut fnrest = field_names;
        let mut out_fields: Vec<CSharpField> = Vec::new();
        while frest.len() > 0
            invariant
                fs.len() == fns.len(),
                out_fields@.len() + frest@.len() == fs.len(),
                frest@ == fs.skip(out_fields@.len() as int),
                fnrest@ == fns.skip(out_fields@.len() as int),
                fparts == Seq::new(fs.len(), |i: int| csharp_field_from_ir_warnings(fs[i], fns[i])),
                forall|i: int| 0 <= i < out_fields@.len() ==> csharp_field_from_ir_is(#[trigger] out_fields@[i], fs[i], fns[i]),
                log@ == head + flat(fparts.take(out_fields@.len() as int)),
            decreases frest@.len(),
        {
            let f = frest.remove(0);
            let n = fnrest.remove(0);
            proof {
                lemma_flat_step(fparts, out_fields@.len() as int);
            }
            let c = CSharpField::from_ir(f, n);
            log.add_warnings(c.log.warnings);
            out_fields.push(c.value);
            assert(frest@ =~= fs.skip(out_fields@.len() as int));
            assert(fnrest@ =~= fns.skip(out_fields@.len() as int));
        }
        proof {
            lemma_flat_all(fparts);
        }
        let ghost after_fields = log@;

        let ghost ms = methods@;
        let ghost mns = method_names@;
        let ghost mparts = Seq::new(ms.len(), |i: int| csharp_method_from_ir_warnings(ms[i], mns[i]));
        let mut mrest = methods;
        let mut mnrest = method_names;
        let mut out_methods: Vec<CSharpMethod> = Vec::new();
        while mrest.len() > 0
            invariant
                ms.len() == mns.len(),
                forall|i: int| 0 <= i < ms.len() ==> csharp_method_names_fit(#[trigger] ms[i], mns[i]),
                out_methods@.len() + mrest@.len() == ms.len(),
                mrest@ == ms.skip(out_methods@.len() as int),
                mnrest@ == mns.skip(out_methods@.len() as int),
                mparts == Seq::new(ms.len(), |i: int| csharp_method_from_ir_warnings(ms[i], mns[i])),
                forall|i: int|
                    0 <= i < out_methods@.len() ==> csharp_method_from_ir_is(#[trigger] out_methods@[i], ms[i], mns[i]),
                log@ == after_fields + flat(mparts.take(out_methods@.len() as int)),
            decreases mrest@.len(),
        {
            let m = mrest.remove(0);
            let n = mnrest.remove(0);
            proof {
                lemma_flat_step(mparts, out_methods@.len() as int);
                assert(csharp_method_names_fit(ms[out_methods@.len() as int], mns[out_methods@.len() as int]));
            }
            let c = CSharpMethod::from_ir(m, n);
            log.add_warnings(c.log.warnings);
            out_methods.push(c.value);
            assert(mrest@ =~= ms.skip(out_methods@.len() as int));
            assert(mnrest@ =~= mns.skip(out_methods@.len() as int));
        }
        proof {
            lemma_flat_all(mparts);
        }
        let ghost after_methods = log@;

        let ghost gs = generic_args@;
        let ghost gparts = Seq::new(gs.len(), |i: int| csharp_generic_from_ir_warnings(gs[i]));
        let mut grest = generic_args;
        let mut out_generics: Vec<CSharpGenericArgument> = Vec::new();
        while grest.len() > 0
            invariant
                out_generics@.len() + grest@.len() == gs.len(),
                grest@ == gs.skip(out_generics@.len() as int),
                gparts == Seq::new(gs.len(), |i: int| csharp_generic_from_ir_warnings(gs[i])),
                forall|i: int| 0 <= i < out_generics@.len() ==> {
                    &&& (#[trigger] out_generics@[i]).name == gs[i].name
                    &&& out_generics@[i].constraints == gs[i].where_clause
                },
                log@ == after_methods + flat(gparts.take(out_generics@.len() as int)),
            decreases grest@.len(),
        {
            let g = grest.remove(0);
            proof {
                lemma_flat_step(gparts, out_generics@.len() as int);
            }
            let c = CSharpGenericArgument::from_ir(g, None);
            log.add_warnings(c.log.warnings);
            out_generics.push(c.value);
            assert(grest@ =~= gs.skip(out_generics@.len() as int));
        }
        proof {
            lemma_flat_all(gparts);
        }
        assert(log@ =~= csharp_type_from_ir_warnings(inp, nm));
        ConversionResult::with_log(
            CSharpType {
                kind,
                name: name.value,
                visibility: visibility.value,
                is_abstract,
                is_sealed: is_final,
                is_static: false,
                is_unsafe: false,
                is_partial: false,
                generic_args: out_generics,
                base_class,
                interfaces,
                fields: out_fields,
                properties: Vec::new(),
                methods: out_methods,
                attributes,
                docs,
            },
            log,
        )
    }
}

} // verus!
