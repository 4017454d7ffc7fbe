use vstd::prelude::*;

use crate::conversion::ConversionConfig;

use super::{CppField, CppFieldRenderOptions, CppFunction, CppFunctionRenderOptions, CppGenericArgument, CppVisibility};
use super::attributes::{alignment_of, cpp_foreign_warnings, last_alignment, report_foreign_cpp};
use super::field_types::{cpp_field_from_ir_is, cpp_field_from_ir_warnings, cpp_field_ir_is, cpp_field_ir_warnings, CppFieldNames};
use super::function_types::{
    cpp_fn_from_ir_is, cpp_fn_from_ir_warnings, cpp_fn_ir_is, cpp_fn_ir_warnings, cpp_fn_names_fit, CppFunctionNames,
};
use super::generic_types::cpp_generic_from_ir_warnings;
use super::visibility::{cpp_visibility_from_ir, cpp_visibility_from_ir_warnings, cpp_visibility_ir};
use crate::backends::BackendItem;
use crate::conversion::{flat, lemma_flat_all, lemma_flat_step, ConversionLog, ConversionResult, WarningText};
use crate::ir::{
    Annotation, LanguageBase, LanguageField, LanguageFunction, LanguageGenericArgument, LanguageStruct,
    LanguageStructKind, Visibility,
};

verus! {

/// Represents a base/super with its visibility in C++.
#[derive(Debug, Clone, PartialEq)]
pub struct CppBase {
    /// The name of the base/super.
    pub name: String,
    /// The visibility of the inheritance.
    pub visibility: CppVisibility,
}

/// Represents a C++ struct kind.
#[derive(Debug, Clone, Copy, Eq, PartialEq, Structural)]
pub enum CppStructKind {
    Struct,
    Class,
    Union,
}

/// Represents a C++ struct definition.
#[derive(Debug, Clone, PartialEq)]
pub struct CppStruct {
    /// Struct kind.
    pub struct_kind: CppStructKind,
    /// Whether the struct is final.
    pub is_final: bool,
    /// Over-alignment for the struct (`alignas(N)`); `None` = natural alignment.
    pub alignment: Option<u32>,
    /// The name of the struct.
    pub name: String,
    /// Template parameters for the struct/class (C++ templates).
    pub template_params: Vec<CppGenericArgument>,
    /// Base/super classes or structs that this struct inherits from.
    pub bases: Vec<CppBase>,
    /// The fields of the struct.
    pub fields: Vec<CppField>,
    /// The methods of the struct.
    pub methods: Vec<CppFunction>,
    /// Documentation for the struct.
    pub docs: Option<Vec<String>>,
}

/// Render options for C++ structs.
#[derive(Debug, Clone, Copy)]
pub struct CppStructRenderOptions {
    /// Whether to align fields in columns.
    pub align_fields: bool,
    /// Whether to use `typename` as the default keyword for type parameters.
    pub use_typename_default: bool,
    /// Whether to render template parameters.
    pub render_template_params: bool,
    /// Whether to render template parameter keywords (typename/class).
    pub render_template_param_keywords: bool,
    /// Whether to render documentation comments.
    pub render_docs: bool,
    /// Whether to render default visibility (public for struct, private for class).
    pub render_default_visibility: bool,
    /// Render options for fields within the struct.
    pub field_options: CppFieldRenderOptions,
    /// Render options for methods within the struct.
    pub method_options: CppFunctionRenderOptions,
}

impl CppStructRenderOptions {
    /// The default options.
    pub open spec fn spec_default() -> Self {
        CppStructRenderOptions {
            align_fields: false,
            use_typename_default: true,
            render_template_params: true,
            render_template_param_keywords: true,
            render_docs: true,
            render_default_visibility: true,
            field_options: CppFieldRenderOptions::spec_default(),
            method_options: CppFunctionRenderOptions::spec_default(),
        }
    }

    /// The given options, or the defaults.
    pub open spec fn or_default(o: Option<&Self>) -> Self {
        match o {
            Some(o) => *o,
            None => Self::spec_default(),
        }
    }
}

impl Default for CppStructRenderOptions {
    fn default() -> (r: Self)
        ensures
            r == Self::spec_default(),
    {
        CppStructRenderOptions {
            align_fields: false,
            use_typename_default: true,
            render_template_params: true,
            render_template_param_keywords: true,
            render_docs: true,
            render_default_visibility: true,
            field_options: CppFieldRenderOptions::default(),
            method_options: CppFunctionRenderOptions::default(),
        }
    }
}


/// What converting a C++ struct to the IR loses: what each field, then each method, loses.
pub open spec fn cpp_struct_ir_warnings(st: CppStruct) -> Seq<WarningText> {
    flat(Seq::new(st.fields@.len(), |i: int| cpp_field_ir_warnings(st.fields@[i]))) + flat(
        Seq::new(st.methods@.len(), |i: int| cpp_fn_ir_warnings(st.methods@[i])),
    )
}

/// Whether some method is pure virtual, which makes a C++ type abstract.
pub open spec fn has_pure_virtual(methods: Seq<CppFunction>) -> bool {
    exists|i: int| 0 <= i < methods.len() && (#[trigger] methods[i]).is_pure_virtual
}

/// The IR kind of a C++ struct kind.
pub open spec fn cpp_kind_ir(k: CppStructKind) -> LanguageStructKind {
    match k {
        CppStructKind::Struct => LanguageStructKind::Struct,
        CppStructKind::Class => LanguageStructKind::Class,
        CppStructKind::Union => LanguageStructKind::Union,
    }
}

/// Whether `r` is the IR of the C++ struct `st`: default visibility, its kind, abstract exactly
/// when a method is pure virtual, the same finality, name and docs, its template parameters,
/// bases, fields and methods converted, and its alignment as an annotation.
pub open spec fn cpp_struct_ir_is(r: LanguageStruct, st: CppStruct) -> bool {
    &&& r.visibility == Visibility::Default
    &&& r.struct_kind == cpp_kind_ir(st.struct_kind)
    &&& r.is_abstract == has_pure_virtual(st.methods@)
    &&& r.is_final == st.is_final
    &&& r.name == st.name
    &&& r.generic_args@.len() == st.template_params@.len()
    &&& forall|i: int| 0 <= i < r.generic_args@.len() ==> {
        &&& (#[trigger] r.generic_args@[i]).name == st.template_params@[i].name
        &&& r.generic_args@[i].keyword == st.template_params@[i].keyword
        &&& r.generic_args@[i].default_value == st.template_params@[i].default_value
        &&& r.generic_args@[i].where_clause is None
    }
    &&& r.bases@.len() == st.bases@.len()
    &&& forall|i: int| 0 <= i < r.bases@.len() ==> (#[trigger] r.bases@[i]).name == st.bases@[i].name
        && r.bases@[i].visibility == cpp_visibility_ir(st.bases@[i].visibility)
    &&& r.fields@.len() == st.fields@.len()
    &&& forall|i: int| 0 <= i < st.fields@.len() ==> cpp_field_ir_is(#[trigger] r.fields@[i], st.fields@[i])
    &&& r.methods@.len() == st.methods@.len()
    &&& forall|i: int| 0 <= i < st.methods@.len() ==> cpp_fn_ir_is(#[trigger] r.methods@[i], st.methods@[i])
    &&& r.docs == st.docs
    &&& r.annotations@ == (match st.alignment {
        Some(n) => seq![Annotation::Aligned(n)],
        None => Seq::empty(),
    })
    &&& r.raw_attributes@.len() == 0
}

impl CppStruct {
    /// Converts the struct to the IR, with what its fields and methods lose.
    fn convert(self) -> (r: ConversionResult<LanguageStruct>)
        ensures
            cpp_struct_ir_is(r.value, self),
            r.log@ == cpp_struct_ir_warnings(self),
    {
        let ghost st = self;
        let mut log = ConversionLog::new();
        let CppStruct { struct_kind, is_final, alignment, name, template_params, bases, fields, methods, docs } = self;

        let ghost fs = fields@;
        let ghost fparts = Seq::new(fs.len(), |i: int| cpp_field_ir_warnings(fs[i]));
        let mut frest = fields;
        let mut ir_fields: Vec<LanguageField> = Vec::new();
        while frest.len() > 0
            invariant
                ir_fields@.len() + frest@.len() == fs.len(),
                frest@ == fs.skip(ir_fields@.len() as int),
                fparts == Seq::new(fs.len(), |i: int| cpp_field_ir_warnings(fs[i])),
                forall|k: int| 0 <= k < ir_fields@.len() ==> cpp_field_ir_is(#[trigger] ir_fields@[k], fs[k]),
                log@ == flat(fparts.take(ir_fields@.len() as int)),
            decreases frest@.len(),
        {
            let f = frest.remove(0);
            proof {
                lemma_flat_step(fparts, ir_fields@.len() as int);
            }
            let c = f.to_ir(None);
            log.add_warnings(c.log.warnings);
            ir_fields.push(c.value);
            assert(frest@ =~= fs.skip(ir_fields@.len() as int));
        }
        proof {
            lemma_flat_all(fparts);
        }
        let ghost after_fields = log@;

        let mut is_abstract = false;
        let mut j: usize = 0;
        while j < methods.len()
            invariant
                j <= methods@.len(),
                is_abstract == exists|i: int| 0 <= i < j && (#[trigger] methods@[i]).is_pure_virtual,
            decreases methods@.len() - j,
        {
            if methods[j].is_pure_virtual {
                is_abstract = true;
            }
            j = j + 1;
        }

        let ghost ms = methods@;
        let ghost mparts = Seq::new(ms.len(), |i: int| cpp_fn_ir_warnings(ms[i]));
        let mut mrest = methods;
        let mut ir_methods: Vec<LanguageFunction> = Vec::new();
        while mrest.len() > 0
            invariant
                ir_methods@.len() + mrest@.len() == ms.len(),
                mrest@ == ms.skip(ir_methods@.len() as int),
                mparts == Seq::new(ms.len(), |i: int| cpp_fn_ir_warnings(ms[i])),
                forall|k: int| 0 <= k < ir_methods@.len() ==> cpp_fn_ir_is(#[trigger] ir_methods@[k], ms[k]),
                log@ == after_fields + flat(mparts.take(ir_methods@.len() as int)),
            decreases mrest@.len(),
        {
            let m = mrest.remove(0);
            proof {
                lemma_flat_step(mparts, ir_methods@.len() as int);
            }
            let c = m.to_ir(None);
            log.add_warnings(c.log.warnings);
            ir_methods.push(c.value);
            assert(mrest@ =~= ms.skip(ir_methods@.len() as int));
        }
        proof {
            lemma_flat_all(mparts);
        }
        assert(log@ =~= cpp_struct_ir_warnings(st));

        let ghost bs = bases@;
        let mut brest = bases;
        let mut ir_bases: Vec<LanguageBase> = Vec::new();
        while brest.len() > 0
            invariant
                ir_bases@.len() + brest@.len() == bs.len(),
                brest@ == bs.skip(ir_bases@.len() as int),
                forall|k: int| 0 <= k < ir_bases@.len() ==> (#[trigger] ir_bases@[k]).name == bs[k].name
                    && ir_bases@[k].visibility == cpp_visibility_ir(bs[k].visibility),
            decreases brest@.len(),
        {
            let b = brest.remove(0);
            let visibility = b.visibility.to_ir(None).value;
            ir_bases.push(LanguageBase { name: b.name, visibility });
            assert(brest@ =~= bs.skip(ir_bases@.len() as int));
        }

        let ghost ts = template_params@;
        let mut trest = template_params;
        let mut ir_generics: Vec<LanguageGenericArgument> = Vec::new();
        while trest.len() > 0
            invariant
                ir_generics@.len() + trest@.len() == ts.len(),
                trest@ == ts.skip(ir_generics@.len() as int),
                forall|k: int| 0 <= k < ir_generics@.len() ==> {
                    &&& (#[trigger] ir_generics@[k]).name == ts[k].name
                    &&& ir_generics@[k].keyword == ts[k].keyword
                    &&& ir_generics@[k].default_value == ts[k].default_value
                    &&& ir_generics@[k].where_clause is None
                },
            decreases trest@.len(),
        {
            let t = trest.remove(0);
            ir_generics.push(t.to_ir(None).value);
            assert(trest@ =~= ts.skip(ir_generics@.len() as int));
        }

        let mut annotations: Vec<Annotation> = Vec::new();
        if let Some(n) = alignment {
            annotations.push(Annotation::Aligned(n));
        }
        assert(annotations@ =~= (match st.alignment {
            Some(n) => seq![Annotation::Aligned(n)],
            None => Seq::empty(),
        }));
        let struct_kind = match struct_kind {
            CppStructKind::Struct => LanguageStructKind::Struct,
            CppStructKind::Class => LanguageStructKind::Class,
            CppStructKind::Union => LanguageStructKind::Union,
        };
        ConversionResult::with_log(
            LanguageStruct {
                visibility: Visibility::Default,
                struct_kind,
                is_abstract,
                is_final,
                name,
                generic_args: ir_generics,
                bases: ir_bases,
                fields: ir_fields,
                methods: ir_methods,
                docs,
                annotations,
                raw_attributes: Vec::new(),
            },
            log,
        )
    }

    /// Converts the struct to the IR, with what its fields and methods lose.
    /// The user's hook, if the options carry one, is applied to the result.
    pub fn to_ir(self, options: Option<&CppStructConversionOptions>) -> (r: ConversionResult<LanguageStruct>)
        ensures
            !CppStructConversionOptions::hooked(options) ==> cpp_struct_ir_is(r.value, self),
            r.log@ == cpp_struct_ir_warnings(self),
    {
        let mut r = self.convert();
        if let Some(o) = options {
            o.config.after_to_ir_struct(&mut r.value);
        }
        r
    }
}


/// Conversion options for C++ structs: the conversion's configuration.
#[derive(Clone)]
pub struct CppStructConversionOptions {
    /// The conversion configuration (the user's hooks).
    pub config: ConversionConfig,
}

impl Default for CppStructConversionOptions {
    fn default() -> (r: Self)
        ensures
            r.config.hooks is None,
    {
        CppStructConversionOptions { config: ConversionConfig::default() }
    }
}

impl CppStructConversionOptions {
    /// Whether options are given and carry hooks.
    pub open spec fn hooked(o: Option<&Self>) -> bool {
        o matches Some(x) && x.config.hooks is Some
    }
}

/// What the configuration of a conversion made of an IR struct's members: the names of each
/// field and each method.
pub struct CppStructNames {
    pub fields: Vec<CppFieldNames>,
    pub methods: Vec<CppFunctionNames>,
}

/// Whether the names fit the struct: names for each field and each method.
pub open spec fn cpp_struct_names_fit(input: LanguageStruct, names: CppStructNames) -> bool {
    &&& names.fields@.len() == input.fields@.len()
    &&& names.methods@.len() == input.methods@.len()
    &&& forall|i: int| 0 <= i < input.methods@.len() ==> cpp_fn_names_fit(#[trigger] input.methods@[i], names.methods@[i])
}

/// The C++ struct kind of an IR struct kind.
pub open spec fn cpp_kind_from_ir(k: LanguageStructKind) -> CppStructKind {
    match k {
        LanguageStructKind::Struct => CppStructKind::Struct,
        LanguageStructKind::Class => CppStructKind::Class,
        LanguageStructKind::Union => CppStructKind::Union,
    }
}

/// What converting an IR struct to C++ loses: what each field, then each method loses, what
/// the visibility of each base loses, each `where` clause of its generic parameters, what its
/// visibility loses, then each raw attribute of another language.
pub open spec fn cpp_struct_from_ir_warnings(input: LanguageStruct, names: CppStructNames) -> Seq<WarningText> {
    flat(Seq::new(input.fields@.len(), |i: int| cpp_field_from_ir_warnings(input.fields@[i], names.fields@[i])))
        + flat(Seq::new(input.methods@.len(), |i: int| cpp_fn_from_ir_warnings(input.methods@[i], names.methods@[i])))
        + flat(Seq::new(input.bases@.len(), |i: int| cpp_visibility_from_ir_warnings(input.bases@[i].visibility)))
        + flat(Seq::new(input.generic_args@.len(), |i: int| cpp_generic_from_ir_warnings(input.generic_args@[i])))
        + cpp_visibility_from_ir_warnings(input.visibility) + cpp_foreign_warnings(input.raw_attributes@)
}

/// Whether `r` is the C++ struct an IR struct converts to, given its names: its kind, the same
/// name, finality and docs, the alignment of its last `Aligned` annotation, and its template
/// parameters, bases, fields and methods converted.
pub open spec fn cpp_struct_from_ir_is(r: CppStruct, input: LanguageStruct, names: CppStructNames) -> bool {
    &&& r.struct_kind == cpp_kind_from_ir(input.struct_kind)
    &&& r.is_final == input.is_final
    &&& r.alignment == last_alignment(input.annotations@)
    &&& r.name == input.name
    &&& r.template_params@.len() == input.generic_args@.len()
    &&& forall|i: int| 0 <= i < r.template_params@.len() ==> {
        &&& (#[trigger] r.template_params@[i]).name == input.generic_args@[i].name
        &&& r.template_params@[i].keyword == input.generic_args@[i].keyword
        &&& r.template_params@[i].default_value == input.generic_args@[i].default_value
    }
    &&& r.bases@.len() == input.bases@.len()
    &&& forall|i: int| 0 <= i < r.bases@.len() ==> (#[trigger] r.bases@[i]).name == input.bases@[i].name
        && r.bases@[i].visibility == cpp_visibility_from_ir(input.bases@[i].visibility)
    &&& r.fields@.len() == input.fields@.len()
    &&& forall|i: int|
        0 <= i < r.fields@.len() ==> cpp_field_from_ir_is(#[trigger] r.fields@[i], input.fields@[i], names.fields@[i])
    &&& r.methods@.len() == input.methods@.len()
    &&& forall|i: int|
        0 <= i < r.methods@.len() ==> cpp_fn_from_ir_is(#[trigger] r.methods@[i], input.methods@[i], names.methods@[i])
    &&& r.docs == input.docs
}

impl CppStruct {
    /// Converts an IR struct to C++, given the names of its members as the conversion's
    /// configuration resolved them. The caller applies the user's `before_from_ir_*` hook, if any, to the input first.
    pub fn from_ir(input: LanguageStruct, names: CppStructNames) -> (r: ConversionResult<CppStruct>)
        requires
            cpp_struct_names_fit(input, names),
        ensures
            cpp_struct_from_ir_is(r.value, input, names),
            r.log@ == cpp_struct_from_ir_warnings(input, names),
    {
        let ghost inp = input;
        let ghost nm = names;
        let mut log = ConversionLog::new();
        let CppStructNames { fields: field_names, methods: method_names } = names;
        let LanguageStruct {
            visibility,
            struct_kind,
            is_abstract: _,
            is_final,
            name,
            generic_args,
            bases,
            fields,
            methods,
            docs,
            annotations,
            raw_attributes,
        } = input;

        let ghost fs = fields@;
        let ghost fns = field_names@;
        let ghost fparts = Seq::new(fs.len(), |k: int| cpp_field_from_ir_warnings(fs[k], fns[k]));
        let mut frest = fields;
        let mut fnrest = field_names;
        let mut out_fields: Vec<CppField> = Vec::new();
        while frest.len() > 0
            invariant
                fs.len() == fns.len(),
                out_fields@.len() + frest@.len() == fs.len(),
                frest@ == fs.skip(out_fields@.len() as int),
                fnrest@ == fns.skip(out_fields@.len() as int),
                fparts == Seq::new(fs.len(), |k: int| cpp_field_from_ir_warnings(fs[k], fns[k])),
                forall|k: int| 0 <= k < out_fields@.len() ==> cpp_field_from_ir_is(#[trigger] out_fields@[k], fs[k], fns[k]),
                log@ == flat(fparts.take(out_fields@.len() as int)),
            decreases frest@.len(),
        {
            let f = frest.remove(0);
            let n = fnrest.remove(0);
            proof {
                lemma_flat_step(fparts, out_fields@.len() as int);
            }
            let c = CppField::from_ir(f, n);
            log.add_warnings(c.log.warnings);
            out_fields.push(c.value);
            assert(frest@ =~= fs.skip(out_fields@.len() as int));
            assert(fnrest@ =~= fns.skip(out_fields@.len() as int));
        }
        proof {
            lemma_flat_all(fparts);
        }
        let ghost after_fields = log@;

        let ghost ms = methods@;
        let ghost mns = method_names@;
        let ghost mparts = Seq::new(ms.len(), |k: int| cpp_fn_from_ir_warnings(ms[k], mns[k]));
        let mut mrest = methods;
        let mut mnrest = method_names;
        let mut out_methods: Vec<CppFunction> = Vec::new();
        while mrest.len() > 0
            invariant
                ms.len() == mns.len(),
                forall|k: int| 0 <= k < ms.len() ==> cpp_fn_names_fit(#[trigger] ms[k], mns[k]),
                out_methods@.len() + mrest@.len() == ms.len(),
                mrest@ == ms.skip(out_methods@.len() as int),
                mnrest@ == mns.skip(out_methods@.len() as int),
                mparts == Seq::new(ms.len(), |k: int| cpp_fn_from_ir_warnings(ms[k], mns[k])),
                forall|k: int| 0 <= k < out_methods@.len() ==> cpp_fn_from_ir_is(#[trigger] out_methods@[k], ms[k], mns[k]),
                log@ == after_fields + flat(mparts.take(out_methods@.len() as int)),
            decreases mrest@.len(),
        {
            let m = mrest.remove(0);
            let n = mnrest.remove(0);
            proof {
                lemma_flat_step(mparts, out_methods@.len() as int);
                assert(cpp_fn_names_fit(ms[out_methods@.len() as int], mns[out_methods@.len() as int]));
            }
            let c = CppFunction::from_ir(m, n);
            log.add_warnings(c.log.warnings);
            out_methods.push(c.value);
            assert(mrest@ =~= ms.skip(out_methods@.len() as int));
            assert(mnrest@ =~= mns.skip(out_methods@.len() as int));
        }
        proof {
            lemma_flat_all(mparts);
        }
        let ghost after_methods = log@;

        let ghost bs = bases@;
        let ghost bparts = Seq::new(bs.len(), |k: int| cpp_visibility_from_ir_warnings(bs[k].visibility));
        let mut brest = bases;
        let mut out_bases: Vec<CppBase> = Vec::new();
        while brest.len() > 0
            invariant
                out_bases@.len() + brest@.len() == bs.len(),
                brest@ == bs.skip(out_bases@.len() as int),
                bparts == Seq::new(bs.len(), |k: int| cpp_visibility_from_ir_warnings(bs[k].visibility)),
                forall|k: int| 0 <= k < out_bases@.len() ==> (#[trigger] out_bases@[k]).name == bs[k].name
                    && out_bases@[k].visibility == cpp_visibility_from_ir(bs[k].visibility),
                log@ == after_methods + flat(bparts.take(out_bases@.len() as int)),
            decreases brest@.len(),
        {
            let b = brest.remove(0);
            proof {
                lemma_flat_step(bparts, out_bases@.len() as int);
            }
            let LanguageBase { name: base_name, visibility: base_visibility } = b;
            let v = CppVisibility::from_ir(base_visibility, None);
            log.add_warnings(v.log.warnings);
            out_bases.push(CppBase { name: base_name, visibility: v.value });
            assert(brest@ =~= bs.skip(out_bases@.len() as int));
        }
        proof {
            lemma_flat_all(bparts);
        }
        let ghost after_bases = log@;

        let ghost gs = generic_args@;
        let ghost gparts = Seq::new(gs.len(), |k: int| cpp_generic_from_ir_warnings(gs[k]));
        let mut grest = generic_args;
        let mut out_generics: Vec<CppGenericArgument> = Vec::new();
        while grest.len() > 0
            invariant
                out_generics@.len() + grest@.len() == gs.len(),
                grest@ == gs.skip(out_generics@.len() as int),
                gparts == Seq::new(gs.len(), |k: int| cpp_generic_from_ir_warnings(gs[k])),
                forall|k: int| 0 <= k < out_generics@.len() ==> {
                    &&& (#[trigger] out_generics@[k]).name == gs[k].name
                    &&& out_generics@[k].keyword == gs[k].keyword
                    &&& out_generics@[k].default_value == gs[k].default_value
                },
                log@ == after_bases + flat(gparts.take(out_generics@.len() as int)),
            decreases grest@.len(),
        {
            let g = grest.remove(0);
            proof {
                lemma_flat_step(gparts, out_generics@.len() as int);
            }
            let c = CppGenericArgument::from_ir(g, None);
            log.add_warnings(c.log.warnings);
            out_generics.push(c.value);
            assert(grest@ =~= gs.skip(out_generics@.len() as int));
        }
        proof {
            lemma_flat_all(gparts);
        }

        let visibility = CppVisibility::from_ir(visibility, None);
        log.add_warnings(visibility.log.warnings);
        let alignment = alignment_of(&annotations);
        report_foreign_cpp(&raw_attributes, &mut log);
        assert(log@ =~= cpp_struct_from_ir_warnings(inp, nm));
        let struct_kind = match struct_kind {
            LanguageStructKind::Struct => CppStructKind::Struct,
            LanguageStructKind::Class => CppStructKind::Class,
            LanguageStructKind::Union => CppStructKind::Union,
        };
        ConversionResult::with_log(
            CppStruct {
                struct_kind,
                is_final,
                alignment,
                name,
                template_params: out_generics,
                bases: out_bases,
                fields: out_fields,
                methods: out_methods,
                docs,
            },
            log,
        )
    }
}

} // verus!
