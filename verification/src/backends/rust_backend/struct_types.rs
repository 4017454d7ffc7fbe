use vstd::prelude::*;

use crate::conversion::ConversionConfig;

use super::attributes::{
    classify_rust_attributes, derive_texts, lemma_no_foreign_warnings, push_derives, rust_annotations, rust_foreign_warnings, rust_raw_derives,
    rust_raw_others, rust_raw_texts, sort_rust_raw,
};
use super::field_types::{
    rust_field_from_ir_is, rust_field_from_ir_warnings, rust_field_ir_is, rust_field_ir_warnings, RustFieldNames,
};
use super::function_types::{
    rust_fn_from_ir_is, rust_fn_from_ir_warnings, rust_fn_ir_is, rust_fn_ir_warnings, rust_fn_names_fit,
    rust_generics_to_ir, RustFunctionNames,
};
use crate::literal::has_prefix;
use super::generic_types::rust_generic_keyword;
use super::visibility::{rust_visibility_from_ir, rust_visibility_from_ir_warnings, rust_visibility_ir};
use super::{RustField, RustFunction, RustGenericArgument, RustVisibility};
use crate::backends::BackendItem;
use crate::text::{push_str, texts};
use crate::conversion::{
    feature_warning, flat, lemma_flat_all, lemma_flat_step, unsupported, ConversionLog, ConversionResult, WarningText,
};
use crate::ir::{push_resolved, resolved_texts, LanguageBase, LanguageGenericArgument, raw_attributes_are, LanguageField, LanguageFunction, LanguageStruct, LanguageStructKind, RawAttribute, TargetLanguage};

verus! {

/// Represents a Rust struct, together with the methods rendered in its `impl` block.
#[derive(Debug, Clone, PartialEq)]
pub struct RustStruct {
    /// The name of the struct.
    pub name: String,
    /// The visibility of the struct.
    pub visibility: RustVisibility,
    /// Generic parameters of the struct.
    pub generic_args: Vec<RustGenericArgument>,
    /// The fields of the struct.
    pub fields: Vec<RustField>,
    /// The methods rendered in an inherent `impl` block.
    pub methods: Vec<RustFunction>,
    /// Derives applied to the struct (e.g. `Debug`, `Clone`).
    pub derives: Vec<String>,
    /// Attributes applied to the struct (without the leading `#[`, e.g. `repr(C)`).
    pub attributes: Vec<String>,
    /// Whether the struct is a tuple struct (`struct Foo(A, B);`).
    pub is_tuple: bool,
    /// Optional documentation for the struct.
    pub docs: Option<Vec<String>>,
}

/// Render options for Rust structs.
#[derive(Debug, Clone, Copy)]
pub struct RustStructRenderOptions {
    /// Whether to render documentation comments.
    pub render_docs: bool,
    /// Whether to render derives and attributes.
    pub render_attributes: bool,
    /// Whether the attributes are written before the `#[derive(...)]` line (otherwise after it).
    pub attributes_before_derives: bool,
    /// Whether to render an `impl` block for the methods.
    pub render_impl: bool,
}

impl RustStructRenderOptions {
    /// The default options: docs, attributes (after the derives) and the `impl` block.
    pub open spec fn spec_default() -> Self {
        RustStructRenderOptions {
            render_docs: true,
            render_attributes: true,
            attributes_before_derives: false,
            render_impl: true,
        }
    }

    /// The given options, or the defaults.
    pub open spec fn or_default(o: Option<&Self>) -> Self {
        match o {
            Some(o) => *o,
            None => Self::spec_default(),
        }
    }
}

impl Default for RustStructRenderOptions {
    fn default() -> (r: Self)
        ensures
            r == Self::spec_default(),
    {
        RustStructRenderOptions {
            render_docs: true,
            render_attributes: true,
            attributes_before_derives: false,
            render_impl: true,
        }
    }
}


/// What converting a Rust struct to the IR loses: its tuple form, then what each field and each
/// method loses, in order.
pub open spec fn rust_struct_ir_warnings(st: RustStruct) -> Seq<WarningText> {
    (if st.is_tuple {
        seq![unsupported("tuple struct `"@ + st.name@ + "`"@, "lowered to a named-field struct in the language-agnostic IR"@)]
    } else {
        Seq::empty()
    }) + flat(Seq::new(st.fields@.len(), |i: int| rust_field_ir_warnings(st.fields@[i])))
        + flat(Seq::new(st.methods@.len(), |i: int| rust_fn_ir_warnings(st.methods@[i])))
}

/// Whether `r` is the IR of the Rust struct `st`: a final, non-abstract struct without bases,
/// with the same name and docs, its visibility, fields, methods and generic parameters
/// converted, its derives as raw `derive(..)` attributes followed by the attributes that map
/// to no annotation, and the annotations of the others.
pub open spec fn rust_struct_ir_is(r: LanguageStruct, st: RustStruct) -> bool {
    &&& r.visibility == rust_visibility_ir(st.visibility)
    &&& r.struct_kind == LanguageStructKind::Struct
    &&& !r.is_abstract && r.is_final
    &&& r.name == st.name
    &&& r.generic_args@.len() == st.generic_args@.len()
    &&& forall|i: int| 0 <= i < r.generic_args@.len() ==> {
        &&& (#[trigger] r.generic_args@[i]).name == st.generic_args@[i].name
        &&& r.generic_args@[i].keyword@ == rust_generic_keyword(st.generic_args@[i])
        &&& r.generic_args@[i].default_value == st.generic_args@[i].default_value
        &&& r.generic_args@[i].where_clause == st.generic_args@[i].bounds
    }
    &&& r.bases@.len() == 0
    &&& r.fields@.len() == st.fields@.len()
    &&& forall|i: int| 0 <= i < st.fields@.len() ==> rust_field_ir_is(#[trigger] r.fields@[i], st.fields@[i])
    &&& r.methods@.len() == st.methods@.len()
    &&& forall|i: int| 0 <= i < st.methods@.len() ==> rust_fn_ir_is(#[trigger] r.methods@[i], st.methods@[i])
    &&& r.docs == st.docs
    &&& r.annotations@ == rust_annotations(st.attributes@)
    &&& raw_attributes_are(r.raw_attributes@, TargetLanguage::Rust, derive_texts(st.derives@) + rust_raw_texts(st.attributes@))
}

/// Converts the fields to the IR, in order, appending what each loses to `log`.
fn rust_fields_to_ir(fs: Vec<RustField>, log: &mut ConversionLog) -> (r: Vec<LanguageField>)
    ensures
        r@.len() == fs@.len(),
        forall|k: int| 0 <= k < r@.len() ==> rust_field_ir_is(#[trigger] r@[k], fs@[k]),
        final(log)@ == old(log)@ + flat(Seq::new(fs@.len(), |i: int| rust_field_ir_warnings(fs@[i]))),
{
    let ghost all = fs@;
    let ghost parts = Seq::new(fs@.len(), |i: int| rust_field_ir_warnings(fs@[i]));
    let ghost start = log@;
    let mut rest = fs;
    let mut out: Vec<LanguageField> = Vec::new();
    while rest.len() > 0
        invariant
            out@.len() + rest@.len() == all.len(),
            rest@ == all.skip(out@.len() as int),
            parts == Seq::new(all.len(), |i: int| rust_field_ir_warnings(all[i])),
            forall|k: int| 0 <= k < out@.len() ==> rust_field_ir_is(#[trigger] out@[k], all[k]),
            log@ == start + flat(parts.take(out@.len() as int)),
        decreases rest@.len(),
    {
        let f = rest.remove(0);
        proof {
            lemma_flat_step(parts, out@.len() as int);
        }
        let c = f.to_ir(None);
        log.add_warnings(c.log.warnings);
        out.push(c.value);
        assert(rest@ =~= all.skip(out@.len() as int));
    }
    proof {
        lemma_flat_all(parts);
    }
    out
}

/// Converts the methods to the IR, in order, appending what each loses to `log`.
fn rust_methods_to_ir(ms: Vec<RustFunction>, log: &mut ConversionLog) -> (r: Vec<LanguageFunction>)
    ensures
        r@.len() == ms@.len(),
        forall|k: int| 0 <= k < r@.len() ==> rust_fn_ir_is(#[trigger] r@[k], ms@[k]),
        final(log)@ == old(log)@ + flat(Seq::new(ms@.len(), |i: int| rust_fn_ir_warnings(ms@[i]))),
{
    let ghost all = ms@;
    let ghost parts = Seq::new(ms@.len(), |i: int| rust_fn_ir_warnings(ms@[i]));
    let ghost start = log@;
    let mut rest = ms;
    let mut out: Vec<LanguageFunction> = Vec::new();
    while rest.len() > 0
        invariant
            out@.len() + rest@.len() == all.len(),
            rest@ == all.skip(out@.len() as int),
            parts == Seq::new(all.len(), |i: int| rust_fn_ir_warnings(all[i])),
            forall|k: int| 0 <= k < out@.len() ==> rust_fn_ir_is(#[trigger] out@[k], all[k]),
            log@ == start + flat(parts.take(out@.len() as int)),
        decreases rest@.len(),
    {
        let m = rest.remove(0);
        proof {
            lemma_flat_step(parts, out@.len() as int);
        }
        let c = m.to_ir(None);
        log.add_warnings(c.log.warnings);
        out.push(c.value);
        assert(rest@ =~= all.skip(out@.len() as int));
    }
    proof {
        lemma_flat_all(parts);
    }
    out
}

impl RustStruct {
    /// Converts the struct to the IR. A tuple struct is lowered to a named-field struct, which
    /// is reported, as is what its fields and methods lose.
    fn convert(self) -> (r: ConversionResult<LanguageStruct>)
        ensures
            rust_struct_ir_is(r.value, self),
            r.log@ == rust_struct_ir_warnings(self),
    {
        let ghost st = self;
        let mut log = ConversionLog::new();
        let mut raw_attributes: Vec<RawAttribute> = Vec::new();
        push_derives(&self.derives, &mut raw_attributes);
        let ghost nd = raw_attributes@.len();
        let annotations = classify_rust_attributes(&self.attributes, &mut raw_attributes);
        assert(raw_attributes_are(
            raw_attributes@,
            TargetLanguage::Rust,
            derive_texts(st.derives@) + rust_raw_texts(st.attributes@),
        )) by {
            let texts = derive_texts(st.derives@) + rust_raw_texts(st.attributes@);
            assert forall|i: int| 0 <= i < raw_attributes@.len() implies (#[trigger] raw_attributes@[i]).source
                == TargetLanguage::Rust && raw_attributes@[i].text@ == texts[i] by {
                if i >= nd {
                    assert(raw_attributes@[nd + (i - nd)].text@ == rust_raw_texts(st.attributes@)[i - nd]);
                }
            }
        }
        if self.is_tuple {
            log.add_warning(feature_warning(
                "tuple struct `",
                self.name.as_str(),
                "`",
                "lowered to a named-field struct in the language-agnostic IR",
            ));
        }
        let visibility = self.visibility.to_ir(None);
        log.add_warnings(visibility.log.warnings);
        let RustStruct { name, visibility: _, generic_args, fields, methods, derives: _, attributes: _, is_tuple: _, docs } = self;
        let ir_fields = rust_fields_to_ir(fields, &mut log);
        let ir_methods = rust_methods_to_ir(methods, &mut log);
        assert(log@ =~= rust_struct_ir_warnings(st));
        ConversionResult::with_log(
            LanguageStruct {
                visibility: visibility.value,
                struct_kind: LanguageStructKind::Struct,
                is_abstract: false,
                is_final: true,
                name,
                generic_args: rust_generics_to_ir(generic_args),
                bases: Vec::new(),
                fields: ir_fields,
                methods: ir_methods,
                docs,
                annotations,
                raw_attributes,
            },
            log,
        )
    }

    /// Converts the struct to the IR. A tuple struct is lowered to a named-field struct, which
    /// is reported, as is what its fields and methods lose.
    /// The user's hook, if the options carry one, is applied to the result.
    pub fn to_ir(self, options: Option<&RustStructConversionOptions>) -> (r: ConversionResult<LanguageStruct>)
        ensures
            !RustStructConversionOptions::hooked(options) ==> rust_struct_ir_is(r.value, self),
            r.log@ == rust_struct_ir_warnings(self),
    {
        let mut r = self.convert();
        if let Some(o) = options {
            o.config.after_to_ir_struct(&mut r.value);
        }
        r
    }
}


/// Conversion options for Rust structs: the conversion's configuration.
#[derive(Clone)]
pub struct RustStructConversionOptions {
    /// The conversion configuration (the user's hooks).
    pub config: ConversionConfig,
}

impl Default for RustStructConversionOptions {
    fn default() -> (r: Self)
        ensures
            r.config.hooks is None,
    {
        RustStructConversionOptions { config: ConversionConfig::default() }
    }
}

impl RustStructConversionOptions {
    /// Whether options are given and carry hooks.
    pub open spec fn hooked(o: Option<&Self>) -> bool {
        o matches Some(x) && x.config.hooks is Some
    }
}


/// What the configuration of a conversion made of an IR struct's annotations, fields and
/// methods: the Rust attribute each annotation maps to (if any), and the names of each field
/// and each method.
pub struct RustStructNames {
    pub annotation_attributes: Vec<Option<String>>,
    pub fields: Vec<RustFieldNames>,
    pub methods: Vec<RustFunctionNames>,
}

/// Whether the names fit the struct: names for each field and each method.
pub open spec fn rust_struct_names_fit(input: LanguageStruct, names: RustStructNames) -> bool {
    &&& names.fields@.len() == input.fields@.len()
    &&& names.methods@.len() == input.methods@.len()
    &&& forall|i: int| 0 <= i < input.methods@.len() ==> rust_fn_names_fit(#[trigger] input.methods@[i], names.methods@[i])
}

/// The warning for a base of the struct `name`, which Rust has no inheritance for.
pub open spec fn rust_base_warning(base: LanguageBase, name: Seq<char>) -> WarningText {
    unsupported(
        "base `"@ + base.name@ + "` of `"@ + name + "`"@,
        "Rust has no inheritance; the base was dropped (use composition/traits)"@,
    )
}

/// What converting an IR struct to Rust loses: a union, `abstract`, each base, what its
/// visibility loses, each raw attribute of another language, then what each field and each
/// method loses.
pub open spec fn rust_struct_from_ir_warnings(input: LanguageStruct, names: RustStructNames) -> Seq<WarningText> {
    (if input.struct_kind == LanguageStructKind::Union {
        seq![unsupported(
            "union `"@ + input.name@ + "`"@,
            "lowered to a Rust struct (use a `union` manually for C layout)"@,
        )]
    } else {
        Seq::empty()
    }) + (if input.is_abstract {
        seq![unsupported("abstract type `"@ + input.name@ + "`"@, "Rust structs cannot be abstract; consider a trait"@)]
    } else {
        Seq::empty()
    }) + Seq::new(input.bases@.len(), |i: int| rust_base_warning(input.bases@[i], input.name@))
        + rust_visibility_from_ir_warnings(input.visibility) + rust_foreign_warnings(input.raw_attributes@) + flat(
        Seq::new(input.fields@.len(), |i: int| rust_field_from_ir_warnings(input.fields@[i], names.fields@[i])),
    ) + flat(Seq::new(input.methods@.len(), |i: int| rust_fn_from_ir_warnings(input.methods@[i], names.methods@[i])))
}

/// Whether `r` is the Rust struct an IR struct converts to, given its names: the same name and
/// docs, its visibility, fields, methods and generic parameters converted, its raw `derive(..)`
/// attributes as derives, the resolved annotations then its other raw Rust attributes as
/// attributes, and not a tuple struct.
pub open spec fn rust_struct_from_ir_is(r: RustStruct, input: LanguageStruct, names: RustStructNames) -> bool {
    &&& r.name == input.name
    &&& r.visibility == rust_visibility_from_ir(input.visibility)
    &&& r.generic_args@.len() == input.generic_args@.len()
    &&& forall|i: int| 0 <= i < r.generic_args@.len() ==> {
        &&& (#[trigger] r.generic_args@[i]).name == input.generic_args@[i].name
        &&& r.generic_args@[i].is_lifetime == (input.generic_args@[i].keyword@ == "lifetime"@)
        &&& (r.generic_args@[i].const_type is Some <==> has_prefix(input.generic_args@[i].keyword@, "const "@))
        &&& (r.generic_args@[i].const_type matches Some(t) ==> t@ == input.generic_args@[i].keyword@.skip(
            "const "@.len() as int,
        ))
        &&& r.generic_args@[i].bounds == input.generic_args@[i].where_clause
        &&& r.generic_args@[i].default_value == input.generic_args@[i].default_value
    }
    &&& r.fields@.len() == input.fields@.len()
    &&& forall|i: int|
        0 <= i < r.fields@.len() ==> rust_field_from_ir_is(#[trigger] r.fields@[i], input.fields@[i], names.fields@[i])
    &&& r.methods@.len() == input.methods@.len()
    &&& forall|i: int|
        0 <= i < r.methods@.len() ==> rust_fn_from_ir_is(#[trigger] r.methods@[i], input.methods@[i], names.methods@[i])
    &&& texts(r.derives@) == rust_raw_derives(input.raw_attributes@)
    &&& texts(r.attributes@) == resolved_texts(names.annotation_attributes@) + rust_raw_others(input.raw_attributes@)
    &&& !r.is_tuple
    &&& r.docs == input.docs
}

impl RustStruct {
    /// Converts an IR struct to Rust, given the names of its members and the attributes of its
    /// annotations as the conversion's configuration resolved them. The caller applies the user's
    /// `before_from_ir_*` hook, if any, to the input first.
    pub fn from_ir(input: LanguageStruct, names: RustStructNames) -> (r: ConversionResult<RustStruct>)
        requires
            rust_struct_names_fit(input, names),
        ensures
            rust_struct_from_ir_is(r.value, input, names),
            r.log@ == rust_struct_from_ir_warnings(input, names),
    {
        let ghost inp = input;
        let ghost nm = names;
        let mut log = ConversionLog::new();
        if input.struct_kind == LanguageStructKind::Union {
            log.add_warning(feature_warning(
                "union `",
                input.name.as_str(),
                "`",
                "lowered to a Rust struct (use a `union` manually for C layout)",
            ));
        }
        if input.is_abstract {
            log.add_warning(feature_warning(
                "abstract type `",
                input.name.as_str(),
                "`",
                "Rust structs cannot be abstract; consider a trait",
            ));
        }
        let ghost l1 = log@;
        let mut i: usize = 0;
        while i < input.bases.len()
            invariant
                i <= input.bases@.len(),
                input == inp,
                log@ == l1 + Seq::new(i as nat, |k: int| rust_base_warning(inp.bases@[k], inp.name@)),
            decreases input.bases@.len() - i,
        {
            let mut pre = String::new();
            push_str(&mut pre, "base `");
            push_str(&mut pre, input.bases[i].name.as_str());
            push_str(&mut pre, "` of `");
            log.add_warning(feature_warning(
                pre.as_str(),
                input.name.as_str(),
                "`",
                "Rust has no inheritance; the base was dropped (use composition/traits)",
            ));
            i = i + 1;
            assert(log@ =~= l1 + Seq::new(i as nat, |k: int| rust_base_warning(inp.bases@[k], inp.name@)));
        }
        let RustStructNames { annotation_attributes, fields: field_names, methods: method_names } = names;
        let LanguageStruct {
            visibility,
            struct_kind: _,
            is_abstract: _,
            is_final: _,
            name,
            generic_args,
            bases: _,
            fields,
            methods,
            docs,
            annotations: _,
            raw_attributes,
        } = input;
        let visibility = RustVisibility::from_ir(visibility, None);
        log.add_warnings(visibility.log.warnings);
        let mut derives: Vec<String> = Vec::new();
        let mut attributes: Vec<String> = Vec::new();
        assert(texts(derives@) =~= Seq::<Seq<char>>::empty());
        assert(texts(attributes@) =~= Seq::<Seq<char>>::empty());
        push_resolved(annotation_attributes, &mut attributes);
        sort_rust_raw(&raw_attributes, &mut derives, &mut attributes, &mut log);
        let ghost head = log@;

        let ghost fs = fields@;
        let ghost fns = field_names@;
        let ghost fparts = Seq::new(fs.len(), |k: int| rust_field_from_ir_warnings(fs[k], fns[k]));
        let mut frest = fields;
        let mut fnrest = field_names;
        let mut out_fields: Vec<RustField> = Vec::new();
        while frest.len() > 0
            invariant
                fs.len() == fns.len(),
                out_fields@.len() + frest@.len() == fs.len(),
                frest@ == fs.skip(out_fields@.len() as int),
                fnrest@ == fns.skip(out_fields@.len() as int),
                fparts == Seq::new(fs.len(), |k: int| rust_field_from_ir_warnings(fs[k], fns[k])),
                forall|k: int| 0 <= k < out_fields@.len() ==> rust_field_from_ir_is(#[trigger] out_fields@[k], fs[k], fns[k]),
                log@ == head + flat(fparts.take(out_fields@.len() as int)),
            decreases frest@.len(),
        {
            let f = frest.remove(0);
            let n = fnrest.remove(0);
            proof {
                lemma_flat_step(fparts, out_fields@.len() as int);
            }
            let c = RustField::from_ir(f, n);
            log.add_warnings(c.log.warnings);
            out_fields.push(c.value);
            assert(frest@ =~= fs.skip(out_fields@.len() as int));
            assert(fnrest@ =~= fns.skip(out_fields@.len() as int));
        }
        proof {
            lemma_flat_all(fparts);
        }
        let ghost after_fields = log@;

        let ghost ms = methods@;
        let ghost mns = method_names@;
        let ghost mparts = Seq::new(ms.len(), |k: int| rust_fn_from_ir_warnings(ms[k], mns[k]));
        let mut mrest = methods;
        let mut mnrest = method_names;
        let mut out_methods: Vec<RustFunction> = Vec::new();
        while mrest.len() > 0
            invariant
                ms.len() == mns.len(),
                forall|k: int| 0 <= k < ms.len() ==> rust_fn_names_fit(#[trigger] ms[k], mns[k]),
                out_methods@.len() + mrest@.len() == ms.len(),
                mrest@ == ms.skip(out_methods@.len() as int),
                mnrest@ == mns.skip(out_methods@.len() as int),
                mparts == Seq::new(ms.len(), |k: int| rust_fn_from_ir_warnings(ms[k], mns[k])),
                forall|k: int| 0 <= k < out_methods@.len() ==> rust_fn_from_ir_is(#[trigger] out_methods@[k], ms[k], mns[k]),
                log@ == after_fields + flat(mparts.take(out_methods@.len() as int)),
            decreases mrest@.len(),
        {
            let m = mrest.remove(0);
            let n = mnrest.remove(0);
            proof {
                lemma_flat_step(mparts, out_methods@.len() as int);
                assert(rust_fn_names_fit(ms[out_methods@.len() as int], mns[out_methods@.len() as int]));
            }
            let c = RustFunction::from_ir(m, n);
            log.add_warnings(c.log.warnings);
            out_methods.push(c.value);
            assert(mrest@ =~= ms.skip(out_methods@.len() as int));
            assert(mnrest@ =~= mns.skip(out_methods@.len() as int));
        }
        proof {
            lemma_flat_all(mparts);
        }

        let ghost gs = generic_args@;
        let mut grest = generic_args;
        let mut out_generics: Vec<RustGenericArgument> = Vec::new();
        while grest.len() > 0
            invariant
                out_generics@.len() + grest@.len() == gs.len(),
                grest@ == gs.skip(out_generics@.len() as int),
                forall|k: int| 0 <= k < out_generics@.len() ==> {
                    &&& (#[trigger] out_generics@[k]).name == gs[k].name
                    &&& out_generics@[k].is_lifetime == (gs[k].keyword@ == "lifetime"@)
                    &&& (out_generics@[k].const_type is Some <==> has_prefix(gs[k].keyword@, "const "@))
                    &&& (out_generics@[k].const_type matches Some(t) ==> t@ == gs[k].keyword@.skip("const "@.len() as int))
                    &&& out_generics@[k].bounds == gs[k].where_clause
                    &&& out_generics@[k].default_value == gs[k].default_value
                },
            decreases grest@.len(),
        {
            let g = grest.remove(0);
            out_generics.push(RustGenericArgument::from_ir(g, None).value);
            assert(grest@ =~= gs.skip(out_generics@.len() as int));
        }
        assert(log@ =~= rust_struct_from_ir_warnings(inp, nm));
        ConversionResult::with_log(
            RustStruct {
                name,
                visibility: visibility.value,
                generic_args: out_generics,
                fields: out_fields,
                methods: out_methods,
                derives,
                attributes,
                is_tuple: false,
                docs,
            },
            log,
        )
    }
}

/// No loss goes unreported on the way from the IR: an IR struct whose conversion to Rust logs
/// no warning has no base, is neither a union nor abstract, and has only Rust raw attributes.
pub proof fn rust_struct_from_ir_reports_every_loss(input: LanguageStruct, names: RustStructNames)
    requires
        rust_struct_from_ir_warnings(input, names).len() == 0,
    ensures
        input.bases@.len() == 0,
        input.struct_kind != LanguageStructKind::Union,
        !input.is_abstract,
        forall|i: int|
            0 <= i < input.raw_attributes@.len() ==> (#[trigger] input.raw_attributes@[i]).source == TargetLanguage::Rust,
{
    lemma_no_foreign_warnings(input.raw_attributes@);
}

} // verus!
