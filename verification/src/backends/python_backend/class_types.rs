use vstd::prelude::*;

use crate::conversion::ConversionConfig;

use super::function_types::{
    python_fn_from_ir_is, python_fn_from_ir_warnings, python_fn_ir_is, python_fn_names_fit, PythonFunctionConversionOptions,
    PythonFunctionNames,
};
use crate::ir::{docs_of_docstring, docs_to_docstring, docstring_of_docs, docstring_to_docs};
use super::PythonFunction;
use crate::conversion::{
    dropped_annotations, dropped_annotations_warning, dropped_feature, dropped_feature_warning, flat, lemma_flat_all,
    lemma_flat_step, ConversionLog, ConversionResult, WarningText,
};
use crate::ir::{LanguageBase, LanguageField, LanguageFunction, LanguageStruct, LanguageStructKind, Visibility};

verus! {

/// A class-level assignment of a plain Python class (`name = value`).
#[derive(Debug, Clone, PartialEq)]
pub struct PythonClassField {
    /// The name of the attribute.
    pub name: String,
    /// The value expression, rendered verbatim.
    pub value: String,
}

/// A plain Python class: `class Name(Base, ...):` with class-level assignments and methods.
#[derive(Debug, Clone, PartialEq)]
pub struct PythonClass {
    /// The name of the class.
    pub name: String,
    /// The base classes.
    pub bases: Vec<String>,
    /// The class-level assignments.
    pub fields: Vec<PythonClassField>,
    /// The methods.
    pub methods: Vec<PythonFunction>,
    /// Optional class docstring, rendered as the first triple-quoted body line.
    pub docstring: Option<String>,
}

/// Render options for Python classes.
#[derive(Debug, Clone, Copy)]
pub struct PythonClassRenderOptions {
    /// Whether to render the docstring.
    pub render_docstring: bool,
}

impl PythonClassRenderOptions {
    /// The given options, or the defaults (docstring rendered).
    pub open spec fn or_default(o: Option<&Self>) -> Self {
        match o {
            Some(o) => *o,
            None => PythonClassRenderOptions { render_docstring: true },
        }
    }
}

impl Default for PythonClassRenderOptions {
    fn default() -> (r: Self)
        ensures
            r.render_docstring,
    {
        PythonClassRenderOptions { render_docstring: true }
    }
}


/// Whether `r` is the IR of the Python class `c`: a public, non-final class with the same name,
/// its bases as public bases, its class-level assignments as untyped public static fields
/// (their values are not carried), its methods converted, and its docstring as docs.
pub open spec fn python_class_ir_is(r: LanguageStruct, c: PythonClass) -> bool {
    &&& r.visibility == Visibility::Public
    &&& r.struct_kind == LanguageStructKind::Class
    &&& !r.is_abstract && !r.is_final
    &&& r.name == c.name
    &&& r.generic_args@.len() == 0
    &&& r.bases@.len() == c.bases@.len()
    &&& forall|i: int| 0 <= i < r.bases@.len() ==> (#[trigger] r.bases@[i]).name == c.bases@[i]
        && r.bases@[i].visibility == Visibility::Public
    &&& r.fields@.len() == c.fields@.len()
    &&& forall|i: int| 0 <= i < r.fields@.len() ==> {
        &&& (#[trigger] r.fields@[i]).name == c.fields@[i].name
        &&& r.fields@[i].field_type@ == Seq::<char>::empty()
        &&& r.fields@[i].visibility == Visibility::Public
        &&& r.fields@[i].is_static && !r.fields@[i].is_const
        &&& r.fields@[i].docs is None
        &&& r.fields@[i].annotations@.len() == 0 && r.fields@[i].raw_attributes@.len() == 0
    }
    &&& r.methods@.len() == c.methods@.len()
    &&& forall|i: int| 0 <= i < r.methods@.len() ==> python_fn_ir_is(#[trigger] r.methods@[i], c.methods@[i])
    &&& docs_of_docstring(r.docs, c.docstring)
    &&& r.annotations@.len() == 0
    &&& r.raw_attributes@.len() == 0
}

impl PythonClass {
    /// Converts the class to the IR. Nothing is reported lost, though the values of the
    /// class-level assignments are not carried.
    fn convert(self, method_options: Option<&PythonFunctionConversionOptions>) -> (r: ConversionResult<LanguageStruct>)
        ensures
            !PythonFunctionConversionOptions::hooked(method_options) ==> python_class_ir_is(r.value, self),
            r.log@ == Seq::<WarningText>::empty(),
    {
        let PythonClass { name, bases, fields, methods, docstring } = self;
        let ghost fs = fields@;
        let mut frest = fields;
        let mut ir_fields: Vec<LanguageField> = Vec::new();
        while frest.len() > 0
            invariant
                ir_fields@.len() + frest@.len() == fs.len(),
                frest@ == fs.skip(ir_fields@.len() as int),
                forall|i: int| 0 <= i < ir_fields@.len() ==> {
                    &&& (#[trigger] ir_fields@[i]).name == fs[i].name
                    &&& ir_fields@[i].field_type@ == Seq::<char>::empty()
                    &&& ir_fields@[i].visibility == Visibility::Public
                    &&& ir_fields@[i].is_static && !ir_fields@[i].is_const
                    &&& ir_fields@[i].docs is None
                    &&& ir_fields@[i].annotations@.len() == 0 && ir_fields@[i].raw_attributes@.len() == 0
                },
            decreases frest@.len(),
        {
            let f = frest.remove(0);
            ir_fields.push(LanguageField {
                name: f.name,
                field_type: String::new(),
                visibility: Visibility::Public,
                is_static: true,
                is_const: false,
                docs: None,
                annotations: Vec::new(),
                raw_attributes: Vec::new(),
            });
            assert(frest@ =~= fs.skip(ir_fields@.len() as int));
        }
        let ghost ms = methods@;
        let mut mrest = methods;
        let mut ir_methods: Vec<LanguageFunction> = Vec::new();
        while mrest.len() > 0
            invariant
                ir_methods@.len() + mrest@.len() == ms.len(),
                mrest@ == ms.skip(ir_methods@.len() as int),
                !PythonFunctionConversionOptions::hooked(method_options) ==> forall|i: int|
                    0 <= i < ir_methods@.len() ==> python_fn_ir_is(#[trigger] ir_methods@[i], ms[i]),
            decreases mrest@.len(),
        {
            let m = mrest.remove(0);
            ir_methods.push(m.to_ir(method_options).value);
            assert(mrest@ =~= ms.skip(ir_methods@.len() as int));
        }
        let ghost bs = bases@;
        let mut brest = bases;
        let mut ir_bases: Vec<LanguageBase> = Vec::new();
        while brest.len() > 0
            invariant
                ir_bases@.len() + brest@.len() == bs.len(),
                brest@ == bs.skip(ir_bases@.len() as int),
                forall|i: int| 0 <= i < ir_bases@.len() ==> (#[trigger] ir_bases@[i]).name == bs[i]
                    && ir_bases@[i].visibility == Visibility::Public,
            decreases brest@.len(),
        {
            let b = brest.remove(0);
            ir_bases.push(LanguageBase { name: b, visibility: Visibility::Public });
            assert(brest@ =~= bs.skip(ir_bases@.len() as int));
        }
        ConversionResult::new(LanguageStruct {
            visibility: Visibility::Public,
            struct_kind: LanguageStructKind::Class,
            is_abstract: false,
            is_final: false,
            name,
            generic_args: Vec::new(),
            bases: ir_bases,
            fields: ir_fields,
            methods: ir_methods,
            docs: docstring_to_docs(docstring),
            annotations: Vec::new(),
            raw_attributes: Vec::new(),
        })
    }

    /// Converts the class to the IR, its methods with the same configuration, then applies the
    /// user's hooks, if any. Nothing is reported lost, though the values of the class-level
    /// assignments are not carried.
    /// The user's hook, if the options carry one, is applied to the result.
    pub fn to_ir(self, options: Option<&PythonClassConversionOptions>) -> (r: ConversionResult<LanguageStruct>)
        ensures
            !PythonClassConversionOptions::hooked(options) ==> python_class_ir_is(r.value, self),
            r.log@ == Seq::<WarningText>::empty(),
    {
        let method_options = PythonFunctionConversionOptions {
            config: match options {
                Some(o) => o.config.share(),
                None => ConversionConfig::default(),
            },
        };
        assert(!PythonClassConversionOptions::hooked(options) ==> !PythonFunctionConversionOptions::hooked(
            Some(&method_options),
        ));
        let mut r = self.convert(Some(&method_options));
        if let Some(o) = options {
            o.config.after_to_ir_struct(&mut r.value);
        }
        r
    }
}


/// Conversion options for Python classes: the conversion's configuration.
#[derive(Clone)]
pub struct PythonClassConversionOptions {
    /// The conversion configuration (the user's hooks).
    pub config: ConversionConfig,
}

impl Default for PythonClassConversionOptions {
    fn default() -> (r: Self)
        ensures
            r.config.hooks is None,
    {
        PythonClassConversionOptions { config: ConversionConfig::default() }
    }
}

impl PythonClassConversionOptions {
    /// Whether options are given and carry hooks.
    pub open spec fn hooked(o: Option<&Self>) -> bool {
        o matches Some(x) && x.config.hooks is Some
    }
}

/// What the configuration of a conversion made of an IR struct's names: the class's Python
/// name, each field's, and the names of each method.
pub struct PythonClassNames {
    pub name: ConversionResult<String>,
    pub fields: Vec<ConversionResult<String>>,
    pub methods: Vec<PythonFunctionNames>,
}

/// Whether the names fit the struct: a name for each field and names fitting each method.
pub open spec fn python_class_names_fit(input: LanguageStruct, names: PythonClassNames) -> bool {
    &&& names.fields@.len() == input.fields@.len()
    &&& names.methods@.len() == input.methods@.len()
    &&& forall|i: int|
        0 <= i < input.methods@.len() ==> python_fn_names_fit(#[trigger] input.methods@[i], names.methods@[i])
}

/// What converting an IR struct to a Python class loses: what renaming reports, its generic
/// parameters, its annotations and raw attributes, and its field values (the fields are
/// declared as `None`), then what renaming each field and converting each method reports.
pub open spec fn python_class_from_ir_warnings(input: LanguageStruct, names: PythonClassNames) -> Seq<WarningText> {
    names.name.log@ + (if input.generic_args@.len() > 0 {
        seq![dropped_feature("generic arguments"@, input.name@, "Python"@)]
    } else {
        Seq::empty()
    }) + (if input.annotations@.len() + input.raw_attributes@.len() > 0 {
        seq![dropped_annotations(
            (input.annotations@.len() + input.raw_attributes@.len()) as nat,
            "class"@,
            input.name@,
            "Python"@,
        )]
    } else {
        Seq::empty()
    }) + (if input.fields@.len() > 0 {
        seq![dropped_feature("field values"@, input.name@, "Python"@)]
    } else {
        Seq::empty()
    }) + flat(Seq::new(input.fields@.len(), |i: int| names.fields@[i].log@)) + flat(
        Seq::new(input.methods@.len(), |i: int| python_fn_from_ir_warnings(input.methods@[i], names.methods@[i])),
    )
}

/// Whether `r` is the Python class an IR struct converts to, given its names: its bases by
/// name, each field renamed and set to `None`, each method converted, and the docs joined into
/// the docstring.
pub open spec fn python_class_from_ir_is(r: PythonClass, input: LanguageStruct, names: PythonClassNames) -> bool {
    &&& r.name == names.name.value
    &&& r.bases@.len() == input.bases@.len()
    &&& forall|i: int| 0 <= i < r.bases@.len() ==> #[trigger] r.bases@[i] == input.bases@[i].name
    &&& r.fields@.len() == input.fields@.len()
    &&& forall|i: int| 0 <= i < r.fields@.len() ==> {
        &&& (#[trigger] r.fields@[i]).name == names.fields@[i].value
        &&& r.fields@[i].value@ == "None"@
    }
    &&& r.methods@.len() == input.methods@.len()
    &&& forall|i: int|
        0 <= i < r.methods@.len() ==> python_fn_from_ir_is(#[trigger] r.methods@[i], input.methods@[i], names.methods@[i])
    &&& (r.docstring is None <==> input.docs is None)
    &&& (r.docstring matches Some(d) ==> docstring_of_docs(input.docs) == Some(d@))
}

impl PythonClass {
    /// Converts an IR struct to a Python class, given its names as the conversion's
    /// configuration resolved them. The caller applies the user's `before_from_ir_*` hook, if any, to the input first.
    pub fn from_ir(input: LanguageStruct, names: PythonClassNames) -> (r: ConversionResult<PythonClass>)
        requires
            python_class_names_fit(input, names),
        ensures
            python_class_from_ir_is(r.value, input, names),
            r.log@ == python_class_from_ir_warnings(input, names),
    {
        let ghost inp = input;
        let ghost nm = names;
        let mut log = ConversionLog::new();
        let PythonClassNames { name, fields: field_names, methods: method_names } = names;
        log.add_warnings(name.log.warnings);
        if input.generic_args.len() > 0 {
            log.add_warning(dropped_feature_warning("generic arguments", input.name.as_str(), "Python"));
        }
        let annotated: u128 = input.annotations.len() as u128 + input.raw_attributes.len() as u128;
        if annotated > 0 {
            log.add_warning(dropped_annotations_warning(annotated, "class", input.name.as_str(), "Python"));
        }
        if input.fields.len() > 0 {
            log.add_warning(dropped_feature_warning("field values", input.name.as_str(), "Python"));
        }
        let ghost head = log@;
        let LanguageStruct { bases, fields, methods, docs, .. } = input;

        let ghost fs = fields@;
        let ghost fns = field_names@;
        let ghost fparts = Seq::new(fs.len(), |k: int| fns[k].log@);
        let mut frest = fields;
        let mut fnrest = field_names;
        let mut out_fields: Vec<PythonClassField> = Vec::new();
        while frest.len() > 0
            invariant
                fs.len() == fns.len(),
                out_fields@.len() + frest@.len() == fs.len(),
                frest@ == fs.skip(out_fields@.len() as int),
                fnrest@ == fns.skip(out_fields@.len() as int),
                fparts == Seq::new(fs.len(), |k: int| fns[k].log@),
                forall|k: int| 0 <= k < out_fields@.len() ==> {
                    &&& (#[trigger] out_fields@[k]).name == fns[k].value
                    &&& out_fields@[k].value@ == "None"@
                },
                log@ == head + flat(fparts.take(out_fields@.len() as int)),
            decreases frest@.len(),
        {
            let _f = frest.remove(0);
            let n = fnrest.remove(0);
            proof {
                lemma_flat_step(fparts, out_fields@.len() as int);
            }
            log.add_warnings(n.log.warnings);
            out_fields.push(PythonClassField { name: n.value, value: "None".to_string() });
            assert(frest@ =~= fs.skip(out_fields@.len() as int));
            assert(fnrest@ =~= fns.skip(out_fields@.len() as int));
        }
        proof {
            lemma_flat_all(fparts);
        }
        let ghost after_fields = log@;

        let ghost ms = methods@;
        let ghost mns = method_names@;
        let ghost mparts = Seq::new(ms.len(), |k: int| python_fn_from_ir_warnings(ms[k], mns[k]));
        let mut mrest = methods;
        let mut mnrest = method_names;
        let mut out_methods: Vec<PythonFunction> = Vec::new();
        while mrest.len() > 0
            invariant
                ms.len() == mns.len(),
                forall|k: int| 0 <= k < ms.len() ==> python_fn_names_fit(#[trigger] ms[k], mns[k]),
                out_methods@.len() + mrest@.len() == ms.len(),
                mrest@ == ms.skip(out_methods@.len() as int),
                mnrest@ == mns.skip(out_methods@.len() as int),
                mparts == Seq::new(ms.len(), |k: int| python_fn_from_ir_warnings(ms[k], mns[k])),
                forall|k: int| 0 <= k < out_methods@.len() ==> python_fn_from_ir_is(#[trigger] out_methods@[k], ms[k], mns[k]),
                log@ == after_fields + flat(mparts.take(out_methods@.len() as int)),
            decreases mrest@.len(),
        {
            let m = mrest.remove(0);
            let n = mnrest.remove(0);
            proof {
                lemma_flat_step(mparts, out_methods@.len() as int);
                assert(python_fn_names_fit(ms[out_methods@.len() as int], mns[out_methods@.len() as int]));
            }
            let c = PythonFunction::from_ir(m, n);
            log.add_warnings(c.log.warnings);
            out_methods.push(c.value);
            assert(mrest@ =~= ms.skip(out_methods@.len() as int));
            assert(mnrest@ =~= mns.skip(out_methods@.len() as int));
        }
        proof {
            lemma_flat_all(mparts);
        }

        let ghost bs = bases@;
        let mut brest = bases;
        let mut out_bases: Vec<String> = Vec::new();
        while brest.len() > 0
            invariant
                out_bases@.len() + brest@.len() == bs.len(),
                brest@ == bs.skip(out_bases@.len() as int),
                forall|k: int| 0 <= k < out_bases@.len() ==> #[trigger] out_bases@[k] == bs[k].name,
            decreases brest@.len(),
        {
            let b = brest.remove(0);
            out_bases.push(b.name);
            assert(brest@ =~= bs.skip(out_bases@.len() as int));
        }
        assert(log@ =~= python_class_from_ir_warnings(inp, nm));
        ConversionResult::with_log(
            PythonClass {
                name: name.value,
                bases: out_bases,
                fields: out_fields,
                methods: out_methods,
                docstring: docs_to_docstring(docs),
            },
            log,
        )
    }
}

} // verus!
