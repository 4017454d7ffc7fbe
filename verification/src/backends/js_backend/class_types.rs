use vstd::prelude::*;

use crate::conversion::ConversionConfig;

use super::function_types::{js_fn_from_ir_is, js_fn_from_ir_warnings, js_fn_ir_is, js_fn_names_fit, JsFunctionNames};
use super::JsFunction;
use crate::conversion::{
    dropped_annotations, dropped_annotations_warning, feature_warning, flat, lemma_flat_all, lemma_flat_step, unsupported,
    ConversionLog, ConversionResult, WarningText,
};
use crate::text::{decimal, push_str, push_u128};
use crate::ir::{docs_of_docstring, docs_to_docstring, docstring_of_docs, docstring_to_docs, LanguageBase, LanguageField, LanguageFunction, LanguageStruct, LanguageStructKind, Visibility};

verus! {

/// A class field (`name = value;` or `static name = value;`).
///
/// JavaScript class fields are plain assignments with a free-form right-hand
/// side, so both name and value are modelled as raw strings.
#[derive(Debug, Clone, PartialEq)]
pub struct JsField {
    /// The name of the field.
    pub name: String,
    /// The assigned value, rendered verbatim (e.g. `0`, `"default"`, `null`).
    pub value: String,
    /// `true` to render the field with a leading `static` keyword.
    pub is_static: bool,
}

/// Represents a JavaScript class (`class Name {` / `class Name extends Base {`).
#[derive(Debug, Clone, PartialEq)]
pub struct JsClass {
    /// The name of the class.
    pub name: String,
    /// The base class to extend, rendered verbatim after `extends`.
    pub extends: Option<String>,
    /// Class fields.
    pub fields: Vec<JsField>,
    /// The methods of the class.
    pub methods: Vec<JsFunction>,
    /// Optional free-form JSDoc description text, rendered as the first lines of the block.
    pub doc: Option<String>,
}

/// Render options for JavaScript classes.
#[derive(Debug, Clone, Copy)]
pub struct JsClassRenderOptions {
    /// Whether to render a JSDoc block for the class and its methods when type
    /// information is present.
    pub render_jsdoc: bool,
}

impl JsClassRenderOptions {
    /// The given options, or the defaults (JSDoc rendered).
    pub open spec fn or_default(o: Option<&Self>) -> Self {
        match o {
            Some(o) => *o,
            None => JsClassRenderOptions { render_jsdoc: true },
        }
    }
}

impl Default for JsClassRenderOptions {
    fn default() -> (r: Self)
        ensures
            r.render_jsdoc,
    {
        JsClassRenderOptions { render_jsdoc: true }
    }
}


/// Whether `r` is the IR of the JavaScript class `c`: a public class with the same name, the
/// class it extends as its one public base, its fields as untyped public fields (their
/// initial values are not carried), its methods converted, and its description as docs.
pub open spec fn js_class_ir_is(r: LanguageStruct, c: JsClass) -> bool {
    &&& r.visibility == Visibility::Public
    &&& r.struct_kind == LanguageStructKind::Class
    &&& !r.is_abstract && !r.is_final
    &&& r.name == c.name
    &&& r.generic_args@.len() == 0
    &&& match c.extends {
        Some(b) => r.bases@.len() == 1 && r.bases@[0].name == b && r.bases@[0].visibility == Visibility::Public,
        None => r.bases@.len() == 0,
    }
    &&& r.fields@.len() == c.fields@.len()
    &&& forall|i: int| 0 <= i < r.fields@.len() ==> {
        &&& (#[trigger] r.fields@[i]).name == c.fields@[i].name
        &&& r.fields@[i].field_type@ == Seq::<char>::empty()
        &&& r.fields@[i].visibility == Visibility::Public
        &&& r.fields@[i].is_static == c.fields@[i].is_static && !r.fields@[i].is_const
        &&& r.fields@[i].docs is None
        &&& r.fields@[i].annotations@.len() == 0 && r.fields@[i].raw_attributes@.len() == 0
    }
    &&& r.methods@.len() == c.methods@.len()
    &&& forall|i: int| 0 <= i < r.methods@.len() ==> js_fn_ir_is(#[trigger] r.methods@[i], c.methods@[i])
    &&& docs_of_docstring(r.docs, c.doc)
    &&& r.annotations@.len() == 0
    &&& r.raw_attributes@.len() == 0
}

impl JsClass {
    /// Converts the class to the IR, without reported loss.
    fn convert(self) -> (r: ConversionResult<LanguageStruct>)
        ensures
            js_class_ir_is(r.value, self),
            r.log@ == Seq::<WarningText>::empty(),
    {
        let JsClass { name, extends, fields, methods, doc } = self;
        let ghost fs = fields@;
        let mut frest = fields;
        let mut ir_fields: Vec<LanguageField> = Vec::new();
        while frest.len() > 0
            invariant
                ir_fields@.len() + frest@.len() == fs.len(),
                frest@ == fs.skip(ir_fields@.len() as int),
                forall|i: int| 0 <= i < ir_fields@.len() ==> {
                    &&& (#[trigger] ir_fields@[i]).name == fs[i].name
                    &&& ir_fields@[i].field_type@ == Seq::<char>::empty()
                    &&& ir_fields@[i].visibility == Visibility::Public
                    &&& ir_fields@[i].is_static == fs[i].is_static && !ir_fields@[i].is_const
                    &&& ir_fields@[i].docs is None
                    &&& ir_fields@[i].annotations@.len() == 0 && ir_fields@[i].raw_attributes@.len() == 0
                },
            decreases frest@.len(),
        {
            let f = frest.remove(0);
            ir_fields.push(LanguageField {
                name: f.name,
                field_type: String::new(),
                visibility: Visibility::Public,
                is_static: f.is_static,
                is_const: false,
                docs: None,
                annotations: Vec::new(),
                raw_attributes: Vec::new(),
            });
            assert(frest@ =~= fs.skip(ir_fields@.len() as int));
        }
        let ghost ms = methods@;
        let mut mrest = methods;
        let mut ir_methods: Vec<LanguageFunction> = Vec::new();
        while mrest.len() > 0
            invariant
                ir_methods@.len() + mrest@.len() == ms.len(),
                mrest@ == ms.skip(ir_methods@.len() as int),
                forall|i: int| 0 <= i < ir_methods@.len() ==> js_fn_ir_is(#[trigger] ir_methods@[i], ms[i]),
            decreases mrest@.len(),
        {
            let m = mrest.remove(0);
            ir_methods.push(m.to_ir(None).value);
            assert(mrest@ =~= ms.skip(ir_methods@.len() as int));
        }
        let mut bases: Vec<LanguageBase> = Vec::new();
        if let Some(b) = extends {
            bases.push(LanguageBase { name: b, visibility: Visibility::Public });
        }
        ConversionResult::new(LanguageStruct {
            visibility: Visibility::Public,
            struct_kind: LanguageStructKind::Class,
            is_abstract: false,
            is_final: false,
            name,
            generic_args: Vec::new(),
            bases,
            fields: ir_fields,
            methods: ir_methods,
            docs: docstring_to_docs(doc),
            annotations: Vec::new(),
            raw_attributes: Vec::new(),
        })
    }

    /// Converts the class to the IR, without reported loss.
    pub fn to_ir(self, options: Option<&JsClassConversionOptions>) -> (r: ConversionResult<LanguageStruct>)
        ensures
            js_class_ir_is(r.value, self),
            r.log@ == Seq::<WarningText>::empty(),
    {
        self.convert()
    }
}


/// Conversion options for JavaScript classes: the conversion's configuration.
#[derive(Clone)]
pub struct JsClassConversionOptions {
    /// The conversion configuration (the user's hooks).
    pub config: ConversionConfig,
}

impl Default for JsClassConversionOptions {
    fn default() -> (r: Self)
        ensures
            r.config.hooks is None,
    {
        JsClassConversionOptions { config: ConversionConfig::default() }
    }
}

impl JsClassConversionOptions {
    /// Whether options are given and carry hooks.
    pub open spec fn hooked(o: Option<&Self>) -> bool {
        o matches Some(x) && x.config.hooks is Some
    }
}

/// What the configuration of a conversion made of an IR struct's names: the class's
/// JavaScript name, each field's, and the names of each method.
pub struct JsClassNames {
    pub name: ConversionResult<String>,
    pub fields: Vec<ConversionResult<String>>,
    pub methods: Vec<JsFunctionNames>,
}

/// Whether the names fit the struct: a name for each field and names fitting each method.
pub open spec fn js_class_names_fit(input: LanguageStruct, names: JsClassNames) -> bool {
    &&& names.fields@.len() == input.fields@.len()
    &&& names.methods@.len() == input.methods@.len()
    &&& forall|i: int| 0 <= i < input.methods@.len() ==> js_fn_names_fit(#[trigger] input.methods@[i], names.methods@[i])
}

/// What converting an IR struct to a JavaScript class loses: what renaming reports, its
/// annotations and raw attributes, what renaming each field and converting each method
/// reports, then every base after the first (JavaScript has single inheritance).
pub open spec fn js_class_from_ir_warnings(input: LanguageStruct, names: JsClassNames) -> Seq<WarningText> {
    names.name.log@ + (if input.annotations@.len() + input.raw_attributes@.len() > 0 {
        seq![dropped_annotations(
            (input.annotations@.len() + input.raw_attributes@.len()) as nat,
            "class"@,
            input.name@,
            "JavaScript"@,
        )]
    } else {
        Seq::empty()
    }) + flat(Seq::new(input.fields@.len(), |i: int| names.fields@[i].log@)) + flat(
        Seq::new(input.methods@.len(), |i: int| js_fn_from_ir_warnings(input.methods@[i], names.methods@[i])),
    ) + (if input.bases@.len() > 1 {
        seq![unsupported(
            decimal(input.bases@.len()) + " base classes on `"@ + input.name@ + "`"@,
            "JavaScript has single inheritance; kept the first base, dropped the rest"@,
        )]
    } else {
        Seq::empty()
    })
}

/// Whether `r` is the JavaScript class an IR struct converts to, given its names: extending
/// its first base, each field renamed, set to `null` and as static as it was, each method
/// converted, and the docs joined into the doc.
pub open spec fn js_class_from_ir_is(r: JsClass, input: LanguageStruct, names: JsClassNames) -> bool {
    &&& r.name == names.name.value
    &&& r.extends == (if input.bases@.len() > 0 {
        Some(input.bases@[0].name)
    } else {
        None
    })
    &&& r.fields@.len() == input.fields@.len()
    &&& forall|i: int| 0 <= i < r.fields@.len() ==> {
        &&& (#[trigger] r.fields@[i]).name == names.fields@[i].value
        &&& r.fields@[i].value@ == "null"@
        &&& r.fields@[i].is_static == input.fields@[i].is_static
    }
    &&& r.methods@.len() == input.methods@.len()
    &&& forall|i: int|
        0 <= i < r.methods@.len() ==> js_fn_from_ir_is(#[trigger] r.methods@[i], input.methods@[i], names.methods@[i])
    &&& (r.doc is None <==> input.docs is None)
    &&& (r.doc matches Some(d) ==> docstring_of_docs(input.docs) == Some(d@))
}

impl JsClass {
    /// Converts an IR struct to a JavaScript class, given its names as the conversion's
    /// configuration resolved them.
    pub fn from_ir(input: LanguageStruct, names: JsClassNames) -> (r: ConversionResult<JsClass>)
        requires
            js_class_names_fit(input, names),
        ensures
            js_class_from_ir_is(r.value, input, names),
            r.log@ == js_class_from_ir_warnings(input, names),
    {
        let ghost inp = input;
        let ghost nm = names;
        let mut log = ConversionLog::new();
        let JsClassNames { name, fields: field_names, methods: method_names } = names;
        log.add_warnings(name.log.warnings);
        let annotated: u128 = input.annotations.len() as u128 + input.raw_attributes.len() as u128;
        if annotated > 0 {
            log.add_warning(dropped_annotations_warning(annotated, "class", input.name.as_str(), "JavaScript"));
        }
        let ghost head = log@;
        let LanguageStruct { name: input_name, bases, fields, methods, docs, .. } = input;

        let ghost fs = fields@;
        let ghost fns = field_names@;
        let ghost fparts = Seq::new(fs.len(), |k: int| fns[k].log@);
        let mut frest = fields;
        let mut fnrest = field_names;
        let mut out_fields: Vec<JsField> = Vec::new();
        while frest.len() > 0
            invariant
                fs.len() == fns.len(),
                out_fields@.len() + frest@.len() == fs.len(),
                frest@ == fs.skip(out_fields@.len() as int),
                fnrest@ == fns.skip(out_fields@.len() as int),
                fparts == Seq::new(fs.len(), |k: int| fns[k].log@),
                forall|k: int| 0 <= k < out_fields@.len() ==> {
                    &&& (#[trigger] out_fields@[k]).name == fns[k].value
                    &&& out_fields@[k].value@ == "null"@
                    &&& out_fields@[k].is_static == fs[k].is_static
                },
                log@ == head + flat(fparts.take(out_fields@.len() as int)),
            decreases frest@.len(),
        {
            let f = frest.remove(0);
            let n = fnrest.remove(0);
            proof {
                lemma_flat_step(fparts, out_fields@.len() as int);
            }
            log.add_warnings(n.log.warnings);
            out_fields.push(JsField { name: n.value, value: "null".to_string(), is_static: f.is_static });
            assert(frest@ =~= fs.skip(out_fields@.len() as int));
            assert(fnrest@ =~= fns.skip(out_fields@.len() as int));
        }
        proof {
            lemma_flat_all(fparts);
        }
        let ghost after_fields = log@;

        let ghost ms = methods@;
        let ghost mns = method_names@;
        let ghost mparts = Seq::new(ms.len(), |k: int| js_fn_from_ir_warnings(ms[k], mns[k]));
        let mut mrest = methods;
        let mut mnrest = method_names;
        let mut out_methods: Vec<JsFunction> = Vec::new();
        while mrest.len() > 0
            invariant
                ms.len() == mns.len(),
                forall|k: int| 0 <= k < ms.len() ==> js_fn_names_fit(#[trigger] ms[k], mns[k]),
                out_methods@.len() + mrest@.len() == ms.len(),
                mrest@ == ms.skip(out_methods@.len() as int),
                mnrest@ == mns.skip(out_methods@.len() as int),
                mparts == Seq::new(ms.len(), |k: int| js_fn_from_ir_warnings(ms[k], mns[k])),
                forall|k: int| 0 <= k < out_methods@.len() ==> js_fn_from_ir_is(#[trigger] out_methods@[k], ms[k], mns[k]),
                log@ == after_fields + flat(mparts.take(out_methods@.len() as int)),
            decreases mrest@.len(),
        {
            let m = mrest.remove(0);
            let n = mnrest.remove(0);
            proof {
                lemma_flat_step(mparts, out_methods@.len() as int);
                assert(js_fn_names_fit(ms[out_methods@.len() as int], mns[out_methods@.len() as int]));
            }
            let c = JsFunction::from_ir(m, n);
            log.add_warnings(c.log.warnings);
            out_methods.push(c.value);
            assert(mrest@ =~= ms.skip(out_methods@.len() as int));
            assert(mnrest@ =~= mns.skip(out_methods@.len() as int));
        }
        proof {
            lemma_flat_all(mparts);
        }
        if bases.len() > 1 {
            let mut pre = String::new();
            push_u128(&mut pre, bases.len() as u128);
            push_str(&mut pre, " base classes on `");
            log.add_warning(feature_warning(
                pre.as_str(),
                input_name.as_str(),
                "`",
                "JavaScript has single inheritance; kept the first base, dropped the rest",
            ));
        }
        let extends = if bases.len() > 0 {
            Some(bases[0].name.clone())
        } else {
            None
        };
        assert(log@ =~= js_class_from_ir_warnings(inp, nm));
        ConversionResult::with_log(
            JsClass { name: name.value, extends, fields: out_fields, methods: out_methods, doc: docs_to_docstring(docs) },
            log,
        )
    }
}

} // verus!
