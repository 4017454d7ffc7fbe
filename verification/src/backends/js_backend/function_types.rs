use vstd::prelude::*;

use crate::conversion::ConversionConfig;

use crate::conversion::{
    dropped_annotations, dropped_annotations_warning, flat, lemma_flat_all, lemma_flat_step, ConversionLog, ConversionResult,
    WarningText,
};
use crate::ir::{docs_of_docstring, docs_to_docstring, docstring_of_docs, docstring_to_docs, LanguageFunction, LanguageFunctionParameter, Visibility};

verus! {

/// Represents a parameter of a JavaScript function.
///
/// JavaScript has no type annotations in the surface syntax, so the signature
/// carries only the name and an optional default value. `type_doc` is a free-form
/// type string that feeds an optional JSDoc `@param {type}` tag; it never reaches the
/// signature.
#[derive(Debug, Clone, PartialEq)]
pub struct JsParameter {
    /// The name of the parameter.
    pub name: String,
    /// The default value of the parameter, if any (e.g. `0`), rendered as `name = value`.
    pub default: Option<String>,
    /// The type string for JSDoc (e.g. `number`).
    pub type_doc: Option<String>,
}

/// Represents a JavaScript function or method.
///
/// Type information lives only in `param` `type_doc` fields and `return_type`, which feed
/// an optional JSDoc block.
#[derive(Debug, Clone, PartialEq)]
pub struct JsFunction {
    /// The name of the function.
    pub name: String,
    /// The parameters of the function.
    pub parameters: Vec<JsParameter>,
    /// The return type for JSDoc (e.g. `number`).
    pub return_type: Option<String>,
    /// Optional free-form JSDoc description text, rendered as the first lines of the block.
    pub doc: Option<String>,
    /// `true` to render the method with a leading `static` keyword.
    pub is_static: bool,
    /// The function body, one entry per line; `None` renders an empty `{}` block.
    pub body: Option<Vec<String>>,
}

/// Render options for JavaScript functions.
#[derive(Debug, Clone, Copy)]
pub struct JsFunctionRenderOptions {
    /// Whether to render a JSDoc block when type information is present.
    ///
    /// JSDoc is emitted only when genuine type information exists on the model
    /// (any param `type_doc`, a `return_type`, or a `doc` string). When no such
    /// information exists, no JSDoc is synthesised regardless of this flag.
    pub render_jsdoc: bool,
}

impl JsFunctionRenderOptions {
    /// The default options: JSDoc rendered.
    pub open spec fn spec_default() -> Self {
        JsFunctionRenderOptions { render_jsdoc: true }
    }

    /// The given options, or the defaults.
    pub open spec fn or_default(o: Option<&Self>) -> Self {
        match o {
            Some(o) => *o,
            None => Self::spec_default(),
        }
    }
}

impl Default for JsFunctionRenderOptions {
    fn default() -> (r: Self)
        ensures
            r == Self::spec_default(),
    {
        JsFunctionRenderOptions { render_jsdoc: true }
    }
}


impl JsParameter {
    /// Converts the parameter to the IR: its JSDoc type as the type (empty without one).
    fn convert(self) -> (r: ConversionResult<LanguageFunctionParameter>)
        ensures
            r.value.name == self.name,
            r.value.param_type@ == (match self.type_doc {
                Some(t) => t@,
                None => Seq::empty(),
            }),
            r.value.default_value == self.default,
            r.log@ == Seq::<WarningText>::empty(),
    {
        let param_type = match self.type_doc {
            Some(t) => t,
            None => String::new(),
        };
        ConversionResult::new(LanguageFunctionParameter { name: self.name, param_type, default_value: self.default })
    }

    /// Converts the parameter to the IR: its JSDoc type as the type (empty without one).
    pub fn to_ir(self, options: Option<&JsParameterConversionOptions>) -> (r: ConversionResult<LanguageFunctionParameter>)
        ensures
            r.value.name == self.name,
            r.value.param_type@ == (match self.type_doc {
                Some(t) => t@,
                None => Seq::empty(),
            }),
            r.value.default_value == self.default,
            r.log@ == Seq::<WarningText>::empty(),
    {
        self.convert()
    }
}

/// Whether `r` is the IR of the JavaScript function `f`: a public function with the same name,
/// return type, staticness and body, its parameters converted, and its description as docs.
pub open spec fn js_fn_ir_is(r: LanguageFunction, f: JsFunction) -> bool {
    &&& r.name == f.name
    &&& r.visibility == Visibility::Public
    &&& r.parameters@.len() == f.parameters@.len()
    &&& forall|i: int| 0 <= i < r.parameters@.len() ==> {
        &&& (#[trigger] r.parameters@[i]).name == f.parameters@[i].name
        &&& r.parameters@[i].param_type@ == (match f.parameters@[i].type_doc {
            Some(t) => t@,
            None => Seq::empty(),
        })
        &&& r.parameters@[i].default_value == f.parameters@[i].default
    }
    &&& r.generic_args@.len() == 0
    &&& r.return_type == f.return_type
    &&& r.is_static == f.is_static
    &&& !r.is_abstract && !r.is_virtual && !r.is_override && !r.is_final
    &&& r.body == f.body
    &&& docs_of_docstring(r.docs, f.doc)
    &&& r.annotations@.len() == 0
    &&& r.raw_attributes@.len() == 0
}

impl JsFunction {
    /// Converts the function to the IR, without loss.
    fn convert(self) -> (r: ConversionResult<LanguageFunction>)
        ensures
            js_fn_ir_is(r.value, self),
            r.log@ == Seq::<WarningText>::empty(),
    {
        let JsFunction { name, parameters, return_type, doc, is_static, body } = self;
        let ghost ps = parameters@;
        let mut rest = parameters;
        let mut out: Vec<LanguageFunctionParameter> = Vec::new();
        while rest.len() > 0
            invariant
                out@.len() + rest@.len() == ps.len(),
                rest@ == ps.skip(out@.len() as int),
                forall|i: int| 0 <= i < out@.len() ==> {
                    &&& (#[trigger] out@[i]).name == ps[i].name
                    &&& out@[i].param_type@ == (match ps[i].type_doc {
                        Some(t) => t@,
                        None => Seq::empty(),
                    })
                    &&& out@[i].default_value == ps[i].default
                },
            decreases rest@.len(),
        {
            let p = rest.remove(0);
            out.push(p.to_ir(None).value);
            assert(rest@ =~= ps.skip(out@.len() as int));
        }
        ConversionResult::new(LanguageFunction {
            name,
            visibility: Visibility::Public,
            parameters: out,
            generic_args: Vec::new(),
            return_type,
            is_static,
            is_abstract: false,
            is_virtual: false,
            is_override: false,
            is_final: false,
            body,
            docs: docstring_to_docs(doc),
            annotations: Vec::new(),
            raw_attributes: Vec::new(),
        })
    }

    /// Converts the function to the IR, without loss.
    pub fn to_ir(self, options: Option<&JsFunctionConversionOptions>) -> (r: ConversionResult<LanguageFunction>)
        ensures
            js_fn_ir_is(r.value, self),
            r.log@ == Seq::<WarningText>::empty(),
    {
        self.convert()
    }
}


/// Conversion options for JavaScript parameters: the conversion's configuration.
#[derive(Clone)]
pub struct JsParameterConversionOptions {
    /// The conversion configuration (the user's hooks).
    pub config: ConversionConfig,
}

impl Default for JsParameterConversionOptions {
    fn default() -> (r: Self)
        ensures
            r.config.hooks is None,
    {
        JsParameterConversionOptions { config: ConversionConfig::default() }
    }
}

impl JsParameterConversionOptions {
    /// Whether options are given and carry hooks.
    pub open spec fn hooked(o: Option<&Self>) -> bool {
        o matches Some(x) && x.config.hooks is Some
    }
}


/// Conversion options for JavaScript functions: the conversion's configuration.
#[derive(Clone)]
pub struct JsFunctionConversionOptions {
    /// The conversion configuration (the user's hooks).
    pub config: ConversionConfig,
}

impl Default for JsFunctionConversionOptions {
    fn default() -> (r: Self)
        ensures
            r.config.hooks is None,
    {
        JsFunctionConversionOptions { config: ConversionConfig::default() }
    }
}

impl JsFunctionConversionOptions {
    /// Whether options are given and carry hooks.
    pub open spec fn hooked(o: Option<&Self>) -> bool {
        o matches Some(x) && x.config.hooks is Some
    }
}

/// What the configuration of a conversion made of an IR parameter's name and type: the
/// parameter's JavaScript name and, for a typed parameter, its JSDoc type.
pub struct JsParameterNames {
    pub name: ConversionResult<String>,
    pub type_doc: Option<ConversionResult<String>>,
}

/// Whether the names fit the parameter: a JSDoc type exactly when the parameter has a type.
pub open spec fn js_param_names_fit(input: LanguageFunctionParameter, names: JsParameterNames) -> bool {
    names.type_doc is Some <==> input.param_type@.len() > 0
}

impl JsParameter {
    /// Converts an IR parameter to JavaScript, given its name and JSDoc type as the conversion's
    /// configuration resolved them; an untyped parameter gets none, and the default is kept.
    pub fn from_ir(input: LanguageFunctionParameter, names: JsParameterNames) -> (r: ConversionResult<JsParameter>)
        requires
            js_param_names_fit(input, names),
        ensures
            r.value.name == names.name.value,
            r.value.type_doc == (match names.type_doc {
                Some(t) => Some(t.value),
                None => None,
            }),
            r.value.default == input.default_value,
            r.log@ == names.name.log@ + match names.type_doc {
                Some(t) => t.log@,
                None => Seq::empty(),
            },
    {
        let ghost nm = names;
        let mut log = ConversionLog::new();
        let JsParameterNames { name, type_doc } = names;
        log.add_warnings(name.log.warnings);
        let type_doc = match type_doc {
            Some(t) => {
                log.add_warnings(t.log.warnings);
                Some(t.value)
            },
            None => None,
        };
        assert(log@ =~= nm.name.log@ + match nm.type_doc {
            Some(t) => t.log@,
            None => Seq::empty(),
        });
        ConversionResult::with_log(JsParameter { name: name.value, type_doc, default: input.default_value }, log)
    }
}

/// What the configuration of a conversion made of an IR function's names and types: the
/// function's JavaScript name, those of each parameter, and its JSDoc return type (none for no
/// return type or for `void`).
pub struct JsFunctionNames {
    pub name: ConversionResult<String>,
    pub parameters: Vec<JsParameterNames>,
    pub return_type: Option<ConversionResult<String>>,
}

/// Whether the names fit the function: names fitting each parameter, and a return type only
/// where the function has one.
pub open spec fn js_fn_names_fit(input: LanguageFunction, names: JsFunctionNames) -> bool {
    &&& names.parameters@.len() == input.parameters@.len()
    &&& forall|i: int|
        0 <= i < input.parameters@.len() ==> js_param_names_fit(#[trigger] input.parameters@[i], names.parameters@[i])
    &&& (names.return_type is Some ==> input.return_type is Some)
}

/// What converting an IR parameter to JavaScript reports: what renaming and type mapping
/// report.
pub open spec fn js_param_from_ir_warnings(names: JsParameterNames) -> Seq<WarningText> {
    names.name.log@ + match names.type_doc {
        Some(t) => t.log@,
        None => Seq::empty(),
    }
}

/// What converting an IR function to JavaScript loses: what renaming reports, its annotations
/// and raw attributes, then what each parameter and the return type report.
pub open spec fn js_fn_from_ir_warnings(input: LanguageFunction, names: JsFunctionNames) -> Seq<WarningText> {
    names.name.log@ + (if input.annotations@.len() + input.raw_attributes@.len() > 0 {
        seq![dropped_annotations(
            (input.annotations@.len() + input.raw_attributes@.len()) as nat,
            "function"@,
            input.name@,
            "JavaScript"@,
        )]
    } else {
        Seq::empty()
    }) + flat(Seq::new(input.parameters@.len(), |i: int| js_param_from_ir_warnings(names.parameters@[i])))
        + match names.return_type {
        Some(t) => t.log@,
        None => Seq::empty(),
    }
}

/// Whether `r` is the JavaScript function an IR function converts to, given its names: each
/// parameter converted, the return type, the docs joined into the doc, and the same `static`
/// and body.
pub open spec fn js_fn_from_ir_is(r: JsFunction, input: LanguageFunction, names: JsFunctionNames) -> bool {
    &&& r.name == names.name.value
    &&& r.parameters@.len() == input.parameters@.len()
    &&& forall|i: int| 0 <= i < r.parameters@.len() ==> {
        &&& (#[trigger] r.parameters@[i]).name == names.parameters@[i].name.value
        &&& r.parameters@[i].type_doc == (match names.parameters@[i].type_doc {
            Some(t) => Some(t.value),
            None => None,
        })
        &&& r.parameters@[i].default == input.parameters@[i].default_value
    }
    &&& r.return_type == (match names.return_type {
        Some(t) => Some(t.value),
        None => None,
    })
    &&& (r.doc is None <==> input.docs is None)
    &&& (r.doc matches Some(d) ==> docstring_of_docs(input.docs) == Some(d@))
    &&& r.is_static == input.is_static
    &&& r.body == input.body
}

impl JsFunction {
    /// Converts an IR function to JavaScript, given its names and types as the conversion's
    /// configuration resolved them.
    pub fn from_ir(input: LanguageFunction, names: JsFunctionNames) -> (r: ConversionResult<JsFunction>)
        requires
            js_fn_names_fit(input, names),
        ensures
            js_fn_from_ir_is(r.value, input, names),
            r.log@ == js_fn_from_ir_warnings(input, names),
    {
        let ghost inp = input;
        let ghost nm = names;
        let mut log = ConversionLog::new();
        let JsFunctionNames { name, parameters: param_names, return_type } = names;
        log.add_warnings(name.log.warnings);
        let annotated: u128 = input.annotations.len() as u128 + input.raw_attributes.len() as u128;
        if annotated > 0 {
            log.add_warning(dropped_annotations_warning(annotated, "function", input.name.as_str(), "JavaScript"));
        }
        let ghost head = log@;
        let LanguageFunction { parameters, docs, body, is_static, .. } = input;
        let ghost ps = parameters@;
        let ghost ns = param_names@;
        let ghost parts = Seq::new(ps.len(), |k: int| js_param_from_ir_warnings(ns[k]));
        let mut prest = parameters;
        let mut nrest = param_names;
        let mut out: Vec<JsParameter> = Vec::new();
        while prest.len() > 0
            invariant
                ps.len() == ns.len(),
                forall|k: int| 0 <= k < ps.len() ==> js_param_names_fit(#[trigger] ps[k], ns[k]),
                out@.len() + prest@.len() == ps.len(),
                prest@ == ps.skip(out@.len() as int),
                nrest@ == ns.skip(out@.len() as int),
                parts == Seq::new(ps.len(), |k: int| js_param_from_ir_warnings(ns[k])),
                forall|k: int| 0 <= k < out@.len() ==> {
                    &&& (#[trigger] out@[k]).name == ns[k].name.value
                    &&& out@[k].type_doc == (match ns[k].type_doc {
                        Some(t) => Some(t.value),
                        None => None,
                    })
                    &&& out@[k].default == ps[k].default_value
                },
                log@ == head + flat(parts.take(out@.len() as int)),
            decreases prest@.len(),
        {
            let p = prest.remove(0);
            let n = nrest.remove(0);
            proof {
                lemma_flat_step(parts, out@.len() as int);
                assert(js_param_names_fit(ps[out@.len() as int], ns[out@.len() as int]));
            }
            let c = JsParameter::from_ir(p, n);
            log.add_warnings(c.log.warnings);
            out.push(c.value);
            assert(prest@ =~= ps.skip(out@.len() as int));
            assert(nrest@ =~= ns.skip(out@.len() as int));
        }
        proof {
            lemma_flat_all(parts);
        }
        let return_type = match return_type {
            Some(t) => {
                log.add_warnings(t.log.warnings);
                Some(t.value)
            },
            None => None,
        };
        assert(log@ =~= js_fn_from_ir_warnings(inp, nm));
        ConversionResult::with_log(
            JsFunction { name: name.value, parameters: out, return_type, doc: docs_to_docstring(docs), is_static, body },
            log,
        )
    }
}

} // verus!
