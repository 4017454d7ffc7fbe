use vstd::prelude::*;

use crate::conversion::ConversionConfig;

use crate::conversion::{
    dropped_annotations, dropped_annotations_warning, dropped_feature, dropped_feature_warning, flat, lemma_flat_all,
    lemma_flat_step, ConversionLog, ConversionResult, WarningText,
};
use crate::ir::{docs_of_docstring, docs_to_docstring, docstring_of_docs, docstring_to_docs, LanguageFunction, LanguageFunctionParameter, Visibility};

verus! {

/// A parameter of a Python `def`: a name with an optional type hint and default.
#[derive(Debug, Clone, PartialEq)]
pub struct PythonParameter {
    /// The name of the parameter.
    pub name: String,
    /// The type hint, rendered verbatim after `: `.
    pub type_hint: Option<String>,
    /// The default value expression.
    pub default: Option<String>,
}

/// A Python `def`, a free function or a method.
#[derive(Debug, Clone, PartialEq)]
pub struct PythonFunction {
    /// The name of the function.
    pub name: String,
    /// The parameters of the function.
    pub parameters: Vec<PythonParameter>,
    /// The return type hint, rendered after `->`.
    pub return_type: Option<String>,
    /// Optional docstring, rendered as the first body line.
    pub docstring: Option<String>,
    /// The body, one entry per line; `None` (or nothing at all in the body) renders `pass`.
    pub body: Option<Vec<String>>,
}

/// Render options for Python functions.
#[derive(Debug, Clone, Copy)]
pub struct PythonFunctionRenderOptions {
    /// Whether to render the docstring.
    pub render_docstring: bool,
    /// Whether body lines are written as given, without indentation.
    pub verbatim_body: bool,
}

impl PythonFunctionRenderOptions {
    /// The default options: docstring rendered, body indented.
    pub open spec fn spec_default() -> Self {
        PythonFunctionRenderOptions { render_docstring: true, verbatim_body: false }
    }

    /// The given options, or the defaults.
    pub open spec fn or_default(o: Option<&Self>) -> Self {
        match o {
            Some(o) => *o,
            None => Self::spec_default(),
        }
    }
}

impl Default for PythonFunctionRenderOptions {
    fn default() -> (r: Self)
        ensures
            r == Self::spec_default(),
    {
        PythonFunctionRenderOptions { render_docstring: true, verbatim_body: false }
    }
}


impl PythonParameter {
    /// Converts the parameter to the IR: its hint as the type (empty without one).
    fn convert(self) -> (r: ConversionResult<LanguageFunctionParameter>)
        ensures
            r.value.name == self.name,
            r.value.param_type@ == (match self.type_hint {
                Some(t) => t@,
                None => Seq::empty(),
            }),
            r.value.default_value == self.default,
            r.log@ == Seq::<WarningText>::empty(),
    {
        let param_type = match self.type_hint {
            Some(t) => t,
            None => String::new(),
        };
        ConversionResult::new(LanguageFunctionParameter { name: self.name, param_type, default_value: self.default })
    }

    /// Converts the parameter to the IR: its hint as the type (empty without one).
    pub fn to_ir(self, options: Option<&PythonParameterConversionOptions>) -> (r: ConversionResult<LanguageFunctionParameter>)
        ensures
            r.value.name == self.name,
            r.value.param_type@ == (match self.type_hint {
                Some(t) => t@,
                None => Seq::empty(),
            }),
            r.value.default_value == self.default,
            r.log@ == Seq::<WarningText>::empty(),
    {
        self.convert()
    }
}

/// Whether `r` is the IR of the Python function `f`: a public static function with the same
/// name, return type and body, its parameters converted, and its docstring as docs.
pub open spec fn python_fn_ir_is(r: LanguageFunction, f: PythonFunction) -> bool {
    &&& r.name == f.name
    &&& r.visibility == Visibility::Public
    &&& r.parameters@.len() == f.parameters@.len()
    &&& forall|i: int| 0 <= i < r.parameters@.len() ==> {
        &&& (#[trigger] r.parameters@[i]).name == f.parameters@[i].name
        &&& r.parameters@[i].param_type@ == (match f.parameters@[i].type_hint {
            Some(t) => t@,
            None => Seq::empty(),
        })
        &&& r.parameters@[i].default_value == f.parameters@[i].default
    }
    &&& r.generic_args@.len() == 0
    &&& r.return_type == f.return_type
    &&& r.is_static
    &&& !r.is_abstract && !r.is_virtual && !r.is_override && !r.is_final
    &&& r.body == f.body
    &&& docs_of_docstring(r.docs, f.docstring)
    &&& r.annotations@.len() == 0
    &&& r.raw_attributes@.len() == 0
}

impl PythonFunction {
    /// Converts the function to the IR, without loss.
    fn convert(self) -> (r: ConversionResult<LanguageFunction>)
        ensures
            python_fn_ir_is(r.value, self),
            r.log@ == Seq::<WarningText>::empty(),
    {
        let PythonFunction { name, parameters, return_type, docstring, body } = self;
        let ghost ps = parameters@;
        let mut rest = parameters;
        let mut out: Vec<LanguageFunctionParameter> = Vec::new();
        while rest.len() > 0
            invariant
                out@.len() + rest@.len() == ps.len(),
                rest@ == ps.skip(out@.len() as int),
                forall|i: int| 0 <= i < out@.len() ==> {
                    &&& (#[trigger] out@[i]).name == ps[i].name
                    &&& out@[i].param_type@ == (match ps[i].type_hint {
                        Some(t) => t@,
                        None => Seq::empty(),
                    })
                    &&& out@[i].default_value == ps[i].default
                },
            decreases rest@.len(),
        {
            let p = rest.remove(0);
            out.push(p.to_ir(None).value);
            assert(rest@ =~= ps.skip(out@.len() as int));
        }
        ConversionResult::new(LanguageFunction {
            name,
            visibility: Visibility::Public,
            parameters: out,
            generic_args: Vec::new(),
            return_type,
            is_static: true,
            is_abstract: false,
            is_virtual: false,
            is_override: false,
            is_final: false,
            body,
            docs: docstring_to_docs(docstring),
            annotations: Vec::new(),
            raw_attributes: Vec::new(),
        })
    }

    /// Converts the function to the IR, without loss.
    /// The user's hook, if the options carry one, is applied to the result.
    pub fn to_ir(self, options: Option<&PythonFunctionConversionOptions>) -> (r: ConversionResult<LanguageFunction>)
        ensures
            !PythonFunctionConversionOptions::hooked(options) ==> python_fn_ir_is(r.value, self),
            r.log@ == Seq::<WarningText>::empty(),
    {
        let mut r = self.convert();
        if let Some(o) = options {
            o.config.after_to_ir_function(&mut r.value);
        }
        r
    }
}


/// Conversion options for Python parameters: the conversion's configuration.
#[derive(Clone)]
pub struct PythonParameterConversionOptions {
    /// The conversion configuration (the user's hooks).
    pub config: ConversionConfig,
}

impl Default for PythonParameterConversionOptions {
    fn default() -> (r: Self)
        ensures
            r.config.hooks is None,
    {
        PythonParameterConversionOptions { config: ConversionConfig::default() }
    }
}

impl PythonParameterConversionOptions {
    /// Whether options are given and carry hooks.
    pub open spec fn hooked(o: Option<&Self>) -> bool {
        o matches Some(x) && x.config.hooks is Some
    }
}


/// Conversion options for Python functions: the conversion's configuration.
#[derive(Clone)]
pub struct PythonFunctionConversionOptions {
    /// The conversion configuration (the user's hooks).
    pub config: ConversionConfig,
}

impl Default for PythonFunctionConversionOptions {
    fn default() -> (r: Self)
        ensures
            r.config.hooks is None,
    {
        PythonFunctionConversionOptions { config: ConversionConfig::default() }
    }
}

impl PythonFunctionConversionOptions {
    /// Whether options are given and carry hooks.
    pub open spec fn hooked(o: Option<&Self>) -> bool {
        o matches Some(x) && x.config.hooks is Some
    }
}

/// What the configuration of a conversion made of an IR parameter's name and type: the
/// parameter's Python name and, for a typed parameter, its type hint.
pub struct PythonParameterNames {
    pub name: ConversionResult<String>,
    pub type_hint: Option<ConversionResult<String>>,
}

/// Whether the names fit the parameter: a type hint exactly when the parameter has a type.
pub open spec fn python_param_names_fit(input: LanguageFunctionParameter, names: PythonParameterNames) -> bool {
    names.type_hint is Some <==> input.param_type@.len() > 0
}

impl PythonParameter {
    /// Converts an IR parameter to Python, given its name and type hint as the conversion's
    /// configuration resolved them; an untyped parameter gets none, and the default is kept.
    pub fn from_ir(input: LanguageFunctionParameter, names: PythonParameterNames) -> (r: ConversionResult<PythonParameter>)
        requires
            python_param_names_fit(input, names),
        ensures
            r.value.name == names.name.value,
            r.value.type_hint == (match names.type_hint {
                Some(t) => Some(t.value),
                None => None,
            }),
            r.value.default == input.default_value,
            r.log@ == names.name.log@ + match names.type_hint {
                Some(t) => t.log@,
                None => Seq::empty(),
            },
    {
        let ghost nm = names;
        let mut log = ConversionLog::new();
        let PythonParameterNames { name, type_hint } = names;
        log.add_warnings(name.log.warnings);
        let type_hint = match type_hint {
            Some(t) => {
                log.add_warnings(t.log.warnings);
                Some(t.value)
            },
            None => None,
        };
        assert(log@ =~= nm.name.log@ + match nm.type_hint {
            Some(t) => t.log@,
            None => Seq::empty(),
        });
        ConversionResult::with_log(PythonParameter { name: name.value, type_hint, default: input.default_value }, log)
    }
}

/// What the configuration of a conversion made of an IR function's names and types: the
/// function's Python name, those of each parameter, and its return type hint (none for no
/// return type or for `void`).
pub struct PythonFunctionNames {
    pub name: ConversionResult<String>,
    pub parameters: Vec<PythonParameterNames>,
    pub return_type: Option<ConversionResult<String>>,
}

/// Whether the names fit the function: names fitting each parameter, and a return type hint
/// only where the function has a return type.
pub open spec fn python_fn_names_fit(input: LanguageFunction, names: PythonFunctionNames) -> bool {
    &&& names.parameters@.len() == input.parameters@.len()
    &&& forall|i: int|
        0 <= i < input.parameters@.len() ==> python_param_names_fit(#[trigger] input.parameters@[i], names.parameters@[i])
    &&& (names.return_type is Some ==> input.return_type is Some)
}

/// What converting an IR parameter to Python reports: what renaming and type mapping report.
pub open spec fn python_param_from_ir_warnings(names: PythonParameterNames) -> Seq<WarningText> {
    names.name.log@ + match names.type_hint {
        Some(t) => t.log@,
        None => Seq::empty(),
    }
}

/// What converting an IR function to Python loses: what renaming reports, its generic
/// parameters and its annotations and raw attributes (Python has none), then what each
/// parameter and the return type report.
pub open spec fn python_fn_from_ir_warnings(input: LanguageFunction, names: PythonFunctionNames) -> Seq<WarningText> {
    names.name.log@ + (if input.generic_args@.len() > 0 {
        seq![dropped_feature("generic arguments"@, input.name@, "Python"@)]
    } else {
        Seq::empty()
    }) + (if input.annotations@.len() + input.raw_attributes@.len() > 0 {
        seq![dropped_annotations(
            (input.annotations@.len() + input.raw_attributes@.len()) as nat,
            "function"@,
            input.name@,
            "Python"@,
        )]
    } else {
        Seq::empty()
    }) + flat(Seq::new(input.parameters@.len(), |i: int| python_param_from_ir_warnings(names.parameters@[i])))
        + match names.return_type {
        Some(t) => t.log@,
        None => Seq::empty(),
    }
}

/// Whether `r` is the Python function an IR function converts to, given its names: each
/// parameter converted, the return type hint, the docs joined into the docstring, and the
/// same body.
pub open spec fn python_fn_from_ir_is(r: PythonFunction, input: LanguageFunction, names: PythonFunctionNames) -> bool {
    &&& r.name == names.name.value
    &&& r.parameters@.len() == input.parameters@.len()
    &&& forall|i: int| 0 <= i < r.parameters@.len() ==> {
        &&& (#[trigger] r.parameters@[i]).name == names.parameters@[i].name.value
        &&& r.parameters@[i].type_hint == (match names.parameters@[i].type_hint {
            Some(t) => Some(t.value),
            None => None,
        })
        &&& r.parameters@[i].default == input.parameters@[i].default_value
    }
    &&& r.return_type == (match names.return_type {
        Some(t) => Some(t.value),
        None => None,
    })
    &&& (r.docstring is None <==> input.docs is None)
    &&& (r.docstring matches Some(d) ==> docstring_of_docs(input.docs) == Some(d@))
    &&& r.body == input.body
}

impl PythonFunction {
    /// Converts an IR function to Python, given its names and types as the conversion's
    /// configuration resolved them. The caller applies the user's `before_from_ir_*` hook, if any, to the input first.
    pub fn from_ir(input: LanguageFunction, names: PythonFunctionNames) -> (r: ConversionResult<PythonFunction>)
        requires
            python_fn_names_fit(input, names),
        ensures
            python_fn_from_ir_is(r.value, input, names),
            r.log@ == python_fn_from_ir_warnings(input, names),
    {
        let ghost inp = input;
        let ghost nm = names;
        let mut log = ConversionLog::new();
        let PythonFunctionNames { name, parameters: param_names, return_type } = names;
        log.add_warnings(name.log.warnings);
        if input.generic_args.len() > 0 {
            log.add_warning(dropped_feature_warning("generic arguments", input.name.as_str(), "Python"));
        }
        let annotated: u128 = input.annotations.len() as u128 + input.raw_attributes.len() as u128;
        if annotated > 0 {
            log.add_warning(dropped_annotations_warning(annotated, "function", input.name.as_str(), "Python"));
        }
        let ghost head = log@;
        let LanguageFunction { parameters, docs, body, .. } = input;
        let ghost ps = parameters@;
        let ghost ns = param_names@;
        let ghost parts = Seq::new(ps.len(), |k: int| python_param_from_ir_warnings(ns[k]));
        let mut prest = parameters;
        let mut nrest = param_names;
        let mut out: Vec<PythonParameter> = Vec::new();
        while prest.len() > 0
            invariant
                ps.len() == ns.len(),
                forall|k: int| 0 <= k < ps.len() ==> python_param_names_fit(#[trigger] ps[k], ns[k]),
                out@.len() + prest@.len() == ps.len(),
                prest@ == ps.skip(out@.len() as int),
                nrest@ == ns.skip(out@.len() as int),
                parts == Seq::new(ps.len(), |k: int| python_param_from_ir_warnings(ns[k])),
                forall|k: int| 0 <= k < out@.len() ==> {
                    &&& (#[trigger] out@[k]).name == ns[k].name.value
                    &&& out@[k].type_hint == (match ns[k].type_hint {
                        Some(t) => Some(t.value),
                        None => None,
                    })
                    &&& out@[k].default == ps[k].default_value
                },
                log@ == head + flat(parts.take(out@.len() as int)),
            decreases prest@.len(),
        {
            let p = prest.remove(0);
            let n = nrest.remove(0);
            proof {
                lemma_flat_step(parts, out@.len() as int);
                assert(python_param_names_fit(ps[out@.len() as int], ns[out@.len() as int]));
            }
            let c = PythonParameter::from_ir(p, n);
            log.add_warnings(c.log.warnings);
            out.push(c.value);
            assert(prest@ =~= ps.skip(out@.len() as int));
            assert(nrest@ =~= ns.skip(out@.len() as int));
        }
        proof {
            lemma_flat_all(parts);
        }
        let return_type = match return_type {
            Some(t) => {
                log.add_warnings(t.log.warnings);
                Some(t.value)
            },
            None => None,
        };
        assert(log@ =~= python_fn_from_ir_warnings(inp, nm));
        ConversionResult::with_log(
            PythonFunction { name: name.value, parameters: out, return_type, docstring: docs_to_docstring(docs), body },
            log,
        )
    }
}

} // verus!
