use vstd::prelude::*;

use crate::conversion::ConversionConfig;

use super::generic_types::csharp_generic_from_ir_warnings;
use super::visibility::{
    csharp_visibility_from_ir, csharp_visibility_from_ir_warnings, csharp_visibility_ir, csharp_visibility_ir_warnings,
};
use super::{CSharpGenericArgument, CSharpVisibility};
use crate::backends::BackendItem;
use crate::conversion::{
    feature_warning, flat, lemma_flat_all, lemma_flat_step, unsupported, ConversionLog, ConversionResult, WarningText,
};
use crate::ir::{LanguageFunction, LanguageFunctionParameter, LanguageGenericArgument};
use crate::text::push_str;

verus! {

/// Represents a C# method parameter.
#[derive(Debug, Clone, PartialEq)]
pub struct CSharpParameter {
    /// The name of the parameter.
    pub name: String,
    /// The type of the parameter.
    pub param_type: String,
    /// Optional default value.
    pub default_value: Option<String>,
}

/// Represents a C# method.
#[derive(Debug, Clone, PartialEq)]
pub struct CSharpMethod {
    /// The name of the method.
    pub name: String,
    /// The visibility of the method.
    pub visibility: CSharpVisibility,
    /// The parameters of the method.
    pub parameters: Vec<CSharpParameter>,
    /// Generic type parameters of the method.
    pub generic_args: Vec<CSharpGenericArgument>,
    /// The return type; `None` renders `void`.
    pub return_type: Option<String>,
    /// Whether the method is `static`.
    pub is_static: bool,
    /// Whether the method is `abstract`.
    pub is_abstract: bool,
    /// Whether the method is `virtual`.
    pub is_virtual: bool,
    /// Whether the method is `override`.
    pub is_override: bool,
    /// Whether the method is `sealed` (only rendered on an override).
    pub is_sealed: bool,
    /// Whether the method is `async`.
    pub is_async: bool,
    /// Whether the method is `unsafe`.
    pub is_unsafe: bool,
    /// The method body, one entry per line; `None` renders a declaration ending in `;`.
    pub body: Option<Vec<String>>,
    /// Attributes applied to the method (without the leading `[`).
    pub attributes: Vec<String>,
    /// Documentation for the method.
    pub docs: Option<Vec<String>>,
}

/// Render options for C# methods.
#[derive(Debug, Clone, Copy)]
pub struct CSharpMethodRenderOptions {
    /// Whether to render documentation comments.
    pub render_docs: bool,
    /// Whether to render attributes.
    pub render_attributes: bool,
}

impl CSharpMethodRenderOptions {
    /// The default options: docs and attributes rendered.
    pub open spec fn spec_default() -> Self {
        CSharpMethodRenderOptions { render_docs: true, render_attributes: true }
    }

    /// The given options, or the defaults.
    pub open spec fn or_default(o: Option<&Self>) -> Self {
        match o {
            Some(o) => *o,
            None => Self::spec_default(),
        }
    }
}

impl Default for CSharpMethodRenderOptions {
    fn default() -> (r: Self)
        ensures
            r == Self::spec_default(),
    {
        CSharpMethodRenderOptions { render_docs: true, render_attributes: true }
    }
}


impl CSharpParameter {
    /// Converts the parameter to the IR, without loss.
    fn convert(self) -> (r: ConversionResult<LanguageFunctionParameter>)
        ensures
            r.value.name == self.name,
            r.value.param_type == self.param_type,
            r.value.default_value == self.default_value,
            r.log@ == Seq::<WarningText>::empty(),
    {
        ConversionResult::new(LanguageFunctionParameter {
            name: self.name,
            param_type: self.param_type,
            default_value: self.default_value,
        })
    }

    /// Converts the parameter to the IR, without loss.
    pub fn to_ir(self, options: Option<&CSharpParameterConversionOptions>) -> (r: ConversionResult<LanguageFunctionParameter>)
        ensures
            r.value.name == self.name,
            r.value.param_type == self.param_type,
            r.value.default_value == self.default_value,
            r.log@ == Seq::<WarningText>::empty(),
    {
        self.convert()
    }
}

/// The warning for one C# attribute on a method, which the IR drops.
pub open spec fn csharp_method_attribute_warning(attribute: Seq<char>, method: Seq<char>) -> WarningText {
    unsupported(
        "attribute `["@ + attribute + "]` on method `"@ + method + "`"@,
        "C# attributes dropped from the language-agnostic IR"@,
    )
}

/// What converting a C# method to the IR loses: `async`, `unsafe`, each attribute, and what its
/// visibility loses.
pub open spec fn csharp_method_ir_warnings(m: CSharpMethod) -> Seq<WarningText> {
    (if m.is_async {
        seq![unsupported("`async` on method `"@ + m.name@ + "`"@, "async modifier dropped from the language-agnostic IR"@)]
    } else {
        Seq::empty()
    }) + (if m.is_unsafe {
        seq![unsupported("`unsafe` on method `"@ + m.name@ + "`"@, "unsafe modifier dropped from the language-agnostic IR"@)]
    } else {
        Seq::empty()
    }) + Seq::new(m.attributes@.len(), |i: int| csharp_method_attribute_warning(m.attributes@[i]@, m.name@))
        + csharp_visibility_ir_warnings(m.visibility)
}

/// Whether `r` is the IR of the C# method `m`: the same name, return type, modifiers, body and
/// docs (`sealed` as final), its visibility, parameters and generic parameters converted, and
/// no attributes.
pub open spec fn csharp_method_ir_is(r: LanguageFunction, m: CSharpMethod) -> bool {
    &&& r.name == m.name
    &&& r.visibility == csharp_visibility_ir(m.visibility)
    &&& r.parameters@.len() == m.parameters@.len()
    &&& forall|i: int| 0 <= i < r.parameters@.len() ==> {
        &&& (#[trigger] r.parameters@[i]).name == m.parameters@[i].name
        &&& r.parameters@[i].param_type == m.parameters@[i].param_type
        &&& r.parameters@[i].default_value == m.parameters@[i].default_value
    }
    &&& r.generic_args@.len() == m.generic_args@.len()
    &&& forall|i: int| 0 <= i < r.generic_args@.len() ==> {
        &&& (#[trigger] r.generic_args@[i]).name == m.generic_args@[i].name
        &&& r.generic_args@[i].keyword@ == Seq::<char>::empty()
        &&& r.generic_args@[i].default_value is None
        &&& r.generic_args@[i].where_clause == m.generic_args@[i].constraints
    }
    &&& r.return_type == m.return_type
    &&& r.is_static == m.is_static
    &&& r.is_abstract == m.is_abstract
    &&& r.is_virtual == m.is_virtual
    &&& r.is_override == m.is_override
    &&& r.is_final == m.is_sealed
    &&& r.body == m.body
    &&& r.docs == m.docs
    &&& r.annotations@.len() == 0
    &&& r.raw_attributes@.len() == 0
}

/// Converts the parameters to the IR, in order.
fn parameters_to_ir(ps: Vec<CSharpParameter>) -> (r: Vec<LanguageFunctionParameter>)
    ensures
        r@.len() == ps@.len(),
        forall|k: int| 0 <= k < r@.len() ==> {
            &&& (#[trigger] r@[k]).name == ps@[k].name
            &&& r@[k].param_type == ps@[k].param_type
            &&& r@[k].default_value == ps@[k].default_value
        },
{
    let ghost all = ps@;
    let mut rest = ps;
    let mut out: Vec<LanguageFunctionParameter> = Vec::new();
    while rest.len() > 0
        invariant
            out@.len() + rest@.len() == all.len(),
            rest@ == all.skip(out@.len() as int),
            forall|k: int| 0 <= k < out@.len() ==> {
                &&& (#[trigger] out@[k]).name == all[k].name
                &&& out@[k].param_type == all[k].param_type
                &&& out@[k].default_value == all[k].default_value
            },
        decreases rest@.len(),
    {
        let p = rest.remove(0);
        assert(p == all[out@.len() as int]);
        out.push(p.to_ir(None).value);
        assert(rest@ =~= all.skip(out@.len() as int));
    }
    out
}

/// Converts the generic parameters to the IR, in order.
pub(crate) fn generics_to_ir(gs: Vec<CSharpGenericArgument>) -> (r: Vec<LanguageGenericArgument>)
    ensures
        r@.len() == gs@.len(),
        forall|k: int| 0 <= k < r@.len() ==> {
            &&& (#[trigger] r@[k]).name == gs@[k].name
            &&& r@[k].keyword@ == Seq::<char>::empty()
            &&& r@[k].default_value is None
            &&& r@[k].where_clause == gs@[k].constraints
        },
{
    let ghost all = gs@;
    let mut rest = gs;
    let mut out: Vec<LanguageGenericArgument> = Vec::new();
    while rest.len() > 0
        invariant
            out@.len() + rest@.len() == all.len(),
            rest@ == all.skip(out@.len() as int),
            forall|k: int| 0 <= k < out@.len() ==> {
                &&& (#[trigger] out@[k]).name == all[k].name
                &&& out@[k].keyword@ == Seq::<char>::empty()
                &&& out@[k].default_value is None
                &&& out@[k].where_clause == all[k].constraints
            },
        decreases rest@.len(),
    {
        let g = rest.remove(0);
        assert(g == all[out@.len() as int]);
        out.push(g.to_ir(None).value);
        assert(rest@ =~= all.skip(out@.len() as int));
    }
    out
}

impl CSharpMethod {
    /// Converts the method to the IR, reporting the modifiers and attributes the IR has no
    /// place for.
    fn convert(self) -> (r: ConversionResult<LanguageFunction>)
        ensures
            csharp_method_ir_is(r.value, self),
            r.log@ == csharp_method_ir_warnings(self),
    {
        let ghost m = self;
        let mut log = ConversionLog::new();
        if self.is_async {
            log.add_warning(feature_warning(
                "`async` on method `",
                self.name.as_str(),
                "`",
                "async modifier dropped from the language-agnostic IR",
            ));
        }
        if self.is_unsafe {
            log.add_warning(feature_warning(
                "`unsafe` on method `",
                self.name.as_str(),
                "`",
                "unsafe modifier dropped from the language-agnostic IR",
            ));
        }
        let ghost head = log@;
        let mut i: usize = 0;
        while i < self.attributes.len()
            invariant
                i <= m.attributes@.len(),
                self == m,
                log@ == head + Seq::new(i as nat, |k: int| csharp_method_attribute_warning(m.attributes@[k]@, m.name@)),
            decreases m.attributes@.len() - i,
        {
            let mut feature = String::new();
            push_str(&mut feature, "attribute `[");
            push_str(&mut feature, self.attributes[i].as_str());
            push_str(&mut feature, "]` on method `");
            log.add_warning(feature_warning(
                feature.as_str(),
                self.name.as_str(),
                "`",
                "C# attributes dropped from the language-agnostic IR",
            ));
            i = i + 1;
            assert(log@ =~= head + Seq::new(i as nat, |k: int| csharp_method_attribute_warning(m.attributes@[k]@, m.name@)));
        }
        let visibility = self.visibility.to_ir(None);
        log.add_warnings(visibility.log.warnings);
        assert(log@ =~= csharp_method_ir_warnings(m));
        let CSharpMethod {
            name,
            visibility: _,
            parameters,
            generic_args,
            return_type,
            is_static,
            is_abstract,
            is_virtual,
            is_override,
            is_sealed,
            is_async: _,
            is_unsafe: _,
            body,
            attributes: _,
            docs,
        } = self;
        ConversionResult::with_log(
            LanguageFunction {
                name,
                visibility: visibility.value,
                parameters: parameters_to_ir(parameters),
                generic_args: generics_to_ir(generic_args),
                return_type,
                is_static,
                is_abstract,
                is_virtual,
                is_override,
                is_final: is_sealed,
                body,
                docs,
                annotations: Vec::new(),
                raw_attributes: Vec::new(),
            },
            log,
        )
    }

    /// Converts the method to the IR, reporting the modifiers and attributes the IR has no
    /// place for.
    pub fn to_ir(self, options: Option<&CSharpMethodConversionOptions>) -> (r: ConversionResult<LanguageFunction>)
        ensures
            csharp_method_ir_is(r.value, self),
            r.log@ == csharp_method_ir_warnings(self),
    {
        self.convert()
    }
}


/// Conversion options for C# parameters: the conversion's configuration.
#[derive(Clone)]
pub struct CSharpParameterConversionOptions {
    /// The conversion configuration (the user's hooks).
    pub config: ConversionConfig,
}

impl Default for CSharpParameterConversionOptions {
    fn default() -> (r: Self)
        ensures
            r.config.hooks is None,
    {
        CSharpParameterConversionOptions { config: ConversionConfig::default() }
    }
}

impl CSharpParameterConversionOptions {
    /// Whether options are given and carry hooks.
    pub open spec fn hooked(o: Option<&Self>) -> bool {
        o matches Some(x) && x.config.hooks is Some
    }
}


/// Conversion options for C# methods: the conversion's configuration.
#[derive(Clone)]
pub struct CSharpMethodConversionOptions {
    /// The conversion configuration (the user's hooks).
    pub config: ConversionConfig,
}

impl Default for CSharpMethodConversionOptions {
    fn default() -> (r: Self)
        ensures
            r.config.hooks is None,
    {
        CSharpMethodConversionOptions { config: ConversionConfig::default() }
    }
}

impl CSharpMethodConversionOptions {
    /// Whether options are given and carry hooks.
    pub open spec fn hooked(o: Option<&Self>) -> bool {
        o matches Some(x) && x.config.hooks is Some
    }
}


impl CSharpParameter {
    /// Converts an IR parameter to C#, given its C# type as the conversion's configuration
    /// mapped it.
    pub fn from_ir(input: LanguageFunctionParameter, param_type: ConversionResult<String>) -> (r: ConversionResult<
        CSharpParameter,
    >)
        ensures
            r.value.name == input.name,
            r.value.param_type == param_type.value,
            r.value.default_value == input.default_value,
            r.log@ == param_type.log@,
    {
        ConversionResult::with_log(
            CSharpParameter { name: input.name, param_type: param_type.value, default_value: input.default_value },
            param_type.log,
        )
    }
}

/// What the configuration of a conversion made of an IR function's name and types: the
/// method's C# name, each parameter's C# type, and its C# return type (`None` for none or for
/// `void`).
pub struct CSharpMethodNames {
    pub name: ConversionResult<String>,
    pub param_types: Vec<ConversionResult<String>>,
    pub return_type: Option<ConversionResult<String>>,
}

/// Whether the names fit the function: one type for each parameter.
pub open spec fn csharp_method_names_fit(input: LanguageFunction, names: CSharpMethodNames) -> bool {
    names.param_types@.len() == input.parameters@.len()
}

/// Whether `r` is the C# method an IR function converts to, given the names of its conversion:
/// its visibility, parameters and generic parameters converted, final as `sealed`, and neither
/// async, unsafe nor with attributes.
pub open spec fn csharp_method_from_ir_is(r: CSharpMethod, input: LanguageFunction, names: CSharpMethodNames) -> bool {
    &&& r.name == names.name.value
    &&& r.visibility == csharp_visibility_from_ir(input.visibility)
    &&& r.parameters@.len() == input.parameters@.len()
    &&& forall|i: int| 0 <= i < r.parameters@.len() ==> {
        &&& (#[trigger] r.parameters@[i]).name == input.parameters@[i].name
        &&& r.parameters@[i].param_type == names.param_types@[i].value
        &&& r.parameters@[i].default_value == input.parameters@[i].default_value
    }
    &&& r.generic_args@.len() == input.generic_args@.len()
    &&& forall|i: int| 0 <= i < r.generic_args@.len() ==> {
        &&& (#[trigger] r.generic_args@[i]).name == input.generic_args@[i].name
        &&& r.generic_args@[i].constraints == input.generic_args@[i].where_clause
    }
    &&& r.return_type == (match names.return_type {
        Some(t) => Some(t.value),
        None => None,
    })
    &&& r.is_static == input.is_static
    &&& r.is_abstract == input.is_abstract
    &&& r.is_virtual == input.is_virtual
    &&& r.is_override == input.is_override
    &&& r.is_sealed == input.is_final
    &&& !r.is_async && !r.is_unsafe
    &&& r.body == input.body
    &&& r.attributes@.len() == 0
    &&& r.docs == input.docs
}

/// What converting an IR function to a C# method loses: what renaming reports, what its
/// visibility loses, what mapping each parameter type reports, what each generic parameter
/// loses, and what mapping the return type reports.
pub open spec fn csharp_method_from_ir_warnings(input: LanguageFunction, names: CSharpMethodNames) -> Seq<WarningText> {
    names.name.log@ + csharp_visibility_from_ir_warnings(input.visibility) + flat(
        Seq::new(names.param_types@.len(), |i: int| names.param_types@[i].log@),
    ) + flat(Seq::new(input.generic_args@.len(), |i: int| csharp_generic_from_ir_warnings(input.generic_args@[i])))
        + match names.return_type {
        Some(t) => t.log@,
        None => Seq::empty(),
    }
}

impl CSharpMethod {
    /// Converts an IR function to a C# method, given its C# name and types as the conversion's
    /// configuration resolved them.
    pub fn from_ir(input: LanguageFunction, names: CSharpMethodNames) -> (r: ConversionResult<CSharpMethod>)
        requires
            csharp_method_names_fit(input, names),
        ensures
            csharp_method_from_ir_is(r.value, input, names),
            r.log@ == csharp_method_from_ir_warnings(input, names),
    {
        let ghost inp = input;
        let ghost nm = names;
        let CSharpMethodNames { name, param_types, return_type } = names;
        let mut log = ConversionLog::new();
        log.add_warnings(name.log.warnings);
        let LanguageFunction {
            name: _,
            visibility,
            parameters,
            generic_args,
            return_type: _,
            is_static,
            is_abstract,
            is_virtual,
            is_override,
            is_final,
            body,
            docs,
            annotations: _,
            raw_attributes: _,
        } = input;
        let visibility = CSharpVisibility::from_ir(visibility, None);
        log.add_warnings(visibility.log.warnings);
        let ghost head = log@;
        let ghost ps = parameters@;
        let ghost ts = param_types@;
        let ghost pparts = Seq::new(ts.len(), |i: int| ts[i].log@);
        let mut prest = parameters;
        let mut trest = param_types;
        let mut out_params: Vec<CSharpParameter> = Vec::new();
        while prest.len() > 0
            invariant
                ps.len() == ts.len(),
                out_params@.len() + prest@.len() == ps.len(),
                prest@ == ps.skip(out_params@.len() as int),
                trest@ == ts.skip(out_params@.len() as int),
                pparts == Seq::new(ts.len(), |i: int| ts[i].log@),
                forall|i: int| 0 <= i < out_params@.len() ==> {
                    &&& (#[trigger] out_params@[i]).name == ps[i].name
                    &&& out_params@[i].param_type == ts[i].value
                    &&& out_params@[i].default_value == ps[i].default_value
                },
                log@ == head + flat(pparts.take(out_params@.len() as int)),
            decreases prest@.len(),
        {
            let p = prest.remove(0);
            let t = trest.remove(0);
            proof {
                lemma_flat_step(pparts, out_params@.len() as int);
            }
            let c = CSharpParameter::from_ir(p, t);
            log.add_warnings(c.log.warnings);
            out_params.push(c.value);
            assert(prest@ =~= ps.skip(out_params@.len() as int));
            assert(trest@ =~= ts.skip(out_params@.len() as int));
        }
        proof {
            lemma_flat_all(pparts);
        }
        let ghost mid = log@;
        let ghost gs = generic_args@;
        let ghost gparts = Seq::new(gs.len(), |i: int| csharp_generic_from_ir_warnings(gs[i]));
        let mut grest = generic_args;
        let mut out_generics: Vec<CSharpGenericArgument> = Vec::new();
        while grest.len() > 0
            invariant
                out_generics@.len() + grest@.len() == gs.len(),
                grest@ == gs.skip(out_generics@.len() as int),
                gparts == Seq::new(gs.len(), |i: int| csharp_generic_from_ir_warnings(gs[i])),
                forall|i: int| 0 <= i < out_generics@.len() ==> {
                    &&& (#[trigger] out_generics@[i]).name == gs[i].name
                    &&& out_generics@[i].constraints == gs[i].where_clause
                },
                log@ == mid + flat(gparts.take(out_generics@.len() as int)),
            decreases grest@.len(),
        {
            let g = grest.remove(0);
            proof {
                lemma_flat_step(gparts, out_generics@.len() as int);
            }
            let c = CSharpGenericArgument::from_ir(g, None);
            log.add_warnings(c.log.warnings);
            out_generics.push(c.value);
            assert(grest@ =~= gs.skip(out_generics@.len() as int));
        }
        proof {
            lemma_flat_all(gparts);
        }
        let return_type = match return_type {
            Some(t) => {
                log.add_warnings(t.log.warnings);
                Some(t.value)
            },
            None => None,
        };
        assert(log@ =~= csharp_method_from_ir_warnings(inp, nm));
        ConversionResult::with_log(
            CSharpMethod {
                name: name.value,
                visibility: visibility.value,
                parameters: out_params,
                generic_args: out_generics,
                return_type,
                is_static,
                is_abstract,
                is_virtual,
                is_override,
                is_sealed: is_final,
                is_async: false,
                is_unsafe: false,
                body,
                attributes: Vec::new(),
                docs,
            },
            log,
        )
    }
}

} // verus!
