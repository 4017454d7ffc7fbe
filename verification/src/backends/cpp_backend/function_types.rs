use vstd::prelude::*;

use crate::conversion::ConversionConfig;

use super::attributes::{cpp_foreign_warnings, report_foreign_cpp};
use super::generic_types::cpp_generic_from_ir_warnings;
use super::visibility::{cpp_visibility_from_ir, cpp_visibility_from_ir_warnings, cpp_visibility_ir};
use super::{CppGenericArgument, CppVisibility};
use crate::backends::BackendItem;
use crate::conversion::{
    feature_warning, flat, lemma_flat_all, lemma_flat_step, unsupported, ConversionLog, ConversionResult, WarningText,
};
use crate::ir::{LanguageFunction, LanguageFunctionParameter, LanguageGenericArgument};
use crate::text::push_str;

verus! {

/// Represents a C++ function parameter.
#[derive(Debug, Clone, PartialEq)]
pub struct CppParameter {
    /// The name of the parameter.
    pub name: String,
    /// The type of the parameter.
    pub param_type: String,
    /// Default value for the parameter, if any.
    pub default_value: Option<String>,
}

/// Represents a C++ function definition.
#[derive(Debug, Clone, PartialEq)]
pub struct CppFunction {
    /// The name of the function.
    pub name: String,
    /// The parent(class or struct) name this function belongs to, if it's a method.
    pub parent_name: Option<String>,
    /// The visibility of the function.
    pub visibility: CppVisibility,
    /// The parameters of the function.
    pub parameters: Vec<CppParameter>,
    /// Template parameters for the function (C++ templates).
    pub template_params: Vec<CppGenericArgument>,
    /// The return type of the function.
    pub return_type: Option<String>,
    /// Whether the function is static.
    pub is_static: bool,
    /// Whether the function is const.
    pub is_const: bool,
    /// Whether the function is virtual.
    pub is_virtual: bool,
    /// Whether the function is pure virtual.
    pub is_pure_virtual: bool,
    /// Whether the function is inline.
    pub is_inline: bool,
    /// Whether the function is noexcept.
    pub is_noexcept: bool,
    /// Whether the function overrides a base class method.
    pub is_override: bool,
    /// Whether the function is final.
    pub is_final: bool,
    /// Whether the function has C linkage (`extern "C"`).
    pub is_extern_c: bool,
    /// Whether the function is friend.
    pub is_friend: bool,
    /// Whether the function is deleted (C++11 = delete).
    pub is_deleted: bool,
    /// Whether the function is defaulted (C++11 = default).
    pub is_default: bool,
    /// The function body code, if available. Each string represents a line of code.
    pub body: Option<Vec<String>>,
    /// Documentation for the function.
    pub docs: Option<Vec<String>>,
}

/// Render options for C++ functions.
#[derive(Debug, Clone, Copy)]
pub struct CppFunctionRenderOptions {
    /// Whether to render the function as a definition (with body) or declaration (without body).
    /// * `true`: Render as a definition with function body (if available)
    /// * `false`: Render as a declaration only (no function body)
    pub render_definition: bool,
    /// Whether to render documentation comments.
    pub render_docs: bool,
    /// Whether to add documentation comments before definitions.
    pub docs_on_definition: bool,
    /// Whether to force rendering the function body.
    pub force_render_body: bool,
    /// Whether to render the function body if it's a template.
    pub render_body_if_template: bool,
    /// Whether to render the function body if it's a friend function.
    pub render_body_if_friend: bool,
    /// Whether to emit the `inline` specifier on an out-of-line definition
    /// (`render_definition == true`). Required for member-template definitions
    /// emitted into a header so they don't violate the ODR across translation units.
    pub inline_definition: bool,
    /// Whether to use `typename` as the default keyword for type parameters.
    pub use_typename_default: bool,
}

impl CppFunctionRenderOptions {
    /// The default options: a declaration, with docs and `typename` as the default keyword.
    pub open spec fn spec_default() -> Self {
        CppFunctionRenderOptions {
            render_definition: false,
            render_docs: true,
            docs_on_definition: false,
            force_render_body: false,
            render_body_if_template: true,
            render_body_if_friend: true,
            inline_definition: false,
            use_typename_default: true,
        }
    }

    /// The given options, or the defaults.
    pub open spec fn or_default(o: Option<&Self>) -> Self {
        match o {
            Some(o) => *o,
            None => Self::spec_default(),
        }
    }
}

impl Default for CppFunctionRenderOptions {
    fn default() -> (r: Self)
        ensures
            r == Self::spec_default(),
    {
        CppFunctionRenderOptions {
            render_definition: false,
            render_docs: true,
            docs_on_definition: false,
            force_render_body: false,
            render_body_if_template: true,
            render_body_if_friend: true,
            inline_definition: false,
            use_typename_default: true,
        }
    }
}


impl CppParameter {
    /// Converts the parameter to the IR, without loss.
    fn convert(self) -> (r: ConversionResult<LanguageFunctionParameter>)
        ensures
            r.value.name == self.name,
            r.value.param_type == self.param_type,
            r.value.default_value == self.default_value,
            r.log@ == Seq::<WarningText>::empty(),
    {
        ConversionResult::new(LanguageFunctionParameter {
            name: self.name,
            param_type: self.param_type,
            default_value: self.default_value,
        })
    }

    /// Converts the parameter to the IR, without loss.
    pub fn to_ir(self, options: Option<&CppParameterConversionOptions>) -> (r: ConversionResult<LanguageFunctionParameter>)
        ensures
            r.value.name == self.name,
            r.value.param_type == self.param_type,
            r.value.default_value == self.default_value,
            r.log@ == Seq::<WarningText>::empty(),
    {
        self.convert()
    }
}

/// The warning for a C++-only modifier of the function `name`.
pub open spec fn cpp_modifier_warning(feature: Seq<char>, name: Seq<char>) -> WarningText {
    unsupported("C++ "@ + feature + " on `"@ + name + "`"@, "modifier dropped from the language-agnostic IR"@)
}

/// The warning for `feature` when `active`.
pub open spec fn cpp_modifier_warnings(active: bool, feature: Seq<char>, name: Seq<char>) -> Seq<WarningText> {
    if active {
        seq![cpp_modifier_warning(feature, name)]
    } else {
        Seq::empty()
    }
}

/// What converting a C++ function to the IR loses: `const`, `extern "C"`, `inline`,
/// `noexcept`, `friend`, `= delete` and `= default`, in that order.
pub open spec fn cpp_fn_ir_warnings(f: CppFunction) -> Seq<WarningText> {
    cpp_modifier_warnings(f.is_const, "`const` member function"@, f.name@) + cpp_modifier_warnings(
        f.is_extern_c,
        "`extern \"C\"` linkage"@,
        f.name@,
    ) + cpp_modifier_warnings(f.is_inline, "`inline` specifier"@, f.name@) + cpp_modifier_warnings(
        f.is_noexcept,
        "`noexcept` specifier"@,
        f.name@,
    ) + cpp_modifier_warnings(f.is_friend, "`friend` function"@, f.name@) + cpp_modifier_warnings(
        f.is_deleted,
        "`= delete`"@,
        f.name@,
    ) + cpp_modifier_warnings(f.is_default, "`= default`"@, f.name@)
}

/// Whether `r` is the IR of the C++ function `f`: the same name, return type, body, docs and
/// inheritance flags (pure virtual as abstract), its visibility, parameters and template
/// parameters converted, and no attributes.
pub open spec fn cpp_fn_ir_is(r: LanguageFunction, f: CppFunction) -> bool {
    &&& r.name == f.name
    &&& r.visibility == cpp_visibility_ir(f.visibility)
    &&& r.parameters@.len() == f.parameters@.len()
    &&& forall|i: int| 0 <= i < r.parameters@.len() ==> {
        &&& (#[trigger] r.parameters@[i]).name == f.parameters@[i].name
        &&& r.parameters@[i].param_type == f.parameters@[i].param_type
        &&& r.parameters@[i].default_value == f.parameters@[i].default_value
    }
    &&& r.generic_args@.len() == f.template_params@.len()
    &&& forall|i: int| 0 <= i < r.generic_args@.len() ==> {
        &&& (#[trigger] r.generic_args@[i]).name == f.template_params@[i].name
        &&& r.generic_args@[i].keyword == f.template_params@[i].keyword
        &&& r.generic_args@[i].default_value == f.template_params@[i].default_value
        &&& r.generic_args@[i].where_clause is None
    }
    &&& r.return_type == f.return_type
    &&& r.is_static == f.is_static
    &&& r.is_abstract == f.is_pure_virtual
    &&& r.is_virtual == f.is_virtual
    &&& r.is_override == f.is_override
    &&& r.is_final == f.is_final
    &&& r.body == f.body
    &&& r.docs == f.docs
    &&& r.annotations@.len() == 0
    &&& r.raw_attributes@.len() == 0
}

/// Reports the modifier `feature` of the function `name` when `active`.
fn warn_modifier(active: bool, feature: &str, name: &str, log: &mut ConversionLog)
    ensures
        final(log)@ == old(log)@ + cpp_modifier_warnings(active, feature@, name@),
{
    if active {
        let mut pre = String::new();
        push_str(&mut pre, "C++ ");
        push_str(&mut pre, feature);
        push_str(&mut pre, " on `");
        log.add_warning(feature_warning(pre.as_str(), name, "`", "modifier dropped from the language-agnostic IR"));
    }
    assert(log@ =~= old(log)@ + cpp_modifier_warnings(active, feature@, name@));
}

impl CppFunction {
    /// Converts the function to the IR, reporting the C++-only modifiers it drops.
    fn convert(self) -> (r: ConversionResult<LanguageFunction>)
        ensures
            cpp_fn_ir_is(r.value, self),
            r.log@ == cpp_fn_ir_warnings(self),
    {
        let ghost f = self;
        let mut log = ConversionLog::new();
        let visibility = self.visibility.to_ir(None);
        warn_modifier(self.is_const, "`const` member function", self.name.as_str(), &mut log);
        warn_modifier(self.is_extern_c, "`extern \"C\"` linkage", self.name.as_str(), &mut log);
        warn_modifier(self.is_inline, "`inline` specifier", self.name.as_str(), &mut log);
        warn_modifier(self.is_noexcept, "`noexcept` specifier", self.name.as_str(), &mut log);
        warn_modifier(self.is_friend, "`friend` function", self.name.as_str(), &mut log);
        warn_modifier(self.is_deleted, "`= delete`", self.name.as_str(), &mut log);
        warn_modifier(self.is_default, "`= default`", self.name.as_str(), &mut log);
        assert(log@ =~= cpp_fn_ir_warnings(f));
        let CppFunction {
            name,
            parent_name: _,
            visibility: _,
            parameters,
            template_params,
            return_type,
            is_static,
            is_const: _,
            is_virtual,
            is_pure_virtual,
            is_inline: _,
            is_noexcept: _,
            is_override,
            is_final,
            is_extern_c: _,
            is_friend: _,
            is_deleted: _,
            is_default: _,
            body,
            docs,
        } = self;
        let ghost ps = parameters@;
        let mut rest = parameters;
        let mut ir_params: Vec<LanguageFunctionParameter> = Vec::new();
        while rest.len() > 0
            invariant
                ir_params@.len() + rest@.len() == ps.len(),
                rest@ == ps.skip(ir_params@.len() as int),
                forall|k: int| 0 <= k < ir_params@.len() ==> {
                    &&& (#[trigger] ir_params@[k]).name == ps[k].name
                    &&& ir_params@[k].param_type == ps[k].param_type
                    &&& ir_params@[k].default_value == ps[k].default_value
                },
            decreases rest@.len(),
        {
            let p = rest.remove(0);
            ir_params.push(p.to_ir(None).value);
            assert(rest@ =~= ps.skip(ir_params@.len() as int));
        }
        let ghost ts = template_params@;
        let mut trest = template_params;
        let mut ir_generics: Vec<LanguageGenericArgument> = Vec::new();
        while trest.len() > 0
            invariant
                ir_generics@.len() + trest@.len() == ts.len(),
                trest@ == ts.skip(ir_generics@.len() as int),
                forall|k: int| 0 <= k < ir_generics@.len() ==> {
                    &&& (#[trigger] ir_generics@[k]).name == ts[k].name
                    &&& ir_generics@[k].keyword == ts[k].keyword
                    &&& ir_generics@[k].default_value == ts[k].default_value
                    &&& ir_generics@[k].where_clause is None
                },
            decreases trest@.len(),
        {
            let t = trest.remove(0);
            ir_generics.push(t.to_ir(None).value);
            assert(trest@ =~= ts.skip(ir_generics@.len() as int));
        }
        ConversionResult::with_log(
            LanguageFunction {
                name,
                visibility: visibility.value,
                parameters: ir_params,
                generic_args: ir_generics,
                return_type,
                is_static,
                is_abstract: is_pure_virtual,
                is_virtual,
                is_override,
                is_final,
                body,
                docs,
                annotations: Vec::new(),
                raw_attributes: Vec::new(),
            },
            log,
        )
    }

    /// Converts the function to the IR, reporting the C++-only modifiers it drops.
    /// The user's hook, if the options carry one, is applied to the result.
    pub fn to_ir(self, options: Option<&CppFunctionConversionOptions>) -> (r: ConversionResult<LanguageFunction>)
        ensures
            !CppFunctionConversionOptions::hooked(options) ==> cpp_fn_ir_is(r.value, self),
            r.log@ == cpp_fn_ir_warnings(self),
    {
        let mut r = self.convert();
        if let Some(o) = options {
            o.config.after_to_ir_function(&mut r.value);
        }
        r
    }
}


/// Conversion options for C++ parameters: the conversion's configuration.
#[derive(Clone)]
pub struct CppParameterConversionOptions {
    /// The conversion configuration (the user's hooks).
    pub config: ConversionConfig,
}

impl Default for CppParameterConversionOptions {
    fn default() -> (r: Self)
        ensures
            r.config.hooks is None,
    {
        CppParameterConversionOptions { config: ConversionConfig::default() }
    }
}

impl CppParameterConversionOptions {
    /// Whether options are given and carry hooks.
    pub open spec fn hooked(o: Option<&Self>) -> bool {
        o matches Some(x) && x.config.hooks is Some
    }
}


/// Conversion options for C++ functions: the conversion's configuration.
#[derive(Clone)]
pub struct CppFunctionConversionOptions {
    /// The conversion configuration (the user's hooks).
    pub config: ConversionConfig,
}

impl Default for CppFunctionConversionOptions {
    fn default() -> (r: Self)
        ensures
            r.config.hooks is None,
    {
        CppFunctionConversionOptions { config: ConversionConfig::default() }
    }
}

impl CppFunctionConversionOptions {
    /// Whether options are given and carry hooks.
    pub open spec fn hooked(o: Option<&Self>) -> bool {
        o matches Some(x) && x.config.hooks is Some
    }
}

impl CppParameter {
    /// Converts an IR parameter to C++, given its C++ type as the conversion's configuration
    /// mapped it; the default value is kept.
    pub fn from_ir(input: LanguageFunctionParameter, param_type: ConversionResult<String>) -> (r: ConversionResult<
        CppParameter,
    >)
        ensures
            r.value.name == input.name,
            r.value.param_type == param_type.value,
            r.value.default_value == input.default_value,
            r.log@ == param_type.log@,
    {
        ConversionResult::with_log(
            CppParameter { name: input.name, param_type: param_type.value, default_value: input.default_value },
            param_type.log,
        )
    }
}

/// What the configuration of a conversion made of an IR function's name and types: the
/// function's C++ name, each parameter's C++ type, and its C++ return type.
pub struct CppFunctionNames {
    pub name: ConversionResult<String>,
    pub param_types: Vec<ConversionResult<String>>,
    pub return_type: Option<ConversionResult<String>>,
}

/// Whether the names fit the function: one type for each parameter.
pub open spec fn cpp_fn_names_fit(input: LanguageFunction, names: CppFunctionNames) -> bool {
    names.param_types@.len() == input.parameters@.len()
}

/// What converting an IR function to C++ loses: what mapping each parameter's type and the
/// return type reports, each `where` clause of its generic parameters, what its visibility
/// loses, each raw attribute of another language, then what renaming reports.
pub open spec fn cpp_fn_from_ir_warnings(input: LanguageFunction, names: CppFunctionNames) -> Seq<WarningText> {
    flat(Seq::new(input.parameters@.len(), |i: int| names.param_types@[i].log@)) + match names.return_type {
        Some(t) => t.log@,
        None => Seq::empty(),
    } + flat(Seq::new(input.generic_args@.len(), |i: int| cpp_generic_from_ir_warnings(input.generic_args@[i])))
        + cpp_visibility_from_ir_warnings(input.visibility) + cpp_foreign_warnings(input.raw_attributes@)
        + names.name.log@
}

/// Whether `r` is the C++ function an IR function converts to, given its names: its
/// visibility, parameters and template parameters converted, virtual when virtual or abstract,
/// pure virtual when abstract, `static`, `override` and `final` kept, and no other qualifier.
pub open spec fn cpp_fn_from_ir_is(r: CppFunction, input: LanguageFunction, names: CppFunctionNames) -> bool {
    &&& r.name == names.name.value
    &&& r.parent_name is None
    &&& r.visibility == cpp_visibility_from_ir(input.visibility)
    &&& r.parameters@.len() == input.parameters@.len()
    &&& forall|i: int| 0 <= i < r.parameters@.len() ==> {
        &&& (#[trigger] r.parameters@[i]).name == input.parameters@[i].name
        &&& r.parameters@[i].param_type == names.param_types@[i].value
        &&& r.parameters@[i].default_value == input.parameters@[i].default_value
    }
    &&& r.template_params@.len() == input.generic_args@.len()
    &&& forall|i: int| 0 <= i < r.template_params@.len() ==> {
        &&& (#[trigger] r.template_params@[i]).name == input.generic_args@[i].name
        &&& r.template_params@[i].keyword == input.generic_args@[i].keyword
        &&& r.template_params@[i].default_value == input.generic_args@[i].default_value
    }
    &&& r.return_type == (match names.return_type {
        Some(t) => Some(t.value),
        None => None,
    })
    &&& r.is_static == input.is_static
    &&& r.is_virtual == (input.is_virtual || input.is_abstract)
    &&& r.is_pure_virtual == input.is_abstract
    &&& r.is_override == input.is_override
    &&& r.is_final == input.is_final
    &&& !r.is_const && !r.is_inline && !r.is_noexcept && !r.is_extern_c
    &&& !r.is_friend && !r.is_deleted && !r.is_default
    &&& r.body == input.body
    &&& r.docs == input.docs
}

impl CppFunction {
    /// Converts an IR function to C++, given its C++ name and types as the conversion's
    /// configuration resolved them. The caller applies the user's `before_from_ir_*` hook, if any, to the input first.
    pub fn from_ir(input: LanguageFunction, names: CppFunctionNames) -> (r: ConversionResult<CppFunction>)
        requires
            cpp_fn_names_fit(input, names),
        ensures
            cpp_fn_from_ir_is(r.value, input, names),
            r.log@ == cpp_fn_from_ir_warnings(input, names),
    {
        let ghost inp = input;
        let ghost nm = names;
        let mut log = ConversionLog::new();
        let CppFunctionNames { name, param_types, return_type } = names;
        let LanguageFunction {
            name: _,
            visibility,
            parameters,
            generic_args,
            return_type: _,
            is_static,
            is_abstract,
            is_virtual,
            is_override,
            is_final,
            body,
            docs,
            annotations: _,
            raw_attributes,
        } = input;
        let ghost ps = parameters@;
        let ghost ts = param_types@;
        let ghost pparts = Seq::new(ps.len(), |i: int| ts[i].log@);
        let mut prest = parameters;
        let mut trest = param_types;
        let mut out_params: Vec<CppParameter> = Vec::new();
        while prest.len() > 0
            invariant
                ps.len() == ts.len(),
                out_params@.len() + prest@.len() == ps.len(),
                prest@ == ps.skip(out_params@.len() as int),
                trest@ == ts.skip(out_params@.len() as int),
                pparts == Seq::new(ps.len(), |i: int| ts[i].log@),
                forall|i: int| 0 <= i < out_params@.len() ==> {
                    &&& (#[trigger] out_params@[i]).name == ps[i].name
                    &&& out_params@[i].param_type == ts[i].value
                    &&& out_params@[i].default_value == ps[i].default_value
                },
                log@ == flat(pparts.take(out_params@.len() as int)),
            decreases prest@.len(),
        {
            let p = prest.remove(0);
            let t = trest.remove(0);
            proof {
                lemma_flat_step(pparts, out_params@.len() as int);
            }
            let c = CppParameter::from_ir(p, t);
            log.add_warnings(c.log.warnings);
            out_params.push(c.value);
            assert(prest@ =~= ps.skip(out_params@.len() as int));
            assert(trest@ =~= ts.skip(out_params@.len() as int));
        }
        proof {
            lemma_flat_all(pparts);
        }
        let return_type = match return_type {
            Some(t) => {
                log.add_warnings(t.log.warnings);
                Some(t.value)
            },
            None => None,
        };
        let ghost head = log@;
        let ghost gs = generic_args@;
        let ghost gparts = Seq::new(gs.len(), |i: int| cpp_generic_from_ir_warnings(gs[i]));
        let mut grest = generic_args;
        let mut out_generics: Vec<CppGenericArgument> = Vec::new();
        while grest.len() > 0
            invariant
                out_generics@.len() + grest@.len() == gs.len(),
                grest@ == gs.skip(out_generics@.len() as int),
                gparts == Seq::new(gs.len(), |i: int| cpp_generic_from_ir_warnings(gs[i])),
                forall|i: int| 0 <= i < out_generics@.len() ==> {
                    &&& (#[trigger] out_generics@[i]).name == gs[i].name
                    &&& out_generics@[i].keyword == gs[i].keyword
                    &&& out_generics@[i].default_value == gs[i].default_value
                },
                log@ == head + flat(gparts.take(out_generics@.len() as int)),
            decreases grest@.len(),
        {
            let g = grest.remove(0);
            proof {
                lemma_flat_step(gparts, out_generics@.len() as int);
            }
            let c = CppGenericArgument::from_ir(g, None);
            log.add_warnings(c.log.warnings);
            out_generics.push(c.value);
            assert(grest@ =~= gs.skip(out_generics@.len() as int));
        }
        proof {
            lemma_flat_all(gparts);
        }
        let visibility = CppVisibility::from_ir(visibility, None);
        log.add_warnings(visibility.log.warnings);
        report_foreign_cpp(&raw_attributes, &mut log);
        log.add_warnings(name.log.warnings);
        assert(log@ =~= cpp_fn_from_ir_warnings(inp, nm));
        ConversionResult::with_log(
            CppFunction {
                name: name.value,
                parent_name: None,
                visibility: visibility.value,
                parameters: out_params,
                template_params: out_generics,
                return_type,
                is_static,
                is_const: false,
                is_virtual: is_virtual || is_abstract,
                is_pure_virtual: is_abstract,
                is_inline: false,
                is_noexcept: false,
                is_override,
                is_final,
                is_extern_c: false,
                is_friend: false,
                is_deleted: false,
                is_default: false,
                body,
                docs,
            },
            log,
        )
    }
}

} // verus!
