use vstd::prelude::*;

use crate::conversion::ConversionConfig;

use super::attributes::{rust_attribute_warnings, warn_dropped_attributes};
use super::generic_types::rust_generic_keyword;
use crate::literal::{has_prefix, str_eq};
use super::visibility::{rust_visibility_from_ir, rust_visibility_from_ir_warnings, rust_visibility_ir};
use super::{RustGenericArgument, RustVisibility};
use crate::backends::BackendItem;
use crate::conversion::{
    feature_warning, flat, lemma_flat_all, lemma_flat_step, unsupported, ConversionLog, ConversionResult, WarningText,
};
use crate::ir::{LanguageFunction, LanguageFunctionParameter, LanguageGenericArgument};
use crate::text::push_str;

verus! {

/// The receiver of a Rust method.
#[derive(Debug, Clone, Copy, PartialEq, Eq)]
pub enum RustSelfKind {
    /// A free function or associated function — no receiver.
    NoSelf,
    /// `&self`.
    Ref,
    /// `&mut self`.
    RefMut,
    /// `self` (by value).
    Owned,
}

impl RustSelfKind {
    /// The receiver as written in a parameter list, if any.
    pub open spec fn receiver(self) -> Option<Seq<char>> {
        match self {
            RustSelfKind::NoSelf => Option::None,
            RustSelfKind::Ref => Some("&self"@),
            RustSelfKind::RefMut => Some("&mut self"@),
            RustSelfKind::Owned => Some("self"@),
        }
    }

    /// Render the receiver as it appears in a parameter list, or `None` when there is no receiver.
    pub fn render(&self) -> (r: Option<&'static str>)
        ensures
            match r {
                Some(s) => self.receiver() == Some(s@),
                Option::None => self.receiver() is None,
            },
    {
        match self {
            RustSelfKind::NoSelf => Option::None,
            RustSelfKind::Ref => Some("&self"),
            RustSelfKind::RefMut => Some("&mut self"),
            RustSelfKind::Owned => Some("self"),
        }
    }
}

/// Represents a parameter of a Rust function.
#[derive(Debug, Clone, PartialEq)]
pub struct RustParameter {
    /// The name of the parameter.
    pub name: String,
    /// The type of the parameter.
    pub param_type: String,
    /// Attributes applied to the parameter (without the leading `#[`).
    pub attributes: Vec<String>,
}

/// Represents a Rust function or method.
#[derive(Debug, Clone, PartialEq)]
pub struct RustFunction {
    /// The name of the function.
    pub name: String,
    /// The visibility of the function.
    pub visibility: RustVisibility,
    /// The receiver of the function (for methods).
    pub self_kind: RustSelfKind,
    /// The parameters of the function (excluding the receiver).
    pub parameters: Vec<RustParameter>,
    /// Generic parameters of the function.
    pub generic_args: Vec<RustGenericArgument>,
    /// The return type of the function; `None` for `()`.
    pub return_type: Option<String>,
    /// Whether the function is `unsafe`.
    pub is_unsafe: bool,
    /// Whether the function is `async`.
    pub is_async: bool,
    /// Whether the function is `const`.
    pub is_const: bool,
    /// The `extern "<abi>"` ABI of the function, e.g. `Some("C")`; `None` for the default Rust ABI.
    pub abi: Option<String>,
    /// The function body, one entry per line; `None` renders a bare signature (declaration only).
    pub body: Option<Vec<String>>,
    /// Plain `//` comment lines written above the function.
    pub comments: Vec<String>,
    /// Attributes written before the function's own attributes (without the leading `#[`).
    pub return_attributes: Vec<String>,
    /// Attributes applied to the function (without the leading `#[`).
    pub attributes: Vec<String>,
    /// Optional documentation for the function.
    pub docs: Option<Vec<String>>,
}

/// Render options for Rust functions.
#[derive(Debug, Clone, Copy)]
pub struct RustFunctionRenderOptions {
    /// Whether to render documentation comments.
    pub render_docs: bool,
    /// Whether to render attributes.
    pub render_attributes: bool,
}

impl RustFunctionRenderOptions {
    /// The default options: docs and attributes are rendered.
    pub open spec fn spec_default() -> Self {
        RustFunctionRenderOptions { render_docs: true, render_attributes: true }
    }

    /// The given options, or the defaults.
    pub open spec fn or_default(o: Option<&Self>) -> Self {
        match o {
            Some(o) => *o,
            None => Self::spec_default(),
        }
    }
}

impl Default for RustFunctionRenderOptions {
    fn default() -> (r: Self)
        ensures
            r == Self::spec_default(),
    {
        RustFunctionRenderOptions { render_docs: true, render_attributes: true }
    }
}


impl RustParameter {
    /// Converts the parameter to the IR (Rust parameters have no default).
    fn convert(self) -> (r: ConversionResult<LanguageFunctionParameter>)
        ensures
            r.value.name == self.name,
            r.value.param_type == self.param_type,
            r.value.default_value is None,
            r.log@ == Seq::<WarningText>::empty(),
    {
        ConversionResult::new(LanguageFunctionParameter {
            name: self.name,
            param_type: self.param_type,
            default_value: None,
        })
    }

    /// Converts the parameter to the IR (Rust parameters have no default).
    pub fn to_ir(self, options: Option<&RustParameterConversionOptions>) -> (r: ConversionResult<LanguageFunctionParameter>)
        ensures
            r.value.name == self.name,
            r.value.param_type == self.param_type,
            r.value.default_value is None,
            r.log@ == Seq::<WarningText>::empty(),
    {
        self.convert()
    }
}

/// The warning for a qualifier of the function `name` that the IR drops.
pub open spec fn fn_qualifier_warning(what: Seq<char>, name: Seq<char>, resolution: Seq<char>) -> WarningText {
    unsupported(what + " on function `"@ + name + "`"@, resolution)
}

/// What converting a Rust function to the IR loses: `unsafe`, `async`, `const`, the ABI, each
/// attribute, a receiver other than `&self`, and what its visibility loses.
pub open spec fn rust_fn_ir_warnings(f: RustFunction) -> Seq<WarningText> {
    (if f.is_unsafe {
        seq![fn_qualifier_warning("`unsafe`"@, f.name@, "the `unsafe` qualifier is dropped from the language-agnostic IR"@)]
    } else {
        Seq::empty()
    }) + (if f.is_async {
        seq![fn_qualifier_warning("`async`"@, f.name@, "the `async` qualifier is dropped from the language-agnostic IR"@)]
    } else {
        Seq::empty()
    }) + (if f.is_const {
        seq![fn_qualifier_warning("`const`"@, f.name@, "the `const fn` qualifier is dropped from the language-agnostic IR"@)]
    } else {
        Seq::empty()
    }) + (if f.abi is Some {
        seq![fn_qualifier_warning("extern \"C\" ABI"@, f.name@, "dropped from the language-agnostic IR"@)]
    } else {
        Seq::empty()
    }) + rust_attribute_warnings(f.attributes@, "function"@, f.name@) + (if f.self_kind == RustSelfKind::RefMut
        || f.self_kind == RustSelfKind::Owned {
        seq![unsupported(
            "`"@ + f.self_kind.receiver()->0 + "` receiver on method `"@ + f.name@ + "`"@,
            "the IR carries only instance-vs-static; lowered to `&self`"@,
        )]
    } else {
        Seq::empty()
    })
}

/// Whether `r` is the IR of the Rust function `f`: the same name, return type, body and docs,
/// static exactly when there is no receiver, its visibility, parameters and generic
/// parameters converted, and none of the inheritance flags.
pub open spec fn rust_fn_ir_is(r: LanguageFunction, f: RustFunction) -> bool {
    &&& r.name == f.name
    &&& r.visibility == rust_visibility_ir(f.visibility)
    &&& r.parameters@.len() == f.parameters@.len()
    &&& forall|i: int| 0 <= i < r.parameters@.len() ==> {
        &&& (#[trigger] r.parameters@[i]).name == f.parameters@[i].name
        &&& r.parameters@[i].param_type == f.parameters@[i].param_type
        &&& r.parameters@[i].default_value is None
    }
    &&& r.generic_args@.len() == f.generic_args@.len()
    &&& forall|i: int| 0 <= i < r.generic_args@.len() ==> {
        &&& (#[trigger] r.generic_args@[i]).name == f.generic_args@[i].name
        &&& r.generic_args@[i].keyword@ == rust_generic_keyword(f.generic_args@[i])
        &&& r.generic_args@[i].default_value == f.generic_args@[i].default_value
        &&& r.generic_args@[i].where_clause == f.generic_args@[i].bounds
    }
    &&& r.return_type == f.return_type
    &&& r.is_static == (f.self_kind == RustSelfKind::NoSelf)
    &&& !r.is_abstract && !r.is_virtual && !r.is_override && !r.is_final
    &&& r.body == f.body
    &&& r.docs == f.docs
    &&& r.annotations@.len() == 0
    &&& r.raw_attributes@.len() == 0
}

/// Converts the generic parameters to the IR, in order.
pub(crate) fn rust_generics_to_ir(gs: Vec<RustGenericArgument>) -> (r: Vec<LanguageGenericArgument>)
    ensures
        r@.len() == gs@.len(),
        forall|k: int| 0 <= k < r@.len() ==> {
            &&& (#[trigger] r@[k]).name == gs@[k].name
            &&& r@[k].keyword@ == rust_generic_keyword(gs@[k])
            &&& r@[k].default_value == gs@[k].default_value
            &&& r@[k].where_clause == gs@[k].bounds
        },
{
    let ghost all = gs@;
    let mut rest = gs;
    let mut out: Vec<LanguageGenericArgument> = Vec::new();
    while rest.len() > 0
        invariant
            out@.len() + rest@.len() == all.len(),
            rest@ == all.skip(out@.len() as int),
            forall|k: int| 0 <= k < out@.len() ==> {
                &&& (#[trigger] out@[k]).name == all[k].name
                &&& out@[k].keyword@ == rust_generic_keyword(all[k])
                &&& out@[k].default_value == all[k].default_value
                &&& out@[k].where_clause == all[k].bounds
            },
        decreases rest@.len(),
    {
        let g = rest.remove(0);
        assert(g == all[out@.len() as int]);
        out.push(g.to_ir(None).value);
        assert(rest@ =~= all.skip(out@.len() as int));
    }
    out
}

/// Converts the parameters to the IR, in order.
fn rust_parameters_to_ir(ps: Vec<RustParameter>) -> (r: Vec<LanguageFunctionParameter>)
    ensures
        r@.len() == ps@.len(),
        forall|k: int| 0 <= k < r@.len() ==> {
            &&& (#[trigger] r@[k]).name == ps@[k].name
            &&& r@[k].param_type == ps@[k].param_type
            &&& r@[k].default_value is None
        },
{
    let ghost all = ps@;
    let mut rest = ps;
    let mut out: Vec<LanguageFunctionParameter> = Vec::new();
    while rest.len() > 0
        invariant
            out@.len() + rest@.len() == all.len(),
            rest@ == all.skip(out@.len() as int),
            forall|k: int| 0 <= k < out@.len() ==> {
                &&& (#[trigger] out@[k]).name == all[k].name
                &&& out@[k].param_type == all[k].param_type
                &&& out@[k].default_value is None
            },
        decreases rest@.len(),
    {
        let p = rest.remove(0);
        assert(p == all[out@.len() as int]);
        out.push(p.to_ir(None).value);
        assert(rest@ =~= all.skip(out@.len() as int));
    }
    out
}

/// The warning for a qualifier of the function `name`.
fn qualifier_warning(what: &str, name: &str, resolution: &str) -> (w: crate::conversion::ConversionWarning)
    ensures
        w@ == fn_qualifier_warning(what@, name@, resolution@),
{
    let mut pre = String::new();
    push_str(&mut pre, what);
    push_str(&mut pre, " on function `");
    feature_warning(pre.as_str(), name, "`", resolution)
}

impl RustFunction {
    /// Converts the function to the IR, reporting the qualifiers, attributes and receiver kinds
    /// the IR has no place for.
    fn convert(self) -> (r: ConversionResult<LanguageFunction>)
        ensures
            rust_fn_ir_is(r.value, self),
            r.log@ == rust_fn_ir_warnings(self),
    {
        let ghost f = self;
        let mut log = ConversionLog::new();
        if self.is_unsafe {
            log.add_warning(qualifier_warning("`unsafe`", self.name.as_str(), "the `unsafe` qualifier is dropped from the language-agnostic IR"));
        }
        if self.is_async {
            log.add_warning(qualifier_warning("`async`", self.name.as_str(), "the `async` qualifier is dropped from the language-agnostic IR"));
        }
        if self.is_const {
            log.add_warning(qualifier_warning("`const`", self.name.as_str(), "the `const fn` qualifier is dropped from the language-agnostic IR"));
        }
        if self.abi.is_some() {
            log.add_warning(qualifier_warning("extern \"C\" ABI", self.name.as_str(), "dropped from the language-agnostic IR"));
        }
        warn_dropped_attributes(&self.attributes, "function", self.name.as_str(), &mut log);
        if matches!(self.self_kind, RustSelfKind::RefMut | RustSelfKind::Owned) {
            let receiver: &str = match self.self_kind.render() {
                Some(r) => r,
                None => "self",
            };
            let mut pre = String::new();
            push_str(&mut pre, "`");
            push_str(&mut pre, receiver);
            push_str(&mut pre, "` receiver on method `");
            log.add_warning(feature_warning(
                pre.as_str(),
                self.name.as_str(),
                "`",
                "the IR carries only instance-vs-static; lowered to `&self`",
            ));
        }
        let visibility = self.visibility.to_ir(None);
        log.add_warnings(visibility.log.warnings);
        assert(log@ =~= rust_fn_ir_warnings(f));
        let is_static = matches!(self.self_kind, RustSelfKind::NoSelf);
        let RustFunction {
            name,
            visibility: _,
            self_kind: _,
            parameters,
            generic_args,
            return_type,
            is_unsafe: _,
            is_async: _,
            is_const: _,
            abi: _,
            body,
            attributes: _,
            docs,
            comments: _,
            return_attributes: _,
        } = self;
        ConversionResult::with_log(
            LanguageFunction {
                name,
                visibility: visibility.value,
                parameters: rust_parameters_to_ir(parameters),
                generic_args: rust_generics_to_ir(generic_args),
                return_type,
                is_static,
                is_abstract: false,
                is_virtual: false,
                is_override: false,
                is_final: false,
                body,
                docs,
                annotations: Vec::new(),
                raw_attributes: Vec::new(),
            },
            log,
        )
    }

    /// Converts the function to the IR, reporting the qualifiers, attributes and receiver kinds
    /// the IR has no place for.
    pub fn to_ir(self, options: Option<&RustFunctionConversionOptions>) -> (r: ConversionResult<LanguageFunction>)
        ensures
            rust_fn_ir_is(r.value, self),
            r.log@ == rust_fn_ir_warnings(self),
    {
        self.convert()
    }
}


/// No loss goes unreported: a Rust function whose conversion to the IR logs no warning is not
/// `unsafe`, `async` or `const`, has no ABI and no attributes, and takes no receiver or `&self`.
pub proof fn rust_fn_conversion_reports_every_loss(f: RustFunction)
    requires
        rust_fn_ir_warnings(f).len() == 0,
    ensures
        !f.is_unsafe && !f.is_async && !f.is_const,
        f.abi is None,
        f.attributes@.len() == 0,
        f.self_kind == RustSelfKind::NoSelf || f.self_kind == RustSelfKind::Ref,
{
}


/// Conversion options for Rust parameters: the conversion's configuration.
#[derive(Clone)]
pub struct RustParameterConversionOptions {
    /// The conversion configuration (the user's hooks).
    pub config: ConversionConfig,
}

impl Default for RustParameterConversionOptions {
    fn default() -> (r: Self)
        ensures
            r.config.hooks is None,
    {
        RustParameterConversionOptions { config: ConversionConfig::default() }
    }
}

impl RustParameterConversionOptions {
    /// Whether options are given and carry hooks.
    pub open spec fn hooked(o: Option<&Self>) -> bool {
        o matches Some(x) && x.config.hooks is Some
    }
}


/// Conversion options for Rust functions: the conversion's configuration.
#[derive(Clone)]
pub struct RustFunctionConversionOptions {
    /// The conversion configuration (the user's hooks).
    pub config: ConversionConfig,
}

impl Default for RustFunctionConversionOptions {
    fn default() -> (r: Self)
        ensures
            r.config.hooks is None,
    {
        RustFunctionConversionOptions { config: ConversionConfig::default() }
    }
}

impl RustFunctionConversionOptions {
    /// Whether options are given and carry hooks.
    pub open spec fn hooked(o: Option<&Self>) -> bool {
        o matches Some(x) && x.config.hooks is Some
    }
}


/// What converting an IR parameter to Rust loses: its default, then what type mapping reports.
pub open spec fn rust_param_from_ir_warnings(input: LanguageFunctionParameter, param_type: ConversionResult<String>) -> Seq<
    WarningText,
> {
    (if input.default_value is Some {
        seq![unsupported(
            "default value on parameter `"@ + input.name@ + "`"@,
            "Rust has no default parameters; the default was dropped"@,
        )]
    } else {
        Seq::empty()
    }) + param_type.log@
}

impl RustParameter {
    /// Converts an IR parameter to Rust, given its Rust type as the conversion's configuration
    /// mapped it.
    pub fn from_ir(input: LanguageFunctionParameter, param_type: ConversionResult<String>) -> (r: ConversionResult<
        RustParameter,
    >)
        ensures
            r.value.name == input.name,
            r.value.param_type == param_type.value,
            r.value.attributes@.len() == 0,
            r.log@ == rust_param_from_ir_warnings(input, param_type),
    {
        let ghost inp = input;
        let ghost pt = param_type;
        let mut log = ConversionLog::new();
        if input.default_value.is_some() {
            log.add_warning(feature_warning(
                "default value on parameter `",
                input.name.as_str(),
                "`",
                "Rust has no default parameters; the default was dropped",
            ));
        }
        log.add_warnings(param_type.log.warnings);
        assert(log@ =~= rust_param_from_ir_warnings(inp, pt));
        ConversionResult::with_log(
            RustParameter { name: input.name, param_type: param_type.value, attributes: Vec::new() },
            log,
        )
    }
}

/// What the configuration of a conversion made of an IR function's name and types: the
/// function's Rust name, each parameter's Rust type, and its Rust return type (`None` for none
/// or for the unit type).
pub struct RustFunctionNames {
    pub name: ConversionResult<String>,
    pub param_types: Vec<ConversionResult<String>>,
    pub return_type: Option<ConversionResult<String>>,
}

/// Whether the names fit the function: one type for each parameter.
pub open spec fn rust_fn_names_fit(input: LanguageFunction, names: RustFunctionNames) -> bool {
    names.param_types@.len() == input.parameters@.len()
}

/// The warning for an inheritance modifier of the method `name` that Rust has no place for.
pub open spec fn method_modifier_warning(what: Seq<char>, name: Seq<char>, resolution: Seq<char>) -> WarningText {
    unsupported(what + " method `"@ + name + "`"@, resolution)
}

/// What converting an IR function to Rust loses: `virtual`, `override`, `final` and
/// `abstract`, what renaming reports, what its visibility loses, what each parameter loses,
/// and what mapping the return type reports.
pub open spec fn rust_fn_from_ir_warnings(input: LanguageFunction, names: RustFunctionNames) -> Seq<WarningText> {
    (if input.is_virtual {
        seq![method_modifier_warning("virtual"@, input.name@, "Rust has no virtual methods; lowered to an inherent method"@)]
    } else {
        Seq::empty()
    }) + (if input.is_override {
        seq![method_modifier_warning("override"@, input.name@, "Rust has no method overriding; the modifier was dropped"@)]
    } else {
        Seq::empty()
    }) + (if input.is_final {
        seq![method_modifier_warning("final"@, input.name@, "Rust methods are not overridable; `final` was dropped"@)]
    } else {
        Seq::empty()
    }) + (if input.is_abstract {
        seq![method_modifier_warning("abstract"@, input.name@, "lowered to a bare method signature (declaration only)"@)]
    } else {
        Seq::empty()
    }) + names.name.log@ + rust_visibility_from_ir_warnings(input.visibility) + flat(
        Seq::new(
            input.parameters@.len(),
            |i: int| rust_param_from_ir_warnings(input.parameters@[i], names.param_types@[i]),
        ),
    ) + match names.return_type {
        Some(t) => t.log@,
        None => Seq::empty(),
    }
}

/// Whether `r` is the Rust function an IR function converts to, given its names: a method on
/// `&self` unless static, its visibility, parameters and generic parameters converted, and no
/// qualifiers, ABI, attributes or comments.
pub open spec fn rust_fn_from_ir_is(r: RustFunction, input: LanguageFunction, names: RustFunctionNames) -> bool {
    &&& r.name == names.name.value
    &&& r.visibility == rust_visibility_from_ir(input.visibility)
    &&& r.self_kind == (if input.is_static {
        RustSelfKind::NoSelf
    } else {
        RustSelfKind::Ref
    })
    &&& r.parameters@.len() == input.parameters@.len()
    &&& forall|i: int| 0 <= i < r.parameters@.len() ==> {
        &&& (#[trigger] r.parameters@[i]).name == input.parameters@[i].name
        &&& r.parameters@[i].param_type == names.param_types@[i].value
        &&& r.parameters@[i].attributes@.len() == 0
    }
    &&& r.generic_args@.len() == input.generic_args@.len()
    &&& forall|i: int| 0 <= i < r.generic_args@.len() ==> {
        &&& (#[trigger] r.generic_args@[i]).name == input.generic_args@[i].name
        &&& r.generic_args@[i].is_lifetime == (input.generic_args@[i].keyword@ == "lifetime"@)
        &&& (r.generic_args@[i].const_type is Some <==> has_prefix(input.generic_args@[i].keyword@, "const "@))
        &&& (r.generic_args@[i].const_type matches Some(t) ==> t@ == input.generic_args@[i].keyword@.skip(
            "const "@.len() as int,
        ))
        &&& r.generic_args@[i].bounds == input.generic_args@[i].where_clause
        &&& r.generic_args@[i].default_value == input.generic_args@[i].default_value
    }
    &&& r.return_type == (match names.return_type {
        Some(t) => Some(t.value),
        None => None,
    })
    &&& !r.is_unsafe && !r.is_async && !r.is_const
    &&& r.abi is None
    &&& r.body == input.body
    &&& r.attributes@.len() == 0 && r.comments@.len() == 0 && r.return_attributes@.len() == 0
    &&& r.docs == input.docs
}

/// The warning for an inheritance modifier of the method `name`.
fn method_warning(what: &str, name: &str, resolution: &str) -> (w: crate::conversion::ConversionWarning)
    ensures
        w@ == method_modifier_warning(what@, name@, resolution@),
{
    let mut pre = String::new();
    push_str(&mut pre, what);
    push_str(&mut pre, " method `");
    feature_warning(pre.as_str(), name, "`", resolution)
}

impl RustFunction {
    /// Converts an IR function to Rust, given its Rust name and types as the conversion's
    /// configuration resolved them.
    pub fn from_ir(input: LanguageFunction, names: RustFunctionNames) -> (r: ConversionResult<RustFunction>)
        requires
            rust_fn_names_fit(input, names),
        ensures
            rust_fn_from_ir_is(r.value, input, names),
            r.log@ == rust_fn_from_ir_warnings(input, names),
    {
        let ghost inp = input;
        let ghost nm = names;
        let mut log = ConversionLog::new();
        if input.is_virtual {
            log.add_warning(method_warning("virtual", input.name.as_str(), "Rust has no virtual methods; lowered to an inherent method"));
        }
        if input.is_override {
            log.add_warning(method_warning("override", input.name.as_str(), "Rust has no method overriding; the modifier was dropped"));
        }
        if input.is_final {
            log.add_warning(method_warning("final", input.name.as_str(), "Rust methods are not overridable; `final` was dropped"));
        }
        if input.is_abstract {
            log.add_warning(method_warning("abstract", input.name.as_str(), "lowered to a bare method signature (declaration only)"));
        }
        let RustFunctionNames { name, param_types, return_type } = names;
        log.add_warnings(name.log.warnings);
        let LanguageFunction {
            name: _,
            visibility,
            parameters,
            generic_args,
            return_type: _,
            is_static,
            is_abstract: _,
            is_virtual: _,
            is_override: _,
            is_final: _,
            body,
            docs,
            annotations: _,
            raw_attributes: _,
        } = input;
        let visibility = RustVisibility::from_ir(visibility, None);
        log.add_warnings(visibility.log.warnings);
        let ghost head = log@;
        let ghost ps = parameters@;
        let ghost ts = param_types@;
        let ghost pparts = Seq::new(ps.len(), |i: int| rust_param_from_ir_warnings(ps[i], ts[i]));
        let mut prest = parameters;
        let mut trest = param_types;
        let mut out_params: Vec<RustParameter> = Vec::new();
        while prest.len() > 0
            invariant
                ps.len() == ts.len(),
                out_params@.len() + prest@.len() == ps.len(),
                prest@ == ps.skip(out_params@.len() as int),
                trest@ == ts.skip(out_params@.len() as int),
                pparts == Seq::new(ps.len(), |i: int| rust_param_from_ir_warnings(ps[i], ts[i])),
                forall|i: int| 0 <= i < out_params@.len() ==> {
                    &&& (#[trigger] out_params@[i]).name == ps[i].name
                    &&& out_params@[i].param_type == ts[i].value
                    &&& out_params@[i].attributes@.len() == 0
                },
                log@ == head + flat(pparts.take(out_params@.len() as int)),
            decreases prest@.len(),
        {
            let p = prest.remove(0);
            let t = trest.remove(0);
            proof {
                lemma_flat_step(pparts, out_params@.len() as int);
            }
            let c = RustParameter::from_ir(p, t);
            log.add_warnings(c.log.warnings);
            out_params.push(c.value);
            assert(prest@ =~= ps.skip(out_params@.len() as int));
            assert(trest@ =~= ts.skip(out_params@.len() as int));
        }
        proof {
            lemma_flat_all(pparts);
        }
        let ghost gs = generic_args@;
        let mut grest = generic_args;
        let mut out_generics: Vec<RustGenericArgument> = Vec::new();
        while grest.len() > 0
            invariant
                out_generics@.len() + grest@.len() == gs.len(),
                grest@ == gs.skip(out_generics@.len() as int),
                forall|i: int| 0 <= i < out_generics@.len() ==> {
                    &&& (#[trigger] out_generics@[i]).name == gs[i].name
                    &&& out_generics@[i].is_lifetime == (gs[i].keyword@ == "lifetime"@)
                    &&& (out_generics@[i].const_type is Some <==> has_prefix(gs[i].keyword@, "const "@))
                    &&& (out_generics@[i].const_type matches Some(t) ==> t@ == gs[i].keyword@.skip("const "@.len() as int))
                    &&& out_generics@[i].bounds == gs[i].where_clause
                    &&& out_generics@[i].default_value == gs[i].default_value
                },
            decreases grest@.len(),
        {
            let g = grest.remove(0);
            out_generics.push(RustGenericArgument::from_ir(g, None).value);
            assert(grest@ =~= gs.skip(out_generics@.len() as int));
        }
        let return_type = match return_type {
            Some(t) => {
                log.add_warnings(t.log.warnings);
                Some(t.value)
            },
            None => None,
        };
        assert(log@ =~= rust_fn_from_ir_warnings(inp, nm));
        let self_kind = if is_static {
            RustSelfKind::NoSelf
        } else {
            RustSelfKind::Ref
        };
        ConversionResult::with_log(
            RustFunction {
                name: name.value,
                visibility: visibility.value,
                self_kind,
                parameters: out_params,
                generic_args: out_generics,
                return_type,
                is_unsafe: false,
                is_async: false,
                is_const: false,
                abi: None,
                body,
                attributes: Vec::new(),
                docs,
                comments: Vec::new(),
                return_attributes: Vec::new(),
            },
            log,
        )
    }
}

} // verus!
