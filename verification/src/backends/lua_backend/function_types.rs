use vstd::prelude::*;

use crate::conversion::ConversionConfig;

use crate::conversion::{ConversionLog, ConversionResult, ConversionWarning, WarningText};
use crate::ir::{docs_of_docstring, docstring_to_docs, LanguageFunction, LanguageFunctionParameter, Visibility};
use crate::text::{join, push_joined, texts};

verus! {

/// Represents a Lua function.
///
/// Lua functions are wholly untyped: parameters carry only names, and there is
/// no return-type or visibility surface. The model holds exactly what Lua
/// expresses and nothing more.
///
/// # Body-slot contract
///
/// Lua has no declaration-only function form — a function always closes with
/// `end`. The uniform `body: Option<Vec<String>>` seam therefore maps as:
/// `None` => an empty function body (`function name(...)` immediately followed
/// by `end`); `Some(lines)` => each line emitted verbatim one indent deeper
/// between the signature and `end`. The consumer owns the line content.
#[derive(Debug, Clone, PartialEq)]
pub struct LuaFunction {
    /// The name of the function (e.g. `greet` or `M.greet`).
    pub name: String,
    /// The parameter names; Lua parameters are untyped.
    pub parameters: Vec<String>,
    /// Optional doc comment, rendered as `-- ...` lines above the function.
    pub doc: Option<String>,
    /// The function body, one entry per line; `None` renders an empty body.
    pub body: Option<Vec<String>>,
}

/// Render options for Lua functions.
#[derive(Debug, Clone, Copy)]
pub struct LuaFunctionRenderOptions {
    /// Whether to render the doc comment.
    pub render_doc: bool,
}

impl LuaFunctionRenderOptions {
    /// The given options, or the defaults (doc rendered).
    pub open spec fn or_default(o: Option<&Self>) -> Self {
        match o {
            Some(o) => *o,
            None => LuaFunctionRenderOptions { render_doc: true },
        }
    }
}

impl Default for LuaFunctionRenderOptions {
    fn default() -> (r: Self)
        ensures
            r.render_doc,
    {
        LuaFunctionRenderOptions { render_doc: true }
    }
}


/// Whether `r` is the IR of the Lua function `f`: a public static function with the same name
/// and body, its parameters as untyped parameters, and its description as docs.
pub open spec fn lua_fn_ir_is(r: LanguageFunction, f: LuaFunction) -> bool {
    &&& r.name == f.name
    &&& r.visibility == Visibility::Public
    &&& r.parameters@.len() == f.parameters@.len()
    &&& forall|i: int| 0 <= i < r.parameters@.len() ==> {
        &&& (#[trigger] r.parameters@[i]).name == f.parameters@[i]
        &&& r.parameters@[i].param_type@ == Seq::<char>::empty()
        &&& r.parameters@[i].default_value is None
    }
    &&& r.generic_args@.len() == 0
    &&& r.return_type is None
    &&& r.is_static
    &&& !r.is_abstract && !r.is_virtual && !r.is_override && !r.is_final
    &&& r.body == f.body
    &&& docs_of_docstring(r.docs, f.doc)
    &&& r.annotations@.len() == 0
    &&& r.raw_attributes@.len() == 0
}

/// What converting an IR function to Lua loses: its generic parameters and its return type.
pub open spec fn lua_fn_from_ir_warnings(f: LanguageFunction) -> Seq<WarningText> {
    (if f.generic_args@.len() > 0 {
        seq![WarningText::Other("Lua has no generics; dropping generic arguments"@)]
    } else {
        Seq::empty()
    }) + (if f.return_type is Some {
        seq![WarningText::Other("Lua functions are untyped; dropping return type"@)]
    } else {
        Seq::empty()
    })
}

impl LuaFunction {
    /// Converts the function to the IR, without loss.
    fn convert(self) -> (r: ConversionResult<LanguageFunction>)
        ensures
            lua_fn_ir_is(r.value, self),
            r.log@ == Seq::<WarningText>::empty(),
    {
        let LuaFunction { name, parameters, doc, body } = self;
        let ghost ps = parameters@;
        let mut rest = parameters;
        let mut out: Vec<LanguageFunctionParameter> = Vec::new();
        while rest.len() > 0
            invariant
                out@.len() + rest@.len() == ps.len(),
                rest@ == ps.skip(out@.len() as int),
                forall|i: int| 0 <= i < out@.len() ==> {
                    &&& (#[trigger] out@[i]).name == ps[i]
                    &&& out@[i].param_type@ == Seq::<char>::empty()
                    &&& out@[i].default_value is None
                },
            decreases rest@.len(),
        {
            let p = rest.remove(0);
            out.push(LanguageFunctionParameter { name: p, param_type: String::new(), default_value: None });
            assert(rest@ =~= ps.skip(out@.len() as int));
        }
        ConversionResult::new(LanguageFunction {
            name,
            visibility: Visibility::Public,
            parameters: out,
            generic_args: Vec::new(),
            return_type: None,
            is_static: true,
            is_abstract: false,
            is_virtual: false,
            is_override: false,
            is_final: false,
            body,
            docs: docstring_to_docs(doc),
            annotations: Vec::new(),
            raw_attributes: Vec::new(),
        })
    }

    /// Converts an IR function to Lua: the parameter names, the docs joined into one text, and
    /// the body. Generic parameters and the return type are dropped, and reported.
    pub fn from_ir(input: LanguageFunction) -> (r: ConversionResult<Self>)
        ensures
            r.value.name == input.name,
            r.value.parameters@.len() == input.parameters@.len(),
            forall|i: int| 0 <= i < r.value.parameters@.len() ==> #[trigger] r.value.parameters@[i] == input.parameters@[i].name,
            match input.docs {
                Some(d) => r.value.doc matches Some(t) && t@ == join(texts(d@), "\n"@),
                None => r.value.doc is None,
            },
            r.value.body == input.body,
            r.log@ == lua_fn_from_ir_warnings(input),
    {
        let ghost f = input;
        let mut log = ConversionLog::new();
        if input.generic_args.len() > 0 {
            log.add_warning(ConversionWarning::Other("Lua has no generics; dropping generic arguments".to_owned()));
        }
        if input.return_type.is_some() {
            log.add_warning(ConversionWarning::Other("Lua functions are untyped; dropping return type".to_owned()));
        }
        assert(log@ =~= lua_fn_from_ir_warnings(f));
        let LanguageFunction { name, parameters, docs, body, .. } = input;
        let ghost ps = parameters@;
        let mut rest = parameters;
        let mut names: Vec<String> = Vec::new();
        while rest.len() > 0
            invariant
                names@.len() + rest@.len() == ps.len(),
                rest@ == ps.skip(names@.len() as int),
                forall|i: int| 0 <= i < names@.len() ==> #[trigger] names@[i] == ps[i].name,
            decreases rest@.len(),
        {
            let p = rest.remove(0);
            names.push(p.name);
            assert(rest@ =~= ps.skip(names@.len() as int));
        }
        let doc = match docs {
            Some(d) => {
                let mut t = String::new();
                push_joined(&mut t, &d, "\n");
                Some(t)
            },
            None => None,
        };
        ConversionResult::with_log(LuaFunction { name, parameters: names, doc, body }, log)
    }

    /// Converts the function to the IR, without loss.
    pub fn to_ir(self, options: Option<&LuaFunctionConversionOptions>) -> (r: ConversionResult<LanguageFunction>)
        ensures
            lua_fn_ir_is(r.value, self),
            r.log@ == Seq::<WarningText>::empty(),
    {
        self.convert()
    }
}


/// Conversion options for Lua functions: the conversion's configuration.
#[derive(Clone)]
pub struct LuaFunctionConversionOptions {
    /// The conversion configuration (the user's hooks).
    pub config: ConversionConfig,
}

impl Default for LuaFunctionConversionOptions {
    fn default() -> (r: Self)
        ensures
            r.config.hooks is None,
    {
        LuaFunctionConversionOptions { config: ConversionConfig::default() }
    }
}

impl LuaFunctionConversionOptions {
    /// Whether options are given and carry hooks.
    pub open spec fn hooked(o: Option<&Self>) -> bool {
        o matches Some(x) && x.config.hooks is Some
    }
}

} // verus!
