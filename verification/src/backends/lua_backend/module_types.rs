use vstd::prelude::*;

use super::function_types::{lua_fn_from_ir_warnings, lua_fn_ir_is};
use super::LuaFunction;
use crate::conversion::{
    dropped_feature, dropped_feature_warning, flat, lemma_flat_all, lemma_flat_step, opt_seq, ConversionConfig, ConversionLog,
    ConversionResult, WarningText,
};
use crate::ir::{docs_of_docstring, docs_to_docstring, docstring_of_docs, docstring_to_docs, LanguageConstant, LanguageFunction, LanguageNamespace, Visibility};

verus! {

/// A Lua module table field assignment (`name = value`).
///
/// Lua field values are free-form, so both the name and the assigned value are
/// modelled as raw strings. The name may be qualified (e.g. `M.version`).
#[derive(Debug, Clone, PartialEq)]
pub struct LuaField {
    /// The field name (e.g. `version` or `M.version`).
    pub name: String,
    /// The assigned value, rendered verbatim (e.g. `"1.0"`, `42`, `{}`).
    pub value: String,
}

/// Represents a Lua module table (`local M = {}` ... `return M`).
///
/// A module holds free functions and field assignments, then returns the table.
/// This is the conventional Lua module shape; it carries no types or visibility.
#[derive(Debug, Clone, PartialEq)]
pub struct LuaModule {
    /// The local table variable name (conventionally `M`).
    pub table_name: String,
    /// Field assignments held by the module table.
    pub fields: Vec<LuaField>,
    /// Functions held by the module table.
    pub functions: Vec<LuaFunction>,
    /// Optional module doc comment, rendered as `-- ...` lines at the top.
    pub doc: Option<String>,
}

/// Render options for Lua modules.
#[derive(Debug, Clone, Copy)]
pub struct LuaModuleRenderOptions {
    /// Whether to render doc comments.
    pub render_doc: bool,
}

impl LuaModuleRenderOptions {
    /// The given options, or the defaults (docs rendered).
    pub open spec fn or_default(o: Option<&Self>) -> Self {
        match o {
            Some(o) => *o,
            None => LuaModuleRenderOptions { render_doc: true },
        }
    }
}

impl Default for LuaModuleRenderOptions {
    fn default() -> (r: Self)
        ensures
            r.render_doc,
    {
        LuaModuleRenderOptions { render_doc: true }
    }
}

/// Whether `r` is the IR of the Lua module `m`, given the IR names of its fields: a public
/// namespace named after the table, each field as an untyped public constant under its IR
/// name (no constants at all when there are no fields), each function converted, the doc as
/// docs, and nothing else.
pub open spec fn lua_module_ir_is(r: LanguageNamespace, m: LuaModule, constant_names: Seq<String>) -> bool {
    &&& r.name == m.table_name
    &&& r.visibility == Visibility::Public
    &&& r.defines is None
    &&& (r.constants is None <==> m.fields@.len() == 0)
    &&& (r.constants matches Some(cs) ==> {
        &&& cs@.len() == m.fields@.len()
        &&& forall|i: int| 0 <= i < cs@.len() ==> {
            &&& (#[trigger] cs@[i]).name == constant_names[i]
            &&& cs@[i].visibility == Visibility::Public
            &&& cs@[i].data_type@ == Seq::<char>::empty()
            &&& cs@[i].value == m.fields@[i].value
            &&& cs@[i].docs is None
        }
    })
    &&& r.enums is None && r.structs is None && r.namespaces is None
    &&& (r.functions matches Some(fs) && fs@.len() == m.functions@.len() && forall|i: int|
        0 <= i < fs@.len() ==> lua_fn_ir_is(#[trigger] fs@[i], m.functions@[i]))
    &&& docs_of_docstring(r.docs, m.doc)
    &&& r.raw_attributes@.len() == 0
}

impl LuaModule {
    /// Converts the module to the IR, without loss, given the IR name of each field as the
    /// conversion's configuration renamed it.
    pub fn to_ir(self, options: Option<&LuaModuleConversionOptions>, constant_names: Vec<String>) -> (r: ConversionResult<
        LanguageNamespace,
    >)
        requires
            constant_names@.len() == self.fields@.len(),
        ensures
            lua_module_ir_is(r.value, self, constant_names@),
            r.log@ == Seq::<WarningText>::empty(),
    {
        let ghost m = self;
        let LuaModule { table_name, fields, functions, doc } = self;
        let ghost fs = fields@;
        let ghost ns = constant_names@;
        let no_fields = fields.len() == 0;
        let mut frest = fields;
        let mut nrest = constant_names;
        let mut constants: Vec<LanguageConstant> = Vec::new();
        while frest.len() > 0
            invariant
                fs.len() == ns.len(),
                constants@.len() + frest@.len() == fs.len(),
                frest@ == fs.skip(constants@.len() as int),
                nrest@ == ns.skip(constants@.len() as int),
                forall|i: int| 0 <= i < constants@.len() ==> {
                    &&& (#[trigger] constants@[i]).name == ns[i]
                    &&& constants@[i].visibility == Visibility::Public
                    &&& constants@[i].data_type@ == Seq::<char>::empty()
                    &&& constants@[i].value == fs[i].value
                    &&& constants@[i].docs is None
                },
            decreases frest@.len(),
        {
            let f = frest.remove(0);
            let n = nrest.remove(0);
            constants.push(LanguageConstant {
                name: n,
                visibility: Visibility::Public,
                data_type: String::new(),
                value: f.value,
                docs: None,
            });
            assert(frest@ =~= fs.skip(constants@.len() as int));
            assert(nrest@ =~= ns.skip(constants@.len() as int));
        }
        let ghost gs = functions@;
        let mut grest = functions;
        let mut out: Vec<LanguageFunction> = Vec::new();
        while grest.len() > 0
            invariant
                out@.len() + grest@.len() == gs.len(),
                grest@ == gs.skip(out@.len() as int),
                forall|i: int| 0 <= i < out@.len() ==> lua_fn_ir_is(#[trigger] out@[i], gs[i]),
            decreases grest@.len(),
        {
            let g = grest.remove(0);
            out.push(g.to_ir(None).value);
            assert(grest@ =~= gs.skip(out@.len() as int));
        }
        ConversionResult::new(LanguageNamespace {
            name: table_name,
            visibility: Visibility::Public,
            defines: None,
            constants: if no_fields {
                None
            } else {
                Some(constants)
            },
            enums: None,
            structs: None,
            functions: Some(out),
            namespaces: None,
            docs: docstring_to_docs(doc),
            raw_attributes: Vec::new(),
        })
    }
}

/// Conversion options for Lua modules: the conversion's configuration.
#[derive(Clone)]
pub struct LuaModuleConversionOptions {
    /// The conversion configuration.
    pub config: ConversionConfig,
}

impl Default for LuaModuleConversionOptions {
    fn default() -> (r: Self)
        ensures
            r.config.hooks is None,
    {
        LuaModuleConversionOptions { config: ConversionConfig::default() }
    }
}

/// The warning for a kind of member that a Lua module drops, when the list holds any.
pub open spec fn lua_dropped_members(count: nat, what: Seq<char>, name: Seq<char>) -> Seq<WarningText> {
    if count > 0 {
        seq![dropped_feature(what, name, "Lua"@)]
    } else {
        Seq::empty()
    }
}

/// What converting an IR namespace to a Lua module loses: what renaming the table reports,
/// what each function loses, then its enums, structs, defines and nested namespaces, which a
/// Lua module has no place for.
pub open spec fn lua_module_from_ir_warnings(input: LanguageNamespace, table_name: ConversionResult<String>) -> Seq<WarningText> {
    let fs = opt_seq(input.functions);
    table_name.log@ + flat(Seq::new(fs.len(), |i: int| lua_fn_from_ir_warnings(fs[i])))
        + lua_dropped_members(opt_seq(input.enums).len(), "nested enums"@, input.name@) + lua_dropped_members(
        opt_seq(input.structs).len(),
        "nested structs"@,
        input.name@,
    ) + lua_dropped_members(opt_seq(input.defines).len(), "defines"@, input.name@) + lua_dropped_members(
        opt_seq(input.namespaces).len(),
        "nested namespaces"@,
        input.name@,
    )
}

/// Whether `r` is the Lua module an IR namespace converts to, given its table name: each
/// constant as a field with its name and value, each function converted (its parameter names,
/// docs and body), and the docs joined into the doc.
pub open spec fn lua_module_from_ir_is(r: LuaModule, input: LanguageNamespace, table_name: ConversionResult<String>) -> bool {
    let cs = opt_seq(input.constants);
    let fs = opt_seq(input.functions);
    &&& r.table_name == table_name.value
    &&& r.fields@.len() == cs.len()
    &&& forall|i: int| 0 <= i < cs.len() ==> (#[trigger] r.fields@[i]).name == cs[i].name && r.fields@[i].value == cs[i].value
    &&& r.functions@.len() == fs.len()
    &&& forall|i: int| 0 <= i < fs.len() ==> {
        &&& (#[trigger] r.functions@[i]).name == fs[i].name
        &&& r.functions@[i].parameters@.len() == fs[i].parameters@.len()
        &&& forall|j: int|
            0 <= j < fs[i].parameters@.len() ==> #[trigger] r.functions@[i].parameters@[j] == fs[i].parameters@[j].name
        &&& (r.functions@[i].doc is None <==> fs[i].docs is None)
        &&& (r.functions@[i].doc matches Some(t) ==> docstring_of_docs(fs[i].docs) == Some(t@))
        &&& r.functions@[i].body == fs[i].body
    }
    &&& (r.doc is None <==> input.docs is None)
    &&& (r.doc matches Some(d) ==> docstring_of_docs(input.docs) == Some(d@))
}

/// The number of items in an optional list.
fn opt_len<T>(items: &Option<Vec<T>>) -> (r: usize)
    ensures
        r == opt_seq(*items).len(),
{
    match items {
        Some(v) => v.len(),
        None => 0,
    }
}

impl LuaModule {
    /// Converts an IR namespace to a Lua module, given its table name as the conversion's
    /// configuration renamed it. Constants become fields; enums, structs, defines and nested
    /// namespaces are dropped, and reported.
    pub fn from_ir(input: LanguageNamespace, table_name: ConversionResult<String>) -> (r: ConversionResult<LuaModule>)
        ensures
            lua_module_from_ir_is(r.value, input, table_name),
            r.log@ == lua_module_from_ir_warnings(input, table_name),
    {
        let ghost inp = input;
        let ghost tn = table_name;
        let mut log = ConversionLog::new();
        log.add_warnings(table_name.log.warnings);
        let ghost head = log@;
        let n_enums = opt_len(&input.enums);
        let n_structs = opt_len(&input.structs);
        let n_defines = opt_len(&input.defines);
        let n_namespaces = opt_len(&input.namespaces);
        let LanguageNamespace { name, constants, functions, docs, .. } = input;

        let ghost cs = opt_seq(constants);
        let mut fields: Vec<LuaField> = Vec::new();
        match constants {
            Some(v) => {
                let mut rest = v;
                while rest.len() > 0
                    invariant
                        fields@.len() + rest@.len() == cs.len(),
                        rest@ == cs.skip(fields@.len() as int),
                        forall|k: int| 0 <= k < fields@.len() ==> (#[trigger] fields@[k]).name == cs[k].name
                            && fields@[k].value == cs[k].value,
                    decreases rest@.len(),
                {
                    let c = rest.remove(0);
                    fields.push(LuaField { name: c.name, value: c.value });
                    assert(rest@ =~= cs.skip(fields@.len() as int));
                }
            },
            None => {},
        }

        let ghost fs = opt_seq(functions);
        let ghost parts = Seq::new(fs.len(), |k: int| lua_fn_from_ir_warnings(fs[k]));
        let mut out: Vec<LuaFunction> = Vec::new();
        match functions {
            Some(v) => {
                let mut rest = v;
                while rest.len() > 0
                    invariant
                        out@.len() + rest@.len() == fs.len(),
                        rest@ == fs.skip(out@.len() as int),
                        parts == Seq::new(fs.len(), |k: int| lua_fn_from_ir_warnings(fs[k])),
                        forall|k: int| 0 <= k < out@.len() ==> {
                            &&& (#[trigger] out@[k]).name == fs[k].name
                            &&& out@[k].parameters@.len() == fs[k].parameters@.len()
                            &&& forall|j: int|
                                0 <= j < fs[k].parameters@.len() ==> #[trigger] out@[k].parameters@[j]
                                    == fs[k].parameters@[j].name
                            &&& (out@[k].doc is None <==> fs[k].docs is None)
                            &&& (out@[k].doc matches Some(t) ==> docstring_of_docs(fs[k].docs) == Some(t@))
                            &&& out@[k].body == fs[k].body
                        },
                        log@ == head + flat(parts.take(out@.len() as int)),
                    decreases rest@.len(),
                {
                    let f = rest.remove(0);
                    proof {
                        lemma_flat_step(parts, out@.len() as int);
                    }
                    let c = LuaFunction::from_ir(f);
                    log.add_warnings(c.log.warnings);
                    out.push(c.value);
                    assert(rest@ =~= fs.skip(out@.len() as int));
                }
            },
            None => {},
        }
        proof {
            lemma_flat_all(parts);
        }
        if n_enums > 0 {
            log.add_warning(dropped_feature_warning("nested enums", name.as_str(), "Lua"));
        }
        if n_structs > 0 {
            log.add_warning(dropped_feature_warning("nested structs", name.as_str(), "Lua"));
        }
        if n_defines > 0 {
            log.add_warning(dropped_feature_warning("defines", name.as_str(), "Lua"));
        }
        if n_namespaces > 0 {
            log.add_warning(dropped_feature_warning("nested namespaces", name.as_str(), "Lua"));
        }
        assert(log@ =~= lua_module_from_ir_warnings(inp, tn));
        ConversionResult::with_log(
            LuaModule { table_name: table_name.value, fields, functions: out, doc: docs_to_docstring(docs) },
            log,
        )
    }
}

} // verus!
