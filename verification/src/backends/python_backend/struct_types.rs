use vstd::prelude::*;

use crate::conversion::ConversionConfig;

use crate::ir::{docs_of_docstring, docs_to_docstring, docstring_of_docs, docstring_to_docs};
use crate::conversion::{flat, lemma_flat_all, lemma_flat_step, ConversionLog, ConversionResult, WarningText};
use crate::ir::{LanguageField, LanguageStruct, LanguageStructKind, Visibility};

verus! {

/// A field of a ctypes `Structure`: a name paired with a free-form ctype string.
///
/// The ctype is intentionally a raw string (e.g. `ctypes.c_int32`) — Python's
/// ctypes vocabulary is open-ended and the backend renders form, not semantics.
#[derive(Debug, Clone, PartialEq)]
pub struct PythonStructField {
    /// The name of the field.
    pub name: String,
    /// The ctype expression, rendered verbatim (e.g. `ctypes.c_int32`).
    pub ctype: String,
}

/// Represents a ctypes structure: `class Name(ctypes.Structure):` with a
/// `_fields_` class attribute.
#[derive(Debug, Clone, PartialEq)]
pub struct PythonStruct {
    /// The name of the structure.
    pub name: String,
    /// The fields, rendered into the `_fields_` list as `("name", ctype)` tuples.
    pub fields: Vec<PythonStructField>,
    /// Optional docstring, rendered as the first triple-quoted body line.
    pub docstring: Option<String>,
}

/// Render options for Python ctypes structures.
#[derive(Debug, Clone, Copy)]
pub struct PythonStructRenderOptions {
    /// Whether to render the docstring.
    pub render_docstring: bool,
}

impl PythonStructRenderOptions {
    /// The given options, or the defaults (docstring rendered).
    pub open spec fn or_default(o: Option<&Self>) -> Self {
        match o {
            Some(o) => *o,
            None => PythonStructRenderOptions { render_docstring: true },
        }
    }
}

impl Default for PythonStructRenderOptions {
    fn default() -> (r: Self)
        ensures
            r.render_docstring,
    {
        PythonStructRenderOptions { render_docstring: true }
    }
}


/// Whether `r` is the IR of the ctypes structure `s`: a public struct with the same name, its
/// fields as public instance fields typed by their ctypes type, and its docstring as docs.
pub open spec fn python_struct_ir_is(r: LanguageStruct, s: PythonStruct) -> bool {
    &&& r.visibility == Visibility::Public
    &&& r.struct_kind == LanguageStructKind::Struct
    &&& !r.is_abstract && !r.is_final
    &&& r.name == s.name
    &&& r.generic_args@.len() == 0 && r.bases@.len() == 0 && r.methods@.len() == 0
    &&& r.fields@.len() == s.fields@.len()
    &&& forall|i: int| 0 <= i < r.fields@.len() ==> {
        &&& (#[trigger] r.fields@[i]).name == s.fields@[i].name
        &&& r.fields@[i].field_type == s.fields@[i].ctype
        &&& r.fields@[i].visibility == Visibility::Public
        &&& !r.fields@[i].is_static && !r.fields@[i].is_const
        &&& r.fields@[i].docs is None
        &&& r.fields@[i].annotations@.len() == 0 && r.fields@[i].raw_attributes@.len() == 0
    }
    &&& docs_of_docstring(r.docs, s.docstring)
    &&& r.annotations@.len() == 0
    &&& r.raw_attributes@.len() == 0
}

impl PythonStruct {
    /// Converts the structure to the IR, without loss.
    fn convert(self) -> (r: ConversionResult<LanguageStruct>)
        ensures
            python_struct_ir_is(r.value, self),
            r.log@ == Seq::<WarningText>::empty(),
    {
        let PythonStruct { name, fields, docstring } = self;
        let ghost fs = fields@;
        let mut rest = fields;
        let mut out: Vec<LanguageField> = Vec::new();
        while rest.len() > 0
            invariant
                out@.len() + rest@.len() == fs.len(),
                rest@ == fs.skip(out@.len() as int),
                forall|i: int| 0 <= i < out@.len() ==> {
                    &&& (#[trigger] out@[i]).name == fs[i].name
                    &&& out@[i].field_type == fs[i].ctype
                    &&& out@[i].visibility == Visibility::Public
                    &&& !out@[i].is_static && !out@[i].is_const
                    &&& out@[i].docs is None
                    &&& out@[i].annotations@.len() == 0 && out@[i].raw_attributes@.len() == 0
                },
            decreases rest@.len(),
        {
            let f = rest.remove(0);
            out.push(LanguageField {
                name: f.name,
                field_type: f.ctype,
                visibility: Visibility::Public,
                is_static: false,
                is_const: false,
                docs: None,
                annotations: Vec::new(),
                raw_attributes: Vec::new(),
            });
            assert(rest@ =~= fs.skip(out@.len() as int));
        }
        ConversionResult::new(LanguageStruct {
            visibility: Visibility::Public,
            struct_kind: LanguageStructKind::Struct,
            is_abstract: false,
            is_final: false,
            name,
            generic_args: Vec::new(),
            bases: Vec::new(),
            fields: out,
            methods: Vec::new(),
            docs: docstring_to_docs(docstring),
            annotations: Vec::new(),
            raw_attributes: Vec::new(),
        })
    }

    /// Converts the structure to the IR, without loss.
    pub fn to_ir(self, options: Option<&PythonStructConversionOptions>) -> (r: ConversionResult<LanguageStruct>)
        ensures
            python_struct_ir_is(r.value, self),
            r.log@ == Seq::<WarningText>::empty(),
    {
        self.convert()
    }
}


/// Conversion options for Python structs: the conversion's configuration.
#[derive(Clone)]
pub struct PythonStructConversionOptions {
    /// The conversion configuration (the user's hooks).
    pub config: ConversionConfig,
}

impl Default for PythonStructConversionOptions {
    fn default() -> (r: Self)
        ensures
            r.config.hooks is None,
    {
        PythonStructConversionOptions { config: ConversionConfig::default() }
    }
}

impl PythonStructConversionOptions {
    /// Whether options are given and carry hooks.
    pub open spec fn hooked(o: Option<&Self>) -> bool {
        o matches Some(x) && x.config.hooks is Some
    }
}

/// What the configuration of a conversion made of an IR struct's names: the structure's
/// Python name and each field's.
pub struct PythonStructNames {
    pub name: ConversionResult<String>,
    pub fields: Vec<ConversionResult<String>>,
}

/// What converting an IR struct to a ctypes structure reports: what renaming the structure,
/// then each field, reports.
pub open spec fn python_struct_from_ir_warnings(input: LanguageStruct, names: PythonStructNames) -> Seq<WarningText> {
    names.name.log@ + flat(Seq::new(input.fields@.len(), |i: int| names.fields@[i].log@))
}

/// Whether `r` is the ctypes structure an IR struct converts to, given its names: each field
/// renamed with its type as the ctype, and the docs joined into the docstring.
pub open spec fn python_struct_from_ir_is(r: PythonStruct, input: LanguageStruct, names: PythonStructNames) -> bool {
    &&& r.name == names.name.value
    &&& r.fields@.len() == input.fields@.len()
    &&& forall|i: int| 0 <= i < r.fields@.len() ==> {
        &&& (#[trigger] r.fields@[i]).name == names.fields@[i].value
        &&& r.fields@[i].ctype == input.fields@[i].field_type
    }
    &&& (r.docstring is None <==> input.docs is None)
    &&& (r.docstring matches Some(d) ==> docstring_of_docs(input.docs) == Some(d@))
}

impl PythonStruct {
    /// Converts an IR struct to a ctypes structure, given its names as the conversion's
    /// configuration resolved them; the field types are kept as the ctypes.
    pub fn from_ir(input: LanguageStruct, names: PythonStructNames) -> (r: ConversionResult<PythonStruct>)
        requires
            names.fields@.len() == input.fields@.len(),
        ensures
            python_struct_from_ir_is(r.value, input, names),
            r.log@ == python_struct_from_ir_warnings(input, names),
    {
        let ghost inp = input;
        let ghost nm = names;
        let mut log = ConversionLog::new();
        let PythonStructNames { name, fields: field_names } = names;
        log.add_warnings(name.log.warnings);
        let ghost head = log@;
        let ghost fs = input.fields@;
        let ghost ns = field_names@;
        let ghost parts = Seq::new(fs.len(), |k: int| ns[k].log@);
        let LanguageStruct { fields, docs, .. } = input;
        let mut frest = fields;
        let mut nrest = field_names;
        let mut out: Vec<PythonStructField> = Vec::new();
        while frest.len() > 0
            invariant
                fs.len() == ns.len(),
                out@.len() + frest@.len() == fs.len(),
                frest@ == fs.skip(out@.len() as int),
                nrest@ == ns.skip(out@.len() as int),
                parts == Seq::new(fs.len(), |k: int| ns[k].log@),
                forall|k: int| 0 <= k < out@.len() ==> {
                    &&& (#[trigger] out@[k]).name == ns[k].value
                    &&& out@[k].ctype == fs[k].field_type
                },
                log@ == head + flat(parts.take(out@.len() as int)),
            decreases frest@.len(),
        {
            let f = frest.remove(0);
            let n = nrest.remove(0);
            proof {
                lemma_flat_step(parts, out@.len() as int);
            }
            log.add_warnings(n.log.warnings);
            out.push(PythonStructField { name: n.value, ctype: f.field_type });
            assert(frest@ =~= fs.skip(out@.len() as int));
            assert(nrest@ =~= ns.skip(out@.len() as int));
        }
        proof {
            lemma_flat_all(parts);
        }
        assert(log@ =~= python_struct_from_ir_warnings(inp, nm));
        ConversionResult::with_log(
            PythonStruct { name: name.value, fields: out, docstring: docs_to_docstring(docs) },
            log,
        )
    }
}

} // verus!
