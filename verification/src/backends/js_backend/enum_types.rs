use vstd::prelude::*;

use crate::conversion::ConversionConfig;

use crate::conversion::{
    dropped_annotations, dropped_annotations_warning, flat, lemma_flat_all, lemma_flat_step, ConversionLog, ConversionResult,
    WarningText,
};
use crate::text::{decimal, push_u128};
use crate::ir::{docs_of_docstring, docs_to_docstring, docstring_of_docs, docstring_to_docs, EnumVariant, EnumVariantValue, LanguageEnum, Visibility};

verus! {

/// A member of a TypeScript const-object enum (`Name: <value>`).
///
/// Values are free-form literals rendered verbatim (e.g. `0`, `1 << 2`).
#[derive(Debug, Clone, PartialEq)]
pub struct JsEnumMember {
    /// The name of the member.
    pub name: String,
    /// The value, rendered verbatim.
    pub value: String,
}

/// Represents a TypeScript "const object" enum — the runtime-free enum idiom:
///
/// ```ts
/// export const Name = Object.freeze({
///     A: 0,
/// } as const);
/// export type Name = typeof Name[keyof typeof Name];
/// ```
///
/// This avoids the runtime cost of a native `enum` while keeping a usable type.
#[derive(Debug, Clone, PartialEq)]
pub struct JsEnum {
    /// The name of the enum.
    pub name: String,
    /// The members of the enum.
    pub members: Vec<JsEnumMember>,
    /// Optional free-form JSDoc description text (e.g. `Enum LogLevel`).
    pub doc: Option<String>,
    /// `true` to prefix the `const` and companion `type` with `export`.
    pub export: bool,
}

/// Render options for JavaScript enums.
#[derive(Debug, Clone, Copy)]
pub struct JsEnumRenderOptions {
    /// Whether to render the `/** ... */` JSDoc line from `doc`.
    pub render_jsdoc: bool,
}

impl JsEnumRenderOptions {
    /// The given options, or the defaults (JSDoc rendered).
    pub open spec fn or_default(o: Option<&Self>) -> Self {
        match o {
            Some(o) => *o,
            None => JsEnumRenderOptions { render_jsdoc: true },
        }
    }
}

impl Default for JsEnumRenderOptions {
    fn default() -> (r: Self)
        ensures
            r.render_jsdoc,
    {
        JsEnumRenderOptions { render_jsdoc: true }
    }
}


/// Whether `r` is the IR of the enum `e`: a public enum with the same name, each member a
/// variant with its value, and its description as docs.
pub open spec fn js_enum_ir_is(r: LanguageEnum, e: JsEnum) -> bool {
    &&& r.name == e.name
    &&& r.visibility == Visibility::Public
    &&& r.variants@.len() == e.members@.len()
    &&& forall|i: int| 0 <= i < r.variants@.len() ==> {
        &&& (#[trigger] r.variants@[i]).name == e.members@[i].name
        &&& r.variants@[i].value matches EnumVariantValue::Value(v) && v == e.members@[i].value
        &&& r.variants@[i].docs is None
        &&& r.variants@[i].raw_attributes@.len() == 0
    }
    &&& r.underlying_type is None
    &&& docs_of_docstring(r.docs, e.doc)
    &&& r.annotations@.len() == 0
    &&& r.raw_attributes@.len() == 0
}

impl JsEnum {
    /// Converts the enum to the IR, without loss.
    fn convert(self) -> (r: ConversionResult<LanguageEnum>)
        ensures
            js_enum_ir_is(r.value, self),
            r.log@ == Seq::<WarningText>::empty(),
    {
        let JsEnum { name, members, doc, export: _ } = self;
        let ghost ms = members@;
        let mut rest = members;
        let mut out: Vec<EnumVariant> = Vec::new();
        while rest.len() > 0
            invariant
                out@.len() + rest@.len() == ms.len(),
                rest@ == ms.skip(out@.len() as int),
                forall|i: int| 0 <= i < out@.len() ==> {
                    &&& (#[trigger] out@[i]).name == ms[i].name
                    &&& out@[i].value matches EnumVariantValue::Value(v) && v == ms[i].value
                    &&& out@[i].docs is None
                    &&& out@[i].raw_attributes@.len() == 0
                },
            decreases rest@.len(),
        {
            let m = rest.remove(0);
            out.push(EnumVariant {
                name: m.name,
                value: EnumVariantValue::Value(m.value),
                docs: None,
                raw_attributes: Vec::new(),
            });
            assert(rest@ =~= ms.skip(out@.len() as int));
        }
        ConversionResult::new(LanguageEnum {
            name,
            visibility: Visibility::Public,
            variants: out,
            underlying_type: None,
            docs: docstring_to_docs(doc),
            annotations: Vec::new(),
            raw_attributes: Vec::new(),
        })
    }

    /// Converts the enum to the IR, without loss.
    /// The user's hook, if the options carry one, is applied to the result.
    pub fn to_ir(self, options: Option<&JsEnumConversionOptions>) -> (r: ConversionResult<LanguageEnum>)
        ensures
            !JsEnumConversionOptions::hooked(options) ==> js_enum_ir_is(r.value, self),
            r.log@ == Seq::<WarningText>::empty(),
    {
        let mut r = self.convert();
        if let Some(o) = options {
            o.config.after_to_ir_enum(&mut r.value);
        }
        r
    }
}


/// Conversion options for JavaScript enums: the conversion's configuration.
#[derive(Clone)]
pub struct JsEnumConversionOptions {
    /// The conversion configuration (the user's hooks).
    pub config: ConversionConfig,
}

impl Default for JsEnumConversionOptions {
    fn default() -> (r: Self)
        ensures
            r.config.hooks is None,
    {
        JsEnumConversionOptions { config: ConversionConfig::default() }
    }
}

impl JsEnumConversionOptions {
    /// Whether options are given and carry hooks.
    pub open spec fn hooked(o: Option<&Self>) -> bool {
        o matches Some(x) && x.config.hooks is Some
    }
}

/// What the configuration of a conversion made of an IR enum's names: the enum's JavaScript name
/// and each member's.
pub struct JsEnumNames {
    pub name: ConversionResult<String>,
    pub members: Vec<ConversionResult<String>>,
}

/// The JavaScript value of the variant at `index`: its explicit value, else its index.
pub open spec fn js_member_value(v: EnumVariantValue, index: int) -> Seq<char> {
    match v {
        EnumVariantValue::Value(w) => w@,
        _ => decimal(index as nat),
    }
}

/// What converting an IR enum to JavaScript loses: what renaming reports, its annotations and raw
/// attributes, then what renaming each member reports.
pub open spec fn js_enum_from_ir_warnings(input: LanguageEnum, names: JsEnumNames) -> Seq<WarningText> {
    names.name.log@ + (if input.annotations@.len() + input.raw_attributes@.len() > 0 {
        seq![dropped_annotations(
            (input.annotations@.len() + input.raw_attributes@.len()) as nat,
            "enum"@,
            input.name@,
            "JavaScript"@,
        )]
    } else {
        Seq::empty()
    }) + flat(Seq::new(input.variants@.len(), |i: int| names.members@[i].log@))
}

/// Whether `r` is the JavaScript enum an IR enum converts to, given its names: each variant as a
/// renamed member whose value is the variant's explicit value or else its index, the docs
/// joined, exported.
pub open spec fn js_enum_from_ir_is(r: JsEnum, input: LanguageEnum, names: JsEnumNames) -> bool {
    &&& r.name == names.name.value
    &&& r.members@.len() == input.variants@.len()
    &&& forall|i: int| 0 <= i < r.members@.len() ==> {
        &&& (#[trigger] r.members@[i]).name == names.members@[i].value
        &&& r.members@[i].value@ == js_member_value(input.variants@[i].value, i)
    }
    &&& (r.doc is None <==> input.docs is None)
    &&& (r.doc matches Some(d) ==> docstring_of_docs(input.docs) == Some(d@))
    &&& r.export
}

impl JsEnum {
    /// Converts an IR enum to JavaScript, given its names as the conversion's configuration renamed
    /// them. The caller applies the user's `before_from_ir_*` hook, if any, to the input first.
    pub fn from_ir(input: LanguageEnum, names: JsEnumNames) -> (r: ConversionResult<JsEnum>)
        requires
            names.members@.len() == input.variants@.len(),
        ensures
            js_enum_from_ir_is(r.value, input, names),
            r.log@ == js_enum_from_ir_warnings(input, names),
    {
        let ghost inp = input;
        let ghost nm = names;
        let mut log = ConversionLog::new();
        let JsEnumNames { name, members: member_names } = names;
        log.add_warnings(name.log.warnings);
        let annotated: u128 = input.annotations.len() as u128 + input.raw_attributes.len() as u128;
        if annotated > 0 {
            log.add_warning(dropped_annotations_warning(annotated, "enum", input.name.as_str(), "JavaScript"));
        }
        let ghost head = log@;
        let LanguageEnum { variants, docs, .. } = input;
        let ghost vs = variants@;
        let ghost ns = member_names@;
        let ghost parts = Seq::new(vs.len(), |k: int| ns[k].log@);
        let mut vrest = variants;
        let mut nrest = member_names;
        let mut out: Vec<JsEnumMember> = Vec::new();
        while vrest.len() > 0
            invariant
                vs.len() == ns.len(),
                out@.len() + vrest@.len() == vs.len(),
                vrest@ == vs.skip(out@.len() as int),
                nrest@ == ns.skip(out@.len() as int),
                parts == Seq::new(vs.len(), |k: int| ns[k].log@),
                forall|k: int| 0 <= k < out@.len() ==> {
                    &&& (#[trigger] out@[k]).name == ns[k].value
                    &&& out@[k].value@ == js_member_value(vs[k].value, k)
                },
                log@ == head + flat(parts.take(out@.len() as int)),
            decreases vrest@.len(),
        {
            let index = out.len();
            let v = vrest.remove(0);
            let n = nrest.remove(0);
            proof {
                lemma_flat_step(parts, out@.len() as int);
            }
            log.add_warnings(n.log.warnings);
            let value = match v.value {
                EnumVariantValue::Value(w) => w,
                _ => {
                    let mut w = String::new();
                    push_u128(&mut w, index as u128);
                    assert(w@ =~= decimal(index as nat));
                    w
                },
            };
            out.push(JsEnumMember { name: n.value, value });
            assert(vrest@ =~= vs.skip(out@.len() as int));
            assert(nrest@ =~= ns.skip(out@.len() as int));
        }
        proof {
            lemma_flat_all(parts);
        }
        assert(log@ =~= js_enum_from_ir_warnings(inp, nm));
        ConversionResult::with_log(JsEnum { name: name.value, members: out, doc: docs_to_docstring(docs), export: true }, log)
    }
}

} // verus!
