use vstd::prelude::*;

use crate::conversion::ConversionConfig;

use super::{
    CSharpConstant, CSharpConstantRenderOptions, CSharpDefinition, CSharpDefinitionRenderOptions, CSharpEnum,
    CSharpEnumRenderOptions, CSharpType, CSharpTypeRenderOptions,
};
use super::enum_types::csharp_enum_ir_is;
use super::struct_types::{csharp_type_ir_is, csharp_type_ir_warnings};
use super::visibility::{csharp_visibility_ir, csharp_visibility_ir_warnings};
use crate::backends::BackendItem;
use crate::conversion::{
    feature_warning, flat, lemma_flat_all, lemma_flat_step, opt_flat, opt_items_are, unsupported, ConversionLog,
    ConversionResult, WarningText,
};
use crate::ir::{LanguageConstant, LanguageDefinition, LanguageEnum, LanguageNamespace, LanguageStruct, Visibility};

verus! {

/// Represents a C# namespace.
#[derive(Debug)]
pub struct CSharpNamespace {
    /// The name of the namespace.
    pub name: String,
    /// The defines in the namespace.
    pub defines: Option<Vec<CSharpDefinition>>,
    /// The constants in the namespace.
    pub constants: Option<Vec<CSharpConstant>>,
    /// The enums in the namespace.
    pub enums: Option<Vec<CSharpEnum>>,
    /// The types (classes/structs/interfaces/records) in the namespace.
    pub types: Option<Vec<CSharpType>>,
    /// Nested namespaces.
    pub namespaces: Option<Vec<CSharpNamespace>>,
    /// Whether the namespace is rendered file-scoped (`namespace X;`).
    pub file_scoped: bool,
    /// Documentation for the namespace.
    pub docs: Option<Vec<String>>,
}

/// Render options for C# namespaces.
#[derive(Debug, Clone, Copy)]
pub struct CSharpNamespaceRenderOptions {
    pub define_options: CSharpDefinitionRenderOptions,
    pub constant_options: CSharpConstantRenderOptions,
    pub enum_options: CSharpEnumRenderOptions,
    pub type_options: CSharpTypeRenderOptions,
}

impl Default for CSharpNamespaceRenderOptions {
    fn default() -> (r: Self)
        ensures
            r.define_options.const_type@ == "int"@,
            r.define_options.render_docs,
            r.constant_options.render_docs,
            r.enum_options == CSharpEnumRenderOptions::spec_default(),
            r.type_options == CSharpTypeRenderOptions::spec_default(),
    {
        CSharpNamespaceRenderOptions {
            define_options: CSharpDefinitionRenderOptions::default(),
            constant_options: CSharpConstantRenderOptions::default(),
            enum_options: CSharpEnumRenderOptions::default(),
            type_options: CSharpTypeRenderOptions::default(),
        }
    }
}


/// Whether `d` is the IR of the define `x`.
pub open spec fn csharp_define_ir_is(d: LanguageDefinition, x: CSharpDefinition) -> bool {
    d.name == x.name && d.value == x.value && d.docs == x.docs
}

/// Whether `c` is the IR of the constant `x`.
pub open spec fn csharp_constant_ir_is(c: LanguageConstant, x: CSharpConstant) -> bool {
    &&& c.name == x.name
    &&& c.visibility == csharp_visibility_ir(x.visibility)
    &&& c.data_type == x.data_type
    &&& c.value == x.value
    &&& c.docs == x.docs
}

/// What converting a C# namespace to the IR loses: its file-scoped form, then what its
/// constants, enums and types lose, then what its nested namespaces lose, in order.
pub open spec fn csharp_namespace_ir_warnings(n: CSharpNamespace) -> Seq<WarningText>
    decreases n, 1int,
{
    (if n.file_scoped {
        seq![unsupported(
            "file-scoped namespace `"@ + n.name@ + "`"@,
            "file-scoped flag dropped from the language-agnostic IR"@,
        )]
    } else {
        Seq::empty()
    }) + opt_flat(n.constants, |x: CSharpConstant| csharp_constant_warnings(x)) + opt_flat(
        n.enums,
        |e: CSharpEnum| csharp_enum_warnings(e),
    ) + opt_flat(n.types, |t: CSharpType| csharp_type_ir_warnings(t)) + match n.namespaces {
        Some(v) => csharp_namespaces_ir_warnings(v@),
        None => Seq::empty(),
    }
}

/// What converting each of the namespaces loses, one after the other.
pub open spec fn csharp_namespaces_ir_warnings(ns: Seq<CSharpNamespace>) -> Seq<WarningText>
    decreases ns, 0int,
{
    if ns.len() == 0 {
        Seq::empty()
    } else {
        csharp_namespaces_ir_warnings(ns.drop_last()) + csharp_namespace_ir_warnings(ns.last())
    }
}

/// Whether `r` is the IR of the C# namespace `n`: default visibility, the same name and docs,
/// its types as structs, no functions, and each other list present exactly when it is, with its
/// items converted.
pub open spec fn csharp_namespace_ir_is(r: LanguageNamespace, n: CSharpNamespace) -> bool
    decreases n,
{
    &&& r.name == n.name
    &&& r.visibility == Visibility::Default
    &&& opt_items_are(r.defines, n.defines, |d: LanguageDefinition, x: CSharpDefinition| csharp_define_ir_is(d, x))
    &&& opt_items_are(r.constants, n.constants, |c: LanguageConstant, x: CSharpConstant| csharp_constant_ir_is(c, x))
    &&& opt_items_are(r.enums, n.enums, |e: LanguageEnum, x: CSharpEnum| csharp_enum_ir_is(e, x))
    &&& opt_items_are(r.structs, n.types, |s: LanguageStruct, x: CSharpType| csharp_type_ir_is(s, x))
    &&& r.functions is None
    &&& match n.namespaces {
        Some(xs) => r.namespaces matches Some(ys) && ys@.len() == xs@.len() && forall|i: int|
            0 <= i < xs@.len() ==> csharp_namespace_ir_is(#[trigger] ys@[i], xs@[i]),
        None => r.namespaces is None,
    }
    &&& r.docs == n.docs
    &&& r.raw_attributes@.len() == 0
}

/// The warnings of converting a constant: what its visibility loses.
pub open spec fn csharp_constant_warnings(x: CSharpConstant) -> Seq<WarningText> {
    csharp_visibility_ir_warnings(x.visibility)
}

/// The warnings of converting an enum: what its visibility loses.
pub open spec fn csharp_enum_warnings(e: CSharpEnum) -> Seq<WarningText> {
    csharp_visibility_ir_warnings(e.visibility)
}

/// Converts the defines of a namespace to the IR, in order.
fn csharp_defines_to_ir(items: Option<Vec<CSharpDefinition>>) -> (r: Option<Vec<LanguageDefinition>>)
    ensures
        opt_items_are(r, items, |a: LanguageDefinition, x: CSharpDefinition| csharp_define_ir_is(a, x)),
{
    match items {
        None => None,
        Some(v) => {
            let ghost all = v@;
            let mut rest = v;
            let mut out: Vec<LanguageDefinition> = Vec::new();
            while rest.len() > 0
                invariant
                    out@.len() + rest@.len() == all.len(),
                    rest@ == all.skip(out@.len() as int),
                    forall|i: int| 0 <= i < out@.len() ==> csharp_define_ir_is(#[trigger] out@[i], all[i]),
                decreases rest@.len(),
            {
                let x = rest.remove(0);
                out.push(x.to_ir(None).value);
                assert(rest@ =~= all.skip(out@.len() as int));
            }
            Some(out)
        },
    }
}

/// Converts the constants of a namespace to the IR, in order, appending what each loses to `log`.
fn csharp_constants_to_ir(items: Option<Vec<CSharpConstant>>, log: &mut ConversionLog) -> (r: Option<Vec<LanguageConstant>>)
    ensures
        opt_items_are(r, items, |a: LanguageConstant, x: CSharpConstant| csharp_constant_ir_is(a, x)),
        final(log)@ == old(log)@ + opt_flat(items, |x: CSharpConstant| csharp_constant_warnings(x)),
{
    match items {
        None => {
            assert(log@ =~= old(log)@ + opt_flat(items, |x: CSharpConstant| csharp_constant_warnings(x)));
            None
        },
        Some(v) => {
            let ghost all = v@;
            let ghost parts = Seq::new(all.len(), |i: int| csharp_constant_warnings(all[i]));
            let ghost start = log@;
            let mut rest = v;
            let mut out: Vec<LanguageConstant> = Vec::new();
            while rest.len() > 0
                invariant
                    out@.len() + rest@.len() == all.len(),
                    rest@ == all.skip(out@.len() as int),
                    parts == Seq::new(all.len(), |i: int| csharp_constant_warnings(all[i])),
                    forall|i: int| 0 <= i < out@.len() ==> csharp_constant_ir_is(#[trigger] out@[i], all[i]),
                    log@ == start + flat(parts.take(out@.len() as int)),
                decreases rest@.len(),
            {
                let x = rest.remove(0);
                proof {
                    lemma_flat_step(parts, out@.len() as int);
                }
                let c = x.to_ir(None);
                log.add_warnings(c.log.warnings);
                out.push(c.value);
                assert(rest@ =~= all.skip(out@.len() as int));
            }
            proof {
                lemma_flat_all(parts);
                assert(parts =~= Seq::new(all.len(), |i: int| (|x: CSharpConstant| csharp_constant_warnings(x))(all[i])));
            }
            Some(out)
        },
    }
}

/// Converts the enums of a namespace to the IR, in order, appending what each loses to `log`.
fn csharp_enums_to_ir(items: Option<Vec<CSharpEnum>>, log: &mut ConversionLog) -> (r: Option<Vec<LanguageEnum>>)
    ensures
        opt_items_are(r, items, |a: LanguageEnum, x: CSharpEnum| csharp_enum_ir_is(a, x)),
        final(log)@ == old(log)@ + opt_flat(items, |x: CSharpEnum| csharp_enum_warnings(x)),
{
    match items {
        None => {
            assert(log@ =~= old(log)@ + opt_flat(items, |x: CSharpEnum| csharp_enum_warnings(x)));
            None
        },
        Some(v) => {
            let ghost all = v@;
            let ghost parts = Seq::new(all.len(), |i: int| csharp_enum_warnings(all[i]));
            let ghost start = log@;
            let mut rest = v;
            let mut out: Vec<LanguageEnum> = Vec::new();
            while rest.len() > 0
                invariant
                    out@.len() + rest@.len() == all.len(),
                    rest@ == all.skip(out@.len() as int),
                    parts == Seq::new(all.len(), |i: int| csharp_enum_warnings(all[i])),
                    forall|i: int| 0 <= i < out@.len() ==> csharp_enum_ir_is(#[trigger] out@[i], all[i]),
                    log@ == start + flat(parts.take(out@.len() as int)),
                decreases rest@.len(),
            {
                let x = rest.remove(0);
                proof {
                    lemma_flat_step(parts, out@.len() as int);
                }
                let c = x.to_ir(None);
                log.add_warnings(c.log.warnings);
                out.push(c.value);
                assert(rest@ =~= all.skip(out@.len() as int));
            }
            proof {
                lemma_flat_all(parts);
                assert(parts =~= Seq::new(all.len(), |i: int| (|x: CSharpEnum| csharp_enum_warnings(x))(all[i])));
            }
            Some(out)
        },
    }
}

/// Converts the types of a namespace to the IR, in order, appending what each loses to `log`.
fn csharp_types_to_ir(items: Option<Vec<CSharpType>>, log: &mut ConversionLog) -> (r: Option<Vec<LanguageStruct>>)
    ensures
        opt_items_are(r, items, |a: LanguageStruct, x: CSharpType| csharp_type_ir_is(a, x)),
        final(log)@ == old(log)@ + opt_flat(items, |x: CSharpType| csharp_type_ir_warnings(x)),
{
    match items {
        None => {
            assert(log@ =~= old(log)@ + opt_flat(items, |x: CSharpType| csharp_type_ir_warnings(x)));
            None
        },
        Some(v) => {
            let ghost all = v@;
            let ghost parts = Seq::new(all.len(), |i: int| csharp_type_ir_warnings(all[i]));
            let ghost start = log@;
            let mut rest = v;
            let mut out: Vec<LanguageStruct> = Vec::new();
            while rest.len() > 0
                invariant
                    out@.len() + rest@.len() == all.len(),
                    rest@ == all.skip(out@.len() as int),
                    parts == Seq::new(all.len(), |i: int| csharp_type_ir_warnings(all[i])),
                    forall|i: int| 0 <= i < out@.len() ==> csharp_type_ir_is(#[trigger] out@[i], all[i]),
                    log@ == start + flat(parts.take(out@.len() as int)),
                decreases rest@.len(),
            {
                let x = rest.remove(0);
                proof {
                    lemma_flat_step(parts, out@.len() as int);
                }
                let c = x.to_ir(None);
                log.add_warnings(c.log.warnings);
                out.push(c.value);
                assert(rest@ =~= all.skip(out@.len() as int));
            }
            proof {
                lemma_flat_all(parts);
                assert(parts =~= Seq::new(all.len(), |i: int| (|x: CSharpType| csharp_type_ir_warnings(x))(all[i])));
            }
            Some(out)
        },
    }
}

impl CSharpNamespace {
    /// Converts the namespace to the IR, reporting a file-scoped namespace and what its items
    /// and nested namespaces lose.
    fn convert(self) -> (r: ConversionResult<LanguageNamespace>)
        ensures
            csharp_namespace_ir_is(r.value, self),
            r.log@ == csharp_namespace_ir_warnings(self),
        decreases self,
    {
        let ghost n = self;
        let mut log = ConversionLog::new();
        if self.file_scoped {
            log.add_warning(feature_warning(
                "file-scoped namespace `",
                self.name.as_str(),
                "`",
                "file-scoped flag dropped from the language-agnostic IR",
            ));
        }
        let CSharpNamespace { name, defines, constants, enums, types, namespaces, file_scoped: _, docs } = self;
        let defines = csharp_defines_to_ir(defines);
        let constants = csharp_constants_to_ir(constants, &mut log);
        let enums = csharp_enums_to_ir(enums, &mut log);
        let structs = csharp_types_to_ir(types, &mut log);
        let ghost head = log@;
        let namespaces = match namespaces {
            None => None,
            Some(v) => {
                let ghost all = v@;
                let mut rest = v;
                let mut out: Vec<LanguageNamespace> = Vec::new();
                while rest.len() > 0
                    invariant
                        n.namespaces == Some(v),
                        n == self,
                        all == v@,
                        out@.len() + rest@.len() == all.len(),
                        rest@ == all.skip(out@.len() as int),
                        forall|i: int| 0 <= i < out@.len() ==> csharp_namespace_ir_is(#[trigger] out@[i], all[i]),
                        log@ == head + csharp_namespaces_ir_warnings(all.take(out@.len() as int)),
                    decreases rest@.len(),
                {
                    let ghost k = out@.len();
                    let x = rest.remove(0);
                    assert(x == all[k as int]);
                    assert(decreases_to!(self => x)) by {
                        assert(decreases_to!(n => n.namespaces));
                        assert(decreases_to!(n.namespaces => n.namespaces->0));
                        assert(decreases_to!(n.namespaces->0 => n.namespaces->0@));
                        assert(decreases_to!(n.namespaces->0@ => n.namespaces->0@[k as int]));
                    }
                    let c = x.convert();
                    log.add_warnings(c.log.warnings);
                    out.push(c.value);
                    assert(all.take(k as int + 1).drop_last() =~= all.take(k as int));
                    assert(rest@ =~= all.skip(out@.len() as int));
                }
                assert(all.take(all.len() as int) =~= all);
                Some(out)
            },
        };
        assert(log@ =~= csharp_namespace_ir_warnings(n));
        ConversionResult::with_log(
            LanguageNamespace {
                name,
                visibility: Visibility::Default,
                defines,
                constants,
                enums,
                structs,
                functions: None,
                namespaces,
                docs,
                raw_attributes: Vec::new(),
            },
            log,
        )
    }

    /// Converts the namespace to the IR, reporting a file-scoped namespace and what its items
    /// and nested namespaces lose.
    pub fn to_ir(self, options: Option<&CSharpNamespaceConversionOptions>) -> (r: ConversionResult<LanguageNamespace>)
        ensures
            csharp_namespace_ir_is(r.value, self),
            r.log@ == csharp_namespace_ir_warnings(self),
    {
        self.convert()
    }
}


/// Conversion options for C# namespaces: the conversion's configuration.
#[derive(Clone)]
pub struct CSharpNamespaceConversionOptions {
    /// The conversion configuration (the user's hooks).
    pub config: ConversionConfig,
}

impl Default for CSharpNamespaceConversionOptions {
    fn default() -> (r: Self)
        ensures
            r.config.hooks is None,
    {
        CSharpNamespaceConversionOptions { config: ConversionConfig::default() }
    }
}

impl CSharpNamespaceConversionOptions {
    /// Whether options are given and carry hooks.
    pub open spec fn hooked(o: Option<&Self>) -> bool {
        o matches Some(x) && x.config.hooks is Some
    }
}

} // verus!
