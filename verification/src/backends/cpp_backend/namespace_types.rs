use vstd::prelude::*;

use crate::conversion::ConversionConfig;

use super::{
    CppConstant, CppConstantRenderOptions, CppDefinition, CppDefinitionRenderOptions, CppEnum, CppEnumRenderOptions,
    CppEnumVariantRenderOptions, CppFunction, CppFunctionRenderOptions, CppStruct, CppStructRenderOptions,
};
use super::enum_types::{cpp_enum_ir_is, cpp_enum_ir_warnings};
use super::function_types::{cpp_fn_ir_is, cpp_fn_ir_warnings};
use super::struct_types::{cpp_struct_ir_is, cpp_struct_ir_warnings};
use super::visibility::cpp_visibility_ir;
use crate::backends::BackendItem;
use crate::conversion::{
    flat, lemma_flat_all, lemma_flat_step, opt_flat, opt_items_are, ConversionLog, ConversionResult, WarningText,
};
use crate::ir::{
    LanguageConstant, LanguageDefinition, LanguageEnum, LanguageFunction, LanguageNamespace, LanguageStruct, Visibility,
};

verus! {

/// Represents a C++ namespace definition.
#[derive(Debug)]
pub struct CppNamespace {
    /// The name of the namespace.
    pub name: String,
    /// The defines in the namespace.
    pub defines: Option<Vec<CppDefinition>>,
    /// The constants in the namespace.
    pub constants: Option<Vec<CppConstant>>,
    /// The enums in the namespace.
    pub enums: Option<Vec<CppEnum>>,
    /// The structs in the namespace.
    pub structs: Option<Vec<CppStruct>>,
    /// The free functions in the namespace.
    pub functions: Option<Vec<CppFunction>>,
    /// The namespaces in the namespace.
    pub namespaces: Option<Vec<CppNamespace>>,
}

/// Render options for C++ namespaces.
#[derive(Debug, Clone, Copy)]
pub struct CppNamespaceRenderOptions {
    pub define_options: CppDefinitionRenderOptions,
    pub constant_options: CppConstantRenderOptions,
    pub enum_options: CppEnumRenderOptions,
    pub enum_variant_options: CppEnumVariantRenderOptions,
    pub struct_options: CppStructRenderOptions,
    pub function_options: CppFunctionRenderOptions,
}

impl CppNamespaceRenderOptions {
    /// The default options: each kind's defaults.
    pub open spec fn spec_default() -> Self {
        CppNamespaceRenderOptions {
            define_options: CppDefinitionRenderOptions { render_docs: true },
            constant_options: CppConstantRenderOptions::spec_default(),
            enum_options: CppEnumRenderOptions { render_docs: true },
            enum_variant_options: CppEnumVariantRenderOptions::spec_default(),
            struct_options: CppStructRenderOptions::spec_default(),
            function_options: CppFunctionRenderOptions::spec_default(),
        }
    }

    /// The given options, or the defaults.
    pub open spec fn or_default(o: Option<&Self>) -> Self {
        match o {
            Some(o) => *o,
            None => Self::spec_default(),
        }
    }
}

impl Default for CppNamespaceRenderOptions {
    fn default() -> (r: Self)
        ensures
            r == Self::spec_default(),
    {
        CppNamespaceRenderOptions {
            define_options: CppDefinitionRenderOptions::default(),
            constant_options: CppConstantRenderOptions::default(),
            enum_options: CppEnumRenderOptions::default(),
            enum_variant_options: CppEnumVariantRenderOptions::default(),
            struct_options: CppStructRenderOptions::default(),
            function_options: CppFunctionRenderOptions::default(),
        }
    }
}


/// What converting a C++ namespace to the IR loses: what its enums, structs and functions lose,
/// then what its nested namespaces lose, in order.
pub open spec fn cpp_namespace_ir_warnings(n: CppNamespace) -> Seq<WarningText>
    decreases n, 1int,
{
    opt_flat(n.enums, |e: CppEnum| cpp_enum_ir_warnings(e)) + opt_flat(n.structs, |s: CppStruct| cpp_struct_ir_warnings(s))
        + opt_flat(n.functions, |f: CppFunction| cpp_fn_ir_warnings(f)) + match n.namespaces {
        Some(v) => cpp_namespaces_ir_warnings(v@),
        None => Seq::empty(),
    }
}

/// What converting each of the namespaces loses, one after the other.
pub open spec fn cpp_namespaces_ir_warnings(ns: Seq<CppNamespace>) -> Seq<WarningText>
    decreases ns, 0int,
{
    if ns.len() == 0 {
        Seq::empty()
    } else {
        cpp_namespaces_ir_warnings(ns.drop_last()) + cpp_namespace_ir_warnings(ns.last())
    }
}

/// Whether `d` is the IR of the define `x`.
pub open spec fn cpp_define_ir_is(d: LanguageDefinition, x: CppDefinition) -> bool {
    d.name == x.name && d.value == x.value && d.docs == x.docs
}

/// Whether `c` is the IR of the constant `x`.
pub open spec fn cpp_constant_ir_is(c: LanguageConstant, x: CppConstant) -> bool {
    &&& c.name == x.name
    &&& c.visibility == cpp_visibility_ir(x.visibility)
    &&& c.data_type == x.data_type
    &&& c.value == x.value
    &&& c.docs == x.docs
}

/// Whether `r` is the IR of the C++ namespace `n`: default visibility, the same name, each list
/// present exactly when it is, with its items converted, and no docs or attributes.
pub open spec fn cpp_namespace_ir_is(r: LanguageNamespace, n: CppNamespace) -> bool
    decreases n,
{
    &&& r.name == n.name
    &&& r.visibility == Visibility::Default
    &&& opt_items_are(r.defines, n.defines, |d: LanguageDefinition, x: CppDefinition| cpp_define_ir_is(d, x))
    &&& opt_items_are(r.constants, n.constants, |c: LanguageConstant, x: CppConstant| cpp_constant_ir_is(c, x))
    &&& opt_items_are(r.enums, n.enums, |e: LanguageEnum, x: CppEnum| cpp_enum_ir_is(e, x))
    &&& opt_items_are(r.structs, n.structs, |s: LanguageStruct, x: CppStruct| cpp_struct_ir_is(s, x))
    &&& opt_items_are(r.functions, n.functions, |f: LanguageFunction, x: CppFunction| cpp_fn_ir_is(f, x))
    &&& match n.namespaces {
        Some(xs) => r.namespaces matches Some(ys) && ys@.len() == xs@.len() && forall|i: int|
            0 <= i < xs@.len() ==> cpp_namespace_ir_is(#[trigger] ys@[i], xs@[i]),
        None => r.namespaces is None,
    }
    &&& r.docs is None
    &&& r.raw_attributes@.len() == 0
}


/// Converts the enums of a namespace to the IR, in order, appending what each loses to `log`.
fn enums_to_ir(items: Option<Vec<CppEnum>>, log: &mut ConversionLog) -> (r: Option<Vec<LanguageEnum>>)
    ensures
        opt_items_are(r, items, |a: LanguageEnum, x: CppEnum| cpp_enum_ir_is(a, x)),
        final(log)@ == old(log)@ + opt_flat(items, |x: CppEnum| cpp_enum_ir_warnings(x)),
{
    match items {
        None => {
            assert(log@ =~= old(log)@ + opt_flat(items, |x: CppEnum| cpp_enum_ir_warnings(x)));
            None
        },
        Some(v) => {
            let ghost all = v@;
            let ghost parts = Seq::new(all.len(), |i: int| cpp_enum_ir_warnings(all[i]));
            let ghost start = log@;
            let mut rest = v;
            let mut out: Vec<LanguageEnum> = Vec::new();
            while rest.len() > 0
                invariant
                    out@.len() + rest@.len() == all.len(),
                    rest@ == all.skip(out@.len() as int),
                    parts == Seq::new(all.len(), |i: int| cpp_enum_ir_warnings(all[i])),
                    forall|i: int| 0 <= i < out@.len() ==> cpp_enum_ir_is(#[trigger] out@[i], all[i]),
                    log@ == start + flat(parts.take(out@.len() as int)),
                decreases rest@.len(),
            {
                let x = rest.remove(0);
                proof {
                    lemma_flat_step(parts, out@.len() as int);
                }
                let c = x.to_ir(None);
                log.add_warnings(c.log.warnings);
                out.push(c.value);
                assert(rest@ =~= all.skip(out@.len() as int));
            }
            proof {
                lemma_flat_all(parts);
                assert(parts =~= Seq::new(all.len(), |i: int| (|x: CppEnum| cpp_enum_ir_warnings(x))(all[i])));
            }
            Some(out)
        },
    }
}

/// Converts the structs of a namespace to the IR, in order, appending what each loses to `log`.
fn structs_to_ir(items: Option<Vec<CppStruct>>, log: &mut ConversionLog) -> (r: Option<Vec<LanguageStruct>>)
    ensures
        opt_items_are(r, items, |a: LanguageStruct, x: CppStruct| cpp_struct_ir_is(a, x)),
        final(log)@ == old(log)@ + opt_flat(items, |x: CppStruct| cpp_struct_ir_warnings(x)),
{
    match items {
        None => {
            assert(log@ =~= old(log)@ + opt_flat(items, |x: CppStruct| cpp_struct_ir_warnings(x)));
            None
        },
        Some(v) => {
            let ghost all = v@;
            let ghost parts = Seq::new(all.len(), |i: int| cpp_struct_ir_warnings(all[i]));
            let ghost start = log@;
            let mut rest = v;
            let mut out: Vec<LanguageStruct> = Vec::new();
            while rest.len() > 0
                invariant
                    out@.len() + rest@.len() == all.len(),
                    rest@ == all.skip(out@.len() as int),
                    parts == Seq::new(all.len(), |i: int| cpp_struct_ir_warnings(all[i])),
                    forall|i: int| 0 <= i < out@.len() ==> cpp_struct_ir_is(#[trigger] out@[i], all[i]),
                    log@ == start + flat(parts.take(out@.len() as int)),
                decreases rest@.len(),
            {
                let x = rest.remove(0);
                proof {
                    lemma_flat_step(parts, out@.len() as int);
                }
                let c = x.to_ir(None);
                log.add_warnings(c.log.warnings);
                out.push(c.value);
                assert(rest@ =~= all.skip(out@.len() as int));
            }
            proof {
                lemma_flat_all(parts);
                assert(parts =~= Seq::new(all.len(), |i: int| (|x: CppStruct| cpp_struct_ir_warnings(x))(all[i])));
            }
            Some(out)
        },
    }
}

/// Converts the functions of a namespace to the IR, in order, appending what each loses to `log`.
fn functions_to_ir(items: Option<Vec<CppFunction>>, log: &mut ConversionLog) -> (r: Option<Vec<LanguageFunction>>)
    ensures
        opt_items_are(r, items, |a: LanguageFunction, x: CppFunction| cpp_fn_ir_is(a, x)),
        final(log)@ == old(log)@ + opt_flat(items, |x: CppFunction| cpp_fn_ir_warnings(x)),
{
    match items {
        None => {
            assert(log@ =~= old(log)@ + opt_flat(items, |x: CppFunction| cpp_fn_ir_warnings(x)));
            None
        },
        Some(v) => {
            let ghost all = v@;
            let ghost parts = Seq::new(all.len(), |i: int| cpp_fn_ir_warnings(all[i]));
            let ghost start = log@;
            let mut rest = v;
            let mut out: Vec<LanguageFunction> = Vec::new();
            while rest.len() > 0
                invariant
                    out@.len() + rest@.len() == all.len(),
                    rest@ == all.skip(out@.len() as int),
                    parts == Seq::new(all.len(), |i: int| cpp_fn_ir_warnings(all[i])),
                    forall|i: int| 0 <= i < out@.len() ==> cpp_fn_ir_is(#[trigger] out@[i], all[i]),
                    log@ == start + flat(parts.take(out@.len() as int)),
                decreases rest@.len(),
            {
                let x = rest.remove(0);
                proof {
                    lemma_flat_step(parts, out@.len() as int);
                }
                let c = x.to_ir(None);
                log.add_warnings(c.log.warnings);
                out.push(c.value);
                assert(rest@ =~= all.skip(out@.len() as int));
            }
            proof {
                lemma_flat_all(parts);
                assert(parts =~= Seq::new(all.len(), |i: int| (|x: CppFunction| cpp_fn_ir_warnings(x))(all[i])));
            }
            Some(out)
        },
    }
}

/// Converts the defines of a namespace to the IR, in order.
fn defines_to_ir(items: Option<Vec<CppDefinition>>) -> (r: Option<Vec<LanguageDefinition>>)
    ensures
        opt_items_are(r, items, |d: LanguageDefinition, x: CppDefinition| cpp_define_ir_is(d, x)),
{
    match items {
        None => None,
        Some(v) => {
            let ghost all = v@;
            let mut rest = v;
            let mut out: Vec<LanguageDefinition> = Vec::new();
            while rest.len() > 0
                invariant
                    out@.len() + rest@.len() == all.len(),
                    rest@ == all.skip(out@.len() as int),
                    forall|i: int| 0 <= i < out@.len() ==> cpp_define_ir_is(#[trigger] out@[i], all[i]),
                decreases rest@.len(),
            {
                let x = rest.remove(0);
                out.push(x.to_ir(None).value);
                assert(rest@ =~= all.skip(out@.len() as int));
            }
            Some(out)
        },
    }
}

/// Converts the constants of a namespace to the IR, in order.
fn constants_to_ir(items: Option<Vec<CppConstant>>) -> (r: Option<Vec<LanguageConstant>>)
    ensures
        opt_items_are(r, items, |c: LanguageConstant, x: CppConstant| cpp_constant_ir_is(c, x)),
{
    match items {
        None => None,
        Some(v) => {
            let ghost all = v@;
            let mut rest = v;
            let mut out: Vec<LanguageConstant> = Vec::new();
            while rest.len() > 0
                invariant
                    out@.len() + rest@.len() == all.len(),
                    rest@ == all.skip(out@.len() as int),
                    forall|i: int| 0 <= i < out@.len() ==> cpp_constant_ir_is(#[trigger] out@[i], all[i]),
                decreases rest@.len(),
            {
                let x = rest.remove(0);
                out.push(x.to_ir(None).value);
                assert(rest@ =~= all.skip(out@.len() as int));
            }
            Some(out)
        },
    }
}

impl CppNamespace {
    /// Converts the namespace to the IR, with what its enums, structs, functions and nested
    /// namespaces lose.
    fn convert(self) -> (r: ConversionResult<LanguageNamespace>)
        ensures
            cpp_namespace_ir_is(r.value, self),
            r.log@ == cpp_namespace_ir_warnings(self),
        decreases self,
    {
        let ghost n = self;
        let mut log = ConversionLog::new();
        let CppNamespace { name, defines, constants, enums, structs, functions, namespaces } = self;
        let defines = defines_to_ir(defines);
        let constants = constants_to_ir(constants);
        let enums = enums_to_ir(enums, &mut log);
        let structs = structs_to_ir(structs, &mut log);
        let functions = functions_to_ir(functions, &mut log);
        let ghost head = log@;
        let namespaces = match namespaces {
            None => None,
            Some(v) => {
                let ghost all = v@;
                let mut rest = v;
                let mut out: Vec<LanguageNamespace> = Vec::new();
                while rest.len() > 0
                    invariant
                        n.namespaces == Some(v),
                        n == self,
                        all == v@,
                        out@.len() + rest@.len() == all.len(),
                        rest@ == all.skip(out@.len() as int),
                        forall|i: int| 0 <= i < out@.len() ==> cpp_namespace_ir_is(#[trigger] out@[i], all[i]),
                        log@ == head + cpp_namespaces_ir_warnings(all.take(out@.len() as int)),
                    decreases rest@.len(),
                {
                    let ghost k = out@.len();
                    let x = rest.remove(0);
                    assert(x == all[k as int]);
                    assert(decreases_to!(self => x)) by {
                        assert(decreases_to!(n => n.namespaces));
                        assert(decreases_to!(n.namespaces => n.namespaces->0));
                        assert(decreases_to!(n.namespaces->0 => n.namespaces->0@));
                        assert(decreases_to!(n.namespaces->0@ => n.namespaces->0@[k as int]));
                    }
                    let c = x.convert();
                    log.add_warnings(c.log.warnings);
                    out.push(c.value);
                    assert(all.take(k as int + 1).drop_last() =~= all.take(k as int));
                    assert(rest@ =~= all.skip(out@.len() as int));
                }
                assert(all.take(all.len() as int) =~= all);
                Some(out)
            },
        };
        assert(log@ =~= cpp_namespace_ir_warnings(n));
        ConversionResult::with_log(
            LanguageNamespace {
                name,
                visibility: Visibility::Default,
                defines,
                constants,
                enums,
                structs,
                functions,
                namespaces,
                docs: None,
                raw_attributes: Vec::new(),
            },
            log,
        )
    }

    /// Converts the namespace to the IR, with what its enums, structs, functions and nested
    /// namespaces lose.
    pub fn to_ir(self, options: Option<&CppNamespaceConversionOptions>) -> (r: ConversionResult<LanguageNamespace>)
        ensures
            cpp_namespace_ir_is(r.value, self),
            r.log@ == cpp_namespace_ir_warnings(self),
    {
        self.convert()
    }
}


/// Conversion options for C++ namespaces: the conversion's configuration.
#[derive(Clone)]
pub struct CppNamespaceConversionOptions {
    /// The conversion configuration (the user's hooks).
    pub config: ConversionConfig,
}

impl Default for CppNamespaceConversionOptions {
    fn default() -> (r: Self)
        ensures
            r.config.hooks is None,
    {
        CppNamespaceConversionOptions { config: ConversionConfig::default() }
    }
}

impl CppNamespaceConversionOptions {
    /// Whether options are given and carry hooks.
    pub open spec fn hooked(o: Option<&Self>) -> bool {
        o matches Some(x) && x.config.hooks is Some
    }
}

} // verus!
