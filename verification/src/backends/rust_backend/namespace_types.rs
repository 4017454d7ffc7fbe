use vstd::prelude::*;

use crate::conversion::ConversionConfig;

use super::{
    RustConstant, RustConstantRenderOptions, RustDefinition, RustDefinitionRenderOptions, RustEnum,
    RustEnumRenderOptions, RustFunction, RustFunctionRenderOptions, RustStruct, RustStructRenderOptions,
    RustVisibility,
};
use super::enum_types::rust_enum_ir_is;
use super::function_types::{rust_fn_ir_is, rust_fn_ir_warnings};
use super::struct_types::{rust_struct_ir_is, rust_struct_ir_warnings};
use super::visibility::rust_visibility_ir;
use crate::backends::BackendItem;
use crate::conversion::{flat, lemma_flat_all, lemma_flat_step, opt_flat, opt_items_are, ConversionLog, ConversionResult, WarningText};
use crate::ir::{LanguageConstant, LanguageDefinition, LanguageEnum, LanguageFunction, LanguageNamespace, LanguageStruct};

verus! {

/// Represents a Rust module (`mod`).
#[derive(Debug)]
pub struct RustModule {
    /// The name of the module.
    pub name: String,
    /// The visibility of the module.
    pub visibility: RustVisibility,
    /// The defines lowered into the module.
    pub defines: Option<Vec<RustDefinition>>,
    /// The constants in the module.
    pub constants: Option<Vec<RustConstant>>,
    /// The enums in the module.
    pub enums: Option<Vec<RustEnum>>,
    /// The structs in the module.
    pub structs: Option<Vec<RustStruct>>,
    /// The free functions in the module.
    pub functions: Option<Vec<RustFunction>>,
    /// The submodules in the module.
    pub modules: Option<Vec<RustModule>>,
    /// Optional documentation for the module.
    pub docs: Option<Vec<String>>,
}

/// Render options for Rust modules.
#[derive(Debug, Clone)]
pub struct RustModuleRenderOptions {
    pub define_options: RustDefinitionRenderOptions,
    pub constant_options: RustConstantRenderOptions,
    pub enum_options: RustEnumRenderOptions,
    pub struct_options: RustStructRenderOptions,
    pub function_options: RustFunctionRenderOptions,
}

impl View for RustModuleRenderOptions {
    /// The define constant type, the define docs switch, and the other options.
    type V = (
        Seq<char>,
        bool,
        RustConstantRenderOptions,
        RustEnumRenderOptions,
        RustStructRenderOptions,
        RustFunctionRenderOptions,
    );

    open spec fn view(&self) -> Self::V {
        (
            self.define_options.const_type@,
            self.define_options.render_docs,
            self.constant_options,
            self.enum_options,
            self.struct_options,
            self.function_options,
        )
    }
}

impl RustModuleRenderOptions {
    /// The view of the default options.
    pub open spec fn default_view() -> (
        Seq<char>,
        bool,
        RustConstantRenderOptions,
        RustEnumRenderOptions,
        RustStructRenderOptions,
        RustFunctionRenderOptions,
    ) {
        (
            "i64"@,
            true,
            RustConstantRenderOptions { render_docs: true },
            RustEnumRenderOptions::spec_default(),
            RustStructRenderOptions::spec_default(),
            RustFunctionRenderOptions::spec_default(),
        )
    }

    /// The view of the given options, or of the defaults.
    pub open spec fn view_or_default(o: Option<&Self>) -> (
        Seq<char>,
        bool,
        RustConstantRenderOptions,
        RustEnumRenderOptions,
        RustStructRenderOptions,
        RustFunctionRenderOptions,
    ) {
        match o {
            Some(o) => o@,
            None => Self::default_view(),
        }
    }
}

impl Default for RustModuleRenderOptions {
    fn default() -> (r: Self)
        ensures
            r@ == Self::default_view(),
    {
        RustModuleRenderOptions {
            define_options: RustDefinitionRenderOptions::default(),
            constant_options: RustConstantRenderOptions::default(),
            enum_options: RustEnumRenderOptions::default(),
            struct_options: RustStructRenderOptions::default(),
            function_options: RustFunctionRenderOptions::default(),
        }
    }
}


/// Whether `d` is the IR of the define `x`.
pub open spec fn rust_define_ir_is(d: LanguageDefinition, x: RustDefinition) -> bool {
    d.name == x.name && d.value == x.value && d.docs == x.docs
}

/// Whether `c` is the IR of the constant `x`.
pub open spec fn rust_constant_ir_is(c: LanguageConstant, x: RustConstant) -> bool {
    &&& c.name == x.name
    &&& c.visibility == rust_visibility_ir(x.visibility)
    &&& c.data_type == x.data_type
    &&& c.value == x.value
    &&& c.docs == x.docs
}

/// The warning of a constant: a `static` item.
pub open spec fn rust_constant_ir_warnings(x: RustConstant) -> Seq<WarningText> {
    if x.is_static {
        seq![crate::conversion::unsupported(
            "`static` item `"@ + x.name@ + "`"@,
            "lowered to a plain constant in the language-agnostic IR"@,
        )]
    } else {
        Seq::empty()
    }
}

/// What converting a Rust module to the IR loses: what its constants, structs and functions
/// lose, then what its nested modules lose, in order.
pub open spec fn rust_module_ir_warnings(m: RustModule) -> Seq<WarningText>
    decreases m, 1int,
{
    opt_flat(m.constants, |x: RustConstant| rust_constant_ir_warnings(x)) + opt_flat(
        m.structs,
        |s: RustStruct| rust_struct_ir_warnings(s),
    ) + opt_flat(m.functions, |f: RustFunction| rust_fn_ir_warnings(f)) + match m.modules {
        Some(v) => rust_modules_ir_warnings(v@),
        None => Seq::empty(),
    }
}

/// What converting each of the modules loses, one after the other.
pub open spec fn rust_modules_ir_warnings(ms: Seq<RustModule>) -> Seq<WarningText>
    decreases ms, 0int,
{
    if ms.len() == 0 {
        Seq::empty()
    } else {
        rust_modules_ir_warnings(ms.drop_last()) + rust_module_ir_warnings(ms.last())
    }
}

/// Whether `r` is the IR of the Rust module `m`: its visibility, the same name and docs, each
/// list present exactly when it is, with its items converted.
pub open spec fn rust_module_ir_is(r: LanguageNamespace, m: RustModule) -> bool
    decreases m,
{
    &&& r.name == m.name
    &&& r.visibility == rust_visibility_ir(m.visibility)
    &&& opt_items_are(r.defines, m.defines, |d: LanguageDefinition, x: RustDefinition| rust_define_ir_is(d, x))
    &&& opt_items_are(r.constants, m.constants, |c: LanguageConstant, x: RustConstant| rust_constant_ir_is(c, x))
    &&& opt_items_are(r.enums, m.enums, |e: LanguageEnum, x: RustEnum| rust_enum_ir_is(e, x))
    &&& opt_items_are(r.structs, m.structs, |s: LanguageStruct, x: RustStruct| rust_struct_ir_is(s, x))
    &&& opt_items_are(r.functions, m.functions, |f: LanguageFunction, x: RustFunction| rust_fn_ir_is(f, x))
    &&& match m.modules {
        Some(xs) => r.namespaces matches Some(ys) && ys@.len() == xs@.len() && forall|i: int|
            0 <= i < xs@.len() ==> rust_module_ir_is(#[trigger] ys@[i], xs@[i]),
        None => r.namespaces is None,
    }
    &&& r.docs == m.docs
    &&& r.raw_attributes@.len() == 0
}

/// Converts the defines of a namespace to the IR, in order, appending what each loses to `log`.
fn rust_defines_to_ir(items: Option<Vec<RustDefinition>>, log: &mut ConversionLog) -> (r: Option<Vec<LanguageDefinition>>)
    ensures
        opt_items_are(r, items, |a: LanguageDefinition, x: RustDefinition| rust_define_ir_is(a, x)),
        final(log)@ == old(log)@,
{
    match items {
        None => None,
        Some(v) => {
            let ghost all = v@;
            let mut rest = v;
            let mut out: Vec<LanguageDefinition> = Vec::new();
            while rest.len() > 0
                invariant
                    out@.len() + rest@.len() == all.len(),
                    rest@ == all.skip(out@.len() as int),
                    forall|i: int| 0 <= i < out@.len() ==> rust_define_ir_is(#[trigger] out@[i], all[i]),
                decreases rest@.len(),
            {
                let x = rest.remove(0);
                out.push(x.to_ir(None).value);
                assert(rest@ =~= all.skip(out@.len() as int));
            }
            Some(out)
        },
    }
}

/// Converts the constants of a namespace to the IR, in order, appending what each loses to `log`.
fn rust_constants_to_ir(items: Option<Vec<RustConstant>>, log: &mut ConversionLog) -> (r: Option<Vec<LanguageConstant>>)
    ensures
        opt_items_are(r, items, |a: LanguageConstant, x: RustConstant| rust_constant_ir_is(a, x)),
        final(log)@ == old(log)@ + opt_flat(items, |x: RustConstant| rust_constant_ir_warnings(x)),
{
    match items {
        None => {
            assert(log@ =~= old(log)@ + opt_flat(items, |x: RustConstant| rust_constant_ir_warnings(x)));
            None
        },
        Some(v) => {
            let ghost all = v@;
            let ghost parts = Seq::new(all.len(), |i: int| rust_constant_ir_warnings(all[i]));
            let ghost start = log@;
            let mut rest = v;
            let mut out: Vec<LanguageConstant> = Vec::new();
            while rest.len() > 0
                invariant
                    out@.len() + rest@.len() == all.len(),
                    rest@ == all.skip(out@.len() as int),
                    parts == Seq::new(all.len(), |i: int| rust_constant_ir_warnings(all[i])),
                    forall|i: int| 0 <= i < out@.len() ==> rust_constant_ir_is(#[trigger] out@[i], all[i]),
                    log@ == start + flat(parts.take(out@.len() as int)),
                decreases rest@.len(),
            {
                let x = rest.remove(0);
                proof {
                    lemma_flat_step(parts, out@.len() as int);
                }
                let c = x.to_ir(None);
                log.add_warnings(c.log.warnings);
                out.push(c.value);
                assert(rest@ =~= all.skip(out@.len() as int));
            }
            proof {
                lemma_flat_all(parts);
                assert(parts =~= Seq::new(all.len(), |i: int| (|x: RustConstant| rust_constant_ir_warnings(x))(all[i])));
            }
            Some(out)
        },
    }
}

/// Converts the enums of a namespace to the IR, in order, appending what each loses to `log`.
fn rust_enums_to_ir(items: Option<Vec<RustEnum>>, log: &mut ConversionLog) -> (r: Option<Vec<LanguageEnum>>)
    ensures
        opt_items_are(r, items, |a: LanguageEnum, x: RustEnum| rust_enum_ir_is(a, x)),
        final(log)@ == old(log)@,
{
    match items {
        None => None,
        Some(v) => {
            let ghost all = v@;
            let mut rest = v;
            let mut out: Vec<LanguageEnum> = Vec::new();
            while rest.len() > 0
                invariant
                    out@.len() + rest@.len() == all.len(),
                    rest@ == all.skip(out@.len() as int),
                    forall|i: int| 0 <= i < out@.len() ==> rust_enum_ir_is(#[trigger] out@[i], all[i]),
                decreases rest@.len(),
            {
                let x = rest.remove(0);
                out.push(x.to_ir(None).value);
                assert(rest@ =~= all.skip(out@.len() as int));
            }
            Some(out)
        },
    }
}

/// Converts the structs of a namespace to the IR, in order, appending what each loses to `log`.
fn rust_structs_to_ir(items: Option<Vec<RustStruct>>, log: &mut ConversionLog) -> (r: Option<Vec<LanguageStruct>>)
    ensures
        opt_items_are(r, items, |a: LanguageStruct, x: RustStruct| rust_struct_ir_is(a, x)),
        final(log)@ == old(log)@ + opt_flat(items, |x: RustStruct| rust_struct_ir_warnings(x)),
{
    match items {
        None => {
            assert(log@ =~= old(log)@ + opt_flat(items, |x: RustStruct| rust_struct_ir_warnings(x)));
            None
        },
        Some(v) => {
            let ghost all = v@;
            let ghost parts = Seq::new(all.len(), |i: int| rust_struct_ir_warnings(all[i]));
            let ghost start = log@;
            let mut rest = v;
            let mut out: Vec<LanguageStruct> = Vec::new();
            while rest.len() > 0
                invariant
                    out@.len() + rest@.len() == all.len(),
                    rest@ == all.skip(out@.len() as int),
                    parts == Seq::new(all.len(), |i: int| rust_struct_ir_warnings(all[i])),
                    forall|i: int| 0 <= i < out@.len() ==> rust_struct_ir_is(#[trigger] out@[i], all[i]),
                    log@ == start + flat(parts.take(out@.len() as int)),
                decreases rest@.len(),
            {
                let x = rest.remove(0);
                proof {
                    lemma_flat_step(parts, out@.len() as int);
                }
                let c = x.to_ir(None);
                log.add_warnings(c.log.warnings);
                out.push(c.value);
                assert(rest@ =~= all.skip(out@.len() as int));
            }
            proof {
                lemma_flat_all(parts);
                assert(parts =~= Seq::new(all.len(), |i: int| (|x: RustStruct| rust_struct_ir_warnings(x))(all[i])));
            }
            Some(out)
        },
    }
}

/// Converts the functions of a namespace to the IR, in order, appending what each loses to `log`.
fn rust_functions_to_ir(items: Option<Vec<RustFunction>>, log: &mut ConversionLog) -> (r: Option<Vec<LanguageFunction>>)
    ensures
        opt_items_are(r, items, |a: LanguageFunction, x: RustFunction| rust_fn_ir_is(a, x)),
        final(log)@ == old(log)@ + opt_flat(items, |x: RustFunction| rust_fn_ir_warnings(x)),
{
    match items {
        None => {
            assert(log@ =~= old(log)@ + opt_flat(items, |x: RustFunction| rust_fn_ir_warnings(x)));
            None
        },
        Some(v) => {
            let ghost all = v@;
            let ghost parts = Seq::new(all.len(), |i: int| rust_fn_ir_warnings(all[i]));
            let ghost start = log@;
            let mut rest = v;
            let mut out: Vec<LanguageFunction> = Vec::new();
            while rest.len() > 0
                invariant
                    out@.len() + rest@.len() == all.len(),
                    rest@ == all.skip(out@.len() as int),
                    parts == Seq::new(all.len(), |i: int| rust_fn_ir_warnings(all[i])),
                    forall|i: int| 0 <= i < out@.len() ==> rust_fn_ir_is(#[trigger] out@[i], all[i]),
                    log@ == start + flat(parts.take(out@.len() as int)),
                decreases rest@.len(),
            {
                let x = rest.remove(0);
                proof {
                    lemma_flat_step(parts, out@.len() as int);
                }
                let c = x.to_ir(None);
                log.add_warnings(c.log.warnings);
                out.push(c.value);
                assert(rest@ =~= all.skip(out@.len() as int));
            }
            proof {
                lemma_flat_all(parts);
                assert(parts =~= Seq::new(all.len(), |i: int| (|x: RustFunction| rust_fn_ir_warnings(x))(all[i])));
            }
            Some(out)
        },
    }
}

impl RustModule {
    /// Converts the module to the IR, with what its items and nested modules lose.
    fn convert(self) -> (r: ConversionResult<LanguageNamespace>)
        ensures
            rust_module_ir_is(r.value, self),
            r.log@ == rust_module_ir_warnings(self),
        decreases self,
    {
        let ghost n = self;
        let mut log = ConversionLog::new();
        let visibility = self.visibility.to_ir(None);
        let RustModule { name, visibility: _, defines, constants, enums, structs, functions, modules, docs } = self;
        let defines = rust_defines_to_ir(defines, &mut log);
        let constants = rust_constants_to_ir(constants, &mut log);
        let enums = rust_enums_to_ir(enums, &mut log);
        let structs = rust_structs_to_ir(structs, &mut log);
        let functions = rust_functions_to_ir(functions, &mut log);
        let ghost head = log@;
        let namespaces = match modules {
            None => None,
            Some(v) => {
                let ghost all = v@;
                let mut rest = v;
                let mut out: Vec<LanguageNamespace> = Vec::new();
                while rest.len() > 0
                    invariant
                        n.modules == Some(v),
                        n == self,
                        all == v@,
                        out@.len() + rest@.len() == all.len(),
                        rest@ == all.skip(out@.len() as int),
                        forall|i: int| 0 <= i < out@.len() ==> rust_module_ir_is(#[trigger] out@[i], all[i]),
                        log@ == head + rust_modules_ir_warnings(all.take(out@.len() as int)),
                    decreases rest@.len(),
                {
                    let ghost k = out@.len();
                    let x = rest.remove(0);
                    assert(x == all[k as int]);
                    assert(decreases_to!(self => x)) by {
                        assert(decreases_to!(n => n.modules));
                        assert(decreases_to!(n.modules => n.modules->0));
                        assert(decreases_to!(n.modules->0 => n.modules->0@));
                        assert(decreases_to!(n.modules->0@ => n.modules->0@[k as int]));
                    }
                    let c = x.convert();
                    log.add_warnings(c.log.warnings);
                    out.push(c.value);
                    assert(all.take(k as int + 1).drop_last() =~= all.take(k as int));
                    assert(rest@ =~= all.skip(out@.len() as int));
                }
                assert(all.take(all.len() as int) =~= all);
                Some(out)
            },
        };
        assert(log@ =~= rust_module_ir_warnings(n));
        ConversionResult::with_log(
            LanguageNamespace {
                name,
                visibility: visibility.value,
                defines,
                constants,
                enums,
                structs,
                functions,
                namespaces,
                docs,
                raw_attributes: Vec::new(),
            },
            log,
        )
    }

    /// Converts the module to the IR, with what its items and nested modules lose.
    pub fn to_ir(self, options: Option<&RustModuleConversionOptions>) -> (r: ConversionResult<LanguageNamespace>)
        ensures
            rust_module_ir_is(r.value, self),
            r.log@ == rust_module_ir_warnings(self),
    {
        self.convert()
    }
}


/// Conversion options for Rust modules: the conversion's configuration.
#[derive(Clone)]
pub struct RustModuleConversionOptions {
    /// The conversion configuration (the user's hooks).
    pub config: ConversionConfig,
}

impl Default for RustModuleConversionOptions {
    fn default() -> (r: Self)
        ensures
            r.config.hooks is None,
    {
        RustModuleConversionOptions { config: ConversionConfig::default() }
    }
}

impl RustModuleConversionOptions {
    /// Whether options are given and carry hooks.
    pub open spec fn hooked(o: Option<&Self>) -> bool {
        o matches Some(x) && x.config.hooks is Some
    }
}

} // verus!
